//! The response shapes and the resolver that tells them apart.

use vstd::prelude::*;

use crate::error::{view_result, Error, ErrorView};
use crate::nerdgraph::json::{items_view, lemma_array_view, Json, JsonView};
use crate::nerdgraph::number::{exact_integer, parse_integer};
use crate::nerdgraph::row::{
    decode_row, lemma_decode_row_wf, row_wf, ResultRow, Results, RowView,
};
use vstd::string::StringExecFns;

verus! {

/// One account that the API key can see.
#[derive(Debug, Clone, PartialEq, Eq)]
pub struct Account {
    pub id: i64,
    pub name: String,
}

/// The user that the API key belongs to.
#[derive(Debug, Clone, PartialEq, Eq)]
pub struct User {
    pub name: String,
}

/// The info shape: the accounts and the user.
#[derive(Debug, Clone, PartialEq, Eq)]
pub struct InfoActor {
    pub accounts: Vec<Account>,
    pub user: User,
}

/// The text of a query and the rows it produced.
#[derive(Debug, Clone, PartialEq, Eq)]
pub struct Nrql {
    pub nrql: String,
    pub results: Results,
}

/// The account that a query ran against.
#[derive(Debug, Clone, PartialEq, Eq)]
pub struct NrqlAccount {
    pub nrql: Nrql,
}

/// The query-results shape.
#[derive(Debug, Clone, PartialEq, Eq)]
pub struct NrqlActor {
    pub account: NrqlAccount,
}

/// A response, in exactly one of its two shapes.
#[derive(Debug, Clone, PartialEq, Eq)]
pub enum Actor {
    Nrql(NrqlActor),
    Info(InfoActor),
}

/// The data of a response.
#[derive(Debug, Clone, PartialEq, Eq)]
pub struct Data {
    pub actor: Actor,
}

/// Mathematical model of an [`Account`].
pub ghost struct AccountView {
    pub id: int,
    pub name: Seq<char>,
}

/// Mathematical model of a [`User`].
pub ghost struct UserView {
    pub name: Seq<char>,
}

/// Mathematical model of an [`InfoActor`].
pub ghost struct InfoActorView {
    pub accounts: Seq<AccountView>,
    pub user: UserView,
}

/// Mathematical model of a [`Nrql`], and of what wraps one.
pub ghost struct NrqlView {
    pub nrql: Seq<char>,
    pub results: Seq<RowView>,
}

/// Mathematical model of an [`Actor`].
pub ghost enum ActorView {
    Nrql(NrqlView),
    Info(InfoActorView),
}

impl ActorView {
    /// What resolving can produce: every row of a query-results shape is
    /// well-formed.
    pub open spec fn wf(self) -> bool {
        match self {
            ActorView::Nrql(actor) => forall|i: int|
                0 <= i < actor.results.len() ==> row_wf(#[trigger] actor.results[i]),
            ActorView::Info(_) => true,
        }
    }
}

impl View for Account {
    type V = AccountView;

    open spec fn view(&self) -> AccountView {
        AccountView { id: self.id as int, name: self.name@ }
    }
}

impl View for User {
    type V = UserView;

    open spec fn view(&self) -> UserView {
        UserView { name: self.name@ }
    }
}

/// The models of a vector of accounts, in order.
pub open spec fn accounts_view(accounts: Seq<Account>) -> Seq<AccountView> {
    Seq::new(accounts.len(), |i: int| accounts[i]@)
}

/// The models of a vector of rows, in order.
pub open spec fn rows_view(rows: Seq<ResultRow>) -> Seq<RowView> {
    Seq::new(rows.len(), |i: int| rows[i]@)
}

impl View for InfoActor {
    type V = InfoActorView;

    open spec fn view(&self) -> InfoActorView {
        InfoActorView { accounts: accounts_view(self.accounts@), user: self.user@ }
    }
}

impl View for Nrql {
    type V = NrqlView;

    open spec fn view(&self) -> NrqlView {
        NrqlView { nrql: self.nrql@, results: rows_view(self.results@) }
    }
}

impl View for NrqlAccount {
    type V = NrqlView;

    open spec fn view(&self) -> NrqlView {
        self.nrql@
    }
}

impl View for NrqlActor {
    type V = NrqlView;

    open spec fn view(&self) -> NrqlView {
        self.account@
    }
}

impl View for Actor {
    type V = ActorView;

    open spec fn view(&self) -> ActorView {
        match self {
            Actor::Nrql(actor) => ActorView::Nrql(actor@),
            Actor::Info(actor) => ActorView::Info(actor@),
        }
    }
}

impl View for Data {
    type V = ActorView;

    open spec fn view(&self) -> ActorView {
        self.actor@
    }
}

/// The account that a JSON value decodes to: its `id`, an integer literal in
/// the range of `i64`, and its `name`, a text. A decode error names the
/// first of the two that is missing or of another kind.
pub open spec fn decode_account(value: JsonView) -> Result<AccountView, ErrorView> {
    match value.member("id"@) {
        Some(JsonView::Number(literal)) => match exact_integer(literal) {
            Some(id) => if i64::MIN <= id <= i64::MAX {
                match value.member("name"@) {
                    Some(JsonView::Text(name)) => Ok(AccountView { id, name }),
                    _ => Err(ErrorView::Decode("name"@)),
                }
            } else {
                Err(ErrorView::Decode("id"@))
            },
            None => Err(ErrorView::Decode("id"@)),
        },
        _ => Err(ErrorView::Decode("id"@)),
    }
}

/// The user that a JSON value decodes to: its `name`, a text.
pub open spec fn decode_user(value: JsonView) -> Result<UserView, ErrorView> {
    match value.member("name"@) {
        Some(JsonView::Text(name)) => Ok(UserView { name }),
        _ => Err(ErrorView::Decode("name"@)),
    }
}

/// Whether `k` is the first item that is no account.
pub open spec fn first_bad_account(items: Seq<JsonView>, k: int) -> bool {
    &&& 0 <= k < items.len()
    &&& decode_account(items[k]) is Err
    &&& forall|i: int| 0 <= i < k ==> decode_account(#[trigger] items[i]) is Ok
}

/// The accounts that a JSON array decodes to, one for one; the error of the
/// first item that is no account, if there is one.
pub open spec fn decode_accounts(items: Seq<JsonView>) -> Result<Seq<AccountView>, ErrorView> {
    if forall|i: int| 0 <= i < items.len() ==> decode_account(#[trigger] items[i]) is Ok {
        Ok(Seq::new(items.len(), |i: int| decode_account(items[i])->Ok_0))
    } else {
        Err(decode_account(items[choose|k: int| first_bad_account(items, k)])->Err_0)
    }
}

/// Whether `k` is the first item that is no row.
pub open spec fn first_bad_row(items: Seq<JsonView>, k: int) -> bool {
    &&& 0 <= k < items.len()
    &&& decode_row(items[k]) is Err
    &&& forall|i: int| 0 <= i < k ==> decode_row(#[trigger] items[i]) is Ok
}

/// The rows that a JSON array decodes to, one for one; the error of the
/// first item that is no row, if there is one.
pub open spec fn decode_rows(items: Seq<JsonView>) -> Result<Seq<RowView>, ErrorView> {
    if forall|i: int| 0 <= i < items.len() ==> decode_row(#[trigger] items[i]) is Ok {
        Ok(Seq::new(items.len(), |i: int| decode_row(items[i])->Ok_0))
    } else {
        Err(decode_row(items[choose|k: int| first_bad_row(items, k)])->Err_0)
    }
}

/// The info shape is present: the body has an `accounts` array and a `user`
/// object.
pub open spec fn is_info_shape(body: JsonView) -> bool {
    &&& body.member("accounts"@) matches Some(JsonView::Array(_))
    &&& body.member("user"@) matches Some(JsonView::Object(_))
}

/// The query-results shape is present: the body has an `account` with an
/// `nrql` that has a `results` array.
pub open spec fn is_query_shape(body: JsonView) -> bool {
    &&& body.member("account"@) matches Some(account)
    &&& account.member("nrql"@) matches Some(nrql)
    &&& nrql.member("results"@) matches Some(JsonView::Array(_))
}

/// The info shape that a body decodes to. A body without that shape is a
/// schema mismatch; within the shape, the accounts are decoded before the
/// user, and the first failure is the error.
pub open spec fn decode_info(body: JsonView) -> Result<InfoActorView, ErrorView> {
    if !is_info_shape(body) {
        Err(ErrorView::SchemaMismatch)
    } else {
        match decode_accounts(body.member("accounts"@)->Some_0->Array_0) {
            Ok(accounts) => match decode_user(body.member("user"@)->Some_0) {
                Ok(user) => Ok(InfoActorView { accounts, user }),
                Err(error) => Err(error),
            },
            Err(error) => Err(error),
        }
    }
}

/// The query-results shape that a body decodes to. A body without that
/// shape is a schema mismatch; within the shape, the query text, a text
/// called `nrql`, is decoded before the rows, and the first failure is the
/// error.
pub open spec fn decode_query(body: JsonView) -> Result<NrqlView, ErrorView> {
    if !is_query_shape(body) {
        Err(ErrorView::SchemaMismatch)
    } else {
        let nrql = body.member("account"@)->Some_0.member("nrql"@)->Some_0;
        match nrql.member("nrql"@) {
            Some(JsonView::Text(text)) => match decode_rows(
                nrql.member("results"@)->Some_0->Array_0,
            ) {
                Ok(results) => Ok(NrqlView { nrql: text, results }),
                Err(error) => Err(error),
            },
            _ => Err(ErrorView::Decode("nrql"@)),
        }
    }
}

/// The shape that a body resolves to.
///
/// A body with exactly one of the two shapes decodes as that shape. A body
/// with both, or with neither, is a schema mismatch.
pub open spec fn resolve(body: JsonView) -> Result<ActorView, ErrorView> {
    if is_info_shape(body) == is_query_shape(body) {
        Err(ErrorView::SchemaMismatch)
    } else if is_info_shape(body) {
        match decode_info(body) {
            Ok(actor) => Ok(ActorView::Info(actor)),
            Err(error) => Err(error),
        }
    } else {
        match decode_query(body) {
            Ok(actor) => Ok(ActorView::Nrql(actor)),
            Err(error) => Err(error),
        }
    }
}

/// What the data of a response decodes to.
///
/// Null data, and data whose `actor` is null, is the server saying that
/// there is no actor data: that is no error, and decodes to nothing. Data
/// without an `actor` is a schema mismatch. Any other `actor` is resolved.
pub open spec fn decode_data(data: JsonView) -> Result<Option<ActorView>, ErrorView> {
    match data {
        JsonView::Null => Ok(None),
        _ => match data.member("actor"@) {
            None => Err(ErrorView::SchemaMismatch),
            Some(JsonView::Null) => Ok(None),
            Some(body) => match resolve(body) {
                Ok(actor) => Ok(Some(actor)),
                Err(error) => Err(error),
            },
        },
    }
}

/// The view of a fallible, optional result.
pub open spec fn view_optional<T: View>(r: Result<Option<T>, Error>) -> Result<
    Option<T::V>,
    ErrorView,
> {
    match r {
        Ok(Some(value)) => Ok(Some(value@)),
        Ok(None) => Ok(None),
        Err(error) => Err(error@),
    }
}

impl Account {
    /// Decodes one item of the `accounts` array.
    pub fn decode(value: &Json) -> (decoded: Result<Account, Error>)
        ensures
            view_result(decoded) == decode_account(value@),
    {
        let id = match value.member("id") {
            Some(Json::Number(literal)) => match parse_integer(literal.as_str()) {
                Some(id) => id,
                None => {
                    return Err(Error::Decode(String::from_str("id")));
                },
            },
            _ => {
                return Err(Error::Decode(String::from_str("id")));
            },
        };
        match value.member("name") {
            Some(Json::Text(name)) => Ok(Account { id, name: name.clone() }),
            _ => Err(Error::Decode(String::from_str("name"))),
        }
    }
}

impl User {
    /// Decodes the `user` object.
    pub fn decode(value: &Json) -> (decoded: Result<User, Error>)
        ensures
            view_result(decoded) == decode_user(value@),
    {
        match value.member("name") {
            Some(Json::Text(name)) => Ok(User { name: name.clone() }),
            _ => Err(Error::Decode(String::from_str("name"))),
        }
    }
}

/// Whether the info shape is present in `body`.
pub fn has_info_shape(body: &Json) -> (yes: bool)
    ensures
        yes == is_info_shape(body@),
{
    let accounts = match body.member("accounts") {
        Some(Json::Array(_)) => true,
        _ => false,
    };
    let user = match body.member("user") {
        Some(Json::Object(_)) => true,
        _ => false,
    };
    accounts && user
}

/// Whether the query-results shape is present in `body`.
pub fn has_query_shape(body: &Json) -> (yes: bool)
    ensures
        yes == is_query_shape(body@),
{
    match body.member("account") {
        Some(account) => match account.member("nrql") {
            Some(nrql) => match nrql.member("results") {
                Some(Json::Array(_)) => true,
                _ => false,
            },
            None => false,
        },
        None => false,
    }
}

/// At most one item is the first that is no account.
proof fn lemma_first_bad_account_unique(items: Seq<JsonView>, k: int)
    requires
        first_bad_account(items, k),
    ensures
        (choose|k: int| first_bad_account(items, k)) == k,
{
    let chosen = choose|k: int| first_bad_account(items, k);
    if chosen < k {
        assert(decode_account(items[chosen]) is Ok);
    }
    if k < chosen {
        assert(decode_account(items[k]) is Ok);
    }
}

/// At most one item is the first that is no row.
proof fn lemma_first_bad_row_unique(items: Seq<JsonView>, k: int)
    requires
        first_bad_row(items, k),
    ensures
        (choose|k: int| first_bad_row(items, k)) == k,
{
    let chosen = choose|k: int| first_bad_row(items, k);
    if chosen < k {
        assert(decode_row(items[chosen]) is Ok);
    }
    if k < chosen {
        assert(decode_row(items[k]) is Ok);
    }
}

/// Decodes the items of the `accounts` array, in order.
fn decode_account_items(items: &Vec<Json>) -> (decoded: Result<Vec<Account>, Error>)
    ensures
        match decoded {
            Ok(accounts) => decode_accounts(items_view(items@)) == Ok::<
                Seq<AccountView>,
                ErrorView,
            >(accounts_view(accounts@)),
            Err(error) => decode_accounts(items_view(items@)) == Err::<
                Seq<AccountView>,
                ErrorView,
            >(error@),
        },
{
    let ghost all = items_view(items@);
    let mut accounts: Vec<Account> = Vec::new();
    let mut i: usize = 0;
    while i < items.len()
        invariant
            i <= items@.len(),
            all == items_view(items@),
            accounts@.len() == i,
            forall|k: int|
                0 <= k < i ==> decode_account(#[trigger] all[k]) == Ok::<AccountView, ErrorView>(
                    accounts@[k]@,
                ),
        decreases items@.len() - i,
    {
        assert(all[i as int] == items@[i as int]@);
        match Account::decode(&items[i]) {
            Ok(account) => {
                accounts.push(account);
            },
            Err(error) => {
                proof {
                    lemma_first_bad_account_unique(all, i as int);
                }
                return Err(error);
            },
        }
        i += 1;
    }
    assert(accounts_view(accounts@) =~= Seq::new(
        all.len(),
        |i: int| decode_account(all[i])->Ok_0,
    ));
    Ok(accounts)
}

/// Decodes the items of the `results` array, in order.
fn decode_row_items(items: &Vec<Json>) -> (decoded: Result<Results, Error>)
    ensures
        match decoded {
            Ok(rows) => decode_rows(items_view(items@)) == Ok::<Seq<RowView>, ErrorView>(
                rows_view(rows@),
            ) && forall|i: int| 0 <= i < rows@.len() ==> row_wf(#[trigger] rows@[i]@),
            Err(error) => decode_rows(items_view(items@)) == Err::<Seq<RowView>, ErrorView>(
                error@,
            ),
        },
{
    let ghost all = items_view(items@);
    let mut rows: Vec<ResultRow> = Vec::new();
    let mut i: usize = 0;
    while i < items.len()
        invariant
            i <= items@.len(),
            all == items_view(items@),
            rows@.len() == i,
            forall|k: int|
                0 <= k < i ==> decode_row(#[trigger] all[k]) == Ok::<RowView, ErrorView>(
                    rows@[k]@,
                ),
            forall|k: int| 0 <= k < i ==> row_wf(#[trigger] rows@[k]@),
        decreases items@.len() - i,
    {
        assert(all[i as int] == items@[i as int]@);
        match ResultRow::decode(&items[i]) {
            Ok(row) => {
                rows.push(row);
            },
            Err(error) => {
                proof {
                    lemma_first_bad_row_unique(all, i as int);
                }
                return Err(error);
            },
        }
        i += 1;
    }
    assert(rows_view(rows@) =~= Seq::new(all.len(), |i: int| decode_row(all[i])->Ok_0));
    Ok(rows)
}

impl InfoActor {
    /// Decodes a body as the info shape.
    pub fn decode(body: &Json) -> (decoded: Result<InfoActor, Error>)
        ensures
            view_result(decoded) == decode_info(body@),
    {
        let items = match body.member("accounts") {
            Some(Json::Array(items)) => items,
            _ => {
                return Err(Error::SchemaMismatch);
            },
        };
        let user = match body.member("user") {
            Some(user) => match user {
                Json::Object(_) => user,
                _ => {
                    return Err(Error::SchemaMismatch);
                },
            },
            None => {
                return Err(Error::SchemaMismatch);
            },
        };
        proof {
            lemma_array_view(*items);
        }
        let accounts = match decode_account_items(items) {
            Ok(accounts) => accounts,
            Err(error) => {
                return Err(error);
            },
        };
        match User::decode(user) {
            Ok(user) => Ok(InfoActor { accounts, user }),
            Err(error) => Err(error),
        }
    }
}

impl NrqlActor {
    /// Decodes a body as the query-results shape.
    pub fn decode(body: &Json) -> (decoded: Result<NrqlActor, Error>)
        ensures
            view_result(decoded) == decode_query(body@),
            decoded matches Ok(actor) ==> forall|i: int|
                0 <= i < actor@.results.len() ==> row_wf(#[trigger] actor@.results[i]),
    {
        let nrql = match body.member("account") {
            Some(account) => match account.member("nrql") {
                Some(nrql) => nrql,
                None => {
                    return Err(Error::SchemaMismatch);
                },
            },
            None => {
                return Err(Error::SchemaMismatch);
            },
        };
        let items = match nrql.member("results") {
            Some(Json::Array(items)) => items,
            _ => {
                return Err(Error::SchemaMismatch);
            },
        };
        proof {
            lemma_array_view(*items);
        }
        let text = match nrql.member("nrql") {
            Some(Json::Text(text)) => text.clone(),
            _ => {
                return Err(Error::Decode(String::from_str("nrql")));
            },
        };
        match decode_row_items(items) {
            Ok(results) => Ok(
                NrqlActor { account: NrqlAccount { nrql: Nrql { nrql: text, results } } },
            ),
            Err(error) => Err(error),
        }
    }
}

impl Actor {
    /// The response variant resolver: decides from the members of `body`
    /// which shape is present, and decodes it.
    ///
    /// A body with both shapes, or with neither, is rejected as a schema
    /// mismatch.
    pub fn resolve(body: &Json) -> (resolved: Result<Actor, Error>)
        ensures
            view_result(resolved) == resolve(body@),
            is_info_shape(body@) == is_query_shape(body@) ==> resolved == Err::<Actor, Error>(
                Error::SchemaMismatch,
            ),
            resolved matches Ok(Actor::Info(_)) ==> is_info_shape(body@) && !is_query_shape(
                body@,
            ),
            resolved matches Ok(Actor::Nrql(_)) ==> is_query_shape(body@) && !is_info_shape(
                body@,
            ),
            resolved matches Ok(actor) ==> actor@.wf(),
    {
        let info = has_info_shape(body);
        let query = has_query_shape(body);
        if info == query {
            Err(Error::SchemaMismatch)
        } else if info {
            match InfoActor::decode(body) {
                Ok(actor) => Ok(Actor::Info(actor)),
                Err(error) => Err(error),
            }
        } else {
            match NrqlActor::decode(body) {
                Ok(actor) => Ok(Actor::Nrql(actor)),
                Err(error) => Err(error),
            }
        }
    }
}

impl Data {
    /// Decodes the data of a response.
    pub fn decode(data: &Json) -> (decoded: Result<Option<Data>, Error>)
        ensures
            view_optional(decoded) == decode_data(data@),
            decoded matches Ok(Some(data)) ==> data@.wf(),
    {
        match data {
            Json::Null => Ok(None),
            _ => match data.member("actor") {
                None => Err(Error::SchemaMismatch),
                Some(Json::Null) => Ok(None),
                Some(body) => match Actor::resolve(body) {
                    Ok(actor) => Ok(Some(Data { actor })),
                    Err(error) => Err(error),
                },
            },
        }
    }
}

/// Whatever resolves is well-formed.
pub proof fn lemma_resolve_wf(body: JsonView)
    ensures
        resolve(body) matches Ok(actor) ==> actor.wf(),
{
    if let Ok(ActorView::Nrql(actor)) = resolve(body) {
        let nrql = body.member("account"@)->Some_0.member("nrql"@)->Some_0;
        let items = nrql.member("results"@)->Some_0->Array_0;
        assert(decode_rows(items) == Ok::<Seq<RowView>, ErrorView>(actor.results));
        assert forall|i: int| 0 <= i < actor.results.len() implies row_wf(
            #[trigger] actor.results[i],
        ) by {
            lemma_decode_row_wf(items[i]);
        }
    }
}

/// A body that has both shapes, and a body that has neither, resolves to a
/// schema mismatch.
pub proof fn lemma_resolve_rejects(body: JsonView)
    ensures
        is_info_shape(body) && is_query_shape(body) ==> resolve(body) == Err::<
            ActorView,
            ErrorView,
        >(ErrorView::SchemaMismatch),
        !is_info_shape(body) && !is_query_shape(body) ==> resolve(body) == Err::<
            ActorView,
            ErrorView,
        >(ErrorView::SchemaMismatch),
{
}

} // verus!
