//! The query client: what it sends, and what it makes of the reply.
//!
//! The round trip itself is the caller's: the client hands out a
//! [`Request`], the caller sends it and hands back a [`Reply`].

use vstd::prelude::*;

use crate::error::{Error, ErrorView};
use crate::nerdgraph::actor::{
    decode_data, rows_view, view_optional, Actor, ActorView, Data, InfoActor, InfoActorView, User,
    UserView,
};
use crate::nerdgraph::user::decode_user_data;
use crate::nerdgraph::json::{Json, JsonView};
use crate::nerdgraph::number::chars_of;
use crate::nerdgraph::row::{row_wf, Results, RowView};
use vstd::string::{StrSliceExecFns, StringExecFns};

verus! {

/// The endpoint that is used unless the environment names another.
pub const DEFAULT_ENDPOINT: &'static str = "https://api.newrelic.com/graphql";

/// The environment variable that holds the API key.
pub const API_KEY_VARIABLE: &'static str = "NR_API_KEY";

/// The environment variable that overrides the endpoint.
pub const ENDPOINT_VARIABLE: &'static str = "NR_API_ENDPOINT";

/// The request header that carries the API key.
pub const API_KEY_HEADER: &'static str = "api-key";

/// The query that asks for the accounts and the user. It takes no variables.
pub const ACTOR_INFO_QUERY: &'static str = "
            query nrClueGetActorInfo {
                actor {
                    accounts { id name }
                    user { name }
                }
            }
        ";

/// The query that runs a query text against an account. It takes the
/// variables of [`Vars`].
pub const NRQL_QUERY: &'static str = "
            query nrClueGetNrql($account_id: Int!, $nrql_query: Nrql!) {
                actor {
                    account(id: $account_id) {
                        nrql(query:$nrql_query) {
                            results
                            nrql
                        }
                    }
                }
            }
        ";

/// The query that asks for the user alone. It takes no variables.
pub const USER_INFO_QUERY: &'static str = "
        query ShowUser {
           actor {
               user {
                   name
               }
           }
        }
      ";

/// How the message of a failed round trip begins when a body arrived but
/// could not be parsed. The colon is part of it: a message about a response
/// header that could not be parsed begins alike up to there, and is no
/// parse failure of a body.
pub const PARSE_FAILURE_PREFIX: &'static str = "Failed to parse response:";

/// Where the client sends its queries, and with which credential.
#[derive(Debug, Clone, PartialEq, Eq)]
pub struct ClientConfig {
    pub endpoint: String,
    pub api_key: String,
}

/// The variables of the parameterized query.
#[derive(Debug, Clone, PartialEq, Eq)]
pub struct Vars {
    pub account_id: i32,
    pub nrql_query: String,
}

/// One request header.
#[derive(Debug, Clone, PartialEq, Eq)]
pub struct Header {
    pub name: String,
    pub value: String,
}

/// One query, ready to be sent to the client's endpoint.
#[derive(Debug, Clone, PartialEq, Eq)]
pub struct Request {
    /// The text of the query.
    pub query: String,
    /// The variables of the query, if it takes any.
    pub variables: Option<Vars>,
}

/// What one round trip produced.
#[derive(Debug, PartialEq, Eq)]
pub enum Reply {
    /// The round trip failed. Carries the transport's message.
    Failed(String),
    /// The endpoint answered. Carries the data of the answer, if it held any.
    Answered(Option<Json>),
}

/// Mathematical model of a [`Reply`].
pub ghost enum ReplyView {
    Failed(Seq<char>),
    Answered(Option<JsonView>),
}

impl View for Reply {
    type V = ReplyView;

    open spec fn view(&self) -> ReplyView {
        match self {
            Reply::Failed(message) => ReplyView::Failed(message@),
            Reply::Answered(Some(data)) => ReplyView::Answered(Some(data@)),
            Reply::Answered(None) => ReplyView::Answered(None),
        }
    }
}

/// The error that a failed round trip stands for: a decode error that names
/// no column if the message says that a body arrived and could not be
/// parsed, a transport error with the message otherwise.
///
/// The message is all there is to go by. A transport that parses the body
/// before it looks at the status reports an answer that is no JSON as a
/// parse failure whatever its status was, and so it counts here.
pub open spec fn failure(message: Seq<char>) -> ErrorView {
    if PARSE_FAILURE_PREFIX@.is_prefix_of(message) {
        ErrorView::Decode(Seq::empty())
    } else {
        ErrorView::Transport(message)
    }
}

/// The actor data that a reply holds: nothing if the endpoint sent no data
/// or said that there is none, and the error if the round trip failed or
/// the data does not decode.
pub open spec fn actor_of(reply: ReplyView) -> Result<Option<ActorView>, ErrorView> {
    match reply {
        ReplyView::Failed(message) => Err(failure(message)),
        ReplyView::Answered(None) => Ok(None),
        ReplyView::Answered(Some(data)) => decode_data(data),
    }
}

/// What the info query returns for a reply: the info shape that the reply
/// holds. A reply that holds the other shape is a schema mismatch.
pub open spec fn actor_info_of(reply: ReplyView) -> Result<Option<InfoActorView>, ErrorView> {
    match actor_of(reply) {
        Ok(Some(ActorView::Info(actor))) => Ok(Some(actor)),
        Ok(Some(ActorView::Nrql(_))) => Err(ErrorView::SchemaMismatch),
        Ok(None) => Ok(None),
        Err(error) => Err(error),
    }
}

/// What the parameterized query returns for a reply: the rows of the
/// query-results shape that the reply holds. A reply that holds the other
/// shape is a schema mismatch.
pub open spec fn nrql_of(reply: ReplyView) -> Result<Option<Seq<RowView>>, ErrorView> {
    match actor_of(reply) {
        Ok(Some(ActorView::Nrql(actor))) => Ok(Some(actor.results)),
        Ok(Some(ActorView::Info(_))) => Err(ErrorView::SchemaMismatch),
        Ok(None) => Ok(None),
        Err(error) => Err(error),
    }
}

/// What the user query returns for a reply: the user that the reply holds.
pub open spec fn user_info_of(reply: ReplyView) -> Result<Option<UserView>, ErrorView> {
    match reply {
        ReplyView::Failed(message) => Err(failure(message)),
        ReplyView::Answered(None) => Ok(None),
        ReplyView::Answered(Some(data)) => decode_user_data(data),
    }
}

/// Whether `text` begins with `prefix`.
pub fn starts_with(text: &str, prefix: &str) -> (yes: bool)
    ensures
        yes == prefix@.is_prefix_of(text@),
{
    let whole = chars_of(text);
    let start = chars_of(prefix);
    if start.len() > whole.len() {
        return false;
    }
    let mut i: usize = 0;
    while i < start.len()
        invariant
            whole@ == text@,
            start@ == prefix@,
            i <= start@.len() <= whole@.len(),
            forall|k: int| 0 <= k < i ==> start@[k] == whole@[k],
        decreases start@.len() - i,
    {
        if start[i] != whole[i] {
            assert(whole@.subrange(0, start@.len() as int)[i as int] == whole@[i as int]);
            return false;
        }
        i += 1;
    }
    assert(start@ =~= whole@.subrange(0, start@.len() as int));
    true
}

/// The error that a failed round trip with this message stands for.
pub fn classify_failure(message: String) -> (error: Error)
    ensures
        error@ == failure(message@),
{
    if starts_with(message.as_str(), PARSE_FAILURE_PREFIX) {
        Error::Decode(String::new())
    } else {
        Error::Transport(message)
    }
}

impl ClientConfig {
    /// Resolves the configuration from what the environment holds under
    /// [`API_KEY_VARIABLE`] and [`ENDPOINT_VARIABLE`]: an API key that is
    /// not set is empty, an endpoint that is not set is the default.
    pub fn resolve(api_key: Option<String>, endpoint: Option<String>) -> (config: ClientConfig)
        ensures
            config.api_key@ == match api_key {
                Some(key) => key@,
                None => Seq::<char>::empty(),
            },
            config.endpoint@ == match endpoint {
                Some(endpoint) => endpoint@,
                None => DEFAULT_ENDPOINT@,
            },
    {
        let api_key = match api_key {
            Some(key) => key,
            None => String::new(),
        };
        let endpoint = match endpoint {
            Some(endpoint) => endpoint,
            None => String::from_str(DEFAULT_ENDPOINT),
        };
        ClientConfig { endpoint, api_key }
    }
}

/// The query client. Its configuration does not change once it is built.
#[derive(Debug, Clone, PartialEq, Eq)]
pub struct Client {
    config: ClientConfig,
}

impl Client {
    /// The configuration that the client was built with.
    pub closed spec fn configuration(self) -> ClientConfig {
        self.config
    }

    /// Builds the client from what the environment holds.
    ///
    /// Fails with `CredentialMissing` exactly when the API key is not set
    /// or is empty, before any request can be made.
    pub fn new(api_key: Option<String>, endpoint: Option<String>) -> (client: Result<
        Client,
        Error,
    >)
        ensures
            match client {
                Ok(client) => {
                    &&& api_key matches Some(key)
                    &&& key@.len() > 0
                    &&& client.configuration().api_key@ == key@
                    &&& client.configuration().endpoint@ == match endpoint {
                        Some(endpoint) => endpoint@,
                        None => DEFAULT_ENDPOINT@,
                    }
                },
                Err(error) => {
                    &&& error == Error::CredentialMissing
                    &&& api_key matches Some(key) ==> key@.len() == 0
                },
            },
    {
        let config = ClientConfig::resolve(api_key, endpoint);
        if config.api_key.as_str().unicode_len() == 0 {
            Err(Error::CredentialMissing)
        } else {
            Ok(Client { config })
        }
    }

    /// The configuration that the client was built with.
    pub fn config(&self) -> (config: &ClientConfig)
        ensures
            *config == self.configuration(),
    {
        &self.config
    }

    /// The header that every request of this client carries: the API key,
    /// under the name [`API_KEY_HEADER`].
    pub fn header(&self) -> (header: Header)
        ensures
            header.name@ == API_KEY_HEADER@,
            header.value@ == self.configuration().api_key@,
    {
        Header { name: String::from_str(API_KEY_HEADER), value: self.config.api_key.clone() }
    }

    /// The request of the info query.
    pub fn actor_info_request(&self) -> (request: Request)
        ensures
            request.query@ == ACTOR_INFO_QUERY@,
            request.variables is None,
    {
        Request { query: String::from_str(ACTOR_INFO_QUERY), variables: None }
    }

    /// The request of the parameterized query, with `account_id` and
    /// `nrql_query` as its variables.
    pub fn nrql_request(&self, account_id: i32, nrql_query: String) -> (request: Request)
        ensures
            request.query@ == NRQL_QUERY@,
            request.variables matches Some(vars) && vars.account_id == account_id
                && vars.nrql_query@ == nrql_query@,
    {
        Request {
            query: String::from_str(NRQL_QUERY),
            variables: Some(Vars { account_id, nrql_query }),
        }
    }

    /// The request of the user query.
    pub fn user_info_request(&self) -> (request: Request)
        ensures
            request.query@ == USER_INFO_QUERY@,
            request.variables is None,
    {
        Request { query: String::from_str(USER_INFO_QUERY), variables: None }
    }

    /// The user that the reply to the user query holds.
    ///
    /// Returns nothing only when the endpoint sent no actor data.
    pub fn user_info(&self, reply: Reply) -> (user: Result<Option<User>, Error>)
        ensures
            view_optional(user) == user_info_of(reply@),
    {
        match reply {
            Reply::Failed(message) => Err(classify_failure(message)),
            Reply::Answered(None) => Ok(None),
            Reply::Answered(Some(data)) => match crate::nerdgraph::user::Data::decode(&data) {
                Ok(Some(data)) => Ok(Some(data.actor.user)),
                Ok(None) => Ok(None),
                Err(error) => Err(error),
            },
        }
    }

    /// What the reply to any query holds.
    pub fn actor(&self, reply: Reply) -> (data: Result<Option<Data>, Error>)
        ensures
            view_optional(data) == actor_of(reply@),
            data matches Ok(Some(data)) ==> data@.wf(),
    {
        match reply {
            Reply::Failed(message) => Err(classify_failure(message)),
            Reply::Answered(None) => Ok(None),
            Reply::Answered(Some(data)) => Data::decode(&data),
        }
    }

    /// The accounts and the user that the reply to the info query holds.
    ///
    /// Returns nothing only when the endpoint sent no actor data.
    pub fn actor_info(&self, reply: Reply) -> (info: Result<Option<InfoActor>, Error>)
        ensures
            view_optional(info) == actor_info_of(reply@),
    {
        match self.actor(reply) {
            Ok(Some(data)) => match data.actor {
                Actor::Info(actor) => Ok(Some(actor)),
                Actor::Nrql(_) => Err(Error::SchemaMismatch),
            },
            Ok(None) => Ok(None),
            Err(error) => Err(error),
        }
    }

    /// The rows that the reply to the parameterized query holds.
    ///
    /// Returns nothing only when the endpoint sent no actor data.
    pub fn nrql(&self, reply: Reply) -> (rows: Result<Option<Results>, Error>)
        ensures
            match rows {
                Ok(Some(rows)) => nrql_of(reply@) == Ok::<Option<Seq<RowView>>, ErrorView>(
                    Some(rows_view(rows@)),
                ),
                Ok(None) => nrql_of(reply@) == Ok::<Option<Seq<RowView>>, ErrorView>(None),
                Err(error) => nrql_of(reply@) == Err::<Option<Seq<RowView>>, ErrorView>(error@),
            },
            rows matches Ok(Some(rows)) ==> forall|i: int|
                0 <= i < rows@.len() ==> row_wf(#[trigger] rows@[i]@),
    {
        match self.actor(reply) {
            Ok(Some(data)) => match data.actor {
                Actor::Nrql(actor) => {
                    let rows = actor.account.nrql.results;
                    proof {
                        assert forall|i: int| 0 <= i < rows@.len() implies row_wf(
                            #[trigger] rows@[i]@,
                        ) by {
                            assert(rows_view(rows@)[i] == rows@[i]@);
                        }
                    }
                    Ok(Some(rows))
                },
                Actor::Info(_) => Err(Error::SchemaMismatch),
            },
            Ok(None) => Ok(None),
            Err(error) => Err(error),
        }
    }
}

} // verus!
