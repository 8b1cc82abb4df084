//! The result row model: an ordered mapping from column name to cell.

use vstd::prelude::*;

use crate::error::{view_result, Error, ErrorView};
use crate::nerdgraph::json::{
    lemma_object_view, members_view, Json, JsonView, Member, MemberView,
};
use crate::nerdgraph::scalar::{
    decode_scalar, encode_scalar, lemma_decode_scalar_wf, lemma_scalar_round_trip, JsonValue,
    JsonValueView,
};
use vstd::string::StringExecFns;

verus! {

/// Mathematical model of a row: its columns in order, each a name and a cell.
pub type RowView = Seq<(Seq<char>, JsonValueView)>;

/// Whether no two columns of `row` share a name.
pub open spec fn names_distinct(row: RowView) -> bool {
    forall|i: int, j: int| 0 <= i < j < row.len() ==> row[i].0 != row[j].0
}

/// What a row is held to: distinct column names and well-formed cells.
pub open spec fn row_wf(row: RowView) -> bool {
    &&& names_distinct(row)
    &&& forall|i: int| 0 <= i < row.len() ==> (#[trigger] row[i]).1.wf()
}

/// Whether member `i` can become a column: its value is a scalar and no
/// earlier member has its name.
pub open spec fn member_ok(members: Seq<MemberView>, i: int) -> bool {
    &&& decode_scalar(members[i].value) is Some
    &&& forall|j: int| 0 <= j < i ==> (#[trigger] members[j]).name != members[i].name
}

/// Whether `k` is the first member that cannot become a column.
pub open spec fn first_bad(members: Seq<MemberView>, k: int) -> bool {
    &&& 0 <= k < members.len()
    &&& !member_ok(members, k)
    &&& forall|i: int| 0 <= i < k ==> member_ok(members, i)
}

/// The columns that the members of an object decode to, one for one.
pub open spec fn columns_of(members: Seq<MemberView>) -> RowView {
    Seq::new(
        members.len(),
        |i: int| (members[i].name, decode_scalar(members[i].value).unwrap()),
    )
}

/// The row that a JSON value decodes to.
///
/// An object whose members can all become columns decodes to those columns,
/// in document order. Otherwise decoding fails with a decode error that
/// names the first member that cannot: one whose value is no scalar, or one
/// that repeats an earlier name. A value that is no object fails with a
/// decode error that names no column.
pub open spec fn decode_row(value: JsonView) -> Result<RowView, ErrorView> {
    match value {
        JsonView::Object(members) => if forall|i: int|
            0 <= i < members.len() ==> member_ok(members, i) {
            Ok(columns_of(members))
        } else {
            Err(ErrorView::Decode(members[choose|k: int| first_bad(members, k)].name))
        },
        _ => Err(ErrorView::Decode(Seq::empty())),
    }
}

/// The object that a row encodes to: one member for each column, in order.
pub open spec fn encode_row(row: RowView) -> JsonView {
    JsonView::Object(
        Seq::new(row.len(), |i: int| MemberView { name: row[i].0, value: encode_scalar(row[i].1) }),
    )
}

/// The cell of the first column called `name`, if there is one.
pub open spec fn cell_of(row: RowView, name: Seq<char>) -> Option<JsonValueView>
    decreases row.len(),
{
    if row.len() == 0 {
        None
    } else if row[0].0 == name {
        Some(row[0].1)
    } else {
        cell_of(row.skip(1), name)
    }
}

/// One column of a row.
#[derive(Debug, Clone, PartialEq, Eq)]
pub struct Column {
    pub name: String,
    pub value: JsonValue,
}

/// One row of query output. Rows come out of [`ResultRow::decode`] and do
/// not change afterwards.
#[derive(Debug, Clone, PartialEq, Eq)]
pub struct ResultRow {
    columns: Vec<Column>,
}

/// The rows of one query result.
pub type Results = Vec<ResultRow>;

impl View for ResultRow {
    type V = RowView;

    closed spec fn view(&self) -> RowView {
        Seq::new(self.columns@.len(), |i: int| (self.columns@[i].name@, self.columns@[i].value@))
    }
}

/// At most one member is the first that cannot become a column.
proof fn lemma_first_bad_unique(members: Seq<MemberView>, k: int)
    requires
        first_bad(members, k),
    ensures
        (choose|k: int| first_bad(members, k)) == k,
{
    let chosen = choose|k: int| first_bad(members, k);
    if chosen < k {
        assert(member_ok(members, chosen));
    }
    if k < chosen {
        assert(member_ok(members, k));
    }
}

impl ResultRow {
    /// Builds a row from a raw JSON object, decoding every member and
    /// keeping their order.
    pub fn decode(object: &Json) -> (decoded: Result<ResultRow, Error>)
        ensures
            view_result(decoded) == decode_row(object@),
            decoded matches Ok(row) ==> row_wf(row@),
    {
        let members = match object {
            Json::Object(members) => members,
            _ => {
                return Err(Error::Decode(String::new()));
            },
        };
        proof {
            lemma_object_view(*members);
        }
        let ghost all = members_view(members@);
        let mut columns: Vec<Column> = Vec::new();
        let mut i: usize = 0;
        while i < members.len()
            invariant
                i <= members@.len(),
                all == members_view(members@),
                object@ == JsonView::Object(all),
                columns@.len() == i,
                forall|k: int| 0 <= k < i ==> member_ok(all, k),
                forall|k: int|
                    0 <= k < i ==> (#[trigger] columns@[k]).name@ == all[k].name
                        && decode_scalar(all[k].value) == Some(columns@[k].value@),
            decreases members@.len() - i,
        {
            let member = &members[i];
            assert(all[i as int] == member@);
            let mut j: usize = 0;
            while j < i
                invariant
                    j <= i,
                    i < members@.len(),
                    columns@.len() == i,
                    all == members_view(members@),
                    object@ == JsonView::Object(all),
                    member@ == all[i as int],
                    forall|k: int| 0 <= k < i ==> member_ok(all, k),
                    forall|k: int|
                        0 <= k < i ==> (#[trigger] columns@[k]).name@ == all[k].name,
                    forall|k: int| 0 <= k < j ==> (#[trigger] all[k]).name != all[i as int].name,
                decreases i - j,
            {
                if columns[j].name == member.name {
                    proof {
                        assert(all[j as int].name == all[i as int].name);
                        assert(!member_ok(all, i as int));
                        lemma_first_bad_unique(all, i as int);
                    }
                    return Err(Error::Decode(member.name.clone()));
                }
                j += 1;
            }
            match JsonValue::decode(member.name.as_str(), &member.value) {
                Ok(value) => {
                    columns.push(Column { name: member.name.clone(), value });
                },
                Err(error) => {
                    proof {
                        lemma_first_bad_unique(all, i as int);
                    }
                    return Err(error);
                },
            }
            i += 1;
        }
        let row = ResultRow { columns };
        proof {
            assert(row@ =~= columns_of(all));
            lemma_decode_row_wf(object@);
        }
        Ok(row)
    }

    /// Encodes the row as a JSON object.
    pub fn encode(&self) -> (object: Json)
        ensures
            object@ == encode_row(self@),
    {
        let mut members: Vec<Member> = Vec::new();
        let mut i: usize = 0;
        while i < self.columns.len()
            invariant
                i <= self.columns@.len(),
                members@.len() == i,
                forall|k: int|
                    0 <= k < i ==> (#[trigger] members@[k])@ == (MemberView {
                        name: self.columns@[k].name@,
                        value: encode_scalar(self.columns@[k].value@),
                    }),
            decreases self.columns@.len() - i,
        {
            let column = &self.columns[i];
            members.push(Member { name: column.name.clone(), value: column.value.encode() });
            i += 1;
        }
        proof {
            lemma_object_view(members);
            assert(members_view(members@) =~= encode_row(self@)->Object_0);
        }
        Json::Object(members)
    }

    /// The number of columns.
    pub fn len(&self) -> (n: usize)
        ensures
            n == self@.len(),
    {
        self.columns.len()
    }

    /// Column `i`, counting from zero in document order.
    pub fn column(&self, i: usize) -> (column: &Column)
        requires
            i < self@.len(),
        ensures
            (column.name@, column.value@) == self@[i as int],
    {
        &self.columns[i]
    }

    /// The cell of the column called `name`.
    pub fn get(&self, name: &str) -> (cell: Option<&JsonValue>)
        ensures
            cell_of(self@, name@) == match cell {
                Some(value) => Some(value@),
                None => None,
            },
    {
        let wanted = String::from_str(name);
        let ghost row = self@;
        let mut i: usize = 0;
        assert(row.skip(0) =~= row);
        while i < self.columns.len()
            invariant
                i <= self.columns@.len(),
                wanted@ == name@,
                row == self@,
                cell_of(row, name@) == cell_of(row.skip(i as int), name@),
            decreases self.columns@.len() - i,
        {
            let column = &self.columns[i];
            let ghost rest = row.skip(i as int);
            assert(rest[0] == (column.name@, column.value@));
            assert(rest.skip(1) =~= row.skip(i + 1));
            if column.name == wanted {
                return Some(&column.value);
            }
            i += 1;
        }
        None
    }
}

/// Where no two columns share a name, looking a column up by its name
/// finds its cell.
pub proof fn lemma_cell_of_column(row: RowView, i: int)
    requires
        names_distinct(row),
        0 <= i < row.len(),
    ensures
        cell_of(row, row[i].0) == Some(row[i].1),
    decreases i,
{
    if i > 0 {
        let rest = row.skip(1);
        assert(row[0].0 != row[i].0);
        assert(rest[i - 1] == row[i]);
        assert forall|a: int, b: int| 0 <= a < b < rest.len() implies rest[a].0 != rest[b].0 by {
            assert(row[a + 1].0 != row[b + 1].0);
        }
        lemma_cell_of_column(rest, i - 1);
    }
}

/// Whatever decodes as a row is well-formed.
pub proof fn lemma_decode_row_wf(value: JsonView)
    ensures
        decode_row(value) matches Ok(row) ==> row_wf(row),
{
    if let Ok(row) = decode_row(value) {
        let members = value->Object_0;
        assert forall|a: int, b: int| 0 <= a < b < row.len() implies row[a].0 != row[b].0 by {
            assert(member_ok(members, b));
            assert(members[a].name != members[b].name);
        }
        assert forall|a: int| 0 <= a < row.len() implies (#[trigger] row[a]).1.wf() by {
            assert(member_ok(members, a));
            lemma_decode_scalar_wf(members[a].value);
        }
    }
}

/// Encoding a well-formed row as a JSON object and decoding that object
/// gives the row back.
pub proof fn lemma_row_round_trip(row: RowView)
    requires
        row_wf(row),
    ensures
        decode_row(encode_row(row)) == Ok::<RowView, ErrorView>(row),
{
    let members = encode_row(row)->Object_0;
    assert forall|i: int| 0 <= i < members.len() implies member_ok(members, i) by {
        lemma_scalar_round_trip(row[i].1);
        assert forall|j: int| 0 <= j < i implies (#[trigger] members[j]).name != members[i].name by {
            assert(row[j].0 != row[i].0);
        }
    }
    assert forall|i: int| 0 <= i < row.len() implies columns_of(members)[i] == row[i] by {
        lemma_scalar_round_trip(row[i].1);
    }
    assert(columns_of(members) =~= row);
}

} // verus!
