//! Untyped JSON, as received from the endpoint.

use vstd::prelude::*;
use vstd::string::StringExecFns;

verus! {

/// One member of a JSON object.
#[derive(Debug, PartialEq, Eq)]
pub struct Member {
    pub name: String,
    pub value: Json,
}

/// An untyped JSON value.
///
/// A number keeps the text of its literal, so that `3` and `3.0` stay apart.
/// An object keeps its members in document order, repeated names included.
#[derive(Debug, PartialEq, Eq)]
pub enum Json {
    Null,
    Bool(bool),
    Number(String),
    Text(String),
    Array(Vec<Json>),
    Object(Vec<Member>),
}

/// Mathematical model of a [`Member`].
pub ghost struct MemberView {
    pub name: Seq<char>,
    pub value: JsonView,
}

/// Mathematical model of a [`Json`] value.
pub ghost enum JsonView {
    Null,
    Bool(bool),
    Number(Seq<char>),
    Text(Seq<char>),
    Array(Seq<JsonView>),
    Object(Seq<MemberView>),
}

impl View for Json {
    type V = JsonView;

    open spec fn view(&self) -> JsonView
        decreases self,
    {
        match self {
            Json::Null => JsonView::Null,
            Json::Bool(b) => JsonView::Bool(*b),
            Json::Number(literal) => JsonView::Number(literal@),
            Json::Text(text) => JsonView::Text(text@),
            Json::Array(items) => JsonView::Array(
                Seq::new(
                    items@.len(),
                    |i: int|
                        if 0 <= i < items@.len() {
                            items@[i]@
                        } else {
                            JsonView::Null
                        },
                ),
            ),
            Json::Object(members) => JsonView::Object(
                Seq::new(
                    members@.len(),
                    |i: int|
                        if 0 <= i < members@.len() {
                            members@[i]@
                        } else {
                            MemberView { name: Seq::empty(), value: JsonView::Null }
                        },
                ),
            ),
        }
    }
}

impl View for Member {
    type V = MemberView;

    open spec fn view(&self) -> MemberView
        decreases self,
    {
        MemberView { name: self.name@, value: self.value@ }
    }
}

/// The value of the first member called `name`, if there is one.
pub open spec fn lookup(members: Seq<MemberView>, name: Seq<char>) -> Option<JsonView>
    decreases members.len(),
{
    if members.len() == 0 {
        None
    } else if members[0].name == name {
        Some(members[0].value)
    } else {
        lookup(members.skip(1), name)
    }
}

impl JsonView {
    /// The member called `name` of an object; nothing for any other value.
    pub open spec fn member(self, name: Seq<char>) -> Option<JsonView> {
        match self {
            JsonView::Object(members) => lookup(members, name),
            _ => None,
        }
    }
}

/// The models of a vector of members, in order.
pub open spec fn members_view(members: Seq<Member>) -> Seq<MemberView> {
    Seq::new(members.len(), |i: int| members[i]@)
}

/// The models of a vector of values, in order.
pub open spec fn items_view(items: Seq<Json>) -> Seq<JsonView> {
    Seq::new(items.len(), |i: int| items[i]@)
}

/// An object's view lists the views of its members.
pub proof fn lemma_object_view(members: Vec<Member>)
    ensures
        Json::Object(members)@ == JsonView::Object(members_view(members@)),
{
    assert(Json::Object(members)@->Object_0 =~= members_view(members@));
}

/// An array's view lists the views of its items.
pub proof fn lemma_array_view(items: Vec<Json>)
    ensures
        Json::Array(items)@ == JsonView::Array(items_view(items@)),
{
    assert(Json::Array(items)@->Array_0 =~= items_view(items@));
}

/// The first member called `name` among `members`.
pub fn find<'a>(members: &'a Vec<Member>, name: &str) -> (found: Option<&'a Json>)
    ensures
        lookup(members_view(members@), name@) == match found {
            Some(value) => Some(value@),
            None => None,
        },
{
    let wanted = String::from_str(name);
    let ghost all = members_view(members@);
    let mut i: usize = 0;
    assert(all.skip(0) =~= all);
    while i < members.len()
        invariant
            i <= members.len(),
            wanted@ == name@,
            all == members_view(members@),
            lookup(all, name@) == lookup(all.skip(i as int), name@),
        decreases members.len() - i,
    {
        let member = &members[i];
        let ghost rest = all.skip(i as int);
        assert(rest[0] == member@);
        assert(rest.skip(1) =~= all.skip(i + 1));
        if member.name == wanted {
            return Some(&member.value);
        }
        i += 1;
    }
    None
}

impl Json {
    /// The member called `name`, when this value is an object that has one.
    pub fn member(&self, name: &str) -> (found: Option<&Json>)
        ensures
            self@.member(name@) == match found {
                Some(value) => Some(value@),
                None => None,
            },
    {
        match self {
            Json::Object(members) => {
                proof {
                    lemma_object_view(*members);
                }
                find(members, name)
            },
            _ => None,
        }
    }
}

} // verus!
