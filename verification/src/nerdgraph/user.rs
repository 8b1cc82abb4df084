//! The reply to the query that asks for the user alone.

use vstd::prelude::*;

use crate::error::{Error, ErrorView};
use crate::nerdgraph::actor::{decode_user, view_optional, User, UserView};
use crate::nerdgraph::json::{Json, JsonView};

verus! {

/// The actor of a reply to the user query: the user.
#[derive(Debug, Clone, PartialEq, Eq)]
pub struct Actor {
    pub user: User,
}

/// The data of a reply to the user query.
#[derive(Debug, Clone, PartialEq, Eq)]
pub struct Data {
    pub actor: Actor,
}

impl View for Actor {
    type V = UserView;

    open spec fn view(&self) -> UserView {
        self.user@
    }
}

impl View for Data {
    type V = UserView;

    open spec fn view(&self) -> UserView {
        self.actor@
    }
}

/// The user that the data of a reply holds.
///
/// Null data, and data whose `actor` is null, is the server saying that
/// there is no actor data: that is no error, and decodes to nothing. Data
/// without an `actor`, and an `actor` without a `user`, is a schema
/// mismatch. Any other `user` is decoded; what else the actor holds is not
/// looked at.
pub open spec fn decode_user_data(data: JsonView) -> Result<Option<UserView>, ErrorView> {
    match data {
        JsonView::Null => Ok(None),
        _ => match data.member("actor"@) {
            None => Err(ErrorView::SchemaMismatch),
            Some(JsonView::Null) => Ok(None),
            Some(actor) => match actor.member("user"@) {
                None => Err(ErrorView::SchemaMismatch),
                Some(user) => match decode_user(user) {
                    Ok(user) => Ok(Some(user)),
                    Err(error) => Err(error),
                },
            },
        },
    }
}

impl Data {
    /// Decodes the data of a reply to the user query.
    pub fn decode(data: &Json) -> (decoded: Result<Option<Data>, Error>)
        ensures
            view_optional(decoded) == decode_user_data(data@),
    {
        match data {
            Json::Null => Ok(None),
            _ => match data.member("actor") {
                None => Err(Error::SchemaMismatch),
                Some(Json::Null) => Ok(None),
                Some(actor) => match actor.member("user") {
                    None => Err(Error::SchemaMismatch),
                    Some(user) => match User::decode(user) {
                        Ok(user) => Ok(Some(Data { actor: Actor { user } })),
                        Err(error) => Err(error),
                    },
                },
            },
        }
    }
}

} // verus!
