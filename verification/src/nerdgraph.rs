//! The query client: raw JSON, scalar decoding, result rows, response shapes.

pub mod actor;
pub mod client;
pub mod json;
pub mod number;
pub mod row;
pub mod scalar;
pub mod user;

pub use crate::nerdgraph::actor::{
    Account, Actor, Data, InfoActor, Nrql, NrqlAccount, NrqlActor, User,
};
pub use crate::nerdgraph::client::{Client, ClientConfig, Header, Reply, Request, Vars};
pub use crate::nerdgraph::json::{Json, Member};
pub use crate::nerdgraph::row::{Column, ResultRow, Results};
pub use crate::nerdgraph::scalar::JsonValue;
