//! A terminal dashboard for a remote analytics API, split into the query
//! client's response decoding (`nerdgraph`) and the menu-driven interface's
//! event handling and rendering (`ui`).
//!
//! Everything here is plain computation: callers perform the network round
//! trip, read the keyboard and draw to the terminal, and hand the library
//! what they received.

pub mod error;
pub mod nerdgraph;
pub mod ui;
