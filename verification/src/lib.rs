//! Request orchestration for a small game-catalog facade.
//!
//! The crate describes, step by step, which calls are made against the
//! remote catalog, how their outcomes are judged, and what is finally
//! answered to the inbound caller. Everything that touches the network is
//! left to the embedding program; the decisions are made, and proved, here.

pub mod config;
pub mod draw;
pub mod escape;
pub mod exchange;
pub mod failure;
pub mod flow;
pub mod http;
pub mod model;
pub mod query;
pub mod respond;
pub mod search;
pub mod text;
pub mod trace;
