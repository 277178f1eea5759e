//! Event-sourced projection of an HTTP API specification: an ordered log of
//! change events is folded into a queryable model of paths, requests,
//! responses, parameters and shapes.

pub mod aggregate;
pub mod events;
pub mod id_map;
pub mod lemmas;
pub mod state;
