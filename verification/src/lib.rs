//! State core of a chat client that talks to an agent backend: the message
//! log, the live tool-call registry and the reconciliation of a stream of
//! backend events with local user actions.
pub mod api;
pub mod app;
pub mod handlers;
pub mod invariants;
pub mod labels;
pub mod models;
pub mod text;
pub mod trusted;
