//! Event ingestion rules of the Claudiator server: validation of hook
//! events, device identity taken from request headers, session status and
//! title derivation, notification content, and the bookkeeping decisions
//! (retention cleanup, push dispatch) that surround them.

pub mod text;
pub mod model;
pub mod session;
pub mod notify;
pub mod validate;
pub mod headers;
pub mod ingest;
pub mod state;
pub mod push;
