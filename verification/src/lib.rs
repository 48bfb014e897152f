//! A small key-value message service: an in-memory store of text messages
//! keyed by a numeric id, a clock reading rendered as text, and a one-row
//! auxiliary database. Every handler is a plain function from values to
//! values, with its behaviour stated in its contract.

pub mod clock;
pub mod database;
pub mod message;
pub mod router;
pub mod store;
