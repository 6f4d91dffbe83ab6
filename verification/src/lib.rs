//! In-memory recorder for inbound webhook notifications.
//!
//! The library models a small capture service: each inbound notification is
//! stored with the wall-clock second at which it arrived (rendered as a
//! decimal string), the request headers in the order they were presented,
//! and the parsed JSON body. The store is append-only and lives for the
//! process lifetime; an HTTP layer around this crate feeds it plain values.

pub mod decimal;
pub mod json;
pub mod store;
