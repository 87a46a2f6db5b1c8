//! Client core for the Ergani labor-compliance service: typed domain
//! records with builder-time validation, the exact JSON wire encoding
//! the remote service requires, the bearer-token lifecycle, and the
//! refresh-and-retry request pipeline as a pure state machine.
//!
//! Network transport and terminal rendering live outside this crate;
//! everything here is plain data in, plain data out.

pub mod auth;
pub mod client;
pub mod dates;
pub mod error;
pub mod json;
pub mod laws;
pub mod models;
pub mod responses;
pub mod types;
pub mod wire;
