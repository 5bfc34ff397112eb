//! Client-side core of a server-streaming subscription feed: building
//! address filters and per-kind subscription requests from a configuration,
//! gating the credential header, dispatching on the configured stream kind,
//! and driving the message-consumption loop to a verified termination
//! policy, with base58 text rendering of binary address fields.

pub mod auth;
pub mod config;
pub mod errors;
pub mod filters;
pub mod kinds;
pub mod messages;
pub mod render;
pub mod requests;
pub mod run;
pub mod stream;

pub use filters::AddressFilter;
pub use filters::create_address_filter;
