//! Client-side core of a command-line LED-effect controller.
//!
//! The library owns the pieces with real design decisions: base-URL
//! normalization, priority resolution of the URL source, coercion of
//! free-form `key=value` strings into typed JSON parameter values,
//! construction of the request bodies sent to the server, and the layered
//! classification of server responses into a closed error taxonomy.
//! Sending the requests over the network is left to the surrounding
//! program.

pub mod client;
pub mod encode;
pub mod errors;
pub mod models;
pub mod numbers;
pub mod response;
mod text;
pub mod urls;
pub mod values;

pub use urls::format_base_url;
pub use urls::resolve_base_url;
