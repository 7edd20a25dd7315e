//! Typed client core for the Puxbay point-of-sale REST API.
//!
//! The crate holds everything about a call that can be decided without
//! touching the network: validated client configuration, the fixed request
//! headers, endpoint paths, the retry schedule, and the mapping from HTTP
//! outcomes to [`PuxbayError`]. A transport drives [`dispatch::Dispatch`] by
//! performing the actions it asks for and reporting back what happened.

pub mod client;
pub mod dispatch;
pub mod error;
pub mod json;
pub mod models;
pub mod paths;
pub mod resources;
pub mod runs;
pub mod text;

pub use client::{Puxbay, PuxbayConfig};
pub use error::PuxbayError;
