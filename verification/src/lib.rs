//! Verified client core for the Coinbase Advanced Trade API (v3).
//!
//! The crate models the three pieces that carry the engineering weight of
//! such a client: the OAuth2 authorization flow with its anti-forgery state
//! check, the authenticated-request executor with its dual-shape response
//! decoder (a body is either a success payload or a structured service
//! error, distinguished only by schema), and the cursor-based pagination
//! engine that tolerates two incompatible termination conventions.
//!
//! Network transport, the local callback listener and the async plumbing
//! live outside this crate; everything here is plain computation with
//! contracts.

use vstd::prelude::*;

pub mod accounts;
pub mod basic_oauth;
pub mod checks;
pub mod client;
pub mod datetime;
pub mod encode;
pub mod error;
pub mod fees;
pub mod json;
pub mod orders;
pub mod pagination;
pub mod products;
pub mod query;
pub mod scopes;
pub mod strutil;

verus! {

/// Base URL for Coinbase's v3 API.
pub const MAIN_URL: &'static str = "https://api.coinbase.com/api/v3";

} // verus!
