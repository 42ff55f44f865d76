//! The fixed whitelist of permission scopes a token may be requested for.

use vstd::prelude::*;

use crate::strutil::str_eq;

verus! {

/// Whether `s` is one of the scopes the service documents.
pub open spec fn valid_scope(s: Seq<char>) -> bool {
    ||| s == "wallet:accounts:read"@
    ||| s == "wallet:accounts:update"@
    ||| s == "wallet:accounts:create"@
    ||| s == "wallet:accounts:delete"@
    ||| s == "wallet:addresses:read"@
    ||| s == "wallet:addresses:create"@
    ||| s == "wallet:buys:read"@
    ||| s == "wallet:buys:create"@
    ||| s == "wallet:deposits:read"@
    ||| s == "wallet:deposits:create"@
    ||| s == "wallet:notifications:read"@
    ||| s == "wallet:payment-methods:read"@
    ||| s == "wallet:payment-methods:delete"@
    ||| s == "wallet:payment-methods:limits"@
    ||| s == "wallet:sells:read"@
    ||| s == "wallet:sells:create"@
    ||| s == "wallet:transactions:read"@
    ||| s == "wallet:transactions:send"@
    ||| s == "wallet:transactions:request"@
    ||| s == "wallet:transactions:transfer"@
    ||| s == "wallet:user:read"@
    ||| s == "wallet:user:update"@
    ||| s == "wallet:user:email"@
    ||| s == "wallet:withdrawals:read"@
    ||| s == "wallet:withdrawals:create"@
}

/// Checks `s` against the whitelist.
pub fn is_valid_scope(s: &str) -> (r: bool)
    ensures
        r == valid_scope(s@),
{
    str_eq(s, "wallet:accounts:read") || str_eq(s, "wallet:accounts:update") || str_eq(
        s,
        "wallet:accounts:create",
    ) || str_eq(s, "wallet:accounts:delete") || str_eq(s, "wallet:addresses:read") || str_eq(
        s,
        "wallet:addresses:create",
    ) || str_eq(s, "wallet:buys:read") || str_eq(s, "wallet:buys:create") || str_eq(
        s,
        "wallet:deposits:read",
    ) || str_eq(s, "wallet:deposits:create") || str_eq(s, "wallet:notifications:read") || str_eq(
        s,
        "wallet:payment-methods:read",
    ) || str_eq(s, "wallet:payment-methods:delete") || str_eq(s, "wallet:payment-methods:limits")
        || str_eq(s, "wallet:sells:read") || str_eq(s, "wallet:sells:create") || str_eq(
        s,
        "wallet:transactions:read",
    ) || str_eq(s, "wallet:transactions:send") || str_eq(s, "wallet:transactions:request")
        || str_eq(s, "wallet:transactions:transfer") || str_eq(s, "wallet:user:read") || str_eq(
        s,
        "wallet:user:update",
    ) || str_eq(s, "wallet:user:email") || str_eq(s, "wallet:withdrawals:read") || str_eq(
        s,
        "wallet:withdrawals:create",
    )
}

} // verus!
