//! Amounts of value, in the smallest unit.

use vstd::prelude::*;

verus! {

/// The largest amount that can exist.
pub const MAX_MONEY: u64 = 2_100_000_000_000_000;

/// Calls `zcash_protocol::value::Zatoshis::from_u64`, which accepts exactly the
/// amounts up to `MAX_MONEY`, and tells whether it accepted.
#[verifier::external_body]
pub(crate) fn is_amount(value: u64) -> (ok: bool)
    ensures
        ok == (value <= MAX_MONEY),
{
    zcash_protocol::value::Zatoshis::from_u64(value).is_ok()
}

} // verus!
