use vstd::prelude::*;
use anchor_lang::prelude::{Clock, SolanaSysvar};

verus! {

/// Calls `Clock::get` and hands back the Unix timestamp it holds, or nothing
/// where the clock cannot be read. Nothing is claimed of the value: it
/// depends on where and when the call is made.
#[verifier::external_body]
pub(crate) fn unix_timestamp() -> Option<i64> {
    match Clock::get() {
        Ok(clock) => Some(clock.unix_timestamp),
        Err(_) => None,
    }
}

} // verus!
