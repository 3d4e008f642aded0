//! How long a read goes on.
use vstd::prelude::*;

verus! {

/// The time that a read with the given timeout may take, in milliseconds: the timeout, but at
/// least one.
pub open spec fn read_budget(timeout_ms: u32) -> nat {
    if timeout_ms == 0 {
        1
    } else {
        timeout_ms as nat
    }
}

/// Whether a read with the given timeout may go on after `elapsed_ms` milliseconds.
pub(crate) fn may_read_on(elapsed_ms: u128, timeout_ms: u32) -> (goes_on: bool)
    ensures
        goes_on == (elapsed_ms <= read_budget(timeout_ms)),
{
    let timeout: u32 = if timeout_ms < 1 {
        1
    } else {
        timeout_ms
    };
    elapsed_ms <= timeout as u128
}

} // verus!
