//! Emptying a receive buffer: read and discard until a read fails.
use vstd::prelude::*;

use crate::error::{ChannelError, ChannelResult};

verus! {

/// What comes next while a receive buffer is emptied.
#[derive(Debug)]
pub enum ClearStep {
    /// Read once more, and report how that went to [`clear_after_read`].
    Read,
    /// All done
    Finished {
        /// What the operation returns
        result: ChannelResult<()>,
    },
}

/// The first step: on an open channel a read, on a closed one its refusal.
pub open spec fn clear_first(open: bool) -> ClearStep {
    if open {
        ClearStep::Read
    } else {
        ClearStep::Finished { result: Err(ChannelError::InterfaceNotOpen) }
    }
}

/// The step after a read: another read if it succeeded, otherwise success.
pub open spec fn clear_next(read_succeeded: bool) -> ClearStep {
    if read_succeeded {
        ClearStep::Read
    } else {
        ClearStep::Finished { result: Ok(()) }
    }
}

/// The first step on a channel that is open or not.
pub(crate) fn start_clearing(open: bool) -> (step: ClearStep)
    ensures
        step == clear_first(open),
{
    if open {
        ClearStep::Read
    } else {
        ClearStep::Finished { result: Err(ChannelError::InterfaceNotOpen) }
    }
}

/// The step after a read.
pub fn clear_after_read<T, E>(read: &Result<T, E>) -> (step: ClearStep)
    ensures
        step == clear_next(read is Ok),
{
    match read {
        Ok(_) => ClearStep::Read,
        Err(_) => ClearStep::Finished { result: Ok(()) },
    }
}

/// How emptying the buffer of an open channel ends when its reads go as `reads` says (success or
/// not): the result and how many reads were made, or `None` if it has not ended with them.
pub open spec fn clear_run(reads: Seq<bool>) -> Option<(ChannelResult<()>, nat)>
    decreases reads.len(),
{
    if reads.len() == 0 {
        None
    } else {
        match clear_next(reads[0]) {
            ClearStep::Finished { result } => Some((result, 1)),
            ClearStep::Read => match clear_run(reads.drop_first()) {
                Some((result, made)) => Some((result, made + 1)),
                None => None,
            },
        }
    }
}

/// Emptying a buffer ends with the first read that fails, not before and not later, and then
/// succeeds.
pub proof fn clearing_ends_at_first_failure(reads: Seq<bool>, k: int)
    requires
        0 <= k < reads.len(),
        !reads[k],
        forall|i: int| 0 <= i < k ==> reads[i],
    ensures
        clear_run(reads) == Some((ChannelResult::<()>::Ok(()), (k + 1) as nat)),
    decreases k,
{
    if k > 0 {
        clearing_ends_at_first_failure(reads.drop_first(), k - 1);
    }
}

/// Emptying a buffer does not end while every read succeeds.
pub proof fn clearing_goes_on(reads: Seq<bool>)
    requires
        forall|i: int| 0 <= i < reads.len() ==> reads[i],
    ensures
        clear_run(reads) is None,
    decreases reads.len(),
{
    if reads.len() > 0 {
        clearing_goes_on(reads.drop_first());
    }
}

} // verus!
