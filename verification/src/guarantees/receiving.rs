//! Reading frames and messages, and emptying buffers: what comes back, and when.
use vstd::prelude::*;

use crate::can_channel::SocketCanCanChannel;
use crate::clear::{clear_after_read, ClearStep};
use crate::error::{ChannelError, ChannelResult};
use crate::frame::CanFrame;
use crate::isotp_channel::{BytesReader, ReadBytesStep, SocketCanIsoTPChannel};
use crate::packet_reader::{PacketReader, ReadStep};

verus! {

/// `elapsed_ms` is no more than the timeout, or than one millisecond if the timeout is zero.
pub open spec fn in_time(elapsed_ms: u128, timeout_ms: u32) -> bool {
    elapsed_ms <= timeout_ms || elapsed_ms <= 1
}

/// `frames` are what the first `n` of `reads` gave.
pub open spec fn are_first(
    frames: Seq<CanFrame>,
    reads: Seq<Result<CanFrame, std::io::Error>>,
    n: int,
) -> bool {
    frames.len() == n && forall|i: int|
        0 <= i < n ==> Result::<CanFrame, std::io::Error>::Ok(#[trigger] frames[i]) == reads[i]
}

/// A read of up to `max` frames on `channel`, round by round: `asked` holds the step before each
/// look at the clock and `looked` the one before each read from the socket, where the clock shows
/// `clocks` and the socket gives `reads`.
pub open spec fn reading_steps<S>(
    channel: SocketCanCanChannel<S>,
    max: usize,
    timeout_ms: u32,
    clocks: Seq<u128>,
    reads: Seq<Result<CanFrame, std::io::Error>>,
    asked: Seq<ReadStep>,
    looked: Seq<ReadStep>,
) -> bool {
    &&& clocks.len() == reads.len() == looked.len()
    &&& asked.len() == looked.len() + 1
    &&& call_ensures(
        SocketCanCanChannel::<S>::read_packets,
        (&channel, max, timeout_ms),
        asked[0],
    )
    &&& forall|i: int|
        #![trigger asked[i]]
        0 <= i < looked.len() ==> (asked[i] matches ReadStep::CheckClock { reader }
            ==> call_ensures(PacketReader::after_clock, (reader, clocks[i]), looked[i]))
    &&& forall|i: int|
        #![trigger looked[i]]
        0 <= i < looked.len() ==> (looked[i] matches ReadStep::ReadFrame { reader }
            ==> call_ensures(PacketReader::after_read, (reader, reads[i]), asked[i + 1]))
}

/// After `k` rounds in time that each gave a frame, none of them the last one asked for, the read
/// holds these frames and goes on.
proof fn received_so_far<S>(
    channel: SocketCanCanChannel<S>,
    max: usize,
    timeout_ms: u32,
    clocks: Seq<u128>,
    reads: Seq<Result<CanFrame, std::io::Error>>,
    asked: Seq<ReadStep>,
    looked: Seq<ReadStep>,
    k: int,
)
    requires
        reading_steps(channel, max, timeout_ms, clocks, reads, asked, looked),
        channel@ is Some,
        0 <= k <= looked.len(),
        max == 0 || k < max,
        forall|i: int| 0 <= i < k ==> in_time(clocks[i], timeout_ms) && reads[i] is Ok,
    ensures
        asked[k] matches ReadStep::CheckClock { reader } && reader@.max == max
            && reader@.timeout_ms == timeout_ms && are_first(reader@.received, reads, k),
    decreases k,
{
    if k == 0 {
        assert(asked[0]@ is CheckClock);
    } else {
        received_so_far(channel, max, timeout_ms, clocks, reads, asked, looked, k - 1);
        assert(in_time(clocks[k - 1], timeout_ms));
        assert(looked[k - 1]@ is ReadFrame);
        assert(reads[k - 1] is Ok);
        assert(asked[k - 1 + 1]@ is CheckClock);
    }
}

/// A read on an open channel goes on, round by round, as long as frames arrive in time: until it
/// has as many as were asked for, and then returns exactly these, in order. Once the clock shows
/// more than the caller's timeout, it returns what it has. The first error of the socket is what it
/// fails with. Where no number was asked for, none is enough.
pub proof fn frames_come_back_as_read<S>(
    channel: SocketCanCanChannel<S>,
    max: usize,
    timeout_ms: u32,
    clocks: Seq<u128>,
    reads: Seq<Result<CanFrame, std::io::Error>>,
    asked: Seq<ReadStep>,
    looked: Seq<ReadStep>,
    k: int,
)
    requires
        reading_steps(channel, max, timeout_ms, clocks, reads, asked, looked),
        channel@ is Some,
        0 <= k < looked.len(),
        max == 0 || k < max,
        forall|i: int| 0 <= i < k ==> in_time(clocks[i], timeout_ms) && reads[i] is Ok,
    ensures
        asked[k] is CheckClock,
        !in_time(clocks[k], timeout_ms) ==> (looked[k] matches ReadStep::Finished {
            result: Ok(got),
        } && are_first(got@, reads, k)),
        in_time(clocks[k], timeout_ms) ==> looked[k] is ReadFrame && match reads[k] {
            Err(e) => asked[k + 1] == (ReadStep::Finished {
                result: Err(ChannelError::IOError(e)),
            }),
            Ok(_) => if k + 1 == max {
                asked[k + 1] matches ReadStep::Finished { result: Ok(got) } && are_first(
                    got@,
                    reads,
                    k + 1,
                )
            } else {
                asked[k + 1] is CheckClock
            },
        },
{
    received_so_far(channel, max, timeout_ms, clocks, reads, asked, looked, k);
    assert(looked[k]@ is Finished || looked[k]@ is ReadFrame);
    if in_time(clocks[k], timeout_ms) {
        assert(asked[k + 1]@ is Finished || asked[k + 1]@ is CheckClock);
    }
}

/// When the clock stays in time and the socket gives `max` frames, a read of `max` frames returns
/// exactly these, in order, and not before the last of them.
pub proof fn all_asked_for_come_back<S>(
    channel: SocketCanCanChannel<S>,
    max: usize,
    timeout_ms: u32,
    clocks: Seq<u128>,
    reads: Seq<Result<CanFrame, std::io::Error>>,
    asked: Seq<ReadStep>,
    looked: Seq<ReadStep>,
)
    requires
        reading_steps(channel, max, timeout_ms, clocks, reads, asked, looked),
        channel@ is Some,
        0 < max <= looked.len(),
        forall|i: int| 0 <= i < max ==> in_time(clocks[i], timeout_ms) && reads[i] is Ok,
    ensures
        asked[max as int] matches ReadStep::Finished { result: Ok(got) } && are_first(
            got@,
            reads,
            max as int,
        ),
        forall|i: int| 0 <= i < max ==> (#[trigger] asked[i]) is CheckClock,
        forall|i: int| 0 <= i < max ==> (#[trigger] looked[i]) is ReadFrame,
{
    assert forall|i: int| 0 <= i < max implies (#[trigger] asked[i]) is CheckClock by {
        frames_come_back_as_read(channel, max, timeout_ms, clocks, reads, asked, looked, i);
    }
    assert forall|i: int| 0 <= i < max implies (#[trigger] looked[i]) is ReadFrame by {
        frames_come_back_as_read(channel, max, timeout_ms, clocks, reads, asked, looked, i);
    }
    frames_come_back_as_read(channel, max, timeout_ms, clocks, reads, asked, looked, max - 1);
}

/// On a closed channel no frame is read.
pub proof fn closed_channel_reads_nothing<S>(
    channel: SocketCanCanChannel<S>,
    max: usize,
    timeout_ms: u32,
    step: ReadStep,
)
    requires
        channel@ is None,
        call_ensures(SocketCanCanChannel::<S>::read_packets, (&channel, max, timeout_ms), step),
    ensures
        step == (ReadStep::Finished { result: Err(ChannelError::InterfaceNotOpen) }),
{
    assert(step@ is Finished);
}

/// A read of a message on `channel`, round by round, as in [`reading_steps`].
pub open spec fn message_steps<S>(
    channel: SocketCanIsoTPChannel<S>,
    timeout_ms: u32,
    clocks: Seq<u128>,
    reads: Seq<Result<Vec<u8>, std::io::Error>>,
    asked: Seq<ReadBytesStep>,
    looked: Seq<ReadBytesStep>,
) -> bool {
    &&& clocks.len() == reads.len() == looked.len()
    &&& asked.len() == looked.len() + 1
    &&& call_ensures(
        SocketCanIsoTPChannel::<S>::read_bytes,
        (&channel, timeout_ms),
        asked[0],
    )
    &&& forall|i: int|
        #![trigger asked[i]]
        0 <= i < looked.len() ==> (asked[i] matches ReadBytesStep::CheckClock { reader }
            ==> call_ensures(BytesReader::after_clock, (reader, clocks[i]), looked[i]))
    &&& forall|i: int|
        #![trigger looked[i]]
        0 <= i < looked.len() ==> (looked[i] matches ReadBytesStep::ReadSocket { reader }
            ==> call_ensures(BytesReader::after_read, (reader, reads[i]), asked[i + 1]))
}

/// After `k` rounds in time that gave no message, the read goes on as it began.
proof fn still_waiting<S>(
    channel: SocketCanIsoTPChannel<S>,
    timeout_ms: u32,
    clocks: Seq<u128>,
    reads: Seq<Result<Vec<u8>, std::io::Error>>,
    asked: Seq<ReadBytesStep>,
    looked: Seq<ReadBytesStep>,
    k: int,
)
    requires
        message_steps(channel, timeout_ms, clocks, reads, asked, looked),
        channel@.socket is Some,
        0 <= k <= looked.len(),
        forall|i: int| 0 <= i < k ==> in_time(clocks[i], timeout_ms) && reads[i] is Err,
    ensures
        asked[k] matches ReadBytesStep::CheckClock { reader } && reader.timeout_ms == timeout_ms,
    decreases k,
{
    if k > 0 {
        still_waiting(channel, timeout_ms, clocks, reads, asked, looked, k - 1);
        assert(in_time(clocks[k - 1], timeout_ms));
        assert(looked[k - 1] is ReadSocket);
        assert(reads[k - 1] is Err);
        assert(asked[k - 1 + 1] is CheckClock);
    }
}

/// A read on an open channel tries, round by round, as long as it is in time: the first message
/// that the socket gives is what it returns, and errors of the socket only make it try again. Once
/// the clock shows more than the caller's timeout, and not before, it fails: for a timeout of zero
/// because the buffer is empty, for any other because the time is over.
pub proof fn first_message_comes_back<S>(
    channel: SocketCanIsoTPChannel<S>,
    timeout_ms: u32,
    clocks: Seq<u128>,
    reads: Seq<Result<Vec<u8>, std::io::Error>>,
    asked: Seq<ReadBytesStep>,
    looked: Seq<ReadBytesStep>,
    k: int,
)
    requires
        message_steps(channel, timeout_ms, clocks, reads, asked, looked),
        channel@.socket is Some,
        0 <= k < looked.len(),
        forall|i: int| 0 <= i < k ==> in_time(clocks[i], timeout_ms) && reads[i] is Err,
    ensures
        asked[k] is CheckClock,
        in_time(clocks[k], timeout_ms) ==> looked[k] is ReadSocket && match reads[k] {
            Ok(message) => asked[k + 1] == (ReadBytesStep::Finished { result: Ok(message) }),
            Err(_) => asked[k + 1] is CheckClock,
        },
        !in_time(clocks[k], timeout_ms) && timeout_ms == 0 ==> looked[k] == (
        ReadBytesStep::Finished { result: Err(ChannelError::BufferEmpty) }),
        !in_time(clocks[k], timeout_ms) && timeout_ms > 0 ==> looked[k] == (
        ReadBytesStep::Finished { result: Err(ChannelError::ReadTimeout) }),
{
    still_waiting(channel, timeout_ms, clocks, reads, asked, looked, k);
}

/// On a closed channel no message is read.
pub proof fn closed_channel_reads_no_message<S>(
    channel: SocketCanIsoTPChannel<S>,
    timeout_ms: u32,
    step: ReadBytesStep,
)
    requires
        channel@.socket is None,
        call_ensures(SocketCanIsoTPChannel::<S>::read_bytes, (&channel, timeout_ms), step),
    ensures
        step == (ReadBytesStep::Finished { result: Err(ChannelError::InterfaceNotOpen) }),
{
}

/// Emptying a receive buffer begins with a read on an open channel of either kind, and is refused
/// on a closed one.
pub proof fn clearing_begins<S, T>(
    can: SocketCanCanChannel<S>,
    isotp: SocketCanIsoTPChannel<T>,
    can_step: ClearStep,
    isotp_step: ClearStep,
)
    requires
        call_ensures(SocketCanCanChannel::<S>::clear_rx_buffer, (&can,), can_step),
        call_ensures(SocketCanIsoTPChannel::<T>::clear_rx_buffer, (&isotp,), isotp_step),
    ensures
        can@ is Some ==> can_step == ClearStep::Read,
        can@ is None ==> can_step == (ClearStep::Finished {
            result: Err(ChannelError::InterfaceNotOpen),
        }),
        isotp@.socket is Some ==> isotp_step == ClearStep::Read,
        isotp@.socket is None ==> isotp_step == (ClearStep::Finished {
            result: Err(ChannelError::InterfaceNotOpen),
        }),
{
}

/// Emptying a receive buffer goes on after a read that gave something, and succeeds after one that
/// failed.
pub proof fn clearing_goes_on_while_reads_succeed<T, E>(read: Result<T, E>, step: ClearStep)
    requires
        call_ensures(clear_after_read::<T, E>, (&read,), step),
    ensures
        read is Ok ==> step == ClearStep::Read,
        read is Err ==> step == (ClearStep::Finished { result: Ok(()) }),
{
}

/// Emptying a transmit buffer and setting the bus speed always succeed.
pub proof fn nothing_to_do_succeeds<S, T>(
    can: SocketCanCanChannel<S>,
    isotp: SocketCanIsoTPChannel<T>,
    baud: u32,
    use_extended: bool,
    can_cleared: ChannelResult<()>,
    isotp_cleared: ChannelResult<()>,
    configured: ChannelResult<()>,
)
    requires
        call_ensures(SocketCanCanChannel::<S>::clear_tx_buffer, (&can,), can_cleared),
        call_ensures(SocketCanIsoTPChannel::<T>::clear_tx_buffer, (&isotp,), isotp_cleared),
        call_ensures(
            SocketCanCanChannel::<S>::set_can_cfg,
            (&can, baud, use_extended),
            configured,
        ),
    ensures
        can_cleared is Ok,
        isotp_cleared is Ok,
        configured is Ok,
{
}

} // verus!
