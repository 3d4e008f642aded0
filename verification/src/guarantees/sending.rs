//! Sending CAN frames: each as it was given, once, in order, until one fails.
use vstd::prelude::*;

use crate::can_channel::SocketCanCanChannel;
use crate::error::{ChannelError, ChannelResult};
use crate::frame::{CanFrame, FrameModel, WireFrame};
use crate::packet_writer::{frames, PacketWriter, WriteStep};

verus! {

/// `frame` carries the identifier and the payload of `packet`, as a data frame.
pub open spec fn carries(frame: WireFrame, packet: FrameModel) -> bool {
    &&& frame.id == packet.id
    &&& frame.data@ == packet.data
    &&& frame.extended <==> packet.id > 0x7FF
    &&& !frame.remote
    &&& !frame.error
}

/// `next` is what `step` leads to when what it asks for ends with `outcome`.
pub open spec fn proceeds(
    step: WriteStep,
    outcome: Result<(), std::io::Error>,
    next: WriteStep,
) -> bool {
    match step {
        WriteStep::SetWriteTimeout { writer, .. } => call_ensures(
            PacketWriter::proceed,
            (writer, outcome),
            next,
        ),
        WriteStep::WriteFrame { writer, .. } => call_ensures(
            PacketWriter::proceed,
            (writer, outcome),
            next,
        ),
        WriteStep::Finished { .. } => false,
    }
}

/// `steps` are those of sending `packets` on `channel`, when what they ask for ends with
/// `outcomes`, in turn.
pub open spec fn sending_steps<S>(
    channel: SocketCanCanChannel<S>,
    packets: Vec<CanFrame>,
    timeout_ms: u32,
    outcomes: Seq<Result<(), std::io::Error>>,
    steps: Seq<WriteStep>,
) -> bool {
    &&& steps.len() == outcomes.len() + 1
    &&& call_ensures(
        SocketCanCanChannel::<S>::write_packets,
        (&channel, packets, timeout_ms),
        steps[0],
    )
    &&& forall|i: int|
        0 <= i < outcomes.len() ==> proceeds(#[trigger] steps[i], outcomes[i], steps[i + 1])
}

/// After `k` outcomes that were all good, `k` packets have been handed out.
proof fn sent_so_far<S>(
    channel: SocketCanCanChannel<S>,
    packets: Vec<CanFrame>,
    timeout_ms: u32,
    outcomes: Seq<Result<(), std::io::Error>>,
    steps: Seq<WriteStep>,
    k: int,
)
    requires
        sending_steps(channel, packets, timeout_ms, outcomes, steps),
        channel@ is Some,
        0 <= k <= outcomes.len(),
        k <= packets@.len(),
        forall|i: int| 0 <= i < k ==> outcomes[i] is Ok,
    ensures
        match steps[k] {
            WriteStep::SetWriteTimeout { millis, writer } => k == 0 && millis == timeout_ms
                && writer@.packets == frames(packets@) && writer@.sent == 0,
            WriteStep::WriteFrame { frame, writer } => k > 0 && carries(frame, packets@[k - 1]@)
                && writer@.packets == frames(packets@) && writer@.sent == k,
            WriteStep::Finished { .. } => false,
        },
    decreases k,
{
    if k > 0 {
        sent_so_far(channel, packets, timeout_ms, outcomes, steps, k - 1);
        assert(proceeds(steps[k - 1], outcomes[k - 1], steps[k - 1 + 1]));
        assert(frames(packets@)[k - 1] == packets@[k - 1]@);
        assert(steps[k]@ is WriteFrame);
    }
}

/// Sending on an open channel first sets the caller's timeout. As long as nothing fails, it then
/// hands out the packets one by one, each with its own identifier and its whole payload, and
/// succeeds behind the last one. The first failure ends it with its error.
pub proof fn packets_go_out_as_given<S>(
    channel: SocketCanCanChannel<S>,
    packets: Vec<CanFrame>,
    timeout_ms: u32,
    outcomes: Seq<Result<(), std::io::Error>>,
    steps: Seq<WriteStep>,
    k: int,
)
    requires
        sending_steps(channel, packets, timeout_ms, outcomes, steps),
        channel@ is Some,
        0 <= k < outcomes.len(),
        k <= packets@.len(),
        forall|i: int| 0 <= i < k ==> outcomes[i] is Ok,
        forall|i: int|
            0 <= i <= k && i < packets@.len() ==> (#[trigger] packets@[i])@.data.len() <= 8
                && packets@[i]@.id <= 0x1FFF_FFFF,
    ensures
        steps[0] matches WriteStep::SetWriteTimeout { millis, .. } && millis == timeout_ms,
        match outcomes[k] {
            Err(e) => steps[k + 1] == (WriteStep::Finished {
                result: Err(ChannelError::IOError(e)),
            }),
            Ok(()) => if k < packets@.len() {
                steps[k + 1] matches WriteStep::WriteFrame { frame, .. } && carries(
                    frame,
                    packets@[k]@,
                )
            } else {
                steps[k + 1] == (WriteStep::Finished { result: Ok(()) })
            },
        },
{
    sent_so_far(channel, packets, timeout_ms, outcomes, steps, 0);
    sent_so_far(channel, packets, timeout_ms, outcomes, steps, k);
    assert(proceeds(steps[k], outcomes[k], steps[k + 1]));
    if k < packets@.len() && outcomes[k] is Ok {
        sent_so_far(channel, packets, timeout_ms, outcomes, steps, k + 1);
    } else {
        assert(steps[k + 1]@ is Finished);
    }
}

/// Sending succeeds only after every packet went out, with nothing failing on the way: a success
/// at step `k + 1` means that there were `k` packets and that each of them is in the steps before.
pub proof fn success_means_all_went_out<S>(
    channel: SocketCanCanChannel<S>,
    packets: Vec<CanFrame>,
    timeout_ms: u32,
    outcomes: Seq<Result<(), std::io::Error>>,
    steps: Seq<WriteStep>,
    k: int,
)
    requires
        sending_steps(channel, packets, timeout_ms, outcomes, steps),
        channel@ is Some,
        0 <= k < outcomes.len(),
        k <= packets@.len(),
        forall|i: int| 0 <= i < k ==> outcomes[i] is Ok,
        steps[k + 1] == (WriteStep::Finished { result: Ok(()) }),
    ensures
        k == packets@.len(),
        outcomes[k] is Ok,
        forall|i: int|
            0 <= i < k ==> ((#[trigger] steps[i + 1]) matches WriteStep::WriteFrame { frame, .. }
                && carries(frame, packets@[i]@)),
{
    sent_so_far(channel, packets, timeout_ms, outcomes, steps, k);
    assert(proceeds(steps[k], outcomes[k], steps[k + 1]));
    assert(steps[k + 1]@ is Finished);
    assert forall|i: int| 0 <= i < k implies ((#[trigger] steps[i + 1])
        matches WriteStep::WriteFrame { frame, .. } && carries(frame, packets@[i]@)) by {
        sent_so_far(channel, packets, timeout_ms, outcomes, steps, i + 1);
    }
}

/// On a closed channel nothing is sent, whatever the packets.
pub proof fn closed_channel_sends_nothing<S>(
    channel: SocketCanCanChannel<S>,
    packets: Vec<CanFrame>,
    timeout_ms: u32,
    step: WriteStep,
)
    requires
        channel@ is None,
        call_ensures(
            SocketCanCanChannel::<S>::write_packets,
            (&channel, packets, timeout_ms),
            step,
        ),
    ensures
        step == (WriteStep::Finished { result: Err(ChannelError::InterfaceNotOpen) }),
{
    assert(step@ is Finished);
}

/// Whether the next packet can go out is answered by its own size and identifier.
pub proof fn next_packet_is_judged_by_itself(writer: PacketWriter, fits: bool)
    requires
        call_ensures(PacketWriter::next_is_sendable, (&writer,), fits),
        0 <= writer@.sent,
    ensures
        fits <==> (writer@.sent < writer@.packets.len() ==> writer@.packets[writer@.sent].data.len()
            <= 8 && writer@.packets[writer@.sent].id <= 0x1FFF_FFFF),
{
}

} // verus!
