//! Sending frames on a raw CAN channel.
use vstd::prelude::*;

use crate::error::{ChannelError, ChannelResult};
use crate::frame::{sendable, wire, CanFrame, FrameModel, WireFrame, WireModel};

verus! {

/// A sequence of frames that is being sent.
#[derive(Debug)]
pub struct PacketWriter {
    packets: Vec<CanFrame>,
    sent: usize,
}

/// The content of a [`PacketWriter`].
pub struct WriterModel {
    /// All frames
    pub packets: Seq<FrameModel>,
    /// How many of them were handed out
    pub sent: int,
}

/// The contents of `packets`.
pub open spec fn frames(packets: Seq<CanFrame>) -> Seq<FrameModel> {
    packets.map_values(|frame: CanFrame| frame@)
}

/// `packets` in the form in which a socket sends them.
pub open spec fn wires(packets: Seq<FrameModel>) -> Seq<WireModel> {
    packets.map_values(|frame: FrameModel| wire(frame))
}

impl View for PacketWriter {
    type V = WriterModel;

    closed spec fn view(&self) -> WriterModel {
        WriterModel { packets: frames(self.packets@), sent: self.sent as int }
    }
}

/// What comes next while frames are sent.
#[derive(Debug)]
pub enum WriteStep {
    /// Set the write timeout of the socket, and go on with [`PacketWriter::proceed`].
    SetWriteTimeout {
        /// The timeout in milliseconds
        millis: u64,
        /// The frames
        writer: PacketWriter,
    },
    /// Send this frame, and go on with [`PacketWriter::proceed`].
    WriteFrame {
        /// The frame to send now
        frame: WireFrame,
        /// The frames
        writer: PacketWriter,
    },
    /// All done
    Finished {
        /// What the operation returns
        result: ChannelResult<()>,
    },
}

/// The content of a [`WriteStep`].
pub enum WriteModel {
    SetWriteTimeout { millis: u64, writer: WriterModel },
    WriteFrame { frame: WireModel, writer: WriterModel },
    Finished { result: ChannelResult<()> },
}

impl View for WriteStep {
    type V = WriteModel;

    open spec fn view(&self) -> WriteModel {
        match *self {
            WriteStep::SetWriteTimeout { millis, writer } => WriteModel::SetWriteTimeout {
                millis,
                writer: writer@,
            },
            WriteStep::WriteFrame { frame, writer } => WriteModel::WriteFrame {
                frame: frame@,
                writer: writer@,
            },
            WriteStep::Finished { result } => WriteModel::Finished { result },
        }
    }
}

/// The first step of sending frames.
pub open spec fn write_packets_first(
    open: bool,
    packets: Seq<FrameModel>,
    timeout_ms: u32,
) -> WriteModel {
    if open {
        WriteModel::SetWriteTimeout {
            millis: timeout_ms as u64,
            writer: WriterModel { packets, sent: 0 },
        }
    } else {
        WriteModel::Finished { result: Err(ChannelError::InterfaceNotOpen) }
    }
}

/// The step after one that ended with `outcome`: the next frame, success behind the last one, or
/// the error.
pub open spec fn write_packets_next(
    writer: WriterModel,
    outcome: Result<(), std::io::Error>,
) -> WriteModel {
    match outcome {
        Ok(()) => if writer.sent < writer.packets.len() {
            WriteModel::WriteFrame {
                frame: wire(writer.packets[writer.sent]),
                writer: WriterModel { packets: writer.packets, sent: writer.sent + 1 },
            }
        } else {
            WriteModel::Finished { result: Ok(()) }
        },
        Err(e) => WriteModel::Finished { result: Err(ChannelError::IOError(e)) },
    }
}

/// The next frame, if there is one, can be sent.
pub open spec fn next_sendable(writer: WriterModel) -> bool {
    writer.sent < writer.packets.len() ==> sendable(writer.packets[writer.sent])
}

impl PacketWriter {
    #[verifier::type_invariant]
    spec fn counted(self) -> bool {
        self.sent <= self.packets@.len()
    }

    /// The first step of sending `packets` on an open channel.
    pub(crate) fn start(packets: Vec<CanFrame>, timeout_ms: u32) -> (step: WriteStep)
        ensures
            step@ == write_packets_first(true, frames(packets@), timeout_ms),
    {
        WriteStep::SetWriteTimeout {
            millis: timeout_ms as u64,
            writer: PacketWriter { packets, sent: 0 },
        }
    }

    /// Whether the next frame, if there is one, can be sent.
    pub fn next_is_sendable(&self) -> (fits: bool)
        ensures
            fits == next_sendable(self@),
    {
        if self.sent < self.packets.len() {
            self.packets[self.sent].is_sendable()
        } else {
            true
        }
    }

    /// Goes on after a step that ended with `outcome`.
    pub fn proceed(self, outcome: Result<(), std::io::Error>) -> (step: WriteStep)
        requires
            outcome is Ok ==> next_sendable(self@),
        ensures
            step@ == write_packets_next(self@, outcome),
    {
        match outcome {
            Ok(()) => {
                if self.sent < self.packets.len() {
                    let frame = self.packets[self.sent].to_wire().unwrap();
                    let writer = PacketWriter { packets: self.packets, sent: self.sent + 1 };
                    WriteStep::WriteFrame { frame, writer }
                } else {
                    WriteStep::Finished { result: Ok(()) }
                }
            },
            Err(e) => WriteStep::Finished { result: Err(ChannelError::IOError(e)) },
        }
    }
}

/// How sending goes from `writer` on, when the timeout and then the frames end with `outcomes`:
/// the frames that are handed out, and the result if it has come by then. None comes where the
/// next frame cannot be sent: sending is not to go on there.
pub open spec fn write_run(
    writer: WriterModel,
    outcomes: Seq<Result<(), std::io::Error>>,
) -> (Seq<WireModel>, Option<ChannelResult<()>>)
    decreases outcomes.len(),
{
    if outcomes.len() == 0 || (outcomes[0] is Ok && !next_sendable(writer)) {
        (seq![], None)
    } else {
        match write_packets_next(writer, outcomes[0]) {
            WriteModel::WriteFrame { frame, writer: rest } => {
                let (later, result) = write_run(rest, outcomes.drop_first());
                (seq![frame] + later, result)
            },
            WriteModel::Finished { result } => (seq![], Some(result)),
            WriteModel::SetWriteTimeout { .. } => (seq![], None),
        }
    }
}

/// The frames of `writer` from number `from` up to, but not including, number `to` can be sent.
pub open spec fn all_sendable(writer: WriterModel, from: int, to: int) -> bool {
    forall|i: int| from <= i < to ==> sendable(#[trigger] writer.packets[i])
}

/// When every frame can be sent and nothing fails, every frame is sent once and in order, and then
/// the operation succeeds.
pub proof fn all_packets_in_order(
    writer: WriterModel,
    outcomes: Seq<Result<(), std::io::Error>>,
)
    requires
        0 <= writer.sent <= writer.packets.len(),
        all_sendable(writer, writer.sent, writer.packets.len() as int),
        outcomes.len() == writer.packets.len() - writer.sent + 1,
        forall|i: int| 0 <= i < outcomes.len() ==> outcomes[i] is Ok,
    ensures
        write_run(writer, outcomes) == (
            wires(writer.packets.skip(writer.sent)),
            Some(ChannelResult::<()>::Ok(())),
        ),
    decreases outcomes.len(),
{
    let left = writer.packets.skip(writer.sent);
    assert(outcomes[0] is Ok);
    if writer.sent < writer.packets.len() {
        let rest = WriterModel { packets: writer.packets, sent: writer.sent + 1 };
        all_packets_in_order(rest, outcomes.drop_first());
        assert(seq![wire(left[0])] + wires(writer.packets.skip(rest.sent)) =~= wires(left));
    } else {
        assert(wires(left) =~= seq![]);
    }
}

/// The first failure ends the operation with its error: the frames before it have been sent, and
/// none follows.
pub proof fn failure_stops_sending(
    writer: WriterModel,
    outcomes: Seq<Result<(), std::io::Error>>,
    k: int,
)
    requires
        0 <= writer.sent <= writer.packets.len(),
        0 <= k < outcomes.len(),
        k <= writer.packets.len() - writer.sent,
        all_sendable(writer, writer.sent, writer.sent + k),
        outcomes[k] is Err,
        forall|i: int| 0 <= i < k ==> outcomes[i] is Ok,
    ensures
        write_run(writer, outcomes) == (
            wires(writer.packets.subrange(writer.sent, writer.sent + k)),
            Some(ChannelResult::<()>::Err(ChannelError::IOError(outcomes[k]->Err_0))),
        ),
    decreases k,
{
    let handed = writer.packets.subrange(writer.sent, writer.sent + k);
    if k > 0 {
        let rest = WriterModel { packets: writer.packets, sent: writer.sent + 1 };
        assert(outcomes[0] is Ok);
        failure_stops_sending(rest, outcomes.drop_first(), k - 1);
        let later = writer.packets.subrange(rest.sent, rest.sent + k - 1);
        assert(seq![wire(handed[0])] + wires(later) =~= wires(handed));
    } else {
        assert(wires(handed) =~= seq![]);
    }
}

/// Sending never ends by itself where a frame cannot be sent: those before it have been handed out,
/// and neither success nor an error is reported.
pub proof fn unsendable_frame_has_no_result(
    writer: WriterModel,
    outcomes: Seq<Result<(), std::io::Error>>,
    k: int,
)
    requires
        0 <= writer.sent <= writer.packets.len(),
        0 <= k < outcomes.len(),
        k < writer.packets.len() - writer.sent,
        all_sendable(writer, writer.sent, writer.sent + k),
        !sendable(writer.packets[writer.sent + k]),
        forall|i: int| 0 <= i <= k ==> outcomes[i] is Ok,
    ensures
        write_run(writer, outcomes) == (
            wires(writer.packets.subrange(writer.sent, writer.sent + k)),
            None::<ChannelResult<()>>,
        ),
    decreases k,
{
    let handed = writer.packets.subrange(writer.sent, writer.sent + k);
    assert(outcomes[0] is Ok);
    if k > 0 {
        let rest = WriterModel { packets: writer.packets, sent: writer.sent + 1 };
        unsendable_frame_has_no_result(rest, outcomes.drop_first(), k - 1);
        let later = writer.packets.subrange(rest.sent, rest.sent + k - 1);
        assert(seq![wire(handed[0])] + wires(later) =~= wires(handed));
    } else {
        assert(wires(handed) =~= seq![]);
    }
}

/// Sending on an open channel fails only with an error of the socket.
pub proof fn sending_fails_with_socket_error(
    writer: WriterModel,
    outcomes: Seq<Result<(), std::io::Error>>,
)
    ensures
        write_run(writer, outcomes).1 matches Some(Err(error)) ==> error is IOError,
    decreases outcomes.len(),
{
    if outcomes.len() > 0 {
        let rest = WriterModel { packets: writer.packets, sent: writer.sent + 1 };
        sending_fails_with_socket_error(rest, outcomes.drop_first());
    }
}

/// What sending returns tells what was sent. Success means that every frame could be sent and was,
/// once and in order, and that nothing failed. An error is that of the first failure, and means
/// that exactly the frames handed out before it were sent, in order.
pub proof fn result_tells_what_was_sent(
    writer: WriterModel,
    outcomes: Seq<Result<(), std::io::Error>>,
)
    requires
        0 <= writer.sent <= writer.packets.len(),
    ensures
        ({
            let (handed, result) = write_run(writer, outcomes);
            let n = handed.len() as int;
            &&& n <= writer.packets.len() - writer.sent
            &&& handed == wires(writer.packets.subrange(writer.sent, writer.sent + n))
            &&& all_sendable(writer, writer.sent, writer.sent + n)
            &&& n <= outcomes.len()
            &&& forall|i: int| 0 <= i < n ==> outcomes[i] is Ok
            &&& match result {
                Some(Ok(())) => writer.sent + n == writer.packets.len() && n < outcomes.len()
                    && outcomes[n] is Ok,
                Some(Err(error)) => n < outcomes.len() && outcomes[n] is Err && error
                    == ChannelError::IOError(outcomes[n]->Err_0),
                None => true,
            }
        }),
    decreases outcomes.len(),
{
    let (handed, result) = write_run(writer, outcomes);
    if outcomes.len() > 0 && outcomes[0] is Ok && next_sendable(writer) && writer.sent
        < writer.packets.len() {
        let rest = WriterModel { packets: writer.packets, sent: writer.sent + 1 };
        let later = outcomes.drop_first();
        result_tells_what_was_sent(rest, later);
        let n = handed.len() as int;
        assert(handed =~= wires(writer.packets.subrange(writer.sent, writer.sent + n)));
        assert forall|i: int| writer.sent <= i < writer.sent + n implies sendable(
            #[trigger] writer.packets[i],
        ) by {
            if i > writer.sent {
                assert(sendable(rest.packets[i]));
            }
        }
        assert forall|i: int| 0 <= i < n implies outcomes[i] is Ok by {
            if i > 0 {
                assert(later[i - 1] is Ok);
            }
        }
    } else {
        assert(handed =~= wires(writer.packets.subrange(writer.sent, writer.sent)));
    }
}

} // verus!
