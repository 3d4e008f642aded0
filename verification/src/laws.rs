//! What holds across the operations of a device and its channels.
use vstd::prelude::*;

use crate::can_channel::{
    can_close_first, can_close_unheld, can_closed, can_open_first, can_open_next, can_open_unheld,
    CanCloseStep, CanOpenEvent, CanOpenStep,
};
use crate::device::{fresh_device, with_canbus, DeviceModel};
use crate::error::{lock_failure, ChannelError, ChannelResult};
use crate::frame::{wire, FrameModel, MAX_EXTENDED_ID};
use crate::hardware::socket_can_info;
use crate::isotp_channel::{
    isotp_close_unheld, isotp_closed, isotp_open_first, isotp_open_next, isotp_open_unheld,
    socket_write_result, write_bytes_step, IsoTpModel, IsoTpOpenEvent, IsoTpOpenStep,
    WriteBytesModel,
};
use crate::packet_writer::{
    all_packets_in_order, next_sendable, sending_fails_with_socket_error, wires,
    write_packets_first, write_run, WriteModel, WriterModel,
};
use crate::parallel::{
    parallel_after_open, parallel_after_write, ParallelModel, ParallelStepModel,
};
use crate::single_frame::{capacity, single_frame, single_frame_fits};

verus! {

/// The device went from the state `d0` to `d1` by having its bus marked as in use or not, or not
/// at all.
pub open spec fn device_step(d0: DeviceModel, d1: DeviceModel) -> bool {
    d1 == d0 || d1 == with_canbus(d0, true) || d1 == with_canbus(d0, false)
}

/// A step of opening a raw CAN channel does no more to a device than mark its bus.
pub proof fn can_open_is_device_step<S>(
    c0: Option<S>,
    d0: DeviceModel,
    event: CanOpenEvent<S>,
    c1: Option<S>,
    d1: DeviceModel,
    step: CanOpenStep<S>,
)
    requires
        can_open_next(c0, d0, event, c1, d1, step),
    ensures
        device_step(d0, d1),
{
}

/// Closing a raw CAN channel does no more to a device than mark its bus.
pub proof fn can_close_is_device_step<S>(d0: DeviceModel, c1: Option<S>, d1: DeviceModel)
    requires
        can_closed(d0, c1, d1),
    ensures
        device_step(d0, d1),
{
}

/// A step of opening an ISO-TP channel does no more to a device than mark its bus.
pub proof fn isotp_open_is_device_step<S>(
    c0: IsoTpModel<S>,
    d0: DeviceModel,
    event: IsoTpOpenEvent<S>,
    c1: IsoTpModel<S>,
    d1: DeviceModel,
    step: IsoTpOpenStep<S>,
)
    requires
        isotp_open_next(c0, d0, event, c1, d1, step),
    ensures
        device_step(d0, d1),
{
}

/// Closing an ISO-TP channel does no more to a device than mark its bus.
pub proof fn isotp_close_is_device_step<S>(
    c0: IsoTpModel<S>,
    d0: DeviceModel,
    c1: IsoTpModel<S>,
    d1: DeviceModel,
)
    requires
        isotp_closed(c0, d0, c1, d1),
    ensures
        device_step(d0, d1),
{
}

/// Through any number of operations a device stays the interface that it was made for, and never
/// counts an ISO-TP channel as open: such a channel marks the bus as in use instead.
pub proof fn device_keeps_identity(name: Seq<char>, history: Seq<DeviceModel>, n: int)
    requires
        0 <= n < history.len(),
        history[0] == fresh_device(name),
        forall|i: int|
            0 <= i < history.len() - 1 ==> device_step(#[trigger] history[i], history[i + 1]),
    ensures
        history[n].info == socket_can_info(name),
        !history[n].isotp_active,
    decreases n,
{
    if n > 0 {
        device_keeps_identity(name, history, n - 1);
        assert(device_step(history[n - 1], history[n - 1 + 1]));
    }
}

/// What a write of an ISO-TP message has done once it is over.
pub struct WriteOutcome {
    /// What it returned
    pub result: ChannelResult<()>,
    /// The state that the device was left in
    pub device: DeviceModel,
    /// The messages that were given to the ISO-TP socket
    pub to_socket: Seq<Seq<u8>>,
    /// The frames that were given to a raw CAN channel beside it
    pub in_parallel: Seq<FrameModel>,
}

/// Sending `frame` on a raw CAN channel of its own, which opens as `opened` says and takes the
/// frame as `written` says, on a device in the state `d0`. The first of the two errors is what
/// comes back. A channel that was opened is closed again, while the device is held, and leaves the
/// bus as not in use.
pub open spec fn parallel_outcome(
    frame: FrameModel,
    d0: DeviceModel,
    opened: ChannelResult<()>,
    written: ChannelResult<()>,
) -> WriteOutcome {
    match opened {
        Ok(()) => WriteOutcome {
            result: written,
            device: with_canbus(d0, false),
            to_socket: seq![],
            in_parallel: seq![frame],
        },
        Err(e) => WriteOutcome {
            result: Err(e),
            device: d0,
            to_socket: seq![],
            in_parallel: seq![],
        },
    }
}

/// Writing `message` to `addr` on a device in the state `d0`, where a raw CAN channel beside the
/// ISO-TP channel would open as `opened` says and take a frame as `written` says, and the ISO-TP
/// socket would take a message as `socket` says.
pub open spec fn write_outcome<S>(
    isotp: IsoTpModel<S>,
    d0: DeviceModel,
    addr: u32,
    message: Seq<u8>,
    timeout_ms: u32,
    opened: ChannelResult<()>,
    written: ChannelResult<()>,
    socket: Result<(), std::io::Error>,
) -> WriteOutcome {
    match write_bytes_step(isotp, addr, message, timeout_ms) {
        WriteBytesModel::SendFrame { send } => parallel_outcome(send.frame, d0, opened, written),
        WriteBytesModel::WriteSocket { message } => WriteOutcome {
            result: socket_write_result(socket),
            device: d0,
            to_socket: seq![message],
            in_parallel: seq![],
        },
        WriteBytesModel::Finished { result } => WriteOutcome {
            result,
            device: d0,
            to_socket: seq![],
            in_parallel: seq![],
        },
    }
}

/// A message to another address that fits a single frame is written exactly if a raw CAN channel
/// can be opened for it and takes that one frame. If opening fails, its error comes back and the
/// device is as before. If the frame is not taken, that error comes back. Once opened, the channel
/// is closed again either way, and the bus then counts as not in use, even if the ISO-TP channel
/// is open. The ISO-TP socket plays no part: it is given nothing, and it is the same whether there
/// is one or not.
pub proof fn other_address_outcome<S>(
    isotp: IsoTpModel<S>,
    shut: IsoTpModel<S>,
    d0: DeviceModel,
    addr: u32,
    message: Seq<u8>,
    timeout_ms: u32,
    opened: ChannelResult<()>,
    written: ChannelResult<()>,
    socket: Result<(), std::io::Error>,
)
    requires
        addr != isotp.ids.0,
        message.len() <= capacity(isotp.cfg),
        shut == (IsoTpModel { socket: None, ..isotp }),
    ensures
        ({
            let outcome = write_outcome(
                isotp,
                d0,
                addr,
                message,
                timeout_ms,
                opened,
                written,
                socket,
            );
            &&& outcome.result is Ok <==> opened is Ok && written is Ok
            &&& opened matches Err(e) ==> outcome.result == ChannelResult::<()>::Err(e)
                && outcome.device == d0 && outcome.in_parallel.len() == 0
            &&& opened is Ok ==> {
                &&& outcome.result == written
                &&& outcome.device == with_canbus(d0, false)
                &&& outcome.in_parallel == seq![single_frame(addr, message, isotp.cfg)]
            }
            &&& outcome.to_socket.len() == 0
            &&& outcome == write_outcome(
                shut,
                d0,
                addr,
                message,
                timeout_ms,
                opened,
                written,
                socket,
            )
        }),
{
}

/// A message to another address that is too long for a single frame, and one to the channel's own
/// address, open no channel and leave the device alone. The latter is given to the socket whole
/// and once.
pub proof fn other_outcomes<S>(
    isotp: IsoTpModel<S>,
    d0: DeviceModel,
    addr: u32,
    message: Seq<u8>,
    timeout_ms: u32,
    opened: ChannelResult<()>,
    written: ChannelResult<()>,
    socket: Result<(), std::io::Error>,
)
    requires
        addr == isotp.ids.0 || message.len() > capacity(isotp.cfg),
    ensures
        ({
            let outcome = write_outcome(
                isotp,
                d0,
                addr,
                message,
                timeout_ms,
                opened,
                written,
                socket,
            );
            &&& outcome.device == d0
            &&& outcome.in_parallel.len() == 0
            &&& if addr != isotp.ids.0 {
                outcome.result == ChannelResult::<()>::Err(ChannelError::UnsupportedRequest)
                    && outcome.to_socket.len() == 0
            } else if isotp.socket is Some {
                outcome.result == socket_write_result(socket) && outcome.to_socket == seq![message]
            } else {
                outcome.result == ChannelResult::<()>::Err(ChannelError::InterfaceNotOpen)
                    && outcome.to_socket.len() == 0
            }
        }),
{
}

/// The steps of sending a frame beside an ISO-TP channel come to what `parallel_outcome` says. The
/// attempt to open a new raw CAN channel ends with its last step, the frame is written with the
/// caller's timeout only if that went well, and the channel is closed if it is open. Then it is
/// closed for good.
pub proof fn parallel_steps_reach_outcome<T>(
    send: ParallelModel,
    c0: Option<T>,
    d0: DeviceModel,
    event: CanOpenEvent<T>,
    c1: Option<T>,
    d1: DeviceModel,
    opened: ChannelResult<()>,
    written: ChannelResult<()>,
    c2: Option<T>,
    d2: DeviceModel,
)
    requires
        c0 is None,
        can_open_next(c0, d0, event, c1, d1, CanOpenStep::Finished { result: opened }),
        if can_close_first(c1) is LockDevice {
            can_closed(d1, c2, d2)
        } else {
            c2 == c1 && d2 == d1
        },
    ensures
        ({
            let outcome = parallel_outcome(send.frame, d0, opened, written);
            &&& match parallel_after_open(send, opened) {
                ParallelStepModel::WritePackets { packets, timeout_ms } => {
                    &&& opened is Ok && c1 is Some && d1.canbus_active
                    &&& packets == outcome.in_parallel
                    &&& timeout_ms == send.timeout_ms
                    &&& parallel_after_write(written) == (ParallelStepModel::CloseChannel {
                        result: outcome.result,
                    })
                },
                ParallelStepModel::CloseChannel { result } => {
                    &&& opened is Err && c1 is None
                    &&& outcome.in_parallel.len() == 0
                    &&& result == outcome.result
                },
            }
            &&& d2 == outcome.device
            &&& c2 is None
        }),
{
}

/// A message to another address is never refused because a channel is not open, not even on a
/// closed ISO-TP channel: the raw CAN channel for it fails to open only if the device cannot be held
/// or with an error of the driver or the socket, and takes or refuses the frame as its socket does.
pub proof fn other_address_needs_no_open_channel<T>(
    frame: FrameModel,
    d0: DeviceModel,
    c0: Option<T>,
    event: CanOpenEvent<T>,
    c1: Option<T>,
    d1: DeviceModel,
    opened: ChannelResult<()>,
    outcomes: Seq<Result<(), std::io::Error>>,
    written: ChannelResult<()>,
)
    requires
        can_open_next(c0, d0, event, c1, d1, CanOpenStep::Finished { result: opened }) || opened
            == can_open_unheld(c0),
        write_run((WriterModel { packets: seq![frame], sent: 0 }), outcomes).1 == Some(written),
    ensures
        parallel_outcome(frame, d0, opened, written).result != ChannelResult::<()>::Err(
            ChannelError::InterfaceNotOpen,
        ),
{
    sending_fails_with_socket_error(WriterModel { packets: seq![frame], sent: 0 }, outcomes);
}

/// A message to another address that fits a single frame goes out in exactly one frame, and the
/// write succeeds if setting the timeout and sending that frame do. The frame is one that can be
/// sent, unless addressing is not extended and the address has more than 29 bits.
pub proof fn other_address_takes_one_frame<S>(
    isotp: IsoTpModel<S>,
    addr: u32,
    message: Seq<u8>,
    timeout_ms: u32,
    outcomes: Seq<Result<(), std::io::Error>>,
)
    requires
        addr != isotp.ids.0,
        message.len() <= capacity(isotp.cfg),
        outcomes.len() == 2,
        outcomes[0] is Ok && outcomes[1] is Ok,
    ensures
        ({
            let frame = single_frame(addr, message, isotp.cfg);
            let writer = WriterModel { packets: seq![frame], sent: 0 };
            &&& write_bytes_step(isotp, addr, message, timeout_ms) == (WriteBytesModel::SendFrame {
                send: ParallelModel { frame, timeout_ms },
            })
            &&& write_packets_first(true, seq![frame], timeout_ms) == (
            WriteModel::SetWriteTimeout { millis: timeout_ms as u64, writer })
            &&& next_sendable(writer) <==> isotp.cfg.extended_addressing || addr <= MAX_EXTENDED_ID
            &&& next_sendable(writer) ==> write_run(writer, outcomes) == (
                seq![wire(frame)],
                Some(ChannelResult::<()>::Ok(())),
            )
        }),
{
    let frame = single_frame(addr, message, isotp.cfg);
    let writer = WriterModel { packets: seq![frame], sent: 0 };
    single_frame_fits(addr, message, isotp.cfg);
    if next_sendable(writer) {
        all_packets_in_order(writer, outcomes);
    }
    assert(wires(writer.packets.skip(0)) =~= seq![wire(frame)]);
}

/// Where the device cannot be held, an open channel of either kind opens, as it needs nothing, and
/// a closed one does not. The two differ in closing: a closed raw CAN channel closes, as it needs
/// nothing, while a closed ISO-TP channel does not. An open channel of either kind does not close.
pub proof fn closing_differs_without_device<S, T>(can: Option<S>, isotp: IsoTpModel<T>)
    ensures
        can_open_unheld(can) is Ok <==> can is Some,
        isotp_open_unheld(isotp) is Ok <==> isotp.socket is Some,
        can is None ==> can_close_unheld(can) == ChannelResult::<()>::Ok(()),
        can is Some ==> can_close_unheld(can) == ChannelResult::<()>::Err(lock_failure()),
        isotp_close_unheld() == ChannelResult::<()>::Err(lock_failure()),
{
}

/// An operation that does not ask for the device ends alike whether it could be held or not, and
/// one that asks for it and cannot hold it fails for that reason alone.
pub proof fn unheld_device_matters_only_if_asked_for<S, T>(can: Option<S>, isotp: IsoTpModel<T>)
    ensures
        match can_open_first(can) {
            CanOpenStep::Finished { result } => can_open_unheld(can) == result,
            _ => can_open_unheld(can) == ChannelResult::<()>::Err(lock_failure()),
        },
        match can_close_first(can) {
            CanCloseStep::Finished { result } => can_close_unheld(can) == result,
            CanCloseStep::LockDevice => can_close_unheld(can) == ChannelResult::<()>::Err(
                lock_failure(),
            ),
        },
        match isotp_open_first(isotp) {
            IsoTpOpenStep::Finished { result } => isotp_open_unheld(isotp) == result,
            _ => isotp_open_unheld(isotp) == ChannelResult::<()>::Err(lock_failure()),
        },
{
}

/// Sending a frame beside an ISO-TP channel where the device cannot be held to open the raw CAN
/// channel fails for that reason, sends nothing and leaves the device as it was.
pub proof fn parallel_send_without_device<T>(
    send: ParallelModel,
    c0: Option<T>,
    d0: DeviceModel,
    written: ChannelResult<()>,
)
    requires
        c0 is None,
    ensures
        ({
            let outcome = parallel_outcome(send.frame, d0, can_open_unheld(c0), written);
            &&& parallel_after_open(send, can_open_unheld(c0)) == (ParallelStepModel::CloseChannel {
                result: outcome.result,
            })
            &&& outcome.result == ChannelResult::<()>::Err(lock_failure())
            &&& outcome.device == d0
            &&& outcome.in_parallel.len() == 0
            &&& outcome.to_socket.len() == 0
            &&& can_close_first(c0) == (CanCloseStep::Finished { result: Ok(()) })
        }),
{
}

/// Where the device could be held to open that channel but no longer to close it, the write returns
/// what it would have returned all the same, and the bus goes on counting as in use.
pub proof fn parallel_close_without_device<T>(
    send: ParallelModel,
    c0: Option<T>,
    d0: DeviceModel,
    event: CanOpenEvent<T>,
    c1: Option<T>,
    d1: DeviceModel,
    written: ChannelResult<()>,
)
    requires
        can_open_next(c0, d0, event, c1, d1, CanOpenStep::Finished { result: Ok(()) }),
    ensures
        can_close_unheld(c1) == ChannelResult::<()>::Err(lock_failure()),
        parallel_after_write(written) == (ParallelStepModel::CloseChannel {
            result: parallel_outcome(send.frame, d0, Ok(()), written).result,
        }),
        d1 == with_canbus(d0, true),
{
}

} // verus!
