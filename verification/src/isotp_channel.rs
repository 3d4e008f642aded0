//! The ISO-TP channel of a device.
use vstd::prelude::*;
use vstd::slice::slice_to_vec;

use crate::clear::{clear_first, start_clearing, ClearStep};
use crate::device::{with_canbus, DeviceModel, SocketCanDevice};
use crate::error::{lock_failure, reports, ChannelError, ChannelResult, HardwareError};
use crate::isotp::{asks_for, default_settings, request_socket, IsoTPSettings, IsoTpSocketRequest};
use crate::parallel::{ParallelModel, ParallelSend};
use crate::single_frame::{
    build_single_frame, capacity, fits_single_frame, single_frame, single_frame_fits,
};
use crate::timing::{may_read_on, read_budget};

verus! {

/// SocketCAN ISO-TP channel, over sockets of type `S`.
#[derive(Debug)]
pub struct SocketCanIsoTPChannel<S> {
    channel: Option<S>,
    /// Tx ID, Rx ID
    ids: (u32, u32),
    cfg: IsoTPSettings,
    cfg_complete: bool,
}

/// State of a [`SocketCanIsoTPChannel`].
pub struct IsoTpModel<S> {
    /// The open socket
    pub socket: Option<S>,
    /// Identifiers for sending and receiving
    pub ids: (u32, u32),
    /// Settings
    pub cfg: IsoTPSettings,
    /// Whether the settings were made by the caller
    pub cfg_complete: bool,
}

impl<S> View for SocketCanIsoTPChannel<S> {
    type V = IsoTpModel<S>;

    closed spec fn view(&self) -> IsoTpModel<S> {
        IsoTpModel {
            socket: self.channel,
            ids: self.ids,
            cfg: self.cfg,
            cfg_complete: self.cfg_complete,
        }
    }
}

/// A channel that was neither opened nor configured.
pub open spec fn unopened<S>() -> IsoTpModel<S> {
    IsoTpModel { socket: None, ids: (0, 0), cfg: default_settings(), cfg_complete: false }
}

/// What comes next while an ISO-TP channel is opened.
pub enum IsoTpOpenStep<S> {
    /// Take hold of the device, and go on with [`IsoTpOpenEvent::DeviceLocked`], or, if it cannot
    /// be held, with [`SocketCanIsoTPChannel::open_unheld`].
    LockDevice,
    /// Open this socket, and go on with [`IsoTpOpenEvent::SocketOpened`].
    OpenSocket {
        /// The socket to open
        request: IsoTpSocketRequest,
    },
    /// Make reads and writes of the socket return at once or not, and go on with
    /// [`IsoTpOpenEvent::NonblockingSet`].
    SetNonblocking {
        /// The socket
        socket: S,
        /// Whether reads and writes return at once
        nonblocking: bool,
    },
    /// All done
    Finished {
        /// What the operation returns
        result: ChannelResult<()>,
    },
}

/// What happened since the last [`IsoTpOpenStep`].
pub enum IsoTpOpenEvent<S> {
    /// The device is held.
    DeviceLocked,
    /// The attempt to open the socket ended.
    SocketOpened(Result<S, socketcan_isotp::Error>),
    /// The attempt to make the socket non-blocking ended.
    NonblockingSet(S, Result<(), std::io::Error>),
}

/// The first step of opening a channel.
pub open spec fn isotp_open_first<S>(channel: IsoTpModel<S>) -> IsoTpOpenStep<S> {
    if channel.socket is Some {
        IsoTpOpenStep::Finished { result: Ok(()) }
    } else {
        IsoTpOpenStep::LockDevice
    }
}

/// On `event`, a channel and its device go from the states `c0`, `d0` to `c1`, `d1`, and `step`
/// comes next. Only the last step, once everything has succeeded, changes anything.
pub open spec fn isotp_open_next<S>(
    c0: IsoTpModel<S>,
    d0: DeviceModel,
    event: IsoTpOpenEvent<S>,
    c1: IsoTpModel<S>,
    d1: DeviceModel,
    step: IsoTpOpenStep<S>,
) -> bool {
    match event {
        IsoTpOpenEvent::DeviceLocked => {
            &&& c1 == c0 && d1 == d0
            &&& step matches IsoTpOpenStep::OpenSocket { request }
            &&& asks_for(request, d0.info.name, c0.ids, c0.cfg)
        },
        IsoTpOpenEvent::SocketOpened(Ok(socket)) => {
            &&& c1 == c0 && d1 == d0
            &&& step == IsoTpOpenStep::SetNonblocking { socket, nonblocking: true }
        },
        IsoTpOpenEvent::SocketOpened(Err(e)) => {
            &&& c1 == c0 && d1 == d0
            &&& step matches IsoTpOpenStep::Finished { result: Err(error) }
            &&& reports(error, e)
        },
        IsoTpOpenEvent::NonblockingSet(socket, Ok(())) => {
            &&& c1 == (IsoTpModel { socket: Some(socket), ..c0 })
            &&& d1 == with_canbus(d0, true)
            &&& step == IsoTpOpenStep::<S>::Finished { result: Ok(()) }
        },
        IsoTpOpenEvent::NonblockingSet(_, Err(e)) => {
            &&& c1 == c0 && d1 == d0
            &&& step == IsoTpOpenStep::<S>::Finished { result: Err(ChannelError::IOError(e)) }
        },
    }
}

/// What opening returns where the device cannot be held: a channel that is open already does not
/// need it.
pub open spec fn isotp_open_unheld<S>(channel: IsoTpModel<S>) -> ChannelResult<()> {
    if channel.socket is Some {
        Ok(())
    } else {
        Err(lock_failure())
    }
}

/// What closing returns where the device cannot be held: it always needs it, even if the channel
/// is closed already.
pub open spec fn isotp_close_unheld() -> ChannelResult<()> {
    Err(lock_failure())
}

/// Closing takes a channel and its device from the states `c0`, `d0` to `c1`, `d1`.
pub open spec fn isotp_closed<S>(
    c0: IsoTpModel<S>,
    d0: DeviceModel,
    c1: IsoTpModel<S>,
    d1: DeviceModel,
) -> bool {
    &&& c1 == (IsoTpModel { socket: None, ..c0 })
    &&& d1 == if c0.socket is Some {
        with_canbus(d0, false)
    } else {
        d0
    }
}

/// A read of an ISO-TP message that is under way.
#[derive(Debug, Clone, Copy)]
pub struct BytesReader {
    /// The timeout that the caller gave, in milliseconds
    pub timeout_ms: u32,
}

/// What comes next while an ISO-TP message is read.
#[derive(Debug)]
pub enum ReadBytesStep {
    /// See how much time has passed since the read began, and go on with
    /// [`BytesReader::after_clock`].
    CheckClock {
        /// The read
        reader: BytesReader,
    },
    /// Read from the socket, and go on with [`BytesReader::after_read`].
    ReadSocket {
        /// The read
        reader: BytesReader,
    },
    /// All done
    Finished {
        /// What the operation returns
        result: ChannelResult<Vec<u8>>,
    },
}

/// The first step of reading a message.
pub open spec fn read_bytes_first(open: bool, timeout_ms: u32) -> ReadBytesStep {
    if open {
        ReadBytesStep::CheckClock { reader: BytesReader { timeout_ms } }
    } else {
        ReadBytesStep::Finished { result: Err(ChannelError::InterfaceNotOpen) }
    }
}

/// What a read that ran out of time returns: without a timeout, that nothing was there.
pub open spec fn out_of_time(timeout_ms: u32) -> ChannelError {
    if timeout_ms == 0 {
        ChannelError::BufferEmpty
    } else {
        ChannelError::ReadTimeout
    }
}

/// The step after a look at the clock.
pub open spec fn read_bytes_after_clock(reader: BytesReader, elapsed_ms: u128) -> ReadBytesStep {
    if elapsed_ms <= read_budget(reader.timeout_ms) {
        ReadBytesStep::ReadSocket { reader }
    } else {
        ReadBytesStep::Finished { result: Err(out_of_time(reader.timeout_ms)) }
    }
}

/// The step after a read from the socket: the message, or, whatever went wrong, another try.
pub open spec fn read_bytes_after_read(
    reader: BytesReader,
    read: Result<Vec<u8>, std::io::Error>,
) -> ReadBytesStep {
    match read {
        Ok(data) => ReadBytesStep::Finished { result: Ok(data) },
        Err(_) => ReadBytesStep::CheckClock { reader },
    }
}

impl BytesReader {
    /// Goes on after a look at the clock.
    pub fn after_clock(self, elapsed_ms: u128) -> (step: ReadBytesStep)
        ensures
            step == read_bytes_after_clock(self, elapsed_ms),
    {
        if may_read_on(elapsed_ms, self.timeout_ms) {
            ReadBytesStep::ReadSocket { reader: self }
        } else if self.timeout_ms == 0 {
            ReadBytesStep::Finished { result: Err(ChannelError::BufferEmpty) }
        } else {
            ReadBytesStep::Finished { result: Err(ChannelError::ReadTimeout) }
        }
    }

    /// Goes on after a read from the socket.
    pub fn after_read(self, read: Result<Vec<u8>, std::io::Error>) -> (step: ReadBytesStep)
        ensures
            step == read_bytes_after_read(self, read),
    {
        match read {
            Ok(data) => ReadBytesStep::Finished { result: Ok(data) },
            Err(_) => ReadBytesStep::CheckClock { reader: self },
        }
    }
}

/// What comes next while an ISO-TP message is written.
#[derive(Debug)]
pub enum WriteBytesStep {
    /// Open a raw CAN channel of its own on the same device, and go on with
    /// [`ParallelSend::after_open`].
    SendFrame {
        /// The frame to send on it
        send: ParallelSend,
    },
    /// Write this message to the socket, and go on with [`message_written`].
    WriteSocket {
        /// The message
        message: Vec<u8>,
    },
    /// All done
    Finished {
        /// What the operation returns
        result: ChannelResult<()>,
    },
}

/// The content of a [`WriteBytesStep`].
pub enum WriteBytesModel {
    SendFrame { send: ParallelModel },
    WriteSocket { message: Seq<u8> },
    Finished { result: ChannelResult<()> },
}

impl View for WriteBytesStep {
    type V = WriteBytesModel;

    open spec fn view(&self) -> WriteBytesModel {
        match *self {
            WriteBytesStep::SendFrame { send } => WriteBytesModel::SendFrame { send: send@ },
            WriteBytesStep::WriteSocket { message } => WriteBytesModel::WriteSocket {
                message: message@,
            },
            WriteBytesStep::Finished { result } => WriteBytesModel::Finished { result },
        }
    }
}

/// How a message to `addr` is written. To the channel's own address it goes through its socket.
/// To any other it goes out as a single frame, whether the channel is open or not, or not at all
/// if it is too long for one.
pub open spec fn write_bytes_step<S>(
    channel: IsoTpModel<S>,
    addr: u32,
    message: Seq<u8>,
    timeout_ms: u32,
) -> WriteBytesModel {
    if addr != channel.ids.0 {
        if message.len() <= capacity(channel.cfg) {
            WriteBytesModel::SendFrame {
                send: ParallelModel {
                    frame: single_frame(addr, message, channel.cfg),
                    timeout_ms,
                },
            }
        } else {
            WriteBytesModel::Finished { result: Err(ChannelError::UnsupportedRequest) }
        }
    } else if channel.socket is Some {
        WriteBytesModel::WriteSocket { message }
    } else {
        WriteBytesModel::Finished { result: Err(ChannelError::InterfaceNotOpen) }
    }
}

/// What a write returns after its message was written to the socket with `outcome`.
pub open spec fn socket_write_result(outcome: Result<(), std::io::Error>) -> ChannelResult<()> {
    match outcome {
        Ok(()) => Ok(()),
        Err(e) => Err(ChannelError::IOError(e)),
    }
}

/// What a write returns after its message was written to the socket.
pub fn message_written(outcome: Result<(), std::io::Error>) -> (result: ChannelResult<()>)
    ensures
        result == socket_write_result(outcome),
{
    match outcome {
        Ok(()) => Ok(()),
        Err(e) => Err(ChannelError::IOError(e)),
    }
}

impl<S> SocketCanIsoTPChannel<S> {
    /// A channel that was neither opened nor configured.
    pub(crate) fn new_unopened() -> (channel: Self)
        ensures
            channel@ == unopened::<S>(),
    {
        SocketCanIsoTPChannel {
            channel: None,
            ids: (0, 0),
            cfg: IsoTPSettings::default(),
            cfg_complete: false,
        }
    }

    /// Hands the open socket to `function`, or refuses if there is none.
    pub fn safe_with_iface<X, T: FnOnce(&mut S) -> ChannelResult<X>>(
        &mut self,
        function: T,
    ) -> (result: ChannelResult<X>)
        requires
            forall|iface: &mut S|
                Some(*iface) == old(self)@.socket ==> #[trigger] call_requires(function, (iface,)),
        ensures
            match old(self)@.socket {
                Some(socket) => exists|iface: &mut S|
                    #![auto]
                    {
                        &&& *iface == socket
                        &&& call_ensures(function, (iface,), result)
                        &&& final(self)@ == (IsoTpModel {
                            socket: Some(*final(iface)),
                            ..old(self)@
                        })
                    },
                None => {
                    &&& result == ChannelResult::<X>::Err(ChannelError::InterfaceNotOpen)
                    &&& final(self)@ == old(self)@
                },
            },
    {
        match self.channel.as_mut() {
            Some(channel) => function(channel),
            None => Err(ChannelError::InterfaceNotOpen),
        }
    }

    /// Starts to open the channel. One that is open already is left as it is.
    pub fn open(&self) -> (step: IsoTpOpenStep<S>)
        ensures
            step == isotp_open_first(self@),
    {
        if self.channel.is_some() {
            // Already open
            return IsoTpOpenStep::Finished { result: Ok(()) };
        }
        IsoTpOpenStep::LockDevice
    }

    /// Goes on with opening the channel, while the device is held. It is for a channel that is not
    /// open, such as [`Self::open`] answers with [`IsoTpOpenStep::LockDevice`].
    pub fn open_step(&mut self, device: &mut SocketCanDevice, event: IsoTpOpenEvent<S>) -> (step:
        IsoTpOpenStep<S>)
        requires
            old(self)@.socket is None,
        ensures
            isotp_open_next(
                old(self)@,
                old(device)@,
                event,
                final(self)@,
                final(device)@,
                step,
            ),
    {
        match event {
            IsoTpOpenEvent::DeviceLocked => {
                let name = device.get_info().name.clone();
                IsoTpOpenStep::OpenSocket { request: request_socket(name, self.ids, &self.cfg) }
            },
            IsoTpOpenEvent::SocketOpened(opened) => match opened {
                Ok(socket) => IsoTpOpenStep::SetNonblocking { socket, nonblocking: true },
                Err(e) => IsoTpOpenStep::Finished { result: Err(ChannelError::from(e)) },
            },
            IsoTpOpenEvent::NonblockingSet(socket, set) => match set {
                Ok(()) => {
                    device.set_canbus_active(true);
                    self.channel = Some(socket);
                    IsoTpOpenStep::Finished { result: Ok(()) }
                },
                Err(e) => IsoTpOpenStep::Finished { result: Err(ChannelError::IOError(e)) },
            },
        }
    }

    /// Ends opening the channel where the device cannot be held. Nothing has changed.
    pub fn open_unheld(&self) -> (result: ChannelResult<()>)
        ensures
            result == isotp_open_unheld(self@),
    {
        if self.channel.is_some() {
            return Ok(());
        }
        Err(ChannelError::HardwareError(HardwareError::LockError))
    }

    /// Ends closing the channel where the device cannot be held. Nothing has changed.
    pub fn close_unheld(&self) -> (result: ChannelResult<()>)
        ensures
            result == isotp_close_unheld(),
    {
        Err(ChannelError::HardwareError(HardwareError::LockError))
    }

    /// Closes the channel, while the device is held. One that is closed already is left as it is.
    /// Where the device cannot be held, [`Self::close_unheld`] takes the place of this.
    pub fn close(&mut self, device: &mut SocketCanDevice) -> (result: ChannelResult<()>)
        ensures
            result == ChannelResult::<()>::Ok(()),
            isotp_closed(old(self)@, old(device)@, final(self)@, final(device)@),
    {
        if self.channel.is_none() {
            // Already shut
            return Ok(());
        }
        self.channel = None;  // Closes channel
        device.set_canbus_active(false);
        Ok(())
    }

    /// Sets the identifiers to send and to receive on.
    pub fn set_ids(&mut self, send: u32, recv: u32) -> (result: ChannelResult<()>)
        ensures
            result == ChannelResult::<()>::Ok(()),
            final(self)@ == (IsoTpModel { ids: (send, recv), ..old(self)@ }),
    {
        self.ids = (send, recv);
        Ok(())
    }

    /// Sets the settings.
    pub fn set_iso_tp_cfg(&mut self, cfg: IsoTPSettings) -> (result: ChannelResult<()>)
        ensures
            result == ChannelResult::<()>::Ok(()),
            final(self)@ == (IsoTpModel { cfg, cfg_complete: true, ..old(self)@ }),
    {
        self.cfg = cfg;
        self.cfg_complete = true;
        Ok(())
    }

    /// Starts to read a message. A timeout of zero takes what is there already.
    pub fn read_bytes(&self, timeout_ms: u32) -> (step: ReadBytesStep)
        ensures
            step == read_bytes_first(self@.socket is Some, timeout_ms),
    {
        if self.channel.is_some() {
            ReadBytesStep::CheckClock { reader: BytesReader { timeout_ms } }
        } else {
            ReadBytesStep::Finished { result: Err(ChannelError::InterfaceNotOpen) }
        }
    }

    /// Starts to write a message to `addr`.
    ///
    /// The socket is bound to one address, the one set with [`Self::set_ids`]. A message to
    /// another address (a global tester present, say) can still go out if it fits a single frame:
    /// up to 7 bytes, or up to 6 with extended addressing. It is then sent on a raw CAN channel in
    /// parallel. A longer one fails with [`ChannelError::UnsupportedRequest`].
    pub fn write_bytes(&self, addr: u32, buffer: &[u8], timeout_ms: u32) -> (step: WriteBytesStep)
        ensures
            step@ == write_bytes_step(self@, addr, buffer@, timeout_ms),
    {
        if addr != self.ids.0 {
            if fits_single_frame(buffer.len(), &self.cfg) {
                let frame = build_single_frame(addr, buffer, &self.cfg);
                return WriteBytesStep::SendFrame { send: ParallelSend::new(frame, timeout_ms) };
            } else {
                return WriteBytesStep::Finished { result: Err(ChannelError::UnsupportedRequest) };
            }
        }
        if self.channel.is_some() {
            WriteBytesStep::WriteSocket { message: slice_to_vec(buffer) }
        } else {
            WriteBytesStep::Finished { result: Err(ChannelError::InterfaceNotOpen) }
        }
    }

    /// Starts to empty the receive buffer.
    pub fn clear_rx_buffer(&self) -> (step: ClearStep)
        ensures
            step == clear_first(self@.socket is Some),
    {
        start_clearing(self.channel.is_some())
    }

    /// Empties the transmit buffer: there is none on this side of the socket.
    pub fn clear_tx_buffer(&self) -> (result: ChannelResult<()>)
        ensures
            result == ChannelResult::<()>::Ok(()),
    {
        Ok(())
    }
}

/// Opening ends well only with an open channel on a bus that is in use, and then nothing else of
/// the channel or the device has changed. Opening the channel again does nothing.
pub proof fn isotp_opened<S>(
    c0: IsoTpModel<S>,
    d0: DeviceModel,
    event: IsoTpOpenEvent<S>,
    c1: IsoTpModel<S>,
    d1: DeviceModel,
    step: IsoTpOpenStep<S>,
)
    requires
        isotp_open_next(c0, d0, event, c1, d1, step),
        step == (IsoTpOpenStep::<S>::Finished { result: Ok(()) }),
    ensures
        c1.socket is Some,
        c1 == (IsoTpModel { socket: c1.socket, ..c0 }),
        d1 == with_canbus(d0, true),
        isotp_open_first(c1) == (IsoTpOpenStep::<S>::Finished { result: Ok(()) }),
{
}

/// Until opening has ended well, and where it fails, the channel and the device are as they were.
pub proof fn isotp_open_fails_clean<S>(
    c0: IsoTpModel<S>,
    d0: DeviceModel,
    event: IsoTpOpenEvent<S>,
    c1: IsoTpModel<S>,
    d1: DeviceModel,
    step: IsoTpOpenStep<S>,
)
    requires
        isotp_open_next(c0, d0, event, c1, d1, step),
        step != (IsoTpOpenStep::<S>::Finished { result: Ok(()) }),
    ensures
        c1 == c0,
        d1 == d0,
{
}

/// Where every step succeeds, opening asks for a socket on the device's own interface, with the
/// channel's identifiers and settings, makes it non-blocking, and keeps that very socket.
pub proof fn isotp_open_in_full<S>(
    socket: S,
    c: Seq<IsoTpModel<S>>,
    d: Seq<DeviceModel>,
    steps: Seq<IsoTpOpenStep<S>>,
)
    requires
        c.len() == 4 && d.len() == 4 && steps.len() == 4,
        isotp_open_first(c[0]) == IsoTpOpenStep::<S>::LockDevice,
        isotp_open_next(c[0], d[0], IsoTpOpenEvent::DeviceLocked, c[1], d[1], steps[1]),
        isotp_open_next(c[1], d[1], IsoTpOpenEvent::SocketOpened(Ok(socket)), c[2], d[2], steps[2]),
        isotp_open_next(
            c[2],
            d[2],
            IsoTpOpenEvent::NonblockingSet(socket, Ok(())),
            c[3],
            d[3],
            steps[3],
        ),
    ensures
        steps[1] matches IsoTpOpenStep::OpenSocket { request } && asks_for(
            request,
            d[0].info.name,
            c[0].ids,
            c[0].cfg,
        ),
        steps[2] == (IsoTpOpenStep::SetNonblocking { socket, nonblocking: true }),
        steps[3] == (IsoTpOpenStep::<S>::Finished { result: Ok(()) }),
        c[3] == (IsoTpModel { socket: Some(socket), ..c[0] }),
        d[3] == with_canbus(d[0], true),
{
}

/// Closing undoes opening: the channel keeps its identifiers and settings and can be opened again,
/// and the device is as it was before, except that its bus counts as not in use whatever it
/// counted as before.
pub proof fn isotp_close_undoes_open<S>(
    c0: IsoTpModel<S>,
    d0: DeviceModel,
    event: IsoTpOpenEvent<S>,
    c1: IsoTpModel<S>,
    d1: DeviceModel,
    step: IsoTpOpenStep<S>,
    c2: IsoTpModel<S>,
    d2: DeviceModel,
)
    requires
        isotp_open_next(c0, d0, event, c1, d1, step),
        step == (IsoTpOpenStep::<S>::Finished { result: Ok(()) }),
        isotp_closed(c1, d1, c2, d2),
    ensures
        c2 == (IsoTpModel { socket: None, ..c0 }),
        isotp_open_first(c2) == IsoTpOpenStep::<S>::LockDevice,
        d2 == with_canbus(d0, false),
        !d0.canbus_active ==> d2 == d0,
{
}

/// Closing a closed channel changes nothing.
pub proof fn isotp_close_is_idempotent<S>(
    c0: IsoTpModel<S>,
    d0: DeviceModel,
    c1: IsoTpModel<S>,
    d1: DeviceModel,
    c2: IsoTpModel<S>,
    d2: DeviceModel,
)
    requires
        isotp_closed(c0, d0, c1, d1),
        isotp_closed(c1, d1, c2, d2),
    ensures
        c2 == c1,
        d2 == d1,
{
}

/// On a closed channel every operation that needs the socket is refused, and nothing is sent or
/// read. A message to another address needs no socket: it is treated as on an open channel.
pub proof fn isotp_closed_refuses<S>(
    channel: IsoTpModel<S>,
    open: IsoTpModel<S>,
    addr: u32,
    message: Seq<u8>,
    timeout_ms: u32,
)
    requires
        channel.socket is None,
        open == (IsoTpModel { socket: open.socket, ..channel }),
    ensures
        read_bytes_first(channel.socket is Some, timeout_ms) == (ReadBytesStep::Finished {
            result: Err(ChannelError::InterfaceNotOpen),
        }),
        clear_first(channel.socket is Some) == (ClearStep::Finished {
            result: Err(ChannelError::InterfaceNotOpen),
        }),
        addr == channel.ids.0 ==> write_bytes_step(channel, addr, message, timeout_ms) == (
        WriteBytesModel::Finished { result: Err(ChannelError::InterfaceNotOpen) }),
        addr != channel.ids.0 ==> write_bytes_step(channel, addr, message, timeout_ms)
            == write_bytes_step(open, addr, message, timeout_ms),
{
}

/// Messages to the channel's own address go through its socket whole, whatever their length.
/// Messages to other addresses that are too long for a single frame are refused, and those that
/// are not go out in one frame that a CAN bus can carry.
pub proof fn message_length_limits<S>(
    channel: IsoTpModel<S>,
    addr: u32,
    message: Seq<u8>,
    timeout_ms: u32,
)
    requires
        channel.socket is Some,
    ensures
        ({
            let step = write_bytes_step(channel, addr, message, timeout_ms);
            &&& addr == channel.ids.0 ==> step == (WriteBytesModel::WriteSocket { message })
            &&& addr != channel.ids.0 && message.len() > 7 ==> step == (WriteBytesModel::Finished {
                result: Err(ChannelError::UnsupportedRequest),
            })
            &&& addr != channel.ids.0 && message.len() <= 6 ==> (step
                matches WriteBytesModel::SendFrame { send } && send.frame.data.len() <= 8)
            &&& addr != channel.ids.0 && message.len() == 7 ==> if channel.cfg.extended_addressing {
                step == (WriteBytesModel::Finished {
                    result: Err(ChannelError::UnsupportedRequest),
                })
            } else {
                step matches WriteBytesModel::SendFrame { send } && send.frame.data.len() == 8
            }
        }),
{
    if message.len() <= capacity(channel.cfg) {
        single_frame_fits(addr, message, channel.cfg);
    }
}

/// How a read goes, when the clock shows `clocks` and the socket gives `reads`, in turn: the
/// result, or `None` if it has not come by then.
pub open spec fn read_bytes_run(
    reader: BytesReader,
    clocks: Seq<u128>,
    reads: Seq<Result<Vec<u8>, std::io::Error>>,
) -> Option<ChannelResult<Vec<u8>>>
    decreases clocks.len(),
{
    if clocks.len() == 0 {
        None
    } else {
        match read_bytes_after_clock(reader, clocks[0]) {
            ReadBytesStep::Finished { result } => Some(result),
            ReadBytesStep::CheckClock { .. } => None,
            ReadBytesStep::ReadSocket { reader: reading } => if reads.len() == 0 {
                None
            } else {
                match read_bytes_after_read(reading, reads[0]) {
                    ReadBytesStep::Finished { result } => Some(result),
                    ReadBytesStep::ReadSocket { .. } => None,
                    ReadBytesStep::CheckClock { reader: rest } => read_bytes_run(
                        rest,
                        clocks.drop_first(),
                        reads.drop_first(),
                    ),
                }
            },
        }
    }
}

/// The first message that arrives in time is what the read returns, whatever errors came before.
pub proof fn read_returns_first_message(
    reader: BytesReader,
    clocks: Seq<u128>,
    reads: Seq<Result<Vec<u8>, std::io::Error>>,
    k: int,
)
    requires
        0 <= k < clocks.len(),
        k < reads.len(),
        forall|i: int| 0 <= i <= k ==> clocks[i] <= read_budget(reader.timeout_ms),
        forall|i: int| 0 <= i < k ==> reads[i] is Err,
        reads[k] is Ok,
    ensures
        read_bytes_run(reader, clocks, reads) == Some(
            ChannelResult::<Vec<u8>>::Ok(reads[k]->Ok_0),
        ),
    decreases k,
{
    if k > 0 {
        assert(reads[0] is Err);
        read_returns_first_message(reader, clocks.drop_first(), reads.drop_first(), k - 1);
    }
}

/// A read during whose time no message arrives ends when the time is over: with the error for an
/// empty buffer if the timeout was zero, otherwise with the one for a timeout. No error of the
/// socket is ever returned.
pub proof fn read_gives_up(
    reader: BytesReader,
    clocks: Seq<u128>,
    reads: Seq<Result<Vec<u8>, std::io::Error>>,
    k: int,
)
    requires
        0 <= k < clocks.len(),
        k <= reads.len(),
        forall|i: int| 0 <= i < k ==> clocks[i] <= read_budget(reader.timeout_ms),
        forall|i: int| 0 <= i < k ==> reads[i] is Err,
        clocks[k] > read_budget(reader.timeout_ms),
    ensures
        read_bytes_run(reader, clocks, reads) == Some(
            ChannelResult::<Vec<u8>>::Err(out_of_time(reader.timeout_ms)),
        ),
    decreases k,
{
    if k > 0 {
        assert(reads[0] is Err);
        read_gives_up(reader, clocks.drop_first(), reads.drop_first(), k - 1);
    }
}

/// Whatever the clock shows and the socket gives, a read returns a message that the socket gave or
/// the error for its time being over, and nothing else.
pub proof fn read_returns_nothing_else(
    reader: BytesReader,
    clocks: Seq<u128>,
    reads: Seq<Result<Vec<u8>, std::io::Error>>,
)
    ensures
        match read_bytes_run(reader, clocks, reads) {
            Some(Ok(message)) => reads.contains(Ok(message)),
            Some(Err(error)) => error == out_of_time(reader.timeout_ms),
            None => true,
        },
    decreases clocks.len(),
{
    if clocks.len() > 0 && reads.len() > 0 && clocks[0] <= read_budget(reader.timeout_ms) {
        match reads[0] {
            Ok(message) => {
                assert(reads[0] == Result::<Vec<u8>, std::io::Error>::Ok(message));
            },
            Err(_) => {
                let later = reads.drop_first();
                read_returns_nothing_else(reader, clocks.drop_first(), later);
                if let Some(Ok(message)) = read_bytes_run(reader, clocks, reads) {
                    let i = later.index_of(Ok(message));
                    assert(reads[i + 1] == later[i]);
                }
            },
        }
    }
}

/// How many reads from the socket a read makes, when the clock shows `clocks` and the socket gives
/// `reads`, in turn.
pub open spec fn socket_reads(
    reader: BytesReader,
    clocks: Seq<u128>,
    reads: Seq<Result<Vec<u8>, std::io::Error>>,
) -> nat
    decreases clocks.len(),
{
    if clocks.len() == 0 || reads.len() == 0 || !(read_bytes_after_clock(reader, clocks[0])
        is ReadSocket) {
        0
    } else {
        match read_bytes_after_read(reader, reads[0]) {
            ReadBytesStep::CheckClock { reader: rest } => 1 + socket_reads(
                rest,
                clocks.drop_first(),
                reads.drop_first(),
            ),
            _ => 1,
        }
    }
}

/// A timeout of zero and one of a millisecond differ only in the error that ends the read: the
/// same reads are made from the socket, and the same message comes back if there is one.
pub proof fn zero_timeout_reads_alike(
    clocks: Seq<u128>,
    reads: Seq<Result<Vec<u8>, std::io::Error>>,
)
    ensures
        ({
            let none = BytesReader { timeout_ms: 0 };
            let least = BytesReader { timeout_ms: 1 };
            &&& socket_reads(none, clocks, reads) == socket_reads(least, clocks, reads)
            &&& match read_bytes_run(none, clocks, reads) {
                Some(Ok(message)) => read_bytes_run(least, clocks, reads) == Some(
                    ChannelResult::<Vec<u8>>::Ok(message),
                ),
                Some(Err(error)) => error == ChannelError::BufferEmpty && read_bytes_run(
                    least,
                    clocks,
                    reads,
                ) == Some(ChannelResult::<Vec<u8>>::Err(ChannelError::ReadTimeout)),
                None => read_bytes_run(least, clocks, reads) is None,
            }
        }),
    decreases clocks.len(),
{
    if clocks.len() > 0 && reads.len() > 0 {
        zero_timeout_reads_alike(clocks.drop_first(), reads.drop_first());
    }
}

} // verus!
