//! The raw CAN channel of a device.
use vstd::prelude::*;

use crate::clear::{clear_first, start_clearing, ClearStep};
use crate::device::{with_canbus, DeviceModel, SocketCanDevice};
use crate::error::{lock_failure, reports, ChannelError, ChannelResult, HardwareError};
use crate::frame::{CanFrame, FrameModel};
use crate::packet_reader::{read_packets_first, PacketReader, ReadModel, ReadStep};
use crate::packet_writer::{frames, write_packets_first, PacketWriter, WriteModel, WriteStep};

verus! {

/// SocketCAN CAN channel, over sockets of type `S`.
#[derive(Debug)]
pub struct SocketCanCanChannel<S> {
    channel: Option<S>,
}

/// The open socket of the channel.
impl<S> View for SocketCanCanChannel<S> {
    type V = Option<S>;

    closed spec fn view(&self) -> Option<S> {
        self.channel
    }
}

/// What comes next while a CAN channel is opened.
#[derive(Debug)]
pub enum CanOpenStep<S> {
    /// Take hold of the device, and go on with [`CanOpenEvent::DeviceLocked`], or, if it cannot be
    /// held, with [`SocketCanCanChannel::open_unheld`].
    LockDevice,
    /// Open a socket on this interface, and go on with [`CanOpenEvent::SocketOpened`].
    OpenSocket {
        /// Name of the network interface
        interface: String,
    },
    /// Make the socket receive every frame, and go on with [`CanOpenEvent::FilterSet`].
    AcceptAll {
        /// The socket
        socket: S,
    },
    /// Make reads and writes of the socket return at once or not, and go on with
    /// [`CanOpenEvent::NonblockingSet`].
    SetNonblocking {
        /// The socket
        socket: S,
        /// Whether reads and writes return at once
        nonblocking: bool,
    },
    /// All done
    Finished {
        /// What the operation returns
        result: ChannelResult<()>,
    },
}

/// What happened since the last [`CanOpenStep`].
#[derive(Debug)]
pub enum CanOpenEvent<S> {
    /// The device is held.
    DeviceLocked,
    /// The attempt to open the socket ended.
    SocketOpened(Result<S, socketcan::CANSocketOpenError>),
    /// The attempt to make the socket receive every frame ended.
    FilterSet(S, Result<(), std::io::Error>),
    /// The attempt to make the socket blocking ended.
    NonblockingSet(S, Result<(), std::io::Error>),
}

/// The first step of opening a channel.
pub open spec fn can_open_first<S>(channel: Option<S>) -> CanOpenStep<S> {
    if channel is Some {
        CanOpenStep::Finished { result: Ok(()) }
    } else {
        CanOpenStep::LockDevice
    }
}

/// On `event`, a channel and its device go from the states `c0`, `d0` to `c1`, `d1`, and `step`
/// comes next. Only the last step, once everything has succeeded, changes anything.
pub open spec fn can_open_next<S>(
    c0: Option<S>,
    d0: DeviceModel,
    event: CanOpenEvent<S>,
    c1: Option<S>,
    d1: DeviceModel,
    step: CanOpenStep<S>,
) -> bool {
    match event {
        CanOpenEvent::DeviceLocked => {
            &&& c1 == c0 && d1 == d0
            &&& step matches CanOpenStep::OpenSocket { interface }
            &&& interface@ == d0.info.name
        },
        CanOpenEvent::SocketOpened(Ok(socket)) => {
            &&& c1 == c0 && d1 == d0
            &&& step == CanOpenStep::AcceptAll { socket }
        },
        CanOpenEvent::SocketOpened(Err(e)) => {
            &&& c1 == c0 && d1 == d0
            &&& step matches CanOpenStep::Finished { result: Err(error) }
            &&& reports(error, e)
        },
        CanOpenEvent::FilterSet(socket, Ok(())) => {
            &&& c1 == c0 && d1 == d0
            &&& step == CanOpenStep::SetNonblocking { socket, nonblocking: false }
        },
        CanOpenEvent::FilterSet(_, Err(e)) => {
            &&& c1 == c0 && d1 == d0
            &&& step == CanOpenStep::<S>::Finished { result: Err(ChannelError::IOError(e)) }
        },
        CanOpenEvent::NonblockingSet(socket, Ok(())) => {
            &&& c1 == Some(socket)
            &&& d1 == with_canbus(d0, true)
            &&& step == CanOpenStep::<S>::Finished { result: Ok(()) }
        },
        CanOpenEvent::NonblockingSet(_, Err(e)) => {
            &&& c1 == c0 && d1 == d0
            &&& step == CanOpenStep::<S>::Finished { result: Err(ChannelError::IOError(e)) }
        },
    }
}

/// What comes next while a CAN channel is closed.
#[derive(Debug)]
pub enum CanCloseStep {
    /// Take hold of the device, and go on with [`SocketCanCanChannel::close_locked`], or, if it
    /// cannot be held, with [`SocketCanCanChannel::close_unheld`].
    LockDevice,
    /// All done
    Finished {
        /// What the operation returns
        result: ChannelResult<()>,
    },
}

/// The first step of closing a channel.
pub open spec fn can_close_first<S>(channel: Option<S>) -> CanCloseStep {
    if channel is None {
        CanCloseStep::Finished { result: Ok(()) }
    } else {
        CanCloseStep::LockDevice
    }
}

/// What opening returns where the device cannot be held: a channel that is open already does not
/// need it.
pub open spec fn can_open_unheld<S>(channel: Option<S>) -> ChannelResult<()> {
    if channel is Some {
        Ok(())
    } else {
        Err(lock_failure())
    }
}

/// What closing returns where the device cannot be held: a channel that is closed already does not
/// need it.
pub open spec fn can_close_unheld<S>(channel: Option<S>) -> ChannelResult<()> {
    if channel is None {
        Ok(())
    } else {
        Err(lock_failure())
    }
}

/// Closing while the device is held takes the device from the state `d0` to `d1`, and leaves the
/// channel in the state `c1`.
pub open spec fn can_closed<S>(d0: DeviceModel, c1: Option<S>, d1: DeviceModel) -> bool {
    c1 is None && d1 == with_canbus(d0, false)
}

impl<S> SocketCanCanChannel<S> {
    /// A channel that was not opened.
    pub(crate) fn new_unopened() -> (channel: Self)
        ensures
            channel@ is None,
    {
        SocketCanCanChannel { channel: None }
    }

    /// Hands the open socket to `function`, or refuses if there is none.
    pub fn safe_with_iface<X, T: FnOnce(&S) -> ChannelResult<X>>(
        &mut self,
        function: T,
    ) -> (result: ChannelResult<X>)
        requires
            old(self)@ matches Some(socket) ==> call_requires(function, (&socket,)),
        ensures
            final(self)@ == old(self)@,
            match old(self)@ {
                Some(socket) => call_ensures(function, (&socket,), result),
                None => result == ChannelResult::<X>::Err(ChannelError::InterfaceNotOpen),
            },
    {
        match self.channel {
            Some(ref channel) => function(channel),
            None => Err(ChannelError::InterfaceNotOpen),
        }
    }

    /// Starts to open the channel. One that is open already is left as it is.
    pub fn open(&self) -> (step: CanOpenStep<S>)
        ensures
            step == can_open_first(self@),
    {
        if self.channel.is_some() {
            return CanOpenStep::Finished { result: Ok(()) };  // Already open!
        }
        CanOpenStep::LockDevice
    }

    /// Goes on with opening the channel, while the device is held. It is for a channel that is not
    /// open, such as [`Self::open`] answers with [`CanOpenStep::LockDevice`].
    pub fn open_step(&mut self, device: &mut SocketCanDevice, event: CanOpenEvent<S>) -> (step:
        CanOpenStep<S>)
        requires
            old(self)@ is None,
        ensures
            can_open_next(old(self)@, old(device)@, event, final(self)@, final(device)@, step),
    {
        match event {
            CanOpenEvent::DeviceLocked => CanOpenStep::OpenSocket {
                interface: device.get_info().name.clone(),
            },
            CanOpenEvent::SocketOpened(opened) => match opened {
                Ok(socket) => CanOpenStep::AcceptAll { socket },
                Err(e) => CanOpenStep::Finished { result: Err(ChannelError::from(e)) },
            },
            CanOpenEvent::FilterSet(socket, set) => match set {
                Ok(()) => CanOpenStep::SetNonblocking { socket, nonblocking: false },
                Err(e) => CanOpenStep::Finished { result: Err(ChannelError::IOError(e)) },
            },
            CanOpenEvent::NonblockingSet(socket, set) => match set {
                Ok(()) => {
                    self.channel = Some(socket);
                    device.set_canbus_active(true);
                    CanOpenStep::Finished { result: Ok(()) }
                },
                Err(e) => CanOpenStep::Finished { result: Err(ChannelError::IOError(e)) },
            },
        }
    }

    /// Ends opening the channel where the device cannot be held. Nothing has changed.
    pub fn open_unheld(&self) -> (result: ChannelResult<()>)
        ensures
            result == can_open_unheld(self@),
    {
        if self.channel.is_some() {
            return Ok(());
        }
        Err(ChannelError::HardwareError(HardwareError::LockError))
    }

    /// Starts to close the channel. One that is closed already is left as it is.
    pub fn close(&self) -> (step: CanCloseStep)
        ensures
            step == can_close_first(self@),
    {
        if self.channel.is_none() {
            return CanCloseStep::Finished { result: Ok(()) };
        }
        CanCloseStep::LockDevice
    }

    /// Ends closing the channel where the device cannot be held. Nothing has changed.
    pub fn close_unheld(&self) -> (result: ChannelResult<()>)
        ensures
            result == can_close_unheld(self@),
    {
        if self.channel.is_none() {
            return Ok(());
        }
        Err(ChannelError::HardwareError(HardwareError::LockError))
    }

    /// Closes the channel, while the device is held. It is for a channel that is open, such as
    /// [`Self::close`] answers with [`CanCloseStep::LockDevice`].
    pub fn close_locked(&mut self, device: &mut SocketCanDevice) -> (result: ChannelResult<()>)
        requires
            old(self)@ is Some,
        ensures
            result == ChannelResult::<()>::Ok(()),
            can_closed(old(device)@, final(self)@, final(device)@),
    {
        self.channel = None;
        device.set_canbus_active(false);
        Ok(())
    }

    /// Starts to send `packets`, one after the other.
    pub fn write_packets(&self, packets: Vec<CanFrame>, timeout_ms: u32) -> (step: WriteStep)
        ensures
            step@ == write_packets_first(self@ is Some, frames(packets@), timeout_ms),
    {
        if self.channel.is_some() {
            PacketWriter::start(packets, timeout_ms)
        } else {
            WriteStep::Finished { result: Err(ChannelError::InterfaceNotOpen) }
        }
    }

    /// Starts to read up to `max` frames, for as long as the timeout allows.
    pub fn read_packets(&self, max: usize, timeout_ms: u32) -> (step: ReadStep)
        ensures
            step@ == read_packets_first(self@ is Some, max, timeout_ms),
    {
        if self.channel.is_some() {
            ReadStep::CheckClock { reader: PacketReader::new(max, timeout_ms) }
        } else {
            ReadStep::Finished { result: Err(ChannelError::InterfaceNotOpen) }
        }
    }

    /// Starts to empty the receive buffer.
    pub fn clear_rx_buffer(&self) -> (step: ClearStep)
        ensures
            step == clear_first(self@ is Some),
    {
        start_clearing(self.channel.is_some())
    }

    /// Empties the transmit buffer: there is none on this side of the socket.
    pub fn clear_tx_buffer(&self) -> (result: ChannelResult<()>)
        ensures
            result == ChannelResult::<()>::Ok(()),
    {
        Ok(())
    }

    /// Sets the bus speed and the kind of identifiers: ignored, as the channel is pre-configured
    /// by the kernel.
    pub fn set_can_cfg(&self, _baud: u32, _use_extended: bool) -> (result: ChannelResult<()>)
        ensures
            result == ChannelResult::<()>::Ok(()),
    {
        Ok(())
    }
}

/// Opening ends well only with an open channel on a bus that is in use, and then nothing else of
/// the device has changed. Opening the channel again does nothing.
pub proof fn can_opened<S>(
    c0: Option<S>,
    d0: DeviceModel,
    event: CanOpenEvent<S>,
    c1: Option<S>,
    d1: DeviceModel,
    step: CanOpenStep<S>,
)
    requires
        can_open_next(c0, d0, event, c1, d1, step),
        step == (CanOpenStep::<S>::Finished { result: Ok(()) }),
    ensures
        c1 is Some,
        d1 == with_canbus(d0, true),
        can_open_first(c1) == (CanOpenStep::<S>::Finished { result: Ok(()) }),
{
}

/// Until opening has ended well, and where it fails, the channel and the device are as they were.
pub proof fn can_open_fails_clean<S>(
    c0: Option<S>,
    d0: DeviceModel,
    event: CanOpenEvent<S>,
    c1: Option<S>,
    d1: DeviceModel,
    step: CanOpenStep<S>,
)
    requires
        can_open_next(c0, d0, event, c1, d1, step),
        step != (CanOpenStep::<S>::Finished { result: Ok(()) }),
    ensures
        c1 == c0,
        d1 == d0,
{
}

/// Where every step succeeds, opening asks for a socket on the device's own interface, makes it
/// receive every frame and wait in reads and writes, and keeps that very socket.
pub proof fn can_open_in_full<S>(
    socket: S,
    c: Seq<Option<S>>,
    d: Seq<DeviceModel>,
    steps: Seq<CanOpenStep<S>>,
)
    requires
        c.len() == 5 && d.len() == 5 && steps.len() == 5,
        can_open_first(c[0]) == CanOpenStep::<S>::LockDevice,
        can_open_next(c[0], d[0], CanOpenEvent::DeviceLocked, c[1], d[1], steps[1]),
        can_open_next(c[1], d[1], CanOpenEvent::SocketOpened(Ok(socket)), c[2], d[2], steps[2]),
        can_open_next(c[2], d[2], CanOpenEvent::FilterSet(socket, Ok(())), c[3], d[3], steps[3]),
        can_open_next(
            c[3],
            d[3],
            CanOpenEvent::NonblockingSet(socket, Ok(())),
            c[4],
            d[4],
            steps[4],
        ),
    ensures
        steps[1] matches CanOpenStep::OpenSocket { interface } && interface@ == d[0].info.name,
        steps[2] == (CanOpenStep::AcceptAll { socket }),
        steps[3] == (CanOpenStep::SetNonblocking { socket, nonblocking: false }),
        steps[4] == (CanOpenStep::<S>::Finished { result: Ok(()) }),
        c[4] == Some(socket),
        d[4] == with_canbus(d[0], true),
{
}

/// Closing undoes opening: the channel is closed, closing it again does nothing, and the device is
/// as it was before, except that its bus counts as not in use whatever it counted as before.
pub proof fn can_close_undoes_open<S>(
    c0: Option<S>,
    d0: DeviceModel,
    event: CanOpenEvent<S>,
    c1: Option<S>,
    d1: DeviceModel,
    step: CanOpenStep<S>,
    c2: Option<S>,
    d2: DeviceModel,
)
    requires
        can_open_next(c0, d0, event, c1, d1, step),
        step == (CanOpenStep::<S>::Finished { result: Ok(()) }),
        can_closed(d1, c2, d2),
    ensures
        can_close_first(c1) == CanCloseStep::LockDevice,
        c2 is None,
        can_close_first(c2) == (CanCloseStep::Finished { result: Ok(()) }),
        d2 == with_canbus(d0, false),
        !d0.canbus_active ==> d2 == d0,
{
}

/// On a closed channel every operation that needs the socket is refused, and nothing is sent or
/// read.
pub proof fn can_closed_refuses(packets: Seq<FrameModel>, max: usize, timeout_ms: u32)
    ensures
        write_packets_first(false, packets, timeout_ms) == (WriteModel::Finished {
            result: Err(ChannelError::InterfaceNotOpen),
        }),
        read_packets_first(false, max, timeout_ms) == (ReadModel::Finished {
            result: Err(ChannelError::InterfaceNotOpen),
        }),
        clear_first(false) == (ClearStep::Finished { result: Err(ChannelError::InterfaceNotOpen) }),
{
}

} // verus!
