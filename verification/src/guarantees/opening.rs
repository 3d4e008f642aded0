//! Devices and channels: what is asked of the system to open one, and what opening, configuring and
//! closing leave behind.
use vstd::prelude::*;
use vstd::string::to_string_from_display_ensures;

use crate::can_channel::{CanCloseStep, CanOpenEvent, CanOpenStep, SocketCanCanChannel};
use crate::device::SocketCanDevice;
use crate::error::{ChannelError, ChannelResult, HardwareError, HardwareResult};
use crate::hardware::{socket_can_capabilities, HardwareCapabilities, HardwareInfo};
use crate::isotp::{is_default_link_layer, socket_options, IsoTPSettings, IsoTpId};
use crate::isotp_channel::{IsoTpModel, IsoTpOpenEvent, IsoTpOpenStep, SocketCanIsoTPChannel};

verus! {

/// The socket that an ISO-TP channel asks for is on the interface of its device. With extended
/// addressing it sends and receives on the channel's identifiers as they are, otherwise on their
/// lower sixteen bits. Flow control and link layer options are not its own. Asking changes nothing.
pub proof fn isotp_asks_for_its_own_ids<S>(
    channel: &mut SocketCanIsoTPChannel<S>,
    device: &mut SocketCanDevice,
    step: IsoTpOpenStep<S>,
)
    requires
        call_ensures(
            SocketCanIsoTPChannel::<S>::open_step,
            (channel, device, IsoTpOpenEvent::DeviceLocked),
            step,
        ),
    ensures
        step matches IsoTpOpenStep::OpenSocket { request } && {
            let ids = old(channel)@.ids;
            &&& request.interface@ == old(device)@.info.name
            &&& old(channel)@.cfg.extended_addressing ==> request.tx_id == IsoTpId::Extended(ids.0)
                && request.rx_id == IsoTpId::Extended(ids.1)
            &&& !old(channel)@.cfg.extended_addressing ==> (request.tx_id
                matches IsoTpId::Standard(tx) && tx == ids.0 % 0x1_0000)
            &&& !old(channel)@.cfg.extended_addressing ==> (request.rx_id
                matches IsoTpId::Standard(rx) && rx == ids.1 % 0x1_0000)
            &&& request.flow_control is None
            &&& is_default_link_layer(request.link_layer)
        },
        final(channel)@ == old(channel)@,
        final(device)@ == old(device)@,
{
}

/// The options of the socket that an ISO-TP channel asks for. Bit 1 of the flags is set exactly
/// with extended addressing and bit 2 exactly with padding, and no other is ever set. The address
/// bytes are the lowest ones of the identifiers with extended addressing, and zero without. A frame
/// takes ten milliseconds, and padding is in zeros.
pub proof fn isotp_asks_for_its_own_options<S>(
    channel: &mut SocketCanIsoTPChannel<S>,
    device: &mut SocketCanDevice,
    step: IsoTpOpenStep<S>,
)
    requires
        call_ensures(
            SocketCanIsoTPChannel::<S>::open_step,
            (channel, device, IsoTpOpenEvent::DeviceLocked),
            step,
        ),
    ensures
        step matches IsoTpOpenStep::OpenSocket { request } && {
            let options = request.options;
            let ids = old(channel)@.ids;
            let extended = old(channel)@.cfg.extended_addressing;
            &&& options.flags & 2 == 2 <==> extended
            &&& options.flags & 4 == 4 <==> old(channel)@.cfg.pad_frame
            &&& options.flags & !6 == 0
            &&& extended ==> options.ext_address == ids.0 % 0x100
            &&& extended ==> options.rx_ext_address == ids.1 % 0x100
            &&& !extended ==> options.ext_address == 0 && options.rx_ext_address == 0
            &&& options.frame_txtime == 10_000_000
            &&& options.txpad_content == 0
            &&& options.rxpad_content == 0
        },
{
    options_bit_by_bit(old(channel)@.ids, old(channel)@.cfg);
}

/// The socket options for any identifiers and settings, bit by bit.
pub proof fn options_bit_by_bit(ids: (u32, u32), settings: IsoTPSettings)
    ensures
        socket_options(ids, settings).flags & 2 == 2 <==> settings.extended_addressing,
        socket_options(ids, settings).flags & 4 == 4 <==> settings.pad_frame,
        socket_options(ids, settings).flags & !6 == 0,
        settings.extended_addressing ==> socket_options(ids, settings).ext_address == ids.0 % 0x100
            && socket_options(ids, settings).rx_ext_address == ids.1 % 0x100,
        !settings.extended_addressing ==> socket_options(ids, settings).ext_address == 0
            && socket_options(ids, settings).rx_ext_address == 0,
        socket_options(ids, settings).frame_txtime == 10_000_000,
        socket_options(ids, settings).txpad_content == 0,
        socket_options(ids, settings).rxpad_content == 0,
{
    assert(0u32 & 2 == 0 && 0u32 & 4 == 0 && 0u32 & !6 == 0) by (bit_vector);
    assert(2u32 & 2 == 2 && 2u32 & 4 == 0 && 2u32 & !6 == 0) by (bit_vector);
    assert(4u32 & 2 == 0 && 4u32 & 4 == 4 && 4u32 & !6 == 0) by (bit_vector);
    assert(6u32 & 2 == 2 && 6u32 & 4 == 4 && 6u32 & !6 == 0) by (bit_vector);
}

/// Two ISO-TP channels whose settings agree on extended addressing and on padding ask for the same
/// flags, whatever their other settings, their identifiers and their devices are. If they agree on
/// the identifiers too, they ask for the same options.
pub proof fn no_other_setting_matters<S>(
    first: &mut SocketCanIsoTPChannel<S>,
    second: &mut SocketCanIsoTPChannel<S>,
    first_device: &mut SocketCanDevice,
    second_device: &mut SocketCanDevice,
    first_step: IsoTpOpenStep<S>,
    second_step: IsoTpOpenStep<S>,
)
    requires
        call_ensures(
            SocketCanIsoTPChannel::<S>::open_step,
            (first, first_device, IsoTpOpenEvent::DeviceLocked),
            first_step,
        ),
        call_ensures(
            SocketCanIsoTPChannel::<S>::open_step,
            (second, second_device, IsoTpOpenEvent::DeviceLocked),
            second_step,
        ),
        old(first)@.cfg.extended_addressing == old(second)@.cfg.extended_addressing,
        old(first)@.cfg.pad_frame == old(second)@.cfg.pad_frame,
    ensures
        first_step matches IsoTpOpenStep::OpenSocket { request: a } && (second_step
            matches IsoTpOpenStep::OpenSocket { request: b } && {
            &&& a.options.flags == b.options.flags
            &&& old(first)@.ids == old(second)@.ids ==> a.options == b.options
        }),
{
}

/// How opening an ISO-TP channel goes on, on each outcome of what it asked for. Reads and writes of
/// the socket are made to return at once. Only when that is done does anything change: the channel
/// has the socket, and the bus counts as in use. Failures to open the socket are reported with code
/// 99 and their own text, other failures as they are.
pub proof fn isotp_opening_goes_on<S>(
    channel: &mut SocketCanIsoTPChannel<S>,
    device: &mut SocketCanDevice,
    event: IsoTpOpenEvent<S>,
    step: IsoTpOpenStep<S>,
)
    requires
        call_ensures(
            SocketCanIsoTPChannel::<S>::open_step,
            (channel, device, event),
            step,
        ),
    ensures
        event matches IsoTpOpenEvent::SocketOpened(Ok(socket)) ==> step == (
        IsoTpOpenStep::SetNonblocking { socket, nonblocking: true }),
        event matches IsoTpOpenEvent::SocketOpened(Err(e)) ==> (step matches IsoTpOpenStep::Finished {
            result: Err(ChannelError::HardwareError(HardwareError::APIError { code, desc })),
        } && code == 99 && to_string_from_display_ensures(&e, desc)),
        event matches IsoTpOpenEvent::NonblockingSet(_, Err(e)) ==> step == (
        IsoTpOpenStep::<S>::Finished { result: Err(ChannelError::IOError(e)) }),
        event matches IsoTpOpenEvent::NonblockingSet(socket, Ok(())) ==> {
            &&& step == (IsoTpOpenStep::<S>::Finished { result: Ok(()) })
            &&& final(channel)@.socket == Some(socket)
            &&& final(channel)@.ids == old(channel)@.ids
            &&& final(channel)@.cfg == old(channel)@.cfg
            &&& final(channel)@.cfg_complete == old(channel)@.cfg_complete
            &&& final(device)@.canbus_active
            &&& final(device)@.isotp_active == old(device)@.isotp_active
            &&& final(device)@.info == old(device)@.info
        },
        step != (IsoTpOpenStep::<S>::Finished { result: Ok(()) }) ==> final(channel)@ == old(
            channel,
        )@ && final(device)@ == old(device)@,
{
}

/// Opening an ISO-TP channel needs the device exactly if the channel is not open, and closing one
/// needs it always. Where the device cannot be held, that is the failure.
pub proof fn isotp_needs_its_device<S>(
    channel: SocketCanIsoTPChannel<S>,
    step: IsoTpOpenStep<S>,
    opened: ChannelResult<()>,
    closed: ChannelResult<()>,
)
    requires
        call_ensures(SocketCanIsoTPChannel::<S>::open, (&channel,), step),
        call_ensures(SocketCanIsoTPChannel::<S>::open_unheld, (&channel,), opened),
        call_ensures(SocketCanIsoTPChannel::<S>::close_unheld, (&channel,), closed),
    ensures
        channel@.socket is Some ==> step == (IsoTpOpenStep::<S>::Finished { result: Ok(()) })
            && opened is Ok,
        channel@.socket is None ==> step == IsoTpOpenStep::<S>::LockDevice && opened
            == ChannelResult::<()>::Err(ChannelError::HardwareError(HardwareError::LockError)),
        closed == ChannelResult::<()>::Err(ChannelError::HardwareError(HardwareError::LockError)),
{
}

/// Closing an ISO-TP channel always succeeds. It takes the socket away and frees the bus if there
/// was one, and changes nothing else.
pub proof fn isotp_closing<S>(
    channel: &mut SocketCanIsoTPChannel<S>,
    device: &mut SocketCanDevice,
    result: ChannelResult<()>,
)
    requires
        call_ensures(SocketCanIsoTPChannel::<S>::close, (channel, device), result),
    ensures
        result is Ok,
        final(channel)@.socket is None,
        final(channel)@.ids == old(channel)@.ids,
        final(channel)@.cfg == old(channel)@.cfg,
        final(channel)@.cfg_complete == old(channel)@.cfg_complete,
        old(channel)@.socket is Some ==> !final(device)@.canbus_active,
        old(channel)@.socket is None ==> final(device)@ == old(device)@,
        final(device)@.isotp_active == old(device)@.isotp_active,
        final(device)@.info == old(device)@.info,
{
}

/// The identifiers and the settings of an ISO-TP channel are those that were set last, each set
/// without touching the other or the socket.
pub proof fn isotp_configuring<S>(
    channel: &mut SocketCanIsoTPChannel<S>,
    other: &mut SocketCanIsoTPChannel<S>,
    send: u32,
    recv: u32,
    cfg: IsoTPSettings,
    ids_set: ChannelResult<()>,
    cfg_set: ChannelResult<()>,
)
    requires
        call_ensures(SocketCanIsoTPChannel::<S>::set_ids, (channel, send, recv), ids_set),
        call_ensures(SocketCanIsoTPChannel::<S>::set_iso_tp_cfg, (other, cfg), cfg_set),
    ensures
        ids_set is Ok,
        final(channel)@.ids.0 == send,
        final(channel)@.ids.1 == recv,
        final(channel)@.cfg == old(channel)@.cfg,
        final(channel)@.cfg_complete == old(channel)@.cfg_complete,
        final(channel)@.socket == old(channel)@.socket,
        cfg_set is Ok,
        final(other)@.cfg == cfg,
        final(other)@.cfg_complete,
        final(other)@.ids == old(other)@.ids,
        final(other)@.socket == old(other)@.socket,
{
}

/// How opening a raw CAN channel goes on, on each outcome of what it asked for: a socket on the
/// interface of its device, which takes every frame and waits in reads and writes. Only when all of
/// it is done does anything change: the channel has the socket, and the bus counts as in use.
/// Failures to open the socket are reported with code 99 and their own text, other failures as they
/// are.
pub proof fn can_opening_goes_on<S>(
    channel: &mut SocketCanCanChannel<S>,
    device: &mut SocketCanDevice,
    event: CanOpenEvent<S>,
    step: CanOpenStep<S>,
)
    requires
        call_ensures(SocketCanCanChannel::<S>::open_step, (channel, device, event), step),
    ensures
        event is DeviceLocked ==> (step matches CanOpenStep::OpenSocket { interface } && interface@
            == old(device)@.info.name),
        event matches CanOpenEvent::SocketOpened(Ok(socket)) ==> step == (CanOpenStep::AcceptAll {
            socket,
        }),
        event matches CanOpenEvent::SocketOpened(Err(e)) ==> (step matches CanOpenStep::Finished {
            result: Err(ChannelError::HardwareError(HardwareError::APIError { code, desc })),
        } && code == 99 && to_string_from_display_ensures(&e, desc)),
        event matches CanOpenEvent::FilterSet(socket, Ok(())) ==> step == (
        CanOpenStep::SetNonblocking { socket, nonblocking: false }),
        event matches CanOpenEvent::FilterSet(_, Err(e)) ==> step == (CanOpenStep::<S>::Finished {
            result: Err(ChannelError::IOError(e)),
        }),
        event matches CanOpenEvent::NonblockingSet(_, Err(e)) ==> step == (
        CanOpenStep::<S>::Finished { result: Err(ChannelError::IOError(e)) }),
        event matches CanOpenEvent::NonblockingSet(socket, Ok(())) ==> {
            &&& step == (CanOpenStep::<S>::Finished { result: Ok(()) })
            &&& final(channel)@ == Some(socket)
            &&& final(device)@.canbus_active
            &&& final(device)@.isotp_active == old(device)@.isotp_active
            &&& final(device)@.info == old(device)@.info
        },
        step != (CanOpenStep::<S>::Finished { result: Ok(()) }) ==> final(channel)@ == old(channel)@
            && final(device)@ == old(device)@,
{
}

/// Opening a raw CAN channel needs the device exactly if the channel is not open, and closing one
/// exactly if it is. Where the device cannot be held, that is the failure.
pub proof fn can_needs_its_device<S>(
    channel: SocketCanCanChannel<S>,
    open_step: CanOpenStep<S>,
    close_step: CanCloseStep,
    opened: ChannelResult<()>,
    closed: ChannelResult<()>,
)
    requires
        call_ensures(SocketCanCanChannel::<S>::open, (&channel,), open_step),
        call_ensures(SocketCanCanChannel::<S>::close, (&channel,), close_step),
        call_ensures(SocketCanCanChannel::<S>::open_unheld, (&channel,), opened),
        call_ensures(SocketCanCanChannel::<S>::close_unheld, (&channel,), closed),
    ensures
        channel@ is Some ==> {
            &&& open_step == (CanOpenStep::<S>::Finished { result: Ok(()) })
            &&& opened is Ok
            &&& close_step == CanCloseStep::LockDevice
            &&& closed == ChannelResult::<()>::Err(
                ChannelError::HardwareError(HardwareError::LockError),
            )
        },
        channel@ is None ==> {
            &&& open_step == CanOpenStep::<S>::LockDevice
            &&& opened == ChannelResult::<()>::Err(
                ChannelError::HardwareError(HardwareError::LockError),
            )
            &&& close_step == (CanCloseStep::Finished { result: Ok(()) })
            &&& closed is Ok
        },
{
}

/// Closing a raw CAN channel succeeds, takes the socket away and frees the bus, and changes nothing
/// else.
pub proof fn can_closing<S>(
    channel: &mut SocketCanCanChannel<S>,
    device: &mut SocketCanDevice,
    result: ChannelResult<()>,
)
    requires
        call_ensures(SocketCanCanChannel::<S>::close_locked, (channel, device), result),
    ensures
        result is Ok,
        final(channel)@ is None,
        !final(device)@.canbus_active,
        final(device)@.isotp_active == old(device)@.isotp_active,
        final(device)@.info == old(device)@.info,
{
}

/// Work on the socket of a raw CAN channel is done on the very socket that it has, and its result
/// is the answer. Without a socket there is no work and the answer is a refusal. The channel stays
/// as it is.
pub proof fn can_work_is_done_on_its_socket<S, X, T: FnOnce(&S) -> ChannelResult<X>>(
    channel: &mut SocketCanCanChannel<S>,
    function: T,
    result: ChannelResult<X>,
)
    requires
        call_ensures(
            SocketCanCanChannel::<S>::safe_with_iface::<X, T>,
            (channel, function),
            result,
        ),
    ensures
        old(channel)@ matches Some(socket) ==> call_ensures(function, (&socket,), result),
        old(channel)@ is None ==> result == ChannelResult::<X>::Err(ChannelError::InterfaceNotOpen),
        final(channel)@ == old(channel)@,
{
}

/// Work on the socket of an ISO-TP channel touches nothing but the socket. Without a socket there
/// is no work, the answer is a refusal, and there is no socket afterwards either.
pub proof fn isotp_work_is_done_on_its_socket<S, X, T: FnOnce(&mut S) -> ChannelResult<X>>(
    channel: &mut SocketCanIsoTPChannel<S>,
    function: T,
    result: ChannelResult<X>,
)
    requires
        call_ensures(
            SocketCanIsoTPChannel::<S>::safe_with_iface::<X, T>,
            (channel, function),
            result,
        ),
    ensures
        old(channel)@.socket is None ==> result == ChannelResult::<X>::Err(
            ChannelError::InterfaceNotOpen,
        ),
        old(channel)@.socket matches Some(socket) ==> exists|iface: &mut S|
            #![auto]
            *iface == socket && call_ensures(function, (iface,), result)
                && final(channel)@.socket == Some(*final(iface)),
        final(channel)@.socket is Some <==> old(channel)@.socket is Some,
        final(channel)@.ids == old(channel)@.ids,
        final(channel)@.cfg == old(channel)@.cfg,
        final(channel)@.cfg_complete == old(channel)@.cfg_complete,
{
}

/// New channels of both kinds are closed. An ISO-TP one has identifiers of zero and is not
/// configured: a block size of 8, a separation time of 20, plain addresses, padding, 500 kbit/s and
/// standard identifiers are what it goes by until then.
pub proof fn new_channels_are_closed<S, T>(
    can: HardwareResult<SocketCanCanChannel<S>>,
    isotp: HardwareResult<SocketCanIsoTPChannel<T>>,
)
    requires
        call_ensures(SocketCanDevice::create_can_channel::<S>, (), can),
        call_ensures(SocketCanDevice::create_iso_tp_channel::<T>, (), isotp),
    ensures
        can matches Ok(channel) && channel@ is None,
        isotp matches Ok(channel) && channel@ == (IsoTpModel::<T> {
            socket: None,
            ids: (0, 0),
            cfg: IsoTPSettings {
                block_size: 8,
                st_min: 20,
                extended_addressing: false,
                pad_frame: true,
                can_speed: 500_000,
                can_use_ext_addr: false,
            },
            cfg_complete: false,
        }),
{
}

/// The settings by default: a block size of 8, a separation time of 20, plain addresses, padding,
/// 500 kbit/s and standard identifiers.
pub proof fn settings_by_default(settings: IsoTPSettings)
    requires
        call_ensures(<IsoTPSettings as Default>::default, (), settings),
    ensures
        settings.block_size == 8,
        settings.st_min == 20,
        !settings.extended_addressing,
        settings.pad_frame,
        settings.can_speed == 500_000,
        !settings.can_use_ext_addr,
{
}

/// A new device has the name it was made with, carries ISO-TP and raw CAN and nothing else, says
/// nothing more of itself, and has no channel open.
pub proof fn new_devices_are_idle(
    name: String,
    device: SocketCanDevice,
    info: &HardwareInfo,
    isotp_open: bool,
    can_open: bool,
)
    requires
        call_ensures(SocketCanDevice::new, (name,), device),
        call_ensures(SocketCanDevice::get_info, (&device,), info),
        call_ensures(SocketCanDevice::is_iso_tp_channel_open, (&device,), isotp_open),
        call_ensures(SocketCanDevice::is_can_channel_open, (&device,), can_open),
    ensures
        info.name@ == name@,
        info.vendor is None,
        info.capabilities.iso_tp && info.capabilities.can,
        !info.capabilities.ip && !info.capabilities.sae_j1850 && !info.capabilities.kline,
        !info.capabilities.kline_kwp && !info.capabilities.sci,
        info.device_fw_version is None,
        info.api_version is None,
        info.library_version is None,
        info.library_location is None,
        !isotp_open,
        !can_open,
{
    assert(info@.name == name@);
}

/// What a device answers about its channels and about itself is its state.
pub proof fn devices_tell_their_state(
    device: SocketCanDevice,
    info: &HardwareInfo,
    isotp_open: bool,
    can_open: bool,
)
    requires
        call_ensures(SocketCanDevice::get_info, (&device,), info),
        call_ensures(SocketCanDevice::is_iso_tp_channel_open, (&device,), isotp_open),
        call_ensures(SocketCanDevice::is_can_channel_open, (&device,), can_open),
    ensures
        isotp_open == device@.isotp_active,
        can_open == device@.canbus_active,
        info.name@ == device@.info.name,
        info.capabilities == device@.info.capabilities,
        info.vendor is None <==> device@.info.vendor is None,
{
    assert(info@ == device@.info);
}

/// SocketCAN carries ISO-TP and raw CAN, and nothing else.
pub proof fn carries_isotp_and_can(capabilities: HardwareCapabilities)
    requires
        call_ensures(socket_can_capabilities, (), capabilities),
    ensures
        capabilities.iso_tp && capabilities.can,
        !capabilities.ip && !capabilities.sae_j1850 && !capabilities.kline,
        !capabilities.kline_kwp && !capabilities.sci,
{
}

/// The description of an interface has its name and nothing that is not known of it.
pub proof fn description_is_the_name(name: String, info: HardwareInfo)
    requires
        call_ensures(HardwareInfo::socket_can, (name,), info),
    ensures
        info.name@ == name@,
        info.vendor is None,
        info.capabilities.iso_tp && info.capabilities.can,
        !info.capabilities.ip && !info.capabilities.sae_j1850 && !info.capabilities.kline,
        !info.capabilities.kline_kwp && !info.capabilities.sci,
        info.device_fw_version is None,
        info.api_version is None,
        info.library_version is None,
        info.library_location is None,
{
    assert(info@.name == name@);
}

/// A copy of a description is the same in every text.
pub proof fn copies_are_the_same(info: HardwareInfo, copy: HardwareInfo)
    requires
        call_ensures(<HardwareInfo as Clone>::clone, (&info,), copy),
    ensures
        copy.name@ == info.name@,
        copy.capabilities == info.capabilities,
        copy.vendor is Some <==> info.vendor is Some,
        copy.vendor is Some ==> copy.vendor->0@ == info.vendor->0@,
        copy.device_fw_version is Some <==> info.device_fw_version is Some,
        copy.device_fw_version is Some ==> copy.device_fw_version->0@ == info.device_fw_version->0@,
        copy.api_version is Some <==> info.api_version is Some,
        copy.api_version is Some ==> copy.api_version->0@ == info.api_version->0@,
        copy.library_version is Some <==> info.library_version is Some,
        copy.library_version is Some ==> copy.library_version->0@ == info.library_version->0@,
        copy.library_location is Some <==> info.library_location is Some,
        copy.library_location is Some ==> copy.library_location->0@ == info.library_location->0@,
{
    assert(copy@ == info@);
}

/// Failures to open a socket become errors with code 99 and their own text, and failures of input
/// and output are kept as they are.
pub proof fn errors_are_reported(
    can: socketcan::CANSocketOpenError,
    isotp: socketcan_isotp::Error,
    io: std::io::Error,
    from_can: ChannelError,
    from_isotp: ChannelError,
    from_io: ChannelError,
)
    requires
        call_ensures(
            <ChannelError as From<socketcan::CANSocketOpenError>>::from,
            (can,),
            from_can,
        ),
        call_ensures(<ChannelError as From<socketcan_isotp::Error>>::from, (isotp,), from_isotp),
        call_ensures(<ChannelError as From<std::io::Error>>::from, (io,), from_io),
    ensures
        from_can matches ChannelError::HardwareError(HardwareError::APIError { code, desc }) && code
            == 99 && to_string_from_display_ensures(&can, desc),
        from_isotp matches ChannelError::HardwareError(HardwareError::APIError { code, desc })
            && code == 99 && to_string_from_display_ensures(&isotp, desc),
        from_io == ChannelError::IOError(io),
{
}

} // verus!
