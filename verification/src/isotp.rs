//! ISO-TP: settings of a channel and the socket that they ask for.
use vstd::prelude::*;
use std::num::TryFromIntError;

verus! {

/// Settings of an ISO-TP channel.
#[derive(Debug, Clone, Copy, PartialEq, Eq, Structural)]
pub struct IsoTPSettings {
    /// ISO-TP block size
    pub block_size: u8,
    /// ISO-TP minimum separation time
    pub st_min: u8,
    /// Whether ISO-TP addresses are extended: an address byte precedes each frame's payload
    pub extended_addressing: bool,
    /// Whether frames are padded to eight bytes
    pub pad_frame: bool,
    /// Bus speed in bits per second
    pub can_speed: u32,
    /// Whether CAN identifiers are extended (29 bit)
    pub can_use_ext_addr: bool,
}

/// The settings that a channel has before it is configured.
pub open spec fn default_settings() -> IsoTPSettings {
    IsoTPSettings {
        block_size: 8,
        st_min: 20,
        extended_addressing: false,
        pad_frame: true,
        can_speed: 500_000,
        can_use_ext_addr: false,
    }
}

impl Default for IsoTPSettings {
    fn default() -> (settings: Self)
        ensures
            settings == default_settings(),
    {
        IsoTPSettings {
            block_size: 8,
            st_min: 20,
            extended_addressing: false,
            pad_frame: true,
            can_speed: 500_000,
            can_use_ext_addr: false,
        }
    }
}

/// An address that an ISO-TP socket is bound to, before any check of its range.
#[derive(Debug, Clone, Copy, PartialEq, Eq, Structural)]
pub enum IsoTpId {
    /// Standard identifier
    Standard(u16),
    /// Extended identifier
    Extended(u32),
}

/// Options of an ISO-TP socket.
#[derive(Debug, Clone, Copy, PartialEq, Eq, Structural)]
pub struct IsoTpSocketOptions {
    /// Behaviour flags
    pub flags: u32,
    /// Frame transmission time in nanoseconds
    pub frame_txtime: u32,
    /// Address byte of sent frames, with extended addressing
    pub ext_address: u8,
    /// Padding byte of sent frames
    pub txpad_content: u8,
    /// Padding byte of received frames
    pub rxpad_content: u8,
    /// Address byte of received frames, with extended addressing
    pub rx_ext_address: u8,
}

/// `socketcan_isotp::LinkLayerOptions`, carried as an opaque value.
#[verifier::external_type_specification]
#[verifier::external_body]
pub struct ExLinkLayerOptions(socketcan_isotp::LinkLayerOptions);

/// The ISO-TP socket that a channel asks for.
pub struct IsoTpSocketRequest {
    /// Network interface to bind to
    pub interface: String,
    /// Address to receive on
    pub rx_id: IsoTpId,
    /// Address to send on
    pub tx_id: IsoTpId,
    /// Socket options
    pub options: IsoTpSocketOptions,
    /// Block size, separation time and wait frame limit, where they differ from the kernel's own
    pub flow_control: Option<(u8, u8, u8)>,
    /// Link layer options
    pub link_layer: socketcan_isotp::LinkLayerOptions,
}

/// Behaviour flag: extended addressing.
pub const EXTEND_ADDR: u32 = 0x002;

/// Behaviour flag: pad sent frames.
pub const TX_PADDING: u32 = 0x004;

/// All behaviour flags that there are.
pub const ALL_BEHAVIOUR: u32 = 0x3FF;

/// Frame transmission time that channels ask for, in milliseconds.
pub const FRAME_TXTIME_MS: u64 = 10;

/// Nanoseconds in a millisecond.
pub const NANOS_PER_MS: u64 = 1_000_000;

/// The lowest byte of `x`.
pub open spec fn low_byte(x: u32) -> u8 {
    (x % 0x100) as u8
}

/// The identifier that a socket is bound to for `id`: all of it with extended addressing,
/// otherwise its lower sixteen bits.
pub open spec fn bus_id(id: u32, settings: IsoTPSettings) -> IsoTpId {
    if settings.extended_addressing {
        IsoTpId::Extended(id)
    } else {
        IsoTpId::Standard((id % 0x1_0000) as u16)
    }
}

/// The options that a channel with the given identifiers (sending, receiving) and settings asks
/// for: with extended addressing, the lowest byte of each identifier is the address byte.
pub open spec fn socket_options(ids: (u32, u32), settings: IsoTPSettings) -> IsoTpSocketOptions {
    IsoTpSocketOptions {
        flags: ((if settings.extended_addressing {
            EXTEND_ADDR
        } else {
            0
        }) + (if settings.pad_frame {
            TX_PADDING
        } else {
            0
        })) as u32,
        frame_txtime: (FRAME_TXTIME_MS * NANOS_PER_MS) as u32,
        ext_address: if settings.extended_addressing {
            low_byte(ids.0)
        } else {
            0
        },
        txpad_content: 0,
        rxpad_content: 0,
        rx_ext_address: if settings.extended_addressing {
            low_byte(ids.1)
        } else {
            0
        },
    }
}

/// `request` is the socket that a channel on the interface `name` with the given identifiers
/// (sending, receiving) and settings needs. Its link layer options are the default ones of
/// `socketcan_isotp`, and it leaves flow control to the kernel.
pub open spec fn asks_for(
    request: IsoTpSocketRequest,
    name: Seq<char>,
    ids: (u32, u32),
    settings: IsoTPSettings,
) -> bool {
    &&& request.interface@ == name
    &&& request.tx_id == bus_id(ids.0, settings)
    &&& request.rx_id == bus_id(ids.1, settings)
    &&& request.options == socket_options(ids, settings)
    &&& request.flow_control is None
    &&& is_default_link_layer(request.link_layer)
}

/// `options` are what `socketcan_isotp::LinkLayerOptions::default` returns.
pub closed spec fn is_default_link_layer(options: socketcan_isotp::LinkLayerOptions) -> bool {
    call_ensures(default_link_layer, (), options)
}

/// The bits of `socketcan_isotp::IsoTpBehaviour::CAN_ISOTP_EXTEND_ADDR`.
#[verifier::external_body]
fn extend_addr_bits() -> (bits: u32)
    ensures
        bits == EXTEND_ADDR,
{
    socketcan_isotp::IsoTpBehaviour::CAN_ISOTP_EXTEND_ADDR.bits()
}

/// The bits of `socketcan_isotp::IsoTpBehaviour::CAN_ISOTP_TX_PADDING`.
#[verifier::external_body]
fn tx_padding_bits() -> (bits: u32)
    ensures
        bits == TX_PADDING,
{
    socketcan_isotp::IsoTpBehaviour::CAN_ISOTP_TX_PADDING.bits()
}

/// Builds socket options with `socketcan_isotp::IsoTpOptions::new` and reads them back through
/// its getters. The call fails exactly if the transmission time in nanoseconds exceeds 32 bits;
/// otherwise each option is the one that was given.
#[verifier::external_body]
fn isotp_options(
    flags: u32,
    frame_txtime_ms: u64,
    ext_address: u8,
    txpad_content: u8,
    rxpad_content: u8,
    rx_ext_address: u8,
) -> (r: Result<IsoTpSocketOptions, TryFromIntError>)
    requires
        flags <= ALL_BEHAVIOUR,
    ensures
        r is Ok <==> frame_txtime_ms * NANOS_PER_MS <= u32::MAX,
        r matches Ok(options) ==> options == (IsoTpSocketOptions {
            flags,
            frame_txtime: (frame_txtime_ms * NANOS_PER_MS) as u32,
            ext_address,
            txpad_content,
            rxpad_content,
            rx_ext_address,
        }),
{
    let behaviour = socketcan_isotp::IsoTpBehaviour::from_bits(flags).unwrap();
    let txtime = std::time::Duration::from_millis(frame_txtime_ms);
    let options = socketcan_isotp::IsoTpOptions::new(
        behaviour, txtime, ext_address, txpad_content, rxpad_content, rx_ext_address)?;
    Ok(IsoTpSocketOptions {
        flags: options.get_flags().unwrap().bits(),
        frame_txtime: options.get_frame_txtime().as_nanos() as u32,
        ext_address: options.get_ext_address(),
        txpad_content: options.get_txpad_content(),
        rxpad_content: options.get_rxpad_content(),
        rx_ext_address: options.get_rx_ext_address(),
    })
}

/// The link layer options of `socketcan_isotp::LinkLayerOptions::default`. Nothing is claimed of
/// what is in them, as the type shows none of its fields: [`is_default_link_layer`] says only that
/// they come from here.
#[verifier::external_body]
fn default_link_layer() -> (options: socketcan_isotp::LinkLayerOptions) {
    socketcan_isotp::LinkLayerOptions::default()
}

/// The lowest byte of `x`.
pub(crate) fn take_low_byte(x: u32) -> (b: u8)
    ensures
        b == low_byte(x),
{
    assert(x as u8 == x % 0x100) by (bit_vector);
    #[verifier::truncate]
    (x as u8)
}

/// The identifier that a socket is bound to for `id`.
fn bind_id(id: u32, settings: &IsoTPSettings) -> (bound: IsoTpId)
    ensures
        bound == bus_id(id, *settings),
{
    if settings.extended_addressing {
        IsoTpId::Extended(id)
    } else {
        assert(id as u16 == id % 0x1_0000) by (bit_vector);
        IsoTpId::Standard(
            #[verifier::truncate]
            (id as u16),
        )
    }
}

/// The socket that a channel on the interface `interface` needs.
pub(crate) fn request_socket(interface: String, ids: (u32, u32), settings: &IsoTPSettings) -> (request:
    IsoTpSocketRequest)
    ensures
        asks_for(request, interface@, ids, *settings),
{
    let mut flags: u32 = 0;
    if settings.extended_addressing {
        assert(0u32 | 0x002u32 == 0x002u32) by (bit_vector);
        flags = flags | extend_addr_bits();
    }
    if settings.pad_frame {
        assert(0u32 | 0x004u32 == 0x004u32 && 0x002u32 | 0x004u32 == 0x006u32) by (bit_vector);
        flags = flags | tx_padding_bits();
    }
    let mut ext_address: u8 = 0;
    let mut rx_ext_address: u8 = 0;
    if settings.extended_addressing {
        ext_address = take_low_byte(ids.0);
        rx_ext_address = take_low_byte(ids.1);
    }
    let options = isotp_options(flags, FRAME_TXTIME_MS, ext_address, 0, 0, rx_ext_address).unwrap();
    IsoTpSocketRequest {
        interface,
        rx_id: bind_id(ids.1, settings),
        tx_id: bind_id(ids.0, settings),
        options,
        flow_control: None,
        link_layer: default_link_layer(),
    }
}

/// An identifier that is not cut is bound as it is: any with extended addressing, one of sixteen
/// bits without. Two such identifiers that differ are bound to different addresses.
pub proof fn bound_ids_are_faithful(first: u32, second: u32, settings: IsoTPSettings)
    requires
        settings.extended_addressing || (first <= 0xFFFF && second <= 0xFFFF),
    ensures
        bus_id(first, settings) == if settings.extended_addressing {
            IsoTpId::Extended(first)
        } else {
            IsoTpId::Standard(first as u16)
        },
        bus_id(first, settings) == bus_id(second, settings) ==> first == second,
{
}

} // verus!
