//! ISO-TP single frames: a whole message in one CAN frame.
use vstd::prelude::*;

use crate::frame::{sendable, CanFrame, FrameModel, MAX_FRAME_DATA};
use crate::isotp::{low_byte, take_low_byte, IsoTPSettings};

verus! {

/// The bytes that precede the message in a single frame: with extended addressing the address
/// byte, and always the length of the message.
pub open spec fn header(addr: u32, len: nat, settings: IsoTPSettings) -> Seq<u8> {
    if settings.extended_addressing {
        seq![low_byte(addr), len as u8]
    } else {
        seq![len as u8]
    }
}

/// The longest message that a single frame can hold.
pub open spec fn capacity(settings: IsoTPSettings) -> nat {
    if settings.extended_addressing {
        6
    } else {
        7
    }
}

/// `data` followed by as many zeros as it takes to fill a frame.
pub open spec fn padded(data: Seq<u8>) -> Seq<u8> {
    data + Seq::new((MAX_FRAME_DATA - data.len()) as nat, |i: int| 0u8)
}

/// The CAN identifier that a single frame to `addr` has: the whole address, or with extended
/// addressing its two bytes above the address byte.
pub open spec fn frame_id(addr: u32, settings: IsoTPSettings) -> u32 {
    if settings.extended_addressing {
        (addr / 0x100) % 0x1_0000
    } else {
        addr
    }
}

/// The single frame that carries `message` to `addr`.
pub open spec fn single_frame(addr: u32, message: Seq<u8>, settings: IsoTPSettings) -> FrameModel {
    let data = header(addr, message.len(), settings) + message;
    FrameModel {
        id: frame_id(addr, settings),
        data: if settings.pad_frame {
            padded(data)
        } else {
            data
        },
        ext: settings.can_use_ext_addr,
    }
}

/// Whether a message of `len` bytes fits a single frame.
pub(crate) fn fits_single_frame(len: usize, settings: &IsoTPSettings) -> (fits: bool)
    ensures
        fits == (len <= capacity(*settings)),
{
    (len <= 7 && !settings.extended_addressing) || (len <= 6 && settings.extended_addressing)
}

/// The single frame that carries `message` to `addr`.
pub(crate) fn build_single_frame(addr: u32, message: &[u8], settings: &IsoTPSettings) -> (frame: CanFrame)
    requires
        message@.len() <= capacity(*settings),
    ensures
        frame@ == single_frame(addr, message@, *settings),
{
    let mut data: Vec<u8> = Vec::new();
    let can_id: u32 = if settings.extended_addressing {
        assert((addr & 0xFF) as u8 == (addr % 0x100) as u8) by (bit_vector);
        assert((addr >> 8) & 0xFFFF == (addr / 0x100) % 0x1_0000) by (bit_vector);
        data.push((addr & 0xFF) as u8);
        data.push(message.len() as u8);
        (addr >> 8) & 0xFFFF
    } else {
        data.push(message.len() as u8);
        addr
    };
    assert(data@ =~= header(addr, message@.len(), *settings));
    let ghost head = data@;
    data.extend_from_slice(message);
    assert(data@ =~= head + message@);
    if settings.pad_frame {
        let ghost unpadded = data@;
        data.resize(8, 0x00);
        assert(data@ =~= padded(unpadded)) by {
            assert(data@.subrange(0, unpadded.len() as int) == unpadded);
            assert forall|i: int| 0 <= i < unpadded.len() implies data@[i] == unpadded[i] by {
                assert(data@.subrange(0, unpadded.len() as int)[i] == unpadded[i]);
            }
        }
    }
    CanFrame::new(can_id, data.as_slice(), settings.can_use_ext_addr)
}

/// A single frame never holds more than a CAN frame can, and a padded one is always full. With
/// extended addressing it can always be sent; without, it can if the address is one of 29 bits.
pub proof fn single_frame_fits(addr: u32, message: Seq<u8>, settings: IsoTPSettings)
    requires
        message.len() <= capacity(settings),
    ensures
        ({
            let frame = single_frame(addr, message, settings);
            &&& frame.data.len() <= MAX_FRAME_DATA
            &&& settings.pad_frame ==> frame.data.len() == MAX_FRAME_DATA
            &&& !settings.pad_frame ==> frame.data.len() == header(
                addr,
                message.len(),
                settings,
            ).len() + message.len()
            &&& sendable(frame) <==> settings.extended_addressing || addr
                <= crate::frame::MAX_EXTENDED_ID
        }),
{
}

/// What a single frame carries can be read back: its length byte and the bytes behind it give
/// the message, and its identifier and address byte give the address, all of it without extended
/// addressing and its lower 24 bits with it.
pub proof fn single_frame_read_back(addr: u32, message: Seq<u8>, settings: IsoTPSettings)
    requires
        message.len() <= capacity(settings),
    ensures
        ({
            let frame = single_frame(addr, message, settings);
            let start = header(addr, message.len(), settings).len() as int;
            &&& frame.data[start - 1] == message.len()
            &&& frame.data.subrange(start, start + frame.data[start - 1]) == message
            &&& !settings.extended_addressing ==> frame.id == addr
            &&& settings.extended_addressing ==> frame.id * 0x100 + frame.data[0] == addr
                % 0x100_0000
        }),
{
    let frame = single_frame(addr, message, settings);
    let head = header(addr, message.len(), settings);
    let start = head.len() as int;
    assert forall|i: int| 0 <= i < start implies frame.data[i] == head[i] by {}
    assert(frame.data.subrange(start, start + message.len()) =~= message);
    if settings.extended_addressing {
        assert(((addr / 0x100) % 0x1_0000) * 0x100 + addr % 0x100 == addr % 0x100_0000)
            by (bit_vector);
    }
}

/// Messages of different content never share a single frame, even where one of them is padded to
/// the length of the other.
pub proof fn single_frame_injective(
    addr: u32,
    first: Seq<u8>,
    second: Seq<u8>,
    settings: IsoTPSettings,
)
    requires
        first.len() <= capacity(settings),
        second.len() <= capacity(settings),
        single_frame(addr, first, settings) == single_frame(addr, second, settings),
    ensures
        first == second,
{
    single_frame_read_back(addr, first, settings);
    single_frame_read_back(addr, second, settings);
}

} // verus!
