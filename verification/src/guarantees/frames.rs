//! CAN frames: nothing is lost between a caller and the socket.
use vstd::prelude::*;

use crate::frame::{sendable, wire, CanFrame, FrameFault, FrameModel, WireFrame};

verus! {

/// A frame gives back the identifier, the payload and the kind that it was made with.
pub proof fn frame_gives_back(
    id: u32,
    data: &[u8],
    ext: bool,
    frame: CanFrame,
    address: u32,
    payload: &[u8],
    extended: bool,
)
    requires
        call_ensures(CanFrame::new, (id, data, ext), frame),
        call_ensures(CanFrame::get_address, (&frame,), address),
        call_ensures(CanFrame::get_data, (&frame,), payload),
        call_ensures(CanFrame::is_extended, (&frame,), extended),
    ensures
        address == id,
        payload@ == data@,
        extended == ext,
        frame@.id == id,
        frame@.data == data@,
        frame@.ext == ext,
{
}

/// What a socket is handed for a frame is a data frame with the frame's own identifier and its
/// whole payload, extended exactly if the identifier needs more than 11 bits. It is refused exactly
/// if the payload has more than eight bytes, or else if the identifier needs more than 29 bits.
pub proof fn wire_is_the_frame(
    frame: CanFrame,
    address: u32,
    payload: &[u8],
    fits: bool,
    r: Result<WireFrame, FrameFault>,
)
    requires
        call_ensures(CanFrame::get_address, (&frame,), address),
        call_ensures(CanFrame::get_data, (&frame,), payload),
        call_ensures(CanFrame::is_sendable, (&frame,), fits),
        call_ensures(CanFrame::to_wire, (&frame,), r),
    ensures
        fits <==> payload@.len() <= 8 && address <= 0x1FFF_FFFF,
        r is Ok <==> fits,
        r == Result::<WireFrame, FrameFault>::Err(FrameFault::TooMuchData) <==> payload@.len() > 8,
        r == Result::<WireFrame, FrameFault>::Err(FrameFault::IdTooLarge) <==> payload@.len() <= 8
            && address > 0x1FFF_FFFF,
        r matches Ok(sent) ==> {
            &&& sent.id == address
            &&& sent.data@ == payload@
            &&& sent.extended <==> address > 0x7FF
            &&& !sent.remote
            &&& !sent.error
        },
{
}

/// The wire form of every frame has the frame's own identifier and its whole payload.
pub proof fn wire_keeps_everything(frame: FrameModel)
    ensures
        wire(frame).id == frame.id,
        wire(frame).data == frame.data,
        wire(frame).extended <==> frame.id > 0x7FF,
        !wire(frame).remote,
        !wire(frame).error,
        sendable(frame) <==> frame.data.len() <= 8 && frame.id <= 0x1FFF_FFFF,
{
}

} // verus!
