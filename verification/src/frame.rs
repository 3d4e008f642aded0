//! CAN frames, and the form in which a socket sends them.
use vstd::prelude::*;
use vstd::slice::slice_to_vec;

verus! {

/// The most payload bytes that a CAN frame can hold.
pub const MAX_FRAME_DATA: usize = 8;

/// The largest identifier of a standard (11 bit) frame.
pub const MAX_STANDARD_ID: u32 = 0x7FF;

/// The largest identifier of an extended (29 bit) frame.
pub const MAX_EXTENDED_ID: u32 = 0x1FFF_FFFF;

/// A CAN frame, as callers of a channel see it.
#[derive(Debug)]
pub struct CanFrame {
    id: u32,
    data: Vec<u8>,
    ext: bool,
}

/// The content of a [`CanFrame`].
pub struct FrameModel {
    /// CAN identifier
    pub id: u32,
    /// Payload
    pub data: Seq<u8>,
    /// Whether the frame was described as an extended (29 bit) one
    pub ext: bool,
}

impl View for CanFrame {
    type V = FrameModel;

    closed spec fn view(&self) -> FrameModel {
        FrameModel { id: self.id, data: self.data@, ext: self.ext }
    }
}

/// A CAN frame in the form in which a socket sends it.
#[derive(Debug)]
pub struct WireFrame {
    /// CAN identifier, without flags
    pub id: u32,
    /// Payload
    pub data: Vec<u8>,
    /// Whether the identifier is sent as an extended (29 bit) one
    pub extended: bool,
    /// Whether the frame is a remote transmission request
    pub remote: bool,
    /// Whether the frame is an error message
    pub error: bool,
}

/// The content of a [`WireFrame`].
pub struct WireModel {
    pub id: u32,
    pub data: Seq<u8>,
    pub extended: bool,
    pub remote: bool,
    pub error: bool,
}

impl View for WireFrame {
    type V = WireModel;

    open spec fn view(&self) -> WireModel {
        WireModel {
            id: self.id,
            data: self.data@,
            extended: self.extended,
            remote: self.remote,
            error: self.error,
        }
    }
}

/// Why a frame cannot be sent.
#[derive(Debug, Clone, Copy, PartialEq, Eq, Structural)]
pub enum FrameFault {
    /// The payload is longer than `MAX_FRAME_DATA`.
    TooMuchData,
    /// The identifier is larger than `MAX_EXTENDED_ID`.
    IdTooLarge,
}

/// A frame can be sent if its payload and its identifier are within bounds.
pub open spec fn sendable(frame: FrameModel) -> bool {
    frame.data.len() <= MAX_FRAME_DATA && frame.id <= MAX_EXTENDED_ID
}

/// A sendable frame as it is sent: a data frame, extended exactly if its identifier does not
/// fit a standard one.
pub open spec fn wire(frame: FrameModel) -> WireModel {
    WireModel {
        id: frame.id,
        data: frame.data,
        extended: frame.id > MAX_STANDARD_ID,
        remote: false,
        error: false,
    }
}

/// Builds a frame with `socketcan::CANFrame::new` and reads it back through the accessors of
/// `socketcan::CANFrame`. The call fails on more than eight bytes of payload and, with less
/// payload, on an identifier above 29 bits. Otherwise the frame has the identifier, the payload
/// and the two flags it was given, and is an extended one exactly if the identifier needs more
/// than 11 bits.
#[verifier::external_body]
fn socket_frame(id: u32, data: &[u8], rtr: bool, err: bool) -> (r: Result<WireFrame, FrameFault>)
    ensures
        match r {
            Ok(frame) => data@.len() <= MAX_FRAME_DATA && id <= MAX_EXTENDED_ID && frame@ == (
            WireModel { id, data: data@, extended: id > MAX_STANDARD_ID, remote: rtr, error: err }),
            Err(FrameFault::TooMuchData) => data@.len() > MAX_FRAME_DATA,
            Err(FrameFault::IdTooLarge) => data@.len() <= MAX_FRAME_DATA && id > MAX_EXTENDED_ID,
        },
{
    match socketcan::CANFrame::new(id, data, rtr, err) {
        Ok(frame) => Ok(WireFrame {
            id: frame.id(),
            data: frame.data().to_vec(),
            extended: frame.is_extended(),
            remote: frame.is_rtr(),
            error: frame.is_error(),
        }),
        Err(socketcan::ConstructionError::TooMuchData) => Err(FrameFault::TooMuchData),
        Err(socketcan::ConstructionError::IDTooLarge) => Err(FrameFault::IdTooLarge),
    }
}

impl CanFrame {
    /// A frame with the given identifier and payload, described as an extended one or not.
    pub fn new(id: u32, data: &[u8], is_ext: bool) -> (frame: Self)
        ensures
            frame@ == (FrameModel { id, data: data@, ext: is_ext }),
    {
        CanFrame { id, data: slice_to_vec(data), ext: is_ext }
    }

    /// CAN identifier
    pub fn get_address(&self) -> (id: u32)
        ensures
            id == self@.id,
    {
        self.id
    }

    /// Payload
    pub fn get_data(&self) -> (data: &[u8])
        ensures
            data@ == self@.data,
    {
        self.data.as_slice()
    }

    /// Whether the frame was described as an extended one
    pub fn is_extended(&self) -> (ext: bool)
        ensures
            ext == self@.ext,
    {
        self.ext
    }

    /// Whether the frame can be sent.
    pub fn is_sendable(&self) -> (fits: bool)
        ensures
            fits == sendable(self@),
    {
        self.data.len() <= MAX_FRAME_DATA && self.id <= MAX_EXTENDED_ID
    }

    /// The frame as a socket sends it. How the frame was described plays no part: the
    /// identifier alone decides whether it goes out as an extended one.
    pub fn to_wire(&self) -> (r: Result<WireFrame, FrameFault>)
        ensures
            match r {
                Ok(frame) => sendable(self@) && frame@ == wire(self@),
                Err(FrameFault::TooMuchData) => self@.data.len() > MAX_FRAME_DATA,
                Err(FrameFault::IdTooLarge) => self@.data.len() <= MAX_FRAME_DATA && self@.id
                    > MAX_EXTENDED_ID,
            },
    {
        socket_frame(self.id, self.data.as_slice(), false, false)
    }
}

/// A frame that was sent, read off the bus and sent again goes out the same each time: with its
/// identifier and its payload, and as an extended one or not as before.
pub proof fn resending_changes_nothing(frame: FrameModel, read: FrameModel)
    requires
        sendable(frame),
        read == (FrameModel {
            id: wire(frame).id,
            data: wire(frame).data,
            ext: wire(frame).extended,
        }),
    ensures
        sendable(read),
        wire(read) == wire(frame),
{
}

} // verus!
