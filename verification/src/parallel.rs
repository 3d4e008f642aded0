//! Sending one frame on a raw CAN channel of its own, beside an ISO-TP channel.
use vstd::prelude::*;

use crate::error::ChannelResult;
use crate::frame::{CanFrame, FrameModel};
use crate::packet_writer::frames;

verus! {

/// A frame that is to be sent on a raw CAN channel of its own.
#[derive(Debug)]
pub struct ParallelSend {
    frame: CanFrame,
    timeout_ms: u32,
}

/// The content of a [`ParallelSend`].
pub struct ParallelModel {
    /// The frame
    pub frame: FrameModel,
    /// Write timeout in milliseconds
    pub timeout_ms: u32,
}

impl View for ParallelSend {
    type V = ParallelModel;

    closed spec fn view(&self) -> ParallelModel {
        ParallelModel { frame: self.frame@, timeout_ms: self.timeout_ms }
    }
}

/// What comes next once the attempt to open the raw CAN channel has ended.
#[derive(Debug)]
pub enum ParallelStep {
    /// Write these packets to the channel, and go on with [`parallel_written`].
    WritePackets {
        /// The packets
        packets: Vec<CanFrame>,
        /// Write timeout in milliseconds
        timeout_ms: u32,
    },
    /// Close the channel if it is open. Whatever comes of that, the operation ends.
    CloseChannel {
        /// What the operation returns
        result: ChannelResult<()>,
    },
}

/// The content of a [`ParallelStep`].
pub enum ParallelStepModel {
    WritePackets { packets: Seq<FrameModel>, timeout_ms: u32 },
    CloseChannel { result: ChannelResult<()> },
}

impl View for ParallelStep {
    type V = ParallelStepModel;

    open spec fn view(&self) -> ParallelStepModel {
        match *self {
            ParallelStep::WritePackets { packets, timeout_ms } => ParallelStepModel::WritePackets {
                packets: frames(packets@),
                timeout_ms,
            },
            ParallelStep::CloseChannel { result } => ParallelStepModel::CloseChannel { result },
        }
    }
}

/// The step after the attempt to open the channel: the frame, or the error.
pub open spec fn parallel_after_open(
    send: ParallelModel,
    opened: ChannelResult<()>,
) -> ParallelStepModel {
    match opened {
        Ok(()) => ParallelStepModel::WritePackets {
            packets: seq![send.frame],
            timeout_ms: send.timeout_ms,
        },
        Err(e) => ParallelStepModel::CloseChannel { result: Err(e) },
    }
}

/// The step after the attempt to write the frame: the end, with what the write returned.
pub open spec fn parallel_after_write(written: ChannelResult<()>) -> ParallelStepModel {
    ParallelStepModel::CloseChannel { result: written }
}

impl ParallelSend {
    /// Sends `frame` with the given write timeout.
    pub(crate) fn new(frame: CanFrame, timeout_ms: u32) -> (send: Self)
        ensures
            send@ == (ParallelModel { frame: frame@, timeout_ms }),
    {
        ParallelSend { frame, timeout_ms }
    }

    /// Goes on after the attempt to open the channel.
    pub fn after_open(self, opened: ChannelResult<()>) -> (step: ParallelStep)
        ensures
            step@ == parallel_after_open(self@, opened),
    {
        match opened {
            Ok(()) => {
                let mut packets: Vec<CanFrame> = Vec::new();
                packets.push(self.frame);
                assert(frames(packets@) =~= seq![self@.frame]);
                ParallelStep::WritePackets { packets, timeout_ms: self.timeout_ms }
            },
            Err(e) => ParallelStep::CloseChannel { result: Err(e) },
        }
    }
}

/// Goes on after the attempt to write the frame.
pub fn parallel_written(written: ChannelResult<()>) -> (step: ParallelStep)
    ensures
        step@ == parallel_after_write(written),
{
    ParallelStep::CloseChannel { result: written }
}

} // verus!
