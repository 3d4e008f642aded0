//! Writing ISO-TP messages: where each one goes, and its bytes on the way.
use vstd::prelude::*;

use crate::error::{ChannelError, ChannelResult};
use crate::isotp::IsoTPSettings;
use crate::isotp_channel::{message_written, SocketCanIsoTPChannel, WriteBytesStep};
use crate::packet_writer::frames;
use crate::parallel::{parallel_written, ParallelSend, ParallelStep};
use crate::single_frame::single_frame;

verus! {

/// A message to the channel's own address goes to its socket as it is, whatever its length, and is
/// refused if there is none.
pub proof fn own_address_goes_to_the_socket<S>(
    channel: SocketCanIsoTPChannel<S>,
    message: &[u8],
    timeout_ms: u32,
    step: WriteBytesStep,
)
    requires
        call_ensures(
            SocketCanIsoTPChannel::<S>::write_bytes,
            (&channel, channel@.ids.0, message, timeout_ms),
            step,
        ),
    ensures
        channel@.socket is Some ==> (step matches WriteBytesStep::WriteSocket { message: sent }
            && sent@ == message@),
        channel@.socket is None ==> step == (WriteBytesStep::Finished {
            result: Err(ChannelError::InterfaceNotOpen),
        }),
{
    assert(!(step@ is SendFrame));
}

/// A message to another address is refused exactly if it has more than seven bytes, or more than
/// six with extended addressing. Otherwise it goes out as a frame, whether the channel is open or
/// not.
pub proof fn other_address_takes_short_messages<S>(
    channel: SocketCanIsoTPChannel<S>,
    addr: u32,
    message: &[u8],
    timeout_ms: u32,
    step: WriteBytesStep,
)
    requires
        addr != channel@.ids.0,
        call_ensures(
            SocketCanIsoTPChannel::<S>::write_bytes,
            (&channel, addr, message, timeout_ms),
            step,
        ),
    ensures
        message@.len() > 7 || (message@.len() > 6 && channel@.cfg.extended_addressing) ==> step == (
        WriteBytesStep::Finished { result: Err(ChannelError::UnsupportedRequest) }),
        message@.len() <= 6 || (message@.len() <= 7 && !channel@.cfg.extended_addressing) ==> step
            is SendFrame,
{
    assert(!(step@ is WriteSocket));
}

/// The frame for another address, without extended addressing: its identifier is the address, its
/// first byte is the length of the message, and the message stands right behind it. It ends there,
/// or with padding in zeros that fill eight bytes.
pub proof fn plain_frame_layout<S>(
    channel: SocketCanIsoTPChannel<S>,
    addr: u32,
    message: &[u8],
    timeout_ms: u32,
    step: WriteBytesStep,
    next: ParallelStep,
)
    requires
        addr != channel@.ids.0,
        !channel@.cfg.extended_addressing,
        message@.len() <= 7,
        call_ensures(
            SocketCanIsoTPChannel::<S>::write_bytes,
            (&channel, addr, message, timeout_ms),
            step,
        ),
        step matches WriteBytesStep::SendFrame { send } ==> call_ensures(
            ParallelSend::after_open,
            (send, Ok(())),
            next,
        ),
    ensures
        next matches ParallelStep::WritePackets { packets, timeout_ms: time } && {
            let frame = packets@[0]@;
            let end = 1 + message@.len() as int;
            &&& packets@.len() == 1
            &&& time == timeout_ms
            &&& frame.id == addr
            &&& frame.ext == channel@.cfg.can_use_ext_addr
            &&& frame.data[0] == message@.len()
            &&& frame.data.subrange(1, end) == message@
            &&& frame.data.len() == if channel@.cfg.pad_frame {
                8
            } else {
                end
            }
            &&& forall|i: int| end <= i < frame.data.len() ==> frame.data[i] == 0
        },
{
    assert(step@ is SendFrame);
    single_frame_bytes(addr, message@, channel@.cfg);
    assert(next@ is WritePackets);
    let packets = next->packets;
    assert(next@->packets == frames(packets@));
    assert(frames(packets@).len() == packets@.len());
    assert(frames(packets@)[0] == packets@[0]@);
}

/// The frame for another address, with extended addressing: its identifier is the two bytes of the
/// address above the lowest one, its first byte is that lowest one, its second is the length of
/// the message, and the message stands right behind it. It ends there, or with padding in zeros
/// that fill eight bytes.
pub proof fn addressed_frame_layout<S>(
    channel: SocketCanIsoTPChannel<S>,
    addr: u32,
    message: &[u8],
    timeout_ms: u32,
    step: WriteBytesStep,
    next: ParallelStep,
)
    requires
        addr != channel@.ids.0,
        channel@.cfg.extended_addressing,
        message@.len() <= 6,
        call_ensures(
            SocketCanIsoTPChannel::<S>::write_bytes,
            (&channel, addr, message, timeout_ms),
            step,
        ),
        step matches WriteBytesStep::SendFrame { send } ==> call_ensures(
            ParallelSend::after_open,
            (send, Ok(())),
            next,
        ),
    ensures
        next matches ParallelStep::WritePackets { packets, timeout_ms: time } && {
            let frame = packets@[0]@;
            let end = 2 + message@.len() as int;
            &&& packets@.len() == 1
            &&& time == timeout_ms
            &&& frame.id == (addr / 0x100) % 0x1_0000
            &&& frame.ext == channel@.cfg.can_use_ext_addr
            &&& frame.data[0] == addr % 0x100
            &&& frame.data[1] == message@.len()
            &&& frame.data.subrange(2, end) == message@
            &&& frame.data.len() == if channel@.cfg.pad_frame {
                8
            } else {
                end
            }
            &&& forall|i: int| end <= i < frame.data.len() ==> frame.data[i] == 0
        },
{
    assert(step@ is SendFrame);
    single_frame_bytes(addr, message@, channel@.cfg);
    assert(next@ is WritePackets);
    let packets = next->packets;
    assert(next@->packets == frames(packets@));
    assert(frames(packets@).len() == packets@.len());
    assert(frames(packets@)[0] == packets@[0]@);
}

/// The bytes of a single frame, one by one: behind the length byte, which is the first without
/// extended addressing and the second with it, stands the message, and behind the message nothing
/// but padding.
pub proof fn single_frame_bytes(addr: u32, message: Seq<u8>, settings: IsoTPSettings)
    requires
        message.len() <= 6 || (message.len() == 7 && !settings.extended_addressing),
    ensures
        !settings.extended_addressing ==> {
            let frame = single_frame(addr, message, settings);
            let end = 1 + message.len() as int;
            &&& frame.id == addr
            &&& frame.data[0] == message.len()
            &&& frame.data.subrange(1, end) == message
            &&& frame.data.len() == if settings.pad_frame {
                8
            } else {
                end
            }
            &&& forall|i: int| end <= i < frame.data.len() ==> frame.data[i] == 0
        },
        settings.extended_addressing ==> {
            let frame = single_frame(addr, message, settings);
            let end = 2 + message.len() as int;
            &&& frame.id == (addr / 0x100) % 0x1_0000
            &&& frame.data[0] == addr % 0x100
            &&& frame.data[1] == message.len()
            &&& frame.data.subrange(2, end) == message
            &&& frame.data.len() == if settings.pad_frame {
                8
            } else {
                end
            }
            &&& forall|i: int| end <= i < frame.data.len() ==> frame.data[i] == 0
        },
        single_frame(addr, message, settings).ext == settings.can_use_ext_addr,
{
}

/// A frame for another address is written once its channel is open. If that fails, nothing is
/// written and the failure is the answer.
pub proof fn unopened_channel_is_the_answer(
    send: ParallelSend,
    e: ChannelError,
    failed: ParallelStep,
    opened: ParallelStep,
)
    requires
        call_ensures(ParallelSend::after_open, (send, Err(e)), failed),
        call_ensures(ParallelSend::after_open, (send, Ok(())), opened),
    ensures
        failed == (ParallelStep::CloseChannel { result: Err(e) }),
        opened matches ParallelStep::WritePackets { packets, timeout_ms } && packets@.len() == 1
            && packets@[0]@ == send@.frame && timeout_ms == send@.timeout_ms,
{
    assert(failed@ is CloseChannel);
    assert(opened@ is WritePackets);
    let packets = opened->packets;
    assert(opened@->packets == frames(packets@));
    assert(frames(packets@).len() == packets@.len());
    assert(frames(packets@)[0] == packets@[0]@);
}

/// What writing the frame ended with is the answer, and so is what writing to the socket ended
/// with.
pub proof fn what_the_write_gave_is_the_answer(
    written: ChannelResult<()>,
    step: ParallelStep,
    outcome: Result<(), std::io::Error>,
    result: ChannelResult<()>,
)
    requires
        call_ensures(parallel_written, (written,), step),
        call_ensures(message_written, (outcome,), result),
    ensures
        step == (ParallelStep::CloseChannel { result: written }),
        outcome is Ok ==> result is Ok,
        outcome matches Err(e) ==> result == ChannelResult::<()>::Err(ChannelError::IOError(e)),
{
    assert(step@ is CloseChannel);
}

} // verus!
