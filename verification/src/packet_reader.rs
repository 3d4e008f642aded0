//! Receiving frames on a raw CAN channel.
use vstd::prelude::*;

use crate::error::{ChannelError, ChannelResult};
use crate::frame::CanFrame;
use crate::timing::{may_read_on, read_budget};

verus! {

/// A read of CAN frames that is under way.
#[derive(Debug)]
pub struct PacketReader {
    max: usize,
    timeout_ms: u32,
    received: Vec<CanFrame>,
}

/// The content of a [`PacketReader`].
pub struct ReaderModel {
    /// How many frames end the read
    pub max: usize,
    /// The timeout that the caller gave, in milliseconds
    pub timeout_ms: u32,
    /// The frames so far
    pub received: Seq<CanFrame>,
}

impl View for PacketReader {
    type V = ReaderModel;

    closed spec fn view(&self) -> ReaderModel {
        ReaderModel {
            max: self.max,
            timeout_ms: self.timeout_ms,
            received: self.received@,
        }
    }
}

/// What comes next while frames are read.
#[derive(Debug)]
pub enum ReadStep {
    /// See how much time has passed since the read began, and go on with
    /// [`PacketReader::after_clock`].
    CheckClock {
        /// The read
        reader: PacketReader,
    },
    /// Read a frame from the socket, and go on with [`PacketReader::after_read`].
    ReadFrame {
        /// The read
        reader: PacketReader,
    },
    /// All done
    Finished {
        /// What the operation returns
        result: ChannelResult<Vec<CanFrame>>,
    },
}

/// The content of a [`ReadStep`].
pub enum ReadModel {
    CheckClock { reader: ReaderModel },
    ReadFrame { reader: ReaderModel },
    Finished { result: ChannelResult<Seq<CanFrame>> },
}

impl View for ReadStep {
    type V = ReadModel;

    open spec fn view(&self) -> ReadModel {
        match *self {
            ReadStep::CheckClock { reader } => ReadModel::CheckClock { reader: reader@ },
            ReadStep::ReadFrame { reader } => ReadModel::ReadFrame { reader: reader@ },
            ReadStep::Finished { result: Ok(received) } => ReadModel::Finished {
                result: Ok(received@),
            },
            ReadStep::Finished { result: Err(e) } => ReadModel::Finished { result: Err(e) },
        }
    }
}

/// The first step of reading frames.
pub open spec fn read_packets_first(open: bool, max: usize, timeout_ms: u32) -> ReadModel {
    if open {
        ReadModel::CheckClock { reader: ReaderModel { max, timeout_ms, received: seq![] } }
    } else {
        ReadModel::Finished { result: Err(ChannelError::InterfaceNotOpen) }
    }
}

/// The step after a look at the clock.
pub open spec fn read_packets_after_clock(reader: ReaderModel, elapsed_ms: u128) -> ReadModel {
    if elapsed_ms <= read_budget(reader.timeout_ms) {
        ReadModel::ReadFrame { reader }
    } else {
        ReadModel::Finished { result: Ok(reader.received) }
    }
}

/// The step after a read from the socket: with the last frame asked for the read is complete, and
/// an error ends it.
pub open spec fn read_packets_after_read(
    reader: ReaderModel,
    read: Result<CanFrame, std::io::Error>,
) -> ReadModel {
    match read {
        Ok(frame) => {
            let received = reader.received.push(frame);
            if received.len() == reader.max {
                ReadModel::Finished { result: Ok(received) }
            } else {
                ReadModel::CheckClock { reader: ReaderModel { received, ..reader } }
            }
        },
        Err(e) => ReadModel::Finished { result: Err(ChannelError::IOError(e)) },
    }
}

impl PacketReader {
    /// A read that has not received anything.
    pub(crate) fn new(max: usize, timeout_ms: u32) -> (reader: Self)
        ensures
            reader@ == (ReaderModel { max, timeout_ms, received: seq![] }),
    {
        PacketReader { max, timeout_ms, received: Vec::new() }
    }

    /// Goes on after a look at the clock.
    pub fn after_clock(self, elapsed_ms: u128) -> (step: ReadStep)
        ensures
            step@ == read_packets_after_clock(self@, elapsed_ms),
    {
        if may_read_on(elapsed_ms, self.timeout_ms) {
            ReadStep::ReadFrame { reader: self }
        } else {
            ReadStep::Finished { result: Ok(self.received) }
        }
    }

    /// Goes on after a read from the socket.
    pub fn after_read(self, read: Result<CanFrame, std::io::Error>) -> (step: ReadStep)
        ensures
            step@ == read_packets_after_read(self@, read),
    {
        match read {
            Ok(frame) => {
                let mut received = self.received;
                received.push(frame);
                // Read complete
                if received.len() == self.max {
                    return ReadStep::Finished { result: Ok(received) };
                }
                ReadStep::CheckClock {
                    reader: PacketReader { max: self.max, timeout_ms: self.timeout_ms, received },
                }
            },
            Err(e) => ReadStep::Finished { result: Err(ChannelError::IOError(e)) },
        }
    }
}

/// How a read goes from `reader` on, when the clock shows `clocks` and the socket gives `reads`,
/// in turn: the result, or `None` if it has not come by then.
pub open spec fn read_run(
    reader: ReaderModel,
    clocks: Seq<u128>,
    reads: Seq<Result<CanFrame, std::io::Error>>,
) -> Option<ChannelResult<Seq<CanFrame>>>
    decreases clocks.len(),
{
    if clocks.len() == 0 {
        None
    } else {
        match read_packets_after_clock(reader, clocks[0]) {
            ReadModel::Finished { result } => Some(result),
            ReadModel::CheckClock { .. } => None,
            ReadModel::ReadFrame { reader: reading } => if reads.len() == 0 {
                None
            } else {
                match read_packets_after_read(reading, reads[0]) {
                    ReadModel::Finished { result } => Some(result),
                    ReadModel::ReadFrame { .. } => None,
                    ReadModel::CheckClock { reader: rest } => read_run(
                        rest,
                        clocks.drop_first(),
                        reads.drop_first(),
                    ),
                }
            },
        }
    }
}

/// The first `n` of `reads` all gave a frame.
pub open spec fn all_frames(reads: Seq<Result<CanFrame, std::io::Error>>, n: int) -> bool {
    n <= reads.len() && forall|i: int| 0 <= i < n ==> reads[i] is Ok
}

/// The frames that the first `n` of `reads` gave.
pub open spec fn frames_of(reads: Seq<Result<CanFrame, std::io::Error>>, n: int) -> Seq<CanFrame> {
    Seq::new(n as nat, |i: int| reads[i]->Ok_0)
}

/// A read that ends well returns every frame that it received, in order, and it ended for one of
/// two reasons: it had as many as were asked for, or its time was over. It never ends well past
/// an error.
pub proof fn read_returns_what_arrived(
    reader: ReaderModel,
    clocks: Seq<u128>,
    reads: Seq<Result<CanFrame, std::io::Error>>,
)
    ensures
        read_run(reader, clocks, reads) matches Some(Ok(got)) ==> {
            let n = got.len() - reader.received.len();
            &&& 0 <= n
            &&& all_frames(reads, n)
            &&& got == reader.received + frames_of(reads, n)
            &&& (n > 0 && got.len() == reader.max) || (n < clocks.len() && clocks[n] > read_budget(
                reader.timeout_ms,
            ))
        },
    decreases clocks.len(),
{
    if clocks.len() > 0 && reads.len() > 0 && clocks[0] <= read_budget(reader.timeout_ms) {
        if let Ok(frame) = reads[0] {
            let received = reader.received.push(frame);
            if received.len() == reader.max {
                assert(received =~= reader.received + frames_of(reads, 1));
            } else {
                let rest = ReaderModel { received, ..reader };
                read_returns_what_arrived(rest, clocks.drop_first(), reads.drop_first());
                if let Some(Ok(got)) = read_run(reader, clocks, reads) {
                    let n = got.len() - reader.received.len();
                    assert forall|i: int| 0 <= i < n implies reads[i] is Ok by {
                        if i > 0 {
                            assert(reads.drop_first()[i - 1] is Ok);
                        }
                    }
                    assert(received + frames_of(reads.drop_first(), n - 1) =~= reader.received
                        + frames_of(reads, n));
                }
            }
        }
    } else {
        assert(reader.received =~= reader.received + frames_of(reads, 0));
    }
}

/// A read returns no more frames than were asked for, if any were.
pub proof fn read_is_bounded(
    reader: ReaderModel,
    clocks: Seq<u128>,
    reads: Seq<Result<CanFrame, std::io::Error>>,
)
    requires
        reader.received.len() < reader.max,
    ensures
        read_run(reader, clocks, reads) matches Some(Ok(got)) ==> got.len() <= reader.max,
    decreases clocks.len(),
{
    if clocks.len() > 0 && reads.len() > 0 && clocks[0] <= read_budget(reader.timeout_ms) {
        if let Ok(frame) = reads[0] {
            let received = reader.received.push(frame);
            if received.len() != reader.max {
                read_is_bounded(
                    ReaderModel { received, ..reader },
                    clocks.drop_first(),
                    reads.drop_first(),
                );
            }
        }
    }
}

/// A read fails only with the error of the first read from the socket that failed, and the frames
/// before it are lost.
pub proof fn read_fails_with_first_error(
    reader: ReaderModel,
    clocks: Seq<u128>,
    reads: Seq<Result<CanFrame, std::io::Error>>,
)
    ensures
        read_run(reader, clocks, reads) matches Some(Err(error)) ==> exists|k: int|
            #![trigger all_frames(reads, k)]
            {
                &&& 0 <= k < reads.len()
                &&& all_frames(reads, k)
                &&& reads[k] is Err
                &&& error == ChannelError::IOError(reads[k]->Err_0)
            },
    decreases clocks.len(),
{
    if clocks.len() > 0 && reads.len() > 0 && clocks[0] <= read_budget(reader.timeout_ms) {
        match reads[0] {
            Ok(frame) => {
                let received = reader.received.push(frame);
                if received.len() != reader.max {
                    let rest = ReaderModel { received, ..reader };
                    let later = reads.drop_first();
                    read_fails_with_first_error(rest, clocks.drop_first(), later);
                    if let Some(Err(error)) = read_run(reader, clocks, reads) {
                        let k = choose|k: int|
                            #![trigger all_frames(later, k)]
                            {
                                &&& 0 <= k < later.len()
                                &&& all_frames(later, k)
                                &&& later[k] is Err
                                &&& error == ChannelError::IOError(later[k]->Err_0)
                            };
                        assert forall|i: int| 0 <= i < k + 1 implies reads[i] is Ok by {
                            if i > 0 {
                                assert(later[i - 1] is Ok);
                            }
                        }
                        assert(all_frames(reads, k + 1));
                    }
                }
            },
            Err(_) => {
                assert(all_frames(reads, 0));
            },
        }
    }
}

/// A read that received `k` frames in time, none of them the last one asked for, goes on as one
/// that started with them.
proof fn read_run_advances(
    reader: ReaderModel,
    clocks: Seq<u128>,
    reads: Seq<Result<CanFrame, std::io::Error>>,
    k: int,
)
    requires
        0 <= k <= clocks.len(),
        all_frames(reads, k),
        forall|i: int| 0 <= i < k ==> clocks[i] <= read_budget(reader.timeout_ms),
        forall|i: int| 1 <= i <= k ==> #[trigger] (reader.received.len() + i) != reader.max,
    ensures
        read_run(reader, clocks, reads) == read_run(
            (ReaderModel { received: reader.received + frames_of(reads, k), ..reader }),
            clocks.skip(k),
            reads.skip(k),
        ),
    decreases k,
{
    if k == 0 {
        assert(reader.received + frames_of(reads, 0) =~= reader.received);
        assert(clocks.skip(0) =~= clocks);
        assert(reads.skip(0) =~= reads);
    } else {
        assert(reads[0] is Ok);
        let received = reader.received.push(reads[0]->Ok_0);
        assert(received.len() != reader.max) by {
            assert(reader.received.len() + 1 != reader.max);
        }
        let rest = ReaderModel { received, ..reader };
        let later = reads.drop_first();
        assert forall|i: int| 1 <= i <= k - 1 implies #[trigger] (rest.received.len() + i)
            != rest.max by {
            assert(reader.received.len() + (i + 1) != reader.max);
        }
        read_run_advances(rest, clocks.drop_first(), later, k - 1);
        assert(rest.received + frames_of(later, k - 1) =~= reader.received + frames_of(reads, k));
        assert(clocks.drop_first().skip(k - 1) =~= clocks.skip(k));
        assert(later.skip(k - 1) =~= reads.skip(k));
    }
}

/// When as many frames as were asked for arrive in time, the read returns exactly those.
pub proof fn read_completes(
    max: usize,
    timeout_ms: u32,
    clocks: Seq<u128>,
    reads: Seq<Result<CanFrame, std::io::Error>>,
)
    requires
        0 < max <= clocks.len(),
        all_frames(reads, max as int),
        forall|i: int| 0 <= i < max ==> clocks[i] <= read_budget(timeout_ms),
    ensures
        read_run((ReaderModel { max, timeout_ms, received: seq![] }), clocks, reads) == Some(
            ChannelResult::<Seq<CanFrame>>::Ok(frames_of(reads, max as int)),
        ),
{
    let reader = ReaderModel { max, timeout_ms, received: seq![] };
    let k = max - 1;
    read_run_advances(reader, clocks, reads, k);
    let received = reader.received + frames_of(reads, k);
    assert(reads[k] is Ok);
    assert(reads.skip(k)[0] == reads[k]);
    assert(clocks.skip(k)[0] == clocks[k]);
    assert(received.push(reads[k]->Ok_0) =~= frames_of(reads, max as int));
}

/// When the time is over before the last frame asked for, the read returns what has arrived. If
/// no number was asked for, only the time ends it.
pub proof fn read_times_out(
    max: usize,
    timeout_ms: u32,
    clocks: Seq<u128>,
    reads: Seq<Result<CanFrame, std::io::Error>>,
    k: int,
)
    requires
        0 <= k < clocks.len(),
        max == 0 || k < max,
        all_frames(reads, k),
        forall|i: int| 0 <= i < k ==> clocks[i] <= read_budget(timeout_ms),
        clocks[k] > read_budget(timeout_ms),
    ensures
        read_run((ReaderModel { max, timeout_ms, received: seq![] }), clocks, reads) == Some(
            ChannelResult::<Seq<CanFrame>>::Ok(frames_of(reads, k)),
        ),
{
    let reader = ReaderModel { max, timeout_ms, received: seq![] };
    read_run_advances(reader, clocks, reads, k);
    assert(clocks.skip(k)[0] == clocks[k]);
    assert(reader.received + frames_of(reads, k) =~= frames_of(reads, k));
}

/// When a read from the socket fails in time and before the last frame asked for, the whole read
/// fails with its error.
pub proof fn read_fails(
    max: usize,
    timeout_ms: u32,
    clocks: Seq<u128>,
    reads: Seq<Result<CanFrame, std::io::Error>>,
    k: int,
)
    requires
        0 <= k < clocks.len(),
        k < reads.len(),
        max == 0 || k < max,
        all_frames(reads, k),
        forall|i: int| 0 <= i <= k ==> clocks[i] <= read_budget(timeout_ms),
        reads[k] is Err,
    ensures
        read_run((ReaderModel { max, timeout_ms, received: seq![] }), clocks, reads) == Some(
            ChannelResult::<Seq<CanFrame>>::Err(ChannelError::IOError(reads[k]->Err_0)),
        ),
{
    let reader = ReaderModel { max, timeout_ms, received: seq![] };
    read_run_advances(reader, clocks, reads, k);
    assert(clocks.skip(k)[0] == clocks[k]);
    assert(reads.skip(k)[0] == reads[k]);
}

/// A timeout of zero is one of a millisecond.
pub proof fn zero_timeout_is_a_millisecond(
    max: usize,
    received: Seq<CanFrame>,
    clocks: Seq<u128>,
    reads: Seq<Result<CanFrame, std::io::Error>>,
)
    ensures
        read_run((ReaderModel { max, timeout_ms: 0, received }), clocks, reads) == read_run(
            (ReaderModel { max, timeout_ms: 1, received }),
            clocks,
            reads,
        ),
    decreases clocks.len(),
{
    if clocks.len() > 0 && reads.len() > 0 {
        if let Ok(frame) = reads[0] {
            zero_timeout_is_a_millisecond(
                max,
                received.push(frame),
                clocks.drop_first(),
                reads.drop_first(),
            );
        }
    }
}

} // verus!
