//! The concurrent phase as a whole and its fallback: the progress
//! aggregator, the overall outcome, and the single-stream download.

use crate::error::{PartFailure, ProgramError};
use crate::fetch::FetchEvent;
use crate::part::{lemma_tiles_total_size, tiles, total_size};
use crate::types::PartView;
use vstd::prelude::*;

verus! {

/// Time between two looks of the aggregator at the counters, in milliseconds.
pub const PROGRESS_INTERVAL_MS: u64 = 100;

/// Sum of the per-part counters.
pub open spec fn total_of(counters: Seq<u64>) -> nat
    decreases counters.len(),
{
    if counters.len() == 0 {
        0
    } else {
        total_of(counters.drop_last()) + counters.last() as nat
    }
}

/// The aggregator is done once the transferred bytes reach a total that is
/// known to be positive, or once it is told that the operation has finished.
pub open spec fn aggregator_done(position: u64, total_size: u64, finished: bool) -> bool {
    (total_size > 0 && position >= total_size) || finished
}

/// What the aggregator does after one look at the counters.
#[derive(Clone, Copy, Debug, PartialEq, Eq, Structural)]
pub struct ProgressReport {
    /// Bytes transferred so far, for the progress sink.
    pub position: u64,
    /// Time to wait before the next look, in milliseconds; `None` ends the aggregator.
    pub next_poll_ms: Option<u64>,
}

/// Adds a prefix of the counters: the sum never shrinks as more are added.
proof fn lemma_total_of_prefix(counters: Seq<u64>, k: int)
    requires
        0 <= k <= counters.len(),
    ensures
        total_of(counters.take(k)) <= total_of(counters),
    decreases counters.len(),
{
    if k == counters.len() {
        assert(counters.take(k) =~= counters);
    } else {
        lemma_total_of_prefix(counters.drop_last(), k);
        assert(counters.drop_last().take(k) =~= counters.take(k));
    }
}

/// Sums the per-part counters; `None` when the sum does not fit 64 bits.
pub fn total_progress(counters: &[u64]) -> (total: Option<u64>)
    ensures
        match total {
            Some(t) => t == total_of(counters@),
            None => total_of(counters@) > u64::MAX,
        },
{
    let mut sum: u64 = 0;
    let mut i: usize = 0;
    while i < counters.len()
        invariant
            i <= counters.len(),
            sum == total_of(counters@.take(i as int)),
        decreases counters.len() - i,
    {
        proof {
            assert(counters@.take(i + 1).drop_last() =~= counters@.take(i as int));
            lemma_total_of_prefix(counters@, i + 1);
        }
        sum = match sum.checked_add(counters[i]) {
            Some(s) => s,
            None => {
                return None;
            },
        };
        i += 1;
    }
    assert(counters@.take(i as int) =~= counters@);
    Some(sum)
}

/// One look of the aggregator: the figure to report and whether to go on.
///
/// `total_size` is the expected total, 0 when unknown; `finished` tells that
/// the operation has concluded. `None` when the counters do not sum within 64
/// bits.
pub fn aggregate_progress(counters: &[u64], total_size: u64, finished: bool) -> (report: Option<
    ProgressReport,
>)
    ensures
        match report {
            Some(r) => r.position == total_of(counters@) && r.next_poll_ms == (if aggregator_done(
                r.position,
                total_size,
                finished,
            ) {
                None
            } else {
                Some(PROGRESS_INTERVAL_MS)
            }),
            None => total_of(counters@) > u64::MAX,
        },
{
    match total_progress(counters) {
        Some(position) => {
            let done = (total_size > 0 && position >= total_size) || finished;
            Some(
                ProgressReport {
                    position,
                    next_poll_ms: if done {
                        None
                    } else {
                        Some(PROGRESS_INTERVAL_MS)
                    },
                },
            )
        },
        None => None,
    }
}

/// Counters that each show the size of their part add up to the parts' sizes.
proof fn lemma_counters_match_sizes(counters: Seq<u64>, parts: Seq<PartView>)
    requires
        counters.len() == parts.len(),
        forall|i: int| 0 <= i < counters.len() ==> #[trigger] counters[i] == parts[i].size(),
    ensures
        total_of(counters) == total_size(parts),
    decreases counters.len(),
{
    if counters.len() > 0 {
        lemma_counters_match_sizes(counters.drop_last(), parts.drop_last());
    }
}

/// Once every part of a partition is complete, its counter showing the whole
/// part, the counters add up to the length of the resource, and the
/// aggregator is done.
pub proof fn lemma_complete_parts_end_aggregation(
    counters: Seq<u64>,
    parts: Seq<PartView>,
    total_size: u64,
)
    requires
        tiles(parts, total_size as nat),
        counters.len() == parts.len(),
        forall|i: int| 0 <= i < counters.len() ==> #[trigger] counters[i] == parts[i].size(),
    ensures
        total_of(counters) == total_size,
        aggregator_done(total_size, total_size, false),
{
    lemma_counters_match_sizes(counters, parts);
    lemma_tiles_total_size(parts, total_size as nat);
}

/// The result of the whole concurrent phase: success when every part
/// succeeded, else the failure that comes first in `results`.
pub fn first_failure(results: Vec<Result<(), PartFailure>>) -> (outcome: Result<(), PartFailure>)
    ensures
        match outcome {
            Ok(()) => forall|i: int| 0 <= i < results.len() ==> (#[trigger] results[i]) is Ok,
            Err(failure) => exists|k: int|
                0 <= k < results.len() && #[trigger] results[k] == Err::<(), PartFailure>(failure)
                    && forall|i: int| 0 <= i < k ==> (#[trigger] results[i]) is Ok,
        },
{
    let ghost all = results@;
    let mut rest = results;
    let mut i: usize = 0;
    let n = rest.len();
    while i < n
        invariant
            i <= n,
            n == rest.len(),
            all == results@,
            rest.len() == all.len(),
            forall|j: int| 0 <= j < i ==> (#[trigger] all[j]) is Ok,
            forall|j: int| i <= j < n ==> rest[j] == all[j],
        decreases n - i,
    {
        let mut taken: Result<(), PartFailure> = Ok(());
        std::mem::swap(&mut rest[i], &mut taken);
        match taken {
            Ok(()) => {},
            Err(failure) => {
                assert(all[i as int] == Err::<(), PartFailure>(failure));
                return Err(failure);
            },
        }
        i += 1;
    }
    Ok(())
}

/// A status that stands for success: 200 to 299.
pub open spec fn is_success(status: u16) -> bool {
    200 <= status < 300
}

/// Why the single-stream download failed.
#[derive(Clone, Copy, Debug, PartialEq, Eq)]
pub enum SingleFailure {
    /// The server answered with a status outside 200 to 299.
    UnsuccessfulStatus,
    /// The transport or the filesystem reported an error.
    Aborted,
}

/// Where the single-stream download stands.
#[derive(Clone, Copy, Debug, PartialEq, Eq)]
pub enum SinglePhase {
    /// The request is out; waiting for the response status.
    Requesting,
    /// Waiting for the destination file to be created.
    Creating,
    /// Receiving the body chunk by chunk.
    Streaming,
    /// The whole body is in the destination file.
    Complete,
    /// The download is over without the file.
    Failed(SingleFailure),
}

/// The download of the whole resource as one stream.
#[derive(Clone, Copy, Debug, PartialEq, Eq)]
pub struct SingleState {
    /// Bytes received so far: the overall progress.
    pub received: u64,
    pub phase: SinglePhase,
}

/// What the single-stream download asks the driver to do next. It never asks
/// for a temp file or a range.
#[derive(Clone, Copy, Debug, PartialEq, Eq)]
pub enum SingleAction {
    /// Send a plain GET for the resource.
    SendRequest,
    /// Create the destination file, emptying it if it exists.
    CreateOutputFile,
    /// Take the next chunk of the body and write it to the destination file.
    WriteNextChunk,
    /// The download is over.
    Finish(Result<(), SingleFailure>),
}

impl SingleState {
    /// Nothing is counted before the body streams.
    pub open spec fn well_formed(self) -> bool {
        (self.phase is Requesting || self.phase is Creating) ==> self.received == 0
    }

    /// The download has ended, well or badly.
    pub open spec fn is_over(self) -> bool {
        self.phase is Complete || self.phase is Failed
    }

    /// The state that follows `self` on `event`. An event that does not answer
    /// the pending action changes nothing.
    pub open spec fn next(self, event: FetchEvent) -> SingleState {
        match (self.phase, event) {
            (SinglePhase::Requesting, FetchEvent::Response(status)) => {
                if is_success(status) {
                    SingleState { phase: SinglePhase::Creating, ..self }
                } else {
                    SingleState { phase: SinglePhase::Failed(SingleFailure::UnsuccessfulStatus), ..self }
                }
            },
            (SinglePhase::Creating, FetchEvent::FileCreated) => SingleState {
                phase: SinglePhase::Streaming,
                ..self
            },
            (SinglePhase::Streaming, FetchEvent::ChunkWritten(len)) => SingleState {
                received: (self.received + len) as u64,
                ..self
            },
            (SinglePhase::Streaming, FetchEvent::BodyEnded) => SingleState {
                phase: SinglePhase::Complete,
                ..self
            },
            (SinglePhase::Complete, _) => self,
            (SinglePhase::Failed(_), _) => self,
            (_, FetchEvent::Failed) => SingleState {
                phase: SinglePhase::Failed(SingleFailure::Aborted),
                ..self
            },
            _ => self,
        }
    }

    /// The action that the state waits for.
    pub open spec fn pending(self) -> SingleAction {
        match self.phase {
            SinglePhase::Requesting => SingleAction::SendRequest,
            SinglePhase::Creating => SingleAction::CreateOutputFile,
            SinglePhase::Streaming => SingleAction::WriteNextChunk,
            SinglePhase::Complete => SingleAction::Finish(Ok(())),
            SinglePhase::Failed(failure) => SingleAction::Finish(Err(failure)),
        }
    }

    /// `event` can be counted: a chunk does not take the count past 64 bits.
    pub open spec fn can_count(self, event: FetchEvent) -> bool {
        self.phase is Streaming ==> (event matches FetchEvent::ChunkWritten(len) ==> self.received
            + len <= u64::MAX)
    }
}

/// Starts the single-stream download: the request goes out first.
pub fn single_begin() -> (state: SingleState)
    ensures
        state == (SingleState { received: 0, phase: SinglePhase::Requesting }),
        state.well_formed(),
        state.pending() == SingleAction::SendRequest,
{
    SingleState { received: 0, phase: SinglePhase::Requesting }
}

/// Advances the single-stream download by one event.
pub fn single_step(state: SingleState, event: FetchEvent) -> (next: SingleState)
    requires
        state.well_formed(),
        state.can_count(event),
    ensures
        next == state.next(event),
        next.well_formed(),
        next.received >= state.received,
        state.is_over() ==> next == state,
{
    match state.phase {
        SinglePhase::Complete => state,
        SinglePhase::Failed(_) => state,
        SinglePhase::Requesting => match event {
            FetchEvent::Response(status) => {
                if 200 <= status && status < 300 {
                    SingleState { phase: SinglePhase::Creating, ..state }
                } else {
                    SingleState {
                        phase: SinglePhase::Failed(SingleFailure::UnsuccessfulStatus),
                        ..state
                    }
                }
            },
            FetchEvent::Failed => SingleState {
                phase: SinglePhase::Failed(SingleFailure::Aborted),
                ..state
            },
            _ => state,
        },
        SinglePhase::Creating => match event {
            FetchEvent::FileCreated => SingleState { phase: SinglePhase::Streaming, ..state },
            FetchEvent::Failed => SingleState {
                phase: SinglePhase::Failed(SingleFailure::Aborted),
                ..state
            },
            _ => state,
        },
        SinglePhase::Streaming => match event {
            FetchEvent::ChunkWritten(len) => SingleState {
                received: state.received + len,
                ..state
            },
            FetchEvent::BodyEnded => SingleState { phase: SinglePhase::Complete, ..state },
            FetchEvent::Failed => SingleState {
                phase: SinglePhase::Failed(SingleFailure::Aborted),
                ..state
            },
            _ => state,
        },
    }
}

/// The action that the single-stream download waits for.
pub fn single_action(state: &SingleState) -> (action: SingleAction)
    ensures
        action == state.pending(),
{
    match state.phase {
        SinglePhase::Requesting => SingleAction::SendRequest,
        SinglePhase::Creating => SingleAction::CreateOutputFile,
        SinglePhase::Streaming => SingleAction::WriteNextChunk,
        SinglePhase::Complete => SingleAction::Finish(Ok(())),
        SinglePhase::Failed(failure) => SingleAction::Finish(Err(failure)),
    }
}

/// The error of a single-stream download that the server refused;
/// `status_text` is the status as the transport shows it.
pub fn unsuccessful_status_error(status_text: &str) -> (error: ProgramError)
    ensures
        error matches ProgramError::Other(text) && text@ == "GET failed with status "@
            + status_text@,
{
    let mut text = String::new();
    text.append("GET failed with status ");
    text.append(status_text);
    ProgramError::Other(text)
}

} // verus!
