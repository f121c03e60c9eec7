//! The range fetcher: one attempt to bring one part into its temp file.
//!
//! An attempt is a state machine over plain numbers. The driver performs the
//! action that the state waits for, reports what happened as an event, and
//! mirrors the byte count of the state into the part's progress counter.

use crate::error::ProgramError;
use crate::text::{append_decimal, decimal_text};
use vstd::prelude::*;

verus! {

/// HTTP status of a response that carries the requested byte range.
pub const PARTIAL_CONTENT: u16 = 206;

/// Why an attempt to fetch a part failed.
#[derive(Clone, Copy, Debug, PartialEq, Eq)]
pub enum FetchFailure {
    /// The server answered the range request with a status other than 206.
    UnexpectedStatus,
    /// After the body ended the temp file held `got` bytes, not the expected number.
    SizeMismatch { got: u64 },
    /// The transport or the filesystem reported an error.
    Aborted,
}

/// Where an attempt to fetch a part stands.
#[derive(Clone, Copy, Debug, PartialEq, Eq)]
pub enum FetchPhase {
    /// Waiting to learn the size of what is already in the temp file.
    Checking,
    /// The range request is out; waiting for the response status.
    Requesting,
    /// Waiting for the temp file to be created empty.
    Creating,
    /// Receiving the body chunk by chunk.
    Streaming,
    /// The body has ended; waiting for the size of the flushed temp file.
    Verifying,
    /// The temp file holds exactly the part.
    Complete,
    /// The attempt is over without the part.
    Failed(FetchFailure),
}

/// One attempt to fetch a part.
#[derive(Clone, Copy, Debug, PartialEq, Eq)]
pub struct FetchState {
    /// Offset of the first byte of the part.
    pub start: u64,
    /// Offset of the last byte of the part.
    pub end_inclusive: u64,
    /// Value of the part's progress counter.
    pub written: u64,
    pub phase: FetchPhase,
}

/// What the driver reports back to an attempt.
#[derive(Clone, Copy, Debug, PartialEq, Eq)]
pub enum FetchEvent {
    /// Size of the temp file on disk; `None` when it cannot be read.
    TempFileSize(Option<u64>),
    /// Status code of the response.
    Response(u16),
    /// The file to write to was created empty.
    FileCreated,
    /// A chunk of so many bytes arrived and was written to the file.
    ChunkWritten(u64),
    /// The body ended.
    BodyEnded,
    /// The file was flushed and now has this size.
    FinalSize(u64),
    /// The pending action failed in the transport or the filesystem.
    Failed,
}

/// What an attempt asks the driver to do next.
#[derive(Clone, Copy, Debug, PartialEq, Eq)]
pub enum FetchAction {
    /// Look up the size of the temp file.
    StatTempFile,
    /// Send a GET restricted to the bytes `start` to `end_inclusive`.
    SendRangeRequest { start: u64, end_inclusive: u64 },
    /// Create the temp file, emptying it if it exists.
    CreateTempFile,
    /// Take the next chunk of the body and write it to the temp file.
    WriteNextChunk,
    /// Flush the temp file and look up its size.
    FlushAndStat,
    /// The attempt is over.
    Finish(Result<(), FetchFailure>),
}

impl FetchState {
    /// Number of bytes in the part.
    pub open spec fn expected(self) -> nat {
        (self.end_inclusive - self.start + 1) as nat
    }

    /// The range is not empty, its length fits 64 bits, and nothing is
    /// counted before the body streams.
    pub open spec fn well_formed(self) -> bool {
        &&& self.start <= self.end_inclusive
        &&& self.expected() <= u64::MAX
        &&& (self.phase is Checking || self.phase is Requesting || self.phase is Creating)
            ==> self.written == 0
    }

    /// The attempt has ended, well or badly.
    pub open spec fn is_over(self) -> bool {
        self.phase is Complete || self.phase is Failed
    }

    /// The state that follows `self` on `event`. An event that does not answer
    /// the pending action changes nothing.
    pub open spec fn next(self, event: FetchEvent) -> FetchState {
        match (self.phase, event) {
            (FetchPhase::Checking, FetchEvent::TempFileSize(size)) => {
                if size == Some(self.expected() as u64) {
                    FetchState { written: self.expected() as u64, phase: FetchPhase::Complete, ..self }
                } else {
                    FetchState { phase: FetchPhase::Requesting, ..self }
                }
            },
            (FetchPhase::Requesting, FetchEvent::Response(status)) => {
                if status == PARTIAL_CONTENT {
                    FetchState { phase: FetchPhase::Creating, ..self }
                } else {
                    FetchState { phase: FetchPhase::Failed(FetchFailure::UnexpectedStatus), ..self }
                }
            },
            (FetchPhase::Creating, FetchEvent::FileCreated) => {
                FetchState { phase: FetchPhase::Streaming, ..self }
            },
            (FetchPhase::Streaming, FetchEvent::ChunkWritten(len)) => {
                FetchState { written: (self.written + len) as u64, ..self }
            },
            (FetchPhase::Streaming, FetchEvent::BodyEnded) => {
                FetchState { phase: FetchPhase::Verifying, ..self }
            },
            (FetchPhase::Verifying, FetchEvent::FinalSize(got)) => {
                if got == self.expected() {
                    FetchState { phase: FetchPhase::Complete, ..self }
                } else {
                    FetchState { phase: FetchPhase::Failed(FetchFailure::SizeMismatch { got }), ..self }
                }
            },
            (FetchPhase::Complete, _) => self,
            (FetchPhase::Failed(_), _) => self,
            (_, FetchEvent::Failed) => {
                FetchState { phase: FetchPhase::Failed(FetchFailure::Aborted), ..self }
            },
            _ => self,
        }
    }

    /// The action that the state waits for.
    pub open spec fn pending(self) -> FetchAction {
        match self.phase {
            FetchPhase::Checking => FetchAction::StatTempFile,
            FetchPhase::Requesting => FetchAction::SendRangeRequest {
                start: self.start,
                end_inclusive: self.end_inclusive,
            },
            FetchPhase::Creating => FetchAction::CreateTempFile,
            FetchPhase::Streaming => FetchAction::WriteNextChunk,
            FetchPhase::Verifying => FetchAction::FlushAndStat,
            FetchPhase::Complete => FetchAction::Finish(Ok(())),
            FetchPhase::Failed(failure) => FetchAction::Finish(Err(failure)),
        }
    }

    /// `event` can be counted: a chunk does not take the counter past 64 bits.
    pub open spec fn can_count(self, event: FetchEvent) -> bool {
        self.phase is Streaming ==> (event matches FetchEvent::ChunkWritten(len) ==> self.written
            + len <= u64::MAX)
    }
}

/// Starts an attempt on the range `start ..= end_inclusive`: nothing is
/// counted yet, and the first thing to do is to look at the temp file.
pub fn fetch_begin(start: u64, end_inclusive: u64) -> (state: FetchState)
    requires
        start <= end_inclusive,
        end_inclusive - start < u64::MAX,
    ensures
        state == (FetchState { start, end_inclusive, written: 0, phase: FetchPhase::Checking }),
        state.well_formed(),
        state.pending() == FetchAction::StatTempFile,
{
    FetchState { start, end_inclusive, written: 0, phase: FetchPhase::Checking }
}

/// Advances an attempt by one event.
///
/// The counter never goes back during an attempt, and an attempt that is
/// over stays as it is.
pub fn fetch_step(state: FetchState, event: FetchEvent) -> (next: FetchState)
    requires
        state.well_formed(),
        state.can_count(event),
    ensures
        next == state.next(event),
        next.well_formed(),
        next.start == state.start && next.end_inclusive == state.end_inclusive,
        next.written >= state.written,
        state.is_over() ==> next == state,
{
    let expected: u64 = state.end_inclusive - state.start + 1;
    match state.phase {
        FetchPhase::Complete => state,
        FetchPhase::Failed(_) => state,
        FetchPhase::Checking => match event {
            FetchEvent::TempFileSize(Some(size)) => {
                if size == expected {
                    FetchState { written: expected, phase: FetchPhase::Complete, ..state }
                } else {
                    FetchState { phase: FetchPhase::Requesting, ..state }
                }
            },
            FetchEvent::TempFileSize(None) => FetchState { phase: FetchPhase::Requesting, ..state },
            FetchEvent::Failed => FetchState {
                phase: FetchPhase::Failed(FetchFailure::Aborted),
                ..state
            },
            _ => state,
        },
        FetchPhase::Requesting => match event {
            FetchEvent::Response(status) => {
                if status == PARTIAL_CONTENT {
                    FetchState { phase: FetchPhase::Creating, ..state }
                } else {
                    FetchState { phase: FetchPhase::Failed(FetchFailure::UnexpectedStatus), ..state }
                }
            },
            FetchEvent::Failed => FetchState {
                phase: FetchPhase::Failed(FetchFailure::Aborted),
                ..state
            },
            _ => state,
        },
        FetchPhase::Creating => match event {
            FetchEvent::FileCreated => FetchState { phase: FetchPhase::Streaming, ..state },
            FetchEvent::Failed => FetchState {
                phase: FetchPhase::Failed(FetchFailure::Aborted),
                ..state
            },
            _ => state,
        },
        FetchPhase::Streaming => match event {
            FetchEvent::ChunkWritten(len) => FetchState { written: state.written + len, ..state },
            FetchEvent::BodyEnded => FetchState { phase: FetchPhase::Verifying, ..state },
            FetchEvent::Failed => FetchState {
                phase: FetchPhase::Failed(FetchFailure::Aborted),
                ..state
            },
            _ => state,
        },
        FetchPhase::Verifying => match event {
            FetchEvent::FinalSize(got) => {
                if got == expected {
                    FetchState { phase: FetchPhase::Complete, ..state }
                } else {
                    FetchState {
                        phase: FetchPhase::Failed(FetchFailure::SizeMismatch { got }),
                        ..state
                    }
                }
            },
            FetchEvent::Failed => FetchState {
                phase: FetchPhase::Failed(FetchFailure::Aborted),
                ..state
            },
            _ => state,
        },
    }
}

/// The action that an attempt waits for.
pub fn fetch_action(state: &FetchState) -> (action: FetchAction)
    ensures
        action == state.pending(),
{
    match state.phase {
        FetchPhase::Checking => FetchAction::StatTempFile,
        FetchPhase::Requesting => FetchAction::SendRangeRequest {
            start: state.start,
            end_inclusive: state.end_inclusive,
        },
        FetchPhase::Creating => FetchAction::CreateTempFile,
        FetchPhase::Streaming => FetchAction::WriteNextChunk,
        FetchPhase::Verifying => FetchAction::FlushAndStat,
        FetchPhase::Complete => FetchAction::Finish(Ok(())),
        FetchPhase::Failed(failure) => FetchAction::Finish(Err(failure)),
    }
}

/// A part whose temp file already has exactly the expected size is complete
/// at once: its counter shows the whole part, the attempt ends well, and no
/// request is ever asked for, whatever is reported afterwards.
pub proof fn lemma_idempotent_restart(start: u64, end_inclusive: u64, later: FetchEvent)
    requires
        start <= end_inclusive,
        end_inclusive - start < u64::MAX,
    ensures
        ({
            let begun = FetchState { start, end_inclusive, written: 0, phase: FetchPhase::Checking };
            let size = (end_inclusive - start + 1) as u64;
            let checked = begun.next(FetchEvent::TempFileSize(Some(size)));
            &&& begun.pending() == FetchAction::StatTempFile
            &&& checked.phase is Complete
            &&& checked.written == size
            &&& checked.pending() == FetchAction::Finish(Ok(()))
            &&& checked.next(later) == checked
        }),
{
}

/// An attempt becomes complete in two ways only: the temp file found at the
/// start has exactly the expected size, or the temp file written from a 206
/// response has exactly the expected size once the body has ended and the
/// file is flushed.
pub proof fn lemma_complete_means_exact_size(state: FetchState, event: FetchEvent)
    requires
        state.well_formed(),
        !(state.phase is Complete),
        state.next(event).phase is Complete,
    ensures
        (state.phase is Checking && event == FetchEvent::TempFileSize(
            Some(state.expected() as u64),
        ) && state.next(event).written == state.expected()) || (state.phase is Verifying && event
            == FetchEvent::FinalSize(state.expected() as u64) && state.next(event).written
            == state.written),
{
}

/// The error of an attempt that the server answered with the wrong status;
/// `status_text` is the status as the transport shows it.
pub fn unexpected_status_error(status_text: &str) -> (error: ProgramError)
    ensures
        error matches ProgramError::Other(text) && text@
            == "Expected 206 Partial Content, got "@ + status_text@,
{
    let mut text = String::new();
    text.append("Expected 206 Partial Content, got ");
    text.append(status_text);
    ProgramError::Other(text)
}

/// The error of an attempt whose temp file ended with the wrong size.
pub fn size_mismatch_error(expected: u64, got: u64) -> (error: ProgramError)
    ensures
        error matches ProgramError::ArgNotValid(text) && text@ == "Size mismatch: expected "@
            + decimal_text(expected as nat) + " got "@ + decimal_text(got as nat),
{
    let mut text = String::new();
    text.append("Size mismatch: expected ");
    append_decimal(&mut text, expected);
    text.append(" got ");
    append_decimal(&mut text, got);
    ProgramError::ArgNotValid(text)
}

} // verus!
