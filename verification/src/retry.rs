//! The retry supervisor: a bounded number of attempts per part, with a delay
//! between them that doubles each time, and a reset of the part before every
//! attempt but the first.

use crate::error::{PartFailure, ProgramError};
use vstd::arithmetic::mul::*;
use vstd::arithmetic::power2::*;
use vstd::prelude::*;

verus! {

/// The delay before the attempt that follows attempt number `attempt`:
/// the base delay doubled once per earlier attempt.
pub open spec fn backoff_ms(base_delay_ms: u64, attempt: u32) -> nat {
    base_delay_ms as nat * pow2((attempt - 1) as nat)
}

proof fn lemma_backoff_grows(base_delay_ms: u64, earlier: u32, later: u32)
    requires
        1 <= earlier <= later,
    ensures
        backoff_ms(base_delay_ms, earlier) <= backoff_ms(base_delay_ms, later),
{
    if earlier < later {
        lemma_pow2_strictly_increases((earlier - 1) as nat, (later - 1) as nat);
    }
    lemma_mul_inequality(
        pow2((earlier - 1) as nat) as int,
        pow2((later - 1) as nat) as int,
        base_delay_ms as int,
    );
    lemma_mul_is_commutative(base_delay_ms as int, pow2((earlier - 1) as nat) as int);
    lemma_mul_is_commutative(base_delay_ms as int, pow2((later - 1) as nat) as int);
}

/// Computes the backoff delay in milliseconds; `None` when it does not fit 64 bits.
pub fn backoff_delay(base_delay_ms: u64, attempt: u32) -> (delay: Option<u64>)
    requires
        attempt >= 1,
    ensures
        match delay {
            Some(ms) => ms == backoff_ms(base_delay_ms, attempt),
            None => backoff_ms(base_delay_ms, attempt) > u64::MAX,
        },
{
    if base_delay_ms == 0 {
        assert(backoff_ms(base_delay_ms, attempt) == 0) by {
            lemma_mul_basics(pow2((attempt - 1) as nat) as int);
        }
        return Some(0);
    }
    let mut delay: u64 = base_delay_ms;
    let mut doubled: u32 = 1;
    assert(backoff_ms(base_delay_ms, 1) == base_delay_ms) by {
        lemma2_to64();
        lemma_mul_basics(base_delay_ms as int);
    }
    while doubled < attempt
        invariant
            1 <= doubled <= attempt,
            base_delay_ms >= 1,
            delay == backoff_ms(base_delay_ms, doubled),
            delay >= 1,
        decreases attempt - doubled,
    {
        proof {
            lemma_pow2_unfold(doubled as nat);
            lemma_mul_is_associative(
                base_delay_ms as int,
                2,
                pow2((doubled - 1) as nat) as int,
            );
            assert(backoff_ms(base_delay_ms, (doubled + 1) as u32) == 2 * backoff_ms(
                base_delay_ms,
                doubled,
            )) by {
                assert(base_delay_ms as int * (2 * pow2((doubled - 1) as nat) as int) == 2 * (
                base_delay_ms as int * pow2((doubled - 1) as nat) as int)) by (nonlinear_arith);
            }
            lemma_backoff_grows(base_delay_ms, (doubled + 1) as u32, attempt);
        }
        delay = match delay.checked_mul(2) {
            Some(d) => d,
            None => {
                return None;
            },
        };
        doubled += 1;
    }
    Some(delay)
}

/// Where the supervision of a part stands.
#[derive(Clone, Copy, Debug, PartialEq, Eq)]
pub enum RetryPhase {
    /// An attempt is running.
    InFlight,
    /// The last attempt failed and another is due after the backoff.
    Waiting,
    /// An attempt succeeded.
    Complete,
    /// No attempt is left.
    Exhausted,
}

/// The supervision of one part: up to `max_retries` attempts, with a delay
/// that doubles from `base_delay_ms` between them.
#[derive(Clone, Copy, Debug, PartialEq, Eq)]
pub struct RetryState {
    /// Number of attempts allowed.
    pub max_retries: u32,
    /// Delay after the first failed attempt, in milliseconds.
    pub base_delay_ms: u64,
    /// Number of the attempt that runs or ran last, counted from 1; 0 when none was made.
    pub attempt: u32,
    pub phase: RetryPhase,
}

/// What the driver reports back to the supervisor.
#[derive(Clone, Copy, Debug, PartialEq, Eq)]
pub enum RetryEvent {
    /// The running attempt fetched the part.
    AttemptSucceeded,
    /// The running attempt failed.
    AttemptFailed,
    /// The backoff delay has passed.
    Slept,
}

/// What the supervisor asks the driver to do next.
#[derive(Clone, Copy, Debug, PartialEq, Eq)]
pub enum RetryAction {
    /// Run an attempt. With `reset`, first set the part's progress counter to
    /// 0 and delete whatever the temp file holds.
    RunAttempt { reset: bool },
    /// Wait for so many milliseconds.
    Sleep(u64),
    /// The part is done; `false` when every attempt failed or none was allowed.
    Finish(bool),
}

impl RetryState {
    /// The attempt number matches the phase, and a pending delay fits 64 bits.
    pub open spec fn well_formed(self) -> bool {
        match self.phase {
            RetryPhase::InFlight => 1 <= self.attempt <= self.max_retries,
            RetryPhase::Waiting => 1 <= self.attempt < self.max_retries && backoff_ms(
                self.base_delay_ms,
                self.attempt,
            ) <= u64::MAX,
            RetryPhase::Complete => 1 <= self.attempt <= self.max_retries,
            RetryPhase::Exhausted => self.attempt == self.max_retries,
        }
    }

    /// The state that follows `self` on `event`. An event that does not answer
    /// the pending action changes nothing.
    pub open spec fn next(self, event: RetryEvent) -> RetryState {
        match (self.phase, event) {
            (RetryPhase::InFlight, RetryEvent::AttemptSucceeded) => RetryState {
                phase: RetryPhase::Complete,
                ..self
            },
            (RetryPhase::InFlight, RetryEvent::AttemptFailed) => {
                if self.attempt >= self.max_retries {
                    RetryState { phase: RetryPhase::Exhausted, ..self }
                } else {
                    RetryState { phase: RetryPhase::Waiting, ..self }
                }
            },
            (RetryPhase::Waiting, RetryEvent::Slept) => RetryState {
                attempt: (self.attempt + 1) as u32,
                phase: RetryPhase::InFlight,
                ..self
            },
            _ => self,
        }
    }

    /// The action that the state waits for.
    pub open spec fn pending(self) -> RetryAction {
        match self.phase {
            RetryPhase::InFlight => RetryAction::RunAttempt { reset: self.attempt > 1 },
            RetryPhase::Waiting => RetryAction::Sleep(
                backoff_ms(self.base_delay_ms, self.attempt) as u64,
            ),
            RetryPhase::Complete => RetryAction::Finish(true),
            RetryPhase::Exhausted => RetryAction::Finish(false),
        }
    }

    /// The delay that a failure of the running attempt would ask for fits 64 bits.
    pub open spec fn can_wait(self) -> bool {
        self.phase is InFlight && self.attempt < self.max_retries ==> backoff_ms(
            self.base_delay_ms,
            self.attempt,
        ) <= u64::MAX
    }
}

/// Starts the supervision of a part: the first attempt runs at once, unless
/// no attempt is allowed.
pub fn retry_begin(max_retries: u32, base_delay_ms: u64) -> (state: RetryState)
    ensures
        state == (RetryState {
            max_retries,
            base_delay_ms,
            attempt: if max_retries == 0 {
                0u32
            } else {
                1u32
            },
            phase: if max_retries == 0 {
                RetryPhase::Exhausted
            } else {
                RetryPhase::InFlight
            },
        }),
        state.well_formed(),
        max_retries > 0 ==> state.pending() == (RetryAction::RunAttempt { reset: false }),
        max_retries == 0 ==> state.pending() == RetryAction::Finish(false),
{
    if max_retries == 0 {
        RetryState { max_retries, base_delay_ms, attempt: 0, phase: RetryPhase::Exhausted }
    } else {
        RetryState { max_retries, base_delay_ms, attempt: 1, phase: RetryPhase::InFlight }
    }
}

/// Whether a failure of the running attempt can be handed to [`retry_step`]:
/// false only when the delay it would ask for does not fit 64 bits.
pub fn retry_can_wait(state: &RetryState) -> (ok: bool)
    requires
        state.well_formed(),
    ensures
        ok == state.can_wait(),
{
    match state.phase {
        RetryPhase::InFlight => {
            if state.attempt < state.max_retries {
                backoff_delay(state.base_delay_ms, state.attempt).is_some()
            } else {
                true
            }
        },
        _ => true,
    }
}

/// Advances the supervision by one event.
pub fn retry_step(state: RetryState, event: RetryEvent) -> (next: RetryState)
    requires
        state.well_formed(),
        event is AttemptFailed ==> state.can_wait(),
    ensures
        next == state.next(event),
        next.well_formed(),
        next.max_retries == state.max_retries && next.base_delay_ms == state.base_delay_ms,
        next.attempt == state.attempt || (next.attempt == state.attempt + 1
            && next.pending() == (RetryAction::RunAttempt { reset: true })),
{
    match state.phase {
        RetryPhase::InFlight => match event {
            RetryEvent::AttemptSucceeded => RetryState { phase: RetryPhase::Complete, ..state },
            RetryEvent::AttemptFailed => {
                if state.attempt >= state.max_retries {
                    RetryState { phase: RetryPhase::Exhausted, ..state }
                } else {
                    RetryState { phase: RetryPhase::Waiting, ..state }
                }
            },
            RetryEvent::Slept => state,
        },
        RetryPhase::Waiting => match event {
            RetryEvent::Slept => RetryState {
                attempt: state.attempt + 1,
                phase: RetryPhase::InFlight,
                ..state
            },
            _ => state,
        },
        RetryPhase::Complete => state,
        RetryPhase::Exhausted => state,
    }
}

/// The action that the supervision waits for.
pub fn retry_action(state: &RetryState) -> (action: RetryAction)
    requires
        state.well_formed(),
    ensures
        action == state.pending(),
{
    match state.phase {
        RetryPhase::InFlight => RetryAction::RunAttempt { reset: state.attempt > 1 },
        RetryPhase::Waiting => {
            match backoff_delay(state.base_delay_ms, state.attempt) {
                Some(ms) => RetryAction::Sleep(ms),
                // Not reached: the delay of a waiting state fits.
                None => RetryAction::Sleep(u64::MAX),
            }
        },
        RetryPhase::Complete => RetryAction::Finish(true),
        RetryPhase::Exhausted => RetryAction::Finish(false),
    }
}

/// The failure of a part that is out of attempts: the error of the last
/// attempt under the part's index. Without any attempt the error says so.
pub fn exhausted_failure(part: usize, last_error: Option<ProgramError>) -> (failure: PartFailure)
    ensures
        failure.part == part,
        match last_error {
            Some(error) => failure.error == error,
            None => failure.error matches ProgramError::Other(text) && text@
                == "no attempts made"@,
        },
{
    match last_error {
        Some(error) => PartFailure { part, error },
        None => {
            let mut text = String::new();
            text.append("no attempts made");
            PartFailure { part, error: ProgramError::Other(text) }
        },
    }
}

/// Every attempt after the first begins from nothing: it follows a backoff
/// of the base delay doubled once per earlier attempt, and it is asked for
/// with a reset of the progress counter and of the temp file.
pub proof fn lemma_retry_resets(state: RetryState, event: RetryEvent)
    requires
        state.well_formed(),
        state.next(event).attempt != state.attempt,
    ensures
        state.pending() == RetryAction::Sleep(backoff_ms(state.base_delay_ms, state.attempt) as u64),
        event is Slept,
        state.next(event).attempt == state.attempt + 1,
        state.next(event).pending() == (RetryAction::RunAttempt { reset: true }),
{
}

/// The first attempt runs without a reset, and a part is given up exactly
/// when the attempt that failed was the last one allowed.
pub proof fn lemma_retry_bounds(state: RetryState, event: RetryEvent)
    requires
        state.well_formed(),
        event is AttemptFailed ==> state.can_wait(),
    ensures
        state.next(event).well_formed(),
        state.next(event).attempt <= state.max_retries,
        state.pending() == (RetryAction::RunAttempt { reset: false }) <==> (state.phase is InFlight
            && state.attempt == 1),
        !(state.phase is Exhausted) && state.next(event).phase is Exhausted <==> (state.phase
            is InFlight && event is AttemptFailed && state.attempt == state.max_retries),
{
}

} // verus!
