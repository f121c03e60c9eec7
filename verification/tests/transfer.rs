use oxidown::download::{
    aggregate_progress, first_failure, single_action, single_begin, single_step, total_progress,
    unsuccessful_status_error, ProgressReport, SingleAction, SingleFailure, PROGRESS_INTERVAL_MS,
};
use oxidown::fetch::{
    fetch_action, fetch_begin, fetch_step, size_mismatch_error, unexpected_status_error,
    FetchAction, FetchEvent, FetchFailure, FetchPhase,
};
use oxidown::retry::{
    backoff_delay, exhausted_failure, retry_action, retry_begin, retry_can_wait, retry_step,
    RetryAction, RetryEvent, RetryPhase,
};
use oxidown::error::{PartFailure, ProgramError};

#[test]
fn fetch_streams_a_part_and_verifies_its_size() {
    let mut state = fetch_begin(333, 665);
    let mut actions = vec![fetch_action(&state)];
    let mut counter = vec![state.written];
    let events = [
        FetchEvent::TempFileSize(None),
        FetchEvent::Response(206),
        FetchEvent::FileCreated,
        FetchEvent::ChunkWritten(100),
        FetchEvent::ChunkWritten(200),
        FetchEvent::ChunkWritten(33),
        FetchEvent::BodyEnded,
        FetchEvent::FinalSize(333),
    ];
    for event in events {
        state = fetch_step(state, event);
        actions.push(fetch_action(&state));
        counter.push(state.written);
    }
    assert_eq!(
        actions,
        vec![
            FetchAction::StatTempFile,
            FetchAction::SendRangeRequest { start: 333, end_inclusive: 665 },
            FetchAction::CreateTempFile,
            FetchAction::WriteNextChunk,
            FetchAction::WriteNextChunk,
            FetchAction::WriteNextChunk,
            FetchAction::WriteNextChunk,
            FetchAction::FlushAndStat,
            FetchAction::Finish(Ok(())),
        ]
    );
    assert_eq!(counter, vec![0, 0, 0, 0, 100, 300, 333, 333, 333]);
}

#[test]
fn idempotent_restart_issues_no_request() {
    let state = fetch_begin(333, 665);
    assert_eq!(fetch_action(&state), FetchAction::StatTempFile);
    let state = fetch_step(state, FetchEvent::TempFileSize(Some(333)));
    assert_eq!(state.phase, FetchPhase::Complete);
    assert_eq!(state.written, 333);
    assert_eq!(fetch_action(&state), FetchAction::Finish(Ok(())));
    assert_eq!(fetch_step(state, FetchEvent::Response(206)), state);
}

#[test]
fn temp_file_of_another_size_is_fetched_again() {
    for size in [Some(0), Some(332), Some(334), None] {
        let state = fetch_step(fetch_begin(333, 665), FetchEvent::TempFileSize(size));
        assert_eq!(state.written, 0);
        assert_eq!(
            fetch_action(&state),
            FetchAction::SendRangeRequest { start: 333, end_inclusive: 665 }
        );
    }
}

#[test]
fn status_other_than_partial_content_fails_the_attempt() {
    for status in [200u16, 416, 500, 205, 207] {
        let state = fetch_step(fetch_begin(0, 9), FetchEvent::TempFileSize(None));
        let state = fetch_step(state, FetchEvent::Response(status));
        assert_eq!(fetch_action(&state), FetchAction::Finish(Err(FetchFailure::UnexpectedStatus)));
    }
}

#[test]
fn truncated_body_is_a_size_mismatch() {
    let mut state = fetch_begin(0, 9);
    for event in [
        FetchEvent::TempFileSize(None),
        FetchEvent::Response(206),
        FetchEvent::FileCreated,
        FetchEvent::ChunkWritten(4),
        FetchEvent::BodyEnded,
        FetchEvent::FinalSize(4),
    ] {
        state = fetch_step(state, event);
    }
    assert_eq!(
        fetch_action(&state),
        FetchAction::Finish(Err(FetchFailure::SizeMismatch { got: 4 }))
    );
    assert_eq!(state.written, 4);
}

#[test]
fn failure_of_any_action_aborts_the_attempt() {
    let begun = fetch_begin(0, 9);
    let requesting = fetch_step(begun, FetchEvent::TempFileSize(None));
    let creating = fetch_step(requesting, FetchEvent::Response(206));
    let streaming = fetch_step(creating, FetchEvent::FileCreated);
    let verifying = fetch_step(streaming, FetchEvent::BodyEnded);
    for state in [begun, requesting, creating, streaming, verifying] {
        let failed = fetch_step(state, FetchEvent::Failed);
        assert_eq!(fetch_action(&failed), FetchAction::Finish(Err(FetchFailure::Aborted)));
        assert_eq!(fetch_step(failed, FetchEvent::Response(206)), failed);
    }
}

#[test]
fn fetch_ignores_events_out_of_turn() {
    let begun = fetch_begin(0, 9);
    assert_eq!(fetch_step(begun, FetchEvent::Response(206)), begun);
    assert_eq!(fetch_step(begun, FetchEvent::ChunkWritten(5)), begun);
    assert_eq!(fetch_step(begun, FetchEvent::FinalSize(10)), begun);
    let requesting = fetch_step(begun, FetchEvent::TempFileSize(None));
    assert_eq!(fetch_step(requesting, FetchEvent::TempFileSize(Some(10))), requesting);
    assert_eq!(fetch_step(requesting, FetchEvent::BodyEnded), requesting);
}

#[test]
fn fetch_errors_say_what_went_wrong() {
    match unexpected_status_error("200 OK") {
        ProgramError::Other(text) => assert_eq!(text, "Expected 206 Partial Content, got 200 OK"),
        other => panic!("unexpected error {:?}", other),
    }
    match size_mismatch_error(333, 120) {
        ProgramError::ArgNotValid(text) => assert_eq!(text, "Size mismatch: expected 333 got 120"),
        other => panic!("unexpected error {:?}", other),
    }
    match unsuccessful_status_error("404 Not Found") {
        ProgramError::Other(text) => assert_eq!(text, "GET failed with status 404 Not Found"),
        other => panic!("unexpected error {:?}", other),
    }
}

#[test]
fn retry_resets_the_part_before_the_second_attempt() {
    let mut retry = retry_begin(3, 1000);
    assert_eq!(retry_action(&retry), RetryAction::RunAttempt { reset: false });

    let mut fetch = fetch_begin(0, 99);
    for event in [
        FetchEvent::TempFileSize(None),
        FetchEvent::Response(206),
        FetchEvent::FileCreated,
        FetchEvent::ChunkWritten(60),
        FetchEvent::Failed,
    ] {
        fetch = fetch_step(fetch, event);
    }
    assert_eq!(fetch.written, 60);
    assert_eq!(fetch_action(&fetch), FetchAction::Finish(Err(FetchFailure::Aborted)));

    assert!(retry_can_wait(&retry));
    retry = retry_step(retry, RetryEvent::AttemptFailed);
    assert_eq!(retry_action(&retry), RetryAction::Sleep(1000));
    retry = retry_step(retry, RetryEvent::Slept);
    assert_eq!(retry_action(&retry), RetryAction::RunAttempt { reset: true });
    assert_eq!(retry.attempt, 2);

    let mut fetch = fetch_begin(0, 99);
    assert_eq!(fetch.written, 0);
    let mut seen = vec![fetch.written];
    for event in [
        FetchEvent::TempFileSize(None),
        FetchEvent::Response(206),
        FetchEvent::FileCreated,
        FetchEvent::ChunkWritten(60),
        FetchEvent::ChunkWritten(40),
        FetchEvent::BodyEnded,
        FetchEvent::FinalSize(100),
    ] {
        fetch = fetch_step(fetch, event);
        seen.push(fetch.written);
    }
    assert_eq!(seen, vec![0, 0, 0, 0, 60, 100, 100, 100]);
    assert_eq!(fetch_action(&fetch), FetchAction::Finish(Ok(())));

    retry = retry_step(retry, RetryEvent::AttemptSucceeded);
    assert_eq!(retry.phase, RetryPhase::Complete);
    assert_eq!(retry_action(&retry), RetryAction::Finish(true));
}

#[test]
fn retry_backs_off_exponentially_and_gives_up_after_the_last_attempt() {
    let mut retry = retry_begin(4, 250);
    let mut actions = vec![retry_action(&retry)];
    for event in [
        RetryEvent::AttemptFailed,
        RetryEvent::Slept,
        RetryEvent::AttemptFailed,
        RetryEvent::Slept,
        RetryEvent::AttemptFailed,
        RetryEvent::Slept,
        RetryEvent::AttemptFailed,
    ] {
        assert!(retry_can_wait(&retry));
        retry = retry_step(retry, event);
        actions.push(retry_action(&retry));
    }
    assert_eq!(
        actions,
        vec![
            RetryAction::RunAttempt { reset: false },
            RetryAction::Sleep(250),
            RetryAction::RunAttempt { reset: true },
            RetryAction::Sleep(500),
            RetryAction::RunAttempt { reset: true },
            RetryAction::Sleep(1000),
            RetryAction::RunAttempt { reset: true },
            RetryAction::Finish(false),
        ]
    );
    assert_eq!(retry.attempt, 4);
    assert_eq!(retry.phase, RetryPhase::Exhausted);
    assert_eq!(retry_step(retry, RetryEvent::Slept), retry);
}

#[test]
fn retry_with_one_attempt_never_sleeps() {
    let retry = retry_begin(1, 1000);
    assert_eq!(retry_action(&retry), RetryAction::RunAttempt { reset: false });
    let retry = retry_step(retry, RetryEvent::AttemptFailed);
    assert_eq!(retry_action(&retry), RetryAction::Finish(false));
}

#[test]
fn retry_without_attempts_fails_at_once() {
    let retry = retry_begin(0, 1000);
    assert_eq!(retry.phase, RetryPhase::Exhausted);
    assert_eq!(retry_action(&retry), RetryAction::Finish(false));
    let failure = exhausted_failure(4, None);
    assert_eq!(failure.part, 4);
    match failure.error {
        ProgramError::Other(text) => assert_eq!(text, "no attempts made"),
        other => panic!("unexpected error {:?}", other),
    }
}

#[test]
fn retry_ignores_events_out_of_turn() {
    let running = retry_begin(3, 10);
    assert_eq!(retry_step(running, RetryEvent::Slept), running);
    let waiting = retry_step(running, RetryEvent::AttemptFailed);
    assert_eq!(retry_step(waiting, RetryEvent::AttemptFailed), waiting);
    assert_eq!(retry_step(waiting, RetryEvent::AttemptSucceeded), waiting);
    let done = retry_step(running, RetryEvent::AttemptSucceeded);
    assert_eq!(retry_step(done, RetryEvent::AttemptFailed), done);
}

#[test]
fn exhausted_failure_carries_the_part_and_the_last_error() {
    let failure = exhausted_failure(2, Some(ProgramError::Http("timed out".to_string())));
    assert_eq!(failure.part, 2);
    match &failure.error {
        ProgramError::Http(text) => assert_eq!(text, "timed out"),
        other => panic!("unexpected error {:?}", other),
    }
    assert_eq!(failure.message(), "part 2 failed: HTTP error: timed out");
}

#[test]
fn backoff_doubles_per_attempt() {
    assert_eq!(backoff_delay(1000, 1), Some(1000));
    assert_eq!(backoff_delay(1000, 2), Some(2000));
    assert_eq!(backoff_delay(1000, 3), Some(4000));
    assert_eq!(backoff_delay(1000, 50), Some(1000 * (1u64 << 49)));
    assert_eq!(backoff_delay(1, 64), Some(1u64 << 63));
    assert_eq!(backoff_delay(3, 11), Some(3072));
}

#[test]
fn backoff_that_does_not_fit_is_none() {
    assert_eq!(backoff_delay(1, 65), None);
    assert_eq!(backoff_delay(u64::MAX, 2), None);
    assert_eq!(backoff_delay(u64::MAX, 1), Some(u64::MAX));
    assert_eq!(backoff_delay(1000, 60), None);
    assert_eq!(backoff_delay(0, u32::MAX), Some(0));
    assert_eq!(backoff_delay(0, 1), Some(0));
    let first = retry_begin(100, u64::MAX);
    assert!(retry_can_wait(&first));
    let waiting = retry_step(first, RetryEvent::AttemptFailed);
    assert_eq!(retry_action(&waiting), RetryAction::Sleep(u64::MAX));
    let second = retry_step(waiting, RetryEvent::Slept);
    assert!(!retry_can_wait(&second));
    let last = retry_step(retry_begin(2, u64::MAX), RetryEvent::AttemptFailed);
    let last = retry_step(last, RetryEvent::Slept);
    assert!(retry_can_wait(&last));
}

#[test]
fn progress_is_the_sum_of_the_counters() {
    assert_eq!(total_progress(&[]), Some(0));
    assert_eq!(total_progress(&[5]), Some(5));
    assert_eq!(total_progress(&[333, 0, 120]), Some(453));
    assert_eq!(total_progress(&[u64::MAX, 0]), Some(u64::MAX));
    assert_eq!(total_progress(&[u64::MAX, 1]), None);
    assert_eq!(total_progress(&[1, u64::MAX, 0]), None);
}

#[test]
fn aggregator_reports_and_polls_until_the_total_is_reached() {
    assert_eq!(PROGRESS_INTERVAL_MS, 100);
    assert_eq!(
        aggregate_progress(&[333, 0, 120], 1000, false),
        Some(ProgressReport { position: 453, next_poll_ms: Some(100) })
    );
    assert_eq!(
        aggregate_progress(&[333, 333, 334], 1000, false),
        Some(ProgressReport { position: 1000, next_poll_ms: None })
    );
    assert_eq!(
        aggregate_progress(&[333, 333, 400], 1000, false),
        Some(ProgressReport { position: 1066, next_poll_ms: None })
    );
}

#[test]
fn aggregator_with_unknown_total_stops_only_when_told() {
    assert_eq!(
        aggregate_progress(&[10, 20], 0, false),
        Some(ProgressReport { position: 30, next_poll_ms: Some(100) })
    );
    assert_eq!(
        aggregate_progress(&[], 0, false),
        Some(ProgressReport { position: 0, next_poll_ms: Some(100) })
    );
    assert_eq!(
        aggregate_progress(&[10, 20], 0, true),
        Some(ProgressReport { position: 30, next_poll_ms: None })
    );
    assert_eq!(
        aggregate_progress(&[1], 1000, true),
        Some(ProgressReport { position: 1, next_poll_ms: None })
    );
    assert_eq!(aggregate_progress(&[u64::MAX, 1], 1000, true), None);
}

fn failure(part: usize, text: &str) -> PartFailure {
    PartFailure { part, error: ProgramError::Http(text.to_string()) }
}

#[test]
fn overall_result_is_the_first_failure() {
    assert!(first_failure(Vec::new()).is_ok());
    assert!(first_failure(vec![Ok(()), Ok(()), Ok(())]).is_ok());
    let outcome =
        first_failure(vec![Ok(()), Err(failure(2, "first")), Ok(()), Err(failure(0, "second"))]);
    let failed = outcome.unwrap_err();
    assert_eq!(failed.part, 2);
    assert_eq!(failed.error.message(), "HTTP error: first");
}

#[test]
fn single_stream_writes_straight_to_the_output() {
    let mut state = single_begin();
    let mut actions = vec![single_action(&state)];
    for event in [
        FetchEvent::Response(200),
        FetchEvent::FileCreated,
        FetchEvent::ChunkWritten(700),
        FetchEvent::ChunkWritten(300),
        FetchEvent::BodyEnded,
    ] {
        state = single_step(state, event);
        actions.push(single_action(&state));
    }
    assert_eq!(
        actions,
        vec![
            SingleAction::SendRequest,
            SingleAction::CreateOutputFile,
            SingleAction::WriteNextChunk,
            SingleAction::WriteNextChunk,
            SingleAction::WriteNextChunk,
            SingleAction::Finish(Ok(())),
        ]
    );
    assert_eq!(state.received, 1000);
}

#[test]
fn single_stream_needs_a_success_status() {
    for status in [199u16, 300, 404, 500, 0] {
        let state = single_step(single_begin(), FetchEvent::Response(status));
        assert_eq!(
            single_action(&state),
            SingleAction::Finish(Err(SingleFailure::UnsuccessfulStatus))
        );
    }
    for status in [200u16, 204, 206, 299] {
        let state = single_step(single_begin(), FetchEvent::Response(status));
        assert_eq!(single_action(&state), SingleAction::CreateOutputFile);
    }
}

#[test]
fn single_stream_aborts_on_failure_and_ignores_the_rest() {
    let begun = single_begin();
    assert_eq!(single_step(begun, FetchEvent::TempFileSize(Some(5))), begun);
    assert_eq!(single_step(begun, FetchEvent::FinalSize(5)), begun);
    assert_eq!(single_step(begun, FetchEvent::ChunkWritten(5)), begun);
    let streaming =
        single_step(single_step(begun, FetchEvent::Response(200)), FetchEvent::FileCreated);
    let counted = single_step(streaming, FetchEvent::ChunkWritten(9));
    let failed = single_step(counted, FetchEvent::Failed);
    assert_eq!(single_action(&failed), SingleAction::Finish(Err(SingleFailure::Aborted)));
    assert_eq!(failed.received, 9);
    assert_eq!(single_step(failed, FetchEvent::BodyEnded), failed);
}
