use rust_web_test::config::{RunConfig, Target};
use rust_web_test::coordinator::{Action, Coordinator, RecordError};
use rust_web_test::outcome::{FailureReason, RequestOutcome};
use rust_web_test::plan::Batch;
use rust_web_test::setup::exit_code;
use rust_web_test::summary::{BatchResult, RunSummary, StatusCounts};

fn ok() -> RequestOutcome {
    RequestOutcome::Completed { status_code: 200 }
}

fn refused() -> RequestOutcome {
    RequestOutcome::Failed { reason: FailureReason::Transport }
}

/// Runs a whole run, answering each request with `answer`, and returns the
/// batches in the order in which they were handed out.
fn drive(
    coordinator: &mut Coordinator,
    answer: fn(usize) -> RequestOutcome,
) -> Vec<(Batch, BatchResult)> {
    let mut launched = Vec::new();
    loop {
        match coordinator.poll() {
            Action::Launch(batch) => {
                let mut closed = None;
                for id in batch.sequence_ids() {
                    assert!(closed.is_none());
                    closed = coordinator.record(id, answer(id)).unwrap();
                }
                launched.push((batch, closed.unwrap()));
            }
            Action::Await { .. } => unreachable!(),
            Action::Finished => return launched,
        }
    }
}

#[test]
fn run_without_requests_finishes_at_once() {
    let mut coordinator = Coordinator::new(0, 3);
    assert!(coordinator.is_finished());
    assert_eq!(coordinator.poll(), Action::Finished);
    assert_eq!(coordinator.poll(), Action::Finished);
    let summary = coordinator.summary();
    assert_eq!(summary.total_sent, 0);
    assert_eq!(summary.total_completed, 0);
    assert_eq!(summary.total_failed, 0);
    assert_eq!(exit_code(&Ok(summary)), 0);
    assert_eq!(coordinator.record(0, ok()), Err(RecordError::NoBatchInFlight));
}

#[test]
fn run_of_ten_in_batches_of_three() {
    let mut coordinator = Coordinator::new(10, 3);
    assert_eq!(coordinator.total_requests(), 10);
    assert_eq!(coordinator.batch_size(), 3);
    let launched = drive(&mut coordinator, |_| ok());
    let sizes: Vec<usize> = launched.iter().map(|(batch, _)| batch.count).collect();
    assert_eq!(sizes, vec![3, 3, 3, 1]);
    let attempted: Vec<usize> =
        launched.iter().map(|(_, result)| result.requests_attempted).collect();
    assert_eq!(attempted, vec![3, 3, 3, 1]);
    let starts: Vec<usize> = launched.iter().map(|(batch, _)| batch.start_id).collect();
    assert_eq!(starts, vec![0, 3, 6, 9]);
    assert!(coordinator.is_finished());
    assert_eq!(
        coordinator.summary(),
        RunSummary {
            total_sent: 10,
            total_completed: 10,
            total_failed: 0,
            elapsed_secs: 0,
            elapsed_nanos: 0
        }
    );
}

#[test]
fn next_batch_waits_for_every_outcome() {
    let mut coordinator = Coordinator::new(5, 3);
    assert_eq!(coordinator.poll(), Action::Launch(Batch { index: 0, start_id: 0, count: 3 }));
    assert_eq!(coordinator.poll(), Action::Await { pending: 3 });
    assert_eq!(coordinator.record(2, ok()), Ok(None));
    assert_eq!(coordinator.poll(), Action::Await { pending: 2 });
    assert_eq!(coordinator.record(0, ok()), Ok(None));
    assert_eq!(coordinator.poll(), Action::Await { pending: 1 });
    assert_eq!(coordinator.summary().total_sent, 0);
    assert!(!coordinator.is_finished());
    let closed = coordinator.record(1, ok()).unwrap().unwrap();
    assert_eq!(closed.requests_attempted, 3);
    assert_eq!(coordinator.summary().total_sent, 3);
    assert_eq!(coordinator.poll(), Action::Launch(Batch { index: 1, start_id: 3, count: 2 }));
    assert_eq!(coordinator.poll(), Action::Await { pending: 2 });
    assert_eq!(coordinator.record(3, ok()), Ok(None));
    assert!(!coordinator.is_finished());
    assert!(coordinator.record(4, ok()).unwrap().is_some());
    assert!(coordinator.is_finished());
    assert_eq!(coordinator.poll(), Action::Finished);
}

#[test]
fn reports_that_do_not_fit_are_refused() {
    let mut coordinator = Coordinator::new(7, 3);
    assert_eq!(coordinator.record(0, ok()), Err(RecordError::NoBatchInFlight));
    assert_eq!(coordinator.poll(), Action::Launch(Batch { index: 0, start_id: 0, count: 3 }));
    assert_eq!(coordinator.record(3, ok()), Err(RecordError::OutsideBatch));
    assert_eq!(coordinator.record(usize::MAX, ok()), Err(RecordError::OutsideBatch));
    assert_eq!(coordinator.record(1, ok()), Ok(None));
    assert_eq!(coordinator.record(1, refused()), Err(RecordError::AlreadyRecorded));
    assert_eq!(coordinator.poll(), Action::Await { pending: 2 });
    assert_eq!(coordinator.record(0, ok()), Ok(None));
    assert!(coordinator.record(2, ok()).unwrap().is_some());
    assert_eq!(coordinator.record(2, ok()), Err(RecordError::NoBatchInFlight));
    assert_eq!(coordinator.poll(), Action::Launch(Batch { index: 1, start_id: 3, count: 3 }));
    assert_eq!(coordinator.record(2, ok()), Err(RecordError::OutsideBatch));
    assert_eq!(coordinator.record(6, ok()), Err(RecordError::OutsideBatch));
    assert_eq!(coordinator.summary().total_completed, 3);
}

#[test]
fn failed_request_stops_neither_batch_nor_run() {
    let mut coordinator = Coordinator::new(10, 3);
    let launched = drive(&mut coordinator, |id| if id == 4 { refused() } else { ok() });
    assert_eq!(launched.len(), 4);
    let (batch, result) = launched[1];
    assert_eq!(batch, Batch { index: 1, start_id: 3, count: 3 });
    assert_eq!(
        result,
        BatchResult {
            requests_attempted: 3,
            completions_by_status_class: StatusCounts {
                informational: 0,
                success: 2,
                redirection: 0,
                client_error: 0,
                server_error: 0,
                other: 0,
            },
            failures: 1,
        }
    );
    let summary = coordinator.summary();
    assert_eq!(summary.total_sent, 10);
    assert_eq!(summary.total_completed, 9);
    assert_eq!(summary.total_failed, 1);
    assert_eq!(exit_code(&Ok(summary)), 0);
}

#[test]
fn run_of_failures_still_sends_everything() {
    let mut coordinator = Coordinator::new(8, 4);
    let launched = drive(&mut coordinator, |_| refused());
    assert_eq!(launched.len(), 2);
    let summary = coordinator.summary();
    assert_eq!(summary.total_sent, 8);
    assert_eq!(summary.total_completed, 0);
    assert_eq!(summary.total_failed, 8);
}

#[test]
fn counts_add_up_at_the_end_of_a_run() {
    for total in 0..40usize {
        for batch_size in 1..9usize {
            let mut coordinator = Coordinator::new(total, batch_size);
            let launched = drive(&mut coordinator, |id| match id % 3 {
                0 => RequestOutcome::Completed { status_code: 200 },
                1 => RequestOutcome::Completed { status_code: 500 },
                _ => RequestOutcome::Failed { reason: FailureReason::Timeout },
            });
            let attempted: usize = launched.iter().map(|(_, result)| result.requests_attempted).sum();
            assert_eq!(attempted, total);
            let summary = coordinator.summary();
            assert_eq!(summary.total_sent, total);
            assert_eq!(summary.total_completed + summary.total_failed, total);
            assert_eq!(summary.total_failed, total / 3);
        }
    }
}

#[test]
fn coordinator_of_a_configured_run() {
    let target = Target::Literal { url: String::from("http://localhost/") };
    let config = RunConfig::new(4, 3, target, None).unwrap();
    let mut coordinator = Coordinator::for_run(&config);
    assert_eq!(coordinator.total_requests(), 4);
    assert_eq!(coordinator.batch_size(), 3);
    let launched = drive(&mut coordinator, |_| ok());
    let sizes: Vec<usize> = launched.iter().map(|(batch, _)| batch.count).collect();
    assert_eq!(sizes, vec![3, 1]);
}

#[test]
fn single_batch_larger_than_the_run() {
    let mut coordinator = Coordinator::new(2, 1000);
    assert_eq!(coordinator.poll(), Action::Launch(Batch { index: 0, start_id: 0, count: 2 }));
    assert_eq!(coordinator.record(1, ok()), Ok(None));
    assert!(coordinator.record(0, refused()).unwrap().is_some());
    assert_eq!(coordinator.poll(), Action::Finished);
}

#[test]
fn order_of_reports_within_a_batch_makes_no_difference() {
    let timeout = RequestOutcome::Failed { reason: FailureReason::Timeout };
    let missing = RequestOutcome::Completed { status_code: 404 };
    let answer = |id: usize| match id {
        0 => ok(),
        1 => timeout,
        _ => missing,
    };
    let mut results = Vec::new();
    for order in [[0usize, 1, 2], [0, 2, 1], [1, 0, 2], [1, 2, 0], [2, 0, 1], [2, 1, 0]] {
        let mut coordinator = Coordinator::new(5, 3);
        assert_eq!(coordinator.poll(), Action::Launch(Batch { index: 0, start_id: 0, count: 3 }));
        assert_eq!(coordinator.record(order[0], answer(order[0])), Ok(None));
        assert_eq!(coordinator.record(order[1], answer(order[1])), Ok(None));
        let closed = coordinator.record(order[2], answer(order[2])).unwrap().unwrap();
        assert_eq!(coordinator.poll(), Action::Launch(Batch { index: 1, start_id: 3, count: 2 }));
        results.push((closed, coordinator.summary()));
    }
    for result in &results {
        assert_eq!(result, &results[0]);
    }
    assert_eq!(results[0].0.failures, 1);
    assert_eq!(results[0].0.completions_by_status_class.success, 1);
    assert_eq!(results[0].0.completions_by_status_class.client_error, 1);
}
