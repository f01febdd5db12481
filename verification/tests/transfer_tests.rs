use tunnel::presets::{default_config, low_resource_config, performance_config};
use tunnel::protocol::stream_download::{StreamDownloadBuilder, StreamDownloadProtocol};
use tunnel::transfer::errors::TransferError;
use tunnel::transfer::queue::{handle_event, report_after, try_execute_next, ExecutionStep, TaskExecuteInnerEvent};
use tunnel::transfer::scheduler::TaskManager;
use tunnel::transfer::store::TaskStore;
use tunnel::transfer::task::TransferTask;
use tunnel::transfer::types::{TransferConfig, TransferId, TransferState};
use tunnel::utils::retry::{after_attempt, default_max_attempts, default_should_retry, linear_delay_nanos, no_attempt_result, RetryStep};

#[test]
fn presets_hold_their_settings() {
    let d = default_config();
    assert_eq!((d.max_concurrent, d.buffer_size, d.progress_interval_ms, d.batch_progress), (1, 2 * 1024 * 1024, 1000, false));
    let p = performance_config();
    assert_eq!((p.max_concurrent, p.buffer_size, p.progress_interval_ms, p.batch_progress), (10, 16 * 1024 * 1024, 500, true));
    let l = low_resource_config();
    assert_eq!((l.max_concurrent, l.buffer_size, l.progress_interval_ms, l.batch_progress), (3, 2 * 1024 * 1024, 1, false));
    assert!(p.source.is_empty() && p.headers.is_empty());
}

#[test]
fn stream_download_builder_context() {
    let mut config = TransferConfig::default();
    config.source = "http://h/file".to_string();
    let b = StreamDownloadBuilder { config };
    let ctx = b.build_context();
    assert_eq!(ctx.source, "http://h/file");
    let _p: StreamDownloadProtocol = b.build_protocol();
}

#[test]
fn store_queue_is_first_in_first_out() {
    let mut store = TaskStore::new();
    let a = TransferTask::new(TransferId(1), 0);
    let b = TransferTask::new(TransferId(2), 0);
    store.add_task(a);
    store.add_task(b);
    assert!(store.has_next_task());
    assert_eq!(store.get_next_pending(), Some(TransferId(1)));
    assert_eq!(store.get_next_pending(), Some(TransferId(2)));
    assert_eq!(store.get_next_pending(), None);
}

#[test]
fn queue_reports_change_states() {
    let mut store = TaskStore::new();
    store.add_task(TransferTask::new(TransferId(1), 0));
    store.add_task(TransferTask::new(TransferId(2), 0));
    assert_eq!(try_execute_next(&mut store, 1), Some(TransferId(1)));
    assert_eq!(try_execute_next(&mut store, 0), None);
    let change = handle_event(&mut store, TaskExecuteInnerEvent::Started { id: TransferId(1), from: TransferState::Queued }, 5);
    assert_eq!((change.from, change.to), (TransferState::Queued, TransferState::Transferring));
    assert_eq!(store.get_task(TransferId(1)).unwrap().state, TransferState::Transferring);
    assert_eq!(store.get_task(TransferId(1)).unwrap().started_at, Some(5));
    let change = handle_event(&mut store, TaskExecuteInnerEvent::Completed { id: TransferId(1), from: TransferState::Transferring }, 9);
    assert_eq!(change.to, TransferState::Completed);
    assert_eq!(store.get_task(TransferId(1)).unwrap().completed_at, Some(9));
    let change = handle_event(
        &mut store,
        TaskExecuteInnerEvent::Failed { id: TransferId(2), reason: "disk".to_string(), from: TransferState::Queued },
        10,
    );
    assert_eq!(change.reason, Some("disk".to_string()));
    assert_eq!(store.get_task(TransferId(2)).unwrap().state, TransferState::Failed);
}

#[test]
fn store_cancel_forgets_the_task() {
    let mut store = TaskStore::new();
    store.add_task(TransferTask::new(TransferId(3), 0));
    assert!(!store.cancel_task(TransferId(3)));
    assert!(store.get_task(TransferId(3)).is_none());
    assert!(!store.has_next_task());
    assert!(!store.cancel_task(TransferId(4)));
}

#[test]
fn scheduler_respects_capacity_and_order() {
    let mut m = TaskManager::new(1);
    assert!(m.insert_task(TransferId(1), 0).is_ok());
    assert!(m.insert_task(TransferId(2), 0).is_ok());
    // an identifier already in use is refused and changes nothing
    assert!(matches!(m.insert_task(TransferId(1), 5), Err(TransferError::Other(_))));
    assert_eq!(m.schedule(), Some(TransferId(1)));
    assert_eq!(m.schedule(), None);
    m.on_execute(TransferId(1), 3);
    assert!(m.on_completed(TransferId(1), 4));
    let fresh = m.add_task(7).unwrap();
    assert_eq!(m.schedule(), Some(TransferId(2)));
    m.on_execute(TransferId(2), 8);
    // a running transfer that is cancelled gives its token back and frees its permit
    assert_eq!(m.cancel_task(TransferId(2)), Some(TransferId(2)));
    assert_eq!(m.schedule(), Some(fresh));
    assert!(m.insert_task(TransferId(9), 9).is_ok());
    assert_eq!(m.cancel_task(TransferId(9)), None);
    assert_eq!(m.schedule(), None);
}

#[test]
fn retry_decisions() {
    assert_eq!(default_max_attempts(), 3);
    assert!(default_should_retry(&TransferError::Timeout));
    assert!(default_should_retry(&TransferError::Http("x".to_string())));
    assert!(default_should_retry(&TransferError::ServerError { status: 503, message: String::new() }));
    assert!(!default_should_retry(&TransferError::Other("x".to_string())));

    // two timeouts, then a success: three attempts, the value comes back
    let mut attempt = 0;
    let outcomes: Vec<Result<u32, TransferError>> = vec![Err(TransferError::Timeout), Err(TransferError::Timeout), Ok(42)];
    let mut result = None;
    for outcome in outcomes {
        let retryable = match &outcome {
            Err(e) => default_should_retry(e),
            Ok(_) => false,
        };
        match after_attempt(attempt, 3, outcome, retryable) {
            RetryStep::Finish(r) => {
                result = Some(r);
                break;
            }
            RetryStep::Retry { delay_index, next_attempt, .. } => {
                assert_eq!(delay_index, attempt);
                attempt = next_attempt;
            }
        }
    }
    assert_eq!(attempt, 2);
    assert_eq!(result, Some(Ok(42)));

    // timeouts every time: the third error is returned
    let mut attempt = 0;
    let mut count = 0;
    let last = loop {
        count += 1;
        match after_attempt::<()>(attempt, 3, Err(TransferError::Timeout), true) {
            RetryStep::Finish(r) => break r,
            RetryStep::Retry { next_attempt, .. } => attempt = next_attempt,
        }
    };
    assert_eq!(count, 3);
    assert_eq!(last, Err(TransferError::Timeout));

    // an error that is not retried ends at once
    match after_attempt::<()>(0, 3, Err(TransferError::Other("x".to_string())), false) {
        RetryStep::Finish(r) => assert_eq!(r, Err(TransferError::Other("x".to_string()))),
        _ => panic!("retried"),
    }
    assert_eq!(no_attempt_result::<()>(0), Some(Err(TransferError::RetryLimitExceeded)));
    assert_eq!(no_attempt_result::<()>(2), None);
}

#[test]
fn transfer_error_messages() {
    assert_eq!(TransferError::ManagerShutdown.message(), "Manager is shutdown");
    assert_eq!(
        TransferError::protocol_specific("TUS".to_string(), "bad".to_string()).message(),
        "Protocol error: TUS - bad"
    );
    assert_eq!(TransferError::server_error(500, "x".to_string()).message(), "Server error (500): x");
}

#[test]
fn execution_reports_follow_the_steps() {
    let id = TransferId(5);
    match report_after(id, ExecutionStep::PermitAcquired(true)) {
        (Some(TaskExecuteInnerEvent::Started { id: i, from }), true) => {
            assert_eq!(i, id);
            assert_eq!(from, TransferState::Queued);
        }
        _ => panic!("expected a start"),
    }
    match report_after(id, ExecutionStep::PermitAcquired(false)) {
        (Some(TaskExecuteInnerEvent::Failed { reason, from, .. }), false) => {
            assert_eq!(reason, "Failed to acquire semaphore");
            assert_eq!(from, TransferState::Queued);
        }
        _ => panic!("expected a failure"),
    }
    assert!(matches!(report_after(id, ExecutionStep::Initialized(Ok(()))), (None, true)));
    match report_after(id, ExecutionStep::Initialized(Err("no file".to_string()))) {
        (Some(TaskExecuteInnerEvent::Failed { reason, from, .. }), false) => {
            assert_eq!(reason, "no file");
            assert_eq!(from, TransferState::Transferring);
        }
        _ => panic!("expected a failure"),
    }
    assert!(matches!(
        report_after(id, ExecutionStep::Executed(Ok(()))),
        (Some(TaskExecuteInnerEvent::Completed { from: TransferState::Transferring, .. }), false)
    ));
}

#[test]
fn linear_delay_grows_by_the_increment_up_to_the_cap() {
    let second: u128 = 1_000_000_000;
    assert_eq!(linear_delay_nanos(second, second / 2, 3 * second, 0), second);
    assert_eq!(linear_delay_nanos(second, second / 2, 3 * second, 2), 2 * second);
    assert_eq!(linear_delay_nanos(second, second / 2, 3 * second, 4), 3 * second);
    assert_eq!(linear_delay_nanos(second, second / 2, 3 * second, 10), 3 * second);
    assert_eq!(linear_delay_nanos(0, 7, u128::MAX, 3), 21);
}
