use tunnel::tus::commands::{WorkerCommand, WorkerReply};
use tunnel::tus::errors::TusError;
use tunnel::tus::manager_worker::{FileStat, UploadManagerWorker, UploadOutcome, WorkerAction};
use tunnel::tus::types::{UploadConfig, UploadEvent, UploadId, UploadState};

fn file(len: u64) -> Result<FileStat, TusError> {
    Ok(FileStat { is_file: true, len })
}

fn worker(concurrent: usize) -> UploadManagerWorker {
    let mut config = UploadConfig::default();
    config.concurrent = concurrent;
    UploadManagerWorker::new(config)
}

#[test]
fn upload_goes_from_queue_to_completion() {
    let mut w = worker(2);
    let mut events = Vec::new();
    let id = w.add_upload("a.bin".to_string(), None, file(1024), 10, &mut events).unwrap();
    assert_eq!(w.get_task(id).unwrap().state, UploadState::Queued);
    assert_eq!(w.get_task(id).unwrap().file_size, 1024);

    let req = w.next_start().unwrap();
    assert_eq!(req.upload_id, id);
    assert!(req.needs_url);
    assert_eq!(req.file_size, 1024);

    let started = w.start_upload(id, Some(Ok("http://h/files/1".to_string())), 20, &mut events).unwrap();
    // the worker gets the task as it was handed over, the table shows it running
    assert_eq!(started.state, UploadState::Preparing);
    assert_eq!(started.upload_url, Some("http://h/files/1".to_string()));
    assert_eq!(w.get_task(id).unwrap().state, UploadState::Uploading);
    assert_eq!(w.get_task(id).unwrap().started_at, Some(20));
    assert!(w.next_start().is_none());

    w.finish_upload(id, UploadOutcome::Finished("http://h/files/1".to_string()), 30, &mut events);
    let done = w.get_task(id).unwrap();
    assert_eq!(done.state, UploadState::Completed);
    assert_eq!(done.bytes_uploaded, 1024);
    assert_eq!(done.completed_at, Some(30));
    assert!(events.contains(&UploadEvent::Completed { upload_id: id, upload_url: "http://h/files/1".to_string() }));

    assert_eq!(w.clean(), 1);
    assert!(w.get_task(id).is_none());
}

#[test]
fn adding_rejects_what_is_not_a_file() {
    let mut w = worker(1);
    let mut events = Vec::new();
    let r = w.add_upload("dir".to_string(), None, Ok(FileStat { is_file: false, len: 0 }), 0, &mut events);
    assert_eq!(r, Err(TusError::ParamError("Not a file".to_string())));
    let r = w.add_upload("gone".to_string(), None, Err(TusError::IoError("missing".to_string())), 0, &mut events);
    assert_eq!(r, Err(TusError::IoError("missing".to_string())));
    assert!(w.get_all_tasks().is_empty());
    assert!(events.is_empty());
}

#[test]
fn failed_creation_fails_the_task() {
    let mut w = worker(1);
    let mut events = Vec::new();
    let id = w.add_upload("a".to_string(), None, file(5), 0, &mut events).unwrap();
    w.next_start().unwrap();
    assert!(w.start_upload(id, Some(Err("server down".to_string())), 1, &mut events).is_none());
    let t = w.get_task(id).unwrap();
    assert_eq!(t.state, UploadState::Failed);
    assert_eq!(t.error, Some("server down".to_string()));
    assert!(events.contains(&UploadEvent::Failed { upload_id: id, error: "server down".to_string() }));
}

#[test]
fn pause_and_resume() {
    let mut w = worker(1);
    let mut events = Vec::new();
    let mut actions = Vec::new();
    let a = w.add_upload("a".to_string(), None, file(5), 0, &mut events).unwrap();
    let b = w.add_upload("b".to_string(), None, file(6), 0, &mut events).unwrap();
    w.next_start().unwrap();
    w.start_upload(a, Some(Ok("http://h/1".to_string())), 1, &mut events).unwrap();

    // the running one is cancelled, the waiting one leaves the queue
    assert_eq!(w.pause_upload(a, &mut events, &mut actions), Ok(()));
    assert_eq!(actions, vec![WorkerAction::CancelToken(a)]);
    assert_eq!(w.get_task(a).unwrap().state, UploadState::Paused);
    assert_eq!(w.pause_upload(b, &mut events, &mut actions), Ok(()));
    assert_eq!(w.get_task(b).unwrap().state, UploadState::Paused);
    assert!(w.next_start().is_none());

    // resuming puts them back at the end of the queue, in order
    assert_eq!(w.resume_upload(b, &mut events), Ok(()));
    assert_eq!(w.resume_upload(a, &mut events), Ok(()));
    assert_eq!(w.get_task(a).unwrap().state, UploadState::Queued);
    let next = w.next_start().unwrap();
    assert_eq!(next.upload_id, b);

    // a cancelled upload finishing changes nothing
    w.finish_upload(a, UploadOutcome::Failed(TusError::Cancelled), 2, &mut events);
    assert_eq!(w.get_task(a).unwrap().state, UploadState::Queued);
}

#[test]
fn cancel_forgets_and_deletes_on_the_server() {
    let mut w = worker(1);
    let mut events = Vec::new();
    let mut actions = Vec::new();
    let a = w.add_upload("a".to_string(), None, file(5), 0, &mut events).unwrap();
    w.next_start().unwrap();
    w.start_upload(a, Some(Ok("http://h/1".to_string())), 1, &mut events).unwrap();
    assert_eq!(w.cancel_upload(a, &mut events, &mut actions), Ok(()));
    assert!(w.get_task(a).is_none());
    assert!(actions.contains(&WorkerAction::CancelToken(a)));
    assert!(actions.contains(&WorkerAction::DeleteOnServer("http://h/1".to_string())));
    let missing = UploadId(7);
    assert!(w.cancel_upload(missing, &mut events, &mut actions).is_err());
}

#[test]
fn at_most_the_configured_number_run() {
    let mut w = worker(2);
    let mut events = Vec::new();
    let mut ids = Vec::new();
    for i in 0..4 {
        ids.push(w.add_upload(format!("f{}", i), None, file(10), 0, &mut events).unwrap());
    }
    for _ in 0..2 {
        let req = w.next_start().unwrap();
        w.start_upload(req.upload_id, Some(Ok(format!("http://h/{}", req.upload_id.0))), 1, &mut events).unwrap();
    }
    assert!(w.next_start().is_none());
    let running: Vec<_> = w.get_all_tasks().into_iter().filter(|t| t.state == UploadState::Uploading).collect();
    assert_eq!(running.len(), 2);
    w.finish_upload(ids[0], UploadOutcome::Panicked("boom".to_string()), 2, &mut events);
    assert_eq!(w.get_task(ids[0]).unwrap().state, UploadState::Failed);
    assert_eq!(w.next_start().unwrap().upload_id, ids[2]);
}

#[test]
fn bulk_operations_touch_every_task() {
    let mut w = worker(3);
    let mut events = Vec::new();
    let mut actions = Vec::new();
    let files = vec![
        ("a".to_string(), None, file(1)),
        ("b".to_string(), None, file(2)),
    ];
    let ids = w.batch_add(files, 5, &mut events).unwrap();
    assert_eq!(ids.len(), 2);
    w.pause_all(&mut events, &mut actions);
    assert!(w.get_all_tasks().iter().all(|t| t.state == UploadState::Paused));
    w.resume_all(&mut events);
    assert!(w.get_all_tasks().iter().all(|t| t.state == UploadState::Queued));
    w.cancel_all(&mut events, &mut actions);
    assert!(w.get_all_tasks().is_empty());
}

#[test]
fn restored_tasks_keep_their_state() {
    let mut w = worker(1);
    let mut events = Vec::new();
    let id = w.add_upload("a".to_string(), Some(vec![("k".to_string(), "v".to_string())]), file(9), 3, &mut events).unwrap();
    let saved = w.get_all_tasks();
    let mut fresh = worker(1);
    fresh.restore_state(saved);
    let t = fresh.get_task(id).unwrap();
    assert_eq!(t.file_path, "a");
    assert_eq!(t.metadata, Some(vec![("k".to_string(), "v".to_string())]));
    assert_eq!(t.state, UploadState::Queued);
    assert_eq!(fresh.next_start().unwrap().upload_id, id);
}

#[test]
fn a_running_upload_waits_again_after_restore() {
    let mut w = worker(1);
    let mut events = Vec::new();
    let a = w.add_upload("a".to_string(), None, file(9), 3, &mut events).unwrap();
    let b = w.add_upload("b".to_string(), None, file(4), 3, &mut events).unwrap();
    w.next_start().unwrap();
    w.start_upload(a, Some(Ok("http://h/a".to_string())), 4, &mut events).unwrap();
    let saved = w.get_all_tasks();
    assert_eq!(saved[0].state, UploadState::Uploading);
    let mut fresh = worker(1);
    fresh.restore_state(saved);
    let ta = fresh.get_task(a).unwrap();
    assert_eq!(ta.state, UploadState::Queued);
    assert_eq!(ta.upload_url, Some("http://h/a".to_string()));
    assert_eq!(ta.started_at, Some(4));
    // saved order: a, then b; both wait again, a first
    let first = fresh.next_start().unwrap();
    assert_eq!(first.upload_id, a);
    assert!(!first.needs_url);
    assert_eq!(fresh.get_task(b).unwrap().state, UploadState::Queued);
}

#[test]
fn inserting_a_known_identifier_is_refused() {
    let mut w = worker(1);
    let mut events = Vec::new();
    let id = UploadId(0x42);
    assert!(w.insert_upload(id, "a".to_string(), 3, None, 0, &mut events).is_ok());
    assert_eq!(events.len(), 1);
    let r = w.insert_upload(id, "b".to_string(), 4, None, 1, &mut events);
    assert!(matches!(r, Err(TusError::InternalError(_))));
    assert_eq!(events.len(), 1);
    assert_eq!(w.get_all_tasks().len(), 1);
    assert_eq!(w.get_task(id).unwrap().file_size, 3);
}

#[test]
fn added_identifiers_are_version_four_uuids() {
    let mut w = worker(1);
    let mut events = Vec::new();
    let id = w.add_upload("a".to_string(), None, file(1), 0, &mut events).unwrap();
    assert_eq!((id.0 >> 76) & 0xf, 4);
    assert_eq!((id.0 >> 62) & 0x3, 2);
}

#[test]
fn commands_do_what_their_methods_do() {
    let mut w = worker(1);
    let mut events = Vec::new();
    let mut actions = Vec::new();
    let reply = w.handle_command(
        WorkerCommand::AddUpload { file_path: "a".to_string(), metadata: None, stat: file(5) },
        0,
        &mut events,
        &mut actions,
    );
    let id = match reply {
        WorkerReply::Added(Ok(id)) => id,
        _ => panic!("the file was not added"),
    };
    let reply = w.handle_command(WorkerCommand::PauseUpload { upload_id: id }, 1, &mut events, &mut actions);
    assert!(matches!(reply, WorkerReply::Done(Ok(()))));
    assert_eq!(w.get_task(id).unwrap().state, UploadState::Paused);
    let reply = w.handle_command(WorkerCommand::PauseUpload { upload_id: UploadId(7) }, 1, &mut events, &mut actions);
    assert!(matches!(reply, WorkerReply::Done(Err(TusError::ParamError(_)))));
    match w.handle_command(WorkerCommand::GetAllTasks, 2, &mut events, &mut actions) {
        WorkerReply::Tasks(ts) => assert_eq!(ts.len(), 1),
        _ => panic!("no task list"),
    }
    // nothing is completed or failed yet: clean forgets nothing
    assert!(matches!(w.handle_command(WorkerCommand::Clean, 3, &mut events, &mut actions), WorkerReply::Cleaned(0)));
    let reply = w.handle_command(WorkerCommand::CancelUpload { upload_id: id }, 4, &mut events, &mut actions);
    assert!(matches!(reply, WorkerReply::Done(Ok(()))));
    assert!(matches!(w.handle_command(WorkerCommand::GetTask { upload_id: id }, 5, &mut events, &mut actions), WorkerReply::Task(None)));
    assert!(actions.is_empty());
}

#[test]
fn a_resumed_task_whose_old_upload_fails_is_not_started_again() {
    let mut w = worker(1);
    let mut events = Vec::new();
    let mut actions = Vec::new();
    let id = w.add_upload("a".to_string(), None, file(5), 0, &mut events).unwrap();
    let req = w.next_start().unwrap();
    assert_eq!(req.upload_id, id);
    w.start_upload(id, Some(Ok("http://h/files/a".to_string())), 1, &mut events).unwrap();
    w.pause_upload(id, &mut events, &mut actions).unwrap();
    w.resume_upload(id, &mut events).unwrap();
    assert_eq!(w.get_task(id).unwrap().state, UploadState::Queued);
    w.finish_upload(id, UploadOutcome::Failed(TusError::IoError("reset".to_string())), 2, &mut events);
    assert_eq!(w.get_task(id).unwrap().state, UploadState::Failed);
    assert!(w.next_start().is_none());
}
