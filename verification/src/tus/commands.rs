//! The commands of the upload manager and what the worker answers to each.
//! Reading the file system and sending the answer back are the runtime's; the
//! worker's part of a command is one call of `handle_command`.
use vstd::prelude::*;
use super::errors::TusError;
use super::manager_worker::{
    actions_view, add_upload_result, batch_add_result, cancel_actions, cancel_all_actions,
    cancel_all_events, cancel_events, has_task, is_param_error, kept_after_clean, lookup,
    opt_pairs_view, pause_actions, pause_all_events, pause_events, resume_all_events,
    resume_events, spec_cancel, spec_cancel_all, spec_pause, spec_pause_all, spec_resume,
    spec_resume_all, FileEntry, FileStat, UploadManagerWorker, WorkerAction, WorkerView,
};
use super::task::UploadTask;
use super::types::{UploadEvent, UploadId};

verus! {

/// A command to the upload manager, with what the runtime read for it.
pub enum WorkerCommand {
    /// Add the file at `file_path`; `stat` is what the file system reported of it.
    AddUpload {
        file_path: String,
        metadata: Option<Vec<(String, String)>>,
        stat: Result<FileStat, TusError>,
    },
    /// Add the files one after the other.
    BatchAdd { files: Vec<FileEntry> },
    PauseUpload { upload_id: UploadId },
    PauseAll,
    ResumeUpload { upload_id: UploadId },
    ResumeAll,
    CancelUpload { upload_id: UploadId },
    CancelAll,
    GetTask { upload_id: UploadId },
    GetAllTasks,
    /// Forget the completed and the failed tasks.
    Clean,
    /// Accepted and not acted upon: the report interval is fixed.
    SetProgressInterval { interval_ms: u64 },
}

/// The worker's answer to a command.
pub enum WorkerReply {
    Added(Result<UploadId, TusError>),
    BatchAdded(Result<Vec<UploadId>, TusError>),
    Done(Result<(), TusError>),
    Task(Option<UploadTask>),
    Tasks(Vec<UploadTask>),
    /// How many tasks were forgotten.
    Cleaned(usize),
}

impl UploadManagerWorker {
    /// Carries out `command` at time `now`: the state changes, the events to
    /// publish and the work for the runtime are those of the method that the
    /// command names, and the answer is what that method returns.
    pub fn handle_command(
        &mut self,
        command: WorkerCommand,
        now: i64,
        events: &mut Vec<UploadEvent>,
        actions: &mut Vec<WorkerAction>,
    ) -> (r: WorkerReply)
        requires
            old(self)@.wf(),
        ensures
            final(self)@.wf(),
            match command {
                WorkerCommand::AddUpload { file_path, metadata, stat } => {
                    &&& r matches WorkerReply::Added(res) && add_upload_result(
                        old(self)@,
                        final(self)@,
                        old(events)@,
                        final(events)@,
                        file_path@,
                        opt_pairs_view(metadata),
                        stat,
                        now,
                        res,
                    )
                    &&& final(actions)@ == old(actions)@
                },
                WorkerCommand::BatchAdd { files } => {
                    &&& r matches WorkerReply::BatchAdded(res) && batch_add_result(
                        old(self)@,
                        final(self)@,
                        old(events)@,
                        final(events)@,
                        files@,
                        now,
                        res,
                    )
                    &&& final(actions)@ == old(actions)@
                },
                WorkerCommand::PauseUpload { upload_id } => {
                    &&& r matches WorkerReply::Done(res) && (res is Ok <==> has_task(
                        old(self)@.tasks,
                        upload_id,
                    )) && (res matches Err(e) ==> is_param_error(e, "Task not found"@))
                    &&& final(self)@ == spec_pause(old(self)@, upload_id)
                    &&& final(events)@ == old(events)@ + pause_events(old(self)@, upload_id)
                    &&& final(actions)@ == old(actions)@ + pause_actions(old(self)@, upload_id)
                },
                WorkerCommand::PauseAll => {
                    &&& r == WorkerReply::Done(Ok(()))
                    &&& final(self)@ == spec_pause_all(old(self)@)
                    &&& final(events)@ == old(events)@ + pause_all_events(old(self)@)
                    &&& final(actions)@ == old(actions)@ + old(self)@.active.map_values(
                        |id: UploadId| WorkerAction::CancelToken(id),
                    )
                },
                WorkerCommand::ResumeUpload { upload_id } => {
                    &&& r matches WorkerReply::Done(res) && (res is Ok <==> has_task(
                        old(self)@.tasks,
                        upload_id,
                    )) && (res matches Err(e) ==> is_param_error(e, "Task not found"@))
                    &&& final(self)@ == spec_resume(old(self)@, upload_id)
                    &&& final(events)@ == old(events)@ + resume_events(old(self)@, upload_id)
                    &&& final(actions)@ == old(actions)@
                },
                WorkerCommand::ResumeAll => {
                    &&& r == WorkerReply::Done(Ok(()))
                    &&& final(self)@ == spec_resume_all(old(self)@)
                    &&& final(events)@ == old(events)@ + resume_all_events(old(self)@)
                    &&& final(actions)@ == old(actions)@
                },
                WorkerCommand::CancelUpload { upload_id } => {
                    &&& r matches WorkerReply::Done(res) && (res is Ok <==> has_task(
                        old(self)@.tasks,
                        upload_id,
                    )) && (res matches Err(e) ==> is_param_error(e, "Task not found"@))
                    &&& final(self)@ == spec_cancel(old(self)@, upload_id)
                    &&& final(events)@ == old(events)@ + cancel_events(old(self)@, upload_id)
                    &&& actions_view(final(actions)@) == actions_view(old(actions)@) + (if has_task(
                        old(self)@.tasks,
                        upload_id,
                    ) {
                        cancel_actions(lookup(old(self)@.tasks, upload_id).unwrap())
                    } else {
                        Seq::empty()
                    })
                },
                WorkerCommand::CancelAll => {
                    &&& r == WorkerReply::Done(Ok(()))
                    &&& final(self)@ == spec_cancel_all(old(self)@)
                    &&& final(events)@ == old(events)@ + cancel_all_events(old(self)@)
                    &&& actions_view(final(actions)@) == actions_view(old(actions)@)
                        + cancel_all_actions(old(self)@.tasks)
                },
                WorkerCommand::GetTask { upload_id } => {
                    &&& r matches WorkerReply::Task(t) && (t is Some <==> has_task(
                        old(self)@.tasks,
                        upload_id,
                    )) && (t matches Some(x) ==> x@ == lookup(old(self)@.tasks, upload_id).unwrap().task)
                    &&& final(self)@ == old(self)@
                    &&& final(events)@ == old(events)@
                    &&& final(actions)@ == old(actions)@
                },
                WorkerCommand::GetAllTasks => {
                    &&& r matches WorkerReply::Tasks(ts) && ts@.len() == old(self)@.tasks.len() && (
                    forall|i: int| 0 <= i < ts@.len() ==> (#[trigger] ts@[i])@ == old(self)@.tasks[i].task)
                    &&& final(self)@ == old(self)@
                    &&& final(events)@ == old(events)@
                    &&& final(actions)@ == old(actions)@
                },
                WorkerCommand::Clean => {
                    &&& final(self)@ == (WorkerView {
                        tasks: old(self)@.tasks.filter(kept_after_clean()),
                        ..old(self)@
                    })
                    &&& r matches WorkerReply::Cleaned(n) && n == old(self)@.tasks.len()
                        - final(self)@.tasks.len()
                    &&& final(events)@ == old(events)@
                    &&& final(actions)@ == old(actions)@
                },
                WorkerCommand::SetProgressInterval { .. } => {
                    &&& r == WorkerReply::Done(Ok(()))
                    &&& final(self)@ == old(self)@
                    &&& final(events)@ == old(events)@
                    &&& final(actions)@ == old(actions)@
                },
            },
    {
        match command {
            WorkerCommand::AddUpload { file_path, metadata, stat } => {
                WorkerReply::Added(self.add_upload(file_path, metadata, stat, now, events))
            },
            WorkerCommand::BatchAdd { files } => {
                WorkerReply::BatchAdded(self.batch_add(files, now, events))
            },
            WorkerCommand::PauseUpload { upload_id } => {
                WorkerReply::Done(self.pause_upload(upload_id, events, actions))
            },
            WorkerCommand::PauseAll => {
                self.pause_all(events, actions);
                WorkerReply::Done(Ok(()))
            },
            WorkerCommand::ResumeUpload { upload_id } => {
                WorkerReply::Done(self.resume_upload(upload_id, events))
            },
            WorkerCommand::ResumeAll => {
                self.resume_all(events);
                WorkerReply::Done(Ok(()))
            },
            WorkerCommand::CancelUpload { upload_id } => {
                WorkerReply::Done(self.cancel_upload(upload_id, events, actions))
            },
            WorkerCommand::CancelAll => {
                self.cancel_all(events, actions);
                WorkerReply::Done(Ok(()))
            },
            WorkerCommand::GetTask { upload_id } => WorkerReply::Task(self.get_task(upload_id)),
            WorkerCommand::GetAllTasks => WorkerReply::Tasks(self.get_all_tasks()),
            WorkerCommand::Clean => WorkerReply::Cleaned(self.clean()),
            WorkerCommand::SetProgressInterval { .. } => WorkerReply::Done(Ok(())),
        }
    }
}

} // verus!
