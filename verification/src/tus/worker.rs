//! The decisions of the worker that uploads one file: where it uploads to,
//! and whether anything is left to send.
use vstd::prelude::*;
use crate::text::push_str;
use super::errors::{TusError, TusFault};
use super::task::UploadTask;

verus! {

/// What the worker does once it knows how much the server holds.
#[derive(Clone, Debug, PartialEq, Eq)]
pub enum UploadPlan {
    /// The server holds the whole file: the upload is done at this URL.
    AlreadyComplete(String),
    /// Send the file from `offset` on.
    Stream { offset: u64 },
}

/// The URL that the worker uploads to: the task's, which must be set.
pub fn upload_url_of(task: &UploadTask) -> (r: Result<String, TusError>)
    ensures
        task.upload_url matches Some(u) ==> (r matches Ok(v) && v@ == u@),
        task.upload_url is None ==> (r matches Err(e) && e@ == TusFault::ParamError("Upload URL not set"@)),
{
    match &task.upload_url {
        Some(u) => Ok(u.clone()),
        None => {
            let mut m = String::new();
            push_str(&mut m, "Upload URL not set");
            Err(TusError::ParamError(m))
        },
    }
}

/// What to do once the server says it holds `offset` of `file_size` bytes.
pub fn plan_after_offset(upload_url: String, file_size: u64, offset: u64) -> (r: UploadPlan)
    ensures
        offset >= file_size ==> r == UploadPlan::AlreadyComplete(upload_url),
        offset < file_size ==> r == (UploadPlan::Stream { offset }),
{
    if offset >= file_size {
        UploadPlan::AlreadyComplete(upload_url)
    } else {
        UploadPlan::Stream { offset }
    }
}

} // verus!
