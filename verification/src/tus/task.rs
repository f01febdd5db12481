//! The record kept for each upload.
use vstd::prelude::*;
use super::types::{UploadId, UploadState};

verus! {

/// One file to upload and what is known of its upload. Times are milliseconds
/// since the Unix epoch.
#[derive(Clone, Debug)]
pub struct UploadTask {
    pub id: UploadId,
    pub file_path: String,
    pub file_size: u64,
    pub upload_url: Option<String>,
    pub state: UploadState,
    pub bytes_uploaded: u64,
    pub created_at: i64,
    pub started_at: Option<i64>,
    pub completed_at: Option<i64>,
    pub error: Option<String>,
    pub metadata: Option<Vec<(String, String)>>,
}

/// The value of a task: its fields, with the metadata list as a sequence.
pub struct UploadTaskView {
    pub id: UploadId,
    pub file_path: Seq<char>,
    pub file_size: u64,
    pub upload_url: Option<Seq<char>>,
    pub state: UploadState,
    pub bytes_uploaded: u64,
    pub created_at: i64,
    pub started_at: Option<i64>,
    pub completed_at: Option<i64>,
    pub error: Option<Seq<char>>,
    pub metadata: Option<Seq<(String, String)>>,
}

pub open spec fn opt_str_view(o: Option<String>) -> Option<Seq<char>> {
    match o {
        Some(s) => Some(s@),
        None => None,
    }
}

impl View for UploadTask {
    type V = UploadTaskView;

    open spec fn view(&self) -> UploadTaskView {
        UploadTaskView {
            id: self.id,
            file_path: self.file_path@,
            file_size: self.file_size,
            upload_url: opt_str_view(self.upload_url),
            state: self.state,
            bytes_uploaded: self.bytes_uploaded,
            created_at: self.created_at,
            started_at: self.started_at,
            completed_at: self.completed_at,
            error: opt_str_view(self.error),
            metadata: match self.metadata {
                Some(m) => Some(m@),
                None => None,
            },
        }
    }
}

/// An exact copy of a list of key/value pairs.
pub fn copy_pairs(v: &Vec<(String, String)>) -> (r: Vec<(String, String)>)
    ensures
        r@ == v@,
{
    let mut r: Vec<(String, String)> = Vec::new();
    let mut i: usize = 0;
    while i < v.len()
        invariant
            i <= v.len(),
            r@ == v@.subrange(0, i as int),
        decreases v.len() - i,
    {
        let k = v[i].0.clone();
        let val = v[i].1.clone();
        r.push((k, val));
        assert(r@ =~= v@.subrange(0, i as int + 1));
        i = i + 1;
    }
    assert(r@ =~= v@);
    r
}

pub fn copy_opt_string(s: &Option<String>) -> (r: Option<String>)
    ensures
        r == *s,
{
    match s {
        Some(v) => Some(v.clone()),
        None => None,
    }
}

impl UploadTask {
    /// An exact copy of the task.
    pub fn duplicate(&self) -> (r: UploadTask)
        ensures
            r@ == self@,
    {
        UploadTask {
            id: self.id,
            file_path: self.file_path.clone(),
            file_size: self.file_size,
            upload_url: copy_opt_string(&self.upload_url),
            state: self.state,
            bytes_uploaded: self.bytes_uploaded,
            created_at: self.created_at,
            started_at: self.started_at,
            completed_at: self.completed_at,
            error: copy_opt_string(&self.error),
            metadata: match &self.metadata {
                Some(m) => Some(copy_pairs(m)),
                None => None,
            },
        }
    }
}

} // verus!
