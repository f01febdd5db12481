//! The simple uploader: the whole file in one request, its metadata in
//! headers.
use vstd::prelude::*;
use crate::http::{bytes_view, header_str, header_to_str, is_success, status_display, status_text, HttpMethod, HttpRequest};
use crate::text::push_str;
use crate::transfer::errors::{text_outcome, TransferError, TransferFault};

verus! {

/// Settings of the simple uploader.
#[derive(Clone, Copy, Debug)]
pub struct SimpleConfig {
    /// How long a request may take, in milliseconds.
    pub timeout_ms: u64,
}

/// The simple uploader of one endpoint; the HTTP client stays with the
/// runtime that sends the requests.
#[derive(Clone, Debug)]
pub struct SimpleUploader {
    pub endpoint: String,
    pub config: SimpleConfig,
}

impl SimpleUploader {
    pub fn new(endpoint: &str, config: SimpleConfig) -> (r: SimpleUploader)
        ensures
            r.endpoint@ == endpoint@,
            r.config == config,
    {
        let mut e = String::new();
        push_str(&mut e, endpoint);
        SimpleUploader { endpoint: e, config }
    }

    /// The request that sends the file with its metadata.
    pub fn upload_request(&self, metadata: &Vec<(String, String)>) -> (r: HttpRequest)
        ensures
            r.method == HttpMethod::Post,
            r.url@ == self.endpoint@,
            r.headers@.len() == 0,
            crate::http::headers_view(r.appended@) == meta_headers(metadata@),
            r.appended@.len() == metadata@.len(),
            forall|k: int|
                0 <= k < metadata@.len() ==> (#[trigger] r.appended@[k]).0@ == "X-Meta-"@ + metadata@[k].0@
                    && r.appended@[k].1@ == metadata@[k].1@,
    {
        simple_request(self.endpoint.as_str(), metadata)
    }

    /// Reads the answer to the upload.
    pub fn upload_result(&self, status: u16, location: Option<Vec<u8>>) -> (r: Result<String, TransferError>)
        requires
            100 <= status <= 999,
        ensures
            text_outcome(r) == simple_outcome(self.endpoint@, status, bytes_view(location)),
    {
        simple_result(self.endpoint.as_str(), status, location)
    }

    /// The simple uploader cannot resume.
    pub fn supports_resume(&self) -> (r: bool)
        ensures
            !r,
    {
        false
    }
}

/// The metadata headers: each key behind `X-Meta-`, with its value.
pub open spec fn meta_headers(metadata: Seq<(String, String)>) -> Seq<(Seq<char>, Seq<char>)> {
    metadata.map_values(|p: (String, String)| ("X-Meta-"@ + p.0@, p.1@))
}

/// The request that sends the file to `endpoint`, with the metadata.
pub fn simple_request(endpoint: &str, metadata: &Vec<(String, String)>) -> (r: HttpRequest)
    ensures
        r.method == HttpMethod::Post,
        r.url@ == endpoint@,
        r.headers@.len() == 0,
        crate::http::headers_view(r.appended@) == meta_headers(metadata@),
        r.appended@.len() == metadata@.len(),
        forall|k: int|
            0 <= k < metadata@.len() ==> (#[trigger] r.appended@[k]).0@ == "X-Meta-"@ + metadata@[k].0@
                && r.appended@[k].1@ == metadata@[k].1@,
{
    let mut appended: Vec<(String, String)> = Vec::new();
    let mut i: usize = 0;
    while i < metadata.len()
        invariant
            i <= metadata@.len(),
            crate::http::headers_view(appended@) == meta_headers(metadata@.subrange(0, i as int)),
        decreases metadata@.len() - i,
    {
        let mut name = String::new();
        push_str(&mut name, "X-Meta-");
        push_str(&mut name, metadata[i].0.as_str());
        let value = metadata[i].1.clone();
        let ghost before = appended@;
        appended.push((name, value));
        proof {
            assert(crate::http::headers_view(appended@) =~= crate::http::headers_view(before).push(
                ("X-Meta-"@ + metadata@[i as int].0@, metadata@[i as int].1@),
            ));
            assert(meta_headers(metadata@.subrange(0, i + 1)) =~= meta_headers(metadata@.subrange(0, i as int)).push(
                ("X-Meta-"@ + metadata@[i as int].0@, metadata@[i as int].1@),
            ));
        }
        i = i + 1;
    }
    assert(metadata@.subrange(0, metadata@.len() as int) == metadata@);
    proof {
        assert(crate::http::headers_view(appended@).len() == appended@.len());
        assert forall|k: int| 0 <= k < metadata@.len() implies (#[trigger] appended@[k]).0@ == "X-Meta-"@
            + metadata@[k].0@ && appended@[k].1@ == metadata@[k].1@ by {
            assert(crate::http::headers_view(appended@)[k] == meta_headers(metadata@)[k]);
        }
    }
    let mut url = String::new();
    push_str(&mut url, endpoint);
    HttpRequest { method: HttpMethod::Post, url, headers: Vec::new(), appended }
}

/// What the answer gives: the `Location` header where it is readable text,
/// else the endpoint.
pub open spec fn simple_outcome(endpoint: Seq<char>, status: u16, location: Option<Seq<u8>>) -> Result<Seq<char>, TransferFault> {
    if !is_success(status) {
        Err(TransferFault::ServerError { status, message: "Upload failed with status "@ + status_display(status) })
    } else {
        match location {
            Some(b) => match header_str(b) {
                Some(l) => Ok(l),
                None => Ok(endpoint),
            },
            None => Ok(endpoint),
        }
    }
}

/// Reads the answer to the upload.
pub fn simple_result(endpoint: &str, status: u16, location: Option<Vec<u8>>) -> (r: Result<String, TransferError>)
    requires
        100 <= status <= 999,
    ensures
        text_outcome(r) == simple_outcome(endpoint@, status, bytes_view(location)),
{
    if !(200 <= status && status <= 299) {
        let mut m = String::new();
        push_str(&mut m, "Upload failed with status ");
        let st = status_text(status);
        push_str(&mut m, st.as_str());
        return Err(TransferError::server_error(status, m));
    }
    let mut fallback = String::new();
    push_str(&mut fallback, endpoint);
    match location {
        Some(b) => match header_to_str(b.as_slice()) {
            Some(l) => Ok(l),
            None => Ok(fallback),
        },
        None => Ok(fallback),
    }
}

/// Law: every metadata entry becomes one header, in order: its key behind
/// `X-Meta-`, with its value.
pub proof fn law_meta_headers(metadata: Seq<(String, String)>)
    ensures
        meta_headers(metadata).len() == metadata.len(),
        forall|k: int|
            0 <= k < metadata.len() ==> #[trigger] meta_headers(metadata)[k] == ("X-Meta-"@ + metadata[k].0@,
            metadata[k].1@),
{
}

} // verus!
