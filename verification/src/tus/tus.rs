//! The TUS transfer protocol of the transfer manager: its settings, its
//! requests, how it reads the answers, and its builder.
use vstd::prelude::*;
use crate::http::{bytes_view, header_str, headers_view, starts_with_http, url_joined, HttpRequest};
use crate::text::{decimal, push_str};
use crate::transfer::errors::{number_outcome, text_outcome, TransferError, TransferFault};
use crate::transfer::types::{TransferConfig, TransferContext};
use crate::tus::exchange::{
    create_header_map, creation_headers, creation_outcome, creation_request, creation_result,
    ensure_location_complete, first_header_fault, headers_sound, location_outcome, offset_headers,
    offset_outcome, offset_request, offset_result, stream_headers, stream_request,
};
use crate::tus::task::copy_pairs;

verus! {

/// Settings of a TUS protocol: where to create uploads, the read buffer in
/// bytes, and extra headers for every request.
#[derive(Clone, Debug)]
pub struct TusConfig {
    pub endpoint: String,
    pub buffer_size: usize,
    pub headers: Vec<(String, String)>,
}

impl TusConfig {
    /// Settings for `endpoint` with a 2 MiB buffer and no extra headers.
    pub fn new(endpoint: String) -> (r: TusConfig)
        ensures
            r.endpoint == endpoint,
            r.buffer_size == 2 * 1024 * 1024,
            r.headers@.len() == 0,
    {
        TusConfig { endpoint, buffer_size: 1024 * 1024 * 2, headers: Vec::new() }
    }
}

/// The TUS protocol: each step is a request to send and a reading of its
/// answer.
pub struct TusProtocol {
    pub config: TusConfig,
}

impl TusProtocol {
    pub fn new(config: TusConfig) -> (r: TusProtocol)
        ensures
            r.config == config,
    {
        TusProtocol { config }
    }

    /// The configured headers, checked.
    pub fn create_header_map(&self) -> (r: Result<Vec<(String, String)>, TransferError>)
        ensures
            r is Ok <==> headers_sound(headers_view(self.config.headers@)),
            r matches Ok(v) ==> v@ == self.config.headers@,
            r matches Err(e) ==> first_header_fault(headers_view(self.config.headers@), e@),
    {
        create_header_map(&self.config.headers)
    }

    /// The request that creates an upload of `length` bytes.
    pub fn create_upload_request(&self, length: u64) -> (r: Result<HttpRequest, TransferError>)
        ensures
            r is Ok <==> headers_sound(headers_view(self.config.headers@)),
            r matches Err(e) ==> first_header_fault(headers_view(self.config.headers@), e@),
            r matches Ok(q) ==> {
                &&& q.method == crate::http::HttpMethod::Post
                &&& q.url@ == self.config.endpoint@
                &&& headers_view(q.headers@) == creation_headers(
                    length,
                    self.config.headers@,
                )
                &&& q.appended@.len() == 0
            },
    {
        creation_request(self.config.endpoint.as_str(), &self.config.headers, length)
    }

    /// The upload URL that the answer to the creation request gives.
    pub fn create_upload_result(&self, status: u16, location: Option<Vec<u8>>) -> (r: Result<
        String,
        TransferError,
    >)
        requires
            100 <= status <= 999,
        ensures
            text_outcome(r) == creation_outcome(self.config.endpoint@, status, bytes_view(location)),
            (status == 201 ==> (bytes_view(location) matches Some(b) ==> (header_str(b) matches Some(l) ==> (
                starts_with_http(l) ==> (r matches Ok(u) && u@ == l))))),
            (status == 201 ==> (bytes_view(location) matches Some(b) ==> (header_str(b) matches Some(l) ==> (
                !starts_with_http(l) ==> (url_joined(self.config.endpoint@, l) matches Ok(j) ==> (r matches Ok(u) && u@ == j)))))),
            (status == 201 ==> (bytes_view(location) matches Some(b) ==> (header_str(b) matches Some(l) ==> (
                !starts_with_http(l) ==> (url_joined(self.config.endpoint@, l) matches Err(m) ==> (r matches Err(e) && e@
                == TransferFault::URL(m))))))),
    {
        creation_result(self.config.endpoint.as_str(), status, location)
    }

    /// A location made absolute against the endpoint.
    pub fn ensure_location_complete(&self, location: &str) -> (r: Result<String, TransferError>)
        ensures
            text_outcome(r) == location_outcome(self.config.endpoint@, location@),
    {
        ensure_location_complete(self.config.endpoint.as_str(), location)
    }

    /// The request that asks how much of the upload at `upload_url` the
    /// server holds.
    pub fn get_upload_offset_request(&self, upload_url: &str) -> (r: Result<
        HttpRequest,
        TransferError,
    >)
        ensures
            r is Ok <==> headers_sound(headers_view(self.config.headers@)),
            r matches Err(e) ==> first_header_fault(headers_view(self.config.headers@), e@),
            r matches Ok(q) ==> {
                &&& q.method == crate::http::HttpMethod::Head
                &&& q.url@ == upload_url@
                &&& headers_view(q.headers@) == offset_headers(self.config.headers@)
                &&& q.appended@.len() == 0
            },
    {
        offset_request(upload_url, &self.config.headers)
    }

    /// The offset that the answer to an offset request gives.
    pub fn get_upload_offset_result(status: u16, offset: Option<Vec<u8>>) -> (r: Result<
        u64,
        TransferError,
    >)
        requires
            100 <= status <= 999,
        ensures
            number_outcome(r) == offset_outcome(status, bytes_view(offset)),
    {
        offset_result(status, offset)
    }

    /// The request that sends the file of `ctx` to its destination.
    pub fn execute_request(&self, ctx: &TransferContext) -> (r: Result<HttpRequest, TransferError>)
        ensures
            r is Ok <==> headers_sound(headers_view(self.config.headers@)),
            r matches Err(e) ==> first_header_fault(headers_view(self.config.headers@), e@),
            r matches Ok(q) ==> {
                &&& q.method == crate::http::HttpMethod::Patch
                &&& q.url@ == ctx.destination@
                &&& q.headers@ == self.config.headers@
                &&& headers_view(q.appended@) == stream_headers(
                    ctx.total_bytes,
                    ctx.transferred_bytes,
                )
                &&& q.appended@.len() == 4
                &&& headers_view(q.appended@)[0] == ("Tus-Resumable"@, "1.0.0"@)
                &&& headers_view(q.appended@)[1] == ("Content-Type"@, "application/offset+octet-stream"@)
                &&& headers_view(q.appended@)[2] == ("Content-Length"@, decimal(ctx.total_bytes as nat))
                &&& headers_view(q.appended@)[3] == ("Upload-Offset"@, decimal(ctx.transferred_bytes as nat))
            },
    {
        stream_request(
            ctx.destination.as_str(),
            &self.config.headers,
            ctx.total_bytes,
            ctx.transferred_bytes,
        )
    }

    /// What initialising records in the context: the upload's URL, how much
    /// of it the server holds and the file's size.
    pub fn initialize(context: &mut TransferContext, file_size: u64, upload_url: String, offset: u64)
        ensures
            final(context).destination == upload_url,
            final(context).transferred_bytes == offset,
            final(context).total_bytes == file_size,
            final(context).source == old(context).source,
    {
        context.destination = upload_url;
        context.transferred_bytes = offset;
        context.total_bytes = file_size;
    }
}

/// Builds the context and the TUS protocol of a transfer.
#[derive(Clone)]
pub struct TusProtocolBuilder {
    pub config: TransferConfig,
    pub endpoint: String,
}

impl TusProtocolBuilder {
    pub fn new(config: TransferConfig, endpoint: String) -> (r: TusProtocolBuilder)
        ensures
            r.config == config,
            r.endpoint == endpoint,
    {
        TusProtocolBuilder { config, endpoint }
    }

    /// A fresh context for the configured source.
    pub fn build_context(&self) -> (r: TransferContext)
        ensures
            r.source@ == self.config.source@,
            r.destination@.len() == 0,
            r.total_bytes == 0,
            r.transferred_bytes == 0,
    {
        TransferContext::new(self.config.source.clone())
    }

    /// The protocol for the endpoint, with the configured headers and a 2 MiB
    /// buffer.
    pub fn build_protocol(&self) -> (r: TusProtocol)
        ensures
            r.config.endpoint@ == self.endpoint@,
            r.config.headers@ == self.config.headers@,
            r.config.buffer_size == 2 * 1024 * 1024,
    {
        TusProtocol::new(
            TusConfig {
                endpoint: self.endpoint.clone(),
                headers: copy_pairs(&self.config.headers),
                buffer_size: 1024 * 1024 * 2,
            },
        )
    }
}

} // verus!
