//! The task builder of TUS uploads and the protocol it builds.
use vstd::prelude::*;
use crate::http::{bytes_view, headers_view, HttpRequest};
use crate::transfer::errors::{number_outcome, text_outcome, TransferError};
use crate::tus::exchange::{
    creation_headers, creation_outcome, creation_request, creation_result, first_header_fault,
    headers_sound, offset_headers, offset_outcome, offset_request, offset_result,
};
use crate::tus::task::copy_pairs;
use super::types::{TusConfig, TusProtocolOptions};

verus! {

/// The TUS protocol over the builder's settings.
pub struct TusProtocol {
    pub config: TusConfig,
}

impl TusProtocol {
    pub fn new(config: TusConfig) -> (r: TusProtocol)
        ensures
            r.config == config,
    {
        TusProtocol { config }
    }

    /// The request that creates an upload of `file_size` bytes.
    pub fn create_upload_request(&self, file_size: u64) -> (r: Result<HttpRequest, TransferError>)
        ensures
            r is Ok <==> headers_sound(headers_view(self.config.headers@)),
            r matches Err(e) ==> first_header_fault(headers_view(self.config.headers@), e@),
            r matches Ok(q) ==> {
                &&& q.method == crate::http::HttpMethod::Post
                &&& q.url@ == self.config.endpoint@
                &&& headers_view(q.headers@) == creation_headers(
                    file_size,
                    self.config.headers@,
                )
                &&& q.appended@.len() == 0
            },
    {
        creation_request(self.config.endpoint.as_str(), &self.config.headers, file_size)
    }

    /// The upload URL that the answer to the creation request gives.
    pub fn create_upload_result(&self, status: u16, location: Option<Vec<u8>>) -> (r: Result<
        String,
        TransferError,
    >)
        requires
            100 <= status <= 999,
        ensures
            text_outcome(r) == creation_outcome(self.config.endpoint@, status, bytes_view(location)),
    {
        creation_result(self.config.endpoint.as_str(), status, location)
    }

    /// The request that asks how much of the upload at `upload_url` the
    /// server holds.
    pub fn get_upload_offset_request(&self, upload_url: &str) -> (r: Result<
        HttpRequest,
        TransferError,
    >)
        ensures
            r is Ok <==> headers_sound(headers_view(self.config.headers@)),
            r matches Err(e) ==> first_header_fault(headers_view(self.config.headers@), e@),
            r matches Ok(q) ==> {
                &&& q.method == crate::http::HttpMethod::Head
                &&& q.url@ == upload_url@
                &&& headers_view(q.headers@) == offset_headers(self.config.headers@)
                &&& q.appended@.len() == 0
            },
    {
        offset_request(upload_url, &self.config.headers)
    }

    /// The offset that the answer to an offset request gives.
    pub fn get_upload_offset_result(status: u16, offset: Option<Vec<u8>>) -> (r: Result<
        u64,
        TransferError,
    >)
        requires
            100 <= status <= 999,
        ensures
            number_outcome(r) == offset_outcome(status, bytes_view(offset)),
    {
        offset_result(status, offset)
    }
}

/// Builds TUS upload tasks for one endpoint and source.
pub struct TusTaskBuilder {
    pub config: TusConfig,
    pub options: Option<TusProtocolOptions>,
    pub source: String,
}

impl TusTaskBuilder {
    /// A builder for uploading `source` to `endpoint`, with default settings
    /// otherwise and no options.
    pub fn new(endpoint: String, source: String) -> (r: TusTaskBuilder)
        ensures
            r.config.endpoint == endpoint,
            r.config.headers@.len() == 0,
            r.source == source,
            r.options is None,
    {
        let mut config = TusConfig::default();
        config.endpoint = endpoint;
        TusTaskBuilder { config, source, options: None }
    }

    /// The protocol over a copy of the builder's settings.
    pub fn build_protocol(&self) -> (r: TusProtocol)
        ensures
            r.config.endpoint@ == self.config.endpoint@,
            r.config.headers@ == self.config.headers@,
    {
        TusProtocol::new(
            TusConfig { endpoint: self.config.endpoint.clone(), headers: copy_pairs(&self.config.headers) },
        )
    }
}

} // verus!
