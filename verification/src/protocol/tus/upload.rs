//! The TUS upload protocol: the requests it makes and how it reads the
//! answers, and the builder of TUS uploads.
use vstd::prelude::*;
use crate::config::Config;
use crate::http::{
    bytes_view, header_str, header_to_str, headers_view, int_error_message, int_error_text,
    is_success, parse_u64, starts_with_http, status_display, status_text, to_str_error_message,
    to_str_error_text, u64_from_str, url_joined, HttpMethod, HttpRequest,
};
use crate::text::{decimal, joined, push_str};
use crate::transfer::errors::{number_outcome, text_outcome, tus_fault, TransferError, TransferFault};
use crate::tus::client::{encode_metadata, encoded_entries};
use crate::tus::exchange::{
    create_header_map, ensure_location_complete, first_header_fault, headers_sound,
    location_outcome, number_pair, pair,
};
use crate::tus::task::copy_pairs;
use super::types::{TusConfig, TusUploadOptions};

verus! {

/// The TUS upload protocol over its settings and options; the HTTP client
/// stays with the runtime that sends the requests.
pub struct TusUploadProtocol {
    pub config: TusConfig,
    pub options: TusUploadOptions,
}

/// The headers of a creation request: the protocol version, the length, the
/// metadata where there is any, then the configured headers.
pub open spec fn upload_creation_headers(config: TusConfig, options: TusUploadOptions, file_size: u64) -> Seq<
    (Seq<char>, Seq<char>),
> {
    seq![("Tus-Resumable"@, config.tus_version@), ("Upload-Length"@, decimal(file_size as nat))] + (if options.metadata@.len()
        > 0 {
        seq![("Upload-Metadata"@, joined(encoded_entries(options.metadata@), ','))]
    } else {
        Seq::empty()
    }) + headers_view(config.headers@)
}

/// The headers of an offset request, and of a deletion: the protocol
/// version, then the configured headers.
pub open spec fn version_headers(config: TusConfig) -> Seq<(Seq<char>, Seq<char>)> {
    seq![("Tus-Resumable"@, config.tus_version@)] + headers_view(config.headers@)
}

/// The headers of a chunk request.
pub open spec fn chunk_headers(config: TusConfig, offset: u64, length: u64) -> Seq<(Seq<char>, Seq<char>)> {
    seq![
        ("Tus-Resumable"@, config.tus_version@),
        ("Upload-Offset"@, decimal(offset as nat)),
        ("Content-Type"@, "application/offset+octet-stream"@),
        ("Content-Length"@, decimal(length as nat)),
    ] + headers_view(config.headers@)
}

/// What the answer to a creation request gives.
pub open spec fn upload_creation_outcome(endpoint: Seq<char>, status: u16, location: Option<Seq<u8>>) -> Result<
    Seq<char>,
    TransferFault,
> {
    if status != 201 {
        Err(tus_fault("Failed to create upload: "@ + status_display(status)))
    } else {
        match location {
            None => Err(tus_fault("No Location header in response"@)),
            Some(bytes) => match header_str(bytes) {
                None => Err(tus_fault("Failed to parse Location header: "@ + to_str_error_message())),
                Some(l) => location_outcome(endpoint, l),
            },
        }
    }
}

/// What a present `Upload-Offset` header gives.
pub open spec fn offset_value_outcome(bytes: Seq<u8>) -> Result<u64, TransferFault> {
    match header_str(bytes) {
        None => Err(tus_fault("Invalid Upload-Offset: "@ + to_str_error_message())),
        Some(t) => match u64_from_str(t) {
            Ok(n) => Ok(n),
            Err(k) => Err(tus_fault("Invalid Upload-Offset: "@ + int_error_message(k))),
        },
    }
}

/// What the `Upload-Offset` header of a good answer gives.
pub open spec fn offset_field_outcome(offset: Option<Seq<u8>>) -> Result<u64, TransferFault> {
    match offset {
        None => Err(tus_fault("No Upload-Offset header in response"@)),
        Some(bytes) => offset_value_outcome(bytes),
    }
}

/// Reads the `Upload-Offset` header of a good answer.
fn read_offset_field(offset: Option<Vec<u8>>) -> (r: Result<u64, TransferError>)
    ensures
        number_outcome(r) == offset_field_outcome(bytes_view(offset)),
{
    match offset {
        None => {
            let mut m = String::new();
            push_str(&mut m, "No Upload-Offset header in response");
            Err(TransferError::tus(m))
        },
        Some(bytes) => match header_to_str(bytes.as_slice()) {
            None => {
                let mut m = String::new();
                push_str(&mut m, "Invalid Upload-Offset: ");
                let t = to_str_error_text();
                push_str(&mut m, t.as_str());
                Err(TransferError::tus(m))
            },
            Some(t) => match parse_u64(t.as_str()) {
                Ok(n) => Ok(n),
                Err(k) => {
                    let mut m = String::new();
                    push_str(&mut m, "Invalid Upload-Offset: ");
                    let kt = int_error_text(k);
                    push_str(&mut m, kt.as_str());
                    Err(TransferError::tus(m))
                },
            },
        },
    }
}

/// A message of the protocol followed by the status's text.
fn status_message(prefix: &str, status: u16) -> (r: String)
    requires
        100 <= status <= 999,
    ensures
        r@ == prefix@ + status_display(status),
{
    let mut m = String::new();
    push_str(&mut m, prefix);
    let st = status_text(status);
    push_str(&mut m, st.as_str());
    m
}

/// A request with the given method and URL whose headers, checked, are put in
/// in order.
fn checked_request(method: HttpMethod, url: &str, headers: Vec<(String, String)>) -> (r: Result<
    HttpRequest,
    TransferError,
>)
    ensures
        r is Ok <==> headers_sound(headers_view(headers@)),
        r matches Err(e) ==> first_header_fault(headers_view(headers@), e@),
        r matches Ok(q) ==> {
            &&& q.method == method
            &&& q.url@ == url@
            &&& headers_view(q.headers@) == headers_view(headers@)
            &&& q.appended@.len() == 0
        },
{
    match create_header_map(&headers) {
        Err(e) => Err(e),
        Ok(checked) => {
            let mut u = String::new();
            push_str(&mut u, url);
            Ok(HttpRequest { method, url: u, headers: checked, appended: Vec::new() })
        },
    }
}

impl TusUploadProtocol {
    pub fn new(config: TusConfig, options: TusUploadOptions) -> (r: TusUploadProtocol)
        ensures
            r.config == config,
            r.options == options,
    {
        TusUploadProtocol { config, options }
    }

    /// The `Upload-Metadata` header for `metadata`.
    pub fn encode_metadata(&self, metadata: &Vec<(String, String)>) -> (r: String)
        ensures
            r@ == joined(encoded_entries(metadata@), ','),
    {
        encode_metadata(metadata)
    }

    /// The request that creates an upload of `file_size` bytes; it fails
    /// where a header is not valid.
    pub fn create_upload_request(&self, file_size: u64) -> (r: Result<HttpRequest, TransferError>)
        ensures
            r is Ok <==> headers_sound(upload_creation_headers(self.config, self.options, file_size)),
            r matches Err(e) ==> first_header_fault(
                upload_creation_headers(self.config, self.options, file_size),
                e@,
            ),
            r matches Ok(q) ==> {
                &&& q.method == HttpMethod::Post
                &&& q.url@ == self.config.endpoint@
                &&& headers_view(q.headers@) == upload_creation_headers(
                    self.config,
                    self.options,
                    file_size,
                )
                &&& q.appended@.len() == 0
            },
    {
        let mut headers: Vec<(String, String)> = Vec::new();
        headers.push(pair("Tus-Resumable", self.config.tus_version.as_str()));
        headers.push(number_pair("Upload-Length", file_size));
        if self.options.metadata.len() > 0 {
            let m = self.encode_metadata(&self.options.metadata);
            let mut n = String::new();
            push_str(&mut n, "Upload-Metadata");
            headers.push((n, m));
        }
        let mut extra = copy_pairs(&self.config.headers);
        headers.append(&mut extra);
        proof {
            assert(headers_view(headers@) =~= upload_creation_headers(
                self.config,
                self.options,
                file_size,
            ));
        }
        checked_request(HttpMethod::Post, self.config.endpoint.as_str(), headers)
    }

    /// Reads the answer to the creation request: the upload's URL.
    pub fn create_upload_result(&self, status: u16, location: Option<Vec<u8>>) -> (r: Result<
        String,
        TransferError,
    >)
        requires
            100 <= status <= 999,
        ensures
            text_outcome(r) == upload_creation_outcome(
                self.config.endpoint@,
                status,
                bytes_view(location),
            ),
            (status == 201 ==> (bytes_view(location) matches Some(b) ==> (header_str(b) matches Some(l) ==> (
                starts_with_http(l) ==> (r matches Ok(u) && u@ == l))))),
            (status == 201 ==> (bytes_view(location) matches Some(b) ==> (header_str(b) matches Some(l) ==> (
                !starts_with_http(l) ==> (url_joined(self.config.endpoint@, l) matches Ok(j) ==> (r matches Ok(u) && u@ == j)))))),
            (status == 201 ==> (bytes_view(location) matches Some(b) ==> (header_str(b) matches Some(l) ==> (
                !starts_with_http(l) ==> (url_joined(self.config.endpoint@, l) matches Err(m) ==> (r matches Err(e) && e@
                == TransferFault::URL(m))))))),
    {
        if status != 201 {
            return Err(TransferError::tus(status_message("Failed to create upload: ", status)));
        }
        match location {
            None => {
                let mut m = String::new();
                push_str(&mut m, "No Location header in response");
                Err(TransferError::tus(m))
            },
            Some(bytes) => match header_to_str(bytes.as_slice()) {
                None => {
                    let mut m = String::new();
                    push_str(&mut m, "Failed to parse Location header: ");
                    let t = to_str_error_text();
                    push_str(&mut m, t.as_str());
                    Err(TransferError::tus(m))
                },
                Some(l) => ensure_location_complete(self.config.endpoint.as_str(), l.as_str()),
            },
        }
    }

    /// The request that asks how much of the upload at `upload_url` the
    /// server holds.
    pub fn get_upload_offset_request(&self, upload_url: &str) -> (r: Result<
        HttpRequest,
        TransferError,
    >)
        ensures
            r is Ok <==> headers_sound(version_headers(self.config)),
            r matches Err(e) ==> first_header_fault(version_headers(self.config), e@),
            r matches Ok(q) ==> {
                &&& q.method == HttpMethod::Head
                &&& q.url@ == upload_url@
                &&& headers_view(q.headers@) == version_headers(self.config)
                &&& q.appended@.len() == 0
            },
    {
        let mut headers: Vec<(String, String)> = Vec::new();
        headers.push(pair("Tus-Resumable", self.config.tus_version.as_str()));
        let mut extra = copy_pairs(&self.config.headers);
        headers.append(&mut extra);
        proof {
            assert(headers_view(headers@) =~= version_headers(self.config));
        }
        checked_request(HttpMethod::Head, upload_url, headers)
    }

    /// Reads the answer to an offset request.
    pub fn get_upload_offset_result(status: u16, offset: Option<Vec<u8>>) -> (r: Result<
        u64,
        TransferError,
    >)
        requires
            100 <= status <= 999,
        ensures
            number_outcome(r) == if !is_success(status) {
                Err(tus_fault("Failed to get upload offset: "@ + status_display(status)))
            } else {
                offset_field_outcome(bytes_view(offset))
            },
    {
        if !(200 <= status && status <= 299) {
            return Err(TransferError::tus(status_message("Failed to get upload offset: ", status)));
        }
        read_offset_field(offset)
    }

    /// The request that sends `length` bytes at `offset`.
    pub fn upload_chunk_request(&self, upload_url: &str, offset: u64, length: u64) -> (r: Result<
        HttpRequest,
        TransferError,
    >)
        ensures
            r is Ok <==> headers_sound(chunk_headers(self.config, offset, length)),
            r matches Err(e) ==> first_header_fault(chunk_headers(self.config, offset, length), e@),
            r matches Ok(q) ==> {
                &&& q.method == HttpMethod::Patch
                &&& q.url@ == upload_url@
                &&& headers_view(q.headers@) == chunk_headers(self.config, offset, length)
                &&& q.appended@.len() == 0
            },
    {
        let mut headers: Vec<(String, String)> = Vec::new();
        headers.push(pair("Tus-Resumable", self.config.tus_version.as_str()));
        headers.push(number_pair("Upload-Offset", offset));
        headers.push(pair("Content-Type", "application/offset+octet-stream"));
        headers.push(number_pair("Content-Length", length));
        let mut extra = copy_pairs(&self.config.headers);
        headers.append(&mut extra);
        proof {
            assert(headers_view(headers@) =~= chunk_headers(self.config, offset, length));
        }
        checked_request(HttpMethod::Patch, upload_url, headers)
    }

    /// Reads the answer to a chunk: the new offset.
    pub fn upload_chunk_result(status: u16, offset: Option<Vec<u8>>) -> (r: Result<u64, TransferError>)
        requires
            100 <= status <= 999,
        ensures
            number_outcome(r) == if status != 204 {
                Err(tus_fault("Upload failed: "@ + status_display(status)))
            } else {
                offset_field_outcome(bytes_view(offset))
            },
    {
        if status != 204 {
            return Err(TransferError::tus(status_message("Upload failed: ", status)));
        }
        read_offset_field(offset)
    }

    /// The progress that an offset request gave: the offset, or 0 where it
    /// failed.
    pub fn get_progress(offset: &Result<u64, TransferError>) -> (r: u64)
        ensures
            r == match offset {
                Ok(n) => *n,
                Err(_) => 0,
            },
    {
        match offset {
            Ok(n) => *n,
            Err(_) => 0,
        }
    }

    /// The request that deletes the upload at `destination` on cancellation:
    /// none where there is no upload yet or it is to be kept.
    pub fn cancel_request(&self, destination: &str) -> (r: Result<Option<HttpRequest>, TransferError>)
        ensures
            (destination@.len() == 0 || !self.options.delete_on_termination) ==> r == Ok::<
                Option<HttpRequest>,
                TransferError,
            >(None),
            (destination@.len() > 0 && self.options.delete_on_termination) ==> {
                &&& r is Ok <==> headers_sound(version_headers(self.config))
                &&& r matches Err(e) ==> first_header_fault(version_headers(self.config), e@)
                &&& r matches Ok(Some(q)) ==> {
                    &&& q.method == HttpMethod::Delete
                    &&& q.url@ == destination@
                    &&& headers_view(q.headers@) == version_headers(self.config)
                    &&& q.appended@.len() == 0
                }
                &&& !(r matches Ok(None))
            },
    {
        if destination.unicode_len() == 0 || !self.options.delete_on_termination {
            return Ok(None);
        }
        let mut headers: Vec<(String, String)> = Vec::new();
        headers.push(pair("Tus-Resumable", self.config.tus_version.as_str()));
        let mut extra = copy_pairs(&self.config.headers);
        headers.append(&mut extra);
        proof {
            assert(headers_view(headers@) =~= version_headers(self.config));
        }
        match checked_request(HttpMethod::Delete, destination, headers) {
            Ok(q) => Ok(Some(q)),
            Err(e) => Err(e),
        }
    }

    /// Reads the answer to the deletion: a success or `404` is fine.
    pub fn cancel_result(status: u16) -> (r: Result<(), TransferError>)
        requires
            100 <= status <= 999,
        ensures
            r is Ok <==> (is_success(status) || status == 404),
            r matches Err(e) ==> e@ == tus_fault("Failed to delete upload: "@ + status_display(status)),
    {
        if !(200 <= status && status <= 299) && status != 404 {
            return Err(TransferError::tus(status_message("Failed to delete upload: ", status)));
        }
        Ok(())
    }
}

/// Builds TUS uploads of one file to one endpoint.
pub struct TusUploadBuilder {
    pub source: String,
    pub config: TusConfig,
    pub options: TusUploadOptions,
}

impl TusUploadBuilder {
    /// An upload of `source` to `endpoint` with the default settings, which
    /// sends the token of the development settings in a `token` header.
    pub fn new(source: String, endpoint: String, env_config: &Config) -> (r: TusUploadBuilder)
        ensures
            r.source == source,
            r.config.endpoint == endpoint,
            headers_view(r.config.headers@) == seq![("token"@, env_config.token@)],
            r.config.chunk_size == 5 * 1024 * 1024,
            r.config.timeout_ms == 30_000,
            r.config.max_retries == 3,
            r.config.retry_delay_ms == 1000,
            r.config.tus_version@ == "1.0.0"@,
            r.config.use_creation_extension,
            r.options.metadata@.len() == 0,
            !r.options.delete_on_termination,
            r.options.upload_expires_in is None,
    {
        let mut config = TusConfig::default();
        config.endpoint = endpoint;
        config.headers.push(pair("token", env_config.token.as_str()));
        proof {
            assert(headers_view(config.headers@) =~= seq![("token"@, env_config.token@)]);
        }
        TusUploadBuilder { source, config, options: TusUploadOptions::default() }
    }

    /// The protocol over copies of the builder's settings and options.
    pub fn build_protocol(&self) -> (r: TusUploadProtocol)
        ensures
            r.config.endpoint@ == self.config.endpoint@,
            r.config.tus_version@ == self.config.tus_version@,
            r.config.headers@ == self.config.headers@,
            r.options.metadata@ == self.options.metadata@,
            r.options.delete_on_termination == self.options.delete_on_termination,
    {
        let config = TusConfig {
            endpoint: self.config.endpoint.clone(),
            chunk_size: self.config.chunk_size,
            timeout_ms: self.config.timeout_ms,
            max_retries: self.config.max_retries,
            retry_delay_ms: self.config.retry_delay_ms,
            tus_version: self.config.tus_version.clone(),
            use_creation_extension: self.config.use_creation_extension,
            headers: copy_pairs(&self.config.headers),
        };
        let options = TusUploadOptions {
            metadata: copy_pairs(&self.options.metadata),
            delete_on_termination: self.options.delete_on_termination,
            upload_expires_in: self.options.upload_expires_in,
        };
        TusUploadProtocol::new(config, options)
    }
}

/// Law: the answer 201 to a creation request gives the location it names,
/// kept where it starts with `http` and otherwise joined to the endpoint.
pub proof fn law_upload_creation_joins(endpoint: Seq<char>, bytes: Seq<u8>, location: Seq<char>)
    requires
        header_str(bytes) == Some(location),
    ensures
        starts_with_http(location) ==> upload_creation_outcome(endpoint, 201, Some(bytes)) == Ok::<
            Seq<char>,
            TransferFault,
        >(location),
        !starts_with_http(location) ==> (url_joined(endpoint, location) matches Ok(j)
            ==> upload_creation_outcome(endpoint, 201, Some(bytes)) == Ok::<Seq<char>, TransferFault>(j)),
        !starts_with_http(location) ==> (url_joined(endpoint, location) matches Err(m)
            ==> upload_creation_outcome(endpoint, 201, Some(bytes)) == Err::<Seq<char>, TransferFault>(
            TransferFault::URL(m),
        )),
{
}

} // verus!
