//! The TUS client of the upload manager: its requests and how it reads the
//! answers.
use vstd::prelude::*;
use crate::config::Config;
use crate::http::{
    base64_encode, base64_standard, begins_with_http, bytes_view, debug_quoted, debug_text,
    header_str, header_to_str, header_value_valid, headers_view, int_error_message, int_error_text,
    is_success, origin_of, parse_u64, starts_with_http, to_str_error_message, to_str_error_text,
    u64_from_str, url_origin, valid_header_value, HttpMethod, HttpRequest,
};
use crate::text::{decimal, join, joined, push_char, push_str, strings_view};
use crate::tus::exchange::{number_pair, pair};
use super::errors::{TusError, TusFault};

verus! {

/// How the file is sent.
#[derive(Debug, Clone, Copy, PartialEq, Eq, Structural)]
pub enum UploadStrategy {
    /// Not supported.
    Chunked,
    /// The default: the whole rest of the file in one request.
    Streaming,
}

/// The settings of a TUS client; the HTTP client itself and the request hook
/// stay with the runtime that sends the requests.
#[derive(Clone, Debug)]
pub struct TusClient {
    pub endpoint: String,
    pub buffer_size: usize,
    pub strategy: UploadStrategy,
    pub speed_limit: Option<u64>,
    pub headers: Vec<(String, String)>,
}

/// The value of a result of the client.
pub open spec fn tus_text_outcome(r: Result<String, TusError>) -> Result<Seq<char>, TusFault> {
    match r {
        Ok(s) => Ok(s@),
        Err(e) => Err(e@),
    }
}

pub open spec fn tus_number_outcome(r: Result<u64, TusError>) -> Result<u64, TusFault> {
    match r {
        Ok(n) => Ok(n),
        Err(e) => Err(e@),
    }
}

pub open spec fn tus_unit_outcome(r: Result<(), TusError>) -> Result<(), TusFault> {
    match r {
        Ok(_) => Ok(()),
        Err(e) => Err(e@),
    }
}

/// A server error with the given status and message.
pub open spec fn server_fault(status: u16, message: Seq<char>) -> TusFault {
    TusFault::ServerError { status_code: status, message }
}

/// What the `Upload-Offset` header of an answer with `status` gives.
pub open spec fn offset_header_outcome(status: u16, header: Option<Seq<u8>>) -> Result<u64, TusFault> {
    match header {
        None => Err(server_fault(status, "No 'upload-offset' header in response"@)),
        Some(bytes) => match header_str(bytes) {
            None => Err(
                server_fault(status, "Failed to parse header <Upload-Offset>: "@ + to_str_error_message()),
            ),
            Some(t) => match u64_from_str(t) {
                Ok(n) => Ok(n),
                Err(k) => Err(
                    server_fault(
                        status,
                        "Failed to parse header <Upload-Offset> to number: "@ + int_error_message(k),
                    ),
                ),
            },
        },
    }
}

/// The entries of the metadata header, as TUS 1.0.0 writes them: each key, a
/// space and the base64 of its value.
pub open spec fn encoded_entries(meta: Seq<(String, String)>) -> Seq<Seq<char>> {
    meta.map_values(|p: (String, String)| p.0@ + " "@ + base64_standard(p.1@))
}

/// The `Upload-Metadata` header for `meta`: its entries joined by commas.
pub fn encode_metadata(meta: &Vec<(String, String)>) -> (r: String)
    ensures
        r@ == joined(encoded_entries(meta@), ','),
{
    let mut parts: Vec<String> = Vec::new();
    let mut i: usize = 0;
    while i < meta.len()
        invariant
            i <= meta@.len(),
            strings_view(parts@) == encoded_entries(meta@.subrange(0, i as int)),
        decreases meta@.len() - i,
    {
        let mut s = String::new();
        push_str(&mut s, meta[i].0.as_str());
        push_char(&mut s, ' ');
        let encoded = base64_encode(meta[i].1.as_str());
        push_str(&mut s, encoded.as_str());
        let ghost before = parts@;
        let ghost sv = s@;
        parts.push(s);
        proof {
            reveal_strlit(" ");
            assert(sv == meta@[i as int].0@ + " "@ + base64_standard(meta@[i as int].1@));
            assert(strings_view(parts@) =~= strings_view(before).push(sv));
            assert(encoded_entries(meta@.subrange(0, i as int + 1)) =~= encoded_entries(
                meta@.subrange(0, i as int),
            ).push(sv));
        }
        i = i + 1;
    }
    assert(meta@.subrange(0, meta@.len() as int) == meta@);
    join(&parts, ',')
}

/// The headers of a creation request: the protocol version, the length and,
/// where there is metadata, its header; all are appended.
pub open spec fn client_creation_headers(file_size: u64, metadata: Option<Seq<(String, String)>>) -> Seq<
    (Seq<char>, Seq<char>),
> {
    seq![("Tus-Resumable"@, "1.0.0"@), ("Upload-Length"@, decimal(file_size as nat))] + match metadata {
        Some(m) => seq![("Upload-Metadata"@, joined(encoded_entries(m), ','))],
        None => Seq::empty(),
    }
}

pub open spec fn opt_pairs_view(m: Option<Vec<(String, String)>>) -> Option<Seq<(String, String)>> {
    match m {
        Some(v) => Some(v@),
        None => None,
    }
}

/// The origin of the endpoint followed by the location, or the error for an
/// endpoint that is no URL.
pub open spec fn relative_location_outcome(endpoint: Seq<char>, location: Seq<char>) -> Result<
    Seq<char>,
    TusFault,
> {
    match url_origin(endpoint) {
        Some(o) => Ok(o + location),
        None => Err(TusFault::ParamError("Invalid url: "@ + debug_quoted(endpoint))),
    }
}

/// What the answer to a creation request gives.
pub open spec fn client_creation_outcome(endpoint: Seq<char>, status: u16, location: Option<Seq<u8>>) -> Result<
    Seq<char>,
    TusFault,
> {
    if status != 201 {
        Err(server_fault(status, "Failed to create upload"@))
    } else {
        match location {
            None => Err(server_fault(status, "Not 'location' header in response"@)),
            Some(bytes) => match header_str(bytes) {
                None => Err(
                    server_fault(status, "Failed to parse location header: "@ + to_str_error_message()),
                ),
                Some(l) => if starts_with_http(l) {
                    Ok(l)
                } else {
                    relative_location_outcome(endpoint, l)
                },
            },
        }
    }
}

/// What the answer to a streaming upload gives: the upload's URL once the
/// server holds all `file_size` bytes.
pub open spec fn streaming_outcome(
    upload_url: Seq<char>,
    file_size: u64,
    status: u16,
    offset: Option<Seq<u8>>,
) -> Result<Seq<char>, TusFault> {
    if status != 204 {
        Err(server_fault(status, "Upload failed with status "@ + crate::http::status_display(status)))
    } else {
        match offset_header_outcome(status, offset) {
            Err(e) => Err(e),
            Ok(n) => if n != file_size {
                Err(TusFault::UploadIncomplete { expected: file_size, actual: n })
            } else {
                Ok(upload_url)
            },
        }
    }
}

/// The headers of the client's own requests.
pub open spec fn client_headers(token: Seq<char>) -> Seq<(Seq<char>, Seq<char>)> {
    seq![
        ("Tus-Resumable"@, "1.0.0"@),
        ("Authorization"@, token),
        ("mac-identifier"@, "media-web"@),
        ("mac-organization"@, "3"@),
    ]
}

fn copy_str(s: &str) -> (r: String)
    ensures
        r@ == s@,
{
    let mut t = String::new();
    push_str(&mut t, s);
    t
}

impl TusClient {
    /// A streaming client for `endpoint`, without speed limit or extra
    /// headers.
    pub fn new(endpoint: &str, buffer_size: usize) -> (r: TusClient)
        ensures
            r.endpoint@ == endpoint@,
            r.buffer_size == buffer_size,
            r.strategy == UploadStrategy::Streaming,
            r.speed_limit is None,
            r.headers@.len() == 0,
    {
        TusClient {
            endpoint: copy_str(endpoint),
            buffer_size,
            strategy: UploadStrategy::Streaming,
            speed_limit: None,
            headers: Vec::new(),
        }
    }

    /// The headers of the client's requests, with the configured token; the
    /// token must be a valid header value.
    pub fn create_headers(config: &Config) -> (r: Vec<(String, String)>)
        requires
            valid_header_value(config.token@),
        ensures
            headers_view(r@) == client_headers(config.token@),
    {
        let mut h: Vec<(String, String)> = Vec::new();
        h.push(pair("Tus-Resumable", "1.0.0"));
        h.push(pair("Authorization", config.token.as_str()));
        h.push(pair("mac-identifier", "media-web"));
        h.push(pair("mac-organization", "3"));
        proof {
            assert(headers_view(h@) =~= client_headers(config.token@));
        }
        h
    }

    /// Reads the `Upload-Offset` header of an answer with `status`.
    pub fn parse_offset_header(status: u16, header: Option<Vec<u8>>) -> (r: Result<u64, TusError>)
        ensures
            tus_number_outcome(r) == offset_header_outcome(status, bytes_view(header)),
    {
        match header {
            None => {
                let mut m = String::new();
                push_str(&mut m, "No 'upload-offset' header in response");
                Err(TusError::server_error(status, m))
            },
            Some(bytes) => match header_to_str(bytes.as_slice()) {
                None => {
                    let mut m = String::new();
                    push_str(&mut m, "Failed to parse header <Upload-Offset>: ");
                    let t = to_str_error_text();
                    push_str(&mut m, t.as_str());
                    Err(TusError::ServerError { status_code: status, message: m })
                },
                Some(t) => match parse_u64(t.as_str()) {
                    Ok(n) => Ok(n),
                    Err(k) => {
                        let mut m = String::new();
                        push_str(&mut m, "Failed to parse header <Upload-Offset> to number: ");
                        let kt = int_error_text(k);
                        push_str(&mut m, kt.as_str());
                        Err(TusError::ServerError { status_code: status, message: m })
                    },
                },
            },
        }
    }

    /// The request that creates an upload of `file_size` bytes; it fails
    /// where the encoded metadata is no valid header value.
    pub fn create_upload_request(&self, file_size: u64, metadata: Option<Vec<(String, String)>>) -> (r:
        Result<HttpRequest, TusError>)
        ensures
            r is Err <==> (metadata matches Some(m) && !valid_header_value(
                joined(encoded_entries(m@), ','),
            )),
            r matches Err(e) ==> e@ == TusFault::InvalidHeaderValue("failed to parse header value"@),
            r matches Ok(q) ==> {
                &&& q.method == HttpMethod::Post
                &&& q.url@ == self.endpoint@
                &&& q.headers@.len() == 0
                &&& headers_view(q.appended@) == client_creation_headers(
                    file_size,
                    opt_pairs_view(metadata),
                )
            },
    {
        let mut appended: Vec<(String, String)> = Vec::new();
        appended.push(pair("Tus-Resumable", "1.0.0"));
        appended.push(number_pair("Upload-Length", file_size));
        let ghost first = appended@;
        match metadata {
            Some(meta) => {
                let m = encode_metadata(&meta);
                if !header_value_valid(m.as_str()) {
                    let mut msg = String::new();
                    push_str(&mut msg, "failed to parse header value");
                    return Err(TusError::InvalidHeaderValue(msg));
                }
                let mut n = String::new();
                push_str(&mut n, "Upload-Metadata");
                appended.push((n, m));
                proof {
                    assert(headers_view(appended@) =~= client_creation_headers(file_size, Some(meta@)));
                }
            },
            None => {
                proof {
                    assert(headers_view(appended@) =~= client_creation_headers(file_size, None));
                }
            },
        }
        Ok(HttpRequest { method: HttpMethod::Post, url: copy_str(self.endpoint.as_str()), headers: Vec::new(), appended })
    }

    /// Reads the answer to the creation request: the upload's URL, absolute
    /// where the server gave one starting with `http`, else the endpoint's
    /// origin followed by the location.
    pub fn create_upload_result(&self, status: u16, location: Option<Vec<u8>>) -> (r: Result<
        String,
        TusError,
    >)
        ensures
            tus_text_outcome(r) == client_creation_outcome(self.endpoint@, status, bytes_view(location)),
            (status == 201 ==> (bytes_view(location) matches Some(b) ==> (header_str(b) matches Some(l) ==> (
                starts_with_http(l) ==> (r matches Ok(u) && u@ == l))))),
            (status == 201 ==> (bytes_view(location) matches Some(b) ==> (header_str(b) matches Some(l) ==> (
                !starts_with_http(l) ==> (url_origin(self.endpoint@) matches Some(o) ==> (r matches Ok(u) && u@
                == o + l)))))),
    {
        if status != 201 {
            let mut m = String::new();
            push_str(&mut m, "Failed to create upload");
            return Err(TusError::server_error(status, m));
        }
        match location {
            None => {
                let mut m = String::new();
                push_str(&mut m, "Not 'location' header in response");
                Err(TusError::server_error(status, m))
            },
            Some(bytes) => match header_to_str(bytes.as_slice()) {
                None => {
                    let mut m = String::new();
                    push_str(&mut m, "Failed to parse location header: ");
                    let t = to_str_error_text();
                    push_str(&mut m, t.as_str());
                    Err(TusError::ServerError { status_code: status, message: m })
                },
                Some(l) => {
                    if begins_with_http(l.as_str()) {
                        Ok(l)
                    } else {
                        match origin_of(self.endpoint.as_str()) {
                            Some(o) => {
                                let mut u = o;
                                push_str(&mut u, l.as_str());
                                Ok(u)
                            },
                            None => {
                                let mut m = String::new();
                                push_str(&mut m, "Invalid url: ");
                                let d = debug_text(self.endpoint.as_str());
                                push_str(&mut m, d.as_str());
                                Err(TusError::ParamError(m))
                            },
                        }
                    }
                },
            },
        }
    }

    /// The request that asks how much of the upload at `upload_url` the
    /// server holds.
    pub fn get_upload_offset_request(&self, upload_url: &str) -> (r: HttpRequest)
        ensures
            r.method == HttpMethod::Head,
            r.url@ == upload_url@,
            r.headers@.len() == 0,
            headers_view(r.appended@) == seq![("Tus-Resumable"@, "1.0.0"@)],
    {
        let mut appended: Vec<(String, String)> = Vec::new();
        appended.push(pair("Tus-Resumable", "1.0.0"));
        proof {
            assert(headers_view(appended@) =~= seq![("Tus-Resumable"@, "1.0.0"@)]);
        }
        HttpRequest { method: HttpMethod::Head, url: copy_str(upload_url), headers: Vec::new(), appended }
    }

    /// Reads the answer to an offset request: only `200` and `204` carry an
    /// offset.
    pub fn get_upload_offset_result(status: u16, offset: Option<Vec<u8>>) -> (r: Result<
        u64,
        TusError,
    >)
        ensures
            tus_number_outcome(r) == if status != 200 && status != 204 {
                Err(server_fault(status, "Failed to get upload offset"@))
            } else {
                offset_header_outcome(status, bytes_view(offset))
            },
    {
        if status != 200 && status != 204 {
            let mut m = String::new();
            push_str(&mut m, "Failed to get upload offset");
            return Err(TusError::server_error(status, m));
        }
        TusClient::parse_offset_header(status, offset)
    }

    /// The request that sends the rest of the file, from `offset` on.
    pub fn upload_file_streaming_request(&self, upload_url: &str, file_size: u64, offset: u64) -> (r:
        HttpRequest)
        requires
            offset <= file_size,
        ensures
            r.method == HttpMethod::Patch,
            r.url@ == upload_url@,
            r.headers@.len() == 0,
            headers_view(r.appended@) == seq![
                ("Tus-Resumable"@, "1.0.0"@),
                ("Content-Type"@, "application/offset+octet-stream"@),
                ("Content-Length"@, decimal((file_size - offset) as nat)),
                ("Upload-Offset"@, decimal(offset as nat)),
            ],
    {
        let remaining_size = file_size - offset;
        let mut appended: Vec<(String, String)> = Vec::new();
        appended.push(pair("Tus-Resumable", "1.0.0"));
        appended.push(pair("Content-Type", "application/offset+octet-stream"));
        appended.push(number_pair("Content-Length", remaining_size));
        appended.push(number_pair("Upload-Offset", offset));
        proof {
            assert(headers_view(appended@) =~= seq![
                ("Tus-Resumable"@, "1.0.0"@),
                ("Content-Type"@, "application/offset+octet-stream"@),
                ("Content-Length"@, decimal((file_size - offset) as nat)),
                ("Upload-Offset"@, decimal(offset as nat)),
            ]);
        }
        HttpRequest { method: HttpMethod::Patch, url: copy_str(upload_url), headers: Vec::new(), appended }
    }

    /// Reads the answer to the streaming upload.
    pub fn upload_file_streaming_result(
        upload_url: &str,
        file_size: u64,
        status: u16,
        offset: Option<Vec<u8>>,
    ) -> (r: Result<String, TusError>)
        requires
            100 <= status <= 999,
        ensures
            tus_text_outcome(r) == streaming_outcome(upload_url@, file_size, status, bytes_view(offset)),
    {
        if status != 204 {
            let mut m = String::new();
            push_str(&mut m, "Upload failed with status ");
            let st = crate::http::status_text(status);
            push_str(&mut m, st.as_str());
            return Err(TusError::server_error(status, m));
        }
        let final_offset = TusClient::parse_offset_header(status, offset);
        match final_offset {
            Err(e) => Err(e),
            Ok(n) => {
                if n != file_size {
                    Err(TusError::UploadIncomplete { expected: file_size, actual: n })
                } else {
                    Ok(copy_str(upload_url))
                }
            },
        }
    }

    /// The request that deletes the upload at `upload_url`, with the
    /// client's headers.
    pub fn cancel_upload_request(upload_url: &str, config: &Config) -> (r: HttpRequest)
        requires
            valid_header_value(config.token@),
        ensures
            r.method == HttpMethod::Delete,
            r.url@ == upload_url@,
            headers_view(r.headers@) == client_headers(config.token@),
            r.appended@.len() == 0,
    {
        HttpRequest {
            method: HttpMethod::Delete,
            url: copy_str(upload_url),
            headers: TusClient::create_headers(config),
            appended: Vec::new(),
        }
    }

    /// Reads the answer to a cancellation: a success or `404` (nothing left
    /// to delete) is fine.
    pub fn cancel_upload_result(status: u16) -> (r: Result<(), TusError>)
        ensures
            tus_unit_outcome(r) == if !is_success(status) && status != 404 {
                Err(server_fault(status, "Failed to cancel upload"@))
            } else {
                Ok(())
            },
    {
        if !(200 <= status && status <= 299) && status != 404 {
            let mut m = String::new();
            push_str(&mut m, "Failed to cancel upload");
            return Err(TusError::server_error(status, m));
        }
        Ok(())
    }
}

} // verus!
