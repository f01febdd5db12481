//! The TUS exchanges of the transfer protocols: the requests they make and how
//! they read the answers. Sending is the HTTP client's; the decisions are here.
use vstd::prelude::*;
use crate::http::{
    bytes_view, headers_view,    begins_with_http, header_name_valid, header_str, header_to_str, header_value_valid, int_error_message,
    int_error_text, is_success, join_url, parse_u64, starts_with_http, status_display, status_text,
    to_str_error_message, to_str_error_text, u64_from_str, url_joined, valid_header_name,
    valid_header_value, HttpMethod, HttpRequest,
};
use crate::text::{decimal, decimal_string, push_str};
use crate::transfer::errors::{number_outcome, text_outcome, tus_fault, TransferError, TransferFault};
use crate::tus::task::copy_pairs;

verus! {

/// What is wrong with one configured header, if anything: its name is looked
/// at first, then its value.
pub open spec fn pair_fault(p: (Seq<char>, Seq<char>)) -> Option<TransferFault> {
    if !valid_header_name(p.0) {
        Some(TransferFault::Other("Invalid header name - invalid HTTP header name"@))
    } else if !valid_header_value(p.1) {
        Some(TransferFault::Other("Invalid header value - failed to parse header value"@))
    } else {
        None
    }
}

/// The configured headers hold no fault.
pub open spec fn headers_sound(h: Seq<(Seq<char>, Seq<char>)>) -> bool {
    forall|k: int| 0 <= k < h.len() ==> (#[trigger] pair_fault(h[k])) is None
}

/// `e` is the fault of the first faulty header of `h`.
pub open spec fn first_header_fault(h: Seq<(Seq<char>, Seq<char>)>, e: TransferFault) -> bool {
    exists|k: int|
        0 <= k < h.len() && headers_sound(h.subrange(0, k)) && pair_fault(#[trigger] h[k]) == Some(e)
}

/// Checks the configured headers in order, as building a header map from
/// them does, and gives them back where all are sound.
pub fn create_header_map(headers: &Vec<(String, String)>) -> (r: Result<
    Vec<(String, String)>,
    TransferError,
>)
    ensures
        r is Ok <==> headers_sound(headers_view(headers@)),
        r matches Ok(v) ==> v@ == headers@,
        r matches Err(e) ==> first_header_fault(headers_view(headers@), e@),
{
    let mut i: usize = 0;
    while i < headers.len()
        invariant
            i <= headers@.len(),
            headers_sound(headers_view(headers@.subrange(0, i as int))),
        decreases headers@.len() - i,
    {
        let name_ok = header_name_valid(headers[i].0.as_str());
        if !name_ok {
            let mut m = String::new();
            push_str(&mut m, "Invalid header name - invalid HTTP header name");
            assert(first_header_fault(headers_view(headers@), TransferFault::Other(m@))) by {
                assert(headers_view(headers@).subrange(0, i as int) =~= headers_view(headers@.subrange(0, i as int)));
                assert(pair_fault(headers_view(headers@)[i as int]) == Some(TransferFault::Other(m@)));
            }
            return Err(TransferError::Other(m));
        }
        let value_ok = header_value_valid(headers[i].1.as_str());
        if !value_ok {
            let mut m = String::new();
            push_str(&mut m, "Invalid header value - failed to parse header value");
            assert(first_header_fault(headers_view(headers@), TransferFault::Other(m@))) by {
                assert(headers_view(headers@).subrange(0, i as int) =~= headers_view(headers@.subrange(0, i as int)));
                assert(pair_fault(headers_view(headers@)[i as int]) == Some(TransferFault::Other(m@)));
            }
            return Err(TransferError::Other(m));
        }
        assert forall|k: int| 0 <= k < i + 1 implies (#[trigger] pair_fault(
            headers_view(headers@.subrange(0, i + 1))[k],
        )) is None by {
            if k < i {
                assert(headers_view(headers@.subrange(0, i + 1))[k] == headers_view(headers@.subrange(0, i as int))[k]);
            }
        }
        i = i + 1;
    }
    assert(headers@.subrange(0, headers@.len() as int) == headers@);
    Ok(copy_pairs(headers))
}

/// A header (name, value) pair made of two literals.
pub fn pair(name: &str, value: &str) -> (r: (String, String))
    ensures
        r.0@ == name@,
        r.1@ == value@,
{
    let mut n = String::new();
    push_str(&mut n, name);
    let mut v = String::new();
    push_str(&mut v, value);
    (n, v)
}

/// A header whose value is a number in decimal.
pub fn number_pair(name: &str, value: u64) -> (r: (String, String))
    ensures
        r.0@ == name@,
        r.1@ == decimal(value as nat),
{
    let mut n = String::new();
    push_str(&mut n, name);
    (n, decimal_string(value))
}

/// The answer to a creation request: the upload's URL, absolute where the
/// server gave one starting with `http`, else joined to the endpoint.
pub open spec fn creation_outcome(endpoint: Seq<char>, status: u16, location: Option<Seq<u8>>) -> Result<
    Seq<char>,
    TransferFault,
> {
    if status != 201 {
        Err(tus_fault("Failed to create upload: "@ + status_display(status)))
    } else {
        match location {
            None => Err(tus_fault("No Location header in response"@)),
            Some(bytes) => match header_str(bytes) {
                None => Err(TransferFault::Other(to_str_error_message())),
                Some(l) => location_outcome(endpoint, l),
            },
        }
    }
}

/// A location made complete: kept where it starts with `http`, else joined to
/// the endpoint, a URL error where that fails.
pub open spec fn location_outcome(endpoint: Seq<char>, location: Seq<char>) -> Result<
    Seq<char>,
    TransferFault,
> {
    if starts_with_http(location) {
        Ok(location)
    } else {
        match url_joined(endpoint, location) {
            Ok(u) => Ok(u),
            Err(m) => Err(TransferFault::URL(m)),
        }
    }
}

/// Makes a location absolute against the endpoint.
pub fn ensure_location_complete(endpoint: &str, location: &str) -> (r: Result<String, TransferError>)
    ensures
        text_outcome(r) == location_outcome(endpoint@, location@),
        starts_with_http(location@) ==> (r matches Ok(u) && u@ == location@),
        !starts_with_http(location@) ==> (url_joined(endpoint@, location@) matches Ok(j) ==> (r matches Ok(
            u,
        ) && u@ == j)),
        !starts_with_http(location@) ==> (url_joined(endpoint@, location@) matches Err(m) ==> (r matches Err(
            e,
        ) && e@ == TransferFault::URL(m))),
{
    if begins_with_http(location) {
        let mut s = String::new();
        push_str(&mut s, location);
        Ok(s)
    } else {
        match join_url(endpoint, location) {
            Ok(u) => Ok(u),
            Err(m) => Err(TransferError::URL(m)),
        }
    }
}

/// Reads the answer to a creation request.
pub fn creation_result(endpoint: &str, status: u16, location: Option<Vec<u8>>) -> (r: Result<
    String,
    TransferError,
>)
    requires
        100 <= status <= 999,
    ensures
        text_outcome(r) == creation_outcome(endpoint@, status, bytes_view(location)),
        (status == 201 ==> (bytes_view(location) matches Some(b) ==> (header_str(b) matches Some(l) ==> (
            starts_with_http(l) ==> (r matches Ok(u) && u@ == l))))),
        (status == 201 ==> (bytes_view(location) matches Some(b) ==> (header_str(b) matches Some(l) ==> (
            !starts_with_http(l) ==> (url_joined(endpoint@, l) matches Ok(j) ==> (r matches Ok(u) && u@ == j)))))),
        (status == 201 ==> (bytes_view(location) matches Some(b) ==> (header_str(b) matches Some(l) ==> (
            !starts_with_http(l) ==> (url_joined(endpoint@, l) matches Err(m) ==> (r matches Err(e) && e@
            == TransferFault::URL(m))))))),
{
    if status != 201 {
        let mut m = String::new();
        push_str(&mut m, "Failed to create upload: ");
        let st = status_text(status);
        push_str(&mut m, st.as_str());
        return Err(TransferError::tus(m));
    }
    match location {
        None => {
            let mut m = String::new();
            push_str(&mut m, "No Location header in response");
            Err(TransferError::tus(m))
        },
        Some(bytes) => match header_to_str(bytes.as_slice()) {
            None => Err(TransferError::Other(to_str_error_text())),
            Some(l) => ensure_location_complete(endpoint, l.as_str()),
        },
    }
}

/// The answer to an offset request: the number in its `Upload-Offset` header.
pub open spec fn offset_outcome(status: u16, offset: Option<Seq<u8>>) -> Result<u64, TransferFault> {
    if !is_success(status) {
        Err(tus_fault("Failed to get upload offset: "@ + status_display(status)))
    } else {
        match offset {
            None => Err(tus_fault("No Upload-Offset header in response"@)),
            Some(bytes) => match header_str(bytes) {
                None => Err(TransferFault::Other(to_str_error_message())),
                Some(t) => match u64_from_str(t) {
                    Ok(n) => Ok(n),
                    Err(k) => Err(tus_fault("Invalid Upload-Offset: "@ + int_error_message(k))),
                },
            },
        }
    }
}

/// Reads an `Upload-Offset` header that is there, as the protocol reads it.
fn read_offset(bytes: &[u8]) -> (r: Result<u64, TransferError>)
    ensures
        number_outcome(r) == match header_str(bytes@) {
            None => Err(TransferFault::Other(to_str_error_message())),
            Some(t) => match u64_from_str(t) {
                Ok(n) => Ok(n),
                Err(k) => Err(tus_fault("Invalid Upload-Offset: "@ + int_error_message(k))),
            },
        },
{
    match header_to_str(bytes) {
        None => Err(TransferError::Other(to_str_error_text())),
        Some(t) => match parse_u64(t.as_str()) {
            Ok(n) => Ok(n),
            Err(k) => {
                let mut m = String::new();
                push_str(&mut m, "Invalid Upload-Offset: ");
                let kt = int_error_text(k);
                push_str(&mut m, kt.as_str());
                Err(TransferError::tus(m))
            },
        },
    }
}

/// Reads the answer to an offset request.
pub fn offset_result(status: u16, offset: Option<Vec<u8>>) -> (r: Result<u64, TransferError>)
    requires
        100 <= status <= 999,
    ensures
        number_outcome(r) == offset_outcome(status, bytes_view(offset)),
{
    if !(200 <= status && status <= 299) {
        let mut m = String::new();
        push_str(&mut m, "Failed to get upload offset: ");
        let st = status_text(status);
        push_str(&mut m, st.as_str());
        return Err(TransferError::tus(m));
    }
    match offset {
        None => {
            let mut m = String::new();
            push_str(&mut m, "No Upload-Offset header in response");
            Err(TransferError::tus(m))
        },
        Some(bytes) => read_offset(bytes.as_slice()),
    }
}

/// The headers of a creation request, as they are put in: the protocol
/// version, the length, then the configured headers, which replace any of the
/// same name.
pub open spec fn creation_headers(length: u64, configured: Seq<(String, String)>) -> Seq<(Seq<char>, Seq<char>)> {
    seq![("Tus-Resumable"@, "1.0.0"@), ("Upload-Length"@, decimal(length as nat))] + headers_view(configured)
}

/// The creation request for an upload of `length` bytes.
pub fn creation_request(endpoint: &str, configured: &Vec<(String, String)>, length: u64) -> (r: Result<
    HttpRequest,
    TransferError,
>)
    ensures
        r is Ok <==> headers_sound(headers_view(configured@)),
        r matches Err(e) ==> first_header_fault(headers_view(configured@), e@),
        r matches Ok(q) ==> {
            &&& q.method == HttpMethod::Post
            &&& q.url@ == endpoint@
            &&& headers_view(q.headers@) == creation_headers(length, configured@)
            &&& q.appended@.len() == 0
        },
{
    let checked = create_header_map(configured);
    match checked {
        Err(e) => Err(e),
        Ok(extra) => {
            let mut headers: Vec<(String, String)> = Vec::new();
            headers.push(pair("Tus-Resumable", "1.0.0"));
            headers.push(number_pair("Upload-Length", length));
            let ghost first = headers@;
            let mut extra = extra;
            headers.append(&mut extra);
            let mut url = String::new();
            push_str(&mut url, endpoint);
            proof {
                assert(headers_view(headers@) =~= creation_headers(length, configured@));
            }
            Ok(HttpRequest { method: HttpMethod::Post, url, headers, appended: Vec::new() })
        },
    }
}

/// The headers of an offset request: the protocol version, then the
/// configured headers.
pub open spec fn offset_headers(configured: Seq<(String, String)>) -> Seq<(Seq<char>, Seq<char>)> {
    seq![("Tus-Resumable"@, "1.0.0"@)] + headers_view(configured)
}

/// The request that asks the server how much of an upload it holds.
pub fn offset_request(upload_url: &str, configured: &Vec<(String, String)>) -> (r: Result<
    HttpRequest,
    TransferError,
>)
    ensures
        r is Ok <==> headers_sound(headers_view(configured@)),
        r matches Err(e) ==> first_header_fault(headers_view(configured@), e@),
        r matches Ok(q) ==> {
            &&& q.method == HttpMethod::Head
            &&& q.url@ == upload_url@
            &&& headers_view(q.headers@) == offset_headers(configured@)
            &&& q.appended@.len() == 0
        },
{
    let checked = create_header_map(configured);
    match checked {
        Err(e) => Err(e),
        Ok(extra) => {
            let mut headers: Vec<(String, String)> = Vec::new();
            headers.push(pair("Tus-Resumable", "1.0.0"));
            let mut extra = extra;
            headers.append(&mut extra);
            let mut url = String::new();
            push_str(&mut url, upload_url);
            proof {
                assert(headers_view(headers@) =~= offset_headers(configured@));
            }
            Ok(HttpRequest { method: HttpMethod::Head, url, headers, appended: Vec::new() })
        },
    }
}

/// The headers appended to the request that sends the file: the protocol
/// version, the content type, the length and the offset.
pub open spec fn stream_headers(total: u64, offset: u64) -> Seq<(Seq<char>, Seq<char>)> {
    seq![
        ("Tus-Resumable"@, "1.0.0"@),
        ("Content-Type"@, "application/offset+octet-stream"@),
        ("Content-Length"@, decimal(total as nat)),
        ("Upload-Offset"@, decimal(offset as nat)),
    ]
}

/// The request that sends the file to `destination` from `offset` on: the
/// configured headers are put in first, the protocol's appended after them.
pub fn stream_request(
    destination: &str,
    configured: &Vec<(String, String)>,
    total: u64,
    offset: u64,
) -> (r: Result<HttpRequest, TransferError>)
    ensures
        r is Ok <==> headers_sound(headers_view(configured@)),
        r matches Err(e) ==> first_header_fault(headers_view(configured@), e@),
        r matches Ok(q) ==> {
            &&& q.method == HttpMethod::Patch
            &&& q.url@ == destination@
            &&& q.headers@ == configured@
            &&& headers_view(q.appended@) == stream_headers(total, offset)
            &&& q.appended@.len() == 4
            &&& headers_view(q.appended@)[0] == ("Tus-Resumable"@, "1.0.0"@)
            &&& headers_view(q.appended@)[1] == ("Content-Type"@, "application/offset+octet-stream"@)
            &&& headers_view(q.appended@)[2] == ("Content-Length"@, decimal(total as nat))
            &&& headers_view(q.appended@)[3] == ("Upload-Offset"@, decimal(offset as nat))
        },
{
    let checked = create_header_map(configured);
    match checked {
        Err(e) => Err(e),
        Ok(headers) => {
            let mut appended: Vec<(String, String)> = Vec::new();
            appended.push(pair("Tus-Resumable", "1.0.0"));
            appended.push(pair("Content-Type", "application/offset+octet-stream"));
            appended.push(number_pair("Content-Length", total));
            appended.push(number_pair("Upload-Offset", offset));
            let mut url = String::new();
            push_str(&mut url, destination);
            proof {
                assert(headers_view(appended@) =~= stream_headers(total, offset));
            }
            Ok(HttpRequest { method: HttpMethod::Patch, url, headers, appended })
        },
    }
}

/// Law: the request that sends the file says where the bytes go and how many
/// there are: its `Content-Length` is the whole size and its `Upload-Offset`
/// the offset the server holds, after the protocol version and content type.
pub proof fn law_stream_headers(total: u64, offset: u64)
    ensures
        stream_headers(total, offset).len() == 4,
        stream_headers(total, offset)[0] == ("Tus-Resumable"@, "1.0.0"@),
        stream_headers(total, offset)[1] == ("Content-Type"@, "application/offset+octet-stream"@),
        stream_headers(total, offset)[2] == ("Content-Length"@, decimal(total as nat)),
        stream_headers(total, offset)[3] == ("Upload-Offset"@, decimal(offset as nat)),
{
}

/// Law: a location that starts with `http` is kept, any other is the URL join
/// of the endpoint and the location (a URL error where the join fails), for
/// a single location and for the answer to a creation request.
pub proof fn law_location_joined(endpoint: Seq<char>, location: Seq<char>, bytes: Seq<u8>)
    ensures
        starts_with_http(location) ==> location_outcome(endpoint, location) == Ok::<Seq<char>, TransferFault>(
            location,
        ),
        !starts_with_http(location) ==> (url_joined(endpoint, location) matches Ok(j)
            ==> location_outcome(endpoint, location) == Ok::<Seq<char>, TransferFault>(j)),
        !starts_with_http(location) ==> (url_joined(endpoint, location) matches Err(m)
            ==> location_outcome(endpoint, location) == Err::<Seq<char>, TransferFault>(TransferFault::URL(m))),
        header_str(bytes) == Some(location) ==> creation_outcome(endpoint, 201, Some(bytes)) == location_outcome(
            endpoint,
            location,
        ),
{
}

} // verus!
