//! What the TUS clients check and read in HTTP messages: header names and
//! values, header text, decimal offsets, status lines and locations.
use vstd::prelude::*;
use base64::Engine;
use crate::text::{decimal, digit_char, push_char, push_decimal, push_str};

verus! {

/// The methods that the TUS clients use.
#[derive(Clone, Copy, Debug, PartialEq, Eq, Structural)]
pub enum HttpMethod {
    Post,
    Head,
    Patch,
    Put,
    Delete,
}

/// A request for the HTTP client to send. The `headers` are inserted in
/// order, each replacing any earlier value of the same name; the `appended`
/// ones are added after them, beside any value of the same name.
#[derive(Clone, Debug)]
pub struct HttpRequest {
    pub method: HttpMethod,
    pub url: String,
    pub headers: Vec<(String, String)>,
    pub appended: Vec<(String, String)>,
}

/// The headers as a sequence of (name, value) texts.
pub open spec fn headers_view(h: Seq<(String, String)>) -> Seq<(Seq<char>, Seq<char>)> {
    h.map_values(|p: (String, String)| (p.0@, p.1@))
}

pub open spec fn opt_view(o: Option<String>) -> Option<Seq<char>> {
    match o {
        Some(s) => Some(s@),
        None => None,
    }
}

/// A received header's bytes, where it was there.
pub open spec fn bytes_view(o: Option<Vec<u8>>) -> Option<Seq<u8>> {
    match o {
        Some(b) => Some(b@),
        None => None,
    }
}

pub open spec fn result_view(r: Result<String, String>) -> Result<Seq<char>, Seq<char>> {
    match r {
        Ok(s) => Ok(s@),
        Err(e) => Err(e@),
    }
}

// ---------------------------------------------------------------- header names

/// A character that may stand in a header name (an RFC 7230 `tchar`).
pub open spec fn is_tchar(c: char) -> bool {
    ||| 'a' <= c <= 'z'
    ||| 'A' <= c <= 'Z'
    ||| '0' <= c <= '9'
    ||| c == '!' || c == '#' || c == '$' || c == '%' || c == '&' || c == '\''
    ||| c == '*' || c == '+' || c == '-' || c == '.' || c == '^' || c == '_'
    ||| c == '`' || c == '|' || c == '~'
}

/// The names that the HTTP library accepts: one to 65535 token characters.
pub open spec fn valid_header_name(s: Seq<char>) -> bool {
    &&& 1 <= s.len() <= 65535
    &&& forall|i: int| 0 <= i < s.len() ==> is_tchar(#[trigger] s[i])
}

fn tchar(c: char) -> (r: bool)
    ensures
        r == is_tchar(c),
{
    ('a' <= c && c <= 'z') || ('A' <= c && c <= 'Z') || ('0' <= c && c <= '9') || c == '!' || c
        == '#' || c == '$' || c == '%' || c == '&' || c == '\'' || c == '*' || c == '+' || c == '-'
        || c == '.' || c == '^' || c == '_' || c == '`' || c == '|' || c == '~'
}

/// Whether `s` is accepted as a header name.
pub fn header_name_valid(s: &str) -> (r: bool)
    ensures
        r == valid_header_name(s@),
{
    let n = s.unicode_len();
    if n == 0 || n > 65535 {
        return false;
    }
    let mut i: usize = 0;
    while i < n
        invariant
            n == s@.len(),
            i <= n,
            forall|k: int| 0 <= k < i ==> is_tchar(#[trigger] s@[k]),
        decreases n - i,
    {
        if !tchar(s.get_char(i)) {
            return false;
        }
        i = i + 1;
    }
    true
}

// --------------------------------------------------------------- header values

/// A character that may stand in a header value: a tab, or any character
/// from the space upwards except DEL (all bytes of a non-ASCII character are
/// at least 0x80, and so allowed).
pub open spec fn is_value_char(c: char) -> bool {
    c == '\t' || (' ' <= c && c != '\x7f')
}

pub open spec fn valid_header_value(s: Seq<char>) -> bool {
    forall|i: int| 0 <= i < s.len() ==> is_value_char(#[trigger] s[i])
}

/// Whether `s` is accepted as a header value.
pub fn header_value_valid(s: &str) -> (r: bool)
    ensures
        r == valid_header_value(s@),
{
    let n = s.unicode_len();
    let mut i: usize = 0;
    while i < n
        invariant
            n == s@.len(),
            i <= n,
            forall|k: int| 0 <= k < i ==> is_value_char(#[trigger] s@[k]),
        decreases n - i,
    {
        let c = s.get_char(i);
        if !(c == '\t' || (' ' <= c && c != '\x7f')) {
            return false;
        }
        i = i + 1;
    }
    true
}

// ---------------------------------------------------------------- header text

/// A byte that a header value may hold to be read as text: visible ASCII or a
/// tab.
pub open spec fn is_visible_ascii(b: u8) -> bool {
    (32 <= b && b < 127) || b == 9
}

/// The text of a received header value, as `HeaderValue::to_str` gives it:
/// the bytes as characters where every byte is visible ASCII, else nothing.
pub open spec fn header_str(bytes: Seq<u8>) -> Option<Seq<char>> {
    if forall|i: int| 0 <= i < bytes.len() ==> is_visible_ascii(#[trigger] bytes[i]) {
        Some(bytes.map_values(|b: u8| b as char))
    } else {
        None
    }
}

/// Reads a received header value as text.
pub fn header_to_str(bytes: &[u8]) -> (r: Option<String>)
    ensures
        opt_view(r) == header_str(bytes@),
{
    let mut s = String::new();
    let mut i: usize = 0;
    while i < bytes.len()
        invariant
            i <= bytes@.len(),
            forall|k: int| 0 <= k < i ==> is_visible_ascii(#[trigger] bytes@[k]),
            s@ == bytes@.subrange(0, i as int).map_values(|b: u8| b as char),
        decreases bytes@.len() - i,
    {
        let b = bytes[i];
        if !((32 <= b && b < 127) || b == 9) {
            return None;
        }
        push_char(&mut s, b as char);
        assert(bytes@.subrange(0, i + 1) == bytes@.subrange(0, i as int).push(b));
        i = i + 1;
    }
    assert(bytes@.subrange(0, bytes@.len() as int) == bytes@);
    Some(s)
}

/// What `ToStrError` displays.
pub open spec fn to_str_error_message() -> Seq<char> {
    "failed to convert header to a str"@
}

pub fn to_str_error_text() -> (r: String)
    ensures
        r@ == to_str_error_message(),
{
    let mut s = String::new();
    push_str(&mut s, "failed to convert header to a str");
    s
}

// ------------------------------------------------------------- decimal numbers

/// Why a text is not a `u64`, as `ParseIntError` tells it.
#[derive(Clone, Copy, Debug, PartialEq, Eq, Structural)]
pub enum IntErrorKind {
    Empty,
    InvalidDigit,
    PosOverflow,
}

pub open spec fn is_digit(c: char) -> bool {
    '0' <= c <= '9'
}

pub open spec fn digit_value(c: char) -> int {
    (c as int) - ('0' as int)
}

/// The outcome of reading the first `n` characters of `d` as decimal digits,
/// most significant first: the first character that is no digit, or the first
/// digit that takes the value past `u64::MAX`, stops it.
pub open spec fn scan_digits(d: Seq<char>, n: nat) -> Result<u64, IntErrorKind>
    decreases n,
{
    if n == 0 {
        Ok(0u64)
    } else {
        match scan_digits(d, (n - 1) as nat) {
            Err(e) => Err(e),
            Ok(v) => {
                let c = d[n - 1];
                if !is_digit(c) {
                    Err(IntErrorKind::InvalidDigit)
                } else if v * 10 + digit_value(c) > u64::MAX {
                    Err(IntErrorKind::PosOverflow)
                } else {
                    Ok((v * 10 + digit_value(c)) as u64)
                }
            },
        }
    }
}

/// Once reading stops with an error, reading further gives the same error.
pub proof fn lemma_scan_error_stays(d: Seq<char>, k: nat, m: nat)
    requires
        k <= m,
        scan_digits(d, k) is Err,
    ensures
        scan_digits(d, m) == scan_digits(d, k),
    decreases m - k,
{
    if k < m {
        lemma_scan_error_stays(d, k, (m - 1) as nat);
    }
}

/// `u64::from_str`: an optional `+`, then decimal digits only.
pub open spec fn u64_from_str(s: Seq<char>) -> Result<u64, IntErrorKind> {
    if s.len() == 0 {
        Err(IntErrorKind::Empty)
    } else if (s[0] == '+' || s[0] == '-') && s.len() == 1 {
        Err(IntErrorKind::InvalidDigit)
    } else if s[0] == '+' {
        scan_digits(s.drop_first(), (s.len() - 1) as nat)
    } else {
        scan_digits(s, s.len())
    }
}

/// Reads `s` as a `u64`, as `str::parse::<u64>` does.
pub fn parse_u64(s: &str) -> (r: Result<u64, IntErrorKind>)
    ensures
        r == u64_from_str(s@),
{
    let n = s.unicode_len();
    if n == 0 {
        return Err(IntErrorKind::Empty);
    }
    let first = s.get_char(0);
    if (first == '+' || first == '-') && n == 1 {
        return Err(IntErrorKind::InvalidDigit);
    }
    let start: usize = if first == '+' { 1 } else { 0 };
    let ghost d = s@.subrange(start as int, n as int);
    assert(start == 1 ==> d == s@.drop_first());
    assert(start == 0 ==> d == s@);
    let mut acc: u64 = 0;
    let mut i: usize = start;
    while i < n
        invariant
            n == s@.len(),
            start <= i <= n,
            d == s@.subrange(start as int, n as int),
            scan_digits(d, (i - start) as nat) == Ok::<u64, IntErrorKind>(acc),
            u64_from_str(s@) == scan_digits(d, d.len()),
            d.len() == n - start,
        decreases n - i,
    {
        let c = s.get_char(i);
        assert(d[i - start] == c);
        if !('0' <= c && c <= '9') {
            proof {
                lemma_scan_error_stays(d, (i - start + 1) as nat, d.len());
            }
            return Err(IntErrorKind::InvalidDigit);
        }
        let dv: u32 = (c as u32) - ('0' as u32);
        let next: u128 = (acc as u128) * 10 + (dv as u128);
        if next > 0xffff_ffff_ffff_ffffu128 {
            proof {
                lemma_scan_error_stays(d, (i - start + 1) as nat, d.len());
            }
            return Err(IntErrorKind::PosOverflow);
        }
        acc = next as u64;
        i = i + 1;
    }
    Ok(acc)
}

/// Reading a prefix does not look past it.
pub proof fn lemma_scan_prefix(d: Seq<char>, e: Seq<char>, n: nat)
    requires
        n <= d.len(),
        n <= e.len(),
        forall|i: int| 0 <= i < n ==> d[i] == e[i],
    ensures
        scan_digits(d, n) == scan_digits(e, n),
    decreases n,
{
    if n > 0 {
        lemma_scan_prefix(d, e, (n - 1) as nat);
    }
}

/// The decimal digits of `n` read back as `n`.
pub proof fn lemma_scan_decimal(n: u64)
    ensures
        scan_digits(decimal(n as nat), decimal(n as nat).len()) == Ok::<u64, IntErrorKind>(n),
    decreases n,
{
    let s = decimal(n as nat);
    if n < 10 {
        assert(s.len() == 1);
        assert(scan_digits(s, 0) == Ok::<u64, IntErrorKind>(0));
    } else {
        let q = (n / 10) as u64;
        let p = decimal(q as nat);
        lemma_scan_decimal(q);
        assert(s == p.push(digit_char((n % 10) as nat)));
        lemma_scan_prefix(p, s, p.len());
        assert(s[p.len() as int] == digit_char((n % 10) as nat));
        assert(digit_value(digit_char((n % 10) as nat)) == n % 10);
    }
}

/// Law: a number written in decimal, as the offset and length headers are, is
/// read back as the same number.
pub proof fn law_decimal_round_trip(n: u64)
    ensures
        u64_from_str(decimal(n as nat)) == Ok::<u64, IntErrorKind>(n),
{
    lemma_scan_decimal(n);
    assert(decimal(n as nat).len() >= 1) by {
        lemma_decimal_nonempty(n as nat);
    }
    assert(decimal(n as nat)[0] != '+' && decimal(n as nat)[0] != '-') by {
        lemma_decimal_digits(n as nat);
    }
}

pub proof fn lemma_decimal_nonempty(n: nat)
    ensures
        decimal(n).len() >= 1,
    decreases n,
{
    if n >= 10 {
        lemma_decimal_nonempty(n / 10);
    }
}

pub proof fn lemma_decimal_digits(n: nat)
    ensures
        forall|i: int| 0 <= i < decimal(n).len() ==> is_digit(#[trigger] decimal(n)[i]),
    decreases n,
{
    if n >= 10 {
        lemma_decimal_digits(n / 10);
        assert forall|i: int| 0 <= i < decimal(n).len() implies is_digit(#[trigger] decimal(n)[i]) by {
            if i < decimal(n / 10).len() {
                assert(decimal(n)[i] == decimal(n / 10)[i]);
            }
        }
    }
}

/// What a `ParseIntError` of each kind displays.
pub open spec fn int_error_message(k: IntErrorKind) -> Seq<char> {
    match k {
        IntErrorKind::Empty => "cannot parse integer from empty string"@,
        IntErrorKind::InvalidDigit => "invalid digit found in string"@,
        IntErrorKind::PosOverflow => "number too large to fit in target type"@,
    }
}

pub fn int_error_text(k: IntErrorKind) -> (r: String)
    ensures
        r@ == int_error_message(k),
{
    let mut s = String::new();
    match k {
        IntErrorKind::Empty => push_str(&mut s, "cannot parse integer from empty string"),
        IntErrorKind::InvalidDigit => push_str(&mut s, "invalid digit found in string"),
        IntErrorKind::PosOverflow => push_str(&mut s, "number too large to fit in target type"),
    }
    s
}

// ----------------------------------------------------------------- status line

/// The reason phrase that the HTTP library knows for a status code.
pub uninterp spec fn canonical_reason(code: u16) -> Option<Seq<char>>;

/// `StatusCode::canonical_reason` of the status `code`; `code` is a valid
/// status (100 to 999). The result is taken from the library's table and is
/// given a name here, not stated.
#[verifier::external_body]
fn reason_phrase(code: u16) -> (r: Option<String>)
    requires
        100 <= code <= 999,
    ensures
        opt_view(r) == canonical_reason(code),
{
    match reqwest::StatusCode::from_u16(code) {
        Ok(status) => match status.canonical_reason() {
            Some(p) => Some(p.to_string()),
            None => None,
        },
        Err(_) => None,
    }
}

/// How a status displays: its number, a space and its reason phrase.
pub open spec fn status_display(code: u16) -> Seq<char> {
    decimal(code as nat) + " "@ + match canonical_reason(code) {
        Some(r) => r,
        None => "<unknown status code>"@,
    }
}

/// The text of a status, as `StatusCode` displays it.
pub fn status_text(code: u16) -> (r: String)
    requires
        100 <= code <= 999,
    ensures
        r@ == status_display(code),
{
    let mut s = String::new();
    push_decimal(&mut s, code as u64);
    push_char(&mut s, ' ');
    assert(s@ == decimal(code as nat) + " "@) by {
        reveal_strlit(" ");
    }
    match reason_phrase(code) {
        Some(p) => push_str(&mut s, p.as_str()),
        None => push_str(&mut s, "<unknown status code>"),
    }
    s
}

/// A status of the 2xx class.
pub open spec fn is_success(code: u16) -> bool {
    200 <= code <= 299
}

// -------------------------------------------------------------------- locations

pub open spec fn starts_with_http(s: Seq<char>) -> bool {
    s.len() >= 4 && s[0] == 'h' && s[1] == 't' && s[2] == 't' && s[3] == 'p'
}

/// Whether `s` begins with `http`.
pub fn begins_with_http(s: &str) -> (r: bool)
    ensures
        r == starts_with_http(s@),
{
    s.unicode_len() >= 4 && s.get_char(0) == 'h' && s.get_char(1) == 't' && s.get_char(2) == 't'
        && s.get_char(3) == 'p'
}

/// What parsing `base` as a URL and joining `reference` to it gives: the
/// joined URL's text, or the message of the parse error.
pub uninterp spec fn url_joined(base: Seq<char>, reference: Seq<char>) -> Result<Seq<char>, Seq<char>>;

/// `url::Url::parse(base)` followed by `Url::join(reference)`, the result
/// taken as its text. The URL rules are the library's: the result is given a
/// name, not stated.
#[verifier::external_body]
pub(crate) fn join_url(base: &str, reference: &str) -> (r: Result<String, String>)
    ensures
        result_view(r) == url_joined(base@, reference@),
{
    match url::Url::parse(base) {
        Ok(u) => match u.join(reference) {
            Ok(joined) => Ok(joined.to_string()),
            Err(e) => Err(e.to_string()),
        },
        Err(e) => Err(e.to_string()),
    }
}

/// The ASCII serialization of the origin of the URL that `s` parses to, or
/// nothing where `s` is no URL.
pub uninterp spec fn url_origin(s: Seq<char>) -> Option<Seq<char>>;

/// `url::Url::parse(s)` followed by `origin().ascii_serialization()`. The
/// result is given a name, not stated.
#[verifier::external_body]
pub(crate) fn origin_of(s: &str) -> (r: Option<String>)
    ensures
        opt_view(r) == url_origin(s@),
{
    match url::Url::parse(s) {
        Ok(u) => Some(u.origin().ascii_serialization()),
        Err(_) => None,
    }
}

/// How `{:?}` shows a string: quoted, with escapes.
pub uninterp spec fn debug_quoted(s: Seq<char>) -> Seq<char>;

/// The `Debug` form of a string slice, from std's formatting.
#[verifier::external_body]
pub(crate) fn debug_text(s: &str) -> (r: String)
    ensures
        r@ == debug_quoted(s@),
{
    format!("{:?}", s)
}

// ---------------------------------------------------------------------- base64

/// The standard base64 encoding (with padding) of the UTF-8 bytes of `s`.
pub uninterp spec fn base64_standard(s: Seq<char>) -> Seq<char>;

/// `base64::engine::general_purpose::STANDARD.encode` of the bytes of `s`.
/// The encoding is the crate's: the result is given a name, not stated.
#[verifier::external_body]
pub(crate) fn base64_encode(s: &str) -> (r: String)
    ensures
        r@ == base64_standard(s@),
{
    base64::engine::general_purpose::STANDARD.encode(s)
}

} // verus!
