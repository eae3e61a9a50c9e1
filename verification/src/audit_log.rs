//! Extraction of audit fields from HTTP requests and responses.
use vstd::prelude::*;

use crate::audit_record::{AuditRecord, AuditRecordBuilder};
use crate::connect_info::ConnectionInformation;
use crate::http_headers::{
    connect_info, extensions_connect_info, extensions_request_id, header_first_value,
    header_lookup, header_values, request_id_bytes,
};
use crate::time::UnixTime;
use crate::text::{all_ascii, ascii_string, ascii_text};

verus! {

/// Maximum number of header values to capture for header-related fields.
/// Prevents header stuffing DoS attacks.
pub const MAXIMUM_HEADER_COUNT: usize = 3;

/// Maximum header length in bytes before truncating the value.
/// Prevents header stuffing DoS attacks.
pub const MAXIMUM_HEADER_VALUE_LENGTH: usize = 1024;

/// Position of header to extract when multiple headers with the same name exist.
#[derive(Debug, Clone, Copy, PartialEq, Eq, Structural)]
pub enum HeaderPosition {
    /// Extract all header values
    All,
    /// Extract the first header value
    First,
    /// Extract the last header value
    Last,
}

impl Default for HeaderPosition {
    fn default() -> (position: Self)
        ensures
            position == HeaderPosition::All,
    {
        HeaderPosition::All
    }
}

/// A byte that a header value may hold and still be read as text:
/// visible ASCII or a horizontal tab.
pub open spec fn is_visible_ascii(b: u8) -> bool {
    (32 <= b && b < 127) || b == 9
}

pub open spec fn is_visible_ascii_value(value: Seq<u8>) -> bool {
    forall|i: int| 0 <= i < value.len() ==> is_visible_ascii(#[trigger] value[i])
}

/// The values that can be read as text, in their order.
pub open spec fn readable_values(values: Seq<Seq<u8>>) -> Seq<Seq<u8>>
    decreases values.len(),
{
    if values.len() == 0 {
        Seq::empty()
    } else {
        let rest = readable_values(values.drop_last());
        if is_visible_ascii_value(values.last()) {
            rest.push(values.last())
        } else {
            rest
        }
    }
}

/// The text kept of a header value: at most `MAXIMUM_HEADER_VALUE_LENGTH` bytes.
pub open spec fn kept_text(value: Seq<u8>) -> Seq<char> {
    if value.len() > MAXIMUM_HEADER_VALUE_LENGTH {
        ascii_text(value.take(MAXIMUM_HEADER_VALUE_LENGTH as int))
    } else {
        ascii_text(value)
    }
}

/// Whether some value is longer than `MAXIMUM_HEADER_VALUE_LENGTH` bytes.
pub open spec fn has_overlong_value(values: Seq<Seq<u8>>) -> bool {
    exists|i: int| 0 <= i < values.len() && #[trigger] values[i].len() > MAXIMUM_HEADER_VALUE_LENGTH
}

/// The values that `header_position` and `max_count` select, before any is read as text.
pub open spec fn selected_values(
    values: Seq<Seq<u8>>,
    max_count: Option<usize>,
    header_position: Option<HeaderPosition>,
) -> Seq<Seq<u8>> {
    match header_position {
        Some(HeaderPosition::First) => values.take(if values.len() < 1 { values.len() as int } else { 1 }),
        Some(HeaderPosition::Last) => if values.len() == 0 {
            Seq::empty()
        } else {
            seq![values.last()]
        },
        _ => {
            let count = match max_count {
                Some(n) => n as int,
                None => MAXIMUM_HEADER_COUNT as int,
            };
            values.take(if values.len() < count { values.len() as int } else { count })
        },
    }
}

pub open spec fn string_views(strings: Seq<String>) -> Seq<Seq<char>> {
    strings.map_values(|s: String| s@)
}

/// What reading `values` as text gives: `None` when none is readable, otherwise the
/// readable values, each cut to the maximum length; and whether any readable value
/// had to be cut.
pub open spec fn extracted_text(values: Seq<Seq<u8>>) -> (Option<Seq<Seq<char>>>, bool) {
    let readable = readable_values(values);
    (
        if readable.len() == 0 {
            None
        } else {
            Some(readable.map_values(|b: Seq<u8>| kept_text(b)))
        },
        has_overlong_value(readable),
    )
}

pub open spec fn strings_view(strings: Option<Vec<String>>) -> Option<Seq<Seq<char>>> {
    match strings {
        Some(v) => Some(string_views(v@)),
        None => None,
    }
}

pub open spec fn extraction_view(result: (Option<Vec<String>>, bool)) -> (Option<Seq<Seq<char>>>, bool) {
    (strings_view(result.0), result.1)
}

/// What `extract_header_values` gives for a header of a request.
pub open spec fn request_header_text(
    headers: http::HeaderMap,
    header_name: Seq<char>,
    max_count: Option<usize>,
    header_position: Option<HeaderPosition>,
) -> (Option<Seq<Seq<char>>>, bool) {
    extracted_text(selected_values(header_lookup(headers, header_name), max_count, header_position))
}

fn is_readable_value(value: &Vec<u8>) -> (readable: bool)
    ensures
        readable == is_visible_ascii_value(value@),
{
    let mut i: usize = 0;
    while i < value.len()
        invariant
            0 <= i <= value.len(),
            forall|j: int| 0 <= j < i ==> is_visible_ascii(#[trigger] value@[j]),
        decreases value.len() - i,
    {
        let b = value[i];
        if !((32 <= b && b < 127) || b == 9) {
            return false;
        }
        i = i + 1;
    }
    true
}

fn extract_header_values_with_truncation(header_values: Vec<Vec<u8>>) -> (result: (
    Option<Vec<String>>,
    bool,
))
    ensures
        extraction_view(result) == extracted_text(header_values@.map_values(|v: Vec<u8>| v@)),
{
    let ghost values = header_values@.map_values(|v: Vec<u8>| v@);
    let mut was_truncated = false;
    let mut kept: Vec<String> = Vec::new();
    let mut i: usize = 0;
    while i < header_values.len()
        invariant
            0 <= i <= header_values.len(),
            values == header_values@.map_values(|v: Vec<u8>| v@),
            string_views(kept@) == readable_values(values.take(i as int)).map_values(
                |b: Seq<u8>| kept_text(b),
            ),
            was_truncated == has_overlong_value(readable_values(values.take(i as int))),
        decreases header_values.len() - i,
    {
        assert(values.take(i + 1).drop_last() =~= values.take(i as int));
        assert(values.take(i + 1).last() == header_values@[i as int]@);
        let ghost before = readable_values(values.take(i as int));
        if is_readable_value(&header_values[i]) {
            let mut value = header_values[i].clone();
            assert(value@ =~= header_values@[i as int]@);
            let long = value.len() > MAXIMUM_HEADER_VALUE_LENGTH;
            if long {
                value.truncate(MAXIMUM_HEADER_VALUE_LENGTH);
                was_truncated = true;
            }
            assert(all_ascii(value@));
            let ghost kept_before = kept@;
            let text = ascii_string(value);
            assert(text@ == kept_text(header_values@[i as int]@)) by {
                if long {
                    assert(value@ =~= header_values@[i as int]@.take(MAXIMUM_HEADER_VALUE_LENGTH as int));
                }
            }
            kept.push(text);
            assert(kept@ =~= kept_before.push(text));
            assert(string_views(kept@) =~= string_views(kept_before).push(text@));
            let ghost after = readable_values(values.take(i + 1));
            assert(after == before.push(header_values@[i as int]@));
            assert(string_views(kept@) =~= after.map_values(|b: Seq<u8>| kept_text(b)));
            assert(has_overlong_value(after) == (has_overlong_value(before) || long)) by {
                if long {
                    assert(after[after.len() - 1].len() > MAXIMUM_HEADER_VALUE_LENGTH);
                }
                if has_overlong_value(after) && !long {
                    let k = choose|k: int| 0 <= k < after.len() && #[trigger] after[k].len() > MAXIMUM_HEADER_VALUE_LENGTH;
                    assert(k < before.len());
                    assert(after[k] == before[k]);
                }
                if has_overlong_value(before) {
                    let k = choose|k: int| 0 <= k < before.len() && #[trigger] before[k].len() > MAXIMUM_HEADER_VALUE_LENGTH;
                    assert(after[k] == before[k]);
                }
            }
        }
        i = i + 1;
    }
    assert(values.take(header_values.len() as int) =~= values);
    if kept.len() == 0 {
        (None, was_truncated)
    } else {
        let result = (Some(kept), was_truncated);
        assert(extraction_view(result).0 == extracted_text(values).0);
        result
    }
}

/// How many values an extraction keeps at most: one for the first or last value,
/// otherwise `max_count`, by default `MAXIMUM_HEADER_COUNT`.
pub open spec fn header_count_limit(max_count: Option<usize>, header_position: Option<HeaderPosition>) -> int {
    match header_position {
        Some(HeaderPosition::First) | Some(HeaderPosition::Last) => 1,
        _ => match max_count {
            Some(n) => n as int,
            None => MAXIMUM_HEADER_COUNT as int,
        },
    }
}

proof fn lemma_readable_values_len(values: Seq<Seq<u8>>)
    ensures
        readable_values(values).len() <= values.len(),
    decreases values.len(),
{
    if values.len() > 0 {
        lemma_readable_values_len(values.drop_last());
    }
}

/// Header stuffing cannot grow an audit record: an extraction keeps at most
/// `header_count_limit` values, each of at most `MAXIMUM_HEADER_VALUE_LENGTH` characters.
pub proof fn lemma_extracted_header_values_bounded(
    headers: http::HeaderMap,
    header_name: Seq<char>,
    max_count: Option<usize>,
    header_position: Option<HeaderPosition>,
)
    ensures
        request_header_text(headers, header_name, max_count, header_position).0 matches Some(texts) ==> (
        texts.len() <= header_count_limit(max_count, header_position) && forall|i: int|
            0 <= i < texts.len() ==> #[trigger] texts[i].len() <= MAXIMUM_HEADER_VALUE_LENGTH),
{
    let selected = selected_values(header_lookup(headers, header_name), max_count, header_position);
    lemma_readable_values_len(selected);
    assert(selected.len() <= header_count_limit(max_count, header_position));
}

/// Extract header values from request headers, limiting count and value length.
///
/// Returns (values, was_truncated) where:
/// - values is None if no readable values of the header are present
/// - was_truncated is true if any header exceeded `MAXIMUM_HEADER_VALUE_LENGTH`
pub fn extract_header_values(
    headers: &http::HeaderMap,
    header_name: &str,
    max_count: Option<usize>,
    header_position: Option<HeaderPosition>,
) -> (result: (Option<Vec<String>>, bool))
    ensures
        extraction_view(result) == request_header_text(*headers, header_name@, max_count, header_position),
{
    let position = match header_position {
        Some(position) => position,
        None => HeaderPosition::default(),
    };
    let mut values = header_values(headers, header_name);
    let ghost all = header_lookup(*headers, header_name@);
    match position {
        HeaderPosition::All => {
            let count = match max_count {
                Some(n) => n,
                None => MAXIMUM_HEADER_COUNT,
            };
            values.truncate(count);
        },
        HeaderPosition::First => {
            values.truncate(1);
        },
        HeaderPosition::Last => {
            match values.pop() {
                Some(last) => {
                    values = Vec::new();
                    values.push(last);
                },
                None => {},
            }
        },
    }
    assert(values@.map_values(|v: Vec<u8>| v@) =~= selected_values(all, max_count, header_position));
    extract_header_values_with_truncation(values)
}

/// The OCSF status identifier of an HTTP response code:
/// `1` (success) for 2xx and 3xx, `2` (failure) for 4xx and 5xx, `0` (unknown) otherwise.
pub open spec fn status_id_of(code: u16) -> u16 {
    if 200 <= code < 400 {
        1
    } else if 400 <= code < 600 {
        2
    } else {
        0
    }
}

/// Determine status ID from an HTTP response code.
pub fn extract_status_id(code: u16) -> (id: u16)
    ensures
        id == status_id_of(code),
{
    if 200 <= code && code < 400 {
        1
    } else if 400 <= code && code < 600 {
        2
    } else {
        0
    }
}


/// Only failures get a status code name: a success never has one, and a code with a
/// name is a failure.
pub proof fn lemma_status_code_only_for_failures(code: u16)
    ensures
        status_code_name(code) is Some ==> status_id_of(code) == 2,
        status_id_of(code) == 1 ==> status_code_name(code) is None,
{
}

/// Calls `http::Response::status` and `http::StatusCode::as_u16`.
///
/// Claimed: the code is a valid HTTP status code, in `100..=999`, as `http::StatusCode`
/// guarantees. Which code of a given response it is, is not stated here.
#[verifier::external_body]
pub fn extract_http_response_code<T>(response: &http::Response<T>) -> (code: u16)
    ensures
        100 <= code <= 999,
{
    response.status().as_u16()
}

/// The OCSF status code name of an HTTP error response code; `None` for success
/// codes and for codes without a name.
pub open spec fn status_code_name(code: u16) -> Option<Seq<char>> {
    if code == 400 {
        Some("BadRequest"@)
    } else if code == 401 {
        Some("Unauthorized"@)
    } else if code == 403 {
        Some("Forbidden"@)
    } else if code == 404 {
        Some("NotFound"@)
    } else if code == 405 {
        Some("MethodNotAllowed"@)
    } else if code == 406 {
        Some("NotAcceptable"@)
    } else if code == 407 {
        Some("ProxyAuthenticationRequired"@)
    } else if code == 408 {
        Some("RequestTimeout"@)
    } else if code == 409 {
        Some("Conflict"@)
    } else if code == 410 {
        Some("Gone"@)
    } else if code == 411 {
        Some("LengthRequired"@)
    } else if code == 412 {
        Some("FailedPrecondition"@)
    } else if code == 413 {
        Some("PayloadTooLarge"@)
    } else if code == 414 {
        Some("UriTooLong"@)
    } else if code == 415 {
        Some("UnsupportedMediaType"@)
    } else if code == 417 {
        Some("FailedExpectation"@)
    } else if code == 425 {
        Some("TooEarly"@)
    } else if code == 429 {
        Some("TooManyRequests"@)
    } else if code == 431 {
        Some("HeadersTooLarge"@)
    } else if code == 500 {
        Some("InternalError"@)
    } else {
        None
    }
}

pub open spec fn option_string_view(s: Option<String>) -> Option<Seq<char>> {
    match s {
        Some(t) => Some(t@),
        None => None,
    }
}

/// Map an HTTP status code to its OCSF status code name.
///
/// Returns None for 2xx and 3xx status codes (success responses), and for
/// error codes without a name.
pub fn extract_status_code(code: u16) -> (name: Option<String>)
    ensures
        option_string_view(name) == status_code_name(code),
{
    let text = if code == 400 {
        "BadRequest"
    } else if code == 401 {
        "Unauthorized"
    } else if code == 403 {
        "Forbidden"
    } else if code == 404 {
        "NotFound"
    } else if code == 405 {
        "MethodNotAllowed"
    } else if code == 406 {
        "NotAcceptable"
    } else if code == 407 {
        "ProxyAuthenticationRequired"
    } else if code == 408 {
        "RequestTimeout"
    } else if code == 409 {
        "Conflict"
    } else if code == 410 {
        "Gone"
    } else if code == 411 {
        "LengthRequired"
    } else if code == 412 {
        "FailedPrecondition"
    } else if code == 413 {
        "PayloadTooLarge"
    } else if code == 414 {
        "UriTooLong"
    } else if code == 415 {
        "UnsupportedMediaType"
    } else if code == 417 {
        "FailedExpectation"
    } else if code == 425 {
        "TooEarly"
    } else if code == 429 {
        "TooManyRequests"
    } else if code == 431 {
        "HeadersTooLarge"
    } else if code == 500 {
        "InternalError"
    } else {
        return None;
    };
    Some(text.to_owned())
}

/// The value of a run of ASCII decimal digits.
pub open spec fn digits_value(digits: Seq<u8>) -> nat
    decreases digits.len(),
{
    if digits.len() == 0 {
        0
    } else {
        digits_value(digits.drop_last()) * 10 + (digits.last() - 48) as nat
    }
}

pub open spec fn is_decimal_digit(b: u8) -> bool {
    48 <= b && b <= 57
}

pub open spec fn all_decimal_digits(digits: Seq<u8>) -> bool {
    forall|i: int| 0 <= i < digits.len() ==> is_decimal_digit(#[trigger] digits[i])
}

/// The digits of an unsigned decimal number: a leading `+` is allowed.
pub open spec fn unsigned_digits(text: Seq<u8>) -> Seq<u8> {
    if text.len() > 0 && text[0] == 43 {
        text.drop_first()
    } else {
        text
    }
}

/// The `u64` that a text denotes, as Rust's `u64::from_str` reads it: an optional `+`,
/// then one or more decimal digits, the value within range.
pub open spec fn decimal_u64(text: Seq<u8>) -> Option<u64> {
    let digits = unsigned_digits(text);
    if digits.len() > 0 && all_decimal_digits(digits) && digits_value(digits) <= u64::MAX {
        Some(digits_value(digits) as u64)
    } else {
        None
    }
}

proof fn lemma_digits_value_prefix(digits: Seq<u8>, k: int)
    requires
        0 <= k <= digits.len(),
        all_decimal_digits(digits),
    ensures
        digits_value(digits.take(k)) <= digits_value(digits),
    decreases digits.len(),
{
    if k < digits.len() {
        let shorter = digits.drop_last();
        assert(all_decimal_digits(shorter)) by {
            assert forall|i: int| 0 <= i < shorter.len() implies is_decimal_digit(#[trigger] shorter[i]) by {
                assert(shorter[i] == digits[i]);
            }
        }
        lemma_digits_value_prefix(shorter, k);
        assert(shorter.take(k) =~= digits.take(k));
    } else {
        assert(digits.take(k) =~= digits);
    }
}

/// Read an unsigned decimal number as Rust's `u64::from_str` does.
pub fn parse_decimal_u64(text: &Vec<u8>) -> (value: Option<u64>)
    ensures
        value == decimal_u64(text@),
{
    let ghost digits = unsigned_digits(text@);
    let start: usize = if text.len() > 0 && text[0] == 43 { 1 } else { 0 };
    assert(digits =~= text@.subrange(start as int, text@.len() as int));
    if start == text.len() {
        return None;
    }
    let mut acc: u64 = 0;
    let mut i: usize = start;
    while i < text.len()
        invariant
            start <= i <= text.len(),
            digits == unsigned_digits(text@),
            digits.len() > 0,
            digits =~= text@.subrange(start as int, text@.len() as int),
            all_decimal_digits(digits.take(i - start)),
            acc as nat == digits_value(digits.take(i - start)),
        decreases text.len() - i,
    {
        let b = text[i];
        let ghost k = i - start;
        assert(digits.take(k + 1).drop_last() =~= digits.take(k));
        assert(digits.take(k + 1).last() == b);
        if !(48 <= b && b <= 57) {
            assert(!all_decimal_digits(digits)) by {
                assert(digits[k] == b);
            }
            return None;
        }
        let d = (b - 48) as u64;
        if acc > 1844674407370955161 || (acc == 1844674407370955161 && d > 5) {
            assert(digits_value(digits.take(k + 1)) > u64::MAX);
            proof {
                if all_decimal_digits(digits) {
                    lemma_digits_value_prefix(digits, k + 1);
                }
            }
            return None;
        }
        acc = acc * 10 + d;
        i = i + 1;
        assert(all_decimal_digits(digits.take(i - start))) by {
            assert forall|j: int| 0 <= j < digits.take(i - start).len() implies is_decimal_digit(
                #[trigger] digits.take(i - start)[j],
            ) by {
                if j < k {
                    assert(digits.take(i - start)[j] == digits.take(k)[j]);
                }
            }
        }
    }
    assert(digits.take(text.len() - start) =~= digits);
    Some(acc)
}

/// The response length that a response's headers give: `0` without a
/// `content-length` header, otherwise the number its first value denotes.
pub open spec fn content_length_of(headers: http::HeaderMap) -> Option<u64> {
    let values = header_lookup(headers, "content-length"@);
    if values.len() == 0 {
        Some(0)
    } else {
        decimal_u64(values[0])
    }
}

/// Read the HTTP response content length from response headers: `Some(0)` when the
/// header is missing, `None` when its value is not a non-negative integer.
pub fn try_extract_http_response_length(headers: &http::HeaderMap) -> (length: Option<u64>)
    ensures
        length == content_length_of(*headers),
{
    match header_first_value(headers, "content-length") {
        None => Some(0),
        Some(value) => parse_decimal_u64(&value),
    }
}

/// Extract the HTTP response content length from response headers.
///
/// The length is `0` when the header is missing; a value that is not a
/// non-negative integer is a broken response, on which this panics.
pub fn extract_http_response_length(headers: &http::HeaderMap) -> (length: u64)
    requires
        content_length_of(*headers) is Some,
    ensures
        Some(length) == content_length_of(*headers),
{
    try_extract_http_response_length(headers).expect("Content-Length must be a non-negative integer")
}


/// The request ID that a request's extensions hold, as text; `None` when there is
/// none or it is not visible ASCII.
pub open spec fn request_id_text(extensions: http::Extensions) -> Option<Seq<char>> {
    match extensions_request_id(extensions) {
        Some(bytes) => if is_visible_ascii_value(bytes) {
            Some(ascii_text(bytes))
        } else {
            None
        },
        None => None,
    }
}

/// Read the request ID that the request-ID middleware stored in a request's extensions.
pub fn try_extract_request_id(extensions: &http::Extensions) -> (id: Option<String>)
    ensures
        option_string_view(id) == request_id_text(*extensions),
{
    match request_id_bytes(extensions) {
        Some(bytes) => {
            if is_readable_value(&bytes) {
                Some(ascii_string(bytes))
            } else {
                None
            }
        },
        None => None,
    }
}

/// Extract the request ID that the request-ID middleware stored in a request's extensions.
///
/// A request without an ID, or with one that is not text, never reaches the audit log:
/// on such a request this panics.
pub fn extract_request_id(extensions: &http::Extensions) -> (id: String)
    requires
        extensions_request_id(*extensions) is Some,
        request_id_text(*extensions) is Some,
    ensures
        Some(id@) == request_id_text(*extensions),
{
    let bytes = request_id_bytes(extensions).expect("RequestId must be set");
    let text = if is_readable_value(&bytes) {
        Some(ascii_string(bytes))
    } else {
        None
    };
    text.expect("RequestId must be valid UTF-8")
}

/// What the audit log reads of a request: its URL, its headers, the ID that the
/// request-ID middleware assigned it, and its connection information.
#[derive(Debug)]
pub struct AuditRequest {
    pub uri: String,
    pub headers: http::HeaderMap,
    pub request_id: String,
    pub connect_info: ConnectionInformation,
}

impl AuditRequest {
    /// Collect what the audit log reads of a request from its parts.
    ///
    /// Requests reach the audit log only after an ID and connection information were
    /// attached to them: on a request without them this panics.
    pub fn from_parts(uri: String, headers: http::HeaderMap, extensions: &http::Extensions) -> (request: Self)
        requires
            request_id_text(*extensions) is Some,
            extensions_connect_info(*extensions) is Some,
        ensures
            request.uri == uri,
            request.headers == headers,
            Some(request.request_id@) == request_id_text(*extensions),
            Some(request.connect_info) == extensions_connect_info(*extensions),
    {
        let request_id = extract_request_id(extensions);
        let connect_info = connect_info(extensions).expect("ConnectInfo extension must be present");
        AuditRequest { uri, headers, request_id, connect_info }
    }

    /// Collect what the audit log reads of a request from its parts, or `None` when the
    /// request carries no readable ID or no connection information.
    pub fn try_from_parts(uri: String, headers: http::HeaderMap, extensions: &http::Extensions) -> (request:
        Option<Self>)
        ensures
            request is Some <==> (request_id_text(*extensions) is Some && extensions_connect_info(*extensions) is Some),
            request matches Some(r) ==> r.uri == uri && r.headers == headers && Some(r.request_id@)
                == request_id_text(*extensions) && Some(r.connect_info) == extensions_connect_info(*extensions),
    {
        let request_id = match try_extract_request_id(extensions) {
            Some(id) => id,
            None => {
                return None;
            },
        };
        match connect_info(extensions) {
            Some(connect_info) => Some(AuditRequest { uri, headers, request_id, connect_info }),
            None => None,
        }
    }
}

/// What the audit log reads of a response: its status code and its length.
#[derive(Debug, Clone, Copy, PartialEq, Eq)]
pub struct AuditResponse {
    pub status: u16,
    pub content_length: u64,
}

impl AuditResponse {
    /// Collect what the audit log reads of a response from its status code and headers.
    ///
    /// A `content-length` header whose value is not a non-negative integer is a broken
    /// response, on which this panics.
    pub fn from_parts(status: u16, headers: &http::HeaderMap) -> (response: Self)
        requires
            content_length_of(*headers) is Some,
        ensures
            response.status == status,
            Some(response.content_length) == content_length_of(*headers),
    {
        AuditResponse { status, content_length: extract_http_response_length(headers) }
    }

    /// Collect what the audit log reads of a response, or `None` when its `content-length`
    /// header is not a non-negative integer.
    pub fn try_from_parts(status: u16, headers: &http::HeaderMap) -> (response: Option<Self>)
        ensures
            response is Some <==> content_length_of(*headers) is Some,
            response matches Some(r) ==> r.status == status && Some(r.content_length) == content_length_of(*headers),
    {
        match try_extract_http_response_length(headers) {
            Some(content_length) => Some(AuditResponse { status, content_length }),
            None => None,
        }
    }
}

/// Factory for creating audit records.
///
/// Implementations extract audit fields from a request before it is served, and
/// complete the record from the response.
///
/// The factory is called twice per request-response cycle:
/// 1. Before the inner service is called, to extract request metadata
/// 2. After the response is received, to extract response metadata and finalize
pub trait AuditRecordFactory: Clone {
    /// Extract audit data from the request and fill in the request-level fields.
    fn extract_from_request(&self, request: &AuditRequest, start_time: UnixTime) -> AuditRecordBuilder;

    /// Complete the audit record from the response.
    fn extract_from_response(&self, response: &AuditResponse, builder: AuditRecordBuilder) -> AuditRecord;
}

} // verus!
