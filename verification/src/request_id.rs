//! Unique request identifiers.
use vstd::prelude::*;

verus! {

pub const REQUEST_ID_HEADER_NAME: &'static str = "x-request-id";

pub open spec fn is_lower_hex_digit(c: char) -> bool {
    ('0' <= c && c <= '9') || ('a' <= c && c <= 'f')
}

/// The text of a version 4 UUID in the hyphenated lower-case form,
/// `xxxxxxxx-xxxx-4xxx-Yxxx-xxxxxxxxxxxx` where `Y` is one of `8`, `9`, `a`, `b`.
pub open spec fn is_v4_uuid_text(s: Seq<char>) -> bool {
    &&& s.len() == 36
    &&& forall|i: int|
        0 <= i < 36 ==> if i == 8 || i == 13 || i == 18 || i == 23 {
            #[trigger] s[i] == '-'
        } else {
            is_lower_hex_digit(s[i])
        }
    &&& s[14] == '4'
    &&& (s[19] == '8' || s[19] == '9' || s[19] == 'a' || s[19] == 'b')
}

/// Calls `uuid::Uuid::new_v4` and renders the result with `to_string`.
///
/// Claimed of every outcome: the text is a version 4 UUID in the hyphenated
/// lower-case form. Which UUID comes out is random.
#[verifier::external_body]
pub(crate) fn new_v4_uuid_text() -> (text: String)
    ensures
        is_v4_uuid_text(text@),
{
    uuid::Uuid::new_v4().to_string()
}

/// Unique request ID, in the version 4 UUID format.
#[derive(Debug, Clone)]
pub struct RequestId {
    inner: String,
}

impl View for RequestId {
    type V = Seq<char>;

    closed spec fn view(&self) -> Seq<char> {
        self.inner@
    }
}

impl Default for RequestId {
    fn default() -> (id: Self)
        ensures
            is_v4_uuid_text(id@),
    {
        Self { inner: new_v4_uuid_text() }
    }
}

impl RequestId {
    pub fn get_id(&self) -> (id: &str)
        ensures
            id@ == self@,
    {
        self.inner.as_str()
    }

    /// The ID as text.
    pub fn to_text(&self) -> (text: String)
        ensures
            text@ == self@,
    {
        self.inner.clone()
    }
}

/// Generator of request IDs for the request-ID middleware.
#[derive(Debug, Default, Clone, Copy)]
pub struct RequestIdGenerator {}

impl RequestIdGenerator {
    /// Generate a new request ID.
    pub fn generate_request_id() -> (id: RequestId)
        ensures
            is_v4_uuid_text(id@),
    {
        RequestId::default()
    }
}

} // verus!
