//! Request identifiers of the control plane.
use vstd::prelude::*;

use crate::request_id::{is_v4_uuid_text, new_v4_uuid_text};

verus! {

pub const REQUEST_ID_HEADER_NAME: &'static str = "x-hare-request-id";

/// Unique ID of a control plane request, in the version 4 UUID format.
#[derive(Debug, Clone)]
pub struct RequestId {
    inner: String,
}

impl View for RequestId {
    type V = Seq<char>;

    closed spec fn view(&self) -> Seq<char> {
        self.inner@
    }
}

impl Default for RequestId {
    fn default() -> (id: Self)
        ensures
            is_v4_uuid_text(id@),
    {
        Self { inner: new_v4_uuid_text() }
    }
}

impl RequestId {
    pub fn get_id(&self) -> (id: &str)
        ensures
            id@ == self@,
    {
        self.inner.as_str()
    }

    /// The ID as text.
    pub fn to_text(&self) -> (text: String)
        ensures
            text@ == self@,
    {
        self.inner.clone()
    }
}

} // verus!
