//! The `http` crate's header map, as the rest of the library sees it.
//!
//! A header map is modelled by what it holds: for each (lower-case) header name,
//! the values stored under it, as raw bytes, in insertion order.
use vstd::prelude::*;

use crate::connect_info::ConnectionInformation;

verus! {

#[verifier::external_type_specification]
#[verifier::external_body]
#[verifier::reject_recursive_types(T)]
pub struct ExHeaderMap<T>(http::HeaderMap<T>);

#[verifier::external_type_specification]
#[verifier::external_body]
pub struct ExHeaderValue(http::HeaderValue);

#[verifier::external_type_specification]
#[verifier::external_body]
#[verifier::reject_recursive_types(T)]
pub struct ExResponse<T>(http::Response<T>);

/// What a header map holds: lower-case header name to the values stored under it,
/// in insertion order.
pub uninterp spec fn header_map_contents(map: http::HeaderMap) -> Map<Seq<char>, Seq<Seq<u8>>>;

/// ASCII upper-case letters mapped to lower case, every other character unchanged.
pub open spec fn ascii_lowercase(s: Seq<char>) -> Seq<char> {
    s.map_values(
        |c: char|
            if 'A' <= c && c <= 'Z' {
                ((c as u32) + 32) as char
            } else {
                c
            },
    )
}

/// The values a lookup with `key` finds: header names are matched without regard
/// to ASCII case.
pub open spec fn header_lookup(map: http::HeaderMap, key: Seq<char>) -> Seq<Seq<u8>> {
    let name = ascii_lowercase(key);
    if header_map_contents(map).dom().contains(name) {
        header_map_contents(map)[name]
    } else {
        Seq::empty()
    }
}

/// Calls `http::HeaderMap::get_all` with a string key and copies out the bytes of each value.
///
/// Claimed: the values come out in the order in which they were stored under the
/// header name that matches `key` case-insensitively, and none when no name matches.
#[verifier::external_body]
pub(crate) fn header_values(map: &http::HeaderMap, key: &str) -> (values: Vec<Vec<u8>>)
    ensures
        values@.map_values(|v: Vec<u8>| v@) == header_lookup(*map, key@),
{
    map.get_all(key).iter().map(|v| v.as_bytes().to_vec()).collect()
}

/// Calls `http::HeaderMap::get` with a string key and copies out the bytes of the value.
///
/// Claimed: the result is the first value stored under the matching header name,
/// and `None` when no name matches.
#[verifier::external_body]
pub(crate) fn header_first_value(map: &http::HeaderMap, key: &str) -> (value: Option<Vec<u8>>)
    ensures
        value is Some <==> header_lookup(*map, key@).len() > 0,
        value matches Some(v) ==> v@ == header_lookup(*map, key@)[0],
{
    map.get(key).map(|v| v.as_bytes().to_vec())
}

/// Calls `http::HeaderMap::contains_key` with a string key.
///
/// Claimed: true exactly when some value is stored under the header name that matches
/// `key` case-insensitively.
#[verifier::external_body]
pub(crate) fn header_present(map: &http::HeaderMap, key: &str) -> (present: bool)
    ensures
        present == header_map_contents(*map).dom().contains(ascii_lowercase(key@)),
{
    map.contains_key(key)
}

/// Calls `http::HeaderMap::remove` with a string key.
///
/// Claimed: every value stored under the matching header name is removed and
/// nothing else changes.
#[verifier::external_body]
pub(crate) fn header_remove(map: &mut http::HeaderMap, key: &str)
    ensures
        header_map_contents(*final(map)) == header_map_contents(*old(map)).remove(
            ascii_lowercase(key@),
        ),
{
    map.remove(key);
}


#[verifier::external_type_specification]
#[verifier::external_body]
pub struct ExExtensions(http::Extensions);

/// What a request's extensions hold as its request ID: the bytes of the ID's header value,
/// `None` when no ID was assigned.
pub uninterp spec fn extensions_request_id(extensions: http::Extensions) -> Option<Seq<u8>>;

/// What a request's extensions hold as its connection information, `None` when absent.
pub uninterp spec fn extensions_connect_info(extensions: http::Extensions) -> Option<
    ConnectionInformation,
>;

pub open spec fn option_bytes_view(bytes: Option<Vec<u8>>) -> Option<Seq<u8>> {
    match bytes {
        Some(b) => Some(b@),
        None => None,
    }
}

/// Calls `http::Extensions::get` for the `tower_http` request ID and copies out the bytes
/// of its header value.
///
/// Claimed: the result is what the extensions hold as the request ID.
#[verifier::external_body]
pub(crate) fn request_id_bytes(extensions: &http::Extensions) -> (id: Option<Vec<u8>>)
    ensures
        option_bytes_view(id) == extensions_request_id(*extensions),
{
    extensions.get::<tower_http::request_id::RequestId>().map(|id| id.header_value().as_bytes().to_vec())
}

/// Calls `http::Extensions::get` for the `axum` connection information of the library's type.
///
/// Claimed: the result is what the extensions hold as the connection information.
#[verifier::external_body]
pub(crate) fn connect_info(extensions: &http::Extensions) -> (info: Option<ConnectionInformation>)
    ensures
        info == extensions_connect_info(*extensions),
{
    extensions.get::<axum::extract::ConnectInfo<ConnectionInformation>>().map(|info| info.0.clone())
}

} // verus!
