//! Removal of headers that only the service itself may set.
use vstd::prelude::*;

use crate::http_headers::{ascii_lowercase, header_map_contents, header_present, header_remove};

verus! {

/// Filter headers from the request.
///
/// Useful if headers should only be set by a service and not callers.
/// For example, a service may want to prevent callers from setting custom request IDs.
#[derive(Debug, Clone)]
pub struct FilterHeaders<S> {
    pub inner: S,
    pub headers: Vec<String>,
}

impl<S> FilterHeaders<S> {
    pub fn new(inner: S, headers: Vec<String>) -> (filter: Self)
        ensures
            filter.inner == inner,
            filter.headers == headers,
    {
        Self { inner, headers }
    }
}

/// Filter headers from the request.
///
/// Applies the [`FilterHeaders`] middleware.
#[derive(Debug, Clone)]
pub struct FilterHeadersLayer {
    pub headers: Vec<String>,
}

impl FilterHeadersLayer {
    pub fn new(headers: Vec<String>) -> (layer: Self)
        ensures
            layer.headers == headers,
    {
        FilterHeadersLayer { headers }
    }

    /// Wrap a service in the middleware, filtering this layer's headers.
    pub fn layer<S>(&self, inner: S) -> (filter: FilterHeaders<S>)
        ensures
            filter.inner == inner,
            filter.headers@ == self.headers@,
    {
        FilterHeaders::new(inner, self.headers.clone())
    }
}

/// The header names, lower-cased as header lookups compare them.
pub open spec fn lowercased_names(names: Seq<String>) -> Set<Seq<char>> {
    Set::new(|name: Seq<char>| exists|i: int| 0 <= i < names.len() && name == ascii_lowercase(#[trigger] names[i]@))
}

/// Remove every value stored under any of `headers` from a request's headers.
///
/// Afterwards none of these headers is present, and every other header is as it was.
pub fn filter_headers(request_headers: &mut http::HeaderMap, headers: &Vec<String>)
    ensures
        header_map_contents(*final(request_headers)) == header_map_contents(
            *old(request_headers),
        ).remove_keys(lowercased_names(headers@)),
{
    let ghost initial = header_map_contents(*request_headers);
    let mut i: usize = 0;
    while i < headers.len()
        invariant
            0 <= i <= headers.len(),
            header_map_contents(*request_headers) == initial.remove_keys(
                lowercased_names(headers@.take(i as int)),
            ),
        decreases headers.len() - i,
    {
        let ghost before = header_map_contents(*request_headers);
        if header_present(request_headers, headers[i].as_str()) {
            header_remove(request_headers, headers[i].as_str());
        }
        assert(lowercased_names(headers@.take(i + 1)) =~= lowercased_names(headers@.take(i as int)).insert(
            ascii_lowercase(headers@[i as int]@),
        )) by {
            assert forall|name: Seq<char>| #[trigger] lowercased_names(headers@.take(i + 1)).contains(name) implies
                lowercased_names(headers@.take(i as int)).insert(ascii_lowercase(headers@[i as int]@)).contains(name) by {
                let k = choose|k: int| 0 <= k < i + 1 && name == ascii_lowercase(#[trigger] headers@.take(i + 1)[k]@);
                if k < i {
                    assert(headers@.take(i as int)[k] == headers@.take(i + 1)[k]);
                }
            }
            assert forall|name: Seq<char>| #[trigger] lowercased_names(headers@.take(i as int)).insert(ascii_lowercase(headers@[i as int]@)).contains(name) implies
                lowercased_names(headers@.take(i + 1)).contains(name) by {
                if name == ascii_lowercase(headers@[i as int]@) {
                    assert(headers@.take(i + 1)[i as int] == headers@[i as int]);
                } else {
                    let k = choose|k: int| 0 <= k < i && name == ascii_lowercase(#[trigger] headers@.take(i as int)[k]@);
                    assert(headers@.take(i as int)[k] == headers@.take(i + 1)[k]);
                }
            }
        }
        assert(header_map_contents(*request_headers) =~= initial.remove_keys(
            lowercased_names(headers@.take(i + 1)),
        ));
        i = i + 1;
    }
    assert(headers@.take(headers.len() as int) =~= headers@);
}

} // verus!
