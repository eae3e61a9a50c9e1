//! The state that the web server's handlers share.
use vstd::prelude::*;

verus! {

/// The state of the web server: the data plane client its handlers use.
#[derive(Debug)]
pub struct AppState<D> {
    pub data_plane_client: D,
}

} // verus!
