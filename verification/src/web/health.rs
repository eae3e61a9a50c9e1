//! Health checks: a simple one that only says the server answers, and a full one that
//! also asks the data plane.
use vstd::prelude::*;

verus! {

/// Health check modes.
#[derive(Debug, Clone, Copy, PartialEq, Eq, Structural)]
pub enum HealthCheckMode {
    Full,
    Simple,
}

impl Default for HealthCheckMode {
    fn default() -> (mode: Self)
        ensures
            mode == HealthCheckMode::Simple,
    {
        Self::Simple
    }
}

/// URL parameters of a health check.
#[derive(Debug, Clone, Copy)]
pub struct UrlParameters {
    mode: HealthCheckMode,
}

impl Default for UrlParameters {
    fn default() -> (parameters: Self)
        ensures
            parameters.spec_mode() == HealthCheckMode::Simple,
    {
        UrlParameters { mode: HealthCheckMode::default() }
    }
}

impl UrlParameters {
    pub closed spec fn spec_mode(&self) -> HealthCheckMode {
        self.mode
    }

    /// The parameters of a request, which may leave the mode out: then the check is simple.
    pub fn new(mode: Option<HealthCheckMode>) -> (parameters: Self)
        ensures
            parameters.spec_mode() == match mode {
                Some(m) => m,
                None => HealthCheckMode::Simple,
            },
    {
        match mode {
            Some(mode) => UrlParameters { mode },
            None => UrlParameters::default(),
        }
    }

    pub fn mode(&self) -> (mode: HealthCheckMode)
        ensures
            mode == self.spec_mode(),
    {
        self.mode
    }

    /// Whether the check asks the data plane whether it is healthy.
    pub fn checks_data_plane(&self) -> (checks: bool)
        ensures
            checks == (self.spec_mode() == HealthCheckMode::Full),
    {
        self.mode == HealthCheckMode::Full
    }
}

/// The HTTP status of a health check: a failed dependency when a full check finds the
/// data plane unhealthy, OK otherwise.
pub fn health_status(parameters: &UrlParameters, data_plane_healthy: bool) -> (status: u16)
    ensures
        status == if parameters.spec_mode() == HealthCheckMode::Full && !data_plane_healthy {
            424u16
        } else {
            200u16
        },
{
    if parameters.checks_data_plane() && !data_plane_healthy {
        424
    } else {
        200
    }
}

} // verus!
