//! Endpoint selection for the display session.
//!
//! The session connects to the endpoint the process environment indicates;
//! when that attempt fails it falls back to a fixed well-known endpoint
//! name.  Only when both attempts fail is the session fatally lost.  The
//! process that performs the operating-system connection attempts reports
//! their outcomes here and carries the decision out.

use vstd::prelude::*;
use crate::errors::FatalError;

verus! {

/// Name of the well-known endpoint tried after the environment-indicated
/// endpoint has failed.
pub open spec fn spec_fallback_endpoint() -> Seq<char> {
    "wayland-0"@
}

/// The well-known fallback endpoint name.
pub fn fallback_endpoint() -> (r: &'static str)
    ensures
        r@ == spec_fallback_endpoint(),
{
    "wayland-0"
}

/// Which endpoint a successful connection used.
#[derive(Clone, Copy, Debug, PartialEq, Eq, Structural)]
pub enum EndpointChoice {
    /// The endpoint the process environment indicates.
    EnvIndicated,
    /// The well-known fallback endpoint, used only after the
    /// environment-indicated attempt failed.
    Fallback,
}

/// Decides the outcome of the connection sequence from the outcomes of the
/// two attempts.  `env_ok` reports the attempt against the
/// environment-indicated endpoint; `fallback_ok` reports the attempt against
/// the fallback endpoint and is consulted only when the first attempt
/// failed.  Both attempts exhausted is a fatal, unrecoverable failure.
pub fn connect_outcome(env_ok: bool, fallback_ok: bool) -> (r: Result<EndpointChoice, FatalError>)
    ensures
        env_ok ==> r == Ok::<EndpointChoice, FatalError>(EndpointChoice::EnvIndicated),
        !env_ok && fallback_ok ==> r == Ok::<EndpointChoice, FatalError>(EndpointChoice::Fallback),
        !env_ok && !fallback_ok ==> r == Err::<EndpointChoice, FatalError>(FatalError::ConnectionFailed),
{
    if env_ok {
        Ok(EndpointChoice::EnvIndicated)
    } else if fallback_ok {
        Ok(EndpointChoice::Fallback)
    } else {
        Err(FatalError::ConnectionFailed)
    }
}

} // verus!
