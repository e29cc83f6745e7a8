use vstd::prelude::*;

pub mod auth;
pub mod gateway;
pub mod laws;
pub mod messages;
pub mod registry;
pub mod text;

verus! {

/// Outcome of a gateway decision that did not succeed.
#[derive(Debug, Clone, Copy, PartialEq, Eq, Structural)]
pub enum GatewayError {
    /// The presented credential is not accepted.
    Authorization,
    /// No room is registered under the requested identifier.
    NotFound,
}

} // verus!
