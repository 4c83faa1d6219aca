//! The failures that the capability layer reports.

use vstd::prelude::*;
use vstd::string::StringExecFns;

use crate::capability::CapabilityKind;
use crate::capability::LifecyclePhase;

verus! {

/// A failure of the capability layer.
#[derive(Clone, Copy, Debug, PartialEq, Eq, Structural)]
pub enum HostError {
    /// The capability, or the action asked of it, is not covered by a grant.
    PermissionDenied { capability: CapabilityKind },
    /// A lifecycle call failed, or arrived out of turn, for the named
    /// capability. Fatal to bringing the component up.
    LifecyclePhaseFailure { capability: CapabilityKind, phase: LifecyclePhase },
    /// No route matches a request. Recovered into a 404 response.
    RouteNotFound,
    /// The component's handler failed or was never bound. Recovered into a
    /// 500 response.
    HandlerInvocationFailure,
    /// The resource asked for cannot be had: an unknown or closed server,
    /// an address that cannot be bound, host functions that are not
    /// reachable.
    ResourceUnavailable,
}

impl HostError {
    /// The text of the failure, for diagnostics.
    pub open spec fn message_spec(self) -> Seq<char> {
        match self {
            HostError::PermissionDenied { capability } => "permission denied: "@
                + capability.name_spec(),
            HostError::LifecyclePhaseFailure { capability, phase } => "lifecycle failure: "@
                + capability.name_spec() + " during "@ + phase.name_spec(),
            HostError::RouteNotFound => "route not found"@,
            HostError::HandlerInvocationFailure => "handler invocation failed"@,
            HostError::ResourceUnavailable => "resource unavailable"@,
        }
    }

    /// The text of the failure, for diagnostics.
    pub fn message(&self) -> (r: String)
        ensures
            r@ == self.message_spec(),
    {
        match self {
            HostError::PermissionDenied { capability } => {
                String::from_str("permission denied: ").concat(capability.name())
            },
            HostError::LifecyclePhaseFailure { capability, phase } => {
                String::from_str("lifecycle failure: ").concat(capability.name()).concat(
                    " during ",
                ).concat(phase.name())
            },
            HostError::RouteNotFound => String::from_str("route not found"),
            HostError::HandlerInvocationFailure => String::from_str("handler invocation failed"),
            HostError::ResourceUnavailable => String::from_str("resource unavailable"),
        }
    }
}

} // verus!
