//! The locator: answers "where is the backend" for the UI shell.
//!
//! A thin, read-only facade over the supervisor's state. While the backend is
//! `Ready` it returns the configured address — the same constant value on
//! every call; while it is `Starting` it asks the caller to wait; in every
//! other state it returns a typed diagnostic, so the shell can render
//! "backend unavailable" distinctly from "backend still starting".

use vstd::prelude::*;

use crate::config::BackendAddress;
use crate::config::SupervisorConfig;
use crate::config::address_of;
use crate::state::ReadinessState;
use crate::state::SupervisorError;
use crate::supervisor::ProcessSupervisor;

verus! {

/// Why no address can be resolved right now.
#[derive(Clone, Copy, Debug, PartialEq, Eq)]
pub enum UnavailableReason {
    /// The supervisor was never asked to start the backend.
    NotStarted,
    /// The supervisor was shut down.
    Stopped,
    /// The backend failed; the recorded error says how.
    Failure { error: SupervisorError },
}

/// Failure of an address query.
#[derive(Clone, Copy, Debug, PartialEq, Eq)]
pub enum LocatorError {
    /// The backend is still starting: not an outage — wait briefly and query
    /// again rather than hand out an address that is not yet servable.
    BackendStarting,
    /// The backend is not serving and waiting will not help; the reason is
    /// the supervisor's recorded verdict.
    BackendUnavailable { reason: UnavailableReason },
}

/// The error a query returns in a state other than `Ready`.
pub open spec fn resolve_err(s: ReadinessState) -> LocatorError {
    match s {
        ReadinessState::Starting => LocatorError::BackendStarting,
        ReadinessState::NotStarted => LocatorError::BackendUnavailable {
            reason: UnavailableReason::NotStarted,
        },
        ReadinessState::Stopped => LocatorError::BackendUnavailable {
            reason: UnavailableReason::Stopped,
        },
        ReadinessState::Failed { error } => LocatorError::BackendUnavailable {
            reason: UnavailableReason::Failure { error },
        },
        ReadinessState::Ready => LocatorError::BackendStarting,
    }
}

/// What a query of the supervisor in state `s` under configuration `c`
/// resolves to: the configured address exactly when the backend is `Ready`.
pub open spec fn resolve_spec(s: ReadinessState, c: SupervisorConfig) -> Result<
    BackendAddress,
    LocatorError,
> {
    if s is Ready {
        Ok(address_of(c))
    } else {
        Err(resolve_err(s))
    }
}

/// Resolves the backend's address from the supervisor's current state.
///
/// A read: the supervisor is not touched, so the query is safe to repeat from
/// any caller, and while the state stays `Ready` every call returns the same
/// address, fixed by the configuration alone.
pub fn resolve_address(sup: &ProcessSupervisor) -> (r: Result<BackendAddress, LocatorError>)
    ensures
        r == resolve_spec(sup.state, sup.config),
        sup.state is Ready <==> r is Ok,
{
    match sup.current_state() {
        ReadinessState::Ready => Ok(
            BackendAddress {
                scheme: sup.config.scheme.clone(),
                host: sup.config.host.clone(),
                port: sup.config.port,
            },
        ),
        ReadinessState::Starting => Err(LocatorError::BackendStarting),
        ReadinessState::NotStarted => Err(
            LocatorError::BackendUnavailable { reason: UnavailableReason::NotStarted },
        ),
        ReadinessState::Stopped => Err(
            LocatorError::BackendUnavailable { reason: UnavailableReason::Stopped },
        ),
        ReadinessState::Failed { error } => Err(
            LocatorError::BackendUnavailable { reason: UnavailableReason::Failure { error } },
        ),
    }
}

/// The UI-facing query surface: the backend's base URL once it is resolvable.
///
/// Exactly when the supervisor is `Ready`, returns `scheme://host:port` as
/// configured; otherwise the same typed failure as `resolve_address`.
pub fn backend_url(sup: &ProcessSupervisor) -> (r: Result<String, LocatorError>)
    ensures
        sup.state is Ready <==> r is Ok,
        r matches Ok(u) ==> u@ == address_of(sup.config).url_chars(),
        !(sup.state is Ready) ==> r == Result::<String, LocatorError>::Err(
            resolve_err(sup.state),
        ),
{
    match resolve_address(sup) {
        Ok(address) => Ok(address.url()),
        Err(e) => Err(e),
    }
}

/// While the supervisor reports `Ready`, resolution is a constant of the
/// configuration: every query, however often repeated, yields the very same
/// address, and that address carries the configured scheme, host and port.
pub proof fn lemma_resolution_constant_while_ready(s: ReadinessState, c: SupervisorConfig)
    requires
        s is Ready,
    ensures
        resolve_spec(s, c) == Result::<BackendAddress, LocatorError>::Ok(address_of(c)),
        address_of(c).scheme == c.scheme,
        address_of(c).host == c.host,
        address_of(c).port == c.port,
{
}

} // verus!
