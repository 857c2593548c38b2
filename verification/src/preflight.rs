//! What is settled before the supervisor is asked: whether the user
//! switched the sidecar off, whether a backend already answers, and whether
//! the guard around the supervisor can be taken.

use crate::config::{backend_addr, BackendConfig, BackendConfigView};
use crate::error::{SidecarError, SidecarErrorView};
use vstd::prelude::*;
use vstd::string::*;

verus! {

/// How long one liveness probe may take, in milliseconds.
pub const PROBE_TIMEOUT_MS: u64 = 300;

/// Whether `c` is the letter `lower` in either case.
pub open spec fn is_letter(c: char, lower: char, upper: char) -> bool {
    c == lower || c == upper
}

/// The values of the flag that switch the sidecar off: `1`, and `true` in
/// any mix of upper and lower case. Nothing else does, not even with
/// blanks around it.
pub open spec fn switches_off(value: Seq<char>) -> bool {
    ||| value.len() == 1 && value[0] == '1'
    ||| {
        &&& value.len() == 4
        &&& is_letter(value[0], 't', 'T')
        &&& is_letter(value[1], 'r', 'R')
        &&& is_letter(value[2], 'u', 'U')
        &&& is_letter(value[3], 'e', 'E')
    }
}

/// Whether the flag, as found in the environment, disables the sidecar. A
/// flag that is not set disables nothing.
pub open spec fn disabled_by(flag: Option<Seq<char>>) -> bool {
    flag matches Some(value) && switches_off(value)
}

/// The name of the environment variable that holds the flag.
pub fn disable_variable() -> (name: &'static str)
    ensures
        name@ == "AGENTERM_NO_SIDECAR"@,
{
    "AGENTERM_NO_SIDECAR"
}

/// Whether the flag, as found in the environment, disables the sidecar.
pub fn sidecar_disabled(flag: Option<&str>) -> (disabled: bool)
    ensures
        disabled == disabled_by(flag.deep_view()),
{
    match flag {
        None => false,
        Some(value) => {
            let len: usize = value.unicode_len();
            if len == 1 {
                value.get_char(0) == '1'
            } else if len == 4 {
                let c0 = value.get_char(0);
                let c1 = value.get_char(1);
                let c2 = value.get_char(2);
                let c3 = value.get_char(3);
                (c0 == 't' || c0 == 'T') && (c1 == 'r' || c1 == 'R') && (c2 == 'u' || c2 == 'U')
                    && (c3 == 'e' || c3 == 'E')
            } else {
                false
            }
        },
    }
}

/// What a spawn call does next, before the supervisor is asked.
#[derive(Debug, PartialEq, Eq)]
pub enum Preflight {
    /// No spawn is performed: the sidecar is switched off, or a backend
    /// already answers.
    Skip,
    /// Probe `address` once, for at most `timeout_ms` milliseconds, and ask
    /// again with the answer.
    Probe { address: String, timeout_ms: u64 },
    /// Take the guard, and ask again with whether it could be taken.
    TakeGuard,
    /// Hand the request to the supervisor, under the guard.
    Proceed,
    /// The call fails.
    Fail { error: SidecarError },
}

/// The mathematical content of a [`Preflight`].
pub enum PreflightView {
    Skip,
    Probe { address: Seq<char>, timeout_ms: u64 },
    TakeGuard,
    Proceed,
    Fail { error: SidecarErrorView },
}

impl View for Preflight {
    type V = PreflightView;

    open spec fn view(&self) -> PreflightView {
        match *self {
            Preflight::Skip => PreflightView::Skip,
            Preflight::Probe { address, timeout_ms } => PreflightView::Probe {
                address: address@,
                timeout_ms,
            },
            Preflight::TakeGuard => PreflightView::TakeGuard,
            Preflight::Proceed => PreflightView::Proceed,
            Preflight::Fail { error } => PreflightView::Fail { error: error@ },
        }
    }
}

/// The decision before the supervisor is asked. The flag is looked at
/// first, so that a switched-off sidecar costs no probe; `reachable` is the
/// answer of the probe once it was made; `guard_taken` says, once it was
/// tried, whether the guard could be taken. A guard that cannot be taken
/// fails the call: nothing goes on behind a broken guard.
pub open spec fn preflight_for(
    config: BackendConfigView,
    flag: Option<Seq<char>>,
    reachable: Option<bool>,
    guard_taken: Option<bool>,
) -> PreflightView {
    if disabled_by(flag) {
        PreflightView::Skip
    } else {
        match reachable {
            None => PreflightView::Probe {
                address: config.address(),
                timeout_ms: PROBE_TIMEOUT_MS,
            },
            Some(true) => PreflightView::Skip,
            Some(false) => match guard_taken {
                None => PreflightView::TakeGuard,
                Some(true) => PreflightView::Proceed,
                Some(false) => PreflightView::Fail { error: SidecarErrorView::GuardUnavailable },
            },
        }
    }
}

/// Decides what a spawn call does next, before the supervisor is asked:
/// from the flag found in the environment, from whether the backend
/// answered once it was probed, and from whether the guard could be taken
/// once that was tried.
pub fn spawn_preflight(
    config: &BackendConfig,
    flag: Option<&str>,
    reachable: Option<bool>,
    guard_taken: Option<bool>,
) -> (decision: Preflight)
    ensures
        decision@ == preflight_for(config@, flag.deep_view(), reachable, guard_taken),
{
    if sidecar_disabled(flag) {
        Preflight::Skip
    } else {
        match reachable {
            None => Preflight::Probe {
                address: backend_addr(config),
                timeout_ms: PROBE_TIMEOUT_MS,
            },
            Some(true) => Preflight::Skip,
            Some(false) => match guard_taken {
                None => Preflight::TakeGuard,
                Some(true) => Preflight::Proceed,
                Some(false) => Preflight::Fail { error: SidecarError::GuardUnavailable },
            },
        }
    }
}

} // verus!
