//! What the user interface may ask: a snapshot of who runs the backend and
//! how to reach it.

use crate::config::{backend_url, BackendConfig, BackendConfigView};
use crate::supervisor::{Supervisor, SupervisorView};
use vstd::prelude::*;
use vstd::string::*;

verus! {

/// The answer to a status query. Made for each query and kept nowhere.
#[derive(Debug, PartialEq, Eq)]
pub struct RuntimeStatus {
    pub platform: String,
    pub app: String,
    pub backend_url: String,
    pub backend_token: String,
    pub sidecar_managed: bool,
}

/// The mathematical content of a [`RuntimeStatus`].
pub struct RuntimeStatusView {
    pub platform: Seq<char>,
    pub app: Seq<char>,
    pub backend_url: Seq<char>,
    pub backend_token: Seq<char>,
    pub sidecar_managed: bool,
}

impl View for RuntimeStatus {
    type V = RuntimeStatusView;

    open spec fn view(&self) -> RuntimeStatusView {
        RuntimeStatusView {
            platform: self.platform@,
            app: self.app@,
            backend_url: self.backend_url@,
            backend_token: self.backend_token@,
            sidecar_managed: self.sidecar_managed,
        }
    }
}

/// The status on a platform, for a configuration, with or without a child
/// held by the supervisor.
pub open spec fn status_for(
    platform: Seq<char>,
    config: BackendConfigView,
    managed: bool,
) -> RuntimeStatusView {
    RuntimeStatusView {
        platform,
        app: "agenTerm"@,
        backend_url: config.url(),
        backend_token: config.token,
        sidecar_managed: managed,
    }
}

/// The status that a supervisor gives rise to: the sidecar counts as
/// managed exactly while the supervisor holds a child.
pub open spec fn snapshot_of<C>(
    supervisor: SupervisorView<C>,
    platform: Seq<char>,
) -> RuntimeStatusView {
    status_for(platform, supervisor.config, supervisor.stage.child() is Some)
}

/// The status where the supervisor cannot be looked at, its guard being
/// broken: the sidecar then counts as not managed.
pub open spec fn snapshot_unguarded(
    config: BackendConfigView,
    platform: Seq<char>,
) -> RuntimeStatusView {
    status_for(platform, config, false)
}

/// Puts a status together from the platform's name, the configuration and
/// whether the supervisor holds a child.
pub fn desktop_runtime_info(
    platform: &str,
    config: &BackendConfig,
    sidecar_managed: bool,
) -> (status: RuntimeStatus)
    ensures
        status@ == status_for(platform@, config@, sidecar_managed),
{
    RuntimeStatus {
        platform: platform.to_owned(),
        app: "agenTerm".to_owned(),
        backend_url: backend_url(config),
        backend_token: config.token().to_owned(),
        sidecar_managed,
    }
}

/// The status right now. `supervisor` is the supervisor where its guard
/// could be taken for the look, and `None` where it could not; `config` is
/// then what the status is made from. Reads only.
pub fn snapshot<C>(
    config: &BackendConfig,
    supervisor: Option<&Supervisor<C>>,
    platform: &str,
) -> (status: RuntimeStatus)
    ensures
        status@ == match supervisor {
            Some(guarded) => snapshot_of(guarded@, platform@),
            None => snapshot_unguarded(config@, platform@),
        },
{
    match supervisor {
        Some(guarded) => desktop_runtime_info(platform, guarded.config(), guarded.owns_child()),
        None => desktop_runtime_info(platform, config, false),
    }
}

} // verus!
