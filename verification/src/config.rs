//! What is fixed before the supervisor runs: the execution mode and the
//! backend's configuration.

use crate::paths::is_absolute;
use crate::text::{decimal, push_decimal};
use vstd::prelude::*;
use vstd::string::*;

verus! {

/// How the backend is launched. Chosen once per run and never changed.
#[derive(Clone, Copy, Debug, PartialEq, Eq, Structural)]
pub enum ExecutionMode {
    /// Built from source and run through the user's shell.
    Development,
    /// A prebuilt executable found beside the host application.
    Production,
}

/// The mathematical content of a [`BackendConfig`].
pub struct BackendConfigView {
    pub host: Seq<char>,
    pub port: u16,
    pub token: Seq<char>,
    pub db_path: Seq<char>,
    pub agents_dir: Seq<char>,
    pub playbooks_dir: Seq<char>,
    pub working_dir: Seq<char>,
}

impl BackendConfigView {
    /// Every path of the configuration is relative, so that it is resolved
    /// against the one project root the backend is started in.
    pub open spec fn paths_relative(self) -> bool {
        &&& !is_absolute(self.db_path)
        &&& !is_absolute(self.agents_dir)
        &&& !is_absolute(self.playbooks_dir)
        &&& !is_absolute(self.working_dir)
    }

    /// `host:port`, the address the backend listens on.
    pub open spec fn address(self) -> Seq<char> {
        self.host + seq![':'] + decimal(self.port as nat)
    }

    /// The URL under which the backend is reached.
    pub open spec fn url(self) -> Seq<char> {
        "http://"@ + self.address()
    }

    /// The configuration of the backend on the local machine.
    pub open spec fn local() -> BackendConfigView {
        BackendConfigView {
            host: "127.0.0.1"@,
            port: 8765,
            token: "agenterm-desktop-local"@,
            db_path: ".cache/desktop/agenterm.db"@,
            agents_dir: "configs/agents"@,
            playbooks_dir: "configs/playbooks"@,
            working_dir: "."@,
        }
    }
}

/// Where the backend listens, how callers authenticate, and where it keeps
/// its data. Immutable once built; its paths are always relative.
#[derive(Debug, PartialEq, Eq)]
pub struct BackendConfig {
    host: String,
    port: u16,
    token: String,
    db_path: String,
    agents_dir: String,
    playbooks_dir: String,
    working_dir: String,
}

impl View for BackendConfig {
    type V = BackendConfigView;

    closed spec fn view(&self) -> BackendConfigView {
        BackendConfigView {
            host: self.host@,
            port: self.port,
            token: self.token@,
            db_path: self.db_path@,
            agents_dir: self.agents_dir@,
            playbooks_dir: self.playbooks_dir@,
            working_dir: self.working_dir@,
        }
    }
}

impl Clone for BackendConfig {
    fn clone(&self) -> (copy: Self)
        ensures
            copy@ == self@,
    {
        proof {
            use_type_invariant(self);
        }
        BackendConfig {
            host: self.host.clone(),
            port: self.port,
            token: self.token.clone(),
            db_path: self.db_path.clone(),
            agents_dir: self.agents_dir.clone(),
            playbooks_dir: self.playbooks_dir.clone(),
            working_dir: self.working_dir.clone(),
        }
    }
}

/// Whether a path, given as text, is relative.
fn is_relative(path: &str) -> (relative: bool)
    ensures
        relative == !is_absolute(path@),
{
    let len: usize = path.unicode_len();
    len == 0 || path.get_char(0) != '/'
}

impl BackendConfig {
    #[verifier::type_invariant]
    spec fn relative(self) -> bool {
        self@.paths_relative()
    }

    /// Builds a configuration, or `None` when one of the four paths is
    /// absolute.
    pub fn new(
        host: &str,
        port: u16,
        token: &str,
        db_path: &str,
        agents_dir: &str,
        playbooks_dir: &str,
        working_dir: &str,
    ) -> (config: Option<BackendConfig>)
        ensures
            config is Some <==> (BackendConfigView {
                host: host@,
                port,
                token: token@,
                db_path: db_path@,
                agents_dir: agents_dir@,
                playbooks_dir: playbooks_dir@,
                working_dir: working_dir@,
            }).paths_relative(),
            config matches Some(c) ==> c@ == (BackendConfigView {
                host: host@,
                port,
                token: token@,
                db_path: db_path@,
                agents_dir: agents_dir@,
                playbooks_dir: playbooks_dir@,
                working_dir: working_dir@,
            }),
    {
        if is_relative(db_path) && is_relative(agents_dir) && is_relative(playbooks_dir)
            && is_relative(working_dir) {
            Some(
                BackendConfig {
                    host: host.to_owned(),
                    port,
                    token: token.to_owned(),
                    db_path: db_path.to_owned(),
                    agents_dir: agents_dir.to_owned(),
                    playbooks_dir: playbooks_dir.to_owned(),
                    working_dir: working_dir.to_owned(),
                },
            )
        } else {
            None
        }
    }

    /// The configuration of the backend on the local machine.
    pub fn local() -> (config: BackendConfig)
        ensures
            config@ == BackendConfigView::local(),
    {
        proof {
            reveal_strlit(".cache/desktop/agenterm.db");
            reveal_strlit("configs/agents");
            reveal_strlit("configs/playbooks");
            reveal_strlit(".");
        }
        BackendConfig {
            host: "127.0.0.1".to_owned(),
            port: 8765,
            token: "agenterm-desktop-local".to_owned(),
            db_path: ".cache/desktop/agenterm.db".to_owned(),
            agents_dir: "configs/agents".to_owned(),
            playbooks_dir: "configs/playbooks".to_owned(),
            working_dir: ".".to_owned(),
        }
    }

    /// The host the backend listens on.
    pub fn host(&self) -> (host: &str)
        ensures
            host@ == self@.host,
    {
        self.host.as_str()
    }

    /// The port the backend listens on.
    pub fn port(&self) -> (port: u16)
        ensures
            port == self@.port,
    {
        self.port
    }

    /// The token that callers of the backend show.
    pub fn token(&self) -> (token: &str)
        ensures
            token@ == self@.token,
    {
        self.token.as_str()
    }

    /// The database file, relative to the project root.
    pub fn db_path(&self) -> (path: &str)
        ensures
            path@ == self@.db_path,
            !is_absolute(path@),
    {
        proof {
            use_type_invariant(self);
        }
        self.db_path.as_str()
    }

    /// The directory of agent definitions, relative to the project root.
    pub fn agents_dir(&self) -> (path: &str)
        ensures
            path@ == self@.agents_dir,
            !is_absolute(path@),
    {
        proof {
            use_type_invariant(self);
        }
        self.agents_dir.as_str()
    }

    /// The directory of playbooks, relative to the project root.
    pub fn playbooks_dir(&self) -> (path: &str)
        ensures
            path@ == self@.playbooks_dir,
            !is_absolute(path@),
    {
        proof {
            use_type_invariant(self);
        }
        self.playbooks_dir.as_str()
    }

    /// The base directory handed to the backend, relative to the project root.
    pub fn working_dir(&self) -> (path: &str)
        ensures
            path@ == self@.working_dir,
            !is_absolute(path@),
    {
        proof {
            use_type_invariant(self);
        }
        self.working_dir.as_str()
    }
}

/// The address the liveness probe connects to, as `host:port`.
pub fn backend_addr(config: &BackendConfig) -> (addr: String)
    ensures
        addr@ == config@.address(),
{
    let mut addr = config.host().to_owned();
    proof {
        reveal_strlit(":");
    }
    addr.append(":");
    assert(addr@ =~= config@.host + seq![':']);
    push_decimal(&mut addr, config.port());
    addr
}

/// The URL under which clients reach the backend.
pub fn backend_url(config: &BackendConfig) -> (url: String)
    ensures
        url@ == config@.url(),
{
    let mut url = "http://".to_owned();
    let addr = backend_addr(config);
    url.append(addr.as_str());
    url
}

} // verus!
