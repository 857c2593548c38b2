use agenterm_sidecar::config::{backend_addr, backend_url, BackendConfig, ExecutionMode};
use agenterm_sidecar::error::SidecarError;
use agenterm_sidecar::preflight::{
    disable_variable, sidecar_disabled, spawn_preflight, Preflight, PROBE_TIMEOUT_MS,
};

#[test]
fn local_config_holds_the_fixed_values() {
    let config = BackendConfig::local();
    assert_eq!(config.host(), "127.0.0.1");
    assert_eq!(config.port(), 8765);
    assert_eq!(config.token(), "agenterm-desktop-local");
    assert_eq!(config.db_path(), ".cache/desktop/agenterm.db");
    assert_eq!(config.agents_dir(), "configs/agents");
    assert_eq!(config.playbooks_dir(), "configs/playbooks");
    assert_eq!(config.working_dir(), ".");
}

#[test]
fn new_config_keeps_what_it_is_given() {
    let config = BackendConfig::new("localhost", 9000, "secret", "db/x.db", "a", "p", "w").unwrap();
    assert_eq!(config.host(), "localhost");
    assert_eq!(config.port(), 9000);
    assert_eq!(config.token(), "secret");
    assert_eq!(config.db_path(), "db/x.db");
    assert_eq!(config.agents_dir(), "a");
    assert_eq!(config.playbooks_dir(), "p");
    assert_eq!(config.working_dir(), "w");
}

#[test]
fn new_config_equal_to_local_when_given_the_same_values() {
    let config = BackendConfig::new(
        "127.0.0.1",
        8765,
        "agenterm-desktop-local",
        ".cache/desktop/agenterm.db",
        "configs/agents",
        "configs/playbooks",
        ".",
    );
    assert_eq!(config, Some(BackendConfig::local()));
}

#[test]
fn new_config_refuses_an_absolute_path_in_any_place() {
    assert_eq!(BackendConfig::new("h", 1, "t", "/db", "a", "p", "."), None);
    assert_eq!(BackendConfig::new("h", 1, "t", "db", "/a", "p", "."), None);
    assert_eq!(BackendConfig::new("h", 1, "t", "db", "a", "/p", "."), None);
    assert_eq!(BackendConfig::new("h", 1, "t", "db", "a", "p", "/"), None);
}

#[test]
fn new_config_accepts_empty_paths() {
    assert!(BackendConfig::new("h", 1, "t", "", "", "", "").is_some());
}

#[test]
fn clone_of_a_config_is_equal_to_it() {
    let config = BackendConfig::new("localhost", 9000, "secret", "db", "a", "p", "w").unwrap();
    assert_eq!(config.clone(), config);
}

#[test]
fn address_is_host_colon_port() {
    assert_eq!(backend_addr(&BackendConfig::local()), "127.0.0.1:8765");
    let other = BackendConfig::new("localhost", 80, "t", "db", "a", "p", ".").unwrap();
    assert_eq!(backend_addr(&other), "localhost:80");
}

#[test]
fn url_is_http_and_the_address() {
    assert_eq!(backend_url(&BackendConfig::local()), "http://127.0.0.1:8765");
    let other = BackendConfig::new("localhost", 0, "t", "db", "a", "p", ".").unwrap();
    assert_eq!(backend_url(&other), "http://localhost:0");
}

#[test]
fn modes_are_distinct() {
    assert_ne!(ExecutionMode::Development, ExecutionMode::Production);
}

#[test]
fn disable_variable_has_its_name() {
    assert_eq!(disable_variable(), "AGENTERM_NO_SIDECAR");
}

#[test]
fn probe_timeout_is_short() {
    assert_eq!(PROBE_TIMEOUT_MS, 300);
}

#[test]
fn flag_one_disables() {
    assert!(sidecar_disabled(Some("1")));
}

#[test]
fn flag_true_disables_in_any_case() {
    for value in ["true", "TRUE", "True", "tRuE", "truE", "TRUe"] {
        assert!(sidecar_disabled(Some(value)), "{}", value);
    }
}

#[test]
fn flag_absent_disables_nothing() {
    assert!(!sidecar_disabled(None));
}

#[test]
fn other_flag_values_disable_nothing() {
    for value in [
        "", "0", "2", "11", "yes", "on", "false", "t", "tru", "truee", " true", "true ", " 1", "1 ",
        "trué", "ＴＲＵＥ", "１",
    ] {
        assert!(!sidecar_disabled(Some(value)), "{:?}", value);
    }
}

#[test]
fn flag_agrees_with_the_standard_comparison() {
    for value in ["1", "true", "TrUe", "0", "", "truth", "ttrue", "true\n", "İrue"] {
        let expected = value == "1" || value.eq_ignore_ascii_case("true");
        assert_eq!(sidecar_disabled(Some(value)), expected, "{:?}", value);
    }
}

#[test]
fn preflight_skips_when_switched_off_whatever_else_holds() {
    let config = BackendConfig::local();
    for flag in ["1", "true", "TRUE", "tRue"] {
        for reachable in [None, Some(true), Some(false)] {
            for guard in [None, Some(true), Some(false)] {
                assert_eq!(spawn_preflight(&config, Some(flag), reachable, guard), Preflight::Skip);
            }
        }
    }
}

#[test]
fn preflight_asks_for_one_probe_of_the_backend_address() {
    let config = BackendConfig::local();
    let expected = Preflight::Probe { address: String::from("127.0.0.1:8765"), timeout_ms: 300 };
    assert_eq!(spawn_preflight(&config, None, None, None), expected);
    assert_eq!(spawn_preflight(&config, Some("0"), None, None), expected);
    assert_eq!(spawn_preflight(&config, None, None, Some(true)), expected);
}

#[test]
fn preflight_probes_the_configured_address() {
    let config = BackendConfig::new("localhost", 9, "t", "d", "a", "p", ".").unwrap();
    assert_eq!(
        spawn_preflight(&config, None, None, None),
        Preflight::Probe { address: String::from("localhost:9"), timeout_ms: 300 }
    );
}

#[test]
fn preflight_skips_when_the_backend_answers() {
    let config = BackendConfig::local();
    for guard in [None, Some(true), Some(false)] {
        assert_eq!(spawn_preflight(&config, None, Some(true), guard), Preflight::Skip);
        assert_eq!(spawn_preflight(&config, Some("no"), Some(true), guard), Preflight::Skip);
    }
}

#[test]
fn preflight_asks_for_the_guard_when_nothing_answers() {
    let config = BackendConfig::local();
    assert_eq!(spawn_preflight(&config, None, Some(false), None), Preflight::TakeGuard);
    assert_eq!(spawn_preflight(&config, Some("false"), Some(false), None), Preflight::TakeGuard);
}

#[test]
fn preflight_proceeds_under_the_guard() {
    let config = BackendConfig::local();
    assert_eq!(spawn_preflight(&config, None, Some(false), Some(true)), Preflight::Proceed);
}

#[test]
fn preflight_fails_when_the_guard_cannot_be_taken() {
    let config = BackendConfig::local();
    assert_eq!(
        spawn_preflight(&config, None, Some(false), Some(false)),
        Preflight::Fail { error: SidecarError::GuardUnavailable }
    );
}
