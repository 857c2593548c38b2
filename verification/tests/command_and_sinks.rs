use agenterm_sidecar::command::{
    build_command, candidates, development_script, flags, select_candidate, CommandLine,
};
use agenterm_sidecar::config::{BackendConfig, ExecutionMode};
use agenterm_sidecar::error::SidecarError;
use agenterm_sidecar::sinks::{resolve_sinks, SinkTarget};

fn words(items: &[&str]) -> Vec<String> {
    items.iter().map(|s| s.to_string()).collect()
}

fn local_flags() -> Vec<String> {
    words(&[
        "--port",
        "8765",
        "--token",
        "agenterm-desktop-local",
        "--db-path",
        ".cache/desktop/agenterm.db",
        "--agents-dir",
        "configs/agents",
        "--playbooks-dir",
        "configs/playbooks",
        "--dir",
        ".",
    ])
}

#[test]
fn candidates_come_in_their_fixed_order() {
    assert_eq!(candidates(), words(&["agenterm", "agenterm-server"]));
}

#[test]
fn flags_carry_the_whole_configuration() {
    assert_eq!(flags(&BackendConfig::local()), local_flags());
}

#[test]
fn flags_follow_another_configuration() {
    let config = BackendConfig::new("h", 65535, "tok", "d.db", "ag", "pb", "base").unwrap();
    assert_eq!(
        flags(&config),
        words(&[
            "--port",
            "65535",
            "--token",
            "tok",
            "--db-path",
            "d.db",
            "--agents-dir",
            "ag",
            "--playbooks-dir",
            "pb",
            "--dir",
            "base",
        ])
    );
}

#[test]
fn development_script_sources_the_profile_then_runs_the_backend() {
    assert_eq!(
        development_script(&BackendConfig::local()),
        "source ~/.zshrc >/dev/null 2>&1; exec go run ./cmd/agenterm --port 8765 --token agenterm-desktop-local --db-path .cache/desktop/agenterm.db --agents-dir configs/agents --playbooks-dir configs/playbooks --dir ."
    );
}

#[test]
fn development_command_is_a_login_shell_in_the_root() {
    let config = BackendConfig::local();
    let command = build_command(ExecutionMode::Development, &config, "/work/agenterm", None, &vec![]);
    assert_eq!(
        command,
        Ok(CommandLine {
            program: String::from("zsh"),
            args: vec![String::from("-lc"), development_script(&config)],
            working_dir: String::from("/work/agenterm"),
        })
    );
}

#[test]
fn development_command_ignores_what_lies_beside_the_host() {
    let config = BackendConfig::local();
    let plain = build_command(ExecutionMode::Development, &config, "/r", None, &vec![]);
    let other = build_command(ExecutionMode::Development, &config, "/r", Some("/x"), &vec![true, true]);
    assert_eq!(plain, other);
}

#[test]
fn production_command_takes_the_second_candidate_when_only_it_exists() {
    let config = BackendConfig::local();
    let command = build_command(
        ExecutionMode::Production,
        &config,
        "/work/agenterm",
        Some("/opt/agenterm/bin"),
        &vec![false, true],
    );
    assert_eq!(
        command,
        Ok(CommandLine {
            program: String::from("/opt/agenterm/bin/agenterm-server"),
            args: local_flags(),
            working_dir: String::from("/work/agenterm"),
        })
    );
}

#[test]
fn production_command_takes_the_first_candidate_when_both_exist() {
    let config = BackendConfig::local();
    let command = build_command(
        ExecutionMode::Production,
        &config,
        "/work/agenterm",
        Some("/opt/agenterm/bin"),
        &vec![true, true],
    );
    assert_eq!(command.unwrap().program, "/opt/agenterm/bin/agenterm");
}

#[test]
fn production_command_takes_the_first_candidate_when_only_it_exists() {
    let config = BackendConfig::local();
    let command = build_command(
        ExecutionMode::Production,
        &config,
        "/work/agenterm",
        Some("/opt/agenterm/bin/"),
        &vec![true, false],
    );
    assert_eq!(command.unwrap().program, "/opt/agenterm/bin/agenterm");
}

#[test]
fn production_command_fails_when_no_candidate_exists() {
    let config = BackendConfig::local();
    let command =
        build_command(ExecutionMode::Production, &config, "/r", Some("/opt/bin"), &vec![false, false]);
    assert_eq!(command, Err(SidecarError::ExecutableNotFound));
}

#[test]
fn production_command_fails_without_reports() {
    let config = BackendConfig::local();
    let command = build_command(ExecutionMode::Production, &config, "/r", Some("/opt/bin"), &vec![]);
    assert_eq!(command, Err(SidecarError::ExecutableNotFound));
}

#[test]
fn production_command_fails_when_the_host_directory_is_unknown() {
    let config = BackendConfig::local();
    let command = build_command(ExecutionMode::Production, &config, "/r", None, &vec![true, true]);
    assert_eq!(command, Err(SidecarError::ExecutableNotFound));
}

#[test]
fn production_command_looks_at_no_report_beyond_the_candidates() {
    let config = BackendConfig::local();
    let command = build_command(
        ExecutionMode::Production,
        &config,
        "/r",
        Some("/opt/bin"),
        &vec![false, false, true],
    );
    assert_eq!(command, Err(SidecarError::ExecutableNotFound));
}

#[test]
fn production_command_treats_a_missing_report_as_absent() {
    let config = BackendConfig::local();
    let first_only = build_command(ExecutionMode::Production, &config, "/r", Some("/b"), &vec![true]);
    assert_eq!(first_only.unwrap().program, "/b/agenterm");
    let none = build_command(ExecutionMode::Production, &config, "/r", Some("/b"), &vec![false]);
    assert_eq!(none, Err(SidecarError::ExecutableNotFound));
}

#[test]
fn select_candidate_finds_the_least_present_position() {
    assert_eq!(select_candidate(&vec![false, true, true], 3), Some(1));
    assert_eq!(select_candidate(&vec![true, true, true], 3), Some(0));
    assert_eq!(select_candidate(&vec![false, false, true], 3), Some(2));
}

#[test]
fn select_candidate_stops_at_the_limit() {
    assert_eq!(select_candidate(&vec![false, false, true], 2), None);
    assert_eq!(select_candidate(&vec![true], 0), None);
}

#[test]
fn select_candidate_finds_nothing_among_absent_ones() {
    assert_eq!(select_candidate(&vec![false, false], 2), None);
    assert_eq!(select_candidate(&vec![], 2), None);
    assert_eq!(select_candidate(&vec![false], 5), None);
}

#[test]
fn development_sinks_append_both_streams_to_one_log_file() {
    let (stdout, stderr) = resolve_sinks(ExecutionMode::Development, "/r/.cache/desktop");
    let expected = SinkTarget::Append {
        directory: String::from("/r/.cache/desktop"),
        file: String::from("/r/.cache/desktop/backend-sidecar.log"),
    };
    assert_eq!(stdout, expected);
    assert_eq!(stderr, expected);
}

#[test]
fn production_sinks_discard_both_streams() {
    let (stdout, stderr) = resolve_sinks(ExecutionMode::Production, "/r/.cache/desktop");
    assert_eq!(stdout, SinkTarget::Null);
    assert_eq!(stderr, SinkTarget::Null);
}
