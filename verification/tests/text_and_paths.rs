use agenterm_sidecar::paths::{cache_dir, join_path, log_file, project_root};
use agenterm_sidecar::text::push_decimal;

fn decimal_of(n: u16) -> String {
    let mut out = String::new();
    push_decimal(&mut out, n);
    out
}

#[test]
fn decimal_of_zero_is_one_digit() {
    assert_eq!(decimal_of(0), "0");
}

#[test]
fn decimal_of_single_digits() {
    assert_eq!(decimal_of(7), "7");
    assert_eq!(decimal_of(9), "9");
}

#[test]
fn decimal_has_no_leading_zeros() {
    assert_eq!(decimal_of(10), "10");
    assert_eq!(decimal_of(100), "100");
    assert_eq!(decimal_of(1005), "1005");
}

#[test]
fn decimal_of_the_backend_port() {
    assert_eq!(decimal_of(8765), "8765");
}

#[test]
fn decimal_of_the_largest_port() {
    assert_eq!(decimal_of(u16::MAX), "65535");
}

#[test]
fn decimal_appends_to_what_is_there() {
    let mut out = String::from("port ");
    push_decimal(&mut out, 443);
    assert_eq!(out, "port 443");
}

#[test]
fn decimal_agrees_with_the_standard_library() {
    for n in [0u16, 1, 9, 10, 11, 99, 100, 101, 999, 1000, 9999, 10000, 12345, 65534, 65535] {
        assert_eq!(decimal_of(n), n.to_string());
    }
}

#[test]
fn join_puts_one_separator_between() {
    assert_eq!(join_path("/srv/app", "bin"), "/srv/app/bin");
}

#[test]
fn join_adds_no_second_separator() {
    assert_eq!(join_path("/srv/app/", "bin"), "/srv/app/bin");
    assert_eq!(join_path("/", "bin"), "/bin");
}

#[test]
fn join_onto_nothing_is_the_relative_path() {
    assert_eq!(join_path("", "bin"), "bin");
}

#[test]
fn join_with_an_absolute_path_replaces_the_base() {
    assert_eq!(join_path("/srv/app", "/usr/bin"), "/usr/bin");
    assert_eq!(join_path("", "/usr/bin"), "/usr/bin");
}

#[test]
fn join_with_nothing_leaves_a_trailing_separator() {
    assert_eq!(join_path("/srv/app", ""), "/srv/app/");
    assert_eq!(join_path("", ""), "");
}

#[test]
fn join_counts_characters_not_bytes() {
    assert_eq!(join_path("/données/é", "ü"), "/données/é/ü");
    assert_eq!(join_path("/données/", "ü"), "/données/ü");
}

#[test]
fn join_agrees_with_the_standard_library() {
    let cases = [
        ("/a", "b"),
        ("/a/", "b"),
        ("a", "b/c"),
        ("", "b"),
        ("/a", "/b"),
        ("/a", ""),
        ("/", ".."),
        ("/a/b", ".."),
        (".", ".cache"),
    ];
    for (base, rel) in cases {
        let expected = std::path::Path::new(base).join(rel);
        assert_eq!(join_path(base, rel), expected.to_str().unwrap());
    }
}

#[test]
fn project_root_is_the_parent_of_the_manifest_directory() {
    assert_eq!(project_root("/home/me/agenterm/src-tauri"), "/home/me/agenterm/src-tauri/..");
    assert_eq!(project_root("/home/me/agenterm/src-tauri/"), "/home/me/agenterm/src-tauri/..");
    assert_eq!(project_root(""), "..");
}

#[test]
fn cache_dir_lies_below_the_root() {
    assert_eq!(cache_dir("/home/me/agenterm"), "/home/me/agenterm/.cache/desktop");
    assert_eq!(cache_dir("/home/me/agenterm/"), "/home/me/agenterm/.cache/desktop");
    assert_eq!(cache_dir(""), ".cache/desktop");
}

#[test]
fn log_file_lies_in_the_cache_dir() {
    assert_eq!(
        log_file("/home/me/agenterm/.cache/desktop"),
        "/home/me/agenterm/.cache/desktop/backend-sidecar.log"
    );
}
