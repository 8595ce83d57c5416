use google_workspace_cli::platform::{
    config_dir_from, home_dir_from, join_component, macos_config_dir_from,
    windows_config_dir_from, windows_home_dir_from,
};

fn b(s: &str) -> Option<Vec<u8>> {
    Some(s.as_bytes().to_vec())
}

fn w(s: &str) -> Option<Vec<u16>> {
    Some(s.encode_utf16().collect())
}

#[test]
fn home_dir_returns_some_when_set() {
    assert_eq!(home_dir_from(b("/tmp/test-home")), b("/tmp/test-home"));
}

#[test]
fn home_dir_returns_none_when_unset() {
    assert_eq!(home_dir_from(None), None);
}

#[test]
fn home_dir_returns_none_when_empty() {
    assert_eq!(home_dir_from(b("")), None);
}

#[test]
fn config_dir_respects_xdg() {
    assert_eq!(
        config_dir_from(b("/tmp/xdg-config"), b("/tmp/test-home")),
        b("/tmp/xdg-config")
    );
}

#[test]
fn config_dir_falls_back_to_home_dot_config() {
    assert_eq!(
        config_dir_from(None, b("/tmp/test-home")),
        b("/tmp/test-home/.config")
    );
}

#[test]
fn config_dir_rejects_relative_xdg() {
    assert_eq!(
        config_dir_from(b("relative/path"), b("/tmp/test-home")),
        b("/tmp/test-home/.config")
    );
}

#[test]
fn config_dir_edge_cases() {
    assert_eq!(config_dir_from(b(""), b("/h")), b("/h/.config"));
    assert_eq!(config_dir_from(b("/x"), None), b("/x"));
    assert_eq!(config_dir_from(b("x"), None), None);
    assert_eq!(config_dir_from(None, b("")), None);
    assert_eq!(config_dir_from(None, b("/")), b("/.config"));
    assert_eq!(config_dir_from(None, b("/h/")), b("/h/.config"));
}

#[test]
fn join_adds_one_separator() {
    assert_eq!(join_component(b"/a".to_vec(), &b"c".to_vec()), b"/a/c".to_vec());
    assert_eq!(join_component(b"/a/".to_vec(), &b"c".to_vec()), b"/a/c".to_vec());
    assert_eq!(join_component(Vec::new(), &b"c".to_vec()), b"c".to_vec());
}

#[test]
fn macos_config_dir() {
    assert_eq!(
        macos_config_dir_from(b("/Users/me")),
        b("/Users/me/Library/Application Support")
    );
    assert_eq!(macos_config_dir_from(b("")), None);
    assert_eq!(macos_config_dir_from(None), None);
}

#[test]
fn windows_dirs() {
    assert_eq!(windows_home_dir_from(w("C:\\Users\\me"), w("D:"), w("\\x")), w("C:\\Users\\me"));
    assert_eq!(windows_home_dir_from(w(""), w("D:"), w("\\x")), w("D:\\x"));
    assert_eq!(windows_home_dir_from(None, w("D:"), None), None);
    assert_eq!(windows_home_dir_from(None, w(""), w("")), w(""));
    assert_eq!(windows_config_dir_from(w("C:\\AppData")), w("C:\\AppData"));
    assert_eq!(windows_config_dir_from(w("")), None);
}
