use chostty::host_paths::{
    choose_env_path, debug_log_path_for, log_dir_from, persistence_dir_from, resource_candidates_for,
    terminfo_dir_for, xdg_data_dirs_value,
};

#[test]
fn derives_terminfo_dir_from_resources_dir() {
    assert_eq!(terminfo_dir_for("/usr/share/chostty/ghostty").as_deref(), Some("/usr/share/chostty/terminfo"));
}

#[test]
fn log_dir_prefers_absolute_xdg_state_home() {
    assert_eq!(log_dir_from(Some("/var/tmp/chostty-test-state"), Some("/home/u/.local/state"), None), "/var/tmp/chostty-test-state/chostty");
    assert_eq!(log_dir_from(Some("relative/path"), Some("/home/u/.local/state"), None), "/home/u/.local/state/chostty");
    assert_eq!(log_dir_from(None, None, Some("/home/u")), "/home/u/.local/state/chostty");
    assert_eq!(log_dir_from(None, None, None), "/tmp/chostty");
}

#[test]
fn debug_log_sits_beside_the_socket() {
    assert_eq!(debug_log_path_for("/run/user/1/chostty/chostty.sock").as_deref(), Some("/run/user/1/chostty/chostty.log"));
    assert_eq!(debug_log_path_for("/tmp/custom").as_deref(), Some("/tmp/custom.log"));
    assert_eq!(debug_log_path_for("/"), None);
}

#[test]
fn resource_candidates_walk_up_from_the_executable() {
    let c = resource_candidates_for("/opt/app/bin");
    assert_eq!(c[0], "/opt/app/bin/share/chostty/ghostty");
    assert_eq!(c[1], "/opt/app/bin/share/ghostty");
    assert_eq!(c[2], "/opt/app/bin/ghostty/zig-out/share/ghostty");
    assert_eq!(c[3], "/opt/app/share/chostty/ghostty");
    assert!(c.contains(&"/share/ghostty".to_string()));
    assert_eq!(c[c.len() - 2], "/usr/local/share/ghostty");
    assert_eq!(c[c.len() - 1], "/usr/share/ghostty");
    assert_eq!(c.len(), 4 * 3 + 2);
}

#[test]
fn inherited_env_paths_are_kept_when_valid() {
    assert_eq!(choose_env_path(true, Some("/new".to_string()), true), None);
    assert_eq!(choose_env_path(false, Some("/new".to_string()), true).as_deref(), Some("/new"));
    assert_eq!(choose_env_path(false, Some("/new".to_string()), false), None);
    assert_eq!(choose_env_path(false, None, true), None);
}

#[test]
fn xdg_data_dirs_list_resources_first_without_repeats() {
    assert_eq!(xdg_data_dirs_value("/res", None), "/res:/usr/local/share:/usr/share");
    assert_eq!(xdg_data_dirs_value("/res", Some("  ")), "/res:/usr/local/share:/usr/share");
    assert_eq!(
        xdg_data_dirs_value("/res", Some("/a: /b ::/res:/usr/share:/a")),
        "/res:/a:/b:/usr/share:/usr/local/share"
    );
}

#[test]
fn sessions_live_under_local_share() {
    assert_eq!(persistence_dir_from(Some("/home/u/.local/share"), Some("/home/u")), "/home/u/.local/share/chostty");
    assert_eq!(persistence_dir_from(Some("/data"), None), "/data/.local/share/chostty");
    assert_eq!(persistence_dir_from(None, Some("/home/u")), "/home/u/.local/share/chostty");
    assert_eq!(persistence_dir_from(None, None), "./.local/share/chostty");
}
