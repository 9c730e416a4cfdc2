use chostty::browser_page::{decode_data_html, extract_html_title, file_html_path, normalize_browser_title, percent_decode};
use chostty::capture::{estimate_changed_pixels, sanitize_debug_label};
use chostty::handles::{decode_handle_id, encode_handle_id, pane_ref, surface_ref, window_ref, workspace_ref};
use chostty::shortcut::{combo_to_shortcut_hint, fuzzy_subsequence, normalize_shortcut_combo};
use chostty::socket_path::{resolve_socket_path, SocketEnv, SocketMode};
use chostty::split_tree::SplitNode;
use chostty::layout_state::SplitOrientation;

fn env(a: Option<&str>, b: Option<&str>, xdg: Option<&str>) -> SocketEnv {
    SocketEnv {
        chostty_socket: a.map(|s| s.to_string()),
        chostty_socket_path: b.map(|s| s.to_string()),
        xdg_runtime_dir: xdg.map(|s| s.to_string()),
    }
}

#[test]
fn explicit_path_has_highest_precedence() {
    let e = env(Some("/tmp/from-env.sock"), Some("/tmp/from-env-path.sock"), None);
    assert_eq!(resolve_socket_path(Some("/tmp/from-arg.sock".to_string()), SocketMode::Runtime, &e), "/tmp/from-arg.sock");
}

#[test]
fn chostty_socket_has_higher_precedence_than_chostty_socket_path() {
    let e = env(Some("/tmp/from-chostty-socket.sock"), Some("/tmp/from-chostty-socket-path.sock"), None);
    assert_eq!(resolve_socket_path(None, SocketMode::Runtime, &e), "/tmp/from-chostty-socket.sock");
}

#[test]
fn chostty_socket_path_used_when_chostty_socket_missing() {
    let e = env(None, Some("/tmp/from-chostty-socket-path.sock"), None);
    assert_eq!(resolve_socket_path(None, SocketMode::Runtime, &e), "/tmp/from-chostty-socket-path.sock");
}

#[test]
fn runtime_mode_defaults_to_xdg_runtime_dir() {
    let e = env(None, None, Some("/run/user/1000"));
    assert_eq!(resolve_socket_path(None, SocketMode::Runtime, &e), "/run/user/1000/chostty/chostty.sock");
}

#[test]
fn debug_mode_defaults_to_debug_socket() {
    let e = env(None, None, None);
    assert_eq!(resolve_socket_path(None, SocketMode::Debug, &e), "/tmp/chostty-debug.sock");
}

#[test]
fn empty_variables_count_as_unset() {
    let e = env(Some(""), Some(""), Some(""));
    assert_eq!(resolve_socket_path(None, SocketMode::Runtime, &e), "/tmp/chostty.sock");
    assert_eq!(SocketMode::default_for(SocketMode::Runtime, None), "/tmp/chostty.sock");
}

#[test]
fn handles_round_trip() {
    for id in [0u64, 1, 42, 0xffff_ffff_ffff] {
        let h = encode_handle_id(id);
        assert_eq!(decode_handle_id(&h), Some(id));
    }
    assert_eq!(decode_handle_id("17"), Some(17));
    assert_eq!(decode_handle_id("surface:5"), Some(5));
    assert_eq!(decode_handle_id("not-a-handle"), None);
    assert_eq!(workspace_ref(3), "workspace:3");
    assert_eq!(pane_ref(4), "pane:4");
    assert_eq!(surface_ref(5), "surface:5");
    assert_eq!(window_ref(6), "window:6");
}

#[test]
fn shortcut_combos_and_hints() {
    assert_eq!(normalize_shortcut_combo(" Cmd + Shift + P "), "cmd+shift+p");
    assert_eq!(combo_to_shortcut_hint("cmd+shift+p"), "⇧⌘P");
    assert_eq!(combo_to_shortcut_hint("ctrl+alt+t"), "⌃⌥T");
    assert!(fuzzy_subsequence("workspace", "wksp"));
    assert!(fuzzy_subsequence("anything", ""));
    assert!(!fuzzy_subsequence("pane", "pn x"));
}

#[test]
fn browser_page_helpers() {
    assert_eq!(normalize_browser_title("https://cmux.dev/docs"), "cmux.dev");
    assert_eq!(normalize_browser_title("http://example.com"), "example.com");
    assert_eq!(normalize_browser_title("about:blank"), "about:blank");
    assert_eq!(normalize_browser_title("https:///path"), "https:///path");
    assert_eq!(extract_html_title("<html><TITLE>  Hi there </TITLE></html>").as_deref(), Some("Hi there"));
    assert_eq!(extract_html_title("<p>none</p>"), None);
    assert_eq!(percent_decode("a%20b+c%zz"), "a b c%zz");
    assert_eq!(decode_data_html("data:text/html,%3Ch1%3Ehi%3C%2Fh1%3E").as_deref(), Some("<h1>hi</h1>"));
    assert_eq!(decode_data_html("https://x"), None);
    assert_eq!(file_html_path("file:///tmp/a%20b.html?x=1#top").as_deref(), Some("/tmp/a b.html"));
    assert_eq!(file_html_path("file://localhost/srv/page.html").as_deref(), Some("/srv/page.html"));
    assert_eq!(file_html_path("file://"), None);
    assert_eq!(file_html_path("https://x"), None);
}

#[test]
fn capture_helpers() {
    assert_eq!(sanitize_debug_label("  my shot!  "), "my_shot_");
    assert_eq!(sanitize_debug_label("   "), "shot");
    assert_eq!(estimate_changed_pixels("same", "same"), 0);
    assert_eq!(estimate_changed_pixels("abc", "abd"), 64);
    assert_eq!(estimate_changed_pixels("abc", "abcde"), 128);
    assert_eq!(estimate_changed_pixels("", ""), 0);
}

#[test]
fn split_tree_remove_and_replace() {
    let leaf = |p: u64| SplitNode::Leaf { pane: p };
    let mut tree = SplitNode::Split {
        orientation: SplitOrientation::Horizontal,
        ratio_bits: 0,
        left: Box::new(leaf(1)),
        right: Box::new(SplitNode::Split {
            orientation: SplitOrientation::Vertical,
            ratio_bits: 0,
            left: Box::new(leaf(2)),
            right: Box::new(leaf(3)),
        }),
    };
    assert!(tree.contains_pane(3));
    assert_eq!(tree.first_leaf(), 1);
    assert_eq!(tree.sibling_first_leaf(2), Some(3));
    assert_eq!(tree.sibling_first_leaf(1), Some(2));
    assert!(tree.remove(2));
    assert!(!tree.contains_pane(2));
    assert!(tree.contains_pane(3));
    assert_eq!(tree.sibling_first_leaf(3), Some(1));
    assert!(!tree.remove(9));
    assert!(tree.replace(3, leaf(7)));
    assert!(tree.contains_pane(7));
    assert!(!tree.contains_pane(3));
    assert!(!tree.is_leaf());
}
