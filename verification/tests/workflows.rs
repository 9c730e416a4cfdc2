use chostty::commands::{render_reply, Reply};
use chostty::cli::IdFormat;
use chostty::control::snapshots::{estimate_changed_pixels, sanitize_label, snapshot_file_name};
use chostty::handles::{decode_handle_id, encode_handle_id};
use chostty::json::{Json, JsonNumber};
use chostty::workflows::{store_name, workflow_step, Step};

fn args(v: &[&str]) -> Vec<String> {
    v.iter().map(|s| s.to_string()).collect()
}

fn s(x: &str) -> Json {
    Json::Str(x.to_string())
}

fn obj(pairs: Vec<(&str, Json)>) -> Json {
    Json::Object(pairs.into_iter().map(|(k, v)| (k.to_string(), v)).collect())
}

fn step(command: &str, a: &[&str], outcomes: Vec<Option<Json>>) -> Result<Step, String> {
    workflow_step(command, &args(a), None, None, &Vec::new(), "/tmp/hooks.json", &outcomes).expect("a workflow command")
}

fn call_of(r: Result<Step, String>) -> (String, Vec<(String, Json)>, bool) {
    match r {
        Ok(Step::Call(m, p, t)) => (m, p, t),
        other => panic!("expected a call, got {:?}", other.err()),
    }
}

fn done(r: Result<Step, String>) -> Json {
    match r {
        Ok(Step::Done(j)) => j,
        other => panic!("expected an answer, got {:?}", other.err()),
    }
}

fn member<'a>(p: &'a [(String, Json)], key: &str) -> Option<&'a Json> {
    p.iter().find(|(k, _)| k == key).map(|(_, v)| v)
}

fn text_of(j: &Json, key: &str) -> String {
    match j {
        Json::Object(ms) => match ms.iter().find(|(k, _)| k == key) {
            Some((_, Json::Str(t))) => t.clone(),
            other => panic!("no text {key}: {other:?}"),
        },
        other => panic!("not an object {other:?}"),
    }
}

#[test]
fn new_workspace_selects_the_original_back() {
    let (m, _, _) = call_of(step("new-workspace", &["--cwd", "/tmp"], vec![]));
    assert_eq!(m, "workspace.current");
    let current = obj(vec![("workspace_id", s("workspace:1"))]);
    let (m, p, _) = call_of(step("new-workspace", &["--cwd", "/tmp"], vec![Some(current)]));
    assert_eq!(m, "workspace.create");
    assert!(matches!(member(&p, "cwd"), Some(Json::Str(c)) if c == "/tmp"));
    let current = obj(vec![("workspace_id", s("workspace:1"))]);
    let created = obj(vec![("workspace_ref", s("workspace:2"))]);
    let (m, p, tolerated) = call_of(step("new-workspace", &[], vec![Some(current), Some(created)]));
    assert_eq!(m, "workspace.select");
    assert!(tolerated);
    assert!(matches!(member(&p, "workspace_id"), Some(Json::Str(c)) if c == "workspace:1"));
    let current = obj(vec![("workspace_id", s("workspace:1"))]);
    let created = obj(vec![("workspace_ref", s("workspace:2"))]);
    let answer = done(step("new-workspace", &[], vec![Some(current), Some(created), None]));
    assert_eq!(text_of(&answer, "workspace_ref"), "workspace:2");
    match render_reply("new-workspace", &[], None, answer, false, IdFormat::Refs) {
        Reply::Text(t) => assert_eq!(t, "OK workspace:2"),
        _ => panic!("expected text"),
    }
    assert_eq!(
        step("new-workspace", &[], vec![Some(obj(vec![]))]).err().unwrap(),
        "workspace.current returned no workspace handle"
    );
}

#[test]
fn sidebar_state_reads_the_git_branch() {
    assert_eq!(step("sidebar-state", &[], vec![]).err().unwrap(), "sidebar-state requires --workspace <id|ref>");
    let listed = || obj(vec![("workspaces", Json::Array(vec![obj(vec![("workspace_ref", s("workspace:3")), ("cwd", s("/repo"))])]))]);
    match step("sidebar-state", &["--workspace", "workspace:3"], vec![Some(listed())]) {
        Ok(Step::Branch(dir)) => assert_eq!(dir, "/repo"),
        _ => panic!("expected a branch lookup"),
    }
    let answer = done(step("sidebar-state", &["--workspace", "workspace:3"], vec![Some(listed()), Some(s("main\n"))]));
    assert_eq!(text_of(&answer, "git_branch"), "main");
    match render_reply("sidebar-state", &[], None, answer, false, IdFormat::Refs) {
        Reply::Text(t) => assert_eq!(t, "workspace=workspace:3\ncwd=/repo\ngit_branch=main"),
        _ => panic!("expected text"),
    }
    let answer = done(step("sidebar-state", &["--workspace", "workspace:9"], vec![Some(listed())]));
    assert_eq!(text_of(&answer, "cwd"), "none");
}

#[test]
fn tab_action_pins_and_helps() {
    let help = done(step("tab-action", &["--help"], vec![]));
    assert!(text_of(&help, "help").starts_with("Usage: chostty tab-action"));
    assert_eq!(step("tab-action", &[], vec![]).err().unwrap(), "tab-action requires --action <name>");
    let (m, p, _) = call_of(step("tab-action", &["--action", "pin", "--tab", "tab:2"], vec![]));
    assert_eq!(m, "tab.action");
    assert!(matches!(member(&p, "surface_id"), Some(Json::Str(t)) if t == "tab:2"));
    let answer = done(step("tab-action", &["--action", "pin", "--tab", "tab:2"], vec![Some(obj(vec![("ok", Json::Bool(true))]))]));
    assert_eq!(text_of(&answer, "tab_ref"), "tab:2");
    assert!(matches!(answer, Json::Object(ref ms) if ms.iter().any(|(k, v)| k == "pinned" && matches!(v, Json::Bool(true)))));
    let (m, p, _) = call_of(step("tab-action", &["--action", "new-browser-right"], vec![]));
    assert_eq!(m, "pane.create");
    assert!(matches!(member(&p, "type"), Some(Json::Str(t)) if t == "browser"));
}

#[test]
fn tmux_buffers_and_hooks_use_the_store() {
    assert_eq!(store_name("set-buffer"), Some("buffers"));
    assert_eq!(store_name("set-hook"), Some("hooks"));
    assert_eq!(store_name("send"), None);
    let store = vec![("a".to_string(), "one".to_string())];
    match workflow_step("set-buffer", &args(&["--name", "b", "two"]), None, None, &store, "", &vec![]) {
        Some(Ok(Step::Save(kind, map))) => {
            assert_eq!(kind, "buffers");
            assert_eq!(map, vec![("a".to_string(), "one".to_string()), ("b".to_string(), "two".to_string())]);
        }
        _ => panic!("expected a save"),
    }
    let listed = done(workflow_step("list-buffers", &[], None, None, &store, "", &vec![]).unwrap());
    assert_eq!(text_of(&listed, "text"), "a");
    match workflow_step("paste-buffer", &args(&["--name", "a"]), None, None, &store, "", &vec![]) {
        Some(Ok(Step::Call(m, p, _))) => {
            assert_eq!(m, "surface.send_text");
            assert!(matches!(member(&p, "text"), Some(Json::Str(t)) if t == "one"));
        }
        _ => panic!("expected a call"),
    }
    let hooks = done(workflow_step("set-hook", &args(&["--list"]), None, None, &store, "/tmp/hooks.json", &vec![]).unwrap());
    assert_eq!(text_of(&hooks, "text"), "a=one");
    assert_eq!(text_of(&hooks, "path"), "/tmp/hooks.json");
    assert_eq!(step("set-hook", &["--flag"], vec![]).err().unwrap(), "set-hook requires <name> <command>");
}

#[test]
fn tmux_commands_map_to_requests() {
    assert_eq!(step("popup", &[], vec![]).err().unwrap(), "not supported");
    let (m, p, _) = call_of(step("resize-pane", &["--pane", "pane:1", "-L", "--amount", "3"], vec![]));
    assert_eq!(m, "pane.resize");
    assert!(matches!(member(&p, "direction"), Some(Json::Str(d)) if d == "left"));
    assert!(matches!(member(&p, "amount"), Some(Json::Number(JsonNumber::UInt(3)))));
    assert_eq!(step("join-pane", &[], vec![]).err().unwrap(), "join-pane requires --target-pane");
    let (m, p, _) = call_of(step("respawn-pane", &["--command", "ls"], vec![]));
    assert_eq!(m, "surface.send_text");
    assert!(matches!(member(&p, "text"), Some(Json::Str(t)) if t == "ls\n"));
    let msg = done(step("display-message", &["hello", "there"], vec![]));
    assert_eq!(text_of(&msg, "text"), "hello there");
    match render_reply("display-message", &[], None, msg, false, IdFormat::Refs) {
        Reply::Text(t) => assert_eq!(t, "hello there"),
        _ => panic!("expected text"),
    }
    let rows = obj(vec![("workspaces", Json::Array(vec![
        obj(vec![("workspace_ref", s("workspace:1")), ("title", s("alpha"))]),
        obj(vec![("workspace_ref", s("workspace:2")), ("title", s("beta"))]),
    ]))]);
    let found = done(step("find-window", &["bet"], vec![Some(rows)]));
    assert_eq!(text_of(&found, "text"), "workspace:2 beta");
    match step("wait-for", &["-S", "job"], vec![]) {
        Ok(Step::Signal(p)) => assert_eq!(p, "/tmp/chostty-wait-for-job.sig"),
        _ => panic!("expected a signal"),
    }
}

#[test]
fn swap_pane_moves_both_surfaces() {
    let surfaces = |h: &str| obj(vec![("surfaces", Json::Array(vec![obj(vec![("surface_ref", s(h)), ("focused", Json::Bool(true))])]))]);
    let a = &["--pane", "pane:1", "--target-pane", "pane:2"];
    let (m, _, _) = call_of(step("swap-pane", a, vec![Some(surfaces("surface:1"))]));
    assert_eq!(m, "pane.surfaces");
    let (m, p, _) = call_of(step("swap-pane", a, vec![Some(surfaces("surface:1")), Some(surfaces("surface:2"))]));
    assert_eq!(m, "surface.move");
    assert!(matches!(member(&p, "surface_id"), Some(Json::Str(t)) if t == "surface:1"));
    assert!(matches!(member(&p, "target_pane_id"), Some(Json::Str(t)) if t == "pane:2"));
    assert_eq!(
        step("swap-pane", a, vec![Some(obj(vec![]))]).err().unwrap(),
        "pane.surfaces returned no surfaces"
    );
}

#[test]
fn snapshot_names_and_pixel_estimates() {
    assert_eq!(sanitize_label("  a b/c "), "a_b_c");
    assert_eq!(sanitize_label("   "), "shot");
    assert_eq!(snapshot_file_name("limux-panel", "x", 7, "123"), "limux-panel-7-123-x.png");
    assert_eq!(estimate_changed_pixels("abc", "abc"), 0);
    assert_eq!(estimate_changed_pixels("abc", "abd"), 64);
    assert_eq!(estimate_changed_pixels("", "abcd"), 256);
}

#[test]
fn handles_decode_decimal_refs_and_blanks() {
    assert_eq!(decode_handle_id("42"), Some(42));
    assert_eq!(decode_handle_id("surface:42"), Some(42));
    assert_eq!(decode_handle_id("  "), None);
    assert_eq!(decode_handle_id(&encode_handle_id(7)), Some(7));
    assert_eq!(decode_handle_id(&encode_handle_id(1u64 << 48)), None);
}
