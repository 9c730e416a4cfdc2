use chostty::control::dispatch::{Dispatcher, V2Request};
use chostty::control::ShellRun;
use chostty::json::{Json, JsonNumber};

fn s(x: &str) -> Json {
    Json::Str(x.to_string())
}

fn n(x: u64) -> Json {
    Json::Number(JsonNumber::UInt(x))
}

fn obj(pairs: Vec<(&str, Json)>) -> Json {
    Json::Object(pairs.into_iter().map(|(k, v)| (k.to_string(), v)).collect())
}

fn empty() -> Json {
    obj(vec![])
}

fn call_with(
    d: &mut Dispatcher,
    method: &str,
    params: Json,
    files: &Vec<(String, String)>,
) -> (Result<Json, (i64, String)>, Vec<ShellRun>) {
    assert!(d.has_room(&params));
    let req = V2Request { id: Some(s("test")), method: method.to_string(), params };
    let (resp, runs) = d.dispatch(req, Some("/home/tester"), files);
    match resp.id {
        Some(Json::Str(id)) => assert_eq!(id, "test"),
        other => panic!("response id lost: {other:?}"),
    }
    let r = match (resp.result, resp.error) {
        (Some(r), None) => Ok(r),
        (None, Some(e)) => Err((e.code, e.message)),
        other => panic!("malformed response: {other:?}"),
    };
    (r, runs)
}

fn call(d: &mut Dispatcher, method: &str, params: Json) -> Result<Json, (i64, String)> {
    call_with(d, method, params, &Vec::new()).0
}

fn get<'a>(j: &'a Json, key: &str) -> &'a Json {
    match j {
        Json::Object(ms) => match ms.iter().find(|(k, _)| k == key) {
            Some((_, v)) => v,
            None => panic!("no member {key} in {j:?}"),
        },
        other => panic!("not an object: {other:?}"),
    }
}

fn has(j: &Json, key: &str) -> bool {
    match j {
        Json::Object(ms) => ms.iter().any(|(k, _)| k == key),
        _ => false,
    }
}

fn st(j: &Json) -> &str {
    match j {
        Json::Str(x) => x.as_str(),
        other => panic!("not a string: {other:?}"),
    }
}

fn num(j: &Json) -> u64 {
    match j {
        Json::Number(JsonNumber::UInt(x)) => *x,
        other => panic!("not an unsigned number: {other:?}"),
    }
}

fn boolean(j: &Json) -> bool {
    match j {
        Json::Bool(b) => *b,
        other => panic!("not a bool: {other:?}"),
    }
}

fn arr(j: &Json) -> &Vec<Json> {
    match j {
        Json::Array(v) => v,
        other => panic!("not an array: {other:?}"),
    }
}

fn same(a: &Json, b: &Json) -> bool {
    match (a, b) {
        (Json::Null, Json::Null) => true,
        (Json::Bool(x), Json::Bool(y)) => x == y,
        (Json::Number(x), Json::Number(y)) => x == y,
        (Json::Str(x), Json::Str(y)) => x == y,
        (Json::Array(x), Json::Array(y)) => x.len() == y.len() && x.iter().zip(y).all(|(p, q)| same(p, q)),
        (Json::Object(x), Json::Object(y)) => {
            x.len() == y.len() && x.iter().zip(y).all(|((k1, v1), (k2, v2))| k1 == k2 && same(v1, v2))
        }
        _ => false,
    }
}

fn copy(j: &Json) -> Json {
    match j {
        Json::Null => Json::Null,
        Json::Bool(b) => Json::Bool(*b),
        Json::Number(x) => Json::Number(*x),
        Json::Str(x) => Json::Str(x.clone()),
        Json::Array(v) => Json::Array(v.iter().map(copy).collect()),
        Json::Object(ms) => Json::Object(ms.iter().map(|(k, v)| (k.clone(), copy(v))).collect()),
    }
}

#[test]
fn dispatcher_handles_system_commands() {
    let mut d = Dispatcher::new();
    let ping = call(&mut d, "system.ping", empty()).expect("ping result");
    assert!(boolean(get(&ping, "pong")));

    let identify = call(&mut d, "system.identify", empty()).expect("identify result");
    assert_eq!(st(get(&identify, "name")), "limux-control");

    let caps = call(&mut d, "system.capabilities", empty()).expect("capabilities result");
    for key in ["commands", "methods"] {
        assert!(arr(get(&caps, key)).iter().any(|m| matches!(m, Json::Str(x) if x == "surface.send_text")));
        assert!(arr(get(&caps, key)).iter().any(|m| matches!(m, Json::Str(x) if x == "browser.open_split")));
    }
}

#[test]
fn dispatcher_handles_workspace_and_window_flow() {
    let mut d = Dispatcher::new();
    let created = call(&mut d, "workspace.create", obj(vec![("name", s("dev"))])).expect("workspace result");
    assert_eq!(st(get(get(&created, "workspace"), "name")), "dev");

    let previous = call(&mut d, "workspace.previous", empty()).expect("workspace previous");
    assert_eq!(st(get(get(&previous, "workspace"), "name")), "main");

    let moved = call(&mut d, "workspace.move_to_window", obj(vec![("window_id", n(7))])).expect("workspace move");
    assert_eq!(num(get(get(&moved, "workspace"), "host_window_id")), 7);

    let window = call(&mut d, "window.create", obj(vec![("title", s("shell"))])).expect("window create");
    assert_eq!(st(get(get(&window, "window"), "title")), "shell");

    let windows = call(&mut d, "window.list", empty()).expect("window list");
    assert!(arr(get(&windows, "windows")).len() >= 2);
}

#[test]
fn dispatcher_handles_pane_and_surface_flow() {
    let mut d = Dispatcher::new();
    let created = call(&mut d, "surface.create", obj(vec![("title", s("agent"))])).expect("surface create");
    let surface_id = num(get(get(&created, "surface"), "id"));

    let sent = call(&mut d, "surface.send_text", obj(vec![("surface_id", n(surface_id)), ("text", s("hello"))]))
        .expect("send text");
    assert_eq!(st(get(get(&sent, "surface"), "text")), "hello");

    let read = call(&mut d, "surface.read_text", obj(vec![("surface_id", n(surface_id))])).expect("read text");
    assert_eq!(st(get(&read, "text")), "hello");

    let split = call(&mut d, "surface.split", obj(vec![("title", s("split"))])).expect("split");
    let split_pane_id = num(get(get(&split, "surface"), "pane_id"));

    let moved = call(
        &mut d,
        "surface.move",
        obj(vec![("surface_id", n(surface_id)), ("target_pane_id", n(split_pane_id))]),
    )
    .expect("surface move");
    assert_eq!(num(get(get(&moved, "surface"), "pane_id")), split_pane_id);

    let cleared = call(&mut d, "surface.clear_history", obj(vec![("surface_id", n(surface_id))])).expect("clear history");
    assert_eq!(st(get(get(&cleared, "surface"), "text")), "");
}

#[test]
fn dispatcher_surface_send_text_executes_shell_touch_command() {
    let mut d = Dispatcher::new();
    let (res, runs) = call_with(&mut d, "surface.send_text", obj(vec![("text", s("touch /tmp/marker-file\n"))]), &Vec::new());
    assert!(res.is_ok(), "send_text should succeed");
    assert_eq!(runs.len(), 1);
    assert_eq!(runs[0].command, "touch /tmp/marker-file");
}

#[test]
fn dispatcher_surface_ctrl_keys_interrupt_terminal_modes() {
    let mut d = Dispatcher::new();
    let (_, runs) = call_with(&mut d, "surface.send_text", obj(vec![("text", s("sleep 30\n"))]), &Vec::new());
    assert!(runs.is_empty(), "sleep is simulated, not run");
    let (_, runs) = call_with(&mut d, "surface.send_text", obj(vec![("text", s("touch /tmp/blocked\n"))]), &Vec::new());
    assert!(runs.is_empty(), "sleep mode should block command execution until ctrl-c");

    call(&mut d, "surface.send_key", obj(vec![("key", s("ctrl-c"))])).expect("ctrl-c");
    let (_, runs) = call_with(&mut d, "surface.send_text", obj(vec![("text", s("touch /tmp/after-c\n"))]), &Vec::new());
    assert_eq!(runs.len(), 1, "ctrl-c should return terminal to idle");

    let (_, runs) = call_with(&mut d, "surface.send_text", obj(vec![("text", s("cat\n"))]), &Vec::new());
    assert!(runs.is_empty());
    let (_, runs) = call_with(&mut d, "surface.send_text", obj(vec![("text", s("touch /tmp/in-cat\n"))]), &Vec::new());
    assert!(runs.is_empty(), "cat mode should block shell command execution until ctrl-d");
    call(&mut d, "surface.send_key", obj(vec![("key", s("ctrl-d"))])).expect("ctrl-d");
    let (_, runs) = call_with(&mut d, "surface.send_text", obj(vec![("text", s("touch /tmp/after-d\n"))]), &Vec::new());
    assert_eq!(runs.len(), 1, "ctrl-d should exit cat mode");
}

#[test]
fn dispatcher_handles_surface_and_tab_actions_with_workspace_resolution() {
    let mut d = Dispatcher::new();
    let created = call(&mut d, "workspace.create", obj(vec![("name", s("target"))])).expect("workspace create");
    let workspace_id = num(get(get(&created, "workspace"), "id"));

    let current = call(&mut d, "surface.current", obj(vec![("workspace_id", n(workspace_id))])).expect("surface current");
    let surface_id = num(get(get(&current, "surface"), "id"));

    call(&mut d, "workspace.previous", empty()).expect("previous");

    let tab = format!("tab:{surface_id}");
    let marked = call(&mut d, "tab.action", obj(vec![("tab_id", s(&tab)), ("action", s("mark_unread"))]))
        .expect("tab action mark_unread");
    assert_eq!(st(get(&marked, "tab_ref")), tab);
    assert_eq!(st(get(&marked, "workspace_id")), chostty::handles::encode_handle_id(workspace_id));
    assert!(boolean(get(&marked, "unread")));

    let renamed = call(
        &mut d,
        "surface.action",
        obj(vec![("surface_id", n(surface_id)), ("action", s("rename")), ("title", s("renamed-from-test"))]),
    )
    .expect("surface action rename");
    assert_eq!(st(get(&renamed, "title")), "renamed-from-test");
}

#[test]
fn dispatcher_handles_notifications_and_app_flags() {
    let mut d = Dispatcher::new();
    let note = call(&mut d, "notification.create", obj(vec![("message", s("agent done"))])).expect("notification");
    assert_eq!(st(get(get(&note, "notification"), "message")), "agent done");

    let listed = call(&mut d, "notification.list", empty()).expect("notification list");
    assert_eq!(arr(get(&listed, "notifications")).len(), 1);

    let cleared = call(&mut d, "notification.clear", empty()).expect("notification clear");
    assert_eq!(arr(get(&cleared, "notifications")).len(), 0);

    let over = call(&mut d, "app.focus_override.set", obj(vec![("enabled", Json::Bool(true))])).expect("focus override");
    assert!(boolean(get(&over, "focus_override")));

    let active = call(&mut d, "app.simulate_active", obj(vec![("active", Json::Bool(true))])).expect("simulate active");
    assert!(boolean(get(&active, "simulate_active")));
}

#[test]
fn dispatcher_handles_browser_p0_flow() {
    let mut d = Dispatcher::new();
    let opened = call(&mut d, "browser.open_split", obj(vec![("url", s("https://example.com"))])).expect("browser open");
    assert_eq!(st(get(get(&opened, "browser"), "url")), "https://example.com");

    let nav = call(&mut d, "browser.navigate", obj(vec![("url", s("https://cmux.dev"))])).expect("browser navigate");
    assert_eq!(st(get(get(&nav, "browser"), "url")), "https://cmux.dev");

    let url = call(&mut d, "browser.url.get", empty()).expect("browser url");
    assert_eq!(st(get(&url, "url")), "https://cmux.dev");

    let eval = call(&mut d, "browser.eval", obj(vec![("script", s("document.title"))])).expect("browser eval");
    assert_eq!(st(get(&eval, "value")), "cmux.dev");

    let focused = call(&mut d, "browser.focus_webview", empty()).expect("browser focus");
    assert!(boolean(get(&focused, "is_webview_focused")));
}

#[test]
fn dispatcher_handles_browser_file_url_navigation() {
    let mut d = Dispatcher::new();
    let path = "/tmp/limux-file-url-test.html";
    let files = vec![(
        path.to_string(),
        "<!doctype html><html><head><title>limux file url load</title></head><body><h1>local HTML file loaded</h1></body></html>"
            .to_string(),
    )];
    let file_url = format!("file://{path}");

    let (opened, _) = call_with(&mut d, "browser.open_split", obj(vec![("url", s("about:blank"))]), &files);
    let opened = opened.expect("open split");
    let surface_id = copy(get(&opened, "surface_id"));

    let (nav, _) = call_with(
        &mut d,
        "browser.navigate",
        obj(vec![("surface_id", copy(&surface_id)), ("url", s(&file_url))]),
        &files,
    );
    assert_eq!(st(get(get(&nav.expect("navigate"), "browser"), "title")), "limux file url load");

    let title = call(&mut d, "browser.get.title", obj(vec![("surface_id", copy(&surface_id))])).expect("title");
    assert_eq!(st(get(&title, "title")), "limux file url load");

    let eval = call(
        &mut d,
        "browser.eval",
        obj(vec![("surface_id", surface_id), ("script", s("document.body ? (document.body.innerText || '') : ''"))]),
    )
    .expect("eval");
    assert!(st(get(&eval, "value")).contains("local HTML file loaded"));
}

#[test]
fn dispatcher_browser_open_split_without_url_inherits_current_browser_page() {
    let mut d = Dispatcher::new();
    let opened = call(&mut d, "browser.open_split", obj(vec![("url", s("https://example.com/start"))])).expect("initial browser open");
    let source = copy(get(&opened, "surface_id"));

    let nav = call(
        &mut d,
        "browser.navigate",
        obj(vec![("surface_id", copy(&source)), ("url", s("https://cmux.dev/docs"))]),
    )
    .expect("navigate current browser");
    assert_eq!(st(get(get(&nav, "browser"), "url")), "https://cmux.dev/docs");

    let dup = call(&mut d, "browser.open_split", obj(vec![("surface_id", copy(&source))])).expect("duplicate browser split");
    assert_eq!(st(get(get(&dup, "browser"), "url")), "https://cmux.dev/docs");

    let url = call(&mut d, "browser.url.get", obj(vec![("surface_id", source)])).expect("source browser url");
    assert_eq!(st(get(&url, "url")), "https://cmux.dev/docs");
}

#[test]
fn dispatcher_browser_open_split_reuses_right_neighbor_panes() {
    let mut d = Dispatcher::new();
    let created = call(&mut d, "workspace.create", empty()).expect("workspace create");
    let ws = copy(get(&created, "workspace_id"));
    call(&mut d, "workspace.select", obj(vec![("workspace_id", copy(&ws))])).expect("select");

    let current = call(&mut d, "surface.current", obj(vec![("workspace_id", copy(&ws))])).expect("surface current");
    let left = copy(get(&current, "surface_id"));

    let right = call(
        &mut d,
        "surface.split",
        obj(vec![("workspace_id", copy(&ws)), ("surface_id", copy(&left)), ("direction", s("right"))]),
    )
    .expect("split right");
    let right_top = copy(get(&right, "surface_id"));

    let right_down = call(
        &mut d,
        "surface.split",
        obj(vec![("workspace_id", copy(&ws)), ("surface_id", copy(&right_top)), ("direction", s("down"))]),
    )
    .expect("split right down");
    let right_bottom = copy(get(&right_down, "surface_id"));

    let left_down = call(
        &mut d,
        "surface.split",
        obj(vec![("workspace_id", copy(&ws)), ("surface_id", copy(&left)), ("direction", s("down"))]),
    )
    .expect("split left down");
    let left_bottom = copy(get(&left_down, "surface_id"));

    let list = call(&mut d, "surface.list", obj(vec![("workspace_id", copy(&ws))])).expect("surface list");
    let rows = arr(get(&list, "surfaces"));
    let pane_for = |sid: &Json| -> Json {
        copy(get(rows.iter().find(|row| same(get(row, "id"), sid)).expect("pane for surface"), "pane_id"))
    };
    let right_top_pane = pane_for(&right_top);
    let right_bottom_pane = pane_for(&right_bottom);

    let before = call(&mut d, "pane.list", obj(vec![("workspace_id", copy(&ws))])).expect("pane list before");
    let base = arr(get(&before, "panes")).len();

    let from_left_top = call(
        &mut d,
        "browser.open_split",
        obj(vec![("workspace_id", copy(&ws)), ("surface_id", copy(&left)), ("url", s("about:blank"))]),
    )
    .expect("open from left top");
    assert!(!boolean(get(&from_left_top, "created_split")));
    assert!(same(get(&from_left_top, "target_pane_id"), &right_top_pane));
    let after = call(&mut d, "pane.list", obj(vec![("workspace_id", copy(&ws))])).expect("pane list after left top");
    assert_eq!(arr(get(&after, "panes")).len(), base);

    let from_left_bottom = call(
        &mut d,
        "browser.open_split",
        obj(vec![("workspace_id", copy(&ws)), ("surface_id", copy(&left_bottom)), ("url", s("about:blank"))]),
    )
    .expect("open from left bottom");
    assert!(!boolean(get(&from_left_bottom, "created_split")));
    assert!(same(get(&from_left_bottom, "target_pane_id"), &right_bottom_pane));
    let after = call(&mut d, "pane.list", obj(vec![("workspace_id", copy(&ws))])).expect("pane list after left bottom");
    assert_eq!(arr(get(&after, "panes")).len(), base);

    let from_right = call(
        &mut d,
        "browser.open_split",
        obj(vec![("workspace_id", copy(&ws)), ("surface_id", right_bottom), ("url", s("about:blank"))]),
    )
    .expect("open from right");
    assert!(boolean(get(&from_right, "created_split")));
    let after = call(&mut d, "pane.list", obj(vec![("workspace_id", ws)])).expect("pane list after right");
    assert_eq!(arr(get(&after, "panes")).len(), base + 1);
}

#[test]
fn dispatcher_lists_use_zero_based_indices() {
    let mut d = Dispatcher::new();
    let ws = call(&mut d, "workspace.list", empty()).expect("workspace list");
    assert_eq!(num(get(&arr(get(&ws, "workspaces"))[0], "index")), 0);
    let panes = call(&mut d, "pane.list", empty()).expect("pane list");
    assert_eq!(num(get(&arr(get(&panes, "panes"))[0], "index")), 0);
    let surfaces = call(&mut d, "surface.list", empty()).expect("surface list");
    assert_eq!(num(get(&arr(get(&surfaces, "surfaces"))[0], "index")), 0);
}

#[test]
fn dispatcher_recognizes_tests_v2_extended_method_surface() {
    let mut d = Dispatcher::new();
    let methods = [
        "browser.addinitscript",
        "browser.addscript",
        "browser.addstyle",
        "browser.check",
        "browser.console.clear",
        "browser.console.list",
        "browser.cookies.clear",
        "browser.cookies.get",
        "browser.cookies.set",
        "browser.dblclick",
        "browser.dialog.accept",
        "browser.dialog.dismiss",
        "browser.download.wait",
        "browser.errors.list",
        "browser.find.role",
        "browser.focus",
        "browser.frame.main",
        "browser.frame.select",
        "browser.get.attr",
        "browser.get.box",
        "browser.get.count",
        "browser.get.html",
        "browser.get.styles",
        "browser.highlight",
        "browser.hover",
        "browser.is.checked",
        "browser.is.enabled",
        "browser.is.visible",
        "browser.keydown",
        "browser.keyup",
        "browser.press",
        "browser.scroll",
        "browser.scroll_into_view",
        "browser.select",
        "browser.state.load",
        "browser.state.save",
        "browser.storage.clear",
        "browser.storage.get",
        "browser.storage.set",
        "browser.tab.close",
        "browser.tab.list",
        "browser.tab.new",
        "browser.tab.switch",
        "browser.type",
        "browser.uncheck",
        "debug.app.activate",
        "debug.bonsplit_underflow.count",
        "debug.bonsplit_underflow.reset",
        "debug.command_palette.rename_input.delete_backward",
        "debug.command_palette.rename_input.interact",
        "debug.command_palette.rename_input.select_all",
        "debug.command_palette.rename_input.selection",
        "debug.command_palette.rename_tab.open",
        "debug.command_palette.results",
        "debug.command_palette.selection",
        "debug.command_palette.toggle",
        "debug.command_palette.visible",
        "debug.empty_panel.count",
        "debug.empty_panel.reset",
        "debug.flash.count",
        "debug.flash.reset",
        "debug.layout",
        "debug.notification.focus",
        "debug.panel_snapshot",
        "debug.panel_snapshot.reset",
        "debug.portal.stats",
        "debug.shortcut.set",
        "debug.shortcut.simulate",
        "debug.sidebar.visible",
        "debug.terminal.is_focused",
        "debug.terminal.read_text",
        "debug.terminal.render_stats",
        "debug.type",
        "debug.window.screenshot",
    ];
    for method in methods {
        if let Err((code, _)) = call(&mut d, method, empty()) {
            assert_ne!(code, -32601, "method {method} should be recognized, got unknown method");
        }
    }
}

#[test]
fn dispatcher_shortcut_simulate_moves_focus_right() {
    let mut d = Dispatcher::new();
    assert!(call(&mut d, "pane.create", obj(vec![("direction", s("right"))])).is_ok());
    let before = call(&mut d, "pane.list", empty()).expect("pane list before");
    let panes = arr(get(&before, "panes"));
    assert!(panes.len() >= 2);
    let first = copy(get(&panes[0], "id"));
    let second = copy(get(&panes[1], "id"));
    let _ = call(&mut d, "pane.focus", obj(vec![("pane_id", first)]));
    let simulated = call(&mut d, "debug.shortcut.simulate", obj(vec![("combo", s("cmd+opt+right"))])).expect("simulate");
    assert!(boolean(get(&simulated, "ok")));
    let after = call(&mut d, "pane.list", empty()).expect("pane list after");
    let focused = arr(get(&after, "panes"))
        .iter()
        .find(|p| has(p, "focused") && boolean(get(p, "focused")))
        .expect("focused pane");
    assert!(same(get(focused, "id"), &second));
}

#[test]
fn unknown_methods_are_refused() {
    let mut d = Dispatcher::new();
    match call(&mut d, "workspace.explode", empty()) {
        Err((code, message)) => {
            assert_eq!(code, -32601);
            assert_eq!(message, "unknown method: workspace.explode");
        }
        Ok(other) => panic!("unexpected result {other:?}"),
    }
    match call(&mut d, "browser.teleport", empty()) {
        Err((code, _)) => assert_eq!(code, -32601),
        Ok(other) => panic!("unexpected result {other:?}"),
    }
    match call(&mut d, "browser.viewport.set", empty()) {
        Err((code, message)) => {
            assert_eq!(code, -32020);
            assert_eq!(message, "not_supported: browser.viewport.set");
        }
        Ok(other) => panic!("unexpected result {other:?}"),
    }
}

#[test]
fn invalid_params_and_missing_targets_are_reported() {
    let mut d = Dispatcher::new();
    match call(&mut d, "workspace.create", Json::Array(vec![])) {
        Err((code, _)) => assert_eq!(code, -32602),
        Ok(other) => panic!("unexpected result {other:?}"),
    }
    match call(&mut d, "pane.focus", obj(vec![("pane_id", n(999))])) {
        Err((code, message)) => {
            assert_eq!(code, -32004);
            assert!(message.starts_with("not_found: "));
        }
        Ok(other) => panic!("unexpected result {other:?}"),
    }
    match call(&mut d, "browser.navigate", empty()) {
        Err((code, _)) => assert_eq!(code, -32602),
        Ok(other) => panic!("unexpected result {other:?}"),
    }
}

#[test]
fn closing_the_last_workspace_keeps_one() {
    let mut d = Dispatcher::new();
    let _ = call(&mut d, "workspace.close", empty());
    let ws = call(&mut d, "workspace.list", empty()).expect("workspace list");
    assert!(!arr(get(&ws, "workspaces")).is_empty());
}

#[test]
fn browser_history_back_and_forward() {
    let mut d = Dispatcher::new();
    call(&mut d, "browser.open_split", obj(vec![("url", s("https://a.example/one"))])).expect("open");
    call(&mut d, "browser.navigate", obj(vec![("url", s("https://b.example/two"))])).expect("nav");
    let back = call(&mut d, "browser.back", empty()).expect("back");
    assert_eq!(st(get(&back, "url")), "https://a.example/one");
    let title = call(&mut d, "browser.get.title", empty()).expect("title");
    assert_eq!(st(get(&title, "title")), "a.example");
    let fwd = call(&mut d, "browser.forward", empty()).expect("forward");
    assert_eq!(st(get(&fwd, "url")), "https://b.example/two");
    let fwd2 = call(&mut d, "browser.forward", empty()).expect("forward at end");
    assert_eq!(st(get(&fwd2, "url")), "https://b.example/two");
    call(&mut d, "browser.back", empty()).expect("back again");
    call(&mut d, "browser.navigate", obj(vec![("url", s("https://c.example/three"))])).expect("nav drops forward");
    let fwd3 = call(&mut d, "browser.forward", empty()).expect("forward after nav");
    assert_eq!(st(get(&fwd3, "url")), "https://c.example/three");
}

#[test]
fn browser_form_fill_click_and_wait() {
    let mut d = Dispatcher::new();
    let page = "data:text/html,<title>probe</title><div id='out'>ready</div>";
    call(&mut d, "browser.open_split", obj(vec![("url", s(page))])).expect("open");
    let before = call(&mut d, "browser.get.text", obj(vec![("selector", s("#out"))])).expect("text");
    assert_eq!(st(get(&before, "text")), "ready");
    call(&mut d, "browser.click", obj(vec![("selector", s("#btn"))])).expect("click empty");
    let empty_text = call(&mut d, "browser.get.text", obj(vec![("selector", s("#out"))])).expect("text");
    assert_eq!(st(get(&empty_text, "text")), "empty");
    let filled = call(
        &mut d,
        "browser.fill",
        obj(vec![("selector", s("#name")), ("value", s("Ada")), ("snapshot_after", Json::Bool(true))]),
    )
    .expect("fill");
    assert!(has(&filled, "post_action_snapshot"));
    call(&mut d, "browser.click", obj(vec![("selector", s("#btn"))])).expect("click");
    let after = call(&mut d, "browser.get.text", obj(vec![("selector", s("#out"))])).expect("text");
    assert_eq!(st(get(&after, "text")), "Ada");
    let value = call(&mut d, "browser.get.value", obj(vec![("selector", s("#name"))])).expect("value");
    assert_eq!(st(get(&value, "value")), "Ada");
    match call(&mut d, "browser.click", obj(vec![("selector", s("#missing-thing"))])) {
        Err((code, _)) => assert_eq!(code, -32004),
        Ok(other) => panic!("unexpected {other:?}"),
    }
    let ready = call(&mut d, "browser.wait", obj(vec![("selector", s("#out"))])).expect("wait");
    assert!(boolean(get(&ready, "ready")));
    match call(&mut d, "browser.wait", obj(vec![("text_contains", s("nowhere-to-be-found"))])) {
        Err((code, message)) => {
            assert_eq!(code, -32008);
            assert_eq!(message, "timeout: wait condition not met");
        }
        Ok(other) => panic!("unexpected {other:?}"),
    }
    match call(&mut d, "browser.url.get", obj(vec![("surface_id", n(1))])) {
        Err((code, message)) => {
            assert_eq!(code, -32004);
            assert_eq!(message, "not_found: surface is not a browser tab");
        }
        Ok(other) => panic!("unexpected {other:?}"),
    }
}

#[test]
fn debug_counters_and_terminal_reads() {
    let mut d = Dispatcher::new();
    call(&mut d, "surface.trigger_flash", empty()).expect("flash");
    let total = call(&mut d, "debug.flash.count", empty()).expect("count");
    assert_eq!(num(get(&total, "count")), 1);
    call(&mut d, "debug.flash.reset", empty()).expect("reset");
    let total = call(&mut d, "debug.flash.count", empty()).expect("count");
    assert_eq!(num(get(&total, "count")), 0);

    call(&mut d, "surface.send_text", obj(vec![("text", s("héllo"))])).expect("send");
    let text = call(&mut d, "debug.terminal.read_text", empty()).expect("read");
    assert_eq!(st(get(&text, "text")), "héllo");
    let stats = call(&mut d, "debug.terminal.render_stats", empty()).expect("stats");
    assert_eq!(num(get(get(&stats, "stats"), "presentCount")), 6);
    let focused = call(&mut d, "debug.terminal.is_focused", empty()).expect("focused");
    assert!(boolean(get(&focused, "focused")));
    let visible = call(&mut d, "debug.sidebar.visible", empty()).expect("sidebar");
    assert!(boolean(get(&visible, "visible")));
    let zero = call(&mut d, "debug.empty_panel.count", empty()).expect("empty panels");
    assert_eq!(num(get(&zero, "count")), 0);
}

#[test]
fn palette_toggle_type_and_rename_workspace() {
    let mut d = Dispatcher::new();
    let v = call(&mut d, "debug.command_palette.visible", empty()).expect("visible");
    assert!(!boolean(get(&v, "visible")));
    let t = call(&mut d, "debug.command_palette.toggle", empty()).expect("toggle");
    assert!(boolean(get(&t, "visible")));
    let all = call(&mut d, "debug.command_palette.results", empty()).expect("results");
    assert_eq!(st(get(&all, "mode")), "commands");
    assert_eq!(st(get(&all, "query")), "");
    assert_eq!(num(get(&all, "selected_index")), 0);
    let rows = arr(get(&all, "results"));
    assert_eq!(rows.len(), 14);
    assert_eq!(st(get(&rows[0], "command_id")), "palette.renameTab");
    assert_eq!(st(get(&rows[0], "title")), "Rename Tab");
    assert!(matches!(get(&rows[0], "trailing_label"), Json::Null));
    assert_eq!(st(get(&rows[0], "shortcut_hint")), "⌘R");
    assert_eq!(st(get(&rows[13], "command_id")), "palette.reloadConfig");
    assert!(matches!(get(&rows[13], "shortcut_hint"), Json::Null));
    let three = call(&mut d, "debug.command_palette.results", obj(vec![("limit", n(3))])).expect("limited");
    assert_eq!(arr(get(&three, "results")).len(), 3);

    let typed = call(&mut d, "debug.type", obj(vec![("text", s("rename"))])).expect("type");
    assert_eq!(st(get(&typed, "text")), "rename");
    let found = call(&mut d, "debug.command_palette.results", empty()).expect("rename results");
    assert_eq!(st(get(&found, "query")), "rename");
    let rows = arr(get(&found, "results"));
    assert_eq!(st(get(&rows[0], "command_id")), "palette.renameTab");
    assert_eq!(st(get(&rows[1], "command_id")), "palette.renameWorkspace");

    let down = call(&mut d, "debug.shortcut.simulate", obj(vec![("combo", s("down"))])).expect("down");
    assert_eq!(st(get(&down, "combo")), "down");
    let sel = call(&mut d, "debug.command_palette.selection", empty()).expect("selection");
    assert_eq!(num(get(&sel, "selected_index")), 1);

    let _ = call(&mut d, "debug.shortcut.simulate", obj(vec![("combo", s("enter"))])).expect("enter");
    let snap = call(&mut d, "debug.command_palette.rename_input.selection", empty()).expect("rename selection");
    assert!(boolean(get(&snap, "focused")));
    assert_eq!(num(get(&snap, "text_length")), 4);
    assert_eq!(num(get(&snap, "selection_location")), 0);
    assert_eq!(num(get(&snap, "selection_length")), 4);

    let _ = call(&mut d, "debug.type", obj(vec![("text", s("dev"))])).expect("type name");
    let snap = call(&mut d, "debug.command_palette.rename_input.selection", empty()).expect("after typing");
    assert_eq!(num(get(&snap, "text_length")), 3);
    assert_eq!(num(get(&snap, "selection_location")), 3);
    assert_eq!(num(get(&snap, "selection_length")), 0);

    let _ = call(&mut d, "debug.command_palette.rename_input.delete_backward", empty()).expect("backspace");
    let snap = call(&mut d, "debug.command_palette.rename_input.selection", empty()).expect("after backspace");
    assert_eq!(num(get(&snap, "text_length")), 2);
    assert_eq!(num(get(&snap, "selection_location")), 2);

    let _ = call(&mut d, "debug.shortcut.simulate", obj(vec![("combo", s("Enter"))])).expect("commit");
    let current = call(&mut d, "workspace.current", empty()).expect("workspace");
    assert_eq!(st(get(get(&current, "workspace"), "name")), "de");
    let v = call(&mut d, "debug.command_palette.visible", empty()).expect("visible after");
    assert!(!boolean(get(&v, "visible")));
}

#[test]
fn palette_switcher_lists_surfaces_before_workspaces_for_a_query() {
    let mut d = Dispatcher::new();
    let _ = call(&mut d, "debug.shortcut.simulate", obj(vec![("combo", s("cmd+p"))])).expect("switcher");
    let all = call(&mut d, "debug.command_palette.results", empty()).expect("results");
    assert_eq!(st(get(&all, "mode")), "switcher");
    let rows = arr(get(&all, "results"));
    assert_eq!(rows.len(), 2);
    assert_eq!(st(get(&rows[0], "trailing_label")), "Workspace");
    assert_eq!(st(get(&rows[0], "title")), "main");
    assert!(st(get(&rows[0], "command_id")).starts_with("switcher.workspace."));
    assert_eq!(st(get(&rows[1], "trailing_label")), "Surface");
    assert_eq!(st(get(&rows[1], "title")), "surface-1");

    let _ = call(&mut d, "debug.type", obj(vec![("text", s("MAIN"))])).expect("type");
    let found = call(&mut d, "debug.command_palette.results", empty()).expect("query results");
    let rows = arr(get(&found, "results"));
    assert_eq!(rows.len(), 2);
    assert_eq!(st(get(&rows[0], "trailing_label")), "Surface");
    assert_eq!(st(get(&rows[1], "trailing_label")), "Workspace");

    let _ = call(&mut d, "debug.type", obj(vec![("text", s("zzz"))])).expect("type more");
    let none = call(&mut d, "debug.command_palette.results", empty()).expect("no results");
    assert_eq!(arr(get(&none, "results")).len(), 0);

    let closed = call(&mut d, "debug.shortcut.simulate", obj(vec![("combo", s("cmd+p"))])).expect("close");
    assert!(boolean(get(&closed, "ok")));
    let v = call(&mut d, "debug.command_palette.visible", empty()).expect("visible");
    assert!(!boolean(get(&v, "visible")));
}

#[test]
fn shortcut_remap_changes_palette_hint() {
    let mut d = Dispatcher::new();
    let set = call(&mut d, "debug.shortcut.set", obj(vec![("name", s("rename_tab")), ("combo", s("Ctrl + Shift + X"))])).expect("set");
    assert_eq!(st(get(&set, "name")), "rename_tab");
    assert_eq!(st(get(&set, "combo")), "Ctrl + Shift + X");
    let _ = call(&mut d, "debug.shortcut.simulate", obj(vec![("action", s("cmd+shift+p"))])).expect("open");
    let all = call(&mut d, "debug.command_palette.results", empty()).expect("results");
    assert_eq!(st(get(&all, "query")), ">");
    let rows = arr(get(&all, "results"));
    assert_eq!(st(get(&rows[0], "shortcut_hint")), "⇧⌃X");
    let _ = call(&mut d, "debug.shortcut.set", obj(vec![("action", s("rename_tab")), ("shortcut", s("clear"))])).expect("clear");
    let all = call(&mut d, "debug.command_palette.results", empty()).expect("results again");
    assert_eq!(st(get(&arr(get(&all, "results"))[0], "shortcut_hint")), "⌘R");
    match call(&mut d, "debug.shortcut.set", obj(vec![("combo", s("cmd+k"))])) {
        Err((code, message)) => {
            assert_eq!(code, -32602);
            assert_eq!(message, "invalid_params: name/action is required");
        }
        Ok(other) => panic!("unexpected result {other:?}"),
    }
    match call(&mut d, "debug.shortcut.simulate", empty()) {
        Err((code, _)) => assert_eq!(code, -32602),
        Ok(other) => panic!("unexpected result {other:?}"),
    }
}

#[test]
fn rename_tab_without_select_all_puts_caret_at_end() {
    let mut d = Dispatcher::new();
    let off = call(&mut d, "debug.command_palette.rename_input.select_all", obj(vec![("enabled", Json::Bool(false))])).expect("setting");
    assert!(!boolean(get(&off, "enabled")));
    let _ = call(&mut d, "debug.command_palette.rename_tab.open", empty()).expect("open");
    let snap = call(&mut d, "debug.command_palette.rename_input.selection", empty()).expect("selection");
    assert!(boolean(get(&snap, "focused")));
    assert_eq!(num(get(&snap, "text_length")), 9);
    assert_eq!(num(get(&snap, "selection_location")), 9);
    assert_eq!(num(get(&snap, "selection_length")), 0);
    let _ = call(&mut d, "debug.type", obj(vec![("text", s("é"))])).expect("type");
    let snap = call(&mut d, "debug.command_palette.rename_input.selection", empty()).expect("after");
    assert_eq!(num(get(&snap, "text_length")), 11);
    assert_eq!(num(get(&snap, "selection_location")), 11);
    let _ = call(&mut d, "debug.shortcut.simulate", obj(vec![("combo", s("enter"))])).expect("commit");
    let surface = call(&mut d, "surface.current", empty()).expect("surface");
    assert_eq!(st(get(get(&surface, "surface"), "title")), "surface-1é");
    let on = call(&mut d, "debug.command_palette.rename_input.select_all", empty()).expect("read setting");
    assert!(!boolean(get(&on, "enabled")));
}

#[test]
fn simulated_keys_reach_the_terminal_and_sidebar() {
    let mut d = Dispatcher::new();
    let b = call(&mut d, "debug.shortcut.simulate", obj(vec![("combo", s("cmd+b"))])).expect("sidebar");
    assert!(!boolean(get(&b, "visible")));
    let (r, runs) = call_with(&mut d, "debug.shortcut.simulate", obj(vec![("combo", s("x"))]), &Vec::new());
    assert!(r.is_ok());
    assert!(runs.is_empty());
    let text = call(&mut d, "debug.terminal.read_text", empty()).expect("text");
    assert_eq!(st(get(&text, "text")), "x");
    let before = call(&mut d, "surface.list", empty()).expect("surfaces");
    let count = arr(get(&before, "surfaces")).len();
    let _ = call(&mut d, "debug.shortcut.simulate", obj(vec![("combo", s("cmd+t"))])).expect("new tab");
    let after = call(&mut d, "surface.list", empty()).expect("surfaces after");
    assert_eq!(arr(get(&after, "surfaces")).len(), count + 1);
}

fn open_page(d: &mut Dispatcher, url: &str) {
    let opened = call(d, "browser.open_split", obj(vec![("url", s(url))])).expect("open split");
    assert_eq!(st(get(get(&opened, "browser"), "url")), url);
}

fn eval(d: &mut Dispatcher, script: &str) -> Json {
    let r = call(d, "browser.eval", obj(vec![("script", s(script))])).expect("eval");
    copy(get(&r, "value"))
}

fn expect_error(r: Result<Json, (i64, String)>, code: i64, message: &str) {
    match r {
        Err((c, m)) => {
            assert_eq!(c, code);
            assert_eq!(m, message);
        }
        Ok(other) => panic!("unexpected result {other:?}"),
    }
}

#[test]
fn browser_element_actions_are_counted() {
    let mut d = Dispatcher::new();
    open_page(&mut d, "https://example.test/comprehensive-1");
    let focus = call(&mut d, "browser.focus", obj(vec![("selector", s("#sel"))])).expect("focus");
    assert_eq!(st(get(&focus, "selector")), "#sel");
    assert_eq!(st(&eval(&mut d, "document.activeElement.id")), "sel");
    let _ = call(&mut d, "browser.hover", obj(vec![("selector", s("#hover"))])).expect("hover");
    let _ = call(&mut d, "browser.hover", obj(vec![("selector", s("#hover"))])).expect("hover again");
    let _ = call(&mut d, "browser.dblclick", obj(vec![("selector", s("#dbl"))])).expect("dblclick");
    let pressed = call(&mut d, "browser.press", obj(vec![("key", s("a"))])).expect("press");
    assert_eq!(st(get(&pressed, "key")), "a");
    let _ = call(&mut d, "browser.keydown", obj(vec![("key", s("b"))])).expect("keydown");
    let counts = eval(&mut d, "window.__keys");
    assert_eq!(num(get(&counts, "hover")), 2);
    assert_eq!(num(get(&counts, "dbl")), 1);
    assert_eq!(num(get(&counts, "down")), 2);
    assert_eq!(num(get(&counts, "up")), 2);
    assert_eq!(num(get(&counts, "press")), 1);
    expect_error(call(&mut d, "browser.hover", obj(vec![("selector", s("#missing"))])), -32004, "not_found: element not found");
    let _ = call(&mut d, "browser.scroll", obj(vec![("selector", s("#scroller")), ("dy", n(120))])).expect("scroll");
    let _ = call(&mut d, "browser.scroll", obj(vec![("selector", s("#scroller")), ("dy", n(30))])).expect("scroll more");
    assert_eq!(num(&eval(&mut d, "document.querySelector('#scroller').scrollTop")), 150);
    assert!(!boolean(&eval(&mut d, "document.querySelector('#bottom').getBoundingClientRect().top < window.innerHeight")));
    let _ = call(&mut d, "browser.scroll_into_view", obj(vec![("selector", s("#bottom"))])).expect("into view");
    assert!(boolean(&eval(&mut d, "document.querySelector('#bottom').getBoundingClientRect().top < window.innerHeight")));
    let _ = call(&mut d, "browser.navigate", obj(vec![("url", s("https://example.test/comprehensive-1"))])).expect("reload page");
    let counts = eval(&mut d, "window.__keys");
    assert_eq!(num(get(&counts, "hover")), 0);
    assert_eq!(st(&eval(&mut d, "document.activeElement.id")), "");
}

#[test]
fn browser_forms_and_element_reads() {
    let mut d = Dispatcher::new();
    open_page(&mut d, "https://example.test/comprehensive-1");
    let _ = call(&mut d, "browser.type", obj(vec![("selector", s("#name")), ("text", s("ab"))])).expect("type");
    let typed = call(&mut d, "browser.type", obj(vec![("selector", s("#name")), ("text", s("cd"))])).expect("type more");
    assert_eq!(st(get(&typed, "text")), "cd");
    let v = call(&mut d, "browser.get.value", obj(vec![("selector", s("#name"))])).expect("value");
    assert_eq!(st(get(&v, "value")), "abcd");
    let _ = call(&mut d, "browser.check", obj(vec![("selector", s("#chk"))])).expect("check");
    let c = call(&mut d, "browser.is.checked", obj(vec![("selector", s("#chk"))])).expect("checked");
    assert!(boolean(get(&c, "checked")));
    let _ = call(&mut d, "browser.uncheck", obj(vec![("selector", s("#chk"))])).expect("uncheck");
    let c = call(&mut d, "browser.is.checked", obj(vec![("selector", s("#chk"))])).expect("unchecked");
    assert!(!boolean(get(&c, "value")));
    let _ = call(&mut d, "browser.select", obj(vec![("selector", s("#sel")), ("value", s("b"))])).expect("select");
    let v = call(&mut d, "browser.get.value", obj(vec![("selector", s("#sel"))])).expect("selected");
    assert_eq!(st(get(&v, "value")), "b");
    let a = call(&mut d, "browser.get.attr", obj(vec![("selector", s("#status")), ("attr", s("data-role"))])).expect("attr");
    assert_eq!(st(get(&a, "value")), "status");
    expect_error(call(&mut d, "browser.get.attr", obj(vec![("selector", s("#status"))])), -32602, "invalid_params: name/attr is required");
    let b = call(&mut d, "browser.get.box", obj(vec![("selector", s("#status"))])).expect("box");
    assert_eq!(num(get(get(&b, "value"), "width")), 123);
    let c = call(&mut d, "browser.get.count", obj(vec![("selector", s("option"))])).expect("count");
    assert_eq!(num(get(&c, "count")), 2);
    let c = call(&mut d, "browser.get.count", obj(vec![("selector", s("li"))])).expect("count default");
    assert_eq!(num(get(&c, "count")), 1);
    let h = call(&mut d, "browser.get.html", obj(vec![("selector", s("#status"))])).expect("html");
    assert_eq!(st(get(&h, "value")), "<div id=\"status\" data-role=\"status\">ready</div>");
    let h = call(&mut d, "browser.get.html", empty()).expect("document");
    assert!(st(get(&h, "value")).starts_with("<html><head><title>"));
    let c = call(&mut d, "browser.get.styles", obj(vec![("property", s("color"))])).expect("color");
    assert_eq!(st(get(&c, "value")), "rgb(255, 0, 0)");
    let _ = call(&mut d, "browser.addstyle", obj(vec![("css", s("#style-target { color: rgb(0, 128, 0) }"))])).expect("style");
    let all = call(&mut d, "browser.get.styles", obj(vec![("selector", s("#style-target"))])).expect("styles");
    assert_eq!(st(get(get(&all, "value"), "color")), "rgb(0, 128, 0)");
    assert_eq!(st(get(get(&all, "value"), "display")), "block");
    let e = call(&mut d, "browser.is.enabled", obj(vec![("selector", s("#disabled"))])).expect("enabled");
    assert!(!boolean(get(&e, "enabled")));
    let vis = call(&mut d, "browser.is.visible", obj(vec![("selector", s("#hidden"))])).expect("visible");
    assert!(!boolean(get(&vis, "visible")));
    let vis = call(&mut d, "browser.is.visible", obj(vec![("selector", s("#other"))])).expect("visible default");
    assert!(boolean(get(&vis, "visible")));

    let found = call(&mut d, "browser.find.role", obj(vec![("role", s("button")), ("name", s("Submit"))])).expect("find");
    assert_eq!(st(get(&found, "element_ref")), "@e1");
    assert_eq!(st(get(&arr(get(&found, "matches"))[0], "selector")), "#btn");
    let clicked = call(&mut d, "browser.click", obj(vec![("selector", s("@e1"))])).expect("click by ref");
    assert_eq!(st(get(&clicked, "selector")), "@e1");
    let t = call(&mut d, "browser.get.text", obj(vec![("selector", s("#status"))])).expect("status");
    assert_eq!(st(get(&t, "text")), "abcd");
    let h = call(&mut d, "browser.get.html", obj(vec![("selector", s("#status"))])).expect("status html");
    assert_eq!(st(get(&h, "value")), "<div id=\"status\" data-role=\"status\">abcd</div>");
    let other = call(&mut d, "browser.find.text", obj(vec![("text", s("row"))])).expect("find text");
    assert_eq!(st(get(&other, "element_ref")), "@e2");
}

#[test]
fn browser_scripts_dialogs_and_console() {
    let mut d = Dispatcher::new();
    open_page(&mut d, "https://example.test/comprehensive-1");
    let sum = call(&mut d, "browser.addscript", obj(vec![("script", s(" 2 + 40 "))])).expect("sum");
    assert_eq!(num(get(&sum, "value")), 42);
    let neg = call(&mut d, "browser.addscript", obj(vec![("script", s("-50 + 8"))])).expect("negative");
    assert!(matches!(get(&neg, "value"), Json::Number(JsonNumber::NegInt(-42))));
    let none = call(&mut d, "browser.addscript", obj(vec![("script", s("window.triggerDialogs()"))])).expect("dialogs");
    assert!(matches!(get(&none, "value"), Json::Null));
    let a = call(&mut d, "browser.dialog.accept", empty()).expect("accept");
    assert!(boolean(get(&a, "accepted")));
    let b = call(&mut d, "browser.dialog.dismiss", empty()).expect("dismiss");
    assert!(!boolean(get(&b, "accepted")));
    let _ = call(&mut d, "browser.dialog.accept", empty()).expect("last");
    expect_error(call(&mut d, "browser.dialog.accept", empty()), -32004, "not_found: dialog queue empty");
    let _ = call(&mut d, "browser.addscript", obj(vec![("script", s("window.emitConsoleAndError()"))])).expect("console");
    let c = call(&mut d, "browser.console.list", empty()).expect("console list");
    assert_eq!(num(get(&c, "count")), 1);
    assert_eq!(st(&arr(get(&c, "entries"))[0]), "limux-console-entry");
    let e = call(&mut d, "browser.errors.list", empty()).expect("errors");
    assert_eq!(st(&arr(get(&e, "errors"))[0]), "limux-boom");
    let _ = call(&mut d, "browser.console.clear", empty()).expect("clear");
    let c = call(&mut d, "browser.console.list", empty()).expect("console after");
    assert_eq!(num(get(&c, "count")), 0);
    expect_error(call(&mut d, "browser.addstyle", empty()), -32602, "invalid_params: style/css is required");
    let _ = call(&mut d, "browser.addinitscript", obj(vec![("script", s("window.__limuxInitMarker = 'init-ok'"))])).expect("init");
    assert_eq!(st(&eval(&mut d, "window.__limuxInitMarker")), "");
    let _ = call(&mut d, "browser.reload", empty()).expect("reload");
    assert_eq!(st(&eval(&mut d, "window.__limuxInitMarker")), "init-ok");
    let _ = call(&mut d, "browser.highlight", obj(vec![("selector", s("#status"))])).expect("highlight");
}

#[test]
fn browser_cookies_and_storage() {
    let mut d = Dispatcher::new();
    open_page(&mut d, "https://example.test/");
    let _ = call(&mut d, "browser.cookies.set", obj(vec![("name", s("a")), ("value", s("1"))])).expect("set a");
    let set = call(&mut d, "browser.cookies.set", obj(vec![("name", s("b")), ("value", s("2"))])).expect("set b");
    assert_eq!(st(get(&set, "name")), "b");
    let all = call(&mut d, "browser.cookies.get", empty()).expect("all cookies");
    assert_eq!(arr(get(&all, "cookies")).len(), 2);
    let one = call(&mut d, "browser.cookies.get", obj(vec![("name", s("a"))])).expect("cookie a");
    assert_eq!(st(get(&arr(get(&one, "cookies"))[0], "value")), "1");
    let missing = call(&mut d, "browser.cookies.get", obj(vec![("name", s("zzz"))])).expect("no cookie");
    assert_eq!(arr(get(&missing, "cookies")).len(), 0);
    let _ = call(&mut d, "browser.cookies.clear", obj(vec![("name", s("a"))])).expect("clear a");
    let all = call(&mut d, "browser.cookies.get", empty()).expect("cookies after");
    assert_eq!(arr(get(&all, "cookies")).len(), 1);
    let _ = call(&mut d, "browser.cookies.clear", empty()).expect("clear all");
    let all = call(&mut d, "browser.cookies.get", empty()).expect("no cookies");
    assert_eq!(arr(get(&all, "cookies")).len(), 0);

    let _ = call(&mut d, "browser.storage.set", obj(vec![("key", s("k")), ("value", s("v"))])).expect("local set");
    let _ = call(&mut d, "browser.storage.set", obj(vec![("key", s("k")), ("value", s("w")), ("type", s("session"))])).expect("session set");
    let l = call(&mut d, "browser.storage.get", obj(vec![("key", s("k"))])).expect("local get");
    assert_eq!(st(get(&l, "value")), "v");
    let ss = call(&mut d, "browser.storage.get", obj(vec![("key", s("k")), ("type", s("session"))])).expect("session get");
    assert_eq!(st(get(&ss, "value")), "w");
    let saved = call(&mut d, "browser.state.save", empty()).expect("save");
    assert_eq!(st(get(get(get(&saved, "state"), "local_storage"), "k")), "v");
    assert_eq!(st(get(get(&saved, "state"), "url")), "https://example.test/");
    let _ = call(&mut d, "browser.storage.clear", obj(vec![("type", s("session"))])).expect("clear session");
    let ss = call(&mut d, "browser.storage.get", obj(vec![("key", s("k")), ("type", s("session"))])).expect("session gone");
    assert!(matches!(get(&ss, "value"), Json::Null));
    let loaded = call(&mut d, "browser.state.load", obj(vec![("state", obj(vec![("url", s("https://example.test/page-two"))]))])).expect("load");
    assert_eq!(st(get(&loaded, "url")), "https://example.test/page-two");
    let t = call(&mut d, "browser.get.text", obj(vec![("selector", s("#page2"))])).expect("page two text");
    assert_eq!(st(get(&t, "text")), "page-two");
}

#[test]
fn browser_tabs_frames_and_unsupported_methods() {
    let mut d = Dispatcher::new();
    open_page(&mut d, "https://example.test/index.html");
    let list = call(&mut d, "browser.tab.list", empty()).expect("tabs");
    let tabs = arr(get(&list, "tabs"));
    assert_eq!(tabs.len(), 1);
    let first = copy(get(&tabs[0], "surface_id"));
    expect_error(call(&mut d, "browser.tab.close", empty()), -32009, "cannot close last tab");
    let created = call(&mut d, "browser.tab.new", empty()).expect("new tab");
    let second = copy(get(&created, "surface_id"));
    let list = call(&mut d, "browser.tab.list", empty()).expect("two tabs");
    assert_eq!(arr(get(&list, "tabs")).len(), 2);
    assert!(same(get(&list, "current_surface_id"), &second));
    let sw = call(&mut d, "browser.tab.switch", obj(vec![("tab_id", copy(&first))])).expect("switch");
    assert!(same(get(&sw, "surface_id"), &first));
    let closed = call(&mut d, "browser.tab.close", obj(vec![("tab_id", copy(&first))])).expect("close first");
    assert!(boolean(get(&closed, "ok")));
    let list = call(&mut d, "browser.tab.list", empty()).expect("one tab");
    assert_eq!(arr(get(&list, "tabs")).len(), 1);
    assert!(same(get(&list, "current_surface_id"), &second));
    expect_error(call(&mut d, "browser.tab.switch", empty()), -32602, "invalid_params: target_surface_id/surface_id/tab_id is required");

    let t = call(&mut d, "browser.get.text", obj(vec![("selector", s("#frame-btn"))])).expect("frame button text");
    assert_eq!(st(get(&t, "text")), "");
    expect_error(call(&mut d, "browser.click", obj(vec![("selector", s("#frame-btn"))])), -32004, "not_found: element not found; snapshot: run browser.snapshot; hint: verify selector");
    let f = call(&mut d, "browser.frame.select", obj(vec![("frame_id", s("child"))])).expect("frame");
    assert_eq!(st(get(&f, "frame_id")), "child");
    let _ = call(&mut d, "browser.click", obj(vec![("selector", s("#frame-btn"))])).expect("frame click");
    assert_eq!(num(&eval(&mut d, "window.frameClicks")), 1);
    expect_error(call(&mut d, "browser.frame.select", obj(vec![("selector", s("#missing-frame"))])), -32004, "not_found: frame not found");
    let m = call(&mut d, "browser.frame.main", empty()).expect("main frame");
    assert_eq!(st(get(&m, "frame_id")), "main");
    let a = call(&mut d, "browser.get.attr", obj(vec![("selector", s("#name")), ("name", s("placeholder"))])).expect("placeholder");
    assert_eq!(st(get(&a, "value")), "Type name");
    let c = call(&mut d, "browser.get.count", obj(vec![("selector", s("li.row"))])).expect("rows");
    assert_eq!(num(get(&c, "count")), 3);
    let found = call(&mut d, "browser.find.role", obj(vec![("role", s("button")), ("name", s("submit form"))])).expect("find");
    assert_eq!(st(get(&arr(get(&found, "matches"))[0], "selector")), "#action-btn");
    expect_error(call(&mut d, "browser.download.wait", empty()), -32020, "not_supported: browser.download.wait");
    expect_error(call(&mut d, "browser.input_mouse", empty()), -32020, "not_supported: browser.input_mouse");
    expect_error(call(&mut d, "browser.nonsense", empty()), -32601, "unknown method: browser.nonsense");
}

#[test]
fn panel_snapshots_compare_with_their_baseline() {
    let mut d = Dispatcher::new();
    let first = call(&mut d, "debug.panel_snapshot", obj(vec![("label", s("a b"))])).expect("snapshot");
    assert!(matches!(get(&first, "changed_pixels"), Json::Number(JsonNumber::UInt(0))));
    assert!(matches!(get(&first, "width"), Json::Number(JsonNumber::UInt(640))));
    let sid = st(get(&first, "surface_id")).to_string();
    let reset = call(&mut d, "debug.panel_snapshot.reset", obj(vec![("surface_id", s(&sid))])).expect("reset");
    assert!(matches!(get(&reset, "ok"), Json::Bool(true)));
    assert_eq!(st(get(&reset, "surface_id")), sid);
    call(&mut d, "surface.send_text", obj(vec![("text", s("hello"))])).expect("send");
    let changed = call(&mut d, "debug.panel_snapshot", empty()).expect("snapshot");
    match get(&changed, "changed_pixels") {
        Json::Number(JsonNumber::UInt(px)) => assert!(*px >= 24 && *px % 8 == 0),
        other => panic!("bad pixels {other:?}"),
    }
    let again = call(&mut d, "debug.panel_snapshot", empty()).expect("snapshot");
    assert!(matches!(get(&again, "changed_pixels"), Json::Number(JsonNumber::UInt(0))));
    expect_error(call(&mut d, "debug.panel_snapshot", obj(vec![("surface_id", n(999))])), -32004, "not_found: surface not found");
}

#[test]
fn window_screenshots_count_up() {
    let mut d = Dispatcher::new();
    let a = call(&mut d, "debug.window.screenshot", empty()).expect("shot");
    let b = call(&mut d, "debug.window.screenshot", obj(vec![("label", s("x"))])).expect("shot");
    assert_eq!(st(get(&a, "screenshot_id")), "1");
    assert_eq!(st(get(&b, "screenshot_id")), "2");
    assert_eq!(st(get(&a, "format")), "png");
    assert!(matches!(get(&a, "bytes"), Json::Number(JsonNumber::UInt(68))));
}

#[test]
fn layout_lists_the_focused_window_panes() {
    let mut d = Dispatcher::new();
    let panes = d.layout_panes();
    assert_eq!(panes.len(), 1);
    assert!(panes[0].1.is_some());
    assert_eq!((panes[0].2, panes[0].3), (0, 0));
    expect_error(call(&mut d, "debug.layout", empty()), -32020, "not_supported: debug.layout");
}

#[test]
fn unknown_methods_leave_the_state_alone() {
    let mut d = Dispatcher::new();
    let before = call(&mut d, "workspace.list", empty()).expect("list");
    expect_error(call(&mut d, "no.such.method", empty()), -32601, "unknown method: no.such.method");
    let after = call(&mut d, "workspace.list", empty()).expect("list");
    assert_eq!(format!("{before:?}"), format!("{after:?}"));
}

#[test]
fn storage_reads_back_what_was_set() {
    let mut d = Dispatcher::new();
    call(&mut d, "browser.open_split", obj(vec![("url", s("about:blank"))])).expect("open");
    call(&mut d, "browser.storage.set", obj(vec![("key", s("k")), ("value", s("v")), ("type", s("session"))])).expect("set");
    let got = call(&mut d, "browser.storage.get", obj(vec![("key", s("k")), ("type", s("session"))])).expect("get");
    assert_eq!(st(get(&got, "value")), "v");
    let local = call(&mut d, "browser.storage.get", obj(vec![("key", s("k"))])).expect("get");
    assert!(matches!(get(&local, "value"), Json::Null));
}
