use chostty::browser_cli::{
    after_snapshot, browser_request, next_step, plan_browser, screenshot_reply, BrowserPlan, BrowserStep, Follow,
};
use chostty::commands::Reply;
use chostty::json::{Json, JsonNumber};

fn args(v: &[&str]) -> Vec<String> {
    v.iter().map(|s| s.to_string()).collect()
}

fn s(x: &str) -> Json {
    Json::Str(x.to_string())
}

fn obj(pairs: Vec<(&str, Json)>) -> Json {
    Json::Object(pairs.into_iter().map(|(k, v)| (k.to_string(), v)).collect())
}

fn param<'a>(p: &'a BrowserPlan, key: &str) -> Option<&'a Json> {
    p.params.iter().find(|(k, _)| k == key).map(|(_, v)| v)
}

fn text_of(r: Reply) -> String {
    match r {
        Reply::Text(t) => t,
        Reply::Json(j) => panic!("expected text, got {j:?}"),
    }
}

#[test]
fn browser_surface_handle_comes_first() {
    let p = plan_browser(&args(&["surface:2", "navigate", "https://example.com"]), false).unwrap();
    assert_eq!(p.method, "browser.navigate");
    assert!(matches!(param(&p, "url"), Some(Json::Str(u)) if u == "https://example.com"));
    assert!(matches!(param(&p, "surface_id"), Some(Json::Str(u)) if u == "surface:2"));
    assert!(!p.json);
}

#[test]
fn browser_open_without_surface_opens_a_split() {
    let p = plan_browser(&args(&["open", "--workspace", "workspace:1"]), false).unwrap();
    assert_eq!(p.method, "browser.open_split");
    assert!(matches!(param(&p, "url"), Some(Json::Str(u)) if u == "about:blank"));
    assert!(matches!(param(&p, "workspace_id"), Some(Json::Str(u)) if u == "workspace:1"));
}

#[test]
fn browser_errors() {
    assert_eq!(plan_browser(&args(&[]), false).err().unwrap(), "browser requires a subcommand");
    assert_eq!(plan_browser(&args(&["surface:1"]), false).err().unwrap(), "browser requires a subcommand");
    assert_eq!(plan_browser(&args(&["goto", "x"]), false).err().unwrap(), "browser navigate requires a surface");
    assert_eq!(plan_browser(&args(&["surface:1", "goto"]), false).err().unwrap(), "browser navigate requires a URL");
    assert_eq!(
        plan_browser(&args(&["viewport"]), false).err().unwrap(),
        "not_supported: browser viewport is not supported in linux mock"
    );
    assert_eq!(
        plan_browser(&args(&["surface:1", "get", "nope"]), false).err().unwrap(),
        "Unsupported browser get subcommand: nope"
    );
    assert_eq!(
        plan_browser(&args(&["surface:1", "storage", "local"]), false).err().unwrap(),
        "browser storage requires <local|session> <get|set|clear>"
    );
    assert_eq!(
        plan_browser(&args(&["surface:1", "addscript", " "]), false).err().unwrap(),
        "browser addscript requires content"
    );
}

#[test]
fn browser_trailing_json_and_options() {
    let p = plan_browser(&args(&["--surface", "s-1", "wait", "--timeout-ms", "250", "--selector", "#a", "--json"]), false)
        .unwrap();
    assert_eq!(p.method, "browser.wait");
    assert!(p.json);
    assert!(matches!(param(&p, "timeout_ms"), Some(Json::Number(JsonNumber::UInt(250)))));
    assert!(matches!(param(&p, "selector"), Some(Json::Str(u)) if u == "#a"));
    assert!(matches!(param(&p, "surface_id"), Some(Json::Str(u)) if u == "s-1"));
}

#[test]
fn browser_find_nth_and_script() {
    let p = plan_browser(&args(&["surface:1", "find", "nth", ".item", "3"]), false).unwrap();
    assert_eq!(p.method, "browser.find.nth");
    assert!(matches!(param(&p, "index"), Some(Json::Number(JsonNumber::UInt(3)))));
    let p = plan_browser(&args(&["surface:1", "addscript", "a", "b"]), false).unwrap();
    assert!(matches!(param(&p, "script"), Some(Json::Str(u)) if u == "a b"));
}

#[test]
fn browser_shortcuts_and_id_format() {
    let p = browser_request("browser-back", &args(&["--surface", "surface:3"]), false).unwrap().unwrap();
    assert_eq!(p.method, "browser.back");
    assert_eq!(
        browser_request("browser-back", &args(&["surface:3"]), false).unwrap().err().unwrap(),
        "browser back requires a surface"
    );
    assert!(browser_request("send", &args(&["hi"]), false).is_none());
    assert_eq!(
        browser_request("browser", &args(&["--id-format", "bogus", "surface:1", "url"]), false).unwrap().err().unwrap(),
        "--id-format must be one of refs|both|uuids"
    );
    assert!(browser_request("open-browser", &args(&["--id-format", "bogus"]), false).unwrap().is_ok());
}

#[test]
fn browser_get_shows_text_or_json() {
    let p = plan_browser(&args(&["surface:1", "get", "title"]), false).unwrap();
    match next_step(&p, obj(vec![("title", s("Example"))])) {
        BrowserStep::Show(r) => assert_eq!(text_of(r), "Example"),
        _ => panic!("expected a reply"),
    }
    let p = plan_browser(&args(&["surface:1", "get", "title", "--json"]), false).unwrap();
    assert!(matches!(next_step(&p, obj(vec![("title", s("Example"))])), BrowserStep::Show(Reply::Json(_))));
}

#[test]
fn browser_interactive_snapshot_lists_refs() {
    let p = plan_browser(&args(&["surface:1", "snapshot", "--interactive"]), false).unwrap();
    let payload = obj(vec![
        ("url", s("https://example.com")),
        ("snapshot", s("page")),
        ("refs", obj(vec![("@e1", Json::Null), ("@e2", Json::Null)])),
    ]);
    match next_step(&p, payload) {
        BrowserStep::Show(r) => assert_eq!(text_of(r), "page\nref=@e1\nref=@e2"),
        _ => panic!("expected a reply"),
    }
    match next_step(&p, obj(vec![("url", s("about:blank"))])) {
        BrowserStep::Show(r) => assert_eq!(
            text_of(r),
            "about:blank\nNo interactive elements found; try `browser <surface> get url`."
        ),
        _ => panic!("expected a reply"),
    }
}

#[test]
fn browser_snapshot_after_action() {
    let p = plan_browser(&args(&["surface:1", "fill", "#q", "hello", "--snapshot-after"]), false).unwrap();
    assert!(matches!(p.follow, Follow::ThenSnapshot(_)));
    match next_step(&p, obj(vec![])) {
        BrowserStep::Then(snap) => {
            assert_eq!(snap.method, "browser.snapshot");
            assert!(matches!(param(&snap, "surface_id"), Some(Json::Str(u)) if u == "surface:1"));
        }
        _ => panic!("expected a snapshot request"),
    }
    assert_eq!(text_of(after_snapshot(false, obj(vec![]), obj(vec![("text", s("snap"))]))), "snap");
    assert_eq!(text_of(after_snapshot(false, obj(vec![]), obj(vec![]))), "OK");
    match after_snapshot(true, obj(vec![("ok", Json::Bool(true))]), s("x")) {
        Reply::Json(Json::Object(ms)) => assert!(ms.iter().any(|(k, _)| k == "post_action_snapshot")),
        _ => panic!("expected an object"),
    }
}

#[test]
fn browser_screenshot_path_and_reply() {
    let p = plan_browser(&args(&["surface:1", "screenshot"]), false).unwrap();
    match next_step(&p, obj(vec![])) {
        BrowserStep::Keep(path) => assert_eq!(path, "/tmp/chostty-browser-shot.png"),
        _ => panic!("expected a path"),
    }
    let p = plan_browser(&args(&["surface:1", "screenshot", "--out", "/tmp/a.png"]), false).unwrap();
    match next_step(&p, obj(vec![("path", s("/tmp/b.png"))])) {
        BrowserStep::Keep(path) => assert_eq!(path, "/tmp/a.png"),
        _ => panic!("expected a path"),
    }
    assert_eq!(text_of(screenshot_reply(obj(vec![]), "/tmp/a.png", true, false)), "OK /tmp/a.png");
    match screenshot_reply(obj(vec![("png_base64", s("AAAA"))]), "/tmp/a.png", false, true) {
        Reply::Json(Json::Object(ms)) => {
            assert!(!ms.iter().any(|(k, _)| k == "png_base64"));
            assert!(ms.iter().any(|(k, v)| k == "url" && matches!(v, Json::Str(u) if u == "file:///tmp/a.png")));
        }
        _ => panic!("expected an object"),
    }
}
