use chostty::cli::IdFormat;
use chostty::commands::{plan_command, render_reply, Reply};
use chostty::control::dispatch::{V2Error, V2Response};
use chostty::control::envelope::{request_from_json, response_to_json};
use chostty::json::{Json, JsonNumber};

fn args(v: &[&str]) -> Vec<String> {
    v.iter().map(|s| s.to_string()).collect()
}

fn s(x: &str) -> Json {
    Json::Str(x.to_string())
}

fn obj(pairs: Vec<(&str, Json)>) -> Json {
    Json::Object(pairs.into_iter().map(|(k, v)| (k.to_string(), v)).collect())
}

fn members(j: &Json) -> Vec<(String, String)> {
    match j {
        Json::Object(ms) => ms
            .iter()
            .map(|(k, v)| (k.clone(), match v { Json::Str(x) => x.clone(), other => format!("{other:?}") }))
            .collect(),
        other => panic!("not an object: {other:?}"),
    }
}

fn pairs(v: &[(&str, &str)]) -> Vec<(String, String)> {
    v.iter().map(|(a, b)| (a.to_string(), b.to_string())).collect()
}

#[test]
fn commands_become_requests() {
    let p = plan_command("send", &args(&["--workspace", "ws:2", "echo", "hi"]), None, None).expect("send");
    assert_eq!(p.method, "surface.send_text");
    assert_eq!(members(&p.params), pairs(&[("text", "echo hi"), ("workspace_id", "ws:2")]));

    let p = plan_command("send", &args(&["hi"]), Some(""), None).expect("send");
    assert_eq!(members(&p.params), pairs(&[("text", "hi")]));

    let p = plan_command("list-panes", &args(&[]), Some("workspace:3"), None).expect("list");
    assert_eq!(p.method, "pane.list");
    assert_eq!(members(&p.params), pairs(&[("workspace_id", "workspace:3")]));

    let p = plan_command("list-workspaces", &args(&[]), Some("   "), None).expect("list");
    assert_eq!(p.method, "workspace.list");
    assert!(members(&p.params).is_empty());

    let p = plan_command("new-pane", &args(&["--type", "browser"]), None, None).expect("new pane");
    assert_eq!(p.method, "pane.create");
    assert_eq!(members(&p.params), pairs(&[("direction", "right"), ("type", "browser")]));

    let p = plan_command("rename-tab", &args(&["--tab", "tab:4", "new", "name"]), Some("ws:1"), None).expect("rename tab");
    assert_eq!(p.method, "tab.action");
    assert_eq!(
        members(&p.params),
        pairs(&[("action", "rename"), ("title", "new name"), ("workspace_id", "ws:1"), ("surface_id", "tab:4")])
    );

    let p = plan_command("identify", &args(&["--surface", "surface:2"]), None, None).expect("identify");
    assert_eq!(p.method, "system.identify");
    let Json::Object(ms) = &p.params else { panic!() };
    assert_eq!(ms[0].0, "caller");
    assert_eq!(members(&ms[0].1), pairs(&[("surface_id", "surface:2")]));
}

#[test]
fn commands_refuse_bad_arguments() {
    let err = |c: &str, a: &[&str]| match plan_command(c, &args(a), None, None) {
        Err(e) => e,
        Ok(p) => panic!("expected an error, got {}", p.method),
    };
    assert_eq!(err("send", &[]), "send requires text");
    assert_eq!(err("close-workspace", &[]), "close-workspace requires --workspace <id|ref>");
    assert_eq!(err("read-screen", &["--lines", "0"]), "--lines must be greater than 0");
    assert_eq!(err("read-screen", &["--lines", "x"]), "--lines must be greater than 0");
    assert_eq!(err("rename-window", &[]), "rename-window requires a title");
    assert_eq!(err("rename-workspace", &[]), "rename-workspace requires a title");
    assert_eq!(err("rename-tab", &[]), "rename-tab requires a title");
    assert_eq!(err("frobnicate", &[]), "unknown command: frobnicate");
}

#[test]
fn replies_are_shown_as_text_or_json() {
    let payload = obj(vec![("surface_id", s("uuid-1")), ("surface_ref", s("surface:1"))]);
    match render_reply("send", &args(&["x"]), None, payload, false, IdFormat::Refs) {
        Reply::Text(t) => assert_eq!(t, "OK surface:1"),
        Reply::Json(j) => panic!("unexpected json {j:?}"),
    }
    let payload = obj(vec![("surface_id", s("uuid-1")), ("surface_ref", s("surface:1"))]);
    match render_reply("send", &args(&["x"]), None, payload, true, IdFormat::Refs) {
        Reply::Json(j) => assert_eq!(members(&j), pairs(&[("surface_ref", "surface:1")])),
        Reply::Text(t) => panic!("unexpected text {t}"),
    }
    let listed = obj(vec![("panes", Json::Array(vec![]))]);
    match render_reply("list-panes", &args(&["--workspace", "workspace:2"]), None, listed, true, IdFormat::Both) {
        Reply::Json(j) => {
            let Json::Object(ms) = &j else { panic!() };
            assert_eq!(ms[1].0, "workspace_ref");
        }
        Reply::Text(t) => panic!("unexpected text {t}"),
    }
    let ident = obj(vec![("caller", obj(vec![])), ("name", s("limux-control"))]);
    match render_reply("identify", &args(&["--no-caller"]), None, ident, false, IdFormat::Refs) {
        Reply::Json(j) => assert_eq!(members(&j), pairs(&[("name", "limux-control")])),
        Reply::Text(t) => panic!("unexpected text {t}"),
    }
    match render_reply("read-screen", &args(&[]), None, obj(vec![("text", s("screen"))]), false, IdFormat::Refs) {
        Reply::Text(t) => assert_eq!(t, "screen"),
        Reply::Json(j) => panic!("unexpected json {j:?}"),
    }
}

#[test]
fn request_lines_and_responses() {
    let v2 = obj(vec![("id", s("7")), ("method", s("system.ping"))]);
    let r = request_from_json(&v2).expect("v2");
    assert_eq!(r.method, "system.ping");
    assert!(matches!(r.id, Some(Json::Str(ref x)) if x == "7"));
    assert!(matches!(r.params, Json::Object(ref ms) if ms.is_empty()));

    let v1 = obj(vec![("command", s("system.ping")), ("params", obj(vec![("a", s("b"))]))]);
    let r = request_from_json(&v1).expect("v1");
    assert_eq!(r.method, "system.ping");
    assert!(r.id.is_none());
    assert_eq!(members(&r.params), pairs(&[("a", "b")]));

    assert!(request_from_json(&s("nope")).is_err());
    assert!(request_from_json(&obj(vec![("id", s("1"))])).is_err());

    let ok = response_to_json(V2Response { id: Some(s("1")), result: Some(obj(vec![("pong", Json::Bool(true))])), error: None });
    let Json::Object(ms) = &ok else { panic!() };
    assert_eq!(ms.iter().map(|(k, _)| k.as_str()).collect::<Vec<_>>(), vec!["id", "ok", "result"]);
    assert!(matches!(ms[1].1, Json::Bool(true)));

    let failed = response_to_json(V2Response {
        id: None,
        result: None,
        error: Some(V2Error { code: -32601, message: "unknown method: x".to_string(), data: None }),
    });
    let Json::Object(ms) = &failed else { panic!() };
    assert!(matches!(ms[0].1, Json::Null));
    assert!(matches!(ms[1].1, Json::Bool(false)));
    let Json::Object(err) = &ms[2].1 else { panic!() };
    assert!(matches!(err[0].1, Json::Number(JsonNumber::NegInt(-32601))));
}
