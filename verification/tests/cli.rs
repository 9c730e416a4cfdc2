use chostty::cli::{
    apply_id_format, get_string, handle_from_payload, is_unsupported_tmux_cmd, parse_flag, parse_global_args,
    parse_opt, render_list_text, trailing_title, wait_signal_path, IdFormat, ParsedArgs,
};
use chostty::json::{Json, JsonNumber};
use chostty::socket_path::SocketMode;

fn args(v: &[&str]) -> Vec<String> {
    v.iter().map(|s| s.to_string()).collect()
}

fn s(x: &str) -> Json {
    Json::Str(x.to_string())
}

fn obj(pairs: Vec<(&str, Json)>) -> Json {
    Json::Object(pairs.into_iter().map(|(k, v)| (k.to_string(), v)).collect())
}

fn keys(j: &Json) -> Vec<String> {
    match j {
        Json::Object(ms) => ms.iter().map(|(k, _)| k.clone()).collect(),
        other => panic!("not an object: {other:?}"),
    }
}

#[test]
fn global_options_stop_at_the_command() {
    let parsed = parse_global_args(args(&[
        "--socket", "/tmp/x.sock", "--json", "--id-format", "both", "--pretty", "send", "--json", "hi",
    ]))
    .expect("parse");
    let ParsedArgs::Options(o) = parsed else {
        panic!("expected options");
    };
    assert_eq!(o.socket.as_deref(), Some("/tmp/x.sock"));
    assert!(o.json_output);
    assert!(o.pretty);
    assert_eq!(o.id_format, IdFormat::Both);
    assert_eq!(o.socket_mode, SocketMode::Runtime);
    assert_eq!(o.command_args, args(&["send", "--json", "hi"]));
}

#[test]
fn global_options_defaults_and_debug_mode() {
    let ParsedArgs::Options(o) = parse_global_args(args(&["--socket-mode", "debug", "--request", "{}"])).expect("parse") else {
        panic!("expected options");
    };
    assert_eq!(o.socket_mode, SocketMode::Debug);
    assert_eq!(o.request.as_deref(), Some("{}"));
    assert!(o.socket.is_none());
    assert!(!o.json_output);
    assert_eq!(o.id_format, IdFormat::Refs);
    assert!(o.command_args.is_empty());

    let ParsedArgs::Options(o) = parse_global_args(args(&["--unknown", "x"])).expect("parse") else {
        panic!("expected options");
    };
    assert_eq!(o.command_args, args(&["--unknown", "x"]));
}

#[test]
fn global_options_report_errors_and_help() {
    assert!(matches!(parse_global_args(args(&["-h"])), Ok(ParsedArgs::Help)));
    assert!(matches!(parse_global_args(args(&["--json", "--help", "send"])), Ok(ParsedArgs::Help)));
    let err = |v: &[&str]| match parse_global_args(args(v)) {
        Err(e) => e,
        Ok(_) => panic!("expected an error for {v:?}"),
    };
    assert_eq!(err(&["--socket"]), "--socket requires a value");
    assert_eq!(err(&["--socket-mode"]), "--socket-mode requires runtime|debug");
    assert_eq!(err(&["--socket-mode", "fast"]), "--socket-mode must be runtime or debug");
    assert_eq!(err(&["--id-format"]), "--id-format requires refs|both|uuids");
    assert_eq!(err(&["--id-format", "all"]), "--id-format must be one of refs|both|uuids");
    assert_eq!(err(&["--request"]), "--request requires a JSON value");
}

#[test]
fn id_format_parses_its_three_names() {
    assert_eq!(IdFormat::parse("refs"), Ok(IdFormat::Refs));
    assert_eq!(IdFormat::parse("both"), Ok(IdFormat::Both));
    assert_eq!(IdFormat::parse("uuids"), Ok(IdFormat::Uuids));
    assert_eq!(IdFormat::parse("Refs"), Err("--id-format must be one of refs|both|uuids".to_string()));
}

#[test]
fn options_flags_and_titles() {
    let a = args(&["--workspace", "ws:1", "--scrollback", "hello", "--title", "x", "world"]);
    assert_eq!(parse_opt(&a, "--workspace").as_deref(), Some("ws:1"));
    assert_eq!(parse_opt(&a, "--surface"), None);
    assert!(parse_flag(&a, "--scrollback"));
    assert!(!parse_flag(&a, "--json"));
    assert_eq!(trailing_title(&a).as_deref(), Some("hello world"));
    assert_eq!(trailing_title(&args(&["--workspace", "ws:1"])), None);
}

#[test]
fn wait_signal_paths_are_sanitized() {
    assert_eq!(wait_signal_path("build done/ok"), "/tmp/chostty-wait-for-build_done_ok.sig");
    assert_eq!(wait_signal_path("a-b_c9"), "/tmp/chostty-wait-for-a-b_c9.sig");
}

#[test]
fn unsupported_tmux_commands() {
    for cmd in ["popup", "bind-key", "unbind-key", "copy-mode"] {
        assert!(is_unsupported_tmux_cmd(cmd));
    }
    assert!(!is_unsupported_tmux_cmd("capture-pane"));
}

#[test]
fn payload_strings_and_handles() {
    let row = obj(vec![
        ("surface_id", s("abc")),
        ("surface_ref", s("")),
        ("count", Json::Number(JsonNumber::UInt(12))),
    ]);
    assert_eq!(get_string(&row, &["surface_ref", "surface_id"]).as_deref(), Some("abc"));
    assert_eq!(get_string(&row, &["count"]).as_deref(), Some("12"));
    assert_eq!(get_string(&row, &["missing"]), None);
    assert_eq!(handle_from_payload(&row, "surface_id", "surface_ref"), "abc");
    assert_eq!(handle_from_payload(&obj(vec![]), "surface_id", "surface_ref"), "");
}

#[test]
fn id_format_keeps_the_chosen_handles() {
    let sample = || {
        obj(vec![
            ("id", s("uuid-1")),
            ("ref", s("surface:1")),
            ("pane_id", s("uuid-2")),
            ("pane_ref", s("pane:2")),
            ("workspace_id", s("uuid-3")),
            ("nested", Json::Array(vec![obj(vec![("window_id", s("u")), ("window_ref", s("window:1"))])])),
        ])
    };
    let mut refs = sample();
    apply_id_format(&mut refs, IdFormat::Refs);
    assert_eq!(keys(&refs), vec!["ref", "pane_ref", "workspace_id", "nested"]);
    let Json::Object(ms) = &refs else { panic!() };
    let Json::Array(items) = &ms[3].1 else { panic!() };
    assert_eq!(keys(&items[0]), vec!["window_ref"]);

    let mut uuids = sample();
    apply_id_format(&mut uuids, IdFormat::Uuids);
    assert_eq!(keys(&uuids), vec!["id", "pane_id", "workspace_id", "nested"]);

    let mut both = sample();
    apply_id_format(&mut both, IdFormat::Both);
    assert_eq!(keys(&both).len(), 6);
}

#[test]
fn list_text_for_each_command() {
    let panels = obj(vec![(
        "surfaces",
        Json::Array(vec![
            obj(vec![("surface_ref", s("surface:1")), ("title", s("one"))]),
            obj(vec![("surface_id", s("uuid")), ("title", s("two"))]),
        ]),
    )]);
    assert_eq!(render_list_text("list-panels", &panels), "surface:1 one\nuuid two");
    assert_eq!(render_list_text("list-panels", &obj(vec![])), "No surfaces");

    let panes = obj(vec![(
        "panes",
        Json::Array(vec![obj(vec![("pane_ref", s("pane:1")), ("surface_count", Json::Number(JsonNumber::UInt(3)))])]),
    )]);
    assert_eq!(render_list_text("list-panes", &panes), "pane:1 surfaces=3");
    assert_eq!(render_list_text("list-panes", &obj(vec![])), "No panes");

    let workspaces = obj(vec![(
        "workspaces",
        Json::Array(vec![
            obj(vec![("workspace_ref", s("workspace:1")), ("name", s("main")), ("selected", Json::Bool(true))]),
            obj(vec![("workspace_ref", s("workspace:2")), ("title", s("dev"))]),
        ]),
    )]);
    assert_eq!(render_list_text("list-workspaces", &workspaces), "* workspace:1 main\n  workspace:2 dev");
    assert_eq!(render_list_text("list-workspaces", &obj(vec![])), "No workspaces");

    let health = obj(vec![(
        "surfaces",
        Json::Array(vec![
            obj(vec![("surface_ref", s("surface:1")), ("healthy", Json::Bool(false))]),
            obj(vec![("surface_ref", s("surface:2"))]),
        ]),
    )]);
    assert_eq!(render_list_text("surface-health", &health), "surface:1 healthy=false\nsurface:2 healthy=true");
    assert_eq!(render_list_text("other", &health), "");
}
