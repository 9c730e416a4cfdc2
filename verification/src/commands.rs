//! The client's single-request commands: which request a command line
//! makes, and how the answer is shown. The client sends the request and
//! prints what comes back; the environment's workspace and tab are read by
//! it and handed in.
use vstd::prelude::*;
use crate::seqs::lemma_first_index;
use crate::json::{Json, JsonV, json_view, members_view, lookup, object, put, new_members, string, jstr};
use crate::cli::{
    IdFormat, args_view, option_value, parse_opt, trailing_words, trailing_title, parse_flag,
    handle_in, handle_from_payload, string_at, get_string, keys_of, list_text, render_list_text,
    id_formatted, apply_id_format, has_key, without_key, has_member, remove_member,
};
use crate::text::{trim, trim_str, contains, str_contains, str_eq, parse_u64, str_parse_u64};
use crate::control::{opt_str_view, str_opt};

verus! {

pub type Members = Seq<(Seq<char>, JsonV)>;

/// One request: a method and the members of its parameters.
pub struct PlanV {
    pub method: Seq<char>,
    pub params: Members,
}

/// A value kept when it is not blank (all whitespace).
pub open spec fn non_blank(o: Option<Seq<char>>) -> Option<Seq<char>> {
    match o {
        Some(s) => if trim(s).len() > 0 { Some(s) } else { None },
        None => None,
    }
}

/// A value kept when it is not empty.
pub open spec fn non_empty(o: Option<Seq<char>>) -> Option<Seq<char>> {
    match o {
        Some(s) => if s.len() > 0 { Some(s) } else { None },
        None => None,
    }
}

/// `--workspace`, else the workspace the environment names.
pub open spec fn workspace_arg(args: Seq<Seq<char>>, env_ws: Option<Seq<char>>) -> Option<Seq<char>> {
    match option_value(args, "--workspace"@) {
        Some(w) => Some(w),
        None => env_ws,
    }
}

/// Parameters scoped to a workspace: `workspace_id` added when one is given
/// and the parameters lack it.
pub open spec fn scoped(ms: Members, ws: Option<Seq<char>>) -> Members {
    match ws {
        Some(w) => if has_key(ms, "workspace_id"@) { ms } else { ms.push(("workspace_id"@, jstr(w))) },
        None => ms,
    }
}

pub open spec fn opt_member(ms: Members, key: Seq<char>, v: Option<Seq<char>>) -> Members {
    match v {
        Some(x) => ms.push((key, jstr(x))),
        None => ms,
    }
}

pub open spec fn list_method(command: Seq<char>) -> Seq<char> {
    if command == "list-panels"@ {
        "surface.list"@
    } else if command == "list-panes"@ {
        "pane.list"@
    } else if command == "list-workspaces"@ {
        "workspace.list"@
    } else {
        "surface.health"@
    }
}

pub open spec fn is_list_command(command: Seq<char>) -> bool {
    command == "list-panels"@ || command == "list-panes"@ || command == "list-workspaces"@ || command == "surface-health"@
}

pub open spec fn or_else(o: Option<Seq<char>>, d: Seq<char>) -> Seq<char> {
    match o {
        Some(x) => x,
        None => d,
    }
}

/// The request a command line makes, or why it makes none.
pub open spec fn plan(
    command: Seq<char>,
    args: Seq<Seq<char>>,
    env_ws: Option<Seq<char>>,
    env_tab: Option<Seq<char>>,
) -> Result<PlanV, Seq<char>> {
    if command == "identify"@ {
        let w = option_value(args, "--workspace"@);
        let s = option_value(args, "--surface"@);
        let caller = opt_member(opt_member(Seq::empty(), "workspace_id"@, w), "surface_id"@, s);
        let params = if w is Some || s is Some { seq![("caller"@, JsonV::Object(caller))] } else { Seq::empty() };
        Ok(PlanV { method: "system.identify"@, params })
    } else if is_list_command(command) {
        let w = non_blank(workspace_arg(args, env_ws));
        Ok(PlanV { method: list_method(command), params: opt_member(Seq::empty(), "workspace_id"@, w) })
    } else if command == "send"@ {
        let w = non_empty(workspace_arg(args, env_ws));
        match trailing_words(args) {
            None => Err("send requires text"@),
            Some(t) => Ok(PlanV { method: "surface.send_text"@, params: scoped(seq![("text"@, jstr(t))], w) }),
        }
    } else if command == "close-workspace"@ {
        match workspace_arg(args, env_ws) {
            None => Err("close-workspace requires --workspace <id|ref>"@),
            Some(w) => Ok(PlanV { method: "workspace.close"@, params: seq![("workspace_id"@, jstr(w))] }),
        }
    } else if command == "new-surface"@ {
        Ok(PlanV { method: "surface.create"@, params: scoped(Seq::empty(), option_value(args, "--workspace"@)) })
    } else if command == "new-pane"@ {
        let base = seq![
            ("direction"@, jstr(or_else(option_value(args, "--direction"@), "right"@))),
            ("type"@, jstr(or_else(option_value(args, "--type"@), "terminal"@))),
        ];
        let params = opt_member(base, "url"@, option_value(args, "--url"@));
        Ok(PlanV { method: "pane.create"@, params: scoped(params, option_value(args, "--workspace"@)) })
    } else if command == "read-screen"@ || command == "capture-pane"@ {
        let bad_lines = match option_value(args, "--lines"@) {
            Some(l) => match parse_u64(l) { Some(n) => n == 0, None => true },
            None => false,
        };
        if bad_lines {
            Err("--lines must be greater than 0"@)
        } else {
            let params = opt_member(opt_member(Seq::empty(), "workspace_id"@, option_value(args, "--workspace"@)),
                "surface_id"@, option_value(args, "--surface"@));
            Ok(PlanV { method: "surface.read_text"@, params })
        }
    } else if command == "rename-workspace"@ || command == "rename-window"@ {
        match trailing_words(args) {
            None => Err(if command == "rename-window"@ { "rename-window requires a title"@ } else { "rename-workspace requires a title"@ }),
            Some(t) => Ok(PlanV {
                method: "workspace.rename"@,
                params: opt_member(seq![("title"@, jstr(t))], "workspace_id"@, workspace_arg(args, env_ws)),
            }),
        }
    } else if command == "rename-tab"@ {
        let w = non_empty(workspace_arg(args, env_ws));
        let tab = non_empty(match option_value(args, "--tab"@) { Some(t) => Some(t), None => env_tab });
        match trailing_words(args) {
            None => Err("rename-tab requires a title"@),
            Some(t) => Ok(PlanV {
                method: "tab.action"@,
                params: opt_member(opt_member(seq![("action"@, jstr("rename"@)), ("title"@, jstr(t))], "workspace_id"@, w), "surface_id"@, tab),
            }),
        }
    } else {
        Err("unknown command: "@ + command)
    }
}

/// A request to send: its method and parameters.
pub struct CommandPlan {
    pub method: String,
    pub params: Json,
}

pub(crate) fn opt_put(m: &mut Vec<(String, Json)>, key: &str, v: Option<String>)
    ensures
        members_view(final(m)@) == opt_member(members_view(old(m)@), key@, opt_str_view(v)),
{
    match v {
        Some(x) => put(m, key, string(x)),
        None => {},
    }
}

pub(crate) fn scope_put(m: &mut Vec<(String, Json)>, ws: Option<String>)
    ensures
        members_view(final(m)@) == scoped(members_view(old(m)@), opt_str_view(ws)),
{
    match ws {
        Some(w) => if !has_member(m, "workspace_id") { put(m, "workspace_id", string(w)) },
        None => {},
    }
}

fn keep_non_blank(o: Option<String>) -> (r: Option<String>)
    ensures
        opt_str_view(r) == non_blank(opt_str_view(o)),
{
    match o {
        Some(s) => if trim_str(s.as_str()).unicode_len() > 0 { Some(s) } else { None },
        None => None,
    }
}

fn keep_non_empty(o: Option<String>) -> (r: Option<String>)
    ensures
        opt_str_view(r) == non_empty(opt_str_view(o)),
{
    match o {
        Some(s) => if s.unicode_len() > 0 { Some(s) } else { None },
        None => None,
    }
}

fn either(a: Option<String>, b: Option<&str>) -> (r: Option<String>)
    ensures
        opt_str_view(r) == (match opt_str_view(a) { Some(x) => Some(x), None => str_opt(b) }),
{
    match a {
        Some(x) => Some(x),
        None => match b { Some(y) => Some(String::from_str(y)), None => None },
    }
}

fn text_or(o: Option<String>, d: &str) -> (r: String)
    ensures
        r@ == or_else(opt_str_view(o), d@),
{
    match o {
        Some(x) => x,
        None => String::from_str(d),
    }
}

fn done(method: &str, m: Vec<(String, Json)>) -> (r: CommandPlan)
    ensures
        r.method@ == method@,
        json_view(r.params) == JsonV::Object(members_view(m@)),
{
    CommandPlan { method: String::from_str(method), params: object(m) }
}

pub open spec fn plan_view(r: Result<CommandPlan, String>) -> Result<(Seq<char>, JsonV), Seq<char>> {
    match r {
        Ok(p) => Ok((p.method@, json_view(p.params))),
        Err(e) => Err(e@),
    }
}

pub open spec fn plan_json(p: Result<PlanV, Seq<char>>) -> Result<(Seq<char>, JsonV), Seq<char>> {
    match p {
        Ok(v) => Ok((v.method, JsonV::Object(v.params))),
        Err(e) => Err(e),
    }
}

/// The request a command line makes; see `plan`.
#[verifier::rlimit(100)]
pub fn plan_command(command: &str, args: &[String], env_ws: Option<&str>, env_tab: Option<&str>) -> (r: Result<CommandPlan, String>)
    ensures
        plan_view(r) == plan_json(plan(command@, args_view(args@), str_opt(env_ws), str_opt(env_tab))),
{
    let ghost av = args_view(args@);
    if str_eq(command, "identify") {
        let w = parse_opt(args, "--workspace");
        let s = parse_opt(args, "--surface");
        let any = w.is_some() || s.is_some();
        let mut caller = new_members();
        opt_put(&mut caller, "workspace_id", w);
        opt_put(&mut caller, "surface_id", s);
        let mut m = new_members();
        if any {
            put(&mut m, "caller", object(caller));
        }
        return Ok(done("system.identify", m));
    }
    if str_eq(command, "list-panels") || str_eq(command, "list-panes") || str_eq(command, "list-workspaces")
        || str_eq(command, "surface-health") {
        let w = keep_non_blank(either(parse_opt(args, "--workspace"), env_ws));
        let method = if str_eq(command, "list-panels") {
            "surface.list"
        } else if str_eq(command, "list-panes") {
            "pane.list"
        } else if str_eq(command, "list-workspaces") {
            "workspace.list"
        } else {
            "surface.health"
        };
        let mut m = new_members();
        opt_put(&mut m, "workspace_id", w);
        return Ok(done(method, m));
    }
    if str_eq(command, "send") {
        let w = keep_non_empty(either(parse_opt(args, "--workspace"), env_ws));
        let t = match trailing_title(args) { Some(t) => t, None => return Err(String::from_str("send requires text")) };
        let mut m = new_members();
        put(&mut m, "text", string(t));
        scope_put(&mut m, w);
        return Ok(done("surface.send_text", m));
    }
    if str_eq(command, "close-workspace") {
        let w = match either(parse_opt(args, "--workspace"), env_ws) {
            Some(w) => w,
            None => return Err(String::from_str("close-workspace requires --workspace <id|ref>")),
        };
        let mut m = new_members();
        put(&mut m, "workspace_id", string(w));
        return Ok(done("workspace.close", m));
    }
    if str_eq(command, "new-surface") {
        let mut m = new_members();
        scope_put(&mut m, parse_opt(args, "--workspace"));
        return Ok(done("surface.create", m));
    }
    if str_eq(command, "new-pane") {
        let mut m = new_members();
        put(&mut m, "direction", string(text_or(parse_opt(args, "--direction"), "right")));
        put(&mut m, "type", string(text_or(parse_opt(args, "--type"), "terminal")));
        proof {
            assert(members_view(m@) =~= seq![
                ("direction"@, jstr(or_else(option_value(av, "--direction"@), "right"@))),
                ("type"@, jstr(or_else(option_value(av, "--type"@), "terminal"@))),
            ]);
        }
        opt_put(&mut m, "url", parse_opt(args, "--url"));
        scope_put(&mut m, parse_opt(args, "--workspace"));
        return Ok(done("pane.create", m));
    }
    if str_eq(command, "read-screen") || str_eq(command, "capture-pane") {
        let bad = match parse_opt(args, "--lines") {
            Some(l) => match str_parse_u64(l.as_str()) { Some(n) => n == 0, None => true },
            None => false,
        };
        if bad {
            return Err(String::from_str("--lines must be greater than 0"));
        }
        let mut m = new_members();
        opt_put(&mut m, "workspace_id", parse_opt(args, "--workspace"));
        opt_put(&mut m, "surface_id", parse_opt(args, "--surface"));
        return Ok(done("surface.read_text", m));
    }
    if str_eq(command, "rename-workspace") || str_eq(command, "rename-window") {
        let t = match trailing_title(args) {
            Some(t) => t,
            None => return Err(String::from_str(
                if str_eq(command, "rename-window") { "rename-window requires a title" } else { "rename-workspace requires a title" })),
        };
        let mut m = new_members();
        put(&mut m, "title", string(t));
        opt_put(&mut m, "workspace_id", either(parse_opt(args, "--workspace"), env_ws));
        return Ok(done("workspace.rename", m));
    }
    if str_eq(command, "rename-tab") {
        let w = keep_non_empty(either(parse_opt(args, "--workspace"), env_ws));
        let tab = keep_non_empty(either(parse_opt(args, "--tab"), env_tab));
        let t = match trailing_title(args) { Some(t) => t, None => return Err(String::from_str("rename-tab requires a title")) };
        let mut m = new_members();
        put(&mut m, "action", string(String::from_str("rename")));
        let ghost tv = t@;
        put(&mut m, "title", string(t));
        proof { assert(members_view(m@) =~= seq![("action"@, jstr("rename"@)), ("title"@, jstr(tv))]); }
        opt_put(&mut m, "workspace_id", w);
        opt_put(&mut m, "surface_id", tab);
        return Ok(done("tab.action", m));
    }
    let mut e = String::from_str("unknown command: ");
    e.append(command);
    Err(e)
}


/// The answer with the command's own touches: `identify --no-caller` drops
/// `caller`; a list scoped to a workspace records it (as `workspace_ref` when
/// it has a `:`, else as `workspace_id`) unless the answer already has that
/// key.
pub open spec fn touched(command: Seq<char>, args: Seq<Seq<char>>, env_ws: Option<Seq<char>>, payload: JsonV) -> JsonV {
    if command == "identify"@ && args.contains("--no-caller"@) {
        match payload {
            JsonV::Object(ms) => JsonV::Object(without_key(ms, "caller"@)),
            _ => payload,
        }
    } else if is_list_command(command) {
        match (non_blank(workspace_arg(args, env_ws)), payload) {
            (Some(w), JsonV::Object(ms)) => {
                let key = if contains(w, ":"@) { "workspace_ref"@ } else { "workspace_id"@ };
                if has_key(ms, key) { payload } else { JsonV::Object(ms.push((key, jstr(w)))) }
            },
            _ => payload,
        }
    } else {
        payload
    }
}

/// What the client prints for an answer.
pub enum ReplyV {
    Text(Seq<char>),
    Json(JsonV),
}

/// The text a command shows for its answer, when it shows text.
pub open spec fn reply_text(command: Seq<char>, p: JsonV) -> Option<Seq<char>> {
    if is_list_command(command) {
        Some(list_text(command, p))
    } else if command == "send"@ {
        Some("OK "@ + trim(handle_in(p, "surface_id"@, "surface_ref"@)))
    } else if command == "new-surface"@ || command == "new-pane"@ {
        Some("OK "@ + handle_in(p, "surface_id"@, "surface_ref"@))
    } else if command == "close-workspace"@ || command == "rename-workspace"@ || command == "rename-window"@
        || command == "rename-tab"@ {
        Some("OK"@)
    } else if command == "read-screen"@ || command == "capture-pane"@ {
        Some(or_else(string_at(p, seq!["text"@]), Seq::empty()))
    } else if command == "new-workspace"@ {
        Some("OK "@ + handle_in(p, "workspace_id"@, "workspace_ref"@))
    } else if command == "sidebar-state"@ {
        Some("workspace="@ + or_else(string_at(p, seq!["workspace"@]), "none"@)
            + "\ncwd="@ + or_else(string_at(p, seq!["cwd"@]), "none"@)
            + "\ngit_branch="@ + or_else(string_at(p, seq!["git_branch"@]), "none"@))
    } else if command == "tab-action"@ {
        Some(or_else(string_at(p, seq!["help"@]), "OK"@))
    } else if crate::workflows::is_tmux_command(command) {
        Some(or_else(string_at(p, seq!["text"@]), "OK"@))
    } else {
        None
    }
}

/// What the client prints: the command's text unless JSON output was asked
/// for (`identify` always answers JSON); JSON in the chosen id format.
pub open spec fn reply(command: Seq<char>, args: Seq<Seq<char>>, env_ws: Option<Seq<char>>, payload: JsonV, json_output: bool, f: IdFormat) -> ReplyV {
    let p = touched(command, args, env_ws, payload);
    match reply_text(command, p) {
        Some(t) => if json_output { ReplyV::Json(id_formatted(p, f)) } else { ReplyV::Text(t) },
        None => ReplyV::Json(id_formatted(p, f)),
    }
}

/// What the client prints.
pub enum Reply {
    Text(String),
    Json(Json),
}

pub open spec fn reply_view(r: Reply) -> ReplyV {
    match r {
        Reply::Text(t) => ReplyV::Text(t@),
        Reply::Json(j) => ReplyV::Json(json_view(j)),
    }
}

fn touch(command: &str, args: &[String], env_ws: Option<&str>, payload: Json) -> (r: Json)
    ensures
        json_view(r) == touched(command@, args_view(args@), str_opt(env_ws), json_view(payload)),
{
    let ghost pv = json_view(payload);
    if str_eq(command, "identify") && parse_flag(args, "--no-caller") {
        return match payload {
            Json::Object(ms) => {
                proof { assert(pv->Object_0 =~= members_view(ms@)); }
                let out = remove_member(ms, "caller");
                object(out)
            },
            other => other,
        };
    }
    if str_eq(command, "list-panels") || str_eq(command, "list-panes") || str_eq(command, "list-workspaces")
        || str_eq(command, "surface-health") {
        let w = keep_non_blank(either(parse_opt(args, "--workspace"), env_ws));
        match w {
            Some(w) => match payload {
                Json::Object(ms) => {
                    proof { assert(pv->Object_0 =~= members_view(ms@)); }
                    let key = if str_contains(w.as_str(), ":") { "workspace_ref" } else { "workspace_id" };
                    if has_member(&ms, key) {
                        return object(ms);
                    }
                    let mut ms = ms;
                    put(&mut ms, key, string(w));
                    return object(ms);
                },
                other => return other,
            },
            None => return payload,
        }
    }
    payload
}

fn member_or_none(p: &Json, key: &str) -> (r: String)
    ensures
        r@ == or_else(string_at(json_view(*p), seq![key@]), "none"@),
{
    let k = [key];
    proof { assert(keys_of(k@) =~= seq![key@]); }
    match get_string(p, &k) { Some(t) => t, None => String::from_str("none") }
}

fn sidebar_text(p: &Json) -> (r: String)
    ensures
        r@ == "workspace="@ + or_else(string_at(json_view(*p), seq!["workspace"@]), "none"@)
            + "\ncwd="@ + or_else(string_at(json_view(*p), seq!["cwd"@]), "none"@)
            + "\ngit_branch="@ + or_else(string_at(json_view(*p), seq!["git_branch"@]), "none"@),
{
    let mut t = String::from_str("workspace=");
    t.append(member_or_none(p, "workspace").as_str());
    t.append("\ncwd=");
    t.append(member_or_none(p, "cwd").as_str());
    t.append("\ngit_branch=");
    t.append(member_or_none(p, "git_branch").as_str());
    t
}

/// What the client prints for an answer; see `reply`.
pub fn render_reply(command: &str, args: &[String], env_ws: Option<&str>, payload: Json, json_output: bool, f: IdFormat) -> (r: Reply)
    ensures
        reply_view(r) == reply(command@, args_view(args@), str_opt(env_ws), json_view(payload), json_output, f),
{
    let mut p = touch(command, args, env_ws, payload);
    let text: Option<String> = if str_eq(command, "list-panels") || str_eq(command, "list-panes")
        || str_eq(command, "list-workspaces") || str_eq(command, "surface-health") {
        Some(render_list_text(command, &p))
    } else if str_eq(command, "send") {
        let h = handle_from_payload(&p, "surface_id", "surface_ref");
        let mut t = String::from_str("OK ");
        t.append(trim_str(h.as_str()));
        Some(t)
    } else if str_eq(command, "new-surface") || str_eq(command, "new-pane") {
        let h = handle_from_payload(&p, "surface_id", "surface_ref");
        let mut t = String::from_str("OK ");
        t.append(h.as_str());
        Some(t)
    } else if str_eq(command, "close-workspace") || str_eq(command, "rename-workspace")
        || str_eq(command, "rename-window") || str_eq(command, "rename-tab") {
        Some(String::from_str("OK"))
    } else if str_eq(command, "read-screen") || str_eq(command, "capture-pane") {
        let k = ["text"];
        proof { assert(keys_of(k@) =~= seq!["text"@]); }
        Some(match get_string(&p, &k) { Some(t) => t, None => String::new() })
    } else if str_eq(command, "new-workspace") {
        let h = handle_from_payload(&p, "workspace_id", "workspace_ref");
        let mut t = String::from_str("OK ");
        t.append(h.as_str());
        Some(t)
    } else if str_eq(command, "sidebar-state") {
        Some(sidebar_text(&p))
    } else if str_eq(command, "tab-action") {
        let k = ["help"];
        proof { assert(keys_of(k@) =~= seq!["help"@]); }
        Some(match get_string(&p, &k) { Some(t) => t, None => String::from_str("OK") })
    } else if crate::workflows::is_tmux_name(command) {
        let k = ["text"];
        proof { assert(keys_of(k@) =~= seq!["text"@]); }
        Some(match get_string(&p, &k) { Some(t) => t, None => String::from_str("OK") })
    } else {
        None
    };
    match text {
        Some(t) => if json_output {
            apply_id_format(&mut p, f);
            Reply::Json(p)
        } else {
            Reply::Text(t)
        },
        None => {
            apply_id_format(&mut p, f);
            Reply::Json(p)
        },
    }
}


/// `new-pane` asks for `pane.create` in the direction its `--direction`
/// names, and to the right only when the option is absent; likewise the
/// pane type is `--type`, else a terminal.
pub proof fn law_new_pane_direction(args: Seq<Seq<char>>, env_ws: Option<Seq<char>>, env_tab: Option<Seq<char>>)
    ensures
        plan("new-pane"@, args, env_ws, env_tab) is Ok,
        plan("new-pane"@, args, env_ws, env_tab)->Ok_0.method == "pane.create"@,
        lookup(plan("new-pane"@, args, env_ws, env_tab)->Ok_0.params, "direction"@) == Some(jstr(
            match option_value(args, "--direction"@) { Some(d) => d, None => "right"@ })),
        lookup(plan("new-pane"@, args, env_ws, env_tab)->Ok_0.params, "type"@) == Some(jstr(
            match option_value(args, "--type"@) { Some(t) => t, None => "terminal"@ })),
{
    reveal_strlit("new-pane");
    reveal_strlit("identify");
    reveal_strlit("list-panels");
    reveal_strlit("list-panes");
    reveal_strlit("list-workspaces");
    reveal_strlit("surface-health");
    reveal_strlit("send");
    reveal_strlit("close-workspace");
    reveal_strlit("new-surface");
    reveal_strlit("direction");
    reveal_strlit("type");
    let c = "new-pane"@;
    assert(c[0] == 'n' && "identify"@[0] == 'i');
    assert(c != "identify"@);
    assert(c.len() == 8 && "list-panels"@.len() == 11);
    assert(c != "list-panels"@);
    assert(c != "list-panes"@);
    assert(c != "list-workspaces"@);
    assert(c != "surface-health"@);
    assert(c != "send"@);
    assert(c != "close-workspace"@);
    assert(c != "new-surface"@);
    let ps = plan(c, args, env_ws, env_tab)->Ok_0.params;
    let base = seq![
        ("direction"@, jstr(or_else(option_value(args, "--direction"@), "right"@))),
        ("type"@, jstr(or_else(option_value(args, "--type"@), "terminal"@))),
    ];
    let withurl = opt_member(base, "url"@, option_value(args, "--url"@));
    assert(ps == scoped(withurl, option_value(args, "--workspace"@)));
    assert(ps.len() >= 2);
    assert(ps[0] == base[0]);
    assert(ps[1] == base[1]);
    assert("direction"@.len() == 9 && "type"@.len() == 4);
    assert("direction"@ != "type"@);
    lemma_first_index(ps, crate::json::key_is("direction"@));
    lemma_first_index(ps, crate::json::key_is("type"@));
    assert(crate::json::key_is("direction"@)(ps[0]));
    assert(crate::json::key_is("type"@)(ps[1]));
    assert(!crate::json::key_is("type"@)(ps[0]));
}

} // verus!
