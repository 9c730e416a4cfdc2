//! The client's `browser` command: which request a browser command line
//! makes, and how its answer is shown. A `--snapshot-after` asks for a
//! second request; screenshots are written by the client.
use vstd::prelude::*;
use crate::json::{Json, JsonV, json_view, members_view, object, put, new_members, string, text, uint, jstr, juint, lookup, get};
use crate::cli::{
    IdFormat, id_format_of, args_view, option_value, parse_opt, parse_flag, join_words, string_at, get_string,
    keys_of, without_key, remove_member,
};
use crate::commands::{Members, scoped, Reply, ReplyV, reply_view, or_else, scope_put};
use crate::text::{trim, trim_str, contains, str_contains, str_eq, parse_u64, str_parse_u64};
use crate::control::opt_str_view;

verus! {

/// What the client does with the answer to a browser request.
pub enum FollowV {
    /// Shows the answer as JSON.
    Json,
    /// Shows the first of these keys holding text, else the default.
    Text(Seq<Seq<char>>, Seq<char>),
    /// Shows this text.
    Fixed(Seq<char>),
    /// Shows a page snapshot (listing refs when interactive).
    Snapshot(bool),
    /// Asks the surface for a snapshot next, and shows both.
    ThenSnapshot(Seq<char>),
    /// Keeps the screenshot at the path given, if any.
    Screenshot(Option<Seq<char>>),
}

/// A browser request: its method, parameters, whether the answer is shown
/// as JSON, and what follows.
pub struct BrowserPlanV {
    pub method: Seq<char>,
    pub params: Members,
    pub json: bool,
    pub follow: FollowV,
}

/// The arguments without trailing `--json` flags.
pub open spec fn without_json(args: Seq<Seq<char>>) -> Seq<Seq<char>>
    decreases args.len(),
{
    if args.len() > 0 && args.last() == "--json"@ { without_json(args.drop_last()) } else { args }
}

/// Options whose value is not a word of the command.
pub open spec fn skips_value(a: Seq<char>) -> bool {
    a == "--workspace"@ || a == "--surface"@ || a == "--id-format"@ || a == "--timeout-ms"@
        || a == "--load-state"@ || a == "--out"@
}

/// The plain words of the arguments from `i` on: options, and the values of
/// the options of `skips_value`, are left out.
pub open spec fn words_from(args: Seq<Seq<char>>, i: int, skip: bool) -> Seq<Seq<char>>
    decreases args.len() - i,
{
    if i >= args.len() || i < 0 {
        Seq::empty()
    } else if skip {
        words_from(args, i + 1, false)
    } else if skips_value(args[i]) {
        words_from(args, i + 1, i + 1 < args.len())
    } else if args[i].len() > 0 && args[i][0] == '-' {
        words_from(args, i + 1, false)
    } else {
        seq![args[i]] + words_from(args, i + 1, false)
    }
}

/// Verbs that never name a surface first.
pub open spec fn opens(w: Seq<char>) -> bool {
    w == "open"@ || w == "open-split"@ || w == "new"@ || w == "identify"@
}

/// A word that names a surface: a ref (with `:`) or a UUID (with `-`).
pub open spec fn names_surface(w: Seq<char>) -> bool {
    contains(w, ":"@) || contains(w, "-"@)
}

pub open spec fn mplan(method: Seq<char>, params: Members, json: bool, follow: FollowV) -> Result<BrowserPlanV, Seq<char>> {
    Ok(BrowserPlanV { method, params, json, follow })
}

/// Parameters with a member set (replacing one of the same name).
pub open spec fn set_member(ms: Members, key: Seq<char>, v: JsonV) -> Members {
    without_key(ms, key).push((key, v))
}

pub open spec fn opt_str(ms: Members, key: Seq<char>, v: Option<Seq<char>>) -> Members {
    match v {
        Some(x) => ms.push((key, jstr(x))),
        None => ms,
    }
}

pub open spec fn word(r: Seq<Seq<char>>, i: int) -> Option<Seq<char>> {
    if 0 <= i < r.len() { Some(r[i]) } else { None }
}

pub open spec fn first_of(a: Option<Seq<char>>, b: Option<Seq<char>>) -> Option<Seq<char>> {
    match a {
        Some(x) => Some(x),
        None => b,
    }
}

/// A request on the surface: `surface_id` set in its parameters.
pub open spec fn on_surface(method: Seq<char>, ms: Members, sid: Seq<char>, json: bool, follow: FollowV) -> Result<BrowserPlanV, Seq<char>> {
    mplan(method, set_member(ms, "surface_id"@, jstr(sid)), json, follow)
}

pub open spec fn needs_surface(name: Seq<char>) -> Seq<char> {
    "browser "@ + name + " requires a surface"@
}

pub open spec fn get_method(verb: Seq<char>) -> Option<Seq<char>> {
    if verb == "url"@ { Some("browser.url.get"@) }
    else if verb == "title"@ { Some("browser.get.title"@) }
    else if verb == "text"@ { Some("browser.get.text"@) }
    else if verb == "html"@ { Some("browser.get.html"@) }
    else if verb == "value"@ { Some("browser.get.value"@) }
    else if verb == "attr"@ { Some("browser.get.attr"@) }
    else if verb == "count"@ { Some("browser.get.count"@) }
    else if verb == "box"@ { Some("browser.get.box"@) }
    else if verb == "styles"@ { Some("browser.get.styles"@) }
    else { None }
}

pub open spec fn op_method(kind: Seq<char>, op: Seq<char>) -> Option<Seq<char>> {
    if op == "get"@ || op == "set"@ || op == "clear"@ { Some("browser."@ + kind + "."@ + op) } else { None }
}

/// The parameters of a `find` by locator.
pub open spec fn find_params(locator: Seq<char>, r: Seq<Seq<char>>) -> Members {
    let value = or_else(word(r, 1), Seq::empty());
    if locator == "role"@ {
        seq![("role"@, jstr(value))]
    } else if locator == "nth"@ {
        let index: u64 = match word(r, 2) {
            Some(w) => match parse_u64(w) { Some(n) => n, None => 0 },
            None => 0,
        };
        seq![("selector"@, jstr(value)), ("index"@, juint(index))]
    } else if locator == "first"@ || locator == "last"@ {
        seq![("selector"@, jstr(value))]
    } else {
        seq![(locator, jstr(value))]
    }
}

/// The request of a browser subcommand on a surface.
pub open spec fn surface_request(sub: Seq<char>, r: Seq<Seq<char>>, a: Seq<Seq<char>>, sid: Seq<char>, j: bool) -> Result<BrowserPlanV, Seq<char>> {
    let none: Members = Seq::empty();
    if sub == "url"@ || sub == "get-url"@ {
        on_surface("browser.url.get"@, none, sid, j, FollowV::Text(seq!["url"@], Seq::empty()))
    } else if sub == "goto"@ || sub == "navigate"@ {
        match word(r, 0) {
            None => Err("browser navigate requires a URL"@),
            Some(url) => on_surface("browser.navigate"@, seq![("url"@, jstr(url))], sid, j,
                if a.contains("--snapshot-after"@) { FollowV::ThenSnapshot(sid) } else { FollowV::Json }),
        }
    } else if sub == "wait"@ {
        let t: Option<u64> = match option_value(a, "--timeout-ms"@) { Some(x) => parse_u64(x), None => None };
        let ms = opt_str(none, "selector"@, option_value(a, "--selector"@));
        let ms2 = match t { Some(n) => ms.push(("timeout_ms"@, juint(n))), None => ms };
        on_surface("browser.wait"@, ms2, sid, j, FollowV::Fixed("OK"@))
    } else if sub == "snapshot"@ {
        on_surface("browser.snapshot"@, none, sid, j, FollowV::Snapshot(a.contains("--interactive"@)))
    } else if sub == "screenshot"@ {
        on_surface("browser.screenshot"@, none, sid, j, FollowV::Screenshot(option_value(a, "--out"@)))
    } else if sub == "find"@ {
        let locator = or_else(word(r, 0), "text"@);
        on_surface("browser.find."@ + locator, find_params(locator, r), sid, j, FollowV::Text(seq!["element_ref"@], "@e1"@))
    } else if sub == "frame"@ {
        let target = or_else(word(r, 0), "main"@);
        if target == "main"@ {
            on_surface("browser.frame.main"@, none, sid, j, FollowV::Json)
        } else {
            on_surface("browser.frame.select"@, seq![("selector"@, jstr(target))], sid, j, FollowV::Json)
        }
    } else if sub == "click"@ {
        match first_of(option_value(a, "--selector"@), word(r, 0)) {
            None => Err("browser click requires a selector"@),
            Some(sel) => on_surface("browser.click"@, seq![("selector"@, jstr(sel))], sid, j, FollowV::Json),
        }
    } else if sub == "fill"@ {
        let sel = or_else(first_of(option_value(a, "--selector"@), word(r, 0)), Seq::empty());
        let t = or_else(first_of(option_value(a, "--text"@), word(r, 1)), Seq::empty());
        on_surface("browser.fill"@, seq![("selector"@, jstr(sel)), ("text"@, jstr(t))], sid, j,
            if a.contains("--snapshot-after"@) { FollowV::ThenSnapshot(sid) } else { FollowV::Json })
    } else if sub == "get"@ {
        let verb = or_else(word(r, 0), "url"@);
        match get_method(verb) {
            None => Err("Unsupported browser get subcommand: "@ + verb),
            Some(m) => {
                let ms = opt_str(opt_str(opt_str(none, "selector"@, first_of(word(r, 1), option_value(a, "--selector"@))),
                    "name"@, option_value(a, "--attr"@)), "property"@, option_value(a, "--property"@));
                on_surface(m, ms, sid, j, FollowV::Text(seq!["url"@, "title"@, "text"@, "value"@, "html"@], "OK"@))
            },
        }
    } else if sub == "cookies"@ {
        let op = or_else(word(r, 0), "get"@);
        match op_method("cookies"@, op) {
            None => Err("Unsupported browser cookies subcommand: "@ + op),
            Some(m) => {
                let ms = opt_str(opt_str(none, "name"@, first_of(word(r, 1), option_value(a, "--name"@))),
                    "value"@, first_of(word(r, 2), option_value(a, "--value"@)));
                on_surface(m, ms, sid, j, FollowV::Json)
            },
        }
    } else if sub == "storage"@ {
        if r.len() < 2 {
            Err("browser storage requires <local|session> <get|set|clear>"@)
        } else {
            match op_method("storage"@, r[1]) {
                None => Err("Unsupported browser storage subcommand: "@ + r[1]),
                Some(m) => {
                    let ms = opt_str(opt_str(seq![("type"@, jstr(r[0]))], "key"@, word(r, 2)), "value"@, word(r, 3));
                    on_surface(m, ms, sid, j, FollowV::Json)
                },
            }
        }
    } else if sub == "tab"@ {
        let verb = or_else(word(r, 0), "list"@);
        if verb == "list"@ {
            on_surface("browser.tab.list"@, none, sid, j, FollowV::Json)
        } else if verb == "new"@ {
            on_surface("browser.tab.new"@, opt_str(none, "url"@, word(r, 1)), sid, j, FollowV::Json)
        } else if verb == "switch"@ || verb == "close"@ {
            on_surface("browser.tab."@ + verb, opt_str(none, "target_surface_id"@, word(r, 1)), sid, j, FollowV::Json)
        } else {
            Err("Unsupported browser tab subcommand: "@ + verb)
        }
    } else if sub == "addscript"@ || sub == "addinitscript"@ || sub == "addstyle"@ {
        let content = join_words(r);
        if trim(content).len() == 0 {
            Err("browser "@ + sub + " requires content"@)
        } else {
            let field = if sub == "addstyle"@ { "css"@ } else { "script"@ };
            on_surface("browser."@ + sub, seq![(field, jstr(content))], sid, j, FollowV::Json)
        }
    } else if sub == "console"@ || sub == "errors"@ {
        on_surface("browser."@ + sub + "."@ + or_else(word(r, 0), "list"@), none, sid, j, FollowV::Json)
    } else if sub == "highlight"@ {
        on_surface("browser.highlight"@, seq![("selector"@, jstr(or_else(word(r, 0), Seq::empty())))], sid, j, FollowV::Json)
    } else if sub == "state"@ {
        let op = or_else(word(r, 0), "save"@);
        match word(r, 1) {
            None => Err("browser state "@ + op + " requires a file path"@),
            Some(path) => if op == "save"@ || op == "load"@ {
                on_surface("browser.state."@ + op, seq![("path"@, jstr(path))], sid, j, FollowV::Json)
            } else {
                Err("Unsupported browser state subcommand: "@ + op)
            },
        }
    } else {
        on_surface("browser."@ + sub, none, sid, j, FollowV::Json)
    }
}

/// The name a missing surface is reported under.
pub open spec fn surface_word(sub: Seq<char>) -> Seq<char> {
    if sub == "url"@ || sub == "get-url"@ { "url"@ } else if sub == "goto"@ || sub == "navigate"@ { "navigate"@ } else { sub }
}

/// The request a `browser` command line makes, or why it makes none. A
/// first word that names a surface (unless it opens a page) is the surface.
pub open spec fn browser_plan(args: Seq<Seq<char>>, json_output: bool) -> Result<BrowserPlanV, Seq<char>> {
    let a = without_json(args);
    let j = json_output || a.len() < args.len();
    let ws = option_value(a, "--workspace"@);
    let pos = words_from(a, 0, false);
    if pos.len() == 0 {
        Err("browser requires a subcommand"@)
    } else {
        let takes = !opens(pos[0]) && names_surface(pos[0]);
        let surface = if takes { Some(pos[0]) } else { option_value(a, "--surface"@) };
        let idx: int = if takes { 1 } else { 0 };
        if idx >= pos.len() {
            Err("browser requires a subcommand"@)
        } else {
            let sub = pos[idx];
            let r = pos.skip(idx + 1);
            if sub == "open"@ || sub == "open-split"@ || sub == "new"@ {
                let url = or_else(word(r, 0), "about:blank"@);
                match surface {
                    Some(s) => on_surface("browser.navigate"@, seq![("url"@, jstr(url))], s, j, FollowV::Json),
                    None => mplan("browser.open_split"@, scoped(seq![("url"@, jstr(url))], ws), j, FollowV::Json),
                }
            } else if sub == "viewport"@ {
                Err("not_supported: browser viewport is not supported in linux mock"@)
            } else {
                match surface {
                    None => Err(needs_surface(surface_word(sub))),
                    Some(s) => surface_request(sub, r, a, s, j),
                }
            }
        }
    }
}

/// The browser verb that a shortcut command stands for.
pub open spec fn shortcut_verb(command: Seq<char>) -> Option<Seq<char>> {
    if command == "open-browser"@ { Some("open"@) }
    else if command == "navigate-browser"@ { Some("navigate"@) }
    else if command == "browser-back"@ { Some("back"@) }
    else if command == "browser-forward"@ { Some("forward"@) }
    else if command == "browser-reload"@ { Some("reload"@) }
    else { None }
}

/// The request of a browser command (`browser` or one of its shortcuts),
/// or `None` for any other command. Only `browser` itself checks its
/// `--id-format`.
pub open spec fn browser_command(command: Seq<char>, args: Seq<Seq<char>>, json_output: bool) -> Option<Result<BrowserPlanV, Seq<char>>> {
    if command == "browser"@ {
        let bad_format = match option_value(args, "--id-format"@) { Some(f) => id_format_of(f) is None, None => false };
        if bad_format {
            Some(Err("--id-format must be one of refs|both|uuids"@))
        } else {
            Some(browser_plan(args, json_output))
        }
    } else {
        match shortcut_verb(command) {
            Some(v) => Some(browser_plan(seq![v] + args, json_output)),
            None => None,
        }
    }
}


/// The keys of the `refs` object of a snapshot, as members.
pub open spec fn refs_of(p: JsonV) -> Seq<(Seq<char>, JsonV)> {
    match p {
        JsonV::Object(ms) => match lookup(ms, "refs"@) {
            Some(JsonV::Object(rs)) => rs,
            _ => Seq::empty(),
        },
        _ => Seq::empty(),
    }
}

/// A line `ref=<key>` for each member, each after a newline.
pub open spec fn ref_lines(rs: Seq<(Seq<char>, JsonV)>) -> Seq<char>
    decreases rs.len(),
{
    if rs.len() == 0 { Seq::empty() } else { ref_lines(rs.drop_last()) + "\nref="@ + rs.last().0 }
}

/// The text of a page snapshot: its text (else `OK`), followed, when
/// interactive, by a line for each of its refs. An interactive snapshot of
/// a blank page says there is nothing to interact with.
pub open spec fn snapshot_text(payload: JsonV, interactive: bool) -> Seq<char> {
    let url = or_else(string_at(payload, seq!["url"@]), Seq::empty());
    let body = or_else(string_at(payload, seq!["snapshot"@, "text"@]), "OK"@);
    if interactive && url == "about:blank"@ {
        "about:blank\nNo interactive elements found; try `browser <surface> get url`."@
    } else if interactive {
        body + ref_lines(refs_of(payload))
    } else {
        body
    }
}

/// An object with a member set (replacing one of the same name); any other
/// value unchanged.
pub open spec fn with_member(v: JsonV, key: Seq<char>, x: JsonV) -> JsonV {
    match v {
        JsonV::Object(ms) => JsonV::Object(set_member(ms, key, x)),
        _ => v,
    }
}

/// What the client shows for the answer to a request that needs no second
/// step.
pub open spec fn shown(follow: FollowV, json: bool, payload: JsonV) -> ReplyV {
    if json {
        ReplyV::Json(payload)
    } else {
        match follow {
            FollowV::Text(keys, d) => ReplyV::Text(or_else(string_at(payload, keys), d)),
            FollowV::Fixed(t) => ReplyV::Text(t),
            FollowV::Snapshot(i) => ReplyV::Text(snapshot_text(payload, i)),
            _ => ReplyV::Json(payload),
        }
    }
}

/// What follows the answer to a browser request.
pub enum BrowserStepV {
    /// Show this.
    Show(ReplyV),
    /// Make this request, then show both answers (`with_snapshot`).
    Then(BrowserPlanV),
    /// Make sure a file is at this path, then show `shot_reply`.
    Keep(Seq<char>),
}

/// Where a screenshot is kept: the path given, else the one in the answer,
/// else a default.
pub open spec fn shot_path(payload: JsonV, out: Option<Seq<char>>) -> Seq<char> {
    match out {
        Some(o) => o,
        None => or_else(string_at(payload, seq!["path"@]), "/tmp/chostty-browser-shot.png"@),
    }
}

pub open spec fn browser_step(plan: BrowserPlanV, payload: JsonV) -> BrowserStepV {
    match plan.follow {
        FollowV::ThenSnapshot(sid) => BrowserStepV::Then(BrowserPlanV {
            method: "browser.snapshot"@,
            params: seq![("surface_id"@, jstr(sid))],
            json: plan.json,
            follow: FollowV::Json,
        }),
        FollowV::Screenshot(out) => BrowserStepV::Keep(shot_path(payload, out)),
        _ => BrowserStepV::Show(shown(plan.follow, plan.json, payload)),
    }
}

/// The answer of an action shown with the snapshot taken after it: as JSON,
/// the snapshot under `post_action_snapshot`; as text, the snapshot's text.
pub open spec fn with_snapshot(json: bool, payload: JsonV, snap: JsonV) -> ReplyV {
    if json {
        ReplyV::Json(with_member(payload, "post_action_snapshot"@, snap))
    } else {
        ReplyV::Text(or_else(string_at(snap, seq!["snapshot"@, "text"@]), "OK"@))
    }
}

/// A screenshot's answer once its file is kept at `path`: the answer names
/// the file (path and `file://` URL) and drops the image data.
pub open spec fn shot_reply(payload: JsonV, path: Seq<char>, out_given: bool, json: bool) -> ReplyV {
    if out_given {
        ReplyV::Text("OK "@ + path)
    } else if json {
        let named = with_member(with_member(payload, "path"@, jstr(path)), "url"@, jstr("file://"@ + path));
        ReplyV::Json(match named {
            JsonV::Object(ms) => JsonV::Object(without_key(ms, "png_base64"@)),
            _ => named,
        })
    } else {
        ReplyV::Text(path)
    }
}

} // verus!

verus! {

/// What the client does with the answer to a browser request; see `FollowV`.
pub enum Follow {
    Json,
    Text(Vec<String>, String),
    Fixed(String),
    Snapshot(bool),
    ThenSnapshot(String),
    Screenshot(Option<String>),
}

pub open spec fn follow_view(f: Follow) -> FollowV {
    match f {
        Follow::Json => FollowV::Json,
        Follow::Text(keys, d) => FollowV::Text(args_view(keys@), d@),
        Follow::Fixed(t) => FollowV::Fixed(t@),
        Follow::Snapshot(i) => FollowV::Snapshot(i),
        Follow::ThenSnapshot(s) => FollowV::ThenSnapshot(s@),
        Follow::Screenshot(o) => FollowV::Screenshot(opt_str_view(o)),
    }
}

/// A browser request; see `BrowserPlanV`.
pub struct BrowserPlan {
    pub method: String,
    pub params: Vec<(String, Json)>,
    pub json: bool,
    pub follow: Follow,
}

pub open spec fn browser_plan_view(r: Result<BrowserPlan, String>) -> Result<BrowserPlanV, Seq<char>> {
    match r {
        Ok(p) => Ok(BrowserPlanV { method: p.method@, params: members_view(p.params@), json: p.json, follow: follow_view(p.follow) }),
        Err(e) => Err(e@),
    }
}

fn concat2(a: &str, b: &str) -> (r: String)
    ensures
        r@ == a@ + b@,
{
    let mut s = String::from_str(a);
    s.append(b);
    s
}

fn concat3(a: &str, b: &str, c: &str) -> (r: String)
    ensures
        r@ == a@ + b@ + c@,
{
    let mut s = String::from_str(a);
    s.append(b);
    s.append(c);
    s
}

fn word_at(r: &Vec<String>, i: usize) -> (w: Option<String>)
    ensures
        opt_str_view(w) == word(args_view(r@), i as int),
{
    if i < r.len() { Some(r[i].clone()) } else { None }
}

fn first_some(a: Option<String>, b: Option<String>) -> (r: Option<String>)
    ensures
        opt_str_view(r) == first_of(opt_str_view(a), opt_str_view(b)),
{
    match a {
        Some(x) => Some(x),
        None => b,
    }
}

fn text_or(o: Option<String>, d: &str) -> (r: String)
    ensures
        r@ == or_else(opt_str_view(o), d@),
{
    match o {
        Some(x) => x,
        None => String::from_str(d),
    }
}

fn put_opt(m: &mut Vec<(String, Json)>, key: &str, v: Option<String>)
    ensures
        members_view(final(m)@) == opt_str(members_view(old(m)@), key@, opt_str_view(v)),
{
    match v {
        Some(x) => put(m, key, string(x)),
        None => {},
    }
}

fn surface_plan(method: String, m: Vec<(String, Json)>, sid: &str, j: bool, follow: Follow) -> (r: Result<BrowserPlan, String>)
    ensures
        browser_plan_view(r) == on_surface(method@, members_view(m@), sid@, j, follow_view(follow)),
{
    let mut ms = remove_member(m, "surface_id");
    put(&mut ms, "surface_id", text(sid));
    Ok(BrowserPlan { method, params: ms, json: j, follow })
}

fn args_have(args: &Vec<String>, name: &str) -> (r: bool)
    ensures
        r == args_view(args@).contains(name@),
{
    parse_flag(args.as_slice(), name)
}

fn opt_of(args: &Vec<String>, name: &str) -> (r: Option<String>)
    ensures
        opt_str_view(r) == option_value(args_view(args@), name@),
{
    parse_opt(args.as_slice(), name)
}

fn one_member(key: &str, v: String) -> (r: Vec<(String, Json)>)
    ensures
        members_view(r@) == seq![(key@, jstr(v@))],
{
    let ghost vv = v@;
    let mut m = new_members();
    put(&mut m, key, string(v));
    proof { assert(members_view(m@) =~= seq![(key@, jstr(vv))]); }
    m
}

fn no_members() -> (r: Vec<(String, Json)>)
    ensures
        members_view(r@) == Seq::<(Seq<char>, JsonV)>::empty(),
{
    let m = new_members();
    proof { assert(members_view(m@) =~= Seq::<(Seq<char>, JsonV)>::empty()); }
    m
}

fn texts(v: &[&str]) -> (r: Vec<String>)
    ensures
        args_view(r@) == v@.map_values(|s: &str| s@),
{
    let mut out: Vec<String> = Vec::new();
    let mut i: usize = 0;
    while i < v.len()
        invariant
            i <= v.len(),
            args_view(out@) == v@.take(i as int).map_values(|s: &str| s@),
        decreases v.len() - i,
    {
        let ghost before = args_view(out@);
        out.push(String::from_str(v[i]));
        proof {
            assert(args_view(out@) =~= before.push(v@[i as int]@));
            assert(v@.take(i + 1).map_values(|s: &str| s@) =~= v@.take(i as int).map_values(|s: &str| s@).push(v@[i as int]@));
        }
        i = i + 1;
    }
    proof { assert(v@.take(i as int) =~= v@); }
    out
}

fn find_members(locator: &str, r: &Vec<String>) -> (m: Vec<(String, Json)>)
    ensures
        members_view(m@) == find_params(locator@, args_view(r@)),
{
    let value = text_or(word_at(r, 1), "");
    proof { reveal_strlit(""); assert(""@ =~= Seq::<char>::empty()); }
    if str_eq(locator, "role") {
        one_member("role", value)
    } else if str_eq(locator, "nth") {
        let index: u64 = match word_at(r, 2) {
            Some(w) => match str_parse_u64(w.as_str()) { Some(n) => n, None => 0 },
            None => 0,
        };
        let mut m = one_member("selector", value);
        let ghost before = members_view(m@);
        put(&mut m, "index", uint(index));
        proof { assert(members_view(m@) =~= before.push(("index"@, juint(index)))); }
        m
    } else if str_eq(locator, "first") || str_eq(locator, "last") {
        one_member("selector", value)
    } else {
        one_member(locator, value)
    }
}

fn get_method_of(verb: &str) -> (r: Option<&'static str>)
    ensures
        match r {
            Some(m) => get_method(verb@) == Some(m@),
            None => get_method(verb@) is None,
        },
{
    if str_eq(verb, "url") { Some("browser.url.get") }
    else if str_eq(verb, "title") { Some("browser.get.title") }
    else if str_eq(verb, "text") { Some("browser.get.text") }
    else if str_eq(verb, "html") { Some("browser.get.html") }
    else if str_eq(verb, "value") { Some("browser.get.value") }
    else if str_eq(verb, "attr") { Some("browser.get.attr") }
    else if str_eq(verb, "count") { Some("browser.get.count") }
    else if str_eq(verb, "box") { Some("browser.get.box") }
    else if str_eq(verb, "styles") { Some("browser.get.styles") }
    else { None }
}

fn op_method_of(kind: &str, op: &str) -> (r: Option<String>)
    ensures
        opt_str_view(r) == op_method(kind@, op@),
{
    if str_eq(op, "get") || str_eq(op, "set") || str_eq(op, "clear") {
        let mut s = concat3("browser.", kind, ".");
        s.append(op);
        Some(s)
    } else {
        None
    }
}

fn join_all(words: &Vec<String>) -> (r: String)
    ensures
        r@ == join_words(args_view(words@)),
{
    let ghost wv = args_view(words@);
    let mut out = String::new();
    let mut i: usize = 0;
    proof { reveal_strlit(" "); assert(wv.take(0) =~= Seq::<Seq<char>>::empty()); }
    while i < words.len()
        invariant
            i <= words.len(),
            wv == args_view(words@),
            out@ == join_words(wv.take(i as int)),
        decreases words.len() - i,
    {
        let ghost t = wv.take(i + 1);
        proof { assert(t.drop_last() =~= wv.take(i as int)); assert(t.last() == words@[i as int]@); }
        if i > 0 {
            out.append(" ");
        }
        out.append(words[i].as_str());
        proof {
            if i == 0 { assert(t =~= seq![words@[0]@]); }
            assert(out@ =~= join_words(t));
        }
        i = i + 1;
    }
    proof { assert(wv.take(i as int) =~= wv); }
    out
}

fn part_request(sub: &str, r: &Vec<String>, a: &Vec<String>, sid: &str, j: bool) -> (p: Option<Result<BrowserPlan, String>>)
    ensures
        match p {
            Some(x) => browser_plan_view(x) == surface_request(sub@, args_view(r@), args_view(a@), sid@, j),
            None => !(sub@ == "url"@ || sub@ == "get-url"@ || sub@ == "goto"@ || sub@ == "navigate"@ || sub@ == "wait"@
                || sub@ == "snapshot"@ || sub@ == "screenshot"@ || sub@ == "find"@ || sub@ == "frame"@
                || sub@ == "click"@ || sub@ == "fill"@),
        },
{
    proof { reveal_strlit(""); assert(""@ =~= Seq::<char>::empty()); }
    if str_eq(sub, "url") || str_eq(sub, "get-url") {
        let keys = texts(&["url"]);
        proof { assert(["url"]@.map_values(|s: &str| s@) =~= seq!["url"@]); }
        Some(surface_plan(String::from_str("browser.url.get"), no_members(), sid, j, Follow::Text(keys, String::new())))
    } else if str_eq(sub, "goto") || str_eq(sub, "navigate") {
        match word_at(r, 0) {
            None => Some(Err(String::from_str("browser navigate requires a URL"))),
            Some(url) => {
                let f = if args_have(a, "--snapshot-after") { Follow::ThenSnapshot(String::from_str(sid)) } else { Follow::Json };
                Some(surface_plan(String::from_str("browser.navigate"), one_member("url", url), sid, j, f))
            },
        }
    } else if str_eq(sub, "wait") {
        let t: Option<u64> = match opt_of(a, "--timeout-ms") { Some(x) => str_parse_u64(x.as_str()), None => None };
        let mut m = no_members();
        put_opt(&mut m, "selector", opt_of(a, "--selector"));
        match t {
            Some(n) => {
                let ghost before = members_view(m@);
                put(&mut m, "timeout_ms", uint(n));
                proof { assert(members_view(m@) =~= before.push(("timeout_ms"@, juint(n)))); }
            },
            None => {},
        }
        Some(surface_plan(String::from_str("browser.wait"), m, sid, j, Follow::Fixed(String::from_str("OK"))))
    } else if str_eq(sub, "snapshot") {
        Some(surface_plan(String::from_str("browser.snapshot"), no_members(), sid, j, Follow::Snapshot(args_have(a, "--interactive"))))
    } else if str_eq(sub, "screenshot") {
        Some(surface_plan(String::from_str("browser.screenshot"), no_members(), sid, j, Follow::Screenshot(opt_of(a, "--out"))))
    } else if str_eq(sub, "find") {
        let locator = text_or(word_at(r, 0), "text");
        let keys = texts(&["element_ref"]);
        proof { assert(["element_ref"]@.map_values(|s: &str| s@) =~= seq!["element_ref"@]); }
        Some(surface_plan(concat2("browser.find.", locator.as_str()), find_members(locator.as_str(), r), sid, j,
            Follow::Text(keys, String::from_str("@e1"))))
    } else if str_eq(sub, "frame") {
        let target = text_or(word_at(r, 0), "main");
        if str_eq(target.as_str(), "main") {
            Some(surface_plan(String::from_str("browser.frame.main"), no_members(), sid, j, Follow::Json))
        } else {
            Some(surface_plan(String::from_str("browser.frame.select"), one_member("selector", target), sid, j, Follow::Json))
        }
    } else if str_eq(sub, "click") {
        match first_some(opt_of(a, "--selector"), word_at(r, 0)) {
            None => Some(Err(String::from_str("browser click requires a selector"))),
            Some(sel) => Some(surface_plan(String::from_str("browser.click"), one_member("selector", sel), sid, j, Follow::Json)),
        }
    } else if str_eq(sub, "fill") {
        let sel = text_or(first_some(opt_of(a, "--selector"), word_at(r, 0)), "");
        let t = text_or(first_some(opt_of(a, "--text"), word_at(r, 1)), "");
        let ghost sv = sel@;
        let mut m = one_member("selector", sel);
        let ghost tv = t@;
        put(&mut m, "text", string(t));
        proof { assert(members_view(m@) =~= seq![("selector"@, jstr(sv)), ("text"@, jstr(tv))]); }
        let f = if args_have(a, "--snapshot-after") { Follow::ThenSnapshot(String::from_str(sid)) } else { Follow::Json };
        Some(surface_plan(String::from_str("browser.fill"), m, sid, j, f))
    } else {
        None
    }
}

/// The request of a browser subcommand on a surface; see `surface_request`.
fn surface_request_of(sub: &str, r: &Vec<String>, a: &Vec<String>, sid: &str, j: bool) -> (p: Result<BrowserPlan, String>)
    ensures
        browser_plan_view(p) == surface_request(sub@, args_view(r@), args_view(a@), sid@, j),
{
    if let Some(x) = part_request(sub, r, a, sid, j) {
        return x;
    }
    proof { reveal_strlit(""); assert(""@ =~= Seq::<char>::empty()); }
    if str_eq(sub, "get") {
        let verb = text_or(word_at(r, 0), "url");
        match get_method_of(verb.as_str()) {
            None => Err(concat2("Unsupported browser get subcommand: ", verb.as_str())),
            Some(method) => {
                let mut m = no_members();
                put_opt(&mut m, "selector", first_some(word_at(r, 1), opt_of(a, "--selector")));
                put_opt(&mut m, "name", opt_of(a, "--attr"));
                put_opt(&mut m, "property", opt_of(a, "--property"));
                let keys = texts(&["url", "title", "text", "value", "html"]);
                proof { assert(["url", "title", "text", "value", "html"]@.map_values(|s: &str| s@) =~= seq!["url"@, "title"@, "text"@, "value"@, "html"@]); }
                surface_plan(String::from_str(method), m, sid, j, Follow::Text(keys, String::from_str("OK")))
            },
        }
    } else if str_eq(sub, "cookies") {
        let op = text_or(word_at(r, 0), "get");
        match op_method_of("cookies", op.as_str()) {
            None => Err(concat2("Unsupported browser cookies subcommand: ", op.as_str())),
            Some(method) => {
                let mut m = no_members();
                put_opt(&mut m, "name", first_some(word_at(r, 1), opt_of(a, "--name")));
                put_opt(&mut m, "value", first_some(word_at(r, 2), opt_of(a, "--value")));
                surface_plan(method, m, sid, j, Follow::Json)
            },
        }
    } else if str_eq(sub, "storage") {
        if r.len() < 2 {
            Err(String::from_str("browser storage requires <local|session> <get|set|clear>"))
        } else {
            proof { assert(args_view(r@)[1] == r@[1]@); assert(args_view(r@)[0] == r@[0]@); }
            match op_method_of("storage", r[1].as_str()) {
                None => Err(concat2("Unsupported browser storage subcommand: ", r[1].as_str())),
                Some(method) => {
                    let mut m = one_member("type", r[0].clone());
                    put_opt(&mut m, "key", word_at(r, 2));
                    put_opt(&mut m, "value", word_at(r, 3));
                    surface_plan(method, m, sid, j, Follow::Json)
                },
            }
        }
    } else if str_eq(sub, "tab") {
        let verb = text_or(word_at(r, 0), "list");
        if str_eq(verb.as_str(), "list") {
            surface_plan(String::from_str("browser.tab.list"), no_members(), sid, j, Follow::Json)
        } else if str_eq(verb.as_str(), "new") {
            let mut m = no_members();
            put_opt(&mut m, "url", word_at(r, 1));
            surface_plan(String::from_str("browser.tab.new"), m, sid, j, Follow::Json)
        } else if str_eq(verb.as_str(), "switch") || str_eq(verb.as_str(), "close") {
            let mut m = no_members();
            put_opt(&mut m, "target_surface_id", word_at(r, 1));
            surface_plan(concat2("browser.tab.", verb.as_str()), m, sid, j, Follow::Json)
        } else {
            Err(concat2("Unsupported browser tab subcommand: ", verb.as_str()))
        }
    } else if str_eq(sub, "addscript") || str_eq(sub, "addinitscript") || str_eq(sub, "addstyle") {
        let content = join_all(r);
        if trim_str(content.as_str()).unicode_len() == 0 {
            Err(concat3("browser ", sub, " requires content"))
        } else {
            let field = if str_eq(sub, "addstyle") { "css" } else { "script" };
            surface_plan(concat2("browser.", sub), one_member(field, content), sid, j, Follow::Json)
        }
    } else if str_eq(sub, "console") || str_eq(sub, "errors") {
        let op = text_or(word_at(r, 0), "list");
        let mut method = concat3("browser.", sub, ".");
        method.append(op.as_str());
        surface_plan(method, no_members(), sid, j, Follow::Json)
    } else if str_eq(sub, "highlight") {
        surface_plan(String::from_str("browser.highlight"), one_member("selector", text_or(word_at(r, 0), "")), sid, j, Follow::Json)
    } else if str_eq(sub, "state") {
        let op = text_or(word_at(r, 0), "save");
        match word_at(r, 1) {
            None => Err(concat3("browser state ", op.as_str(), " requires a file path")),
            Some(path) => if str_eq(op.as_str(), "save") || str_eq(op.as_str(), "load") {
                surface_plan(concat2("browser.state.", op.as_str()), one_member("path", path), sid, j, Follow::Json)
            } else {
                Err(concat2("Unsupported browser state subcommand: ", op.as_str()))
            },
        }
    } else {
        surface_plan(concat2("browser.", sub), no_members(), sid, j, Follow::Json)
    }
}

fn copy_args(args: &[String]) -> (r: Vec<String>)
    ensures
        args_view(r@) == args_view(args@),
{
    let mut out: Vec<String> = Vec::new();
    let mut i: usize = 0;
    while i < args.len()
        invariant
            i <= args.len(),
            args_view(out@) == args_view(args@.take(i as int)),
        decreases args.len() - i,
    {
        let ghost before = args_view(out@);
        out.push(args[i].clone());
        proof {
            assert(args@.take(i + 1) =~= args@.take(i as int).push(args@[i as int]));
            assert(args_view(out@) =~= before.push(args@[i as int]@));
            assert(args_view(out@) =~= args_view(args@.take(i + 1)));
        }
        i = i + 1;
    }
    proof { assert(args@.take(i as int) =~= args@); }
    out
}

/// The arguments without trailing `--json` flags, and whether there was one.
fn strip_json(args: &[String]) -> (r: (Vec<String>, bool))
    ensures
        args_view(r.0@) == without_json(args_view(args@)),
        r.1 == (without_json(args_view(args@)).len() < args@.len()),
{
    let mut a = copy_args(args);
    let mut stripped = false;
    proof { assert(args_view(a@).len() == a@.len() && args_view(args@).len() == args@.len()); }
    while a.len() > 0 && str_eq(a[a.len() - 1].as_str(), "--json")
        invariant
            without_json(args_view(a@)) == without_json(args_view(args@)),
            a@.len() <= args@.len(),
            stripped == (a@.len() < args@.len()),
        decreases a.len(),
    {
        let ghost before = args_view(a@);
        proof { assert(before.last() == a@[a@.len() - 1]@); }
        a.pop();
        proof { assert(args_view(a@) =~= before.drop_last()); }
        stripped = true;
    }
    proof {
        let v = args_view(a@);
        if v.len() > 0 { assert(v.last() == a@[a@.len() - 1]@); }
    }
    (a, stripped)
}

fn skips_value_of(a: &str) -> (r: bool)
    ensures
        r == skips_value(a@),
{
    str_eq(a, "--workspace") || str_eq(a, "--surface") || str_eq(a, "--id-format") || str_eq(a, "--timeout-ms")
        || str_eq(a, "--load-state") || str_eq(a, "--out")
}

/// The plain words of the arguments; see `words_from`.
fn words_of(a: &Vec<String>) -> (r: Vec<String>)
    ensures
        args_view(r@) == words_from(args_view(a@), 0, false),
{
    let ghost av = args_view(a@);
    let mut out: Vec<String> = Vec::new();
    let mut i: usize = 0;
    let mut skip = false;
    proof { assert(Seq::<Seq<char>>::empty() + words_from(av, 0, false) =~= words_from(av, 0, false)); }
    while i < a.len()
        invariant
            i <= a.len(),
            av == args_view(a@),
            args_view(out@) + words_from(av, i as int, skip) == words_from(av, 0, false),
        decreases a.len() - i,
    {
        let w = a[i].as_str();
        proof { assert(av[i as int] == a@[i as int]@); }
        if skip {
            skip = false;
        } else if skips_value_of(w) {
            skip = i + 1 < a.len();
        } else if w.unicode_len() > 0 && w.get_char(0) == '-' {
        } else {
            let ghost before = args_view(out@);
            out.push(a[i].clone());
            proof {
                assert(args_view(out@) =~= before.push(av[i as int]));
                assert(before.push(av[i as int]) + words_from(av, i + 1, false)
                    =~= before + (seq![av[i as int]] + words_from(av, i + 1, false)));
            }
        }
        i = i + 1;
    }
    proof { assert(args_view(out@) + Seq::<Seq<char>>::empty() =~= args_view(out@)); }
    out
}

/// The words from `k` on.
fn words_after(pos: &Vec<String>, k: usize) -> (r: Vec<String>)
    requires
        k <= pos.len(),
    ensures
        args_view(r@) == args_view(pos@).skip(k as int),
{
    let mut out: Vec<String> = Vec::new();
    let mut i: usize = k;
    while i < pos.len()
        invariant
            k <= i <= pos.len(),
            args_view(out@) == args_view(pos@).subrange(k as int, i as int),
        decreases pos.len() - i,
    {
        let ghost before = args_view(out@);
        out.push(pos[i].clone());
        proof {
            assert(args_view(out@) =~= before.push(pos@[i as int]@));
            assert(args_view(pos@).subrange(k as int, i + 1) =~= before.push(pos@[i as int]@));
        }
        i = i + 1;
    }
    proof { assert(args_view(pos@).subrange(k as int, i as int) =~= args_view(pos@).skip(k as int)); }
    out
}

fn missing_surface(sub: &str) -> (r: String)
    ensures
        r@ == needs_surface(surface_word(sub@)),
{
    let name = if str_eq(sub, "url") || str_eq(sub, "get-url") {
        "url"
    } else if str_eq(sub, "goto") || str_eq(sub, "navigate") {
        "navigate"
    } else {
        sub
    };
    concat3("browser ", name, " requires a surface")
}

/// The request a `browser` command line makes, or why it makes none; see
/// `browser_plan`.
pub fn plan_browser(args: &[String], json_output: bool) -> (r: Result<BrowserPlan, String>)
    ensures
        browser_plan_view(r) == browser_plan(args_view(args@), json_output),
{
    let (a, stripped) = strip_json(args);
    let j = json_output || stripped;
    let ws = opt_of(&a, "--workspace");
    let pos = words_of(&a);
    if pos.len() == 0 {
        return Err(String::from_str("browser requires a subcommand"));
    }
    proof { assert(args_view(pos@)[0] == pos@[0]@); }
    let first = pos[0].as_str();
    let opening = str_eq(first, "open") || str_eq(first, "open-split") || str_eq(first, "new") || str_eq(first, "identify");
    let takes = !opening && (str_contains(first, ":") || str_contains(first, "-"));
    let surface: Option<String> = if takes { Some(pos[0].clone()) } else { opt_of(&a, "--surface") };
    let idx: usize = if takes { 1 } else { 0 };
    if idx >= pos.len() {
        return Err(String::from_str("browser requires a subcommand"));
    }
    proof { assert(args_view(pos@)[idx as int] == pos@[idx as int]@); }
    let sub = pos[idx].as_str();
    let rest = words_after(&pos, idx + 1);
    if str_eq(sub, "open") || str_eq(sub, "open-split") || str_eq(sub, "new") {
        let url = text_or(word_at(&rest, 0), "about:blank");
        match surface {
            Some(s) => surface_plan(String::from_str("browser.navigate"), one_member("url", url), s.as_str(), j, Follow::Json),
            None => {
                let mut m = one_member("url", url);
                scope_put(&mut m, ws);
                Ok(BrowserPlan { method: String::from_str("browser.open_split"), params: m, json: j, follow: Follow::Json })
            },
        }
    } else if str_eq(sub, "viewport") {
        Err(String::from_str("not_supported: browser viewport is not supported in linux mock"))
    } else {
        match surface {
            None => Err(missing_surface(sub)),
            Some(s) => surface_request_of(sub, &rest, &a, s.as_str(), j),
        }
    }
}

/// The request of a browser command (`browser` or one of its shortcuts), or
/// `None` for any other command; see `browser_command`.
pub fn browser_request(command: &str, args: &[String], json_output: bool) -> (r: Option<Result<BrowserPlan, String>>)
    ensures
        match r {
            Some(x) => browser_command(command@, args_view(args@), json_output) == Some(browser_plan_view(x)),
            None => browser_command(command@, args_view(args@), json_output) is None,
        },
{
    if str_eq(command, "browser") {
        if let Some(raw) = parse_opt(args, "--id-format") {
            if let Err(e) = IdFormat::parse(raw.as_str()) {
                return Some(Err(e));
            }
        }
        return Some(plan_browser(args, json_output));
    }
    let verb = if str_eq(command, "open-browser") {
        "open"
    } else if str_eq(command, "navigate-browser") {
        "navigate"
    } else if str_eq(command, "browser-back") {
        "back"
    } else if str_eq(command, "browser-forward") {
        "forward"
    } else if str_eq(command, "browser-reload") {
        "reload"
    } else {
        return None;
    };
    let mut bridged: Vec<String> = Vec::new();
    bridged.push(String::from_str(verb));
    let mut i: usize = 0;
    while i < args.len()
        invariant
            i <= args.len(),
            args_view(bridged@) == seq![verb@] + args_view(args@.take(i as int)),
        decreases args.len() - i,
    {
        let ghost before = args_view(bridged@);
        bridged.push(args[i].clone());
        proof {
            assert(args@.take(i + 1) =~= args@.take(i as int).push(args@[i as int]));
            assert(args_view(bridged@) =~= before.push(args@[i as int]@));
            assert(args_view(bridged@) =~= seq![verb@] + args_view(args@.take(i + 1)));
        }
        i = i + 1;
    }
    proof { assert(args@.take(i as int) =~= args@); }
    Some(plan_browser(bridged.as_slice(), json_output))
}

/// The first of `keys` holding text; see `string_at`.
fn string_in(value: &Json, keys: &Vec<String>) -> (r: Option<String>)
    ensures
        opt_str_view(r) == string_at(json_view(*value), args_view(keys@)),
{
    let ghost all = args_view(keys@);
    let mut i: usize = 0;
    proof { assert(all.skip(0) =~= all); }
    while i < keys.len()
        invariant
            all == args_view(keys@),
            i <= keys@.len(),
            string_at(json_view(*value), all) == string_at(json_view(*value), all.skip(i as int)),
        decreases keys.len() - i,
    {
        let k = keys[i].as_str();
        let one = [k];
        let here = get_string(value, &one);
        proof {
            assert(keys_of(one@) =~= seq![k@]);
            assert(seq![k@].drop_first() =~= Seq::<Seq<char>>::empty());
            assert(all.skip(i as int)[0] == k@);
            assert(all.skip(i as int).drop_first() =~= all.skip(i + 1));
            assert(opt_str_view(here) == string_at(json_view(*value), seq![k@]));
            assert(string_at(json_view(*value), seq![k@].drop_first()) is None);
        }
        if here.is_some() {
            return here;
        }
        i = i + 1;
    }
    proof { assert(all.skip(i as int) =~= Seq::<Seq<char>>::empty()); }
    None
}

fn ref_lines_of(payload: &Json) -> (r: String)
    ensures
        r@ == ref_lines(refs_of(json_view(*payload))),
{
    let mut out = String::new();
    proof { assert(out@ =~= Seq::<char>::empty()); }
    match payload {
        Json::Object(ms) => {
            proof { assert(json_view(*payload)->Object_0 =~= members_view(ms@)); }
            match get(ms, "refs") {
                Some(Json::Object(rs)) => {
                    let ghost rv = members_view(rs@);
                    proof { assert(json_view(Json::Object(*rs))->Object_0 =~= rv); }
                    let mut i: usize = 0;
                    proof { assert(rv.take(0) =~= Seq::<(Seq<char>, JsonV)>::empty()); }
                    while i < rs.len()
                        invariant
                            i <= rs.len(),
                            rv == members_view(rs@),
                            out@ == ref_lines(rv.take(i as int)),
                        decreases rs.len() - i,
                    {
                        proof {
                            assert(rv.take(i + 1).drop_last() =~= rv.take(i as int));
                            assert(rv.take(i + 1).last() == rv[i as int]);
                        }
                        out.append("\nref=");
                        out.append(rs[i].0.as_str());
                        i = i + 1;
                    }
                    proof { assert(rv.take(i as int) =~= rv); }
                    out
                },
                _ => out,
            }
        },
        _ => out,
    }
}

fn snapshot_text_of(payload: &Json, interactive: bool) -> (r: String)
    ensures
        r@ == snapshot_text(json_view(*payload), interactive),
{
    let url_key = ["url"];
    let body_keys = ["snapshot", "text"];
    proof {
        assert(keys_of(url_key@) =~= seq!["url"@]);
        assert(keys_of(body_keys@) =~= seq!["snapshot"@, "text"@]);
    }
    let url = match get_string(payload, &url_key) { Some(u) => u, None => String::new() };
    let body = match get_string(payload, &body_keys) { Some(t) => t, None => String::from_str("OK") };
    proof { reveal_strlit(""); assert(""@ =~= Seq::<char>::empty()); }
    if interactive && str_eq(url.as_str(), "about:blank") {
        String::from_str("about:blank\nNo interactive elements found; try `browser <surface> get url`.")
    } else if interactive {
        let mut t = body;
        let lines = ref_lines_of(payload);
        t.append(lines.as_str());
        t
    } else {
        body
    }
}

fn with_member_of(v: Json, key: &str, x: Json) -> (r: Json)
    ensures
        json_view(r) == with_member(json_view(v), key@, json_view(x)),
{
    match v {
        Json::Object(ms) => {
            proof { assert(json_view(Json::Object(ms))->Object_0 =~= members_view(ms@)); }
            let mut m = remove_member(ms, key);
            put(&mut m, key, x);
            object(m)
        },
        other => other,
    }
}

/// What follows the answer to a browser request; see `browser_step`.
pub enum BrowserStep {
    Show(Reply),
    Then(BrowserPlan),
    Keep(String),
}

pub open spec fn browser_step_view(s: BrowserStep) -> BrowserStepV {
    match s {
        BrowserStep::Show(r) => BrowserStepV::Show(reply_view(r)),
        BrowserStep::Then(p) => BrowserStepV::Then(BrowserPlanV {
            method: p.method@, params: members_view(p.params@), json: p.json, follow: follow_view(p.follow),
        }),
        BrowserStep::Keep(path) => BrowserStepV::Keep(path@),
    }
}

/// What follows the answer to a browser request; see `browser_step`.
pub fn next_step(plan: &BrowserPlan, payload: Json) -> (r: BrowserStep)
    ensures
        browser_step_view(r) == browser_step(
            BrowserPlanV { method: plan.method@, params: members_view(plan.params@), json: plan.json, follow: follow_view(plan.follow) },
            json_view(payload),
        ),
{
    match &plan.follow {
        Follow::ThenSnapshot(sid) => BrowserStep::Then(BrowserPlan {
            method: String::from_str("browser.snapshot"),
            params: one_member("surface_id", sid.clone()),
            json: plan.json,
            follow: Follow::Json,
        }),
        Follow::Screenshot(out) => {
            let path_key = ["path"];
            proof { assert(keys_of(path_key@) =~= seq!["path"@]); }
            let path = match out {
                Some(o) => o.clone(),
                None => match get_string(&payload, &path_key) {
                    Some(p) => p,
                    None => String::from_str("/tmp/chostty-browser-shot.png"),
                },
            };
            BrowserStep::Keep(path)
        },
        Follow::Json => BrowserStep::Show(Reply::Json(payload)),
        Follow::Text(keys, d) => if plan.json {
            BrowserStep::Show(Reply::Json(payload))
        } else {
            let t = match string_in(&payload, keys) { Some(t) => t, None => d.clone() };
            BrowserStep::Show(Reply::Text(t))
        },
        Follow::Fixed(t) => if plan.json {
            BrowserStep::Show(Reply::Json(payload))
        } else {
            BrowserStep::Show(Reply::Text(t.clone()))
        },
        Follow::Snapshot(i) => if plan.json {
            BrowserStep::Show(Reply::Json(payload))
        } else {
            BrowserStep::Show(Reply::Text(snapshot_text_of(&payload, *i)))
        },
    }
}

/// An action's answer shown with the snapshot taken after it; see
/// `with_snapshot`.
pub fn after_snapshot(json: bool, payload: Json, snap: Json) -> (r: Reply)
    ensures
        reply_view(r) == with_snapshot(json, json_view(payload), json_view(snap)),
{
    if json {
        Reply::Json(with_member_of(payload, "post_action_snapshot", snap))
    } else {
        let keys = ["snapshot", "text"];
        proof { assert(keys_of(keys@) =~= seq!["snapshot"@, "text"@]); }
        match get_string(&snap, &keys) {
            Some(t) => Reply::Text(t),
            None => Reply::Text(String::from_str("OK")),
        }
    }
}

/// A screenshot's answer once its file is kept at `path`; see `shot_reply`.
pub fn screenshot_reply(payload: Json, path: &str, out_given: bool, json: bool) -> (r: Reply)
    ensures
        reply_view(r) == shot_reply(json_view(payload), path@, out_given, json),
{
    if out_given {
        Reply::Text(concat2("OK ", path))
    } else if json {
        let named = with_member_of(with_member_of(payload, "path", text(path)), "url", string(concat2("file://", path)));
        match named {
            Json::Object(ms) => {
                proof { assert(json_view(Json::Object(ms))->Object_0 =~= members_view(ms@)); }
                Reply::Json(object(remove_member(ms, "png_base64")))
            },
            other => Reply::Json(other),
        }
    } else {
        Reply::Text(String::from_str(path))
    }
}

} // verus!
