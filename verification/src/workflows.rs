//! The client's commands that take more than one request, or work the host
//! does besides: `new-workspace`, `sidebar-state`, `tab-action` and the
//! tmux-compatible commands. Each is a function from what came back so far
//! to the next thing to do; the client does it and hands back the outcome.
use vstd::prelude::*;
use crate::json::{Json, JsonV, json_view, members_view, items_view, lookup, get, object, put, new_members, string, text, uint, boolean, jstr, juint, jbool};
use crate::cli::{
    args_view, option_value, parse_opt, parse_flag, trailing_words, trailing_title, string_at, get_string,
    keys_of, handle_in, handle_from_payload, signal_path, wait_signal_path,
};
use crate::commands::{Members, scoped, opt_member, or_else, opt_put, scope_put};
use crate::text::{trim, trim_str, contains, str_contains, str_eq, parse_u64, str_parse_u64};
use crate::control::opt_str_view;
use crate::control::browser::{Pairs, pairs_view, pair_get, pair_put, pair_value, pair_set};
use crate::control::palette::{pair_del, pair_remove};

verus! {

/// The next thing a command does.
pub enum StepV {
    /// Make this request. A failed request ends the command, unless it is
    /// marked tolerated: then its outcome is handed back as nothing.
    Call(Seq<char>, Members, bool),
    /// The command's answer.
    Done(JsonV),
    /// Run `git -C <dir> rev-parse --abbrev-ref HEAD`; hand back its output,
    /// or nothing when it fails.
    Branch(Seq<char>),
    /// Run the shell command with this input; a failure ends the command.
    Pipe(Seq<char>, Seq<char>),
    /// Write the signal file at this path.
    Signal(Seq<char>),
    /// Wait for the signal file at this path (and remove it), for at most
    /// this many seconds; a timeout ends the command.
    Await(Seq<char>, u64),
    /// Write this map to the named store.
    Save(Seq<char>, Pairs),
}

/// What each step so far handed back, in order.
pub type Outcomes = Seq<Option<JsonV>>;

pub open spec fn outcome(a: Outcomes, i: int) -> JsonV {
    if 0 <= i < a.len() { match a[i] { Some(j) => j, None => JsonV::Null } } else { JsonV::Null }
}

pub open spec fn call(method: Seq<char>, params: Members) -> StepV {
    StepV::Call(method, params, false)
}

/// One request, whose answer is the command's.
pub open spec fn one_call(method: Seq<char>, params: Members, a: Outcomes) -> Result<StepV, Seq<char>> {
    if a.len() == 0 { Ok(call(method, params)) } else { Ok(StepV::Done(outcome(a, 0))) }
}

pub open spec fn ok_json() -> JsonV {
    JsonV::Object(seq![("ok"@, jbool(true))])
}

pub open spec fn text_json(t: Seq<char>) -> JsonV {
    JsonV::Object(seq![("text"@, jstr(t))])
}

/// Lines joined by newlines.
pub open spec fn lines(l: Seq<Seq<char>>) -> Seq<char>
    decreases l.len(),
{
    if l.len() == 0 { Seq::empty() } else if l.len() == 1 { l[0] } else { lines(l.drop_last()) + "\n"@ + l.last() }
}

pub open spec fn keys_of_pairs(p: Pairs) -> Seq<Seq<char>> {
    p.map_values(|e: (Seq<char>, Seq<char>)| e.0)
}

pub open spec fn entry_lines(p: Pairs) -> Seq<Seq<char>> {
    p.map_values(|e: (Seq<char>, Seq<char>)| e.0 + "="@ + e.1)
}

/// The store a command reads (and may write), by name.
pub open spec fn store_of(command: Seq<char>) -> Option<Seq<char>> {
    if command == "set-hook"@ { Some("hooks"@) }
    else if command == "set-buffer"@ || command == "list-buffers"@ || command == "paste-buffer"@ { Some("buffers"@) }
    else { None }
}

/// The elements of an answer's array member, or none.
pub open spec fn rows_at(p: JsonV, key: Seq<char>) -> Seq<JsonV> {
    match p {
        JsonV::Object(ms) => match lookup(ms, key) {
            Some(JsonV::Array(rows)) => rows,
            _ => Seq::empty(),
        },
        _ => Seq::empty(),
    }
}

pub open spec fn bool_at(p: JsonV, key: Seq<char>) -> bool {
    match p {
        JsonV::Object(ms) => match lookup(ms, key) {
            Some(JsonV::Bool(b)) => b,
            _ => false,
        },
        _ => false,
    }
}

pub open spec fn member_or_null(p: JsonV, key: Seq<char>) -> JsonV {
    match p {
        JsonV::Object(ms) => match lookup(ms, key) { Some(v) => v, None => JsonV::Null },
        _ => JsonV::Null,
    }
}

/// The first workspace row whose title (or name) holds the text: its
/// handle and title.
pub open spec fn found_window(rows: Seq<JsonV>, needle: Seq<char>) -> Seq<char>
    decreases rows.len(),
{
    if rows.len() == 0 {
        Seq::empty()
    } else {
        let title = or_else(string_at(rows[0], seq!["title"@, "name"@]), Seq::empty());
        if contains(title, needle) {
            handle_in(rows[0], "workspace_id"@, "workspace_ref"@) + " "@ + title
        } else {
            found_window(rows.drop_first(), needle)
        }
    }
}

/// The first workspace row with this id or ref.
pub open spec fn matched_row(rows: Seq<JsonV>, w: Seq<char>) -> Option<JsonV>
    decreases rows.len(),
{
    if rows.len() == 0 {
        None
    } else {
        let id = or_else(string_at(rows[0], seq!["workspace_id"@, "id"@]), Seq::empty());
        let rf = or_else(string_at(rows[0], seq!["workspace_ref"@, "ref"@]), Seq::empty());
        if w == id || w == rf { Some(rows[0]) } else { matched_row(rows.drop_first(), w) }
    }
}

pub open spec fn row_handle(row: JsonV) -> Seq<char> {
    handle_in(row, "surface_id"@, "surface_ref"@)
}

/// The first focused (or selected) surface row with a handle.
pub open spec fn focused_row(rows: Seq<JsonV>) -> Option<Seq<char>>
    decreases rows.len(),
{
    if rows.len() == 0 {
        None
    } else if (bool_at(rows[0], "focused"@) || bool_at(rows[0], "selected"@)) && row_handle(rows[0]).len() > 0 {
        Some(row_handle(rows[0]))
    } else {
        focused_row(rows.drop_first())
    }
}

/// The surface a pane shows, from its `pane.surfaces` answer: the focused
/// one, else its first.
pub open spec fn selected_surface(p: JsonV) -> Result<Seq<char>, Seq<char>> {
    let rows = match p {
        JsonV::Object(ms) => match lookup(ms, "surfaces"@) {
            Some(JsonV::Array(rows)) => Some(rows),
            _ => None,
        },
        _ => None,
    };
    match rows {
        None => Err("pane.surfaces returned no surfaces"@),
        Some(rows) => match focused_row(rows) {
            Some(h) => Ok(h),
            None => if rows.len() == 0 {
                Err("pane has no surfaces"@)
            } else if row_handle(rows[0]).len() == 0 {
                Err("pane.surfaces returned an empty surface handle"@)
            } else {
                Ok(row_handle(rows[0]))
            },
        },
    }
}

/// The first argument that is no option.
pub open spec fn first_plain(args: Seq<Seq<char>>) -> Seq<char>
    decreases args.len(),
{
    if args.len() == 0 {
        Seq::empty()
    } else if args[0].len() > 0 && args[0][0] == '-' {
        first_plain(args.drop_first())
    } else {
        args[0]
    }
}

pub open spec fn resize_direction(args: Seq<Seq<char>>) -> Seq<char> {
    if args.contains("-R"@) { "right"@ }
    else if args.contains("-L"@) { "left"@ }
    else if args.contains("-D"@) { "down"@ }
    else if args.contains("-U"@) { "up"@ }
    else { "right"@ }
}

pub open spec fn read_screen_params(args: Seq<Seq<char>>) -> Members {
    opt_member(opt_member(Seq::empty(), "workspace_id"@, option_value(args, "--workspace"@)),
        "surface_id"@, option_value(args, "--surface"@))
}

pub open spec fn bad_lines(args: Seq<Seq<char>>) -> bool {
    match option_value(args, "--lines"@) {
        Some(l) => match parse_u64(l) { Some(n) => n == 0, None => true },
        None => false,
    }
}

/// `swap-pane`: the surfaces the two panes show change places.
pub open spec fn swap_pane(args: Seq<Seq<char>>, a: Outcomes) -> Result<StepV, Seq<char>> {
    let ws = option_value(args, "--workspace"@);
    match option_value(args, "--pane"@) {
        None => Err("swap-pane requires --pane"@),
        Some(pane) => match option_value(args, "--target-pane"@) {
            None => Err("swap-pane requires --target-pane"@),
            Some(target) => if a.len() == 0 {
                Ok(call("pane.surfaces"@, scoped(seq![("pane_id"@, jstr(pane))], ws)))
            } else {
                match selected_surface(outcome(a, 0)) {
                    Err(e) => Err(e),
                    Ok(source) => if a.len() == 1 {
                        Ok(call("pane.surfaces"@, scoped(seq![("pane_id"@, jstr(target))], ws)))
                    } else {
                        match selected_surface(outcome(a, 1)) {
                            Err(e) => Err(e),
                            Ok(dest) => if a.len() == 2 {
                                Ok(call("surface.move"@, scoped(seq![("surface_id"@, jstr(source)), ("target_pane_id"@, jstr(target)), ("index"@, juint(0))], ws)))
                            } else if a.len() == 3 {
                                Ok(call("surface.move"@, scoped(seq![("surface_id"@, jstr(dest)), ("target_pane_id"@, jstr(pane)), ("index"@, juint(0))], ws)))
                            } else {
                                Ok(StepV::Done(ok_json()))
                            },
                        }
                    },
                }
            },
        },
    }
}

/// `set-hook`: lists, unsets or sets a hook in the hooks store.
pub open spec fn hook_step(args: Seq<Seq<char>>, store: Pairs, store_path: Seq<char>, a: Outcomes) -> Result<StepV, Seq<char>> {
    if args.contains("--list"@) {
        Ok(StepV::Done(JsonV::Object(seq![("text"@, jstr(lines(entry_lines(store)))), ("path"@, jstr(store_path))])))
    } else {
        match option_value(args, "--unset"@) {
            Some(name) => if a.len() == 0 { Ok(StepV::Save("hooks"@, pair_del(store, name))) } else { Ok(StepV::Done(ok_json())) },
            None => {
                let name = first_plain(args);
                let body = or_else(trailing_words(args), Seq::empty());
                if name.len() == 0 || body.len() == 0 {
                    Err("set-hook requires <name> <command>"@)
                } else if a.len() == 0 {
                    Ok(StepV::Save("hooks"@, pair_put(store, name, body)))
                } else {
                    Ok(StepV::Done(ok_json()))
                }
            },
        }
    }
}

/// The tmux-compatible commands.
pub open spec fn tmux_step(command: Seq<char>, args: Seq<Seq<char>>, store: Pairs, store_path: Seq<char>, a: Outcomes) -> Result<StepV, Seq<char>> {
    let ws = option_value(args, "--workspace"@);
    let surface = option_value(args, "--surface"@);
    if command == "popup"@ || command == "bind-key"@ || command == "unbind-key"@ || command == "copy-mode"@ {
        Err("not supported"@)
    } else if command == "pipe-pane"@ {
        if bad_lines(args) {
            Err("--lines must be greater than 0"@)
        } else if a.len() == 0 {
            Ok(call("surface.read_text"@, read_screen_params(args)))
        } else {
            match option_value(args, "--command"@) {
                None => Err("pipe-pane requires --command"@),
                Some(cmd) => if a.len() == 1 {
                    Ok(StepV::Pipe(cmd, or_else(string_at(outcome(a, 0), seq!["text"@]), Seq::empty())))
                } else {
                    Ok(StepV::Done(ok_json()))
                },
            }
        }
    } else if command == "wait-for"@ {
        match trailing_words(args) {
            None => Err("wait-for requires a name"@),
            Some(name) => {
                let signal = args.contains("-S"@) || args.contains("--signal"@);
                let timeout: u64 = match option_value(args, "--timeout"@) {
                    Some(t) => match parse_u64(t) { Some(n) => n, None => 5 },
                    None => 5,
                };
                if a.len() == 0 {
                    Ok(if signal { StepV::Signal(signal_path(name)) } else { StepV::Await(signal_path(name), timeout) })
                } else {
                    Ok(StepV::Done(JsonV::Object(seq![("ok"@, jbool(true)), ("name"@, jstr(name))])))
                }
            },
        }
    } else if command == "find-window"@ {
        if a.len() == 0 {
            Ok(call("workspace.list"@, Seq::empty()))
        } else {
            let needle = or_else(trailing_words(args), Seq::empty());
            Ok(StepV::Done(text_json(found_window(rows_at(outcome(a, 0), "workspaces"@), needle))))
        }
    } else if command == "last-window"@ {
        one_call("workspace.last"@, Seq::empty(), a)
    } else if command == "next-window"@ {
        one_call("workspace.next"@, Seq::empty(), a)
    } else if command == "previous-window"@ {
        one_call("workspace.previous"@, Seq::empty(), a)
    } else if command == "swap-pane"@ {
        swap_pane(args, a)
    } else if command == "break-pane"@ {
        one_call("pane.break"@, scoped(opt_member(opt_member(Seq::empty(), "pane_id"@, option_value(args, "--pane"@)), "surface_id"@, surface), ws), a)
    } else if command == "join-pane"@ {
        match option_value(args, "--target-pane"@) {
            None => Err("join-pane requires --target-pane"@),
            Some(target) => one_call("pane.join"@, scoped(opt_member(opt_member(seq![("target_pane_id"@, jstr(target))],
                "pane_id"@, option_value(args, "--pane"@)), "surface_id"@, surface), ws), a),
        }
    } else if command == "last-pane"@ {
        one_call("pane.last"@, scoped(Seq::empty(), ws), a)
    } else if command == "clear-history"@ {
        one_call("surface.clear_history"@, scoped(opt_member(Seq::empty(), "surface_id"@, surface), ws), a)
    } else if command == "set-hook"@ {
        hook_step(args, store, store_path, a)
    } else if command == "resize-pane"@ {
        match option_value(args, "--pane"@) {
            None => Err("resize-pane requires --pane"@),
            Some(pane) => {
                let amount: u64 = match option_value(args, "--amount"@) {
                    Some(t) => match parse_u64(t) { Some(n) => n, None => 1 },
                    None => 1,
                };
                one_call("pane.resize"@, scoped(seq![("pane_id"@, jstr(pane)), ("direction"@, jstr(resize_direction(args))), ("amount"@, juint(amount))], ws), a)
            },
        }
    } else if command == "set-buffer"@ {
        match option_value(args, "--name"@) {
            None => Err("set-buffer requires --name"@),
            Some(name) => if a.len() == 0 {
                Ok(StepV::Save("buffers"@, pair_put(store, name, or_else(trailing_words(args), Seq::empty()))))
            } else {
                Ok(StepV::Done(ok_json()))
            },
        }
    } else if command == "list-buffers"@ {
        Ok(StepV::Done(text_json(lines(keys_of_pairs(store)))))
    } else if command == "paste-buffer"@ {
        match option_value(args, "--name"@) {
            None => Err("paste-buffer requires --name"@),
            Some(name) => one_call("surface.send_text"@, scoped(opt_member(Seq::empty(), "surface_id"@, surface)
                .push(("text"@, jstr(or_else(pair_get(store, name), Seq::empty())))), ws), a),
        }
    } else if command == "respawn-pane"@ {
        let cmd = or_else(option_value(args, "--command"@), Seq::empty());
        one_call("surface.send_text"@, scoped(opt_member(Seq::empty(), "surface_id"@, surface).push(("text"@, jstr(cmd + "\n"@))), ws), a)
    } else if command == "display-message"@ {
        Ok(StepV::Done(text_json(or_else(trailing_words(args), Seq::empty()))))
    } else {
        Err("unknown tmux command"@)
    }
}

/// `tab-action` usage.
pub open spec fn tab_help() -> Seq<char> {
    "Usage: chostty tab-action --action <name> [--workspace <id|ref>] [--tab <id|ref>] [--title <text>] [--url <url>]\nTarget tab:\n  --tab tab:<n>       Stable tab reference alias\n  --tab surface:<n>   Surface alias (legacy-compatible)\nExamples:\n  chostty tab-action --workspace workspace:2 --tab tab:1 --action pin\n  chostty tab-action --tab tab:3 --action mark-unread"@
}

/// A `tab.action` answer as shown: with the tab's ref when it has none, and
/// the pin state a pin or unpin sets.
pub open spec fn tab_answer(p: JsonV, action: Seq<char>, tab_ref: Seq<char>) -> JsonV {
    match p {
        JsonV::Object(ms) => {
            let m1 = if crate::cli::has_key(ms, "tab_ref"@) { ms } else { crate::browser_cli::set_member(ms, "tab_ref"@, jstr(tab_ref)) };
            let m2 = if action == "pin"@ {
                crate::browser_cli::set_member(m1, "pinned"@, jbool(true))
            } else if action == "unpin"@ {
                crate::browser_cli::set_member(m1, "pinned"@, jbool(false))
            } else {
                m1
            };
            JsonV::Object(m2)
        },
        _ => p,
    }
}

/// `sidebar-state`: the workspace, its directory and the directory's git branch.
pub open spec fn sidebar_flow(args: Seq<Seq<char>>, env_ws: Option<Seq<char>>, a: Outcomes) -> Option<Result<StepV, Seq<char>>> {
    let w = match option_value(args, "--workspace"@) { Some(w) => Some(w), None => env_ws };
    Some(match w {
        None => Err("sidebar-state requires --workspace <id|ref>"@),
        Some(w) => if a.len() == 0 {
            Ok(call("workspace.list"@, Seq::empty()))
        } else {
            let cwd = match matched_row(rows_at(outcome(a, 0), "workspaces"@), w) {
                Some(row) => match string_at(row, seq!["cwd"@]) { Some(c) => c, None => "none"@ },
                None => "none"@,
            };
            if cwd != "none"@ && a.len() == 1 {
                Ok(StepV::Branch(cwd))
            } else {
                let branch = if cwd == "none"@ {
                    "none"@
                } else {
                    match outcome(a, 1) { JsonV::Str(out) => trim(out), _ => "none"@ }
                };
                Ok(StepV::Done(JsonV::Object(seq![("workspace"@, jstr(w)), ("cwd"@, jstr(cwd)), ("git_branch"@, jstr(branch))])))
            }
        },
    })
}

/// `tab-action`: an action on a tab, or a new pane to its right.
pub open spec fn tab_flow(args: Seq<Seq<char>>, env_ws: Option<Seq<char>>, env_tab: Option<Seq<char>>, a: Outcomes) -> Option<Result<StepV, Seq<char>>> {
    Some(if args.contains("--help"@) {
        Ok(StepV::Done(JsonV::Object(seq![("help"@, jstr(tab_help()))])))
    } else {
        match option_value(args, "--action"@) {
            None => Err("tab-action requires --action <name>"@),
            Some(action) => {
                let w = match option_value(args, "--workspace"@) { Some(w) => Some(w), None => env_ws };
                let tab = match option_value(args, "--tab"@) { Some(t) => Some(t), None => env_tab };
                let tab_ref = or_else(tab, "tab:1"@);
                if action == "new-terminal-right"@ || action == "new-browser-right"@ {
                    let kind = if action == "new-browser-right"@ { "browser"@ } else { "terminal"@ };
                    if a.len() == 0 {
                        Ok(call("pane.create"@, scoped(opt_member(seq![("direction"@, jstr("right"@)), ("type"@, jstr(kind))],
                            "url"@, option_value(args, "--url"@)), w)))
                    } else {
                        Ok(StepV::Done(JsonV::Object(seq![
                            ("tab_ref"@, jstr(tab_ref)),
                            ("surface_id"@, member_or_null(outcome(a, 0), "surface_id"@)),
                            ("surface_ref"@, member_or_null(outcome(a, 0), "surface_ref"@)),
                        ])))
                    }
                } else if a.len() == 0 {
                    let title = match option_value(args, "--title"@) { Some(t) => Some(t), None => trailing_words(args) };
                    Ok(call("tab.action"@, opt_member(opt_member(opt_member(seq![("action"@, jstr(action))],
                        "workspace_id"@, w), "surface_id"@, tab), "title"@, title)))
                } else {
                    Ok(StepV::Done(tab_answer(outcome(a, 0), action, tab_ref)))
                }
            },
        }
    })
}

/// The next step of a command that takes several, or `None` for a command
/// that is not one of them.
pub open spec fn workflow(
    command: Seq<char>,
    args: Seq<Seq<char>>,
    env_ws: Option<Seq<char>>,
    env_tab: Option<Seq<char>>,
    store: Pairs,
    store_path: Seq<char>,
    a: Outcomes,
) -> Option<Result<StepV, Seq<char>>> {
    if command == "new-workspace"@ {
        Some(if a.len() == 0 {
            Ok(call("workspace.current"@, Seq::empty()))
        } else {
            match string_at(outcome(a, 0), seq!["workspace_id"@, "workspace_ref"@]) {
                None => Err("workspace.current returned no workspace handle"@),
                Some(original) => if a.len() == 1 {
                    Ok(call("workspace.create"@, opt_member(opt_member(Seq::empty(), "cwd"@, option_value(args, "--cwd"@)),
                        "command"@, option_value(args, "--command"@))))
                } else if a.len() == 2 {
                    Ok(StepV::Call("workspace.select"@, seq![("workspace_id"@, jstr(original))], true))
                } else {
                    Ok(StepV::Done(outcome(a, 1)))
                },
            }
        })
    } else if command == "sidebar-state"@ {
        sidebar_flow(args, env_ws, a)
    } else if command == "tab-action"@ {
        tab_flow(args, env_ws, env_tab, a)
    } else if is_tmux_command(command) {
        Some(tmux_step(command, args, store, store_path, a))
    } else {
        None
    }
}

pub open spec fn is_tmux_command(c: Seq<char>) -> bool {
    c == "pipe-pane"@ || c == "wait-for"@ || c == "find-window"@ || c == "last-window"@ || c == "next-window"@
        || c == "previous-window"@ || c == "swap-pane"@ || c == "break-pane"@ || c == "join-pane"@ || c == "last-pane"@
        || c == "clear-history"@ || c == "set-hook"@ || c == "resize-pane"@ || c == "set-buffer"@ || c == "list-buffers"@
        || c == "paste-buffer"@ || c == "respawn-pane"@ || c == "display-message"@ || c == "popup"@ || c == "bind-key"@
        || c == "unbind-key"@ || c == "copy-mode"@
}

} // verus!

verus! {

/// The next thing a command does; see `StepV`.
pub enum Step {
    Call(String, Vec<(String, Json)>, bool),
    Done(Json),
    Branch(String),
    Pipe(String, String),
    Signal(String),
    Await(String, u64),
    Save(String, Vec<(String, String)>),
}

pub open spec fn step_view(s: Step) -> StepV {
    match s {
        Step::Call(m, p, t) => StepV::Call(m@, members_view(p@), t),
        Step::Done(j) => StepV::Done(json_view(j)),
        Step::Branch(d) => StepV::Branch(d@),
        Step::Pipe(c, i) => StepV::Pipe(c@, i@),
        Step::Signal(p) => StepV::Signal(p@),
        Step::Await(p, n) => StepV::Await(p@, n),
        Step::Save(k, m) => StepV::Save(k@, pairs_view(m@)),
    }
}

pub open spec fn step_result_view(r: Result<Step, String>) -> Result<StepV, Seq<char>> {
    match r {
        Ok(s) => Ok(step_view(s)),
        Err(e) => Err(e@),
    }
}

pub open spec fn outcomes_view(a: Seq<Option<Json>>) -> Outcomes {
    a.map_values(|o: Option<Json>| match o { Some(j) => Some(json_view(j)), None => None })
}

fn outcome_of(a: &Vec<Option<Json>>, i: usize) -> (r: Json)
    ensures
        json_view(r) == outcome(outcomes_view(a@), i as int),
{
    if i < a.len() {
        match &a[i] {
            Some(j) => crate::json::clone_json(j),
            None => Json::Null,
        }
    } else {
        Json::Null
    }
}

fn calling(method: &str, m: Vec<(String, Json)>) -> (r: Result<Step, String>)
    ensures
        step_result_view(r) == Ok::<StepV, Seq<char>>(call(method@, members_view(m@))),
{
    Ok(Step::Call(String::from_str(method), m, false))
}

fn one_call_of(method: &str, m: Vec<(String, Json)>, a: &Vec<Option<Json>>) -> (r: Result<Step, String>)
    ensures
        step_result_view(r) == one_call(method@, members_view(m@), outcomes_view(a@)),
{
    if a.len() == 0 { calling(method, m) } else { Ok(Step::Done(outcome_of(a, 0))) }
}

fn fail(msg: &str) -> (r: Result<Step, String>)
    ensures
        step_result_view(r) == Err::<StepV, Seq<char>>(msg@),
{
    Err(String::from_str(msg))
}

fn none_members() -> (r: Vec<(String, Json)>)
    ensures
        members_view(r@) == Seq::<(Seq<char>, JsonV)>::empty(),
{
    let m = new_members();
    proof { assert(members_view(m@) =~= Seq::<(Seq<char>, JsonV)>::empty()); }
    m
}

fn with_str(m: Vec<(String, Json)>, key: &str, v: String) -> (r: Vec<(String, Json)>)
    ensures
        members_view(r@) == members_view(m@).push((key@, jstr(v@))),
{
    let mut m = m;
    let ghost before = members_view(m@);
    let ghost vv = v@;
    put(&mut m, key, string(v));
    proof { assert(members_view(m@) =~= before.push((key@, jstr(vv)))); }
    m
}

fn with_uint(m: Vec<(String, Json)>, key: &str, v: u64) -> (r: Vec<(String, Json)>)
    ensures
        members_view(r@) == members_view(m@).push((key@, juint(v))),
{
    let mut m = m;
    let ghost before = members_view(m@);
    put(&mut m, key, uint(v));
    proof { assert(members_view(m@) =~= before.push((key@, juint(v)))); }
    m
}

fn with_opt(m: Vec<(String, Json)>, key: &str, v: Option<String>) -> (r: Vec<(String, Json)>)
    ensures
        members_view(r@) == opt_member(members_view(m@), key@, opt_str_view(v)),
{
    let mut m = m;
    opt_put(&mut m, key, v);
    m
}

fn with_scope(m: Vec<(String, Json)>, ws: Option<String>) -> (r: Vec<(String, Json)>)
    ensures
        members_view(r@) == scoped(members_view(m@), opt_str_view(ws)),
{
    let mut m = m;
    scope_put(&mut m, ws);
    m
}

fn one_str(key: &str, v: String) -> (r: Vec<(String, Json)>)
    ensures
        members_view(r@) == seq![(key@, jstr(v@))],
{
    let r = with_str(none_members(), key, v);
    proof { assert(members_view(r@) =~= seq![(key@, jstr(v@))]); }
    r
}

fn json_of(m: Vec<(String, Json)>) -> (r: Json)
    ensures
        json_view(r) == JsonV::Object(members_view(m@)),
{
    proof { assert((json_view(Json::Object(m)))->Object_0 =~= members_view(m@)); }
    object(m)
}

fn ok_answer() -> (r: Json)
    ensures
        json_view(r) == ok_json(),
{
    let m = none_members();
    let mut m = m;
    put(&mut m, "ok", boolean(true));
    proof { assert(members_view(m@) =~= (ok_json())->Object_0); }
    object(m)
}

fn text_answer(t: String) -> (r: Json)
    ensures
        json_view(r) == text_json(t@),
{
    let m = one_str("text", t);
    json_of(m)
}

fn text_or_empty(o: Option<String>) -> (r: String)
    ensures
        r@ == or_else(opt_str_view(o), Seq::empty()),
{
    match o {
        Some(t) => t,
        None => {
            let e = String::new();
            proof { assert(e@ =~= Seq::<char>::empty()); }
            e
        },
    }
}

fn lines_of(l: &Vec<String>) -> (r: String)
    ensures
        r@ == lines(args_view(l@)),
{
    let ghost v = args_view(l@);
    let mut out = String::new();
    let mut i: usize = 0;
    proof { assert(v.take(0) =~= Seq::<Seq<char>>::empty()); assert(out@ =~= Seq::<char>::empty()); }
    while i < l.len()
        invariant
            i <= l.len(),
            v == args_view(l@),
            out@ == lines(v.take(i as int)),
        decreases l.len() - i,
    {
        let ghost t = v.take(i + 1);
        proof { assert(t.drop_last() =~= v.take(i as int)); assert(t.last() == l@[i as int]@); }
        if i > 0 {
            out.append("\n");
        }
        out.append(l[i].as_str());
        proof {
            if i == 0 { assert(t =~= seq![l@[0]@]); assert(out@ =~= l@[0]@); }
            assert(out@ =~= lines(t));
        }
        i = i + 1;
    }
    proof { assert(v.take(i as int) =~= v); }
    out
}

fn store_keys(store: &Vec<(String, String)>, with_values: bool) -> (r: Vec<String>)
    ensures
        with_values ==> args_view(r@) == entry_lines(pairs_view(store@)),
        !with_values ==> args_view(r@) == keys_of_pairs(pairs_view(store@)),
{
    let ghost pv = pairs_view(store@);
    let mut out: Vec<String> = Vec::new();
    let mut i: usize = 0;
    while i < store.len()
        invariant
            i <= store.len(),
            pv == pairs_view(store@),
            with_values ==> args_view(out@) == entry_lines(pv.take(i as int)),
            !with_values ==> args_view(out@) == keys_of_pairs(pv.take(i as int)),
        decreases store.len() - i,
    {
        let ghost before = args_view(out@);
        let mut line = store[i].0.clone();
        if with_values {
            line.append("=");
            line.append(store[i].1.as_str());
        }
        out.push(line);
        proof {
            assert(pv[i as int] == (store@[i as int].0@, store@[i as int].1@));
            assert(args_view(out@) =~= before.push(line@));
            assert(pv.take(i + 1) =~= pv.take(i as int).push(pv[i as int]));
            assert(entry_lines(pv.take(i + 1)) =~= entry_lines(pv.take(i as int)).push(pv[i as int].0 + "="@ + pv[i as int].1));
            assert(keys_of_pairs(pv.take(i + 1)) =~= keys_of_pairs(pv.take(i as int)).push(pv[i as int].0));
        }
        i = i + 1;
    }
    proof { assert(pv.take(i as int) =~= pv); }
    out
}

fn copy_store(store: &Vec<(String, String)>) -> (r: Vec<(String, String)>)
    ensures
        pairs_view(r@) == pairs_view(store@),
{
    let mut out: Vec<(String, String)> = Vec::new();
    let mut i: usize = 0;
    while i < store.len()
        invariant
            i <= store.len(),
            pairs_view(out@) == pairs_view(store@.take(i as int)),
        decreases store.len() - i,
    {
        let ghost before = pairs_view(out@);
        out.push((store[i].0.clone(), store[i].1.clone()));
        proof {
            assert(store@.take(i + 1) =~= store@.take(i as int).push(store@[i as int]));
            assert(pairs_view(out@) =~= before.push((store@[i as int].0@, store@[i as int].1@)));
            assert(pairs_view(out@) =~= pairs_view(store@.take(i + 1)));
        }
        i = i + 1;
    }
    proof { assert(store@.take(i as int) =~= store@); }
    out
}

fn rows_ref<'a>(p: &'a Json, key: &str) -> (r: Option<&'a Vec<Json>>)
    ensures
        match r {
            Some(v) => (match json_view(*p) {
                JsonV::Object(ms) => lookup(ms, key@) == Some(JsonV::Array(items_view(v@))),
                _ => false,
            }),
            None => (match json_view(*p) {
                JsonV::Object(ms) => !(lookup(ms, key@) matches Some(JsonV::Array(_))),
                _ => true,
            }),
        },
{
    match p {
        Json::Object(ms) => {
            proof { assert(json_view(*p)->Object_0 =~= members_view(ms@)); }
            match get(ms, key) {
                Some(Json::Array(v)) => {
                    proof { assert(json_view(Json::Array(*v))->Array_0 =~= items_view(v@)); }
                    Some(v)
                },
                _ => None,
            }
        },
        _ => None,
    }
}

fn bool_at_of(p: &Json, key: &str) -> (r: bool)
    ensures
        r == bool_at(json_view(*p), key@),
{
    match p {
        Json::Object(ms) => {
            proof { assert(json_view(*p)->Object_0 =~= members_view(ms@)); }
            match get(ms, key) {
                Some(Json::Bool(b)) => *b,
                _ => false,
            }
        },
        _ => false,
    }
}

fn member_or_null_of(p: &Json, key: &str) -> (r: Json)
    ensures
        json_view(r) == member_or_null(json_view(*p), key@),
{
    match p {
        Json::Object(ms) => {
            proof { assert(json_view(*p)->Object_0 =~= members_view(ms@)); }
            match get(ms, key) {
                Some(v) => crate::json::clone_json(v),
                None => Json::Null,
            }
        },
        _ => Json::Null,
    }
}

fn found_window_of(rows: &Vec<Json>, needle: &str) -> (r: String)
    ensures
        r@ == found_window(items_view(rows@), needle@),
{
    let ghost rv = items_view(rows@);
    let mut i: usize = 0;
    proof { assert(rv.skip(0) =~= rv); }
    while i < rows.len()
        invariant
            i <= rows.len(),
            rv == items_view(rows@),
            found_window(rv, needle@) == found_window(rv.skip(i as int), needle@),
        decreases rows.len() - i,
    {
        proof {
            assert(rv.skip(i as int)[0] == json_view(rows@[i as int]));
            assert(rv.skip(i as int).drop_first() =~= rv.skip(i + 1));
        }
        let keys = ["title", "name"];
        proof { assert(keys_of(keys@) =~= seq!["title"@, "name"@]); }
        let title = text_or_empty(get_string(&rows[i], &keys));
        if str_contains(title.as_str(), needle) {
            let mut out = handle_from_payload(&rows[i], "workspace_id", "workspace_ref");
            out.append(" ");
            out.append(title.as_str());
            return out;
        }
        i = i + 1;
    }
    proof { assert(rv.skip(i as int) =~= Seq::<JsonV>::empty()); }
    let e = String::new();
    proof { assert(e@ =~= Seq::<char>::empty()); }
    e
}

/// The `cwd` of the first workspace row with this id or ref (`none` when
/// there is no such row or it has none).
fn matched_cwd(rows: &Vec<Json>, w: &str) -> (r: String)
    ensures
        r@ == (match matched_row(items_view(rows@), w@) {
            Some(row) => match string_at(row, seq!["cwd"@]) { Some(c) => c, None => "none"@ },
            None => "none"@,
        }),
{
    let ghost rv = items_view(rows@);
    let mut i: usize = 0;
    proof { assert(rv.skip(0) =~= rv); }
    let ik = ["workspace_id", "id"];
    let rk = ["workspace_ref", "ref"];
    let ck = ["cwd"];
    proof {
        assert(keys_of(ik@) =~= seq!["workspace_id"@, "id"@]);
        assert(keys_of(rk@) =~= seq!["workspace_ref"@, "ref"@]);
        assert(keys_of(ck@) =~= seq!["cwd"@]);
    }
    while i < rows.len()
        invariant
            i <= rows.len(),
            rv == items_view(rows@),
            keys_of(ik@) == seq!["workspace_id"@, "id"@],
            keys_of(rk@) == seq!["workspace_ref"@, "ref"@],
            keys_of(ck@) == seq!["cwd"@],
            matched_row(rv, w@) == matched_row(rv.skip(i as int), w@),
        decreases rows.len() - i,
    {
        proof {
            assert(rv.skip(i as int)[0] == json_view(rows@[i as int]));
            assert(rv.skip(i as int).drop_first() =~= rv.skip(i + 1));
        }
        let id = text_or_empty(get_string(&rows[i], &ik));
        let rf = text_or_empty(get_string(&rows[i], &rk));
        if str_eq(w, id.as_str()) || str_eq(w, rf.as_str()) {
            return match get_string(&rows[i], &ck) { Some(c) => c, None => String::from_str("none") };
        }
        i = i + 1;
    }
    proof { assert(rv.skip(i as int) =~= Seq::<JsonV>::empty()); }
    String::from_str("none")
}

fn selected_surface_of(p: &Json) -> (r: Result<String, String>)
    ensures
        match r {
            Ok(h) => selected_surface(json_view(*p)) == Ok::<Seq<char>, Seq<char>>(h@),
            Err(e) => selected_surface(json_view(*p)) == Err::<Seq<char>, Seq<char>>(e@),
        },
{
    let rows = match rows_ref(p, "surfaces") {
        Some(v) => v,
        None => return Err(String::from_str("pane.surfaces returned no surfaces")),
    };
    let ghost rv = items_view(rows@);
    let mut i: usize = 0;
    proof { assert(rv.skip(0) =~= rv); }
    while i < rows.len()
        invariant
            i <= rows.len(),
            rv == items_view(rows@),
            focused_row(rv) == focused_row(rv.skip(i as int)),
            (match json_view(*p) { JsonV::Object(ms) => lookup(ms, "surfaces"@) == Some(JsonV::Array(rv)), _ => false }),
        decreases rows.len() - i,
    {
        proof {
            assert(rv.skip(i as int)[0] == json_view(rows@[i as int]));
            assert(rv.skip(i as int).drop_first() =~= rv.skip(i + 1));
        }
        let h = handle_from_payload(&rows[i], "surface_id", "surface_ref");
        if (bool_at_of(&rows[i], "focused") || bool_at_of(&rows[i], "selected")) && h.unicode_len() > 0 {
            proof {
                let t = rv.skip(i as int);
                assert(row_handle(t[0]) == h@);
                assert(focused_row(t) == Some(h@));
            }
            return Ok(h);
        }
        i = i + 1;
    }
    proof { assert(rv.skip(i as int) =~= Seq::<JsonV>::empty()); }
    if rows.len() == 0 {
        return Err(String::from_str("pane has no surfaces"));
    }
    proof { assert(rv[0] == json_view(rows@[0])); }
    let h = handle_from_payload(&rows[0], "surface_id", "surface_ref");
    if h.unicode_len() == 0 {
        Err(String::from_str("pane.surfaces returned an empty surface handle"))
    } else {
        Ok(h)
    }
}

fn first_plain_of(args: &[String]) -> (r: String)
    ensures
        r@ == first_plain(args_view(args@)),
{
    let ghost av = args_view(args@);
    let mut i: usize = 0;
    proof { assert(av.skip(0) =~= av); }
    while i < args.len()
        invariant
            i <= args.len(),
            av == args_view(args@),
            first_plain(av) == first_plain(av.skip(i as int)),
        decreases args.len() - i,
    {
        proof {
            assert(av.skip(i as int)[0] == args@[i as int]@);
            assert(av.skip(i as int).drop_first() =~= av.skip(i + 1));
        }
        let w = args[i].as_str();
        if !(w.unicode_len() > 0 && w.get_char(0) == '-') {
            return args[i].clone();
        }
        i = i + 1;
    }
    proof { assert(av.skip(i as int) =~= Seq::<Seq<char>>::empty()); }
    let e = String::new();
    proof { assert(e@ =~= Seq::<char>::empty()); }
    e
}

fn parse_or(o: Option<String>, d: u64) -> (r: u64)
    ensures
        r == (match opt_str_view(o) { Some(t) => match parse_u64(t) { Some(n) => n, None => d }, None => d }),
{
    match o {
        Some(t) => match str_parse_u64(t.as_str()) { Some(n) => n, None => d },
        None => d,
    }
}

} // verus!

verus! {

fn read_screen_members(args: &[String]) -> (r: Vec<(String, Json)>)
    ensures
        members_view(r@) == read_screen_params(args_view(args@)),
{
    with_opt(with_opt(none_members(), "workspace_id", parse_opt(args, "--workspace")), "surface_id", parse_opt(args, "--surface"))
}

fn lines_bad(args: &[String]) -> (r: bool)
    ensures
        r == bad_lines(args_view(args@)),
{
    match parse_opt(args, "--lines") {
        Some(l) => match str_parse_u64(l.as_str()) { Some(n) => n == 0, None => true },
        None => false,
    }
}

fn name_answer(name: String) -> (r: Json)
    ensures
        json_view(r) == JsonV::Object(seq![("ok"@, jbool(true)), ("name"@, jstr(name@))]),
{
    let ghost nv = name@;
    let mut m = none_members();
    put(&mut m, "ok", boolean(true));
    put(&mut m, "name", string(name));
    proof { assert(members_view(m@) =~= seq![("ok"@, jbool(true)), ("name"@, jstr(nv))]); }
    object(m)
}

fn swap_pane_step(args: &[String], a: &Vec<Option<Json>>) -> (r: Result<Step, String>)
    ensures
        step_result_view(r) == swap_pane(args_view(args@), outcomes_view(a@)),
{
    let ghost av = args_view(args@);
    let ws = parse_opt(args, "--workspace");
    let pane = match parse_opt(args, "--pane") { Some(p) => p, None => return fail("swap-pane requires --pane") };
    let target = match parse_opt(args, "--target-pane") { Some(t) => t, None => return fail("swap-pane requires --target-pane") };
    if a.len() == 0 {
        return calling("pane.surfaces", with_scope(one_str("pane_id", pane), ws));
    }
    let first = outcome_of(a, 0);
    let source = match selected_surface_of(&first) { Ok(h) => h, Err(e) => return Err(e) };
    if a.len() == 1 {
        return calling("pane.surfaces", with_scope(one_str("pane_id", target), ws));
    }
    let second = outcome_of(a, 1);
    let dest = match selected_surface_of(&second) { Ok(h) => h, Err(e) => return Err(e) };
    if a.len() == 2 {
        let ghost sv = source@;
        let ghost tv = target@;
        let m = with_uint(with_str(one_str("surface_id", source), "target_pane_id", target), "index", 0);
        proof { assert(members_view(m@) =~= seq![("surface_id"@, jstr(sv)), ("target_pane_id"@, jstr(tv)), ("index"@, juint(0))]); }
        calling("surface.move", with_scope(m, ws))
    } else if a.len() == 3 {
        let ghost dv = dest@;
        let ghost pv = pane@;
        let m = with_uint(with_str(one_str("surface_id", dest), "target_pane_id", pane), "index", 0);
        proof { assert(members_view(m@) =~= seq![("surface_id"@, jstr(dv)), ("target_pane_id"@, jstr(pv)), ("index"@, juint(0))]); }
        calling("surface.move", with_scope(m, ws))
    } else {
        Ok(Step::Done(ok_answer()))
    }
}

fn hook_store_step(args: &[String], store: &Vec<(String, String)>, store_path: &str, a: &Vec<Option<Json>>) -> (r: Result<Step, String>)
    ensures
        step_result_view(r) == hook_step(args_view(args@), pairs_view(store@), store_path@, outcomes_view(a@)),
{
    if parse_flag(args, "--list") {
        let ls = store_keys(store, true);
        let t = lines_of(&ls);
        let ghost tv = t@;
        let m = with_str(one_str("text", t), "path", String::from_str(store_path));
        proof { assert(members_view(m@) =~= seq![("text"@, jstr(tv)), ("path"@, jstr(store_path@))]); }
        return Ok(Step::Done(json_of(m)));
    }
    match parse_opt(args, "--unset") {
        Some(name) => if a.len() == 0 {
            Ok(Step::Save(String::from_str("hooks"), pair_remove(store, name.as_str())))
        } else {
            Ok(Step::Done(ok_answer()))
        },
        None => {
            let name = first_plain_of(args);
            let body = text_or_empty(trailing_title(args));
            if name.unicode_len() == 0 || body.unicode_len() == 0 {
                fail("set-hook requires <name> <command>")
            } else if a.len() == 0 {
                let mut m = copy_store(store);
                pair_set(&mut m, name, body);
                Ok(Step::Save(String::from_str("hooks"), m))
            } else {
                Ok(Step::Done(ok_answer()))
            }
        },
    }
}

/// The next step of a tmux-compatible command; see `tmux_step`.
fn tmux_step_of(command: &str, args: &[String], store: &Vec<(String, String)>, store_path: &str, a: &Vec<Option<Json>>) -> (r: Result<Step, String>)
    ensures
        step_result_view(r) == tmux_step(command@, args_view(args@), pairs_view(store@), store_path@, outcomes_view(a@)),
{
    let ws = parse_opt(args, "--workspace");
    let surface = parse_opt(args, "--surface");
    if str_eq(command, "popup") || str_eq(command, "bind-key") || str_eq(command, "unbind-key") || str_eq(command, "copy-mode") {
        fail("not supported")
    } else if str_eq(command, "pipe-pane") {
        if lines_bad(args) {
            fail("--lines must be greater than 0")
        } else if a.len() == 0 {
            calling("surface.read_text", read_screen_members(args))
        } else {
            match parse_opt(args, "--command") {
                None => fail("pipe-pane requires --command"),
                Some(cmd) => if a.len() == 1 {
                    let first = outcome_of(a, 0);
                    let k = ["text"];
                    proof { assert(keys_of(k@) =~= seq!["text"@]); }
                    Ok(Step::Pipe(cmd, text_or_empty(get_string(&first, &k))))
                } else {
                    Ok(Step::Done(ok_answer()))
                },
            }
        }
    } else if str_eq(command, "wait-for") {
        match trailing_title(args) {
            None => fail("wait-for requires a name"),
            Some(name) => {
                let signal = parse_flag(args, "-S") || parse_flag(args, "--signal");
                let timeout = parse_or(parse_opt(args, "--timeout"), 5);
                if a.len() == 0 {
                    let path = wait_signal_path(name.as_str());
                    Ok(if signal { Step::Signal(path) } else { Step::Await(path, timeout) })
                } else {
                    Ok(Step::Done(name_answer(name)))
                }
            },
        }
    } else if str_eq(command, "find-window") {
        if a.len() == 0 {
            calling("workspace.list", none_members())
        } else {
            let needle = text_or_empty(trailing_title(args));
            let first = outcome_of(a, 0);
            let found = match rows_ref(&first, "workspaces") {
                Some(rows) => found_window_of(rows, needle.as_str()),
                None => {
                    let e = String::new();
                    proof { assert(e@ =~= Seq::<char>::empty()); }
                    e
                },
            };
            Ok(Step::Done(text_answer(found)))
        }
    } else if str_eq(command, "last-window") {
        one_call_of("workspace.last", none_members(), a)
    } else if str_eq(command, "next-window") {
        one_call_of("workspace.next", none_members(), a)
    } else if str_eq(command, "previous-window") {
        one_call_of("workspace.previous", none_members(), a)
    } else if str_eq(command, "swap-pane") {
        swap_pane_step(args, a)
    } else if str_eq(command, "break-pane") {
        one_call_of("pane.break", with_scope(with_opt(with_opt(none_members(), "pane_id", parse_opt(args, "--pane")), "surface_id", surface), ws), a)
    } else if str_eq(command, "join-pane") {
        match parse_opt(args, "--target-pane") {
            None => fail("join-pane requires --target-pane"),
            Some(target) => one_call_of("pane.join", with_scope(with_opt(with_opt(one_str("target_pane_id", target),
                "pane_id", parse_opt(args, "--pane")), "surface_id", surface), ws), a),
        }
    } else if str_eq(command, "last-pane") {
        one_call_of("pane.last", with_scope(none_members(), ws), a)
    } else if str_eq(command, "clear-history") {
        one_call_of("surface.clear_history", with_scope(with_opt(none_members(), "surface_id", surface), ws), a)
    } else if str_eq(command, "set-hook") {
        hook_store_step(args, store, store_path, a)
    } else if str_eq(command, "resize-pane") {
        match parse_opt(args, "--pane") {
            None => fail("resize-pane requires --pane"),
            Some(pane) => {
                let amount = parse_or(parse_opt(args, "--amount"), 1);
                let dir = if parse_flag(args, "-R") { "right" } else if parse_flag(args, "-L") { "left" }
                    else if parse_flag(args, "-D") { "down" } else if parse_flag(args, "-U") { "up" } else { "right" };
                let ghost pv = pane@;
                let m = with_uint(with_str(one_str("pane_id", pane), "direction", String::from_str(dir)), "amount", amount);
                proof {
                    assert(dir@ == resize_direction(args_view(args@)));
                    assert(members_view(m@) =~= seq![("pane_id"@, jstr(pv)), ("direction"@, jstr(dir@)), ("amount"@, juint(amount))]);
                }
                one_call_of("pane.resize", with_scope(m, ws), a)
            },
        }
    } else if str_eq(command, "set-buffer") {
        match parse_opt(args, "--name") {
            None => fail("set-buffer requires --name"),
            Some(name) => if a.len() == 0 {
                let mut m = copy_store(store);
                pair_set(&mut m, name, text_or_empty(trailing_title(args)));
                Ok(Step::Save(String::from_str("buffers"), m))
            } else {
                Ok(Step::Done(ok_answer()))
            },
        }
    } else if str_eq(command, "list-buffers") {
        let ks = store_keys(store, false);
        Ok(Step::Done(text_answer(lines_of(&ks))))
    } else if str_eq(command, "paste-buffer") {
        match parse_opt(args, "--name") {
            None => fail("paste-buffer requires --name"),
            Some(name) => {
                let body = text_or_empty(pair_value(store, name.as_str()));
                one_call_of("surface.send_text", with_scope(with_str(with_opt(none_members(), "surface_id", surface), "text", body), ws), a)
            },
        }
    } else if str_eq(command, "respawn-pane") {
        let mut cmd = text_or_empty(parse_opt(args, "--command"));
        cmd.append("\n");
        one_call_of("surface.send_text", with_scope(with_str(with_opt(none_members(), "surface_id", surface), "text", cmd), ws), a)
    } else if str_eq(command, "display-message") {
        Ok(Step::Done(text_answer(text_or_empty(trailing_title(args)))))
    } else {
        fail("unknown tmux command")
    }
}

} // verus!

verus! {

pub open spec fn step_opt_view(r: Option<Result<Step, String>>) -> Option<Result<StepV, Seq<char>>> {
    match r {
        Some(x) => Some(step_result_view(x)),
        None => None,
    }
}

fn or_env(o: Option<String>, env: Option<&str>) -> (r: Option<String>)
    ensures
        opt_str_view(r) == (match opt_str_view(o) { Some(w) => Some(w), None => crate::control::str_opt(env) }),
{
    match o {
        Some(w) => Some(w),
        None => match env {
            Some(e) => Some(String::from_str(e)),
            None => None,
        },
    }
}

fn new_workspace_step(args: &[String], a: &Vec<Option<Json>>) -> (r: Result<Step, String>)
    ensures
        Some(step_result_view(r)) == workflow("new-workspace"@, args_view(args@), None, None, Seq::empty(), Seq::empty(), outcomes_view(a@)),
{
    if a.len() == 0 {
        return calling("workspace.current", none_members());
    }
    let first = outcome_of(a, 0);
    let k = ["workspace_id", "workspace_ref"];
    proof { assert(keys_of(k@) =~= seq!["workspace_id"@, "workspace_ref"@]); }
    match get_string(&first, &k) {
        None => fail("workspace.current returned no workspace handle"),
        Some(original) => if a.len() == 1 {
            calling("workspace.create", with_opt(with_opt(none_members(), "cwd", parse_opt(args, "--cwd")), "command", parse_opt(args, "--command")))
        } else if a.len() == 2 {
            Ok(Step::Call(String::from_str("workspace.select"), one_str("workspace_id", original), true))
        } else {
            Ok(Step::Done(outcome_of(a, 1)))
        },
    }
}

fn sidebar_state_step(args: &[String], env_ws: Option<&str>, a: &Vec<Option<Json>>) -> (r: Result<Step, String>)
    ensures
        Some(step_result_view(r)) == sidebar_flow(args_view(args@), crate::control::str_opt(env_ws), outcomes_view(a@)),
{
    let w = match or_env(parse_opt(args, "--workspace"), env_ws) {
        Some(w) => w,
        None => return fail("sidebar-state requires --workspace <id|ref>"),
    };
    if a.len() == 0 {
        return calling("workspace.list", none_members());
    }
    let first = outcome_of(a, 0);
    let cwd = match rows_ref(&first, "workspaces") {
        Some(rows) => matched_cwd(rows, w.as_str()),
        None => String::from_str("none"),
    };
    let known = !str_eq(cwd.as_str(), "none");
    if known && a.len() == 1 {
        return Ok(Step::Branch(cwd));
    }
    let branch = if !known {
        String::from_str("none")
    } else {
        match outcome_of(a, 1) {
            Json::Str(out) => String::from_str(trim_str(out.as_str())),
            _ => String::from_str("none"),
        }
    };
    let ghost wv = w@;
    let ghost cv = cwd@;
    let ghost bv = branch@;
    let m = with_str(with_str(one_str("workspace", w), "cwd", cwd), "git_branch", branch);
    proof { assert(members_view(m@) =~= seq![("workspace"@, jstr(wv)), ("cwd"@, jstr(cv)), ("git_branch"@, jstr(bv))]); }
    Ok(Step::Done(json_of(m)))
}

fn tab_answer_of(p: Json, action: &str, tab_ref: String) -> (r: Json)
    ensures
        json_view(r) == tab_answer(json_view(p), action@, tab_ref@),
{
    match p {
        Json::Object(ms) => {
            proof { assert(json_view(Json::Object(ms))->Object_0 =~= members_view(ms@)); }
            let mut m = ms;
            if !crate::cli::has_member(&m, "tab_ref") {
                m = crate::cli::remove_member(m, "tab_ref");
                put(&mut m, "tab_ref", string(tab_ref));
            }
            if str_eq(action, "pin") {
                m = crate::cli::remove_member(m, "pinned");
                put(&mut m, "pinned", boolean(true));
            } else if str_eq(action, "unpin") {
                m = crate::cli::remove_member(m, "pinned");
                put(&mut m, "pinned", boolean(false));
            }
            json_of(m)
        },
        other => other,
    }
}

fn tab_action_step(args: &[String], env_ws: Option<&str>, env_tab: Option<&str>, a: &Vec<Option<Json>>) -> (r: Result<Step, String>)
    ensures
        Some(step_result_view(r)) == tab_flow(args_view(args@), crate::control::str_opt(env_ws), crate::control::str_opt(env_tab), outcomes_view(a@)),
{
    if parse_flag(args, "--help") {
        let h = String::from_str("Usage: chostty tab-action --action <name> [--workspace <id|ref>] [--tab <id|ref>] [--title <text>] [--url <url>]\nTarget tab:\n  --tab tab:<n>       Stable tab reference alias\n  --tab surface:<n>   Surface alias (legacy-compatible)\nExamples:\n  chostty tab-action --workspace workspace:2 --tab tab:1 --action pin\n  chostty tab-action --tab tab:3 --action mark-unread");
        return Ok(Step::Done(json_of(one_str("help", h))));
    }
    let action = match parse_opt(args, "--action") {
        Some(x) => x,
        None => return fail("tab-action requires --action <name>"),
    };
    let w = or_env(parse_opt(args, "--workspace"), env_ws);
    let tab = or_env(parse_opt(args, "--tab"), env_tab);
    let tab_ref = match &tab { Some(t) => t.clone(), None => String::from_str("tab:1") };
    if str_eq(action.as_str(), "new-terminal-right") || str_eq(action.as_str(), "new-browser-right") {
        let kind = if str_eq(action.as_str(), "new-browser-right") { "browser" } else { "terminal" };
        if a.len() == 0 {
            let base = with_str(one_str("direction", String::from_str("right")), "type", String::from_str(kind));
            proof { assert(members_view(base@) =~= seq![("direction"@, jstr("right"@)), ("type"@, jstr(kind@))]); }
            calling("pane.create", with_scope(with_opt(base, "url", parse_opt(args, "--url")), w))
        } else {
            let first = outcome_of(a, 0);
            let ghost tv = tab_ref@;
            let sid = member_or_null_of(&first, "surface_id");
            let sref = member_or_null_of(&first, "surface_ref");
            let ghost sv = json_view(sid);
            let ghost rv = json_view(sref);
            let mut m = one_str("tab_ref", tab_ref);
            put(&mut m, "surface_id", sid);
            put(&mut m, "surface_ref", sref);
            proof { assert(members_view(m@) =~= seq![("tab_ref"@, jstr(tv)), ("surface_id"@, sv), ("surface_ref"@, rv)]); }
            Ok(Step::Done(json_of(m)))
        }
    } else if a.len() == 0 {
        let title = match parse_opt(args, "--title") { Some(t) => Some(t), None => trailing_title(args) };
        calling("tab.action", with_opt(with_opt(with_opt(one_str("action", action), "workspace_id", w), "surface_id", tab), "title", title))
    } else {
        Ok(Step::Done(tab_answer_of(outcome_of(a, 0), action.as_str(), tab_ref)))
    }
}

/// Whether a command is one of the tmux-compatible ones.
pub fn is_tmux_name(c: &str) -> (r: bool)
    ensures
        r == is_tmux_command(c@),
{
    str_eq(c, "pipe-pane") || str_eq(c, "wait-for") || str_eq(c, "find-window") || str_eq(c, "last-window")
        || str_eq(c, "next-window") || str_eq(c, "previous-window") || str_eq(c, "swap-pane") || str_eq(c, "break-pane")
        || str_eq(c, "join-pane") || str_eq(c, "last-pane") || str_eq(c, "clear-history") || str_eq(c, "set-hook")
        || str_eq(c, "resize-pane") || str_eq(c, "set-buffer") || str_eq(c, "list-buffers") || str_eq(c, "paste-buffer")
        || str_eq(c, "respawn-pane") || str_eq(c, "display-message") || str_eq(c, "popup") || str_eq(c, "bind-key")
        || str_eq(c, "unbind-key") || str_eq(c, "copy-mode")
}

/// The store a command reads, by name; see `store_of`.
pub fn store_name(command: &str) -> (r: Option<&'static str>)
    ensures
        crate::control::str_opt(r) == store_of(command@),
{
    if str_eq(command, "set-hook") {
        Some("hooks")
    } else if str_eq(command, "set-buffer") || str_eq(command, "list-buffers") || str_eq(command, "paste-buffer") {
        Some("buffers")
    } else {
        None
    }
}

/// The next step of a command that takes several, given what its steps so
/// far handed back; `None` for any other command. See `workflow`.
pub fn workflow_step(
    command: &str,
    args: &[String],
    env_ws: Option<&str>,
    env_tab: Option<&str>,
    store: &Vec<(String, String)>,
    store_path: &str,
    a: &Vec<Option<Json>>,
) -> (r: Option<Result<Step, String>>)
    ensures
        step_opt_view(r) == workflow(command@, args_view(args@), crate::control::str_opt(env_ws), crate::control::str_opt(env_tab),
            pairs_view(store@), store_path@, outcomes_view(a@)),
{
    if str_eq(command, "new-workspace") {
        Some(new_workspace_step(args, a))
    } else if str_eq(command, "sidebar-state") {
        Some(sidebar_state_step(args, env_ws, a))
    } else if str_eq(command, "tab-action") {
        Some(tab_action_step(args, env_ws, env_tab, a))
    } else if is_tmux_name(command) {
        Some(tmux_step_of(command, args, store, store_path, a))
    } else {
        None
    }
}

} // verus!

verus! {

/// `next-window` and `previous-window` each make one request, for the next
/// and the previous workspace respectively, with no parameters, and answer
/// what that request answered.
pub proof fn law_window_cycling(args: Seq<Seq<char>>, env_ws: Option<Seq<char>>, env_tab: Option<Seq<char>>, store: Pairs, store_path: Seq<char>, a: Outcomes)
    ensures
        a.len() == 0 ==> workflow("next-window"@, args, env_ws, env_tab, store, store_path, a)
            == Some(Ok::<StepV, Seq<char>>(StepV::Call("workspace.next"@, Seq::empty(), false))),
        a.len() == 0 ==> workflow("previous-window"@, args, env_ws, env_tab, store, store_path, a)
            == Some(Ok::<StepV, Seq<char>>(StepV::Call("workspace.previous"@, Seq::empty(), false))),
        a.len() > 0 ==> workflow("next-window"@, args, env_ws, env_tab, store, store_path, a)
            == Some(Ok::<StepV, Seq<char>>(StepV::Done(outcome(a, 0)))),
        a.len() > 0 ==> workflow("previous-window"@, args, env_ws, env_tab, store, store_path, a)
            == Some(Ok::<StepV, Seq<char>>(StepV::Done(outcome(a, 0)))),
        "workspace.next"@ != "workspace.previous"@,
{
    reveal_strlit("next-window");
    reveal_strlit("previous-window");
    reveal_strlit("new-workspace");
    reveal_strlit("sidebar-state");
    reveal_strlit("tab-action");
    reveal_strlit("popup");
    reveal_strlit("bind-key");
    reveal_strlit("unbind-key");
    reveal_strlit("copy-mode");
    reveal_strlit("pipe-pane");
    reveal_strlit("wait-for");
    reveal_strlit("find-window");
    reveal_strlit("last-window");
    reveal_strlit("workspace.next");
    reveal_strlit("workspace.previous");
    let n = "next-window"@;
    let p = "previous-window"@;
    assert(n.len() == 11 && p.len() == 15);
    assert(n[0] == 'n' && p[0] == 'p');
    assert("new-workspace"@.len() == 13 && "sidebar-state"@.len() == 13 && "tab-action"@.len() == 10);
    assert("popup"@.len() == 5 && "bind-key"@.len() == 8 && "unbind-key"@.len() == 10 && "copy-mode"@.len() == 9);
    assert("pipe-pane"@.len() == 9 && "wait-for"@.len() == 8 && "find-window"@.len() == 11 && "last-window"@.len() == 11);
    assert("find-window"@[0] == 'f' && "last-window"@[0] == 'l');
    assert("workspace.next"@.len() == 14 && "workspace.previous"@.len() == 18);
    assert(n != "new-workspace"@ && n != "sidebar-state"@ && n != "tab-action"@);
    assert(p != "new-workspace"@ && p != "sidebar-state"@ && p != "tab-action"@);
    assert(is_tmux_command(n) && is_tmux_command(p));
    assert(n != "popup"@ && n != "bind-key"@ && n != "unbind-key"@ && n != "copy-mode"@ && n != "pipe-pane"@
        && n != "wait-for"@ && n != "find-window"@ && n != "last-window"@);
    assert(p != "popup"@ && p != "bind-key"@ && p != "unbind-key"@ && p != "copy-mode"@ && p != "pipe-pane"@
        && p != "wait-for"@ && p != "find-window"@ && p != "last-window"@ && p != "next-window"@);
}

} // verus!
