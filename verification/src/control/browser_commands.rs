//! The `browser.*` commands: opening a browser tab beside a pane, navigating
//! and the history, reading the page, filling and clicking its elements.
use vstd::prelude::*;
use crate::json::{
    Json, JsonNumber, JsonV, json_view, members_view, items_view, object, array, put, push_item,
    new_members, new_items, uint, string, text, boolean, juint, jstr, jbool,
};
use crate::handles::{pane_ref, surface_ref};
use crate::text::{contains, str_contains, str_eq, ascii_lower, to_ascii_lowercase};
use super::browser::{
    BrowserState, BrowserV, Pairs, pairs_view, is_browser_tab, navigate, register_tab, go_back,
    go_forward, show_current, selector_exists, pair_get, pair_put, resolve, entry_get, sat_succ,
    count_value, pair_set, strings_view,
};
use super::model::{
    create_surface_in_pane, split_surface_from_pane, register_split, right_neighbor, pane_for_surface,
    mark_browser_panel, dir_right, has_id_room,
};
use super::protocol::{
    CommandError, ErrorV, Members, string_param, required_string, u64_param_any, bool_param, keys_view,
    optional_string_param, required_string_param, optional_u64_param_any, optional_bool_param,
    not_found_err, timeout_err, jhandle, jref, handle_json, opt_handle_json, jopt_handle,
};
use super::dispatch::{
    Outcome, fail, ok, scoped, res_view, state_room, focused_pane_id, focused_surface_id,
    enter_scope, exit_scope, focused_pane_of, focused_surface_of,
};
use super::state::ControlState;
use super::{ControlV, SurfaceInfoV, surf_info_opt, opt_str_view};

verus! {

/// Whether a list of texts holds one.
pub fn contains_text(v: &Vec<String>, x: &str) -> (r: bool)
    ensures
        r == strings_view(v@).contains(x@),
{
    let ghost sv = strings_view(v@);
    let mut i: usize = 0;
    while i < v.len()
        invariant
            i <= v.len(),
            sv == strings_view(v@),
            forall|j: int| 0 <= j < i ==> sv[j] != x@,
        decreases v.len() - i,
    {
        if str_eq(v[i].as_str(), x) {
            proof { assert(sv[i as int] == x@); }
            return true;
        }
        i = i + 1;
    }
    false
}

pub open spec fn with_browser(m: ControlV, b: BrowserV) -> ControlV {
    ControlV { browser: b, ..m }
}

/// Whether the browser's history can take one more entry.
pub open spec fn history_room(m: ControlV) -> bool {
    m.browser.history.len() < usize::MAX
}

/// `open`, `url` and `title` of the browser.
pub open spec fn browser_summary(b: BrowserV) -> JsonV {
    JsonV::Object(seq![("open"@, jbool(b.open)), ("url"@, jstr(b.url)), ("title"@, jstr(b.title))])
}

/// A surface named in a request must be one of the browser's tabs.
pub open spec fn tab_error(b: BrowserV, sid: Option<u64>) -> Option<ErrorV> {
    match sid {
        Some(s) => if is_browser_tab(b, s) { None } else { Some(not_found_err("surface is not a browser tab"@)) },
        None => None,
    }
}

/// Whether a new tab opened from a surface shows that surface's page: the
/// surface is the browser's current tab and the browser is open.
pub open spec fn inherits_page(b: BrowserV, source: Option<u64>) -> bool {
    match source {
        Some(s) => b.open && b.browser_surfaces.contains(s) && (b.surface_id == Some(s) || b.current_tab_id == s),
        None => false,
    }
}

pub open spec fn open_split_reply(sv: SurfaceInfoV, created_split: bool, b: BrowserV) -> JsonV {
    JsonV::Object(seq![
        ("surface_id"@, jhandle(sv.id)),
        ("surface_ref"@, jref("surface"@, sv.id)),
        ("pane_id"@, jhandle(sv.pane_id)),
        ("pane_ref"@, jref("pane"@, sv.pane_id)),
        ("target_pane_id"@, jhandle(sv.pane_id)),
        ("created_split"@, jbool(created_split)),
        ("browser"@, browser_summary(b)),
    ])
}

/// The new tab becomes the focused, open browser's current tab and a browser
/// panel, and shows the URL.
pub open spec fn finish_open(m: ControlV, sv: SurfaceInfoV, created_split: bool, url: Seq<char>, files: Pairs) -> Outcome {
    let b1 = register_tab(BrowserV { open: true, focused: true, ..m.browser }, sv.id);
    let b2 = navigate(b1, url, files);
    ok(with_browser(mark_browser_panel(m, sv.id), b2), open_split_reply(sv, created_split, b2))
}

pub open spec fn open_split_inner(m: ControlV, source: Option<u64>, ms: Members, files: Pairs) -> Outcome {
    let src_sid = match source { Some(s) => Some(s), None => focused_surface_id(m) };
    let from_surface = match src_sid { Some(s) => pane_for_surface(m, s), None => None };
    let src_pane = match from_surface { Some(p) => Some(p), None => focused_pane_id(m) };
    match src_pane {
        None => fail(m, not_found_err("no active pane"@)),
        Some(p) => match string_param(ms, "url"@) {
            Err(e) => fail(m, e),
            Ok(u) => {
                let url = match u {
                    Some(x) => x,
                    None => if inherits_page(m.browser, src_sid) { m.browser.url } else { "about:blank"@ },
                };
                match right_neighbor(m, p) {
                    Some(t) => {
                        let (m1, r) = create_surface_in_pane(m, t, Some("browser"@));
                        match r {
                            None => fail(m1, not_found_err("target pane not found"@)),
                            Some(sv) => finish_open(m1, sv, false, url, files),
                        }
                    },
                    None => {
                        let (m1, r) = split_surface_from_pane(m, p, Some("browser"@));
                        match r {
                            None => fail(m1, not_found_err("no active window"@)),
                            Some(sv) => finish_open(register_split(m1, p, sv.pane_id, dir_right()), sv, true, url, files),
                        }
                    },
                }
            },
        },
    }
}

/// `browser.open_split`: a browser tab in the pane to the right of the source
/// surface's pane (the focused one by default), or in a new pane split off to
/// the right; it shows `url`, else the source tab's page, else `about:blank`.
pub open spec fn cmd_browser_open_split(m: ControlV, ms: Members, files: Pairs) -> Outcome {
    match u64_param_any(ms, seq!["workspace_id"@]) {
        Err(e) => fail(m, e),
        Ok(ws) => match u64_param_any(ms, seq!["surface_id"@, "id"@]) {
            Err(e) => fail(m, e),
            Ok(source) => scoped(m, ws, |s: ControlV| open_split_inner(s, source, ms, files)),
        },
    }
}

fn browser_summary_json(b: &BrowserState) -> (r: Json)
    ensures
        json_view(r) == browser_summary(b@),
{
    let mut m = new_members();
    put(&mut m, "open", boolean(b.is_open()));
    put(&mut m, "url", string(b.url().clone()));
    put(&mut m, "title", string(b.title().clone()));
    proof { assert(members_view(m@) =~= (browser_summary(b@))->Object_0); }
    object(m)
}

fn open_split_reply_json(sid: u64, pid: u64, created_split: bool, b: &BrowserState) -> (r: Json)
    ensures
        forall|sv: SurfaceInfoV| sv.id == sid && sv.pane_id == pid ==>
            json_view(r) == open_split_reply(sv, created_split, b@),
{
    let mut m = new_members();
    put(&mut m, "surface_id", handle_json(sid));
    put(&mut m, "surface_ref", string(surface_ref(sid)));
    put(&mut m, "pane_id", handle_json(pid));
    put(&mut m, "pane_ref", string(pane_ref(pid)));
    put(&mut m, "target_pane_id", handle_json(pid));
    put(&mut m, "created_split", boolean(created_split));
    put(&mut m, "browser", browser_summary_json(b));
    let r = object(m);
    proof {
        assert forall|sv: SurfaceInfoV| sv.id == sid && sv.pane_id == pid implies
            json_view(r) == open_split_reply(sv, created_split, b@) by {
            assert(members_view(m@) =~= (open_split_reply(sv, created_split, b@))->Object_0);
        }
    }
    r
}

fn finish_open_exec(state: &mut ControlState, sid: u64, pid: u64, created_split: bool, url: String, files: &Vec<(String, String)>) -> (r: Json)
    requires
        history_room(old(state)@),
    ensures
        forall|sv: SurfaceInfoV| sv.id == sid && sv.pane_id == pid ==>
            (final(state)@, Ok::<JsonV, ErrorV>(json_view(r))) == finish_open(old(state)@, sv, created_split, url@, pairs_view(files@)),
{
    state.mark_browser_panel(sid);
    let mut b = state.take_browser();
    b.set_open(true);
    b.set_focused(true);
    b.register_tab(sid);
    b.navigate(url, files);
    let reply = open_split_reply_json(sid, pid, created_split, &b);
    state.put_browser(b);
    reply
}

/// The source tab's page when a new tab inherits it; see `inherits_page`.
fn inherited_url(b: &BrowserState, source: Option<u64>) -> (r: String)
    ensures
        r@ == (if inherits_page(b@, source) { b@.url } else { "about:blank"@ }),
{
    let inherit = match source {
        Some(s) => b.is_open() && b.has_surface(s) && (b.surface_id() == Some(s) || b.current_tab_id() == s),
        None => false,
    };
    if inherit { b.url().clone() } else { String::from_str("about:blank") }
}

fn open_split_in_scope(state: &mut ControlState, source: Option<u64>, params: &Vec<(String, Json)>, files: &Vec<(String, String)>) -> (r: Result<Json, CommandError>)
    requires
        has_id_room(old(state)@),
        history_room(old(state)@),
    ensures
        (final(state)@, res_view(r)) == open_split_inner(old(state)@, source, members_view(params@), pairs_view(files@)),
{
    let src_sid = match source { Some(s) => Some(s), None => focused_surface_of(state) };
    let from_surface = match src_sid { Some(s) => state.find_pane_for_surface_in_current_window(s), None => None };
    let src_pane = match from_surface { Some(p) => Some(p), None => focused_pane_of(state) };
    let p = match src_pane { None => return Err(CommandError::not_found("no active pane")), Some(p) => p };
    let u = match optional_string_param(params, "url") { Err(e) => return Err(e), Ok(u) => u };
    let url = match u { Some(x) => x, None => inherited_url(state.browser(), src_sid) };
    match state.right_neighbor_in_current_window(p) {
        Some(t) => {
            let title = String::from_str("browser");
            proof { reveal_strlit("browser"); }
            match state.create_surface_in_pane(t, Some(title)) {
                None => Err(CommandError::not_found("target pane not found")),
                Some(sv) => Ok(finish_open_exec(state, sv.id, sv.pane_id, false, url, files)),
            }
        },
        None => {
            let title = String::from_str("browser");
            match state.split_surface_from_pane(p, Some(title)) {
                None => Err(CommandError::not_found("no active window")),
                Some(sv) => {
                    state.register_split_relation(p, sv.pane_id, "right");
                    proof { reveal_strlit("right"); assert("right"@ =~= dir_right()); assert(ascii_lower(dir_right()) =~= dir_right()); }
                    Ok(finish_open_exec(state, sv.id, sv.pane_id, true, url, files))
                },
            }
        },
    }
}

pub fn browser_open_split(state: &mut ControlState, params: &Vec<(String, Json)>, files: &Vec<(String, String)>) -> (r: Result<Json, CommandError>)
    requires
        state_room(old(state)@),
        history_room(old(state)@),
    ensures
        (final(state)@, res_view(r)) == cmd_browser_open_split(old(state)@, members_view(params@), pairs_view(files@)),
{
    proof {
        assert(keys_view(["workspace_id"]@) =~= seq!["workspace_id"@]);
        assert(keys_view(["surface_id", "id"]@) =~= seq!["surface_id"@, "id"@]);
    }
    let ws = match optional_u64_param_any(params, &["workspace_id"]) { Err(e) => return Err(e), Ok(v) => v };
    let source = match optional_u64_param_any(params, &["surface_id", "id"]) { Err(e) => return Err(e), Ok(v) => v };
    let orig = match enter_scope(state, ws) { Err(e) => return Err(e), Ok(o) => o };
    let res = open_split_in_scope(state, source, params, files);
    exit_scope(state, orig);
    res
}

pub open spec fn or_empty(o: Option<Seq<char>>) -> Seq<char> {
    match o {
        Some(s) => s,
        None => Seq::empty(),
    }
}

pub open spec fn jopt_surface_ref(o: Option<u64>) -> JsonV {
    match o {
        Some(id) => jref("surface"@, id),
        None => JsonV::Null,
    }
}

pub open spec fn navigate_reply(b: BrowserV) -> JsonV {
    JsonV::Object(seq![
        ("surface_id"@, jopt_handle(b.surface_id)),
        ("surface_ref"@, jopt_surface_ref(b.surface_id)),
        ("browser"@, browser_summary(b)),
    ])
}

/// `browser.navigate`: the browser (or the named tab) opens `url`.
pub open spec fn cmd_browser_navigate(m: ControlV, ms: Members, files: Pairs) -> Outcome {
    match required_string(ms, "url"@) {
        Err(e) => fail(m, e),
        Ok(url) => match u64_param_any(ms, seq!["surface_id"@, "id"@]) {
            Err(e) => fail(m, e),
            Ok(sid) => match tab_error(m.browser, sid) {
                Some(e) => fail(m, e),
                None => {
                    let b = navigate(m.browser, url, files);
                    ok(with_browser(m, b), navigate_reply(b))
                },
            },
        },
    }
}

pub open spec fn url_reply(b: BrowserV) -> JsonV {
    JsonV::Object(seq![("url"@, jstr(b.url))])
}

/// `browser.url.get`
pub open spec fn cmd_browser_url(m: ControlV, ms: Members) -> Outcome {
    match u64_param_any(ms, seq!["surface_id"@, "id"@]) {
        Err(e) => fail(m, e),
        Ok(sid) => match tab_error(m.browser, sid) {
            Some(e) => fail(m, e),
            None => ok(m, url_reply(m.browser)),
        },
    }
}

/// The element an existence probe script asks about.
pub open spec fn probe_selector(script: Seq<char>) -> Seq<char> {
    if contains(script, "#probe"@) {
        "#probe"@
    } else if contains(script, "#hdr"@) {
        "#hdr"@
    } else if contains(script, "#frame-text"@) {
        "#frame-text"@
    } else {
        Seq::empty()
    }
}

/// The input counters a page script reads.
pub open spec fn input_counts(b: BrowserV) -> JsonV {
    JsonV::Object(seq![
        ("hover"@, juint(b.hover_count)),
        ("dbl"@, juint(b.dbl_count)),
        ("down"@, juint(b.key_down_count)),
        ("up"@, juint(b.key_up_count)),
        ("press"@, juint(b.key_press_count)),
    ])
}

/// A text without its leading `#` characters.
pub open spec fn strip_hashes(s: Seq<char>) -> Seq<char>
    decreases s.len(),
{
    if s.len() > 0 && s[0] == '#' { strip_hashes(s.drop_first()) } else { s }
}

/// What a script evaluates to, by the expressions it mentions: the title,
/// the URL, the ready state, the focused element's id, the frame's clicks,
/// the `#name` field, the init marker, the input counters, the scroll offset
/// of `#scroller` (a whole number), whether `#bottom` was scrolled into
/// view, an element's existence or the body text; null for any other script.
pub open spec fn eval_value(b: BrowserV, script: Seq<char>) -> JsonV {
    if contains(script, "document.title"@) {
        jstr(b.title)
    } else if contains(script, "window.location.href"@) {
        jstr(b.url)
    } else if contains(script, "document.readyState"@) {
        jstr("complete"@)
    } else if contains(script, "document.activeElement"@) {
        jstr(strip_hashes(b.active_element))
    } else if contains(script, "window.frameClicks"@) {
        juint(b.frame_clicks)
    } else if contains(script, "querySelector('#name').value"@) {
        jstr(or_empty(pair_get(b.fields, "#name"@)))
    } else if contains(script, "__limuxInitMarker"@) {
        jstr(b.init_marker)
    } else if contains(script, "window.__hover"@) || contains(script, "window.__keys"@) {
        input_counts(b)
    } else if contains(script, "querySelector('#scroller').scrollTop"@) {
        juint(match entry_get(b.scroll_tops, "#scroller"@) { Some(v) => v, None => 0 })
    } else if contains(script, "querySelector('#bottom')"@) && contains(script, "innerHeight"@) {
        jbool(b.in_view.contains("#bottom"@))
    } else if contains(script, "document.querySelector("@) && contains(script, "!== null"@) {
        let sel = probe_selector(script);
        jbool(sel.len() > 0 && selector_exists(b, sel))
    } else if contains(script, "document.body"@) {
        jstr(b.page_text)
    } else {
        JsonV::Null
    }
}

/// `browser.eval`
pub open spec fn cmd_browser_eval(m: ControlV, ms: Members) -> Outcome {
    match required_string(ms, "script"@) {
        Err(e) => fail(m, e),
        Ok(script) => ok(m, JsonV::Object(seq![("value"@, eval_value(m.browser, script))])),
    }
}

/// Whether a wait is over at once: for a selector, when the page has it; for
/// a text, when the page text holds it; for a function, by the element it
/// probes; for a load state, when it is `complete`; for a URL part, when the
/// URL holds it; otherwise when the browser is open.
pub open spec fn wait_ready(
    b: BrowserV,
    selector: Option<Seq<char>>,
    text_contains: Option<Seq<char>>,
    function: Option<Seq<char>>,
    load_state: Option<Seq<char>>,
    url_contains: Option<Seq<char>>,
) -> bool {
    match selector {
        Some(s) => selector_exists(b, s),
        None => match text_contains {
            Some(t) => contains(b.page_text, t),
            None => match function {
                Some(f) => if contains(f, "#frame-text"@) {
                    selector_exists(b, "#frame-text"@)
                } else if contains(f, "#hdr"@) {
                    selector_exists(b, "#hdr"@)
                } else {
                    !contains(f, "#never"@)
                },
                None => match load_state {
                    Some(l) => ascii_lower(l) == "complete"@,
                    None => match url_contains {
                        Some(u) => contains(b.url, u),
                        None => b.open,
                    },
                },
            },
        },
    }
}

pub open spec fn ready_reply() -> JsonV {
    JsonV::Object(seq![("ready"@, jbool(true)), ("ok"@, jbool(true))])
}

/// `browser.wait`: answers at once, with a timeout error when the condition
/// does not hold.
pub open spec fn cmd_browser_wait(m: ControlV, ms: Members) -> Outcome {
    match u64_param_any(ms, seq!["surface_id"@, "id"@]) {
        Err(e) => fail(m, e),
        Ok(sid) => match tab_error(m.browser, sid) {
            Some(e) => fail(m, e),
            None => match string_param(ms, "selector"@) {
                Err(e) => fail(m, e),
                Ok(sel) => match string_param(ms, "text_contains"@) {
                    Err(e) => fail(m, e),
                    Ok(tc) => match string_param(ms, "function"@) {
                        Err(e) => fail(m, e),
                        Ok(f) => match string_param(ms, "load_state"@) {
                            Err(e) => fail(m, e),
                            Ok(ls) => match string_param(ms, "url_contains"@) {
                                Err(e) => fail(m, e),
                                Ok(uc) => if wait_ready(m.browser, sel, tc, f, ls, uc) {
                                    ok(m, ready_reply())
                                } else {
                                    fail(m, timeout_err("wait condition not met"@))
                                },
                            },
                        },
                    },
                },
            },
        },
    }
}

/// What a click changes: `#btn` writes the `#name` field (or `empty`) to
/// `#out` when the page has it, else to `#status`; `#action-btn` writes
/// `clicked` to `#status`; `#frame-btn` counts a click while the frame is
/// selected.
pub open spec fn click_effect(b: BrowserV, sel: Seq<char>) -> BrowserV {
    if sel == "#btn"@ {
        let v = or_empty(pair_get(b.fields, "#name"@));
        let status = if v.len() == 0 { "empty"@ } else { v };
        if selector_exists(b, "#out"@) {
            BrowserV {
                dom_text: pair_put(b.dom_text, "#out"@, status),
                dom_html: pair_put(b.dom_html, "#out"@, "<div id=\"out\">"@ + status + "</div>"@),
                ..b
            }
        } else {
            BrowserV {
                dom_text: pair_put(b.dom_text, "#status"@, status),
                dom_html: pair_put(b.dom_html, "#status"@, "<div id=\"status\" data-role=\"status\">"@ + status + "</div>"@),
                ..b
            }
        }
    } else if sel == "#action-btn"@ {
        BrowserV {
            dom_text: pair_put(b.dom_text, "#status"@, "clicked"@),
            dom_html: pair_put(b.dom_html, "#status"@, "<div id=\"status\">clicked</div>"@),
            ..b
        }
    } else if sel == "#frame-btn"@ && b.frame_selected {
        BrowserV { frame_clicks: sat_succ(b.frame_clicks), ..b }
    } else {
        b
    }
}

/// `browser.click`
pub open spec fn cmd_browser_click(m: ControlV, ms: Members) -> Outcome {
    match required_string(ms, "selector"@) {
        Err(e) => fail(m, e),
        Ok(sel) => {
            let r = resolve(m.browser, sel);
            if !selector_exists(m.browser, r) {
                fail(m, not_found_err("element not found; snapshot: run browser.snapshot; hint: verify selector"@))
            } else {
                ok(with_browser(m, click_effect(m.browser, r)), JsonV::Object(seq![("ok"@, jbool(true)), ("selector"@, jstr(sel))]))
            }
        },
    }
}

pub open spec fn fill_reply(b: BrowserV, sel: Seq<char>, value: Seq<char>, snapshot: bool) -> JsonV {
    let base = seq![("ok"@, jbool(true)), ("selector"@, jstr(sel)), ("value"@, jstr(value))];
    if snapshot {
        JsonV::Object(base.push(("post_action_snapshot"@,
            jstr("- document \""@ + b.title + "\"\n  - ref=e1 text=\""@ + b.page_text + "\""@))))
    } else {
        JsonV::Object(base)
    }
}

/// `browser.fill`: the field gets `value` (else `text`, else empty); the
/// field is set before `snapshot_after` is read.
pub open spec fn cmd_browser_fill(m: ControlV, ms: Members) -> Outcome {
    match required_string(ms, "selector"@) {
        Err(e) => fail(m, e),
        Ok(sel) => match string_param(ms, "value"@) {
            Err(e) => fail(m, e),
            Ok(v) => {
                let value = match v {
                    Some(x) => x,
                    None => match string_param(ms, "text"@) {
                        Ok(Some(t)) => t,
                        _ => Seq::empty(),
                    },
                };
                let m1 = with_browser(m, BrowserV { fields: pair_put(m.browser.fields, sel, value), ..m.browser });
                match bool_param(ms, "snapshot_after"@) {
                    Err(e) => fail(m1, e),
                    Ok(s) => ok(m1, fill_reply(m1.browser, sel, value, s == Some(true))),
                }
            },
        },
    }
}

/// The text of an element: the page text for `body`, `frame-ready` for the
/// frame's text while the frame is selected, else its text, else its field
/// value, else empty.
pub open spec fn element_text(b: BrowserV, sel: Seq<char>) -> Seq<char> {
    if sel == "body"@ {
        b.page_text
    } else if sel == "#frame-text"@ && b.frame_selected {
        "frame-ready"@
    } else {
        match pair_get(b.dom_text, sel) {
            Some(t) => t,
            None => or_empty(pair_get(b.fields, sel)),
        }
    }
}

/// `browser.get.text`
pub open spec fn cmd_browser_get_text(m: ControlV, ms: Members) -> Outcome {
    match required_string(ms, "selector"@) {
        Err(e) => fail(m, e),
        Ok(sel) => {
            let t = element_text(m.browser, resolve(m.browser, sel));
            ok(m, JsonV::Object(seq![("text"@, jstr(t)), ("value"@, jstr(t))]))
        },
    }
}

/// `browser.get.value`
pub open spec fn cmd_browser_get_value(m: ControlV, ms: Members) -> Outcome {
    match required_string(ms, "selector"@) {
        Err(e) => fail(m, e),
        Ok(sel) => {
            let v = or_empty(pair_get(m.browser.fields, resolve(m.browser, sel)));
            ok(m, JsonV::Object(seq![("value"@, jstr(v)), ("text"@, jstr(v))]))
        },
    }
}

pub open spec fn title_reply(b: BrowserV) -> JsonV {
    JsonV::Object(seq![("title"@, jstr(b.title))])
}

pub open spec fn role_json(role: Seq<char>, name: Seq<char>) -> JsonV {
    JsonV::Object(seq![("role"@, jstr(role)), ("name"@, jstr(name))])
}

/// `browser.snapshot`: the page as a document with one text node.
pub open spec fn snapshot_reply(b: BrowserV) -> JsonV {
    JsonV::Object(seq![
        ("url"@, jstr(b.url)),
        ("title"@, jstr(b.title)),
        ("snapshot"@, jstr("- document \""@ + b.title + "\"\n  - text \""@ + b.page_text + "\""@)),
        ("text"@, jstr(b.title + " "@ + b.page_text)),
        ("refs"@, JsonV::Object(seq![("e1"@, role_json("document"@, b.title)), ("e2"@, role_json("text"@, b.page_text))])),
        ("nodes"@, JsonV::Array(seq![role_json("document"@, b.title), role_json("paragraph"@, b.page_text)])),
    ])
}

pub open spec fn focus_reply(f: bool) -> JsonV {
    JsonV::Object(seq![("focused"@, jbool(f)), ("is_webview_focused"@, jbool(f))])
}

/// `browser.screenshot`: a fixed blank image.
pub open spec fn screenshot_reply() -> JsonV {
    JsonV::Object(seq![
        ("ok"@, jbool(true)),
        ("format"@, jstr("png"@)),
        ("bytes"@, juint(256)),
        ("path"@, jstr("/tmp/limux-browser-shot.png"@)),
        ("url"@, jstr("file:///tmp/limux-browser-shot.png"@)),
        ("png_base64"@, jstr("AAAAAAAAAAAAAAAAAAAAAAAAAAAAAAAAAAAAAAAAAAAAAAAAAAAAAAAAAAAAAAAAAAAAAAAAAAAAAAAAAAAAAAAAAAAAAAAAAAAAAAAAAAAAAAAAAAAAAAAAAAAAAAAAAAAAAAAAAAAAAAAAAAAAAAAAAAAAAAAAAAAAAAAAAAAAAAAAAAAAAAAAAAAAAAAAAAAAAAAAAAAAAAAAAAAAAAAAAAAAAAAAAAAAAAAAAAAAAAAAAAAAAAAAAAAAAAAA"@)),
    ])
}

fn url_reply_json(b: &BrowserState) -> (r: Json)
    ensures
        json_view(r) == url_reply(b@),
{
    let mut m = new_members();
    put(&mut m, "url", string(b.url().clone()));
    proof { assert(members_view(m@) =~= (url_reply(b@))->Object_0); }
    object(m)
}

fn tab_check(b: &BrowserState, sid: Option<u64>) -> (r: Result<(), CommandError>)
    ensures
        match r {
            Ok(_) => tab_error(b@, sid) is None,
            Err(e) => tab_error(b@, sid) == Some(e@),
        },
{
    match sid {
        Some(s) => if b.is_tab(s) { Ok(()) } else { Err(CommandError::not_found("surface is not a browser tab")) },
        None => Ok(()),
    }
}

fn surface_hint(params: &Vec<(String, Json)>) -> (r: Result<Option<u64>, CommandError>)
    ensures
        match r {
            Ok(v) => u64_param_any(members_view(params@), seq!["surface_id"@, "id"@]) == Ok::<Option<u64>, ErrorV>(v),
            Err(e) => u64_param_any(members_view(params@), seq!["surface_id"@, "id"@]) == Err::<Option<u64>, ErrorV>(e@),
        },
{
    proof { assert(keys_view(["surface_id", "id"]@) =~= seq!["surface_id"@, "id"@]); }
    optional_u64_param_any(params, &["surface_id", "id"])
}

pub fn browser_navigate(state: &mut ControlState, params: &Vec<(String, Json)>, files: &Vec<(String, String)>) -> (r: Result<Json, CommandError>)
    requires
        history_room(old(state)@),
    ensures
        (final(state)@, res_view(r)) == cmd_browser_navigate(old(state)@, members_view(params@), pairs_view(files@)),
{
    let url = match required_string_param(params, "url") { Err(e) => return Err(e), Ok(v) => v };
    let sid = match surface_hint(params) { Err(e) => return Err(e), Ok(v) => v };
    match tab_check(state.browser(), sid) { Err(e) => return Err(e), Ok(_) => {} }
    let mut b = state.take_browser();
    b.navigate(url, files);
    let mut m = new_members();
    put(&mut m, "surface_id", opt_handle_json(b.surface_id()));
    let r = match b.surface_id() { Some(id) => string(surface_ref(id)), None => Json::Null };
    put(&mut m, "surface_ref", r);
    put(&mut m, "browser", browser_summary_json(&b));
    proof { assert(members_view(m@) =~= (navigate_reply(b@))->Object_0); }
    state.put_browser(b);
    Ok(object(m))
}

pub fn browser_url(state: &mut ControlState, params: &Vec<(String, Json)>) -> (r: Result<Json, CommandError>)
    ensures
        (final(state)@, res_view(r)) == cmd_browser_url(old(state)@, members_view(params@)),
{
    let sid = match surface_hint(params) { Err(e) => return Err(e), Ok(v) => v };
    match tab_check(state.browser(), sid) { Err(e) => return Err(e), Ok(_) => {} }
    Ok(url_reply_json(state.browser()))
}

fn probe_selector_of(script: &str) -> (r: &'static str)
    ensures
        r@ == probe_selector(script@),
{
    if str_contains(script, "#probe") {
        "#probe"
    } else if str_contains(script, "#hdr") {
        "#hdr"
    } else if str_contains(script, "#frame-text") {
        "#frame-text"
    } else {
        proof { reveal_strlit(""); }
        ""
    }
}

fn input_counts_json(b: &BrowserState) -> (r: Json)
    ensures
        json_view(r) == input_counts(b@),
{
    let mut m = new_members();
    put(&mut m, "hover", uint(b.hover_count));
    put(&mut m, "dbl", uint(b.dbl_count));
    put(&mut m, "down", uint(b.key_down_count));
    put(&mut m, "up", uint(b.key_up_count));
    put(&mut m, "press", uint(b.key_press_count));
    proof { assert(members_view(m@) =~= (input_counts(b@))->Object_0); }
    object(m)
}

fn without_hashes(s: &str) -> (r: String)
    ensures
        r@ == strip_hashes(s@),
{
    let n = s.unicode_len();
    let mut i: usize = 0;
    proof { assert(s@.skip(0) =~= s@); }
    while i < n && s.get_char(i) == '#'
        invariant
            n == s@.len(),
            i <= n,
            strip_hashes(s@) == strip_hashes(s@.skip(i as int)),
        decreases n - i,
    {
        proof { assert(s@.skip(i as int).drop_first() =~= s@.skip(i + 1)); }
        i = i + 1;
    }
    let r = String::from_str(s.substring_char(i, n));
    proof { assert(r@ =~= s@.skip(i as int)); }
    r
}

fn or_empty_string(o: Option<String>) -> (r: String)
    ensures
        r@ == or_empty(opt_str_view(o)),
{
    match o {
        Some(s) => s,
        None => String::new(),
    }
}

/// What a script evaluates to; see `eval_value`.
pub fn eval_script(b: &BrowserState, script: &str) -> (r: Json)
    ensures
        json_view(r) == eval_value(b@, script@),
{
    proof { reveal_strlit(""); }
    if str_contains(script, "document.title") {
        string(b.title().clone())
    } else if str_contains(script, "window.location.href") {
        string(b.url().clone())
    } else if str_contains(script, "document.readyState") {
        text("complete")
    } else if str_contains(script, "document.activeElement") {
        string(without_hashes(b.active_element.as_str()))
    } else if str_contains(script, "window.frameClicks") {
        uint(b.frame_clicks)
    } else if str_contains(script, "querySelector('#name').value") {
        string(or_empty_string(b.field("#name")))
    } else if str_contains(script, "__limuxInitMarker") {
        string(b.init_marker.clone())
    } else if str_contains(script, "window.__hover") || str_contains(script, "window.__keys") {
        input_counts_json(b)
    } else if str_contains(script, "querySelector('#scroller').scrollTop") {
        uint(match count_value(&b.scroll_tops, "#scroller") { Some(v) => v, None => 0 })
    } else if str_contains(script, "querySelector('#bottom')") && str_contains(script, "innerHeight") {
        boolean(contains_text(&b.in_view, "#bottom"))
    } else if str_contains(script, "document.querySelector(") && str_contains(script, "!== null") {
        let sel = probe_selector_of(script);
        boolean(sel.unicode_len() > 0 && b.has_selector(sel))
    } else if str_contains(script, "document.body") {
        string(b.page_text().clone())
    } else {
        Json::Null
    }
}

pub fn browser_eval(state: &mut ControlState, params: &Vec<(String, Json)>) -> (r: Result<Json, CommandError>)
    ensures
        (final(state)@, res_view(r)) == cmd_browser_eval(old(state)@, members_view(params@)),
{
    let script = match required_string_param(params, "script") { Err(e) => return Err(e), Ok(v) => v };
    let v = eval_script(state.browser(), script.as_str());
    let mut m = new_members();
    put(&mut m, "value", v);
    proof { assert(members_view(m@) =~= seq![("value"@, eval_value(state@.browser, script@))]); }
    Ok(object(m))
}

/// Whether a wait is over; see `wait_ready`.
pub fn wait_is_ready(
    b: &BrowserState,
    selector: Option<String>,
    text_contains: Option<String>,
    function: Option<String>,
    load_state: Option<String>,
    url_contains: Option<String>,
) -> (r: bool)
    ensures
        r == wait_ready(b@, opt_str_view(selector), opt_str_view(text_contains), opt_str_view(function),
            opt_str_view(load_state), opt_str_view(url_contains)),
{
    match selector {
        Some(s) => b.has_selector(s.as_str()),
        None => match text_contains {
            Some(t) => str_contains(b.page_text().as_str(), t.as_str()),
            None => match function {
                Some(f) => if str_contains(f.as_str(), "#frame-text") {
                    b.has_selector("#frame-text")
                } else if str_contains(f.as_str(), "#hdr") {
                    b.has_selector("#hdr")
                } else {
                    !str_contains(f.as_str(), "#never")
                },
                None => match load_state {
                    Some(l) => {
                        let lower = to_ascii_lowercase(l.as_str());
                        str_eq(lower.as_str(), "complete")
                    },
                    None => match url_contains {
                        Some(u) => str_contains(b.url().as_str(), u.as_str()),
                        None => b.is_open(),
                    },
                },
            },
        },
    }
}

pub fn browser_wait(state: &mut ControlState, params: &Vec<(String, Json)>) -> (r: Result<Json, CommandError>)
    ensures
        (final(state)@, res_view(r)) == cmd_browser_wait(old(state)@, members_view(params@)),
{
    let sid = match surface_hint(params) { Err(e) => return Err(e), Ok(v) => v };
    match tab_check(state.browser(), sid) { Err(e) => return Err(e), Ok(_) => {} }
    let sel = match optional_string_param(params, "selector") { Err(e) => return Err(e), Ok(v) => v };
    let tc = match optional_string_param(params, "text_contains") { Err(e) => return Err(e), Ok(v) => v };
    let f = match optional_string_param(params, "function") { Err(e) => return Err(e), Ok(v) => v };
    let ls = match optional_string_param(params, "load_state") { Err(e) => return Err(e), Ok(v) => v };
    let uc = match optional_string_param(params, "url_contains") { Err(e) => return Err(e), Ok(v) => v };
    if wait_is_ready(state.browser(), sel, tc, f, ls, uc) {
        let mut m = new_members();
        put(&mut m, "ready", boolean(true));
        put(&mut m, "ok", boolean(true));
        proof { assert(members_view(m@) =~= (ready_reply())->Object_0); }
        Ok(object(m))
    } else {
        Err(CommandError::timeout("wait condition not met"))
    }
}

fn click_on(b: &mut BrowserState, sel: &str)
    ensures
        final(b)@ == click_effect(old(b)@, sel@),
{
    if str_eq(sel, "#btn") {
        let v = or_empty_string(b.field("#name"));
        let status = if v.unicode_len() == 0 { String::from_str("empty") } else { v };
        if b.has_selector("#out") {
            let mut h = String::from_str("<div id=\"out\">");
            h.append(status.as_str());
            h.append("</div>");
            b.set_text(String::from_str("#out"), status);
            pair_set(&mut b.dom_html, String::from_str("#out"), h);
        } else {
            let mut h = String::from_str("<div id=\"status\" data-role=\"status\">");
            h.append(status.as_str());
            h.append("</div>");
            b.set_text(String::from_str("#status"), status);
            pair_set(&mut b.dom_html, String::from_str("#status"), h);
        }
    } else if str_eq(sel, "#action-btn") {
        b.set_text(String::from_str("#status"), String::from_str("clicked"));
        pair_set(&mut b.dom_html, String::from_str("#status"), String::from_str("<div id=\"status\">clicked</div>"));
    } else if str_eq(sel, "#frame-btn") && b.frame_selected {
        b.frame_clicks = b.frame_clicks.saturating_add(1);
    }
}

pub fn browser_click(state: &mut ControlState, params: &Vec<(String, Json)>) -> (r: Result<Json, CommandError>)
    ensures
        (final(state)@, res_view(r)) == cmd_browser_click(old(state)@, members_view(params@)),
{
    let sel = match required_string_param(params, "selector") { Err(e) => return Err(e), Ok(v) => v };
    let r = state.browser().resolve(sel.as_str());
    if !state.browser().has_selector(r.as_str()) {
        return Err(CommandError::not_found("element not found; snapshot: run browser.snapshot; hint: verify selector"));
    }
    let mut b = state.take_browser();
    click_on(&mut b, r.as_str());
    state.put_browser(b);
    let ghost sv = sel@;
    let mut m = new_members();
    put(&mut m, "ok", boolean(true));
    put(&mut m, "selector", string(sel));
    proof { assert(members_view(m@) =~= seq![("ok"@, jbool(true)), ("selector"@, jstr(sv))]); }
    Ok(object(m))
}


pub fn browser_fill(state: &mut ControlState, params: &Vec<(String, Json)>) -> (r: Result<Json, CommandError>)
    ensures
        (final(state)@, res_view(r)) == cmd_browser_fill(old(state)@, members_view(params@)),
{
    let sel = match required_string_param(params, "selector") { Err(e) => return Err(e), Ok(v) => v };
    let v = match optional_string_param(params, "value") { Err(e) => return Err(e), Ok(v) => v };
    let value = match v {
        Some(x) => x,
        None => match optional_string_param(params, "text") {
            Ok(Some(t)) => t,
            _ => String::new(),
        },
    };
    let ghost sv = sel@;
    let ghost vv = value@;
    let mut b = state.take_browser();
    b.set_field(sel.clone(), value.clone());
    state.put_browser(b);
    let snap = match optional_bool_param(params, "snapshot_after") { Err(e) => return Err(e), Ok(s) => s };
    let mut m = new_members();
    put(&mut m, "ok", boolean(true));
    put(&mut m, "selector", string(sel));
    put(&mut m, "value", string(value));
    let wants = match snap { Some(true) => true, _ => false };
    if wants {
        let mut line = String::from_str("- document \"");
        line.append(state.browser().title().as_str());
        line.append("\"\n  - ref=e1 text=\"");
        line.append(state.browser().page_text().as_str());
        line.append("\"");
        put(&mut m, "post_action_snapshot", string(line));
    }
    proof {
        let b1 = state@.browser;
        assert(members_view(m@) =~= (fill_reply(b1, sv, vv, wants))->Object_0);
    }
    Ok(object(m))
}

fn element_text_of(b: &BrowserState, sel: &str) -> (r: String)
    ensures
        r@ == element_text(b@, sel@),
{
    if str_eq(sel, "body") {
        b.page_text().clone()
    } else if str_eq(sel, "#frame-text") && b.frame_selected {
        String::from_str("frame-ready")
    } else {
        match b.text_of(sel) {
            Some(t) => t,
            None => or_empty_string(b.field(sel)),
        }
    }
}

fn text_value_json(first: &str, second: &str, v: String) -> (r: Json)
    ensures
        json_view(r) == JsonV::Object(seq![(first@, jstr(v@)), (second@, jstr(v@))]),
{
    let ghost vv = v@;
    let mut m = new_members();
    put(&mut m, first, string(v.clone()));
    put(&mut m, second, string(v));
    proof { assert(members_view(m@) =~= seq![(first@, jstr(vv)), (second@, jstr(vv))]); }
    object(m)
}

pub fn browser_get_text(state: &mut ControlState, params: &Vec<(String, Json)>) -> (r: Result<Json, CommandError>)
    ensures
        (final(state)@, res_view(r)) == cmd_browser_get_text(old(state)@, members_view(params@)),
{
    let sel = match required_string_param(params, "selector") { Err(e) => return Err(e), Ok(v) => v };
    let r = state.browser().resolve(sel.as_str());
    let t = element_text_of(state.browser(), r.as_str());
    Ok(text_value_json("text", "value", t))
}

pub fn browser_get_value(state: &mut ControlState, params: &Vec<(String, Json)>) -> (r: Result<Json, CommandError>)
    ensures
        (final(state)@, res_view(r)) == cmd_browser_get_value(old(state)@, members_view(params@)),
{
    let sel = match required_string_param(params, "selector") { Err(e) => return Err(e), Ok(v) => v };
    let r = state.browser().resolve(sel.as_str());
    let v = or_empty_string(state.browser().field(r.as_str()));
    Ok(text_value_json("value", "text", v))
}

pub fn browser_title(state: &ControlState) -> (r: Json)
    ensures
        json_view(r) == title_reply(state@.browser),
{
    let mut m = new_members();
    put(&mut m, "title", string(state.browser().title().clone()));
    proof { assert(members_view(m@) =~= (title_reply(state@.browser))->Object_0); }
    object(m)
}

fn role_json_of(role: &str, name: &String) -> (r: Json)
    ensures
        json_view(r) == role_json(role@, name@),
{
    let mut m = new_members();
    put(&mut m, "role", text(role));
    put(&mut m, "name", string(name.clone()));
    proof { assert(members_view(m@) =~= (role_json(role@, name@))->Object_0); }
    object(m)
}

pub fn browser_snapshot(state: &ControlState) -> (r: Json)
    ensures
        json_view(r) == snapshot_reply(state@.browser),
{
    let b = state.browser();
    let mut snap = String::from_str("- document \"");
    snap.append(b.title().as_str());
    snap.append("\"\n  - text \"");
    snap.append(b.page_text().as_str());
    snap.append("\"");
    let mut both = b.title().clone();
    both.append(" ");
    both.append(b.page_text().as_str());
    let mut refs = new_members();
    put(&mut refs, "e1", role_json_of("document", b.title()));
    put(&mut refs, "e2", role_json_of("text", b.page_text()));
    let mut nodes = new_items();
    push_item(&mut nodes, role_json_of("document", b.title()));
    push_item(&mut nodes, role_json_of("paragraph", b.page_text()));
    let mut m = new_members();
    put(&mut m, "url", string(b.url().clone()));
    put(&mut m, "title", string(b.title().clone()));
    put(&mut m, "snapshot", string(snap));
    put(&mut m, "text", string(both));
    put(&mut m, "refs", object(refs));
    put(&mut m, "nodes", array(nodes));
    proof {
        assert(items_view(nodes@) =~= seq![role_json("document"@, b@.title), role_json("paragraph"@, b@.page_text)]);
        assert(members_view(refs@) =~= seq![("e1"@, role_json("document"@, b@.title)), ("e2"@, role_json("text"@, b@.page_text))]);
        assert(members_view(m@) =~= (snapshot_reply(b@))->Object_0);
    }
    object(m)
}

fn focus_json(f: bool) -> (r: Json)
    ensures
        json_view(r) == focus_reply(f),
{
    let mut m = new_members();
    put(&mut m, "focused", boolean(f));
    put(&mut m, "is_webview_focused", boolean(f));
    proof { assert(members_view(m@) =~= (focus_reply(f))->Object_0); }
    object(m)
}

/// `browser.focus_webview`
pub open spec fn cmd_browser_focus(m: ControlV) -> Outcome {
    ok(with_browser(m, BrowserV { focused: true, ..m.browser }), focus_reply(true))
}

pub fn browser_focus_webview(state: &mut ControlState) -> (r: Json)
    ensures
        (final(state)@, Ok::<JsonV, ErrorV>(json_view(r))) == cmd_browser_focus(old(state)@),
{
    let mut b = state.take_browser();
    b.set_focused(true);
    state.put_browser(b);
    focus_json(true)
}

pub fn browser_is_focused(state: &ControlState) -> (r: Json)
    ensures
        json_view(r) == focus_reply(state@.browser.focused),
{
    focus_json(state.browser().is_focused())
}

pub fn browser_screenshot() -> (r: Json)
    ensures
        json_view(r) == screenshot_reply(),
{
    let mut m = new_members();
    put(&mut m, "ok", boolean(true));
    put(&mut m, "format", text("png"));
    put(&mut m, "bytes", uint(256));
    put(&mut m, "path", text("/tmp/limux-browser-shot.png"));
    put(&mut m, "url", text("file:///tmp/limux-browser-shot.png"));
    put(&mut m, "png_base64", text("AAAAAAAAAAAAAAAAAAAAAAAAAAAAAAAAAAAAAAAAAAAAAAAAAAAAAAAAAAAAAAAAAAAAAAAAAAAAAAAAAAAAAAAAAAAAAAAAAAAAAAAAAAAAAAAAAAAAAAAAAAAAAAAAAAAAAAAAAAAAAAAAAAAAAAAAAAAAAAAAAAAAAAAAAAAAAAAAAAAAAAAAAAAAAAAAAAAAAAAAAAAAAAAAAAAAAAAAAAAAAAAAAAAAAAAAAAAAAAAAAAAAAAAAAAAAAAAA"));
    proof { assert(members_view(m@) =~= (screenshot_reply())->Object_0); }
    object(m)
}

/// Which way `browser.back`, `browser.forward` and `browser.reload` move.
pub enum HistoryStep {
    Back,
    Forward,
    Reload,
}

pub open spec fn step_history(b: BrowserV, step: HistoryStep, files: Pairs) -> BrowserV {
    match step {
        HistoryStep::Back => go_back(b, files),
        HistoryStep::Forward => go_forward(b, files),
        HistoryStep::Reload => show_current(b, files),
    }
}

/// `browser.back`, `browser.forward`, `browser.reload`: answer the URL shown
/// afterwards.
pub open spec fn cmd_browser_history(m: ControlV, step: HistoryStep, files: Pairs) -> Outcome {
    let b = step_history(m.browser, step, files);
    ok(with_browser(m, b), url_reply(b))
}

pub fn browser_history(state: &mut ControlState, step: HistoryStep, files: &Vec<(String, String)>) -> (r: Json)
    ensures
        (final(state)@, Ok::<JsonV, ErrorV>(json_view(r))) == cmd_browser_history(old(state)@, step, pairs_view(files@)),
{
    let mut b = state.take_browser();
    match step {
        HistoryStep::Back => b.back(files),
        HistoryStep::Forward => b.forward(files),
        HistoryStep::Reload => b.reload(files),
    }
    let r = url_reply_json(&b);
    state.put_browser(b);
    r
}

} // verus!
