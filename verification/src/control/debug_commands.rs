//! The `debug.*` commands that read or reset the control plane's own state:
//! sidebar visibility, flash counts, the focused terminal's text, marking
//! notifications read, and typing into the focused terminal.
use vstd::prelude::*;
use crate::json::{
    Json, JsonV, json_view, members_view, items_view, object, array, put, new_members, new_items,
    uint, string, boolean, juint, jstr, jbool,
};
use crate::seqs::{first_index, lemma_first_index, lemma_first_index_unique, lemma_first_index_none};
use crate::handles::{utf8_len, utf8_byte_count};
use super::model::{
    current_window, sidebar_visible, list_surfaces, current_surface, mark_all_read, select_workspace,
    focus_surface, mark_read_for_surface, mark_read_for_workspace, reset_flashes, send_text,
    focused_handles, ShellRunV,
};
use super::protocol::{
    CommandError, ErrorV, Members, required_string, u64_param_any, keys_view, required_string_param,
    optional_u64_param_any, not_found_err, invalid_params_err,
};
use super::dispatch::{Outcome, RunOutcome, fail, ok, res_view, single};
use super::state::{ControlState, sent_view};
use super::palette_commands::{typing_window, typing_window_id, type_into_palette, palette_of, with_palette};
use super::palette::typed;
use super::{ControlV, SurfaceInfo, SurfaceInfoV, surf_info_views, surf_info_opt, win_info_opt, ShellRun, runs_view, str_opt};

verus! {

pub open spec fn ok_reply() -> JsonV {
    JsonV::Object(seq![("ok"@, jbool(true))])
}

pub(crate) fn ok_json() -> (r: Json)
    ensures
        json_view(r) == ok_reply(),
{
    let mut m = new_members();
    put(&mut m, "ok", boolean(true));
    proof { assert(members_view(m@) =~= (ok_reply())->Object_0); }
    object(m)
}

pub(crate) fn one_json(key: &str, v: Json) -> (r: Json)
    ensures
        json_view(r) == single(key@, json_view(v)),
{
    let ghost jv = json_view(v);
    let mut m = new_members();
    put(&mut m, key, v);
    proof { assert(members_view(m@) =~= (single(key@, jv))->Object_0); }
    object(m)
}

pub(crate) fn window_hint(params: &Vec<(String, Json)>) -> (r: Result<Option<u64>, CommandError>)
    ensures
        match r {
            Ok(v) => u64_param_any(members_view(params@), seq!["window_id"@, "id"@]) == Ok::<Option<u64>, ErrorV>(v),
            Err(e) => u64_param_any(members_view(params@), seq!["window_id"@, "id"@]) == Err::<Option<u64>, ErrorV>(e@),
        },
{
    proof { assert(keys_view(["window_id", "id"]@) =~= seq!["window_id"@, "id"@]); }
    optional_u64_param_any(params, &["window_id", "id"])
}

pub(crate) fn surface_hint(params: &Vec<(String, Json)>) -> (r: Result<Option<u64>, CommandError>)
    ensures
        match r {
            Ok(v) => u64_param_any(members_view(params@), seq!["surface_id"@, "id"@]) == Ok::<Option<u64>, ErrorV>(v),
            Err(e) => u64_param_any(members_view(params@), seq!["surface_id"@, "id"@]) == Err::<Option<u64>, ErrorV>(e@),
        },
{
    proof { assert(keys_view(["surface_id", "id"]@) =~= seq!["surface_id"@, "id"@]); }
    optional_u64_param_any(params, &["surface_id", "id"])
}

/// `debug.sidebar.visible`: whether the sidebar of a window (the focused one
/// by default) is shown.
pub open spec fn cmd_debug_sidebar(m: ControlV, ms: Members) -> Outcome {
    match u64_param_any(ms, seq!["window_id"@, "id"@]) {
        Err(e) => fail(m, e),
        Ok(w) => {
            let wid = match w {
                Some(x) => Some(x),
                None => match current_window(m) { Some(i) => Some(i.id), None => None },
            };
            match wid {
                None => fail(m, not_found_err("window not found"@)),
                Some(x) => ok(m, single("visible"@, jbool(sidebar_visible(m, x)))),
            }
        },
    }
}

pub fn debug_sidebar(state: &mut ControlState, params: &Vec<(String, Json)>) -> (r: Result<Json, CommandError>)
    ensures
        (final(state)@, res_view(r)) == cmd_debug_sidebar(old(state)@, members_view(params@)),
{
    let w = match window_hint(params) { Err(e) => return Err(e), Ok(v) => v };
    let wid = match w {
        Some(x) => Some(x),
        None => match state.current_window() { Some(i) => Some(i.id), None => None },
    };
    match wid {
        None => Err(CommandError::not_found("window not found")),
        Some(x) => Ok(one_json("visible", boolean(state.sidebar_visible_for_window(x)))),
    }
}

/// `debug.portal.stats`: no portals.
pub open spec fn portal_stats() -> JsonV {
    JsonV::Object(seq![
        ("portals"@, JsonV::Array(Seq::empty())),
        ("totals"@, JsonV::Object(seq![
            ("orphan_terminal_subview_count"@, juint(0)),
            ("visible_orphan_terminal_subview_count"@, juint(0)),
            ("stale_entry_count"@, juint(0)),
        ])),
    ])
}

pub fn debug_portal_stats() -> (r: Json)
    ensures
        json_view(r) == portal_stats(),
{
    let mut totals = new_members();
    put(&mut totals, "orphan_terminal_subview_count", uint(0));
    put(&mut totals, "visible_orphan_terminal_subview_count", uint(0));
    put(&mut totals, "stale_entry_count", uint(0));
    let mut m = new_members();
    put(&mut m, "portals", array(new_items()));
    put(&mut m, "totals", object(totals));
    proof {
        assert(members_view(totals@) =~= (portal_stats()->Object_0[1].1)->Object_0);
        assert(members_view(m@) =~= (portal_stats())->Object_0);
    }
    object(m)
}

/// The zero count answered for layout events this control plane never has
/// (split underflows and empty panels).
pub fn debug_zero_count() -> (r: Json)
    ensures
        json_view(r) == single("count"@, juint(0)),
{
    one_json("count", uint(0))
}

pub fn debug_ok() -> (r: Json)
    ensures
        json_view(r) == ok_reply(),
{
    ok_json()
}

pub open spec fn surface_id_is(sid: u64) -> spec_fn(SurfaceInfoV) -> bool {
    |s: SurfaceInfoV| s.id == sid
}

/// The first surface of the focused window with this id.
pub open spec fn listed_surface(m: ControlV, sid: u64) -> Option<SurfaceInfoV> {
    match list_surfaces(m) {
        None => None,
        Some(l) => {
            let i = first_index(l, surface_id_is(sid));
            if i < 0 { None } else { Some(l[i]) }
        },
    }
}

fn find_listed(v: &Vec<SurfaceInfo>, sid: u64) -> (r: Option<usize>)
    ensures
        match r {
            Some(i) => i < v.len() && i as int == first_index(surf_info_views(v@), surface_id_is(sid)),
            None => first_index(surf_info_views(v@), surface_id_is(sid)) == -1,
        },
{
    let ghost l = surf_info_views(v@);
    let mut i: usize = 0;
    while i < v.len()
        invariant
            i <= v.len(),
            l == surf_info_views(v@),
            forall|j: int| 0 <= j < i ==> !surface_id_is(sid)(#[trigger] l[j]),
        decreases v.len() - i,
    {
        if v[i].id == sid {
            proof { lemma_first_index_unique(l, surface_id_is(sid), i as int); }
            return Some(i);
        }
        i = i + 1;
    }
    proof { lemma_first_index_none(l, surface_id_is(sid)); }
    None
}

pub(crate) fn listed_surface_of(state: &ControlState, sid: u64) -> (r: Option<SurfaceInfo>)
    ensures
        surf_info_opt(r) == listed_surface(state@, sid),
{
    match state.list_surfaces() {
        None => None,
        Some(v) => match find_listed(&v, sid) {
            Some(i) => {
                let mut v = v;
                proof { assert(surf_info_views(v@)[i as int] == v@[i as int]@); }
                Some(v.remove(i))
            },
            None => None,
        },
    }
}

/// `debug.flash.count`: the flash count of a surface of the focused window
/// (zero when there is none), or the total of flashes.
pub open spec fn cmd_debug_flash_count(m: ControlV, ms: Members) -> Outcome {
    match u64_param_any(ms, seq!["surface_id"@, "id"@]) {
        Err(e) => fail(m, e),
        Ok(Some(sid)) => {
            let c = match listed_surface(m, sid) { Some(s) => s.flash_count, None => 0 };
            ok(m, single("count"@, juint(c)))
        },
        Ok(None) => ok(m, single("count"@, juint(m.debug_flash_count))),
    }
}

pub fn debug_flash_count(state: &mut ControlState, params: &Vec<(String, Json)>) -> (r: Result<Json, CommandError>)
    ensures
        (final(state)@, res_view(r)) == cmd_debug_flash_count(old(state)@, members_view(params@)),
{
    let hint = match surface_hint(params) { Err(e) => return Err(e), Ok(v) => v };
    match hint {
        Some(sid) => {
            let c = match listed_surface_of(state, sid) { Some(s) => s.flash_count, None => 0 };
            Ok(one_json("count", uint(c)))
        },
        None => Ok(one_json("count", uint(state.debug_flash_count()))),
    }
}

/// `debug.flash.reset`
pub open spec fn cmd_debug_flash_reset(m: ControlV) -> Outcome {
    ok(reset_flashes(m), ok_reply())
}

pub fn debug_flash_reset(state: &mut ControlState) -> (r: Json)
    ensures
        (final(state)@, Ok::<JsonV, ErrorV>(json_view(r))) == cmd_debug_flash_reset(old(state)@),
{
    state.reset_flash_counts();
    ok_json()
}

/// `debug.app.activate`: the app counts as focused and active, and every
/// notification is read.
pub open spec fn cmd_debug_activate(m: ControlV) -> Outcome {
    let m1 = ControlV { app_focus_override: true, app_simulate_active: true, ..m };
    ok(mark_all_read(m1).0, ok_reply())
}

pub fn debug_activate(state: &mut ControlState) -> (r: Json)
    ensures
        (final(state)@, Ok::<JsonV, ErrorV>(json_view(r))) == cmd_debug_activate(old(state)@),
{
    state.set_focus_override(true);
    let _ = state.mark_all_notifications_read();
    ok_json()
}

pub open spec fn focused_sid(m: ControlV) -> Option<u64> {
    match focused_handles(m) {
        Some(h) => Some(h.3),
        None => None,
    }
}

/// `debug.terminal.is_focused`: a named surface must be the focused one and
/// no browser surface; without a name, whether any surface is focused.
pub open spec fn cmd_debug_terminal_focused(m: ControlV, ms: Members) -> Outcome {
    match u64_param_any(ms, seq!["surface_id"@, "id"@]) {
        Err(e) => fail(m, e),
        Ok(s) => {
            let f = match s {
                Some(sid) => focused_sid(m) == Some(sid) && !m.browser.browser_surfaces.contains(sid),
                None => focused_sid(m) is Some,
            };
            ok(m, single("focused"@, jbool(f)))
        },
    }
}

pub fn debug_terminal_focused(state: &mut ControlState, params: &Vec<(String, Json)>) -> (r: Result<Json, CommandError>)
    ensures
        (final(state)@, res_view(r)) == cmd_debug_terminal_focused(old(state)@, members_view(params@)),
{
    let s = match surface_hint(params) { Err(e) => return Err(e), Ok(v) => v };
    let fs = match state.focused_handles() { Some((_, _, _, x)) => Some(x), None => None };
    let f = match s {
        Some(sid) => fs == Some(sid) && !state.browser().has_surface(sid),
        None => fs.is_some(),
    };
    Ok(one_json("focused", boolean(f)))
}

/// The text of a surface of the focused window, or of the focused surface;
/// empty when there is none.
pub open spec fn terminal_text(m: ControlV, s: Option<u64>) -> Seq<char> {
    let found = match s {
        Some(sid) => listed_surface(m, sid),
        None => current_surface(m),
    };
    match found { Some(v) => v.text, None => Seq::empty() }
}

fn terminal_text_of(state: &ControlState, s: Option<u64>) -> (r: String)
    ensures
        r@ == terminal_text(state@, s),
{
    let found = match s {
        Some(sid) => listed_surface_of(state, sid),
        None => state.current_surface(),
    };
    match found { Some(v) => v.text, None => String::new() }
}

/// `debug.terminal.read_text`
pub open spec fn cmd_debug_read_text(m: ControlV, ms: Members) -> Outcome {
    match u64_param_any(ms, seq!["surface_id"@, "id"@]) {
        Err(e) => fail(m, e),
        Ok(s) => ok(m, single("text"@, jstr(terminal_text(m, s)))),
    }
}

pub fn debug_read_text(state: &mut ControlState, params: &Vec<(String, Json)>) -> (r: Result<Json, CommandError>)
    ensures
        (final(state)@, res_view(r)) == cmd_debug_read_text(old(state)@, members_view(params@)),
{
    let s = match surface_hint(params) { Err(e) => return Err(e), Ok(v) => v };
    Ok(one_json("text", string(terminal_text_of(state, s))))
}

/// The number of UTF-8 bytes of a text, as a `u64` (saturating).
pub open spec fn byte_count(t: Seq<char>) -> u64 {
    if utf8_len(t) <= u64::MAX { utf8_len(t) as u64 } else { u64::MAX }
}

pub open spec fn render_stats(count: u64) -> JsonV {
    single("stats"@, JsonV::Object(seq![
        ("fps"@, juint(60)),
        ("frameTimeMs"@, juint(16)),
        ("inWindow"@, jbool(true)),
        ("presentCount"@, juint(count)),
        ("appIsActive"@, jbool(true)),
    ]))
}

/// `debug.terminal.render_stats`: fixed frame figures, with the size in
/// bytes of the terminal's text as its present count.
pub open spec fn cmd_debug_render_stats(m: ControlV, ms: Members) -> Outcome {
    match u64_param_any(ms, seq!["surface_id"@, "id"@]) {
        Err(e) => fail(m, e),
        Ok(s) => ok(m, render_stats(byte_count(terminal_text(m, s)))),
    }
}

pub fn debug_render_stats(state: &mut ControlState, params: &Vec<(String, Json)>) -> (r: Result<Json, CommandError>)
    ensures
        (final(state)@, res_view(r)) == cmd_debug_render_stats(old(state)@, members_view(params@)),
{
    let s = match surface_hint(params) { Err(e) => return Err(e), Ok(v) => v };
    let t = terminal_text_of(state, s);
    let n = utf8_byte_count(t.as_str());
    let mut stats = new_members();
    put(&mut stats, "fps", uint(60));
    put(&mut stats, "frameTimeMs", uint(16));
    put(&mut stats, "inWindow", boolean(true));
    put(&mut stats, "presentCount", uint(n));
    put(&mut stats, "appIsActive", boolean(true));
    proof { assert(members_view(stats@) =~= (render_stats(n)->Object_0[0].1)->Object_0); }
    Ok(one_json("stats", object(stats)))
}

/// `debug.notification.focus`: selects the workspace; then focuses the named
/// surface and marks its notifications read, or marks the workspace's read.
pub open spec fn cmd_debug_notification_focus(m: ControlV, ms: Members) -> Outcome {
    match u64_param_any(ms, seq!["workspace_id"@, "id"@]) {
        Err(e) => fail(m, e),
        Ok(None) => fail(m, invalid_params_err("workspace_id is required"@)),
        Ok(Some(w)) => match u64_param_any(ms, seq!["surface_id"@]) {
            Err(e) => fail(m, e),
            Ok(s) => {
                let m1 = select_workspace(m, Some(w), None).0;
                let m2 = match s {
                    Some(sid) => mark_read_for_surface(focus_surface(m1, sid).0, sid).0,
                    None => mark_read_for_workspace(m1, w).0,
                };
                ok(m2, ok_reply())
            },
        },
    }
}

pub fn debug_notification_focus(state: &mut ControlState, params: &Vec<(String, Json)>) -> (r: Result<Json, CommandError>)
    ensures
        (final(state)@, res_view(r)) == cmd_debug_notification_focus(old(state)@, members_view(params@)),
{
    proof {
        assert(keys_view(["workspace_id", "id"]@) =~= seq!["workspace_id"@, "id"@]);
        assert(keys_view(["surface_id"]@) =~= seq!["surface_id"@]);
    }
    let w = match optional_u64_param_any(params, &["workspace_id", "id"]) {
        Err(e) => return Err(e),
        Ok(None) => return Err(CommandError::invalid_params("workspace_id is required")),
        Ok(Some(w)) => w,
    };
    let s = match optional_u64_param_any(params, &["surface_id"]) { Err(e) => return Err(e), Ok(v) => v };
    let _ = state.select_workspace(Some(w), None);
    match s {
        Some(sid) => {
            let _ = state.focus_surface(sid);
            let _ = state.mark_notifications_read_for_surface(sid);
        },
        None => {
            let _ = state.mark_notifications_read_for_workspace(w);
        },
    }
    Ok(ok_json())
}

pub open spec fn typed_reply(t: Seq<char>) -> JsonV {
    JsonV::Object(seq![("ok"@, jbool(true)), ("text"@, jstr(t))])
}

/// `debug.type`: types the text into the focused window's palette when it is
/// shown, else into the focused terminal, if any; the commands its shell runs
/// are handed back.
pub open spec fn cmd_debug_type(m: ControlV, ms: Members, home: Option<Seq<char>>) -> RunOutcome {
    match required_string(ms, "text"@) {
        Err(e) => (m, Err(e), Seq::empty()),
        Ok(t) => match typing_window(m) {
            Some(wid) => (with_palette(m, wid, typed(palette_of(m, wid), t)), Ok(typed_reply(t)), Seq::empty()),
            None => match focused_handles(m) {
                None => (m, Ok(typed_reply(t)), Seq::empty()),
                Some(h) => {
                    let (m1, out) = send_text(m, h.0, h.3, t, home);
                    let runs = match out { Some((_, rs)) => rs, None => Seq::empty() };
                    (m1, Ok(typed_reply(t)), runs)
                },
            },
        },
    }
}

pub fn debug_type(state: &mut ControlState, params: &Vec<(String, Json)>, home: Option<&str>) -> (r: (Result<Json, CommandError>, Vec<ShellRun>))
    requires
        super::dispatch::text_room(old(state)@, members_view(params@)),
    ensures
        (final(state)@, res_view(r.0), runs_view(r.1@)) == cmd_debug_type(old(state)@, members_view(params@), str_opt(home)),
{
    let none: Vec<ShellRun> = Vec::new();
    proof { assert(runs_view(none@) =~= Seq::<ShellRunV>::empty()); }
    let t = match required_string_param(params, "text") { Err(e) => return (Err(e), none), Ok(v) => v };
    let ghost tv = t@;
    if let Some(wid) = typing_window_id(state) {
        type_into_palette(state, wid, t.as_str());
        let mut m = new_members();
        put(&mut m, "ok", boolean(true));
        put(&mut m, "text", string(t));
        proof { assert(members_view(m@) =~= (typed_reply(tv))->Object_0); }
        return (Ok(object(m)), none);
    }
    let runs = match state.focused_handles() {
        None => none,
        Some((w, _, _, sid)) => {
            match state.apply_surface_text_input(w, sid, t.as_str(), home) {
                Some((_, rs)) => rs,
                None => none,
            }
        },
    };
    let mut m = new_members();
    put(&mut m, "ok", boolean(true));
    put(&mut m, "text", string(t));
    proof { assert(members_view(m@) =~= (typed_reply(tv))->Object_0); }
    (Ok(object(m)), runs)
}

} // verus!
