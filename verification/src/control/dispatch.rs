//! The control commands: each reads its parameters, acts on the state and
//! answers with JSON or an error. Every command's effect and answer is given
//! by a spec function over the state's view.
use vstd::prelude::*;
use crate::json::{
    Json, JsonNumber, JsonV, json_view, members_view, items_view, lookup, get, object, array, put,
    push_item, new_members, new_items, uint, string, text, boolean, opt_uint, juint, jstr, jbool,
    jopt_uint,
};
use crate::handles::{handle_of, ref_of, workspace_ref, pane_ref, surface_ref};
use crate::seqs::{first_index, lemma_first_index};
use super::model::{
    create_workspace, current_workspace_info, mark_all_read, move_workspace_to_window,
    rename_workspace, reorder_workspace, select_last_workspace, select_workspace,
    select_workspace_relative, set_workspace_cwd, update_surface, workspace_cwd, ws_infos, ws_is,
    close_workspace, has_id_room, list_windows, current_window, create_window, focus_window,
    close_window, list_panes, list_surfaces_for_pane, create_pane, focus_pane, swap_panes,
    break_pane, join_panes, focus_last_pane, resize_pane, focused_handles, pane_for_surface,
    list_surfaces, current_surface, create_surface, split_surface_from_pane, register_split,
    focus_surface, close_surface, move_surface, reorder_surface, drag_surface_to_split,
    update_surface_in, workspace_contains_surface, workspace_of_surface, current_surface_of_workspace,
    find_in_focused_window, send_text, send_key, sat_inc, ShellRunV, create_notification,
    clear_notification,
};
use crate::text::{ascii_lower, to_ascii_lowercase, str_eq, starts_with, str_starts_with};
use crate::handles::{utf8_len, utf8_byte_count};
use super::protocol::{
    CommandError, ErrorV, Members, bool_param, params_members, params_object, unknown_method_err, conflict_err, index_param, invalid_params_err,
    not_found_err, string_param, required_string, u64_param_any, keys_view, optional_bool_param,
    optional_index_param, optional_string_param, optional_u64_param_any, required_string_param,
    jhandle, jref, ws_info_json, ws_reply, workspace_row, handle_json, workspace_info_json,
    workspace_reply, workspace_row_json, win_reply, win_info_json, window_row, window_row_json,
    window_reply, pane_row, pane_row_json, surface_row, surface_row_json, pane_reply, pane_reply_json,
    pane_info_json, pane_info_as_json, u64_param, optional_u64_param, surf_reply, surface_reply,
    surf_info_json, surface_info_json, notification_json, notification_as_json,
};
use super::state::{ControlState, sent_view};
use super::debug_commands::{
    ok_reply, portal_stats, cmd_debug_sidebar, cmd_debug_flash_count, cmd_debug_flash_reset,
    cmd_debug_activate, cmd_debug_terminal_focused, cmd_debug_read_text, cmd_debug_render_stats,
    cmd_debug_notification_focus, cmd_debug_type, debug_sidebar, debug_portal_stats, debug_zero_count,
    debug_ok, debug_flash_count, debug_flash_reset, debug_activate, debug_terminal_focused,
    debug_read_text, debug_render_stats, debug_notification_focus, debug_type,
};
use super::browser::{Pairs, pairs_view, strings_view};
use super::snapshots::{
    cmd_panel_snapshot, cmd_panel_snapshot_reset, cmd_window_screenshot, panel_snapshot, panel_snapshot_reset,
    window_screenshot,
};
use super::palette_commands::{palette_method, palette_dispatch, is_palette_method, handle_palette_command};
use super::browser_ext::{browser_ext_dispatch, handle_browser_ext, load_state, loaded_state, opt_pairs_view, ok_and};
use super::browser_commands::{
    HistoryStep, history_room, cmd_browser_open_split, cmd_browser_navigate, cmd_browser_url,
    cmd_browser_eval, cmd_browser_wait, cmd_browser_click, cmd_browser_fill, cmd_browser_get_text,
    cmd_browser_get_value, title_reply, snapshot_reply, cmd_browser_focus, focus_reply,
    screenshot_reply, cmd_browser_history, browser_open_split, browser_navigate, browser_url,
    browser_eval, browser_wait, browser_click, browser_fill, browser_get_text, browser_get_value,
    browser_title, browser_snapshot, browser_focus_webview, browser_is_focused, browser_screenshot,
    browser_history,
};
use super::{
    ControlV, SurfaceEdit, SurfaceEditV, WorkspaceInfo, WorkspaceInfoV, opt_str_view, str_opt, ws_info_views, ws_info_opt,
    WindowInfo, WindowInfoV, win_info_views, win_info_opt, PaneInfo, SurfaceInfo, SurfaceInfoV, surf_info_views, surf_info_opt,
    ShellRun, runs_view, NotificationInfo, NotificationV, notes_view,
};

verus! {

pub type Outcome = (ControlV, Result<JsonV, ErrorV>);

pub open spec fn res_view(r: Result<Json, CommandError>) -> Result<JsonV, ErrorV> {
    match r {
        Ok(j) => Ok(json_view(j)),
        Err(e) => Err(e@),
    }
}

pub open spec fn fail(m: ControlV, e: ErrorV) -> Outcome {
    (m, Err(e))
}

pub open spec fn ok(m: ControlV, j: JsonV) -> Outcome {
    (m, Ok(j))
}


// ---------------------------------------------------------------------------
// app.*
// ---------------------------------------------------------------------------

/// `app.focus_override.set`: `enabled`, else `state` (active|inactive|clear,
/// default clear), sets the focus override and the simulated activity.
pub open spec fn cmd_focus_override(m: ControlV, ms: Members) -> Outcome {
    let enabled: Result<bool, ErrorV> = match bool_param(ms, "enabled"@) {
        Err(e) => Err(e),
        Ok(Some(v)) => Ok(v),
        Ok(None) => match string_param(ms, "state"@) {
            Err(e) => Err(e),
            Ok(st) => {
                let st = match st { Some(x) => x, None => "clear"@ };
                if st == "active"@ {
                    Ok(true)
                } else if st == "inactive"@ || st == "clear"@ {
                    Ok(false)
                } else {
                    Err(invalid_params_err("state must be one of active|inactive|clear, got "@ + st))
                }
            },
        },
    };
    match enabled {
        Err(e) => fail(m, e),
        Ok(b) => ok(
            ControlV { app_focus_override: b, app_simulate_active: b, ..m },
            JsonV::Object(seq![("focus_override"@, jbool(b))]),
        ),
    }
}

fn concat_str(a: &str, b: &str) -> (r: String)
    ensures
        r@ == a@ + b@,
{
    let mut s = String::from_str(a);
    s.append(b);
    s
}

pub fn app_focus_override_set(state: &mut ControlState, params: &Vec<(String, Json)>) -> (r: Result<Json, CommandError>)
    ensures
        (final(state)@, res_view(r)) == cmd_focus_override(old(state)@, members_view(params@)),
{
    let enabled = match optional_bool_param(params, "enabled") {
        Err(e) => return Err(e),
        Ok(Some(v)) => v,
        Ok(None) => match optional_string_param(params, "state") {
            Err(e) => return Err(e),
            Ok(st) => {
                let st = match st { Some(x) => x, None => String::from_str("clear") };
                if crate::text::str_eq(st.as_str(), "active") {
                    true
                } else if crate::text::str_eq(st.as_str(), "inactive") || crate::text::str_eq(st.as_str(), "clear") {
                    false
                } else {
                    return Err(CommandError::invalid_params(
                        concat_str("state must be one of active|inactive|clear, got ", st.as_str()).as_str(),
                    ));
                }
            },
        },
    };
    state.set_focus_override(enabled);
    let mut m = new_members();
    put(&mut m, "focus_override", boolean(enabled));
    proof { assert(members_view(m@) =~= seq![("focus_override"@, jbool(enabled))]); }
    Ok(object(m))
}

/// `app.simulate_active`: sets whether the app counts as active (default
/// true); becoming active marks every notification read.
pub open spec fn cmd_simulate_active(m: ControlV, ms: Members) -> Outcome {
    match bool_param(ms, "active"@) {
        Err(e) => fail(m, e),
        Ok(a) => {
            let active = match a { Some(v) => v, None => true };
            let m1 = ControlV { app_simulate_active: active, ..m };
            let m2 = if active { mark_all_read(m1).0 } else { m1 };
            ok(m2, JsonV::Object(seq![("simulate_active"@, jbool(active))]))
        },
    }
}

pub fn app_simulate_active(state: &mut ControlState, params: &Vec<(String, Json)>) -> (r: Result<Json, CommandError>)
    ensures
        (final(state)@, res_view(r)) == cmd_simulate_active(old(state)@, members_view(params@)),
{
    let active = match optional_bool_param(params, "active") {
        Err(e) => return Err(e),
        Ok(a) => match a { Some(v) => v, None => true },
    };
    state.set_simulate_active(active);
    if active {
        let _ = state.mark_all_notifications_read();
    }
    let mut m = new_members();
    put(&mut m, "simulate_active", boolean(active));
    proof { assert(members_view(m@) =~= seq![("simulate_active"@, jbool(active))]); }
    Ok(object(m))
}

// ---------------------------------------------------------------------------
// workspace.*
// ---------------------------------------------------------------------------

pub open spec fn on_host(window_id: Option<u64>) -> spec_fn(WorkspaceInfoV) -> bool {
    |w: WorkspaceInfoV| match window_id { Some(t) => w.host_window_id == t, None => true }
}

/// The rows of `workspace.list` for the given workspaces.
pub open spec fn workspace_rows(m: ControlV, ws: Seq<WorkspaceInfoV>) -> Seq<JsonV> {
    Seq::new(ws.len(), |i: int| workspace_row(i as nat, m.current_workspace_id, ws[i], workspace_cwd(m, ws[i].id)))
}

/// `workspace.list`: the workspaces hosted by `window_id` (by default the
/// current workspace's host window; all when there is none).
pub open spec fn cmd_workspace_list(m: ControlV, ms: Members) -> Outcome {
    match u64_param_any(ms, seq!["window_id"@]) {
        Err(e) => fail(m, e),
        Ok(requested) => {
            let window_id = match requested {
                Some(w) => Some(w),
                None => match current_workspace_info(m) { Some(w) => Some(w.host_window_id), None => None },
            };
            let shown = ws_infos(m.workspaces).filter(on_host(window_id));
            ok(m, JsonV::Object(seq![("workspaces"@, JsonV::Array(workspace_rows(m, shown)))]))
        },
    }
}

pub fn workspace_list(state: &mut ControlState, params: &Vec<(String, Json)>) -> (r: Result<Json, CommandError>)
    ensures
        (final(state)@, res_view(r)) == cmd_workspace_list(old(state)@, members_view(params@)),
{
    let requested = match optional_u64_param_any(params, &["window_id"]) {
        Err(e) => {
            proof { assert(keys_view(["window_id"]@) =~= seq!["window_id"@]); }
            return Err(e);
        },
        Ok(v) => v,
    };
    proof { assert(keys_view(["window_id"]@) =~= seq!["window_id"@]); }
    let window_id = match requested {
        Some(w) => Some(w),
        None => match state.current_workspace_info() { Some(w) => Some(w.host_window_id), None => None },
    };
    let all = state.list_workspaces();
    let selected = state.current_workspace_id();
    let ghost m = state@;
    let ghost infos = ws_info_views(all@);
    let ghost shown = infos.filter(on_host(window_id));
    let mut rows = new_items();
    let mut kept: usize = 0;
    let mut i: usize = 0;
    while i < all.len()
        invariant
            i <= all.len(),
            m == state@,
            infos == ws_info_views(all@),
            infos == ws_infos(m.workspaces),
            selected == m.current_workspace_id,
            shown == infos.filter(on_host(window_id)),
            kept == infos.take(i as int).filter(on_host(window_id)).len(),
            kept <= i,
            items_view(rows@) == workspace_rows(m, infos.take(i as int).filter(on_host(window_id))),
        decreases all.len() - i,
    {
        proof {
            assert(infos.take(i + 1) =~= infos.take(i as int).push(infos[i as int]));
            infos.take(i as int).lemma_filter_push(infos[i as int], on_host(window_id));
        }
        let w = &all[i];
        let keep = match window_id { Some(t) => w.host_window_id == t, None => true };
        if keep {
            let cwd = state.workspace_cwd(w.id);
            let cwd_ref: Option<&str> = match &cwd { Some(c) => Some(c.as_str()), None => None };
            let row = workspace_row_json(kept, selected, w, cwd_ref);
            let ghost before = items_view(rows@);
            push_item(&mut rows, row);
            proof {
                let prev = infos.take(i as int).filter(on_host(window_id));
                assert(infos[i as int] == w@);
                assert(workspace_rows(m, prev.push(w@)) =~= before.push(json_view(row)));
            }
            kept = kept + 1;
        }
        i = i + 1;
    }
    proof { assert(infos.take(i as int) =~= infos); }
    let mut out = new_members();
    put(&mut out, "workspaces", array(rows));
    proof { assert(members_view(out@) =~= seq![("workspaces"@, JsonV::Array(workspace_rows(m, shown)))]); }
    Ok(object(out))
}


/// The state after entering a workspace's scope (selecting it), or `None`
/// when there is no such workspace.
pub open spec fn scope_enter(m: ControlV, ws: Option<u64>) -> Option<ControlV> {
    match ws {
        None => Some(m),
        Some(t) => {
            let (m1, r) = select_workspace(m, Some(t), None);
            if r is Some { Some(m1) } else { None }
        },
    }
}

/// Leaves a scope: the workspace selected before is selected again.
pub open spec fn scope_exit(m: ControlV, orig: u64) -> ControlV {
    if m.current_workspace_id != orig { select_workspace(m, Some(orig), None).0 } else { m }
}

/// Runs a scoped command's outcome: fails when the workspace does not exist,
/// and selects the original workspace again afterwards.
pub open spec fn scoped(m: ControlV, ws: Option<u64>, inner: spec_fn(ControlV) -> Outcome) -> Outcome {
    match scope_enter(m, ws) {
        None => fail(m, not_found_err("workspace not found"@)),
        Some(m1) => {
            let (m2, r) = inner(m1);
            (scope_exit(m2, m.current_workspace_id), r)
        },
    }
}

pub(crate) fn enter_scope(state: &mut ControlState, ws: Option<u64>) -> (r: Result<u64, CommandError>)
    ensures
        match r {
            Ok(orig) => orig == old(state)@.current_workspace_id && scope_enter(old(state)@, ws) == Some(final(state)@),
            Err(e) => scope_enter(old(state)@, ws) is None && e@ == not_found_err("workspace not found"@)
                && final(state)@ == old(state)@,
        },
{
    let orig = state.current_workspace_id();
    if let Some(target) = ws {
        if state.select_workspace(Some(target), None).is_none() {
            return Err(CommandError::not_found("workspace not found"));
        }
    }
    Ok(orig)
}

pub(crate) fn exit_scope(state: &mut ControlState, orig: u64)
    ensures
        final(state)@ == scope_exit(old(state)@, orig),
{
    if state.current_workspace_id() != orig {
        let _ = state.select_workspace(Some(orig), None);
    }
}

/// The answer naming a workspace, or the error when there is none.
pub open spec fn ws_outcome(r: (ControlV, Option<WorkspaceInfoV>), e: ErrorV) -> Outcome {
    match r.1 {
        Some(w) => ok(r.0, ws_reply(w)),
        None => fail(r.0, e),
    }
}

/// `workspace.current`
pub open spec fn cmd_workspace_current(m: ControlV) -> Outcome {
    match current_workspace_info(m) {
        None => fail(m, not_found_err("no active workspace"@)),
        Some(w) => ok(m, JsonV::Object(seq![
            ("workspace_id"@, jhandle(w.id)),
            ("workspace_ref"@, jref("workspace"@, w.id)),
            ("workspace"@, ws_info_json(w)),
            ("title"@, jstr(w.name)),
            ("name"@, jstr(w.name)),
        ])),
    }
}

pub fn workspace_current(state: &mut ControlState) -> (r: Result<Json, CommandError>)
    ensures
        (final(state)@, res_view(r)) == cmd_workspace_current(old(state)@),
{
    let w = match state.current_workspace_info() {
        None => return Err(CommandError::not_found("no active workspace")),
        Some(w) => w,
    };
    let mut m = new_members();
    put(&mut m, "workspace_id", handle_json(w.id));
    put(&mut m, "workspace_ref", string(workspace_ref(w.id)));
    put(&mut m, "workspace", workspace_info_json(&w));
    put(&mut m, "title", string(w.name.clone()));
    put(&mut m, "name", string(w.name.clone()));
    proof {
        assert(members_view(m@) =~= seq![
            ("workspace_id"@, jhandle(w@.id)),
            ("workspace_ref"@, jref("workspace"@, w@.id)),
            ("workspace"@, ws_info_json(w@)),
            ("title"@, jstr(w@.name)),
            ("name"@, jstr(w@.name)),
        ]);
    }
    Ok(object(m))
}

/// A name given as `name`, else as `title` (an ill-formed title counts as none).
pub open spec fn name_or_title(ms: Members) -> Result<Option<Seq<char>>, ErrorV> {
    match string_param(ms, "name"@) {
        Err(e) => Err(e),
        Ok(Some(n)) => Ok(Some(n)),
        Ok(None) => match string_param(ms, "title"@) {
            Ok(t) => Ok(t),
            Err(_) => Ok(None),
        },
    }
}

fn name_or_title_param(params: &Vec<(String, Json)>) -> (r: Result<Option<String>, CommandError>)
    ensures
        match r {
            Ok(v) => name_or_title(members_view(params@)) == Ok::<Option<Seq<char>>, ErrorV>(opt_str_view(v)),
            Err(e) => name_or_title(members_view(params@)) == Err::<Option<Seq<char>>, ErrorV>(e@),
        },
{
    match optional_string_param(params, "name") {
        Err(e) => Err(e),
        Ok(Some(n)) => Ok(Some(n)),
        Ok(None) => match optional_string_param(params, "title") {
            Ok(t) => Ok(t),
            Err(_) => Ok(None),
        },
    }
}

/// `workspace.create`: creates and selects a workspace, sets its directory,
/// and writes a startup command into its current surface.
pub open spec fn cmd_workspace_create(m: ControlV, ms: Members) -> Outcome {
    match name_or_title(ms) {
        Err(e) => fail(m, e),
        Ok(name) => match u64_param_any(ms, seq!["window_id"@]) {
            Err(e) => fail(m, e),
            Ok(window_id) => match string_param(ms, "cwd"@) {
                Err(e) => fail(m, e),
                Ok(cwd) => match string_param(ms, "command"@) {
                    Err(e) => fail(m, e),
                    Ok(command) => {
                        let (m1, w) = create_workspace(m, name, window_id);
                        let m2 = if cwd is Some { set_workspace_cwd(m1, w.id, cwd).0 } else { m1 };
                        let m3 = match command {
                            None => m2,
                            Some(c) => match scope_enter(m2, Some(w.id)) {
                                None => m2,
                                Some(m2a) => scope_exit(update_surface(m2a, None, SurfaceEditV::AppendLine(c)).0, m2.current_workspace_id),
                            },
                        };
                        ok(m3, ws_reply(w))
                    },
                },
            },
        },
    }
}

pub fn workspace_create(state: &mut ControlState, params: &Vec<(String, Json)>) -> (r: Result<Json, CommandError>)
    requires
        has_id_room(old(state)@),
    ensures
        (final(state)@, res_view(r)) == cmd_workspace_create(old(state)@, members_view(params@)),
{
    proof { assert(keys_view(["window_id"]@) =~= seq!["window_id"@]); }
    let name = match name_or_title_param(params) { Err(e) => return Err(e), Ok(v) => v };
    let window_id = match optional_u64_param_any(params, &["window_id"]) { Err(e) => return Err(e), Ok(v) => v };
    let cwd = match optional_string_param(params, "cwd") { Err(e) => return Err(e), Ok(v) => v };
    let command = match optional_string_param(params, "command") { Err(e) => return Err(e), Ok(v) => v };
    let w = state.create_workspace(name, window_id);
    if cwd.is_some() {
        let _ = state.set_workspace_cwd(w.id, cwd);
    }
    if let Some(c) = command {
        match enter_scope(state, Some(w.id)) {
            Err(_) => {},
            Ok(orig) => {
                let _ = state.update_surface(None, &SurfaceEdit::AppendLine(c));
                exit_scope(state, orig);
            },
        }
    }
    Ok(workspace_reply(&w))
}

/// `workspace.select`: by `workspace_id`/`id` or `name`.
pub open spec fn cmd_workspace_select(m: ControlV, ms: Members) -> Outcome {
    match u64_param_any(ms, seq!["workspace_id"@, "id"@]) {
        Err(e) => fail(m, e),
        Ok(id) => match string_param(ms, "name"@) {
            Err(e) => fail(m, e),
            Ok(name) => if id is None && name is None {
                fail(m, invalid_params_err("workspace.select requires workspace_id/id or name"@))
            } else {
                ws_outcome(select_workspace(m, id, name), not_found_err("workspace not found"@))
            },
        },
    }
}

fn answer_workspace(r: Option<WorkspaceInfo>, missing: CommandError) -> (out: Result<Json, CommandError>)
    ensures
        res_view(out) == match ws_info_opt(r) {
            Some(w) => Ok::<JsonV, ErrorV>(ws_reply(w)),
            None => Err::<JsonV, ErrorV>(missing@),
        },
{
    match r {
        Some(w) => Ok(workspace_reply(&w)),
        None => Err(missing),
    }
}

pub fn workspace_select(state: &mut ControlState, params: &Vec<(String, Json)>) -> (r: Result<Json, CommandError>)
    ensures
        (final(state)@, res_view(r)) == cmd_workspace_select(old(state)@, members_view(params@)),
{
    proof { assert(keys_view(["workspace_id", "id"]@) =~= seq!["workspace_id"@, "id"@]); }
    let id = match optional_u64_param_any(params, &["workspace_id", "id"]) { Err(e) => return Err(e), Ok(v) => v };
    let name = match optional_string_param(params, "name") { Err(e) => return Err(e), Ok(v) => v };
    if id.is_none() && name.is_none() {
        return Err(CommandError::invalid_params("workspace.select requires workspace_id/id or name"));
    }
    let name_ref: Option<&str> = match &name { Some(n) => Some(n.as_str()), None => None };
    let r = state.select_workspace(id, name_ref);
    answer_workspace(r, CommandError::not_found("workspace not found"))
}

/// `workspace.next` and `workspace.previous`.
pub open spec fn cmd_workspace_step(m: ControlV, delta: int) -> Outcome {
    ws_outcome(select_workspace_relative(m, delta), not_found_err("workspace not found"@))
}

pub fn workspace_step(state: &mut ControlState, forward: bool) -> (r: Result<Json, CommandError>)
    ensures
        (final(state)@, res_view(r)) == cmd_workspace_step(old(state)@, if forward { 1int } else { -1int }),
{
    let r = state.select_workspace_relative(if forward { 1 } else { -1 });
    answer_workspace(r, CommandError::not_found("workspace not found"))
}

/// `workspace.last`
pub open spec fn cmd_workspace_last(m: ControlV) -> Outcome {
    ws_outcome(select_last_workspace(m), not_found_err("last workspace not found"@))
}

pub fn workspace_last(state: &mut ControlState) -> (r: Result<Json, CommandError>)
    ensures
        (final(state)@, res_view(r)) == cmd_workspace_last(old(state)@),
{
    let r = state.select_last_workspace();
    answer_workspace(r, CommandError::not_found("last workspace not found"))
}

/// `workspace.rename`
pub open spec fn cmd_workspace_rename(m: ControlV, ms: Members) -> Outcome {
    match u64_param_any(ms, seq!["workspace_id"@, "id"@]) {
        Err(e) => fail(m, e),
        Ok(id) => match name_or_title(ms) {
            Err(e) => fail(m, e),
            Ok(None) => fail(m, invalid_params_err("workspace.rename requires name/title"@)),
            Ok(Some(name)) => ws_outcome(rename_workspace(m, id, name), not_found_err("workspace not found"@)),
        },
    }
}

pub fn workspace_rename(state: &mut ControlState, params: &Vec<(String, Json)>) -> (r: Result<Json, CommandError>)
    ensures
        (final(state)@, res_view(r)) == cmd_workspace_rename(old(state)@, members_view(params@)),
{
    proof { assert(keys_view(["workspace_id", "id"]@) =~= seq!["workspace_id"@, "id"@]); }
    let id = match optional_u64_param_any(params, &["workspace_id", "id"]) { Err(e) => return Err(e), Ok(v) => v };
    let name = match name_or_title_param(params) {
        Err(e) => return Err(e),
        Ok(None) => return Err(CommandError::invalid_params("workspace.rename requires name/title")),
        Ok(Some(n)) => n,
    };
    let r = state.rename_workspace(id, name);
    answer_workspace(r, CommandError::not_found("workspace not found"))
}

pub open spec fn count_some<A>(o: Option<A>) -> int {
    if o is Some { 1 } else { 0 }
}

/// `workspace.reorder`: to `index`, before another workspace (to the front),
/// or after another workspace; exactly one target is required.
pub open spec fn cmd_workspace_reorder(m: ControlV, ms: Members) -> Outcome {
    match u64_param_any(ms, seq!["workspace_id"@, "id"@]) {
        Err(e) => fail(m, e),
        Ok(None) => fail(m, invalid_params_err("workspace_id/id is required"@)),
        Ok(Some(id)) => match index_param(ms, "index"@) {
            Err(e) => fail(m, e),
            Ok(index) => match u64_param_any(ms, seq!["before_workspace_id"@]) {
                Err(e) => fail(m, e),
                Ok(before) => match u64_param_any(ms, seq!["after_workspace_id"@]) {
                    Err(e) => fail(m, e),
                    Ok(after) => if count_some(index) + count_some(before) + count_some(after) != 1 {
                        fail(m, invalid_params_err("workspace.reorder requires exactly one target: index|before_workspace_id|after_workspace_id"@))
                    } else {
                        let target: Result<int, ErrorV> = match index {
                            Some(i) => Ok(i as int),
                            None => match before {
                                Some(b) => if first_index(m.workspaces, ws_is(b)) < 0 {
                                    Err(not_found_err("before_workspace not found"@))
                                } else {
                                    Ok(0)
                                },
                                None => match after {
                                    Some(a) => {
                                        let k = first_index(m.workspaces, ws_is(a));
                                        if k < 0 { Err(not_found_err("after_workspace not found"@)) } else { Ok(k + 1) }
                                    },
                                    None => Ok(0),
                                },
                            },
                        };
                        match target {
                            Err(e) => fail(m, e),
                            Ok(t) => ws_outcome(reorder_workspace(m, id, t), not_found_err("workspace not found"@)),
                        }
                    },
                },
            },
        },
    }
}

pub fn workspace_reorder(state: &mut ControlState, params: &Vec<(String, Json)>) -> (r: Result<Json, CommandError>)
    ensures
        (final(state)@, res_view(r)) == cmd_workspace_reorder(old(state)@, members_view(params@)),
{
    proof {
        assert(keys_view(["workspace_id", "id"]@) =~= seq!["workspace_id"@, "id"@]);
        assert(keys_view(["before_workspace_id"]@) =~= seq!["before_workspace_id"@]);
        assert(keys_view(["after_workspace_id"]@) =~= seq!["after_workspace_id"@]);
    }
    let id = match optional_u64_param_any(params, &["workspace_id", "id"]) {
        Err(e) => return Err(e),
        Ok(None) => return Err(CommandError::invalid_params("workspace_id/id is required")),
        Ok(Some(v)) => v,
    };
    let index = match optional_index_param(params, "index") { Err(e) => return Err(e), Ok(v) => v };
    let before = match optional_u64_param_any(params, &["before_workspace_id"]) { Err(e) => return Err(e), Ok(v) => v };
    let after = match optional_u64_param_any(params, &["after_workspace_id"]) { Err(e) => return Err(e), Ok(v) => v };
    let targets: usize = (if index.is_some() { 1usize } else { 0 }) + (if before.is_some() { 1usize } else { 0 })
        + (if after.is_some() { 1usize } else { 0 });
    if targets != 1 {
        return Err(CommandError::invalid_params(
            "workspace.reorder requires exactly one target: index|before_workspace_id|after_workspace_id",
        ));
    }
    let target: usize = match index {
        Some(i) => i,
        None => match before {
            Some(b) => match state.workspace_index(b) {
                None => return Err(CommandError::not_found("before_workspace not found")),
                Some(_) => 0,
            },
            None => match after {
                Some(a) => match state.workspace_index(a) {
                    None => return Err(CommandError::not_found("after_workspace not found")),
                    Some(k) => k.saturating_add(1),
                },
                None => 0,
            },
        },
    };
    proof {
        if index is None && before is None && after is Some {
            lemma_first_index(old(state)@.workspaces, ws_is(after->0));
        }
    }
    let r = state.reorder_workspace(id, target);
    answer_workspace(r, CommandError::not_found("workspace not found"))
}

/// `workspace.close`
pub open spec fn cmd_workspace_close(m: ControlV, ms: Members) -> Outcome {
    match u64_param_any(ms, seq!["workspace_id"@, "id"@]) {
        Err(e) => fail(m, e),
        Ok(id) => ws_outcome(close_workspace(m, id), conflict_err("cannot close workspace"@)),
    }
}

pub fn workspace_close(state: &mut ControlState, params: &Vec<(String, Json)>) -> (r: Result<Json, CommandError>)
    ensures
        (final(state)@, res_view(r)) == cmd_workspace_close(old(state)@, members_view(params@)),
{
    proof { assert(keys_view(["workspace_id", "id"]@) =~= seq!["workspace_id"@, "id"@]); }
    let id = match optional_u64_param_any(params, &["workspace_id", "id"]) { Err(e) => return Err(e), Ok(v) => v };
    let r = state.close_workspace(id);
    answer_workspace(r, CommandError::conflict("cannot close workspace"))
}

/// `workspace.move_to_window`
pub open spec fn cmd_workspace_move(m: ControlV, ms: Members) -> Outcome {
    match u64_param_any(ms, seq!["workspace_id"@, "id"@]) {
        Err(e) => fail(m, e),
        Ok(id) => match u64_param_any(ms, seq!["window_id"@, "id"@]) {
            Err(e) => fail(m, e),
            Ok(None) => fail(m, invalid_params_err("window_id is required"@)),
            Ok(Some(host)) => ws_outcome(move_workspace_to_window(m, id, host), not_found_err("workspace not found"@)),
        },
    }
}

pub fn workspace_move_to_window(state: &mut ControlState, params: &Vec<(String, Json)>) -> (r: Result<Json, CommandError>)
    ensures
        (final(state)@, res_view(r)) == cmd_workspace_move(old(state)@, members_view(params@)),
{
    proof {
        assert(keys_view(["workspace_id", "id"]@) =~= seq!["workspace_id"@, "id"@]);
        assert(keys_view(["window_id", "id"]@) =~= seq!["window_id"@, "id"@]);
    }
    let id = match optional_u64_param_any(params, &["workspace_id", "id"]) { Err(e) => return Err(e), Ok(v) => v };
    let host = match optional_u64_param_any(params, &["window_id", "id"]) {
        Err(e) => return Err(e),
        Ok(None) => return Err(CommandError::invalid_params("window_id is required")),
        Ok(Some(v)) => v,
    };
    let r = state.move_workspace_to_window(id, host);
    answer_workspace(r, CommandError::not_found("workspace not found"))
}

/// `workspace.action` and the like: acknowledges the named action.
pub open spec fn cmd_action_ack(m: ControlV, ms: Members) -> Outcome {
    match required_string(ms, "action"@) {
        Err(e) => fail(m, e),
        Ok(a) => ok(m, JsonV::Object(seq![("ok"@, jbool(true)), ("action"@, jstr(a))])),
    }
}

pub fn action_ack(state: &mut ControlState, params: &Vec<(String, Json)>) -> (r: Result<Json, CommandError>)
    ensures
        (final(state)@, res_view(r)) == cmd_action_ack(old(state)@, members_view(params@)),
{
    let a = match required_string_param(params, "action") { Err(e) => return Err(e), Ok(v) => v };
    let mut m = new_members();
    put(&mut m, "ok", boolean(true));
    let ghost av = a@;
    put(&mut m, "action", string(a));
    proof { assert(members_view(m@) =~= seq![("ok"@, jbool(true)), ("action"@, jstr(av))]); }
    Ok(object(m))
}


// ---------------------------------------------------------------------------
// window.*
// ---------------------------------------------------------------------------

pub open spec fn window_rows(focused: Option<u64>, ws: Seq<WindowInfoV>) -> Seq<JsonV> {
    Seq::new(ws.len(), |i: int| window_row(i as nat, focused, ws[i]))
}

pub open spec fn pane_rows(focused: Option<u64>, ps: Seq<PaneInfo>) -> Seq<JsonV> {
    Seq::new(ps.len(), |i: int| pane_row(i as nat, focused, ps[i]))
}

pub open spec fn surface_rows(focused: Option<u64>, ss: Seq<SurfaceInfoV>) -> Seq<JsonV> {
    Seq::new(ss.len(), |i: int| surface_row(i as nat, focused, ss[i]))
}

fn window_rows_json(focused: Option<u64>, v: &Vec<WindowInfo>) -> (r: Vec<Json>)
    ensures
        items_view(r@) == window_rows(focused, win_info_views(v@)),
{
    let mut rows = new_items();
    let mut i: usize = 0;
    while i < v.len()
        invariant
            i <= v.len(),
            items_view(rows@) == window_rows(focused, win_info_views(v@).take(i as int)),
        decreases v.len() - i,
    {
        let ghost before = items_view(rows@);
        push_item(&mut rows, window_row_json(i, focused, &v[i]));
        proof { assert(items_view(rows@) =~= window_rows(focused, win_info_views(v@).take(i + 1))); }
        i = i + 1;
    }
    proof { assert(win_info_views(v@).take(i as int) =~= win_info_views(v@)); }
    rows
}

fn pane_rows_json(focused: Option<u64>, v: &Vec<PaneInfo>) -> (r: Vec<Json>)
    ensures
        items_view(r@) == pane_rows(focused, v@),
{
    let mut rows = new_items();
    let mut i: usize = 0;
    while i < v.len()
        invariant
            i <= v.len(),
            items_view(rows@) == pane_rows(focused, v@.take(i as int)),
        decreases v.len() - i,
    {
        push_item(&mut rows, pane_row_json(i, focused, &v[i]));
        proof { assert(items_view(rows@) =~= pane_rows(focused, v@.take(i + 1))); }
        i = i + 1;
    }
    proof { assert(v@.take(i as int) =~= v@); }
    rows
}

fn surface_rows_json(focused: Option<u64>, v: &Vec<SurfaceInfo>) -> (r: Vec<Json>)
    ensures
        items_view(r@) == surface_rows(focused, surf_info_views(v@)),
{
    let mut rows = new_items();
    let mut i: usize = 0;
    while i < v.len()
        invariant
            i <= v.len(),
            items_view(rows@) == surface_rows(focused, surf_info_views(v@).take(i as int)),
        decreases v.len() - i,
    {
        push_item(&mut rows, surface_row_json(i, focused, &v[i]));
        proof { assert(items_view(rows@) =~= surface_rows(focused, surf_info_views(v@).take(i + 1))); }
        i = i + 1;
    }
    proof { assert(surf_info_views(v@).take(i as int) =~= surf_info_views(v@)); }
    rows
}

/// An object of one member.
pub open spec fn single(key: Seq<char>, v: JsonV) -> JsonV {
    JsonV::Object(seq![(key, v)])
}

fn single_json(key: &str, v: Json) -> (r: Json)
    ensures
        json_view(r) == single(key@, json_view(v)),
{
    let mut m = new_members();
    let ghost jv = json_view(v);
    put(&mut m, key, v);
    proof { assert(members_view(m@) =~= seq![(key@, jv)]); }
    object(m)
}

/// `window.list`: the current workspace's windows, counted from one.
pub open spec fn cmd_window_list(m: ControlV) -> Outcome {
    match list_windows(m) {
        None => fail(m, not_found_err("no active workspace"@)),
        Some(ws) => {
            let focused = match current_window(m) { Some(w) => Some(w.id), None => None };
            ok(m, single("windows"@, JsonV::Array(window_rows(focused, ws))))
        },
    }
}

pub fn window_list(state: &mut ControlState) -> (r: Result<Json, CommandError>)
    ensures
        (final(state)@, res_view(r)) == cmd_window_list(old(state)@),
{
    let ws = match state.list_windows() { None => return Err(CommandError::not_found("no active workspace")), Some(v) => v };
    let focused = match state.current_window() { Some(w) => Some(w.id), None => None };
    Ok(single_json("windows", array(window_rows_json(focused, &ws))))
}

pub open spec fn win_outcome(r: (ControlV, Option<WindowInfoV>), e: ErrorV) -> Outcome {
    match r.1 {
        Some(w) => ok(r.0, win_reply(w)),
        None => fail(r.0, e),
    }
}

fn answer_window(r: Option<WindowInfo>, missing: CommandError) -> (out: Result<Json, CommandError>)
    ensures
        res_view(out) == match win_info_opt(r) {
            Some(w) => Ok::<JsonV, ErrorV>(win_reply(w)),
            None => Err::<JsonV, ErrorV>(missing@),
        },
{
    match r {
        Some(w) => Ok(window_reply(&w)),
        None => Err(missing),
    }
}

/// `window.current`
pub open spec fn cmd_window_current(m: ControlV) -> Outcome {
    win_outcome((m, current_window(m)), not_found_err("no active window"@))
}

pub fn window_current(state: &mut ControlState) -> (r: Result<Json, CommandError>)
    ensures
        (final(state)@, res_view(r)) == cmd_window_current(old(state)@),
{
    let r = state.current_window();
    answer_window(r, CommandError::not_found("no active window"))
}

/// `window.create`
pub open spec fn cmd_window_create(m: ControlV, ms: Members) -> Outcome {
    match string_param(ms, "title"@) {
        Err(e) => fail(m, e),
        Ok(title) => win_outcome(create_window(m, title), not_found_err("no active workspace"@)),
    }
}

pub fn window_create(state: &mut ControlState, params: &Vec<(String, Json)>) -> (r: Result<Json, CommandError>)
    requires
        has_id_room(old(state)@),
    ensures
        (final(state)@, res_view(r)) == cmd_window_create(old(state)@, members_view(params@)),
{
    let title = match optional_string_param(params, "title") { Err(e) => return Err(e), Ok(v) => v };
    let r = state.create_window(title);
    answer_window(r, CommandError::not_found("no active workspace"))
}

/// `window.focus`
pub open spec fn cmd_window_focus(m: ControlV, ms: Members) -> Outcome {
    match u64_param_any(ms, seq!["window_id"@, "id"@]) {
        Err(e) => fail(m, e),
        Ok(None) => fail(m, invalid_params_err("window_id is required"@)),
        Ok(Some(id)) => win_outcome(focus_window(m, id), not_found_err("window not found"@)),
    }
}

pub fn window_focus(state: &mut ControlState, params: &Vec<(String, Json)>) -> (r: Result<Json, CommandError>)
    ensures
        (final(state)@, res_view(r)) == cmd_window_focus(old(state)@, members_view(params@)),
{
    proof { assert(keys_view(["window_id", "id"]@) =~= seq!["window_id"@, "id"@]); }
    let id = match optional_u64_param_any(params, &["window_id", "id"]) {
        Err(e) => return Err(e),
        Ok(None) => return Err(CommandError::invalid_params("window_id is required")),
        Ok(Some(v)) => v,
    };
    let r = state.focus_window(id);
    answer_window(r, CommandError::not_found("window not found"))
}

/// `window.close`
pub open spec fn cmd_window_close(m: ControlV, ms: Members) -> Outcome {
    match u64_param_any(ms, seq!["window_id"@, "id"@]) {
        Err(e) => fail(m, e),
        Ok(id) => win_outcome(close_window(m, id), conflict_err("cannot close window"@)),
    }
}

pub fn window_close(state: &mut ControlState, params: &Vec<(String, Json)>) -> (r: Result<Json, CommandError>)
    ensures
        (final(state)@, res_view(r)) == cmd_window_close(old(state)@, members_view(params@)),
{
    proof { assert(keys_view(["window_id", "id"]@) =~= seq!["window_id"@, "id"@]); }
    let id = match optional_u64_param_any(params, &["window_id", "id"]) { Err(e) => return Err(e), Ok(v) => v };
    let r = state.close_window(id);
    answer_window(r, CommandError::conflict("cannot close window"))
}

// ---------------------------------------------------------------------------
// pane.*
// ---------------------------------------------------------------------------

pub open spec fn focused_pane_id(m: ControlV) -> Option<u64> {
    match focused_handles(m) { Some((_, _, p, _)) => Some(p), None => None }
}

pub open spec fn focused_surface_id(m: ControlV) -> Option<u64> {
    match focused_handles(m) { Some((_, _, _, s)) => Some(s), None => None }
}

pub(crate) fn focused_pane_of(state: &ControlState) -> (r: Option<u64>)
    ensures
        r == focused_pane_id(state@),
{
    match state.focused_handles() { Some((_, _, p, _)) => Some(p), None => None }
}

pub(crate) fn focused_surface_of(state: &ControlState) -> (r: Option<u64>)
    ensures
        r == focused_surface_id(state@),
{
    match state.focused_handles() { Some((_, _, _, s)) => Some(s), None => None }
}

pub open spec fn pane_list_inner(m: ControlV) -> Outcome {
    match list_panes(m) {
        None => fail(m, not_found_err("pane list unavailable"@)),
        Some(ps) => ok(m, single("panes"@, JsonV::Array(pane_rows(focused_pane_id(m), ps)))),
    }
}

/// `pane.list`: the focused window's panes, in a workspace's scope.
pub open spec fn cmd_pane_list(m: ControlV, ms: Members) -> Outcome {
    match u64_param_any(ms, seq!["workspace_id"@]) {
        Err(e) => fail(m, e),
        Ok(ws) => scoped(m, ws, |s: ControlV| pane_list_inner(s)),
    }
}

fn workspace_scope_param(params: &Vec<(String, Json)>) -> (r: Result<Option<u64>, CommandError>)
    ensures
        match r {
            Ok(v) => u64_param_any(members_view(params@), seq!["workspace_id"@]) == Ok::<Option<u64>, ErrorV>(v),
            Err(e) => u64_param_any(members_view(params@), seq!["workspace_id"@]) == Err::<Option<u64>, ErrorV>(e@),
        },
{
    proof { assert(keys_view(["workspace_id"]@) =~= seq!["workspace_id"@]); }
    optional_u64_param_any(params, &["workspace_id"])
}

pub fn pane_list(state: &mut ControlState, params: &Vec<(String, Json)>) -> (r: Result<Json, CommandError>)
    ensures
        (final(state)@, res_view(r)) == cmd_pane_list(old(state)@, members_view(params@)),
{
    let ws = match workspace_scope_param(params) { Err(e) => return Err(e), Ok(v) => v };
    let orig = match enter_scope(state, ws) { Err(e) => return Err(e), Ok(o) => o };
    let res = match state.list_panes() {
        None => Err(CommandError::not_found("pane list unavailable")),
        Some(ps) => {
            let focused = focused_pane_of(state);
            Ok(single_json("panes", array(pane_rows_json(focused, &ps))))
        },
    };
    exit_scope(state, orig);
    res
}

pub open spec fn pane_surfaces_inner(m: ControlV, pane_id: Option<u64>) -> Outcome {
    match list_surfaces_for_pane(m, pane_id) {
        None => fail(m, not_found_err("pane not found"@)),
        Some(ss) => ok(m, single("surfaces"@, JsonV::Array(surface_rows(focused_surface_id(m), ss)))),
    }
}

/// `pane.surfaces`: the surfaces of a pane (by default the focused one).
pub open spec fn cmd_pane_surfaces(m: ControlV, ms: Members) -> Outcome {
    match u64_param_any(ms, seq!["workspace_id"@]) {
        Err(e) => fail(m, e),
        Ok(ws) => match u64_param_any(ms, seq!["pane_id"@, "id"@]) {
            Err(e) => fail(m, e),
            Ok(pane_id) => scoped(m, ws, |s: ControlV| pane_surfaces_inner(s, pane_id)),
        },
    }
}

pub fn pane_surfaces(state: &mut ControlState, params: &Vec<(String, Json)>) -> (r: Result<Json, CommandError>)
    ensures
        (final(state)@, res_view(r)) == cmd_pane_surfaces(old(state)@, members_view(params@)),
{
    proof { assert(keys_view(["pane_id", "id"]@) =~= seq!["pane_id"@, "id"@]); }
    let ws = match workspace_scope_param(params) { Err(e) => return Err(e), Ok(v) => v };
    let pane_id = match optional_u64_param_any(params, &["pane_id", "id"]) { Err(e) => return Err(e), Ok(v) => v };
    let orig = match enter_scope(state, ws) { Err(e) => return Err(e), Ok(o) => o };
    let res = match state.list_surfaces_for_pane(pane_id) {
        None => Err(CommandError::not_found("pane not found")),
        Some(ss) => {
            let focused = focused_surface_of(state);
            Ok(single_json("surfaces", array(surface_rows_json(focused, &ss))))
        },
    };
    exit_scope(state, orig);
    res
}

/// `pane.create`: a new pane with one surface in the focused window.
pub open spec fn cmd_pane_create(m: ControlV, ms: Members) -> Outcome {
    match string_param(ms, "surface_title"@) {
        Err(e) => fail(m, e),
        Ok(title) => match string_param(ms, "type"@) {
            Err(e) => fail(m, e),
            Ok(_) => match string_param(ms, "url"@) {
                Err(e) => fail(m, e),
                Ok(_) => {
                    let (m1, p) = create_pane(m, title);
                    match p {
                        None => fail(m1, not_found_err("no active window"@)),
                        Some(p) => {
                            let sid = match p.current_surface_id { Some(x) => x, None => 0 };
                            ok(m1, JsonV::Object(seq![
                                ("pane_id"@, jhandle(p.id)),
                                ("pane_ref"@, jref("pane"@, p.id)),
                                ("surface_id"@, jhandle(sid)),
                                ("surface_ref"@, jref("surface"@, sid)),
                                ("pane"@, pane_info_json(p)),
                            ]))
                        },
                    }
                },
            },
        },
    }
}

pub fn pane_create(state: &mut ControlState, params: &Vec<(String, Json)>) -> (r: Result<Json, CommandError>)
    requires
        has_id_room(old(state)@),
    ensures
        (final(state)@, res_view(r)) == cmd_pane_create(old(state)@, members_view(params@)),
{
    let title = match optional_string_param(params, "surface_title") { Err(e) => return Err(e), Ok(v) => v };
    match optional_string_param(params, "type") { Err(e) => return Err(e), Ok(_) => {} }
    match optional_string_param(params, "url") { Err(e) => return Err(e), Ok(_) => {} }
    let p = match state.create_pane(title) { None => return Err(CommandError::not_found("no active window")), Some(p) => p };
    let sid = match p.current_surface_id { Some(x) => x, None => 0 };
    let mut m = new_members();
    put(&mut m, "pane_id", handle_json(p.id));
    put(&mut m, "pane_ref", string(pane_ref(p.id)));
    put(&mut m, "surface_id", handle_json(sid));
    put(&mut m, "surface_ref", string(surface_ref(sid)));
    put(&mut m, "pane", pane_info_as_json(&p));
    proof {
        assert(members_view(m@) =~= seq![
            ("pane_id"@, jhandle(p.id)),
            ("pane_ref"@, jref("pane"@, p.id)),
            ("surface_id"@, jhandle(sid)),
            ("surface_ref"@, jref("surface"@, sid)),
            ("pane"@, pane_info_json(p)),
        ]);
    }
    Ok(object(m))
}

pub open spec fn pane_outcome(r: (ControlV, Option<PaneInfo>), e: ErrorV) -> Outcome {
    match r.1 {
        Some(p) => ok(r.0, pane_reply(p)),
        None => fail(r.0, e),
    }
}

fn answer_pane(r: Option<PaneInfo>, missing: CommandError) -> (out: Result<Json, CommandError>)
    ensures
        res_view(out) == match r {
            Some(p) => Ok::<JsonV, ErrorV>(pane_reply(p)),
            None => Err::<JsonV, ErrorV>(missing@),
        },
{
    match r {
        Some(p) => Ok(pane_reply_json(&p)),
        None => Err(missing),
    }
}

/// `pane.focus`
pub open spec fn cmd_pane_focus(m: ControlV, ms: Members) -> Outcome {
    match u64_param_any(ms, seq!["pane_id"@, "id"@]) {
        Err(e) => fail(m, e),
        Ok(None) => fail(m, invalid_params_err("pane_id is required"@)),
        Ok(Some(id)) => pane_outcome(focus_pane(m, id), not_found_err("pane not found"@)),
    }
}

pub fn pane_focus(state: &mut ControlState, params: &Vec<(String, Json)>) -> (r: Result<Json, CommandError>)
    ensures
        (final(state)@, res_view(r)) == cmd_pane_focus(old(state)@, members_view(params@)),
{
    proof { assert(keys_view(["pane_id", "id"]@) =~= seq!["pane_id"@, "id"@]); }
    let id = match optional_u64_param_any(params, &["pane_id", "id"]) {
        Err(e) => return Err(e),
        Ok(None) => return Err(CommandError::invalid_params("pane_id is required")),
        Ok(Some(v)) => v,
    };
    let r = state.focus_pane(id);
    answer_pane(r, CommandError::not_found("pane not found"))
}

/// `pane.swap`: swaps two panes of the focused window and lists its panes.
pub open spec fn cmd_pane_swap(m: ControlV, ms: Members) -> Outcome {
    match u64_param_any(ms, seq!["first_pane_id"@, "pane_id"@]) {
        Err(e) => fail(m, e),
        Ok(None) => fail(m, invalid_params_err("pane_id/first_pane_id is required"@)),
        Ok(Some(first)) => match u64_param_any(ms, seq!["second_pane_id"@, "target_pane_id"@]) {
            Err(e) => fail(m, e),
            Ok(None) => fail(m, invalid_params_err("target_pane_id/second_pane_id is required"@)),
            Ok(Some(second)) => {
                let (m1, r) = swap_panes(m, first, second);
                match r {
                    None => fail(m1, not_found_err("pane not found"@)),
                    Some(ps) => ok(m1, single("panes"@, JsonV::Array(pane_rows(focused_pane_id(m1), ps)))),
                }
            },
        },
    }
}

pub fn pane_swap(state: &mut ControlState, params: &Vec<(String, Json)>) -> (r: Result<Json, CommandError>)
    ensures
        (final(state)@, res_view(r)) == cmd_pane_swap(old(state)@, members_view(params@)),
{
    proof {
        assert(keys_view(["first_pane_id", "pane_id"]@) =~= seq!["first_pane_id"@, "pane_id"@]);
        assert(keys_view(["second_pane_id", "target_pane_id"]@) =~= seq!["second_pane_id"@, "target_pane_id"@]);
    }
    let first = match optional_u64_param_any(params, &["first_pane_id", "pane_id"]) {
        Err(e) => return Err(e),
        Ok(None) => return Err(CommandError::invalid_params("pane_id/first_pane_id is required")),
        Ok(Some(v)) => v,
    };
    let second = match optional_u64_param_any(params, &["second_pane_id", "target_pane_id"]) {
        Err(e) => return Err(e),
        Ok(None) => return Err(CommandError::invalid_params("target_pane_id/second_pane_id is required")),
        Ok(Some(v)) => v,
    };
    let ps = match state.swap_panes(first, second) { None => return Err(CommandError::not_found("pane not found")), Some(v) => v };
    let focused = focused_pane_of(state);
    Ok(single_json("panes", array(pane_rows_json(focused, &ps))))
}

/// `pane.break`: moves a pane into a new workspace.
pub open spec fn cmd_pane_break(m: ControlV, ms: Members) -> Outcome {
    match u64_param_any(ms, seq!["pane_id"@, "id"@]) {
        Err(e) => fail(m, e),
        Ok(id) => {
            let (m1, r) = break_pane(m, id);
            match r {
                None => fail(m1, not_found_err("pane not found"@)),
                Some(p) => ok(m1, JsonV::Object(seq![
                    ("workspace_id"@, jhandle(m1.current_workspace_id)),
                    ("workspace_ref"@, jref("workspace"@, m1.current_workspace_id)),
                    ("pane_id"@, jhandle(p.id)),
                    ("pane_ref"@, jref("pane"@, p.id)),
                    ("pane"@, pane_info_json(p)),
                ])),
            }
        },
    }
}

pub fn pane_break(state: &mut ControlState, params: &Vec<(String, Json)>) -> (r: Result<Json, CommandError>)
    requires
        has_id_room(old(state)@),
    ensures
        (final(state)@, res_view(r)) == cmd_pane_break(old(state)@, members_view(params@)),
{
    proof { assert(keys_view(["pane_id", "id"]@) =~= seq!["pane_id"@, "id"@]); }
    let id = match optional_u64_param_any(params, &["pane_id", "id"]) { Err(e) => return Err(e), Ok(v) => v };
    let p = match state.break_pane(id) { None => return Err(CommandError::not_found("pane not found")), Some(p) => p };
    let wsid = state.current_workspace_id();
    let mut m = new_members();
    put(&mut m, "workspace_id", handle_json(wsid));
    put(&mut m, "workspace_ref", string(workspace_ref(wsid)));
    put(&mut m, "pane_id", handle_json(p.id));
    put(&mut m, "pane_ref", string(pane_ref(p.id)));
    put(&mut m, "pane", pane_info_as_json(&p));
    proof {
        assert(members_view(m@) =~= seq![
            ("workspace_id"@, jhandle(wsid)),
            ("workspace_ref"@, jref("workspace"@, wsid)),
            ("pane_id"@, jhandle(p.id)),
            ("pane_ref"@, jref("pane"@, p.id)),
            ("pane"@, pane_info_json(p)),
        ]);
    }
    Ok(object(m))
}

/// `pane.join`: moves the surfaces of a pane (given, or holding a surface, or
/// the focused one) into a target pane.
pub open spec fn cmd_pane_join(m: ControlV, ms: Members) -> Outcome {
    match u64_param_any(ms, seq!["target_pane_id"@]) {
        Err(e) => fail(m, e),
        Ok(None) => fail(m, invalid_params_err("target_pane_id is required"@)),
        Ok(Some(target)) => {
            let source: Result<u64, ErrorV> = match u64_param_any(ms, seq!["source_pane_id"@, "pane_id"@]) {
                Err(e) => Err(e),
                Ok(Some(s)) => Ok(s),
                Ok(None) => match u64_param_any(ms, seq!["surface_id"@]) {
                    Err(e) => Err(e),
                    Ok(Some(sid)) => match pane_for_surface(m, sid) {
                        Some(p) => Ok(p),
                        None => Err(not_found_err("surface not found"@)),
                    },
                    Ok(None) => match focused_pane_id(m) {
                        Some(p) => Ok(p),
                        None => Err(not_found_err("pane not found"@)),
                    },
                },
            };
            match source {
                Err(e) => fail(m, e),
                Ok(s) => pane_outcome(join_panes(m, s, target), not_found_err("pane not found"@)),
            }
        },
    }
}

pub fn pane_join(state: &mut ControlState, params: &Vec<(String, Json)>) -> (r: Result<Json, CommandError>)
    ensures
        (final(state)@, res_view(r)) == cmd_pane_join(old(state)@, members_view(params@)),
{
    proof {
        assert(keys_view(["target_pane_id"]@) =~= seq!["target_pane_id"@]);
        assert(keys_view(["source_pane_id", "pane_id"]@) =~= seq!["source_pane_id"@, "pane_id"@]);
        assert(keys_view(["surface_id"]@) =~= seq!["surface_id"@]);
    }
    let target = match optional_u64_param_any(params, &["target_pane_id"]) {
        Err(e) => return Err(e),
        Ok(None) => return Err(CommandError::invalid_params("target_pane_id is required")),
        Ok(Some(v)) => v,
    };
    let source = match optional_u64_param_any(params, &["source_pane_id", "pane_id"]) {
        Err(e) => return Err(e),
        Ok(Some(s)) => s,
        Ok(None) => match optional_u64_param_any(params, &["surface_id"]) {
            Err(e) => return Err(e),
            Ok(Some(sid)) => match state.find_pane_for_surface_in_current_window(sid) {
                Some(p) => p,
                None => return Err(CommandError::not_found("surface not found")),
            },
            Ok(None) => match focused_pane_of(state) {
                Some(p) => p,
                None => return Err(CommandError::not_found("pane not found")),
            },
        },
    };
    let r = state.join_panes(source, target);
    answer_pane(r, CommandError::not_found("pane not found"))
}

/// `pane.last`
pub open spec fn cmd_pane_last(m: ControlV) -> Outcome {
    pane_outcome(focus_last_pane(m), not_found_err("last pane not found"@))
}

pub fn pane_last(state: &mut ControlState) -> (r: Result<Json, CommandError>)
    ensures
        (final(state)@, res_view(r)) == cmd_pane_last(old(state)@),
{
    let r = state.focus_last_pane();
    answer_pane(r, CommandError::not_found("last pane not found"))
}


/// An `i64` as a JSON number.
pub open spec fn jint(v: i64) -> JsonV {
    if v >= 0 { juint(v as u64) } else { JsonV::Number(JsonNumber::NegInt(v)) }
}

fn int_json(v: i64) -> (r: Json)
    ensures
        json_view(r) == jint(v),
{
    if v >= 0 { uint(v as u64) } else { Json::Number(JsonNumber::NegInt(v)) }
}

/// The step of a resize; a step beyond `i64::MAX` counts as `i64::MAX`.
pub open spec fn resize_step(a: u64) -> i64 {
    if a > i64::MAX as u64 { i64::MAX } else { a as i64 }
}

/// `pane.resize`: grows a pane's size override in a direction (default right,
/// by 1).
pub open spec fn cmd_pane_resize(m: ControlV, ms: Members) -> Outcome {
    match u64_param_any(ms, seq!["pane_id"@, "id"@]) {
        Err(e) => fail(m, e),
        Ok(None) => fail(m, invalid_params_err("pane_id is required"@)),
        Ok(Some(pid)) => match string_param(ms, "direction"@) {
            Err(e) => fail(m, e),
            Ok(d) => match u64_param(ms, "amount"@) {
                Err(e) => fail(m, e),
                Ok(a) => {
                    let direction = ascii_lower(match d { Some(x) => x, None => "right"@ });
                    let amount = match a { Some(x) => x, None => 1 };
                    let (m1, r) = resize_pane(m, pid, direction, resize_step(amount));
                    match r {
                        None => fail(m1, not_found_err("pane not found"@)),
                        Some((w, h)) => ok(m1, JsonV::Object(seq![
                            ("pane_id"@, jhandle(pid)),
                            ("pane_ref"@, jref("pane"@, pid)),
                            ("direction"@, jstr(direction)),
                            ("amount"@, juint(amount)),
                            ("frame"@, JsonV::Object(seq![("width"@, jint(w)), ("height"@, jint(h))])),
                            ("ok"@, jbool(true)),
                        ])),
                    }
                },
            },
        },
    }
}

pub fn pane_resize(state: &mut ControlState, params: &Vec<(String, Json)>) -> (r: Result<Json, CommandError>)
    ensures
        (final(state)@, res_view(r)) == cmd_pane_resize(old(state)@, members_view(params@)),
{
    proof { assert(keys_view(["pane_id", "id"]@) =~= seq!["pane_id"@, "id"@]); }
    let pid = match optional_u64_param_any(params, &["pane_id", "id"]) {
        Err(e) => return Err(e),
        Ok(None) => return Err(CommandError::invalid_params("pane_id is required")),
        Ok(Some(v)) => v,
    };
    let d = match optional_string_param(params, "direction") { Err(e) => return Err(e), Ok(v) => v };
    let a = match optional_u64_param(params, "amount") { Err(e) => return Err(e), Ok(v) => v };
    let direction = match d {
        Some(x) => to_ascii_lowercase(x.as_str()),
        None => to_ascii_lowercase("right"),
    };
    let amount = match a { Some(x) => x, None => 1 };
    let step: i64 = if amount > i64::MAX as u64 { i64::MAX } else { amount as i64 };
    let (w, h) = match state.resize_pane(pid, direction.as_str(), step) {
        None => return Err(CommandError::not_found("pane not found")),
        Some(x) => x,
    };
    let mut frame = new_members();
    put(&mut frame, "width", int_json(w));
    put(&mut frame, "height", int_json(h));
    proof { assert(members_view(frame@) =~= seq![("width"@, jint(w)), ("height"@, jint(h))]); }
    let ghost dv = direction@;
    let mut m = new_members();
    put(&mut m, "pane_id", handle_json(pid));
    put(&mut m, "pane_ref", string(pane_ref(pid)));
    put(&mut m, "direction", string(direction));
    put(&mut m, "amount", uint(amount));
    put(&mut m, "frame", object(frame));
    put(&mut m, "ok", boolean(true));
    proof {
        assert(members_view(m@) =~= seq![
            ("pane_id"@, jhandle(pid)),
            ("pane_ref"@, jref("pane"@, pid)),
            ("direction"@, jstr(dv)),
            ("amount"@, juint(amount)),
            ("frame"@, JsonV::Object(seq![("width"@, jint(w)), ("height"@, jint(h))])),
            ("ok"@, jbool(true)),
        ]);
    }
    Ok(object(m))
}

// ---------------------------------------------------------------------------
// surface.*
// ---------------------------------------------------------------------------

pub open spec fn surf_outcome(r: (ControlV, Option<SurfaceInfoV>), e: ErrorV) -> Outcome {
    match r.1 {
        Some(s) => ok(r.0, surf_reply(s)),
        None => fail(r.0, e),
    }
}

fn answer_surface(r: Option<SurfaceInfo>, missing: CommandError) -> (out: Result<Json, CommandError>)
    ensures
        res_view(out) == match surf_info_opt(r) {
            Some(s) => Ok::<JsonV, ErrorV>(surf_reply(s)),
            None => Err::<JsonV, ErrorV>(missing@),
        },
{
    match r {
        Some(s) => Ok(surface_reply(&s)),
        None => Err(missing),
    }
}

pub open spec fn surface_list_inner(m: ControlV) -> Outcome {
    match list_surfaces(m) {
        None => fail(m, not_found_err("surface list unavailable"@)),
        Some(ss) => ok(m, single("surfaces"@, JsonV::Array(surface_rows(focused_surface_id(m), ss)))),
    }
}

/// `surface.list`: the focused window's surfaces, in a workspace's scope.
pub open spec fn cmd_surface_list(m: ControlV, ms: Members) -> Outcome {
    match u64_param_any(ms, seq!["workspace_id"@]) {
        Err(e) => fail(m, e),
        Ok(ws) => scoped(m, ws, |s: ControlV| surface_list_inner(s)),
    }
}

pub fn surface_list(state: &mut ControlState, params: &Vec<(String, Json)>) -> (r: Result<Json, CommandError>)
    ensures
        (final(state)@, res_view(r)) == cmd_surface_list(old(state)@, members_view(params@)),
{
    let ws = match workspace_scope_param(params) { Err(e) => return Err(e), Ok(v) => v };
    let orig = match enter_scope(state, ws) { Err(e) => return Err(e), Ok(o) => o };
    let res = match state.list_surfaces() {
        None => Err(CommandError::not_found("surface list unavailable")),
        Some(ss) => {
            let focused = focused_surface_of(state);
            Ok(single_json("surfaces", array(surface_rows_json(focused, &ss))))
        },
    };
    exit_scope(state, orig);
    res
}

/// `surface.current`, in a workspace's scope.
pub open spec fn cmd_surface_current(m: ControlV, ms: Members) -> Outcome {
    match u64_param_any(ms, seq!["workspace_id"@]) {
        Err(e) => fail(m, e),
        Ok(ws) => scoped(m, ws, |s: ControlV| surf_outcome((s, current_surface(s)), not_found_err("no active surface"@))),
    }
}

pub fn surface_current(state: &mut ControlState, params: &Vec<(String, Json)>) -> (r: Result<Json, CommandError>)
    ensures
        (final(state)@, res_view(r)) == cmd_surface_current(old(state)@, members_view(params@)),
{
    let ws = match workspace_scope_param(params) { Err(e) => return Err(e), Ok(v) => v };
    let orig = match enter_scope(state, ws) { Err(e) => return Err(e), Ok(o) => o };
    let res = answer_surface(state.current_surface(), CommandError::not_found("no active surface"));
    exit_scope(state, orig);
    res
}

/// `surface.create`: a surface in the focused pane, in a workspace's scope.
pub open spec fn cmd_surface_create(m: ControlV, ms: Members) -> Outcome {
    match u64_param_any(ms, seq!["workspace_id"@]) {
        Err(e) => fail(m, e),
        Ok(ws) => match string_param(ms, "title"@) {
            Err(e) => fail(m, e),
            Ok(title) => match string_param(ms, "type"@) {
                Err(e) => fail(m, e),
                Ok(_) => match string_param(ms, "url"@) {
                    Err(e) => fail(m, e),
                    Ok(_) => scoped(m, ws, |s: ControlV| surf_outcome(create_surface(s, title), not_found_err("no active pane"@))),
                },
            },
        },
    }
}

pub open spec fn state_room(m: ControlV) -> bool {
    has_id_room(m) && m.next_surface_id < u64::MAX - 1
}

pub fn surface_create(state: &mut ControlState, params: &Vec<(String, Json)>) -> (r: Result<Json, CommandError>)
    requires
        state_room(old(state)@),
    ensures
        (final(state)@, res_view(r)) == cmd_surface_create(old(state)@, members_view(params@)),
{
    let ws = match workspace_scope_param(params) { Err(e) => return Err(e), Ok(v) => v };
    let title = match optional_string_param(params, "title") { Err(e) => return Err(e), Ok(v) => v };
    match optional_string_param(params, "type") { Err(e) => return Err(e), Ok(_) => {} }
    match optional_string_param(params, "url") { Err(e) => return Err(e), Ok(_) => {} }
    let orig = match enter_scope(state, ws) { Err(e) => return Err(e), Ok(o) => o };
    let res = answer_surface(state.create_surface(title), CommandError::not_found("no active pane"));
    exit_scope(state, orig);
    res
}

pub open spec fn surface_split_inner(m: ControlV, source: Option<u64>, direction: Seq<char>, title: Option<Seq<char>>) -> Outcome {
    let from_surface = match source { Some(sid) => pane_for_surface(m, sid), None => None };
    let pane = match from_surface { Some(p) => Some(p), None => focused_pane_id(m) };
    match pane {
        None => fail(m, not_found_err("no active pane"@)),
        Some(p) => {
            let (m1, r) = split_surface_from_pane(m, p, title);
            match r {
                None => fail(m1, not_found_err("no active window"@)),
                Some(sv) => ok(register_split(m1, p, sv.pane_id, ascii_lower(direction)), surf_reply(sv)),
            }
        },
    }
}

/// `surface.split`: a new pane beside the pane of a surface (or the focused
/// pane), remembered as its neighbor in the direction (default right).
pub open spec fn cmd_surface_split(m: ControlV, ms: Members) -> Outcome {
    match u64_param_any(ms, seq!["workspace_id"@]) {
        Err(e) => fail(m, e),
        Ok(ws) => match u64_param_any(ms, seq!["surface_id"@, "id"@]) {
            Err(e) => fail(m, e),
            Ok(source) => match string_param(ms, "direction"@) {
                Err(e) => fail(m, e),
                Ok(d) => match string_param(ms, "title"@) {
                    Err(e) => fail(m, e),
                    Ok(title) => {
                        let direction = match d { Some(x) => x, None => "right"@ };
                        scoped(m, ws, |s: ControlV| surface_split_inner(s, source, direction, title))
                    },
                },
            },
        },
    }
}

pub fn surface_split(state: &mut ControlState, params: &Vec<(String, Json)>) -> (r: Result<Json, CommandError>)
    requires
        state_room(old(state)@),
    ensures
        (final(state)@, res_view(r)) == cmd_surface_split(old(state)@, members_view(params@)),
{
    proof { assert(keys_view(["surface_id", "id"]@) =~= seq!["surface_id"@, "id"@]); }
    let ws = match workspace_scope_param(params) { Err(e) => return Err(e), Ok(v) => v };
    let source = match optional_u64_param_any(params, &["surface_id", "id"]) { Err(e) => return Err(e), Ok(v) => v };
    let d = match optional_string_param(params, "direction") { Err(e) => return Err(e), Ok(v) => v };
    let title = match optional_string_param(params, "title") { Err(e) => return Err(e), Ok(v) => v };
    let direction = match d { Some(x) => x, None => String::from_str("right") };
    let orig = match enter_scope(state, ws) { Err(e) => return Err(e), Ok(o) => o };
    let from_surface = match source { Some(sid) => state.find_pane_for_surface_in_current_window(sid), None => None };
    let pane = match from_surface { Some(p) => Some(p), None => focused_pane_of(state) };
    let res = match pane {
        None => Err(CommandError::not_found("no active pane")),
        Some(p) => match state.split_surface_from_pane(p, title) {
            None => Err(CommandError::not_found("no active window")),
            Some(sv) => {
                state.register_split_relation(p, sv.pane_id, direction.as_str());
                Ok(surface_reply(&sv))
            },
        },
    };
    exit_scope(state, orig);
    res
}

/// `surface.focus`
pub open spec fn cmd_surface_focus(m: ControlV, ms: Members) -> Outcome {
    match u64_param_any(ms, seq!["surface_id"@, "id"@]) {
        Err(e) => fail(m, e),
        Ok(None) => fail(m, invalid_params_err("surface_id is required"@)),
        Ok(Some(sid)) => surf_outcome(focus_surface(m, sid), not_found_err("surface not found"@)),
    }
}

pub fn surface_focus(state: &mut ControlState, params: &Vec<(String, Json)>) -> (r: Result<Json, CommandError>)
    ensures
        (final(state)@, res_view(r)) == cmd_surface_focus(old(state)@, members_view(params@)),
{
    proof { assert(keys_view(["surface_id", "id"]@) =~= seq!["surface_id"@, "id"@]); }
    let sid = match optional_u64_param_any(params, &["surface_id", "id"]) {
        Err(e) => return Err(e),
        Ok(None) => return Err(CommandError::invalid_params("surface_id is required")),
        Ok(Some(v)) => v,
    };
    answer_surface(state.focus_surface(sid), CommandError::not_found("surface not found"))
}

/// `surface.close`
pub open spec fn cmd_surface_close(m: ControlV, ms: Members) -> Outcome {
    match u64_param_any(ms, seq!["surface_id"@, "id"@]) {
        Err(e) => fail(m, e),
        Ok(sid) => surf_outcome(close_surface(m, sid), not_found_err("surface not found"@)),
    }
}

pub fn surface_close(state: &mut ControlState, params: &Vec<(String, Json)>) -> (r: Result<Json, CommandError>)
    requires
        state_room(old(state)@),
    ensures
        (final(state)@, res_view(r)) == cmd_surface_close(old(state)@, members_view(params@)),
{
    proof { assert(keys_view(["surface_id", "id"]@) =~= seq!["surface_id"@, "id"@]); }
    let sid = match optional_u64_param_any(params, &["surface_id", "id"]) { Err(e) => return Err(e), Ok(v) => v };
    answer_surface(state.close_surface(sid), CommandError::not_found("surface not found"))
}

/// `surface.move`: into a target pane, at an index or at the end.
pub open spec fn cmd_surface_move(m: ControlV, ms: Members) -> Outcome {
    match u64_param_any(ms, seq!["surface_id"@, "id"@]) {
        Err(e) => fail(m, e),
        Ok(None) => fail(m, invalid_params_err("surface_id is required"@)),
        Ok(Some(sid)) => match u64_param_any(ms, seq!["target_pane_id"@, "pane_id"@]) {
            Err(e) => fail(m, e),
            Ok(None) => fail(m, invalid_params_err("target_pane_id/pane_id is required"@)),
            Ok(Some(target)) => match index_param(ms, "index"@) {
                Err(e) => fail(m, e),
                Ok(index) => surf_outcome(
                    move_surface(m, sid, target, match index { Some(x) => Some(x as int), None => None }),
                    not_found_err("surface or target pane not found"@),
                ),
            },
        },
    }
}

pub fn surface_move(state: &mut ControlState, params: &Vec<(String, Json)>) -> (r: Result<Json, CommandError>)
    requires
        state_room(old(state)@),
    ensures
        (final(state)@, res_view(r)) == cmd_surface_move(old(state)@, members_view(params@)),
{
    proof {
        assert(keys_view(["surface_id", "id"]@) =~= seq!["surface_id"@, "id"@]);
        assert(keys_view(["target_pane_id", "pane_id"]@) =~= seq!["target_pane_id"@, "pane_id"@]);
    }
    let sid = match optional_u64_param_any(params, &["surface_id", "id"]) {
        Err(e) => return Err(e),
        Ok(None) => return Err(CommandError::invalid_params("surface_id is required")),
        Ok(Some(v)) => v,
    };
    let target = match optional_u64_param_any(params, &["target_pane_id", "pane_id"]) {
        Err(e) => return Err(e),
        Ok(None) => return Err(CommandError::invalid_params("target_pane_id/pane_id is required")),
        Ok(Some(v)) => v,
    };
    let index = match optional_index_param(params, "index") { Err(e) => return Err(e), Ok(v) => v };
    answer_surface(state.move_surface(sid, target, index), CommandError::not_found("surface or target pane not found"))
}

/// `surface.reorder`: within its pane, to an index, before or after another
/// surface of the focused window; exactly one target is required.
pub open spec fn cmd_surface_reorder(m: ControlV, ms: Members) -> Outcome {
    match u64_param_any(ms, seq!["surface_id"@, "id"@]) {
        Err(e) => fail(m, e),
        Ok(None) => fail(m, invalid_params_err("surface_id is required"@)),
        Ok(Some(sid)) => match index_param(ms, "index"@) {
            Err(e) => fail(m, e),
            Ok(index) => match u64_param_any(ms, seq!["before_surface_id"@]) {
                Err(e) => fail(m, e),
                Ok(before) => match u64_param_any(ms, seq!["after_surface_id"@]) {
                    Err(e) => fail(m, e),
                    Ok(after) => if count_some(index) + count_some(before) + count_some(after) != 1 {
                        fail(m, invalid_params_err("surface.reorder requires exactly one target: index|before_surface_id|after_surface_id"@))
                    } else {
                        let target: Result<int, ErrorV> = match index {
                            Some(i) => Ok(i as int),
                            None => match before {
                                Some(b) => match find_in_focused_window(m, b) {
                                    Some((_, _, _, l)) => Ok(l),
                                    None => Err(not_found_err("before_surface not found"@)),
                                },
                                None => match after {
                                    Some(a) => match find_in_focused_window(m, a) {
                                        Some((_, _, _, l)) => Ok(if l + 1 <= usize::MAX { l + 1 } else { usize::MAX as int }),
                                        None => Err(not_found_err("after_surface not found"@)),
                                    },
                                    None => Ok(0),
                                },
                            },
                        };
                        match target {
                            Err(e) => fail(m, e),
                            Ok(t) => surf_outcome(reorder_surface(m, sid, t), not_found_err("surface not found"@)),
                        }
                    },
                },
            },
        },
    }
}

pub fn surface_reorder(state: &mut ControlState, params: &Vec<(String, Json)>) -> (r: Result<Json, CommandError>)
    ensures
        (final(state)@, res_view(r)) == cmd_surface_reorder(old(state)@, members_view(params@)),
{
    proof {
        assert(keys_view(["surface_id", "id"]@) =~= seq!["surface_id"@, "id"@]);
        assert(keys_view(["before_surface_id"]@) =~= seq!["before_surface_id"@]);
        assert(keys_view(["after_surface_id"]@) =~= seq!["after_surface_id"@]);
    }
    let sid = match optional_u64_param_any(params, &["surface_id", "id"]) {
        Err(e) => return Err(e),
        Ok(None) => return Err(CommandError::invalid_params("surface_id is required")),
        Ok(Some(v)) => v,
    };
    let index = match optional_index_param(params, "index") { Err(e) => return Err(e), Ok(v) => v };
    let before = match optional_u64_param_any(params, &["before_surface_id"]) { Err(e) => return Err(e), Ok(v) => v };
    let after = match optional_u64_param_any(params, &["after_surface_id"]) { Err(e) => return Err(e), Ok(v) => v };
    let targets: usize = (if index.is_some() { 1usize } else { 0 }) + (if before.is_some() { 1usize } else { 0 })
        + (if after.is_some() { 1usize } else { 0 });
    if targets != 1 {
        return Err(CommandError::invalid_params(
            "surface.reorder requires exactly one target: index|before_surface_id|after_surface_id",
        ));
    }
    let target: usize = match index {
        Some(i) => i,
        None => match before {
            Some(b) => match state.surface_index_in_current_window(b) {
                None => return Err(CommandError::not_found("before_surface not found")),
                Some(l) => l,
            },
            None => match after {
                Some(a) => match state.surface_index_in_current_window(a) {
                    None => return Err(CommandError::not_found("after_surface not found")),
                    Some(l) => l.saturating_add(1),
                },
                None => 0,
            },
        },
    };
    answer_surface(state.reorder_surface(sid, target), CommandError::not_found("surface not found"))
}

/// `surface.drag_to_split`
pub open spec fn cmd_surface_drag(m: ControlV, ms: Members) -> Outcome {
    match u64_param_any(ms, seq!["surface_id"@, "id"@]) {
        Err(e) => fail(m, e),
        Ok(None) => fail(m, invalid_params_err("surface_id is required"@)),
        Ok(Some(sid)) => match string_param(ms, "title"@) {
            Err(e) => fail(m, e),
            Ok(title) => surf_outcome(drag_surface_to_split(m, sid, title), not_found_err("surface not found"@)),
        },
    }
}

pub fn surface_drag_to_split(state: &mut ControlState, params: &Vec<(String, Json)>) -> (r: Result<Json, CommandError>)
    requires
        state_room(old(state)@),
    ensures
        (final(state)@, res_view(r)) == cmd_surface_drag(old(state)@, members_view(params@)),
{
    proof { assert(keys_view(["surface_id", "id"]@) =~= seq!["surface_id"@, "id"@]); }
    let sid = match optional_u64_param_any(params, &["surface_id", "id"]) {
        Err(e) => return Err(e),
        Ok(None) => return Err(CommandError::invalid_params("surface_id is required")),
        Ok(Some(v)) => v,
    };
    let title = match optional_string_param(params, "title") { Err(e) => return Err(e), Ok(v) => v };
    answer_surface(state.drag_surface_to_split(sid, title), CommandError::not_found("surface not found"))
}


/// `surface.refresh`: counts a refresh of a surface of the focused window.
pub open spec fn cmd_surface_refresh(m: ControlV, ms: Members) -> Outcome {
    match u64_param_any(ms, seq!["surface_id"@, "id"@]) {
        Err(e) => fail(m, e),
        Ok(sid) => {
            let (m1, r) = update_surface(m, sid, SurfaceEditV::Refresh);
            match r {
                None => fail(m1, not_found_err("surface not found"@)),
                Some(v) => ok(m1, JsonV::Object(seq![
                    ("surface_id"@, jhandle(v.id)),
                    ("surface_ref"@, jref("surface"@, v.id)),
                    ("surface"@, surf_info_json(v)),
                ])),
            }
        },
    }
}

pub fn surface_refresh(state: &mut ControlState, params: &Vec<(String, Json)>) -> (r: Result<Json, CommandError>)
    ensures
        (final(state)@, res_view(r)) == cmd_surface_refresh(old(state)@, members_view(params@)),
{
    proof { assert(keys_view(["surface_id", "id"]@) =~= seq!["surface_id"@, "id"@]); }
    let sid = match optional_u64_param_any(params, &["surface_id", "id"]) { Err(e) => return Err(e), Ok(v) => v };
    let v = match state.update_surface(sid, &SurfaceEdit::Refresh) {
        None => return Err(CommandError::not_found("surface not found")),
        Some(v) => v,
    };
    let mut m = new_members();
    put(&mut m, "surface_id", handle_json(v.id));
    put(&mut m, "surface_ref", string(surface_ref(v.id)));
    put(&mut m, "surface", surface_info_json(&v));
    proof {
        assert(members_view(m@) =~= seq![
            ("surface_id"@, jhandle(v@.id)),
            ("surface_ref"@, jref("surface"@, v@.id)),
            ("surface"@, surf_info_json(v@)),
        ]);
    }
    Ok(object(m))
}

pub open spec fn capped_u64(n: nat) -> u64 {
    if n <= u64::MAX { n as u64 } else { u64::MAX }
}

/// A row of `surface.health`.
pub open spec fn health_row(index: nat, focused: Option<u64>, s: SurfaceInfoV) -> JsonV {
    JsonV::Object(seq![
        ("index"@, juint(index as u64)),
        ("id"@, jhandle(s.id)),
        ("ref"@, jref("surface"@, s.id)),
        ("surface_id"@, jhandle(s.id)),
        ("surface_ref"@, jref("surface"@, s.id)),
        ("pane_id"@, jhandle(s.pane_id)),
        ("pane_ref"@, jref("pane"@, s.pane_id)),
        ("type"@, jstr(s.panel_type)),
        ("focused"@, jbool(focused == Some(s.id))),
        ("selected"@, jbool(focused == Some(s.id))),
        ("healthy"@, jbool(true)),
        ("in_window"@, jbool(true)),
        ("hidden"@, jbool(false)),
        ("text_bytes"@, juint(capped_u64(utf8_len(s.text)))),
        ("refresh_count"@, juint(s.refresh_count)),
        ("flash_count"@, juint(s.flash_count)),
    ])
}

pub open spec fn health_rows(focused: Option<u64>, ss: Seq<SurfaceInfoV>) -> Seq<JsonV> {
    Seq::new(ss.len(), |i: int| health_row(i as nat, focused, ss[i]))
}

fn same_id(o: Option<u64>, id: u64) -> (r: bool)
    ensures
        r == (o == Some(id)),
{
    match o {
        Some(x) => x == id,
        None => false,
    }
}

fn health_row_json(index: usize, focused: Option<u64>, s: &SurfaceInfo) -> (r: Json)
    ensures
        json_view(r) == health_row(index as nat, focused, s@),
{
    let mut m = new_members();
    put(&mut m, "index", uint(index as u64));
    put(&mut m, "id", handle_json(s.id));
    put(&mut m, "ref", string(surface_ref(s.id)));
    put(&mut m, "surface_id", handle_json(s.id));
    put(&mut m, "surface_ref", string(surface_ref(s.id)));
    put(&mut m, "pane_id", handle_json(s.pane_id));
    put(&mut m, "pane_ref", string(pane_ref(s.pane_id)));
    put(&mut m, "type", string(s.panel_type.clone()));
    put(&mut m, "focused", boolean(same_id(focused, s.id)));
    put(&mut m, "selected", boolean(same_id(focused, s.id)));
    put(&mut m, "healthy", boolean(true));
    put(&mut m, "in_window", boolean(true));
    put(&mut m, "hidden", boolean(false));
    put(&mut m, "text_bytes", uint(utf8_byte_count(s.text.as_str())));
    put(&mut m, "refresh_count", uint(s.refresh_count));
    put(&mut m, "flash_count", uint(s.flash_count));
    proof { assert(members_view(m@) =~= health_row(index as nat, focused, s@)->Object_0); }
    object(m)
}

fn health_rows_json(focused: Option<u64>, v: &Vec<SurfaceInfo>) -> (r: Vec<Json>)
    ensures
        items_view(r@) == health_rows(focused, surf_info_views(v@)),
{
    let mut rows = new_items();
    let mut i: usize = 0;
    while i < v.len()
        invariant
            i <= v.len(),
            items_view(rows@) == health_rows(focused, surf_info_views(v@).take(i as int)),
        decreases v.len() - i,
    {
        push_item(&mut rows, health_row_json(i, focused, &v[i]));
        proof { assert(items_view(rows@) =~= health_rows(focused, surf_info_views(v@).take(i + 1))); }
        i = i + 1;
    }
    proof { assert(surf_info_views(v@).take(i as int) =~= surf_info_views(v@)); }
    rows
}

pub open spec fn health_inner(m: ControlV, sid: Option<u64>) -> Outcome {
    let focused = focused_surface_id(m);
    match sid {
        Some(x) => {
            let (m1, r) = update_surface(m, Some(x), SurfaceEditV::Nothing);
            match r {
                None => fail(m1, not_found_err("surface not found"@)),
                Some(v) => ok(m1, single("surfaces"@, JsonV::Array(health_rows(focused, seq![v])))),
            }
        },
        None => match list_surfaces(m) {
            None => fail(m, not_found_err("surface list unavailable"@)),
            Some(ss) => ok(m, single("surfaces"@, JsonV::Array(health_rows(focused, ss)))),
        },
    }
}

/// `surface.health`: one surface, or the focused window's surfaces, in a
/// workspace's scope.
pub open spec fn cmd_surface_health(m: ControlV, ms: Members) -> Outcome {
    match u64_param_any(ms, seq!["workspace_id"@]) {
        Err(e) => fail(m, e),
        Ok(ws) => match u64_param_any(ms, seq!["surface_id"@, "id"@]) {
            Err(e) => fail(m, e),
            Ok(sid) => scoped(m, ws, |s: ControlV| health_inner(s, sid)),
        },
    }
}

pub fn surface_health(state: &mut ControlState, params: &Vec<(String, Json)>) -> (r: Result<Json, CommandError>)
    ensures
        (final(state)@, res_view(r)) == cmd_surface_health(old(state)@, members_view(params@)),
{
    proof { assert(keys_view(["surface_id", "id"]@) =~= seq!["surface_id"@, "id"@]); }
    let ws = match workspace_scope_param(params) { Err(e) => return Err(e), Ok(v) => v };
    let sid = match optional_u64_param_any(params, &["surface_id", "id"]) { Err(e) => return Err(e), Ok(v) => v };
    let orig = match enter_scope(state, ws) { Err(e) => return Err(e), Ok(o) => o };
    let focused = focused_surface_of(state);
    let res = match sid {
        Some(x) => match state.update_surface(Some(x), &SurfaceEdit::Nothing) {
            None => Err(CommandError::not_found("surface not found")),
            Some(v) => {
                let one = vec![v];
                proof { assert(surf_info_views(one@) =~= seq![v@]); }
                Ok(single_json("surfaces", array(health_rows_json(focused, &one))))
            },
        },
        None => match state.list_surfaces() {
            None => Err(CommandError::not_found("surface list unavailable")),
            Some(ss) => Ok(single_json("surfaces", array(health_rows_json(focused, &ss)))),
        },
    };
    exit_scope(state, orig);
    res
}

/// The workspace and surface a surface command acts on: the given surface
/// (in the given workspace, or wherever it is), else the given workspace's
/// current surface, else the focused surface.
pub open spec fn resolve_target(m: ControlV, ws: Option<u64>, hint: Option<u64>) -> Result<(u64, u64), ErrorV> {
    match hint {
        Some(sid) => match ws {
            Some(w) => if workspace_contains_surface(m, w, sid) {
                Ok((w, sid))
            } else {
                Err(not_found_err("surface not found in workspace"@))
            },
            None => match workspace_of_surface(m, sid) {
                Some(w) => Ok((w, sid)),
                None => Err(not_found_err("surface not found"@)),
            },
        },
        None => match ws {
            Some(w) => match current_surface_of_workspace(m, w) {
                Some(sid) => Ok((w, sid)),
                None => Err(not_found_err("workspace/surface not found"@)),
            },
            None => match focused_handles(m) {
                Some((w, _, _, sid)) => Ok((w, sid)),
                None => Err(not_found_err("surface not found"@)),
            },
        },
    }
}

/// The target of a surface command; see `resolve_target`.
pub fn resolve_surface_target(state: &ControlState, ws: Option<u64>, hint: Option<u64>) -> (r: Result<(u64, u64), CommandError>)
    ensures
        match r {
            Ok(t) => resolve_target(state@, ws, hint) == Ok::<(u64, u64), ErrorV>(t),
            Err(e) => resolve_target(state@, ws, hint) == Err::<(u64, u64), ErrorV>(e@),
        },
{
    match hint {
        Some(sid) => match ws {
            Some(w) => if state.workspace_contains_surface(w, sid) {
                Ok((w, sid))
            } else {
                Err(CommandError::not_found("surface not found in workspace"))
            },
            None => match state.find_workspace_for_surface(sid) {
                Some(w) => Ok((w, sid)),
                None => Err(CommandError::not_found("surface not found")),
            },
        },
        None => match ws {
            Some(w) => match state.current_surface_id_for_workspace(w) {
                Some(sid) => Ok((w, sid)),
                None => Err(CommandError::not_found("workspace/surface not found")),
            },
            None => match state.focused_handles() {
                Some((w, _, _, sid)) => Ok((w, sid)),
                None => Err(CommandError::not_found("surface not found")),
            },
        },
    }
}

/// The hints of a surface command: `workspace_id`, and the surface under one
/// of `keys`.
pub open spec fn target_hints(ms: Members, keys: Seq<Seq<char>>) -> Result<(Option<u64>, Option<u64>), ErrorV> {
    match u64_param_any(ms, seq!["workspace_id"@]) {
        Err(e) => Err(e),
        Ok(ws) => match u64_param_any(ms, keys) {
            Err(e) => Err(e),
            Ok(h) => Ok((ws, h)),
        },
    }
}

fn surface_hints(params: &Vec<(String, Json)>) -> (r: Result<(Option<u64>, Option<u64>), CommandError>)
    ensures
        match r {
            Ok(v) => target_hints(members_view(params@), seq!["surface_id"@, "id"@]) == Ok::<(Option<u64>, Option<u64>), ErrorV>(v),
            Err(e) => target_hints(members_view(params@), seq!["surface_id"@, "id"@]) == Err::<(Option<u64>, Option<u64>), ErrorV>(e@),
        },
{
    proof { assert(keys_view(["surface_id", "id"]@) =~= seq!["surface_id"@, "id"@]); }
    let ws = match workspace_scope_param(params) { Err(e) => return Err(e), Ok(v) => v };
    let h = match optional_u64_param_any(params, &["surface_id", "id"]) { Err(e) => return Err(e), Ok(v) => v };
    Ok((ws, h))
}

/// The answer naming a workspace and one of its surfaces.
pub open spec fn ws_surface_reply(wsid: u64, v: SurfaceInfoV) -> JsonV {
    JsonV::Object(seq![
        ("workspace_id"@, jhandle(wsid)),
        ("workspace_ref"@, jref("workspace"@, wsid)),
        ("surface_id"@, jhandle(v.id)),
        ("surface_ref"@, jref("surface"@, v.id)),
        ("surface"@, surf_info_json(v)),
    ])
}

fn ws_surface_reply_json(wsid: u64, v: &SurfaceInfo) -> (r: Json)
    ensures
        json_view(r) == ws_surface_reply(wsid, v@),
{
    let mut m = new_members();
    put(&mut m, "workspace_id", handle_json(wsid));
    put(&mut m, "workspace_ref", string(workspace_ref(wsid)));
    put(&mut m, "surface_id", handle_json(v.id));
    put(&mut m, "surface_ref", string(surface_ref(v.id)));
    put(&mut m, "surface", surface_info_json(v));
    proof { assert(members_view(m@) =~= ws_surface_reply(wsid, v@)->Object_0); }
    object(m)
}

/// A surface command that edits the target surface and names it.
pub open spec fn cmd_surface_edit(m: ControlV, ms: Members, e: SurfaceEditV, count_flash: bool) -> Outcome {
    match target_hints(ms, seq!["surface_id"@, "id"@]) {
        Err(err) => fail(m, err),
        Ok((ws, hint)) => match resolve_target(m, ws, hint) {
            Err(err) => fail(m, err),
            Ok((w, sid)) => {
                let (m1, r) = update_surface_in(m, w, sid, e);
                match r {
                    None => fail(m1, not_found_err("surface not found"@)),
                    Some(v) => {
                        let m2 = if count_flash { ControlV { debug_flash_count: sat_inc(m1.debug_flash_count), ..m1 } } else { m1 };
                        ok(m2, ws_surface_reply(w, v))
                    },
                }
            },
        },
    }
}

/// `surface.trigger_flash` (counting the flash) and `surface.clear_history`.
pub fn surface_edit(state: &mut ControlState, params: &Vec<(String, Json)>, edit: &SurfaceEdit, count_flash: bool) -> (r: Result<Json, CommandError>)
    ensures
        (final(state)@, res_view(r)) == cmd_surface_edit(old(state)@, members_view(params@), edit@, count_flash),
{
    let (ws, hint) = match surface_hints(params) { Err(e) => return Err(e), Ok(v) => v };
    let (w, sid) = match resolve_surface_target(state, ws, hint) { Err(e) => return Err(e), Ok(t) => t };
    let v = match state.update_surface_metadata(w, sid, edit) {
        None => return Err(CommandError::not_found("surface not found")),
        Some(v) => v,
    };
    if count_flash {
        state.bump_debug_flash_count();
    }
    Ok(ws_surface_reply_json(w, &v))
}

/// `surface.read_text`
pub open spec fn cmd_surface_read_text(m: ControlV, ms: Members) -> Outcome {
    match target_hints(ms, seq!["surface_id"@, "id"@]) {
        Err(err) => fail(m, err),
        Ok((ws, hint)) => match resolve_target(m, ws, hint) {
            Err(err) => fail(m, err),
            Ok((w, sid)) => {
                let (m1, r) = update_surface_in(m, w, sid, SurfaceEditV::Nothing);
                match r {
                    None => fail(m1, not_found_err("surface not found"@)),
                    Some(v) => ok(m1, JsonV::Object(seq![
                        ("workspace_id"@, jhandle(w)),
                        ("workspace_ref"@, jref("workspace"@, w)),
                        ("surface_id"@, jhandle(v.id)),
                        ("surface_ref"@, jref("surface"@, v.id)),
                        ("text"@, jstr(v.text)),
                    ])),
                }
            },
        },
    }
}

pub fn surface_read_text(state: &mut ControlState, params: &Vec<(String, Json)>) -> (r: Result<Json, CommandError>)
    ensures
        (final(state)@, res_view(r)) == cmd_surface_read_text(old(state)@, members_view(params@)),
{
    let (ws, hint) = match surface_hints(params) { Err(e) => return Err(e), Ok(v) => v };
    let (w, sid) = match resolve_surface_target(state, ws, hint) { Err(e) => return Err(e), Ok(t) => t };
    let v = match state.update_surface_metadata(w, sid, &SurfaceEdit::Nothing) {
        None => return Err(CommandError::not_found("surface not found")),
        Some(v) => v,
    };
    let mut m = new_members();
    put(&mut m, "workspace_id", handle_json(w));
    put(&mut m, "workspace_ref", string(workspace_ref(w)));
    put(&mut m, "surface_id", handle_json(v.id));
    put(&mut m, "surface_ref", string(surface_ref(v.id)));
    put(&mut m, "text", string(v.text.clone()));
    proof {
        assert(members_view(m@) =~= seq![
            ("workspace_id"@, jhandle(w)),
            ("workspace_ref"@, jref("workspace"@, w)),
            ("surface_id"@, jhandle(v@.id)),
            ("surface_ref"@, jref("surface"@, v@.id)),
            ("text"@, jstr(v@.text)),
        ]);
    }
    Ok(object(m))
}

pub type RunOutcome = (ControlV, Result<JsonV, ErrorV>, Seq<ShellRunV>);

/// Whether the notification counter has room for every line of a request's
/// `text`.
pub open spec fn text_room(m: ControlV, ms: Members) -> bool {
    match lookup(ms, "text"@) {
        Some(JsonV::Str(t)) => m.next_notification_id + t.len() <= u64::MAX,
        _ => true,
    }
}

/// `surface.send_text`: types text into the target surface; the commands its
/// shell runs are handed back.
pub open spec fn cmd_surface_send_text(m: ControlV, ms: Members, home: Option<Seq<char>>) -> RunOutcome {
    match target_hints(ms, seq!["surface_id"@, "id"@]) {
        Err(err) => (m, Err(err), Seq::empty()),
        Ok((ws, hint)) => match required_string(ms, "text"@) {
            Err(err) => (m, Err(err), Seq::empty()),
            Ok(t) => match resolve_target(m, ws, hint) {
                Err(err) => (m, Err(err), Seq::empty()),
                Ok((w, sid)) => {
                    let (m1, out) = send_text(m, w, sid, t, home);
                    match out {
                        None => (m1, Err(not_found_err("surface not found"@)), Seq::empty()),
                        Some((v, runs)) => (m1, Ok(ws_surface_reply(w, v)), runs),
                    }
                },
            },
        },
    }
}

pub fn surface_send_text(state: &mut ControlState, params: &Vec<(String, Json)>, home: Option<&str>) -> (r: (Result<Json, CommandError>, Vec<ShellRun>))
    requires
        text_room(old(state)@, members_view(params@)),
    ensures
        (final(state)@, res_view(r.0), runs_view(r.1@)) == cmd_surface_send_text(old(state)@, members_view(params@), str_opt(home)),
{
    let none: Vec<ShellRun> = Vec::new();
    proof { assert(runs_view(none@) =~= Seq::<ShellRunV>::empty()); }
    let (ws, hint) = match surface_hints(params) { Err(e) => return (Err(e), none), Ok(v) => v };
    let t = match required_string_param(params, "text") { Err(e) => return (Err(e), none), Ok(v) => v };
    let (w, sid) = match resolve_surface_target(state, ws, hint) { Err(e) => return (Err(e), none), Ok(t) => t };
    match state.apply_surface_text_input(w, sid, t.as_str(), home) {
        None => (Err(CommandError::not_found("surface not found")), none),
        Some((v, runs)) => (Ok(ws_surface_reply_json(w, &v)), runs),
    }
}

/// `surface.send_key`
pub open spec fn cmd_surface_send_key(m: ControlV, ms: Members) -> Outcome {
    match target_hints(ms, seq!["surface_id"@, "id"@]) {
        Err(err) => fail(m, err),
        Ok((ws, hint)) => match required_string(ms, "key"@) {
            Err(err) => fail(m, err),
            Ok(k) => match resolve_target(m, ws, hint) {
                Err(err) => fail(m, err),
                Ok((w, sid)) => {
                    let (m1, r) = send_key(m, w, sid, k);
                    match r {
                        None => fail(m1, not_found_err("surface not found"@)),
                        Some(v) => ok(m1, ws_surface_reply(w, v)),
                    }
                },
            },
        },
    }
}

pub fn surface_send_key(state: &mut ControlState, params: &Vec<(String, Json)>) -> (r: Result<Json, CommandError>)
    requires
        has_id_room(old(state)@),
    ensures
        (final(state)@, res_view(r)) == cmd_surface_send_key(old(state)@, members_view(params@)),
{
    let (ws, hint) = match surface_hints(params) { Err(e) => return Err(e), Ok(v) => v };
    let k = match required_string_param(params, "key") { Err(e) => return Err(e), Ok(v) => v };
    let (w, sid) = match resolve_surface_target(state, ws, hint) { Err(e) => return Err(e), Ok(t) => t };
    match state.apply_surface_key_input(w, sid, k.as_str()) {
        None => Err(CommandError::not_found("surface not found")),
        Some(v) => Ok(ws_surface_reply_json(w, &v)),
    }
}


// ---------------------------------------------------------------------------
// surface.action and tab.action
// ---------------------------------------------------------------------------

pub open spec fn dash_to_underscore(c: char) -> char {
    if c == '-' { '_' } else { c }
}

/// An action's name, lowercased, with dashes as underscores.
pub open spec fn action_key(a: Seq<char>) -> Seq<char> {
    ascii_lower(a).map_values(|c: char| dash_to_underscore(c))
}

/// The edit an action names; unknown actions change nothing.
pub open spec fn action_edit(key: Seq<char>, title: Option<Seq<char>>) -> SurfaceEditV {
    if key == "rename"@ {
        SurfaceEditV::Rename(title)
    } else if key == "clear_name"@ {
        SurfaceEditV::ClearName
    } else if key == "pin"@ {
        SurfaceEditV::SetPinned(true)
    } else if key == "unpin"@ {
        SurfaceEditV::SetPinned(false)
    } else if key == "mark_unread"@ {
        SurfaceEditV::SetUnread(true)
    } else if key == "mark_read"@ {
        SurfaceEditV::SetUnread(false)
    } else {
        SurfaceEditV::Nothing
    }
}

fn action_key_of(a: &str) -> (r: String)
    ensures
        r@ == action_key(a@),
{
    let lower = to_ascii_lowercase(a);
    let n = lower.unicode_len();
    let mut out = String::new();
    let mut i: usize = 0;
    while i < n
        invariant
            n == lower@.len(),
            i <= n,
            out@ == lower@.take(i as int).map_values(|c: char| dash_to_underscore(c)),
        decreases n - i,
    {
        let c = lower.as_str().get_char(i);
        crate::text::push_char(&mut out, if c == '-' { '_' } else { c });
        proof { assert(out@ =~= lower@.take(i + 1).map_values(|c: char| dash_to_underscore(c))); }
        i = i + 1;
    }
    proof { assert(lower@.take(i as int) =~= lower@); }
    out
}

fn edit_for(key: &str, title: Option<String>) -> (r: SurfaceEdit)
    ensures
        r@ == action_edit(key@, opt_str_view(title)),
{
    if str_eq(key, "rename") {
        SurfaceEdit::Rename(title)
    } else if str_eq(key, "clear_name") {
        SurfaceEdit::ClearName
    } else if str_eq(key, "pin") {
        SurfaceEdit::SetPinned(true)
    } else if str_eq(key, "unpin") {
        SurfaceEdit::SetPinned(false)
    } else if str_eq(key, "mark_unread") {
        SurfaceEdit::SetUnread(true)
    } else if str_eq(key, "mark_read") {
        SurfaceEdit::SetUnread(false)
    } else {
        SurfaceEdit::Nothing
    }
}

/// `surface.action` (`tab` false) and `tab.action` (`tab` true): renames,
/// pins or marks a surface; a tab action also names the tab and takes its
/// target under `tab_id` first.
pub open spec fn cmd_surface_action(m: ControlV, ms: Members, tab: bool) -> Outcome {
    let keys = if tab { seq!["tab_id"@, "surface_id"@, "id"@] } else { seq!["surface_id"@, "id"@] };
    match required_string(ms, "action"@) {
        Err(err) => fail(m, err),
        Ok(action) => match target_hints(ms, keys) {
            Err(err) => fail(m, err),
            Ok((ws, hint)) => match string_param(ms, "title"@) {
                Err(err) => fail(m, err),
                Ok(title) => match resolve_target(m, ws, hint) {
                    Err(err) => fail(m, err),
                    Ok((w, sid)) => {
                        let (m1, r) = update_surface_in(m, w, sid, action_edit(action_key(action), title));
                        match r {
                            None => fail(m1, not_found_err(if tab { "tab not found"@ } else { "surface not found"@ })),
                            Some(v) => {
                                let head = seq![
                                    ("ok"@, jbool(true)),
                                    ("action"@, jstr(action)),
                                    ("workspace_id"@, jhandle(w)),
                                    ("workspace_ref"@, jref("workspace"@, w)),
                                    ("surface_id"@, jhandle(v.id)),
                                    ("surface_ref"@, jref("surface"@, v.id)),
                                ];
                                let head = if tab { head.push(("tab_ref"@, jref("tab"@, v.id))) } else { head };
                                ok(m1, JsonV::Object(head
                                    .push(("title"@, jstr(v.title)))
                                    .push(("pinned"@, jbool(v.pinned)))
                                    .push(("unread"@, jbool(v.unread)))))
                            },
                        }
                    },
                },
            },
        },
    }
}

pub fn surface_action(state: &mut ControlState, params: &Vec<(String, Json)>, tab: bool) -> (r: Result<Json, CommandError>)
    ensures
        (final(state)@, res_view(r)) == cmd_surface_action(old(state)@, members_view(params@), tab),
{
    proof {
        assert(keys_view(["tab_id", "surface_id", "id"]@) =~= seq!["tab_id"@, "surface_id"@, "id"@]);
        assert(keys_view(["surface_id", "id"]@) =~= seq!["surface_id"@, "id"@]);
    }
    let action = match required_string_param(params, "action") { Err(e) => return Err(e), Ok(v) => v };
    let ws = match workspace_scope_param(params) { Err(e) => return Err(e), Ok(v) => v };
    let hint = if tab {
        match optional_u64_param_any(params, &["tab_id", "surface_id", "id"]) { Err(e) => return Err(e), Ok(v) => v }
    } else {
        match optional_u64_param_any(params, &["surface_id", "id"]) { Err(e) => return Err(e), Ok(v) => v }
    };
    let title = match optional_string_param(params, "title") { Err(e) => return Err(e), Ok(v) => v };
    let (w, sid) = match resolve_surface_target(state, ws, hint) { Err(e) => return Err(e), Ok(t) => t };
    let key = action_key_of(action.as_str());
    let edit = edit_for(key.as_str(), title);
    let v = match state.update_surface_metadata(w, sid, &edit) {
        None => return Err(CommandError::not_found(if tab { "tab not found" } else { "surface not found" })),
        Some(v) => v,
    };
    let ghost av = action@;
    let mut m = new_members();
    put(&mut m, "ok", boolean(true));
    put(&mut m, "action", string(action));
    put(&mut m, "workspace_id", handle_json(w));
    put(&mut m, "workspace_ref", string(workspace_ref(w)));
    put(&mut m, "surface_id", handle_json(v.id));
    put(&mut m, "surface_ref", string(surface_ref(v.id)));
    let ghost head = seq![
        ("ok"@, jbool(true)),
        ("action"@, jstr(av)),
        ("workspace_id"@, jhandle(w)),
        ("workspace_ref"@, jref("workspace"@, w)),
        ("surface_id"@, jhandle(v.id)),
        ("surface_ref"@, jref("surface"@, v.id)),
    ];
    proof { assert(members_view(m@) =~= head); }
    if tab {
        proof { reveal_strlit("tab:"); reveal_strlit("tab"); reveal_strlit(":"); }
        let mut t = String::from_str("tab:");
        crate::text::push_decimal(&mut t, v.id);
        proof { assert(t@ =~= ref_of("tab"@, v.id)); }
        put(&mut m, "tab_ref", string(t));
    }
    put(&mut m, "title", string(v.title.clone()));
    put(&mut m, "pinned", boolean(v.pinned));
    put(&mut m, "unread", boolean(v.unread));
    Ok(object(m))
}

// ---------------------------------------------------------------------------
// notification.*
// ---------------------------------------------------------------------------

/// The text fields of a notification request; an empty title falls back to
/// `message`.
pub open spec fn notification_texts(ms: Members) -> Result<(Seq<char>, Seq<char>, Seq<char>), ErrorV> {
    match string_param(ms, "message"@) {
        Err(e) => Err(e),
        Ok(message) => match string_param(ms, "title"@) {
            Err(e) => Err(e),
            Ok(title) => match string_param(ms, "subtitle"@) {
                Err(e) => Err(e),
                Ok(subtitle) => match string_param(ms, "body"@) {
                    Err(e) => Err(e),
                    Ok(body) => {
                        let message = match message { Some(x) => x, None => Seq::empty() };
                        let title = match title { Some(x) => x, None => Seq::empty() };
                        let title = if title.len() == 0 && message.len() > 0 { message } else { title };
                        Ok((
                            title,
                            match subtitle { Some(x) => x, None => Seq::empty() },
                            match body { Some(x) => x, None => Seq::empty() },
                        ))
                    },
                },
            },
        },
    }
}

fn or_empty(o: Option<String>) -> (r: String)
    ensures
        r@ == match opt_str_view(o) { Some(x) => x, None => Seq::<char>::empty() },
{
    match o {
        Some(x) => x,
        None => String::new(),
    }
}

fn notification_texts_of(params: &Vec<(String, Json)>) -> (r: Result<(String, String, String), CommandError>)
    ensures
        match r {
            Ok((t, st, b)) => notification_texts(members_view(params@)) == Ok::<(Seq<char>, Seq<char>, Seq<char>), ErrorV>((t@, st@, b@)),
            Err(e) => notification_texts(members_view(params@)) == Err::<(Seq<char>, Seq<char>, Seq<char>), ErrorV>(e@),
        },
{
    let message = match optional_string_param(params, "message") { Err(e) => return Err(e), Ok(v) => v };
    let title = match optional_string_param(params, "title") { Err(e) => return Err(e), Ok(v) => v };
    let subtitle = match optional_string_param(params, "subtitle") { Err(e) => return Err(e), Ok(v) => v };
    let body = match optional_string_param(params, "body") { Err(e) => return Err(e), Ok(v) => v };
    let message = or_empty(message);
    let title = or_empty(title);
    let title = if title.unicode_len() == 0 && message.unicode_len() > 0 { message } else { title };
    Ok((title, or_empty(subtitle), or_empty(body)))
}

/// The answer to a created notification, or that it was suppressed.
pub open spec fn notification_answer(n: Option<NotificationV>) -> JsonV {
    match n {
        None => single("suppressed"@, jbool(true)),
        Some(n) => JsonV::Object(seq![
            ("notification_id"@, jhandle(n.id)),
            ("notification"@, super::protocol::notification_json(n)),
        ]),
    }
}

fn notification_answer_json(n: Option<NotificationInfo>) -> (r: Json)
    ensures
        json_view(r) == notification_answer(match n { Some(x) => Some(x@), None => None }),
{
    match n {
        None => single_json("suppressed", boolean(true)),
        Some(n) => {
            let mut m = new_members();
            put(&mut m, "notification_id", handle_json(n.id));
            put(&mut m, "notification", notification_as_json(&n));
            proof { assert(members_view(m@) =~= notification_answer(Some(n@))->Object_0); }
            object(m)
        },
    }
}

/// `notification.create` (for the current workspace) and
/// `notification.create_for_surface` (`for_surface`: the surface is required
/// and the workspace is the one holding it).
pub open spec fn cmd_notification_create(m: ControlV, ms: Members, for_surface: bool) -> Outcome {
    match notification_texts(ms) {
        Err(e) => fail(m, e),
        Ok((t, st, b)) => match u64_param_any(ms, seq!["surface_id"@, "id"@]) {
            Err(e) => fail(m, e),
            Ok(sid) => if for_surface && sid is None {
                fail(m, invalid_params_err("surface_id is required"@))
            } else {
                let ws = if for_surface { workspace_of_surface(m, sid->0) } else { Some(m.current_workspace_id) };
                let (m1, n) = create_notification(m, t, st, b, sid, ws);
                ok(m1, notification_answer(n))
            },
        },
    }
}

pub fn notification_create(state: &mut ControlState, params: &Vec<(String, Json)>, for_surface: bool) -> (r: Result<Json, CommandError>)
    requires
        has_id_room(old(state)@),
    ensures
        (final(state)@, res_view(r)) == cmd_notification_create(old(state)@, members_view(params@), for_surface),
{
    proof { assert(keys_view(["surface_id", "id"]@) =~= seq!["surface_id"@, "id"@]); }
    let (t, st, b) = match notification_texts_of(params) { Err(e) => return Err(e), Ok(v) => v };
    let sid = match optional_u64_param_any(params, &["surface_id", "id"]) { Err(e) => return Err(e), Ok(v) => v };
    if for_surface && sid.is_none() {
        return Err(CommandError::invalid_params("surface_id is required"));
    }
    let ws = if for_surface {
        match sid { Some(x) => state.find_workspace_for_surface(x), None => None }
    } else {
        Some(state.current_workspace_id())
    };
    let n = state.create_notification(t, st, b, sid, ws);
    Ok(notification_answer_json(n))
}

pub open spec fn notification_rows(ns: Seq<NotificationV>) -> Seq<JsonV> {
    ns.map_values(|n: NotificationV| super::protocol::notification_json(n))
}

pub open spec fn is_unread_note(n: NotificationV) -> bool {
    n.unread
}

fn notification_rows_json(ns: &Vec<NotificationInfo>, unread_only: bool) -> (r: Vec<Json>)
    ensures
        items_view(r@) == notification_rows(
            if unread_only { notes_view(ns@).filter(|n: NotificationV| is_unread_note(n)) } else { notes_view(ns@) },
        ),
{
    let ghost all = notes_view(ns@);
    let mut rows = new_items();
    let mut i: usize = 0;
    while i < ns.len()
        invariant
            i <= ns.len(),
            all == notes_view(ns@),
            items_view(rows@) == notification_rows(
                if unread_only { all.take(i as int).filter(|n: NotificationV| is_unread_note(n)) } else { all.take(i as int) },
            ),
        decreases ns.len() - i,
    {
        proof {
            assert(all.take(i + 1) =~= all.take(i as int).push(all[i as int]));
            all.take(i as int).lemma_filter_push(all[i as int], |n: NotificationV| is_unread_note(n));
        }
        let ghost before = items_view(rows@);
        if !unread_only || ns[i].unread {
            push_item(&mut rows, notification_as_json(&ns[i]));
        }
        proof {
            assert(items_view(rows@) =~= notification_rows(
                if unread_only { all.take(i + 1).filter(|n: NotificationV| is_unread_note(n)) } else { all.take(i + 1) },
            ));
        }
        i = i + 1;
    }
    proof { assert(all.take(i as int) =~= all); }
    rows
}

/// `notification.list`: all notifications, or the unread ones.
pub open spec fn cmd_notification_list(m: ControlV, ms: Members) -> Outcome {
    match bool_param(ms, "unread_only"@) {
        Err(e) => fail(m, e),
        Ok(u) => {
            let unread_only = match u { Some(x) => x, None => false };
            let ns = if unread_only { m.notifications.filter(|n: NotificationV| is_unread_note(n)) } else { m.notifications };
            ok(m, single("notifications"@, JsonV::Array(notification_rows(ns))))
        },
    }
}

pub fn notification_list(state: &mut ControlState, params: &Vec<(String, Json)>) -> (r: Result<Json, CommandError>)
    ensures
        (final(state)@, res_view(r)) == cmd_notification_list(old(state)@, members_view(params@)),
{
    let u = match optional_bool_param(params, "unread_only") { Err(e) => return Err(e), Ok(v) => v };
    let unread_only = match u { Some(x) => x, None => false };
    let ns = state.list_notifications();
    Ok(single_json("notifications", array(notification_rows_json(&ns, unread_only))))
}

/// `notification.clear`: one notification, or all; lists those left.
pub open spec fn cmd_notification_clear(m: ControlV, ms: Members) -> Outcome {
    match u64_param_any(ms, seq!["id"@, "notification_id"@]) {
        Err(e) => fail(m, e),
        Ok(id) => {
            let (m1, left) = clear_notification(m, id);
            ok(m1, single("notifications"@, JsonV::Array(notification_rows(left))))
        },
    }
}

pub fn notification_clear(state: &mut ControlState, params: &Vec<(String, Json)>) -> (r: Result<Json, CommandError>)
    ensures
        (final(state)@, res_view(r)) == cmd_notification_clear(old(state)@, members_view(params@)),
{
    proof { assert(keys_view(["id", "notification_id"]@) =~= seq!["id"@, "notification_id"@]); }
    let id = match optional_u64_param_any(params, &["id", "notification_id"]) { Err(e) => return Err(e), Ok(v) => v };
    let left = state.clear_notification(id);
    Ok(single_json("notifications", array(notification_rows_json(&left, false))))
}


// ---------------------------------------------------------------------------
// system.*
// ---------------------------------------------------------------------------

pub open spec fn protocol_name() -> Seq<char> { "limux-control"@ }

pub open spec fn protocol_kind() -> Seq<char> { "v1+v2"@ }

pub open spec fn protocol_version() -> Seq<char> { "0.1.0"@ }

/// `system.ping`
pub open spec fn cmd_ping(m: ControlV) -> Outcome {
    ok(m, single("pong"@, jbool(true)))
}

pub fn ping(state: &mut ControlState) -> (r: Json)
    ensures
        final(state)@ == old(state)@,
        Ok::<JsonV, ErrorV>(json_view(r)) == cmd_ping(old(state)@).1,
{
    single_json("pong", boolean(true))
}

/// The handles of the focused workspace, window, pane and surface, or an
/// empty object.
pub open spec fn focused_payload(m: ControlV) -> JsonV {
    match focused_handles(m) {
        Some((w, win, p, s)) => JsonV::Object(seq![
            ("workspace_id"@, jhandle(w)),
            ("workspace_ref"@, jref("workspace"@, w)),
            ("window_id"@, jhandle(win)),
            ("window_ref"@, jref("window"@, win)),
            ("pane_id"@, jhandle(p)),
            ("pane_ref"@, jref("pane"@, p)),
            ("surface_id"@, jhandle(s)),
            ("surface_ref"@, jref("surface"@, s)),
        ]),
        None => JsonV::Object(Seq::empty()),
    }
}

fn focused_payload_json(state: &ControlState) -> (r: Json)
    ensures
        json_view(r) == focused_payload(state@),
{
    let mut m = new_members();
    if let Some((w, win, p, s)) = state.focused_handles() {
        put(&mut m, "workspace_id", handle_json(w));
        put(&mut m, "workspace_ref", string(workspace_ref(w)));
        put(&mut m, "window_id", handle_json(win));
        put(&mut m, "window_ref", string(crate::handles::window_ref(win)));
        put(&mut m, "pane_id", handle_json(p));
        put(&mut m, "pane_ref", string(pane_ref(p)));
        put(&mut m, "surface_id", handle_json(s));
        put(&mut m, "surface_ref", string(surface_ref(s)));
    }
    proof { assert(members_view(m@) =~= focused_payload(state@)->Object_0); }
    object(m)
}

/// `system.identify`: who answers, the focused handles, and the caller as
/// given (by default the focused handles).
pub open spec fn cmd_identify(m: ControlV, ms: Members) -> Outcome {
    let focused = focused_payload(m);
    let caller = match lookup(ms, "caller"@) { Some(c) => c, None => focused };
    ok(m, JsonV::Object(seq![
        ("name"@, jstr(protocol_name())),
        ("protocol"@, jstr(protocol_kind())),
        ("version"@, jstr(protocol_version())),
        ("focused"@, focused),
        ("caller"@, caller),
    ]))
}

pub fn identify(state: &mut ControlState, params: &Vec<(String, Json)>) -> (r: Result<Json, CommandError>)
    ensures
        (final(state)@, res_view(r)) == cmd_identify(old(state)@, members_view(params@)),
{
    let focused = focused_payload_json(state);
    let caller = match get(params, "caller") {
        Some(c) => crate::json::clone_json(c),
        None => focused_payload_json(state),
    };
    let ghost fv = json_view(focused);
    let ghost cv = json_view(caller);
    let mut m = new_members();
    put(&mut m, "name", text("limux-control"));
    put(&mut m, "protocol", text("v1+v2"));
    put(&mut m, "version", text("0.1.0"));
    put(&mut m, "focused", focused);
    put(&mut m, "caller", caller);
    proof {
        assert(members_view(m@) =~= seq![
            ("name"@, jstr(protocol_name())),
            ("protocol"@, jstr(protocol_kind())),
            ("version"@, jstr(protocol_version())),
            ("focused"@, fv),
            ("caller"@, cv),
        ]);
    }
    Ok(object(m))
}

/// The methods this dispatcher knows, in the order `system.capabilities` lists them.
pub open spec fn method_names_0() -> Seq<Seq<char>> {
    seq![
        "system.ping"@,
        "system.identify"@,
        "system.capabilities"@,
        "app.focus_override.set"@,
        "app.simulate_active"@,
        "window.list"@,
        "window.current"@,
        "window.create"@,
        "window.focus"@,
        "window.close"@,
        "workspace.list"@,
        "workspace.current"@,
        "workspace.create"@,
        "workspace.select"@,
        "workspace.next"@,
        "workspace.previous"@,
        "workspace.last"@,
        "workspace.rename"@,
        "workspace.reorder"@,
        "workspace.close"@,
        "workspace.move_to_window"@,
        "workspace.action"@,
        "pane.list"@,
        "pane.surfaces"@,
        "pane.create"@,
        "pane.focus"@,
        "pane.swap"@,
        "pane.break"@,
        "pane.join"@,
        "pane.last"@,
    ]
}

pub open spec fn method_names_1() -> Seq<Seq<char>> {
    seq![
        "pane.resize"@,
        "surface.list"@,
        "surface.current"@,
        "surface.create"@,
        "surface.split"@,
        "surface.focus"@,
        "surface.close"@,
        "surface.move"@,
        "surface.reorder"@,
        "surface.drag_to_split"@,
        "surface.refresh"@,
        "surface.health"@,
        "surface.read_text"@,
        "surface.send_text"@,
        "surface.send_key"@,
        "surface.trigger_flash"@,
        "surface.clear_history"@,
        "surface.action"@,
        "notification.create"@,
        "notification.create_for_surface"@,
        "notification.list"@,
        "notification.clear"@,
        "tab.action"@,
        "browser.open_split"@,
        "browser.navigate"@,
        "browser.url.get"@,
        "browser.eval"@,
        "browser.wait"@,
        "browser.click"@,
        "browser.fill"@,
    ]
}

pub open spec fn method_names_2() -> Seq<Seq<char>> {
    seq![
        "browser.get.text"@,
        "browser.get.value"@,
        "browser.get.title"@,
        "browser.snapshot"@,
        "browser.focus_webview"@,
        "browser.is_webview_focused"@,
        "browser.screenshot"@,
        "browser.back"@,
        "browser.forward"@,
        "browser.reload"@,
        "browser.focus"@,
        "browser.hover"@,
        "browser.dblclick"@,
        "browser.press"@,
        "browser.keydown"@,
        "browser.keyup"@,
        "browser.type"@,
        "browser.check"@,
        "browser.uncheck"@,
        "browser.select"@,
        "browser.scroll"@,
        "browser.scroll_into_view"@,
        "browser.get.attr"@,
        "browser.get.box"@,
        "browser.get.count"@,
        "browser.get.html"@,
        "browser.get.styles"@,
        "browser.is.checked"@,
        "browser.is.enabled"@,
        "browser.is.visible"@,
    ]
}

pub open spec fn method_names_3() -> Seq<Seq<char>> {
    seq![
        "browser.find.role"@,
        "browser.find.text"@,
        "browser.find.label"@,
        "browser.find.placeholder"@,
        "browser.find.alt"@,
        "browser.find.title"@,
        "browser.find.testid"@,
        "browser.find.first"@,
        "browser.find.last"@,
        "browser.find.nth"@,
        "browser.highlight"@,
        "browser.viewport.set"@,
        "browser.geolocation.set"@,
        "browser.offline.set"@,
        "browser.trace.start"@,
        "browser.trace.stop"@,
        "browser.network.route"@,
        "browser.network.unroute"@,
        "browser.network.requests"@,
        "browser.screencast.start"@,
        "browser.screencast.stop"@,
        "browser.input_mouse"@,
        "browser.input_keyboard"@,
        "browser.input_touch"@,
        "browser.addscript"@,
        "browser.addinitscript"@,
        "browser.addstyle"@,
        "browser.console.list"@,
        "browser.console.clear"@,
        "browser.errors.list"@,
    ]
}

pub open spec fn method_names_4() -> Seq<Seq<char>> {
    seq![
        "browser.cookies.get"@,
        "browser.cookies.set"@,
        "browser.cookies.clear"@,
        "browser.storage.get"@,
        "browser.storage.set"@,
        "browser.storage.clear"@,
        "browser.tab.list"@,
        "browser.tab.new"@,
        "browser.tab.switch"@,
        "browser.tab.close"@,
        "browser.frame.main"@,
        "browser.frame.select"@,
        "browser.dialog.accept"@,
        "browser.dialog.dismiss"@,
        "browser.download.wait"@,
        "browser.state.save"@,
        "browser.state.load"@,
        "debug.app.activate"@,
        "debug.bonsplit_underflow.count"@,
        "debug.bonsplit_underflow.reset"@,
        "debug.command_palette.rename_input.delete_backward"@,
        "debug.command_palette.rename_input.interact"@,
        "debug.command_palette.rename_input.select_all"@,
        "debug.command_palette.rename_input.selection"@,
        "debug.command_palette.rename_tab.open"@,
        "debug.command_palette.results"@,
        "debug.command_palette.selection"@,
        "debug.command_palette.toggle"@,
        "debug.command_palette.visible"@,
        "debug.empty_panel.count"@,
    ]
}

pub open spec fn method_names_5() -> Seq<Seq<char>> {
    seq![
        "debug.empty_panel.reset"@,
        "debug.flash.count"@,
        "debug.flash.reset"@,
        "debug.layout"@,
        "debug.notification.focus"@,
        "debug.panel_snapshot"@,
        "debug.panel_snapshot.reset"@,
        "debug.portal.stats"@,
        "debug.shortcut.set"@,
        "debug.shortcut.simulate"@,
        "debug.sidebar.visible"@,
        "debug.terminal.is_focused"@,
        "debug.terminal.read_text"@,
        "debug.terminal.render_stats"@,
        "debug.type"@,
        "debug.window.screenshot"@,
    ]
}

pub open spec fn method_names() -> Seq<Seq<char>> {
    method_names_0() + method_names_1() + method_names_2() + method_names_3() + method_names_4() + method_names_5()
}

pub open spec fn method_items() -> Seq<JsonV> {
    method_names().map_values(|s: Seq<char>| jstr(s))
}

/// `system.capabilities`: the methods, listed twice (as commands and as
/// methods).
pub open spec fn cmd_capabilities(m: ControlV) -> Outcome {
    ok(m, JsonV::Object(seq![
        ("commands"@, JsonV::Array(method_items())),
        ("methods"@, JsonV::Array(method_items())),
    ]))
}

#[verifier::rlimit(100)]
fn push_methods_0(v: &mut Vec<Json>)
    ensures
        items_view(final(v)@) == items_view(old(v)@) + method_names_0().map_values(|s: Seq<char>| jstr(s)),
{
    push_item(v, text("system.ping"));
    push_item(v, text("system.identify"));
    push_item(v, text("system.capabilities"));
    push_item(v, text("app.focus_override.set"));
    push_item(v, text("app.simulate_active"));
    push_item(v, text("window.list"));
    push_item(v, text("window.current"));
    push_item(v, text("window.create"));
    push_item(v, text("window.focus"));
    push_item(v, text("window.close"));
    push_item(v, text("workspace.list"));
    push_item(v, text("workspace.current"));
    push_item(v, text("workspace.create"));
    push_item(v, text("workspace.select"));
    push_item(v, text("workspace.next"));
    push_item(v, text("workspace.previous"));
    push_item(v, text("workspace.last"));
    push_item(v, text("workspace.rename"));
    push_item(v, text("workspace.reorder"));
    push_item(v, text("workspace.close"));
    push_item(v, text("workspace.move_to_window"));
    push_item(v, text("workspace.action"));
    push_item(v, text("pane.list"));
    push_item(v, text("pane.surfaces"));
    push_item(v, text("pane.create"));
    push_item(v, text("pane.focus"));
    push_item(v, text("pane.swap"));
    push_item(v, text("pane.break"));
    push_item(v, text("pane.join"));
    push_item(v, text("pane.last"));
    proof { assert(items_view(v@) =~= items_view(old(v)@) + method_names_0().map_values(|s: Seq<char>| jstr(s))); }
}

#[verifier::rlimit(100)]
fn push_methods_1(v: &mut Vec<Json>)
    ensures
        items_view(final(v)@) == items_view(old(v)@) + method_names_1().map_values(|s: Seq<char>| jstr(s)),
{
    push_item(v, text("pane.resize"));
    push_item(v, text("surface.list"));
    push_item(v, text("surface.current"));
    push_item(v, text("surface.create"));
    push_item(v, text("surface.split"));
    push_item(v, text("surface.focus"));
    push_item(v, text("surface.close"));
    push_item(v, text("surface.move"));
    push_item(v, text("surface.reorder"));
    push_item(v, text("surface.drag_to_split"));
    push_item(v, text("surface.refresh"));
    push_item(v, text("surface.health"));
    push_item(v, text("surface.read_text"));
    push_item(v, text("surface.send_text"));
    push_item(v, text("surface.send_key"));
    push_item(v, text("surface.trigger_flash"));
    push_item(v, text("surface.clear_history"));
    push_item(v, text("surface.action"));
    push_item(v, text("notification.create"));
    push_item(v, text("notification.create_for_surface"));
    push_item(v, text("notification.list"));
    push_item(v, text("notification.clear"));
    push_item(v, text("tab.action"));
    push_item(v, text("browser.open_split"));
    push_item(v, text("browser.navigate"));
    push_item(v, text("browser.url.get"));
    push_item(v, text("browser.eval"));
    push_item(v, text("browser.wait"));
    push_item(v, text("browser.click"));
    push_item(v, text("browser.fill"));
    proof { assert(items_view(v@) =~= items_view(old(v)@) + method_names_1().map_values(|s: Seq<char>| jstr(s))); }
}

#[verifier::rlimit(100)]
fn push_methods_2(v: &mut Vec<Json>)
    ensures
        items_view(final(v)@) == items_view(old(v)@) + method_names_2().map_values(|s: Seq<char>| jstr(s)),
{
    push_item(v, text("browser.get.text"));
    push_item(v, text("browser.get.value"));
    push_item(v, text("browser.get.title"));
    push_item(v, text("browser.snapshot"));
    push_item(v, text("browser.focus_webview"));
    push_item(v, text("browser.is_webview_focused"));
    push_item(v, text("browser.screenshot"));
    push_item(v, text("browser.back"));
    push_item(v, text("browser.forward"));
    push_item(v, text("browser.reload"));
    push_item(v, text("browser.focus"));
    push_item(v, text("browser.hover"));
    push_item(v, text("browser.dblclick"));
    push_item(v, text("browser.press"));
    push_item(v, text("browser.keydown"));
    push_item(v, text("browser.keyup"));
    push_item(v, text("browser.type"));
    push_item(v, text("browser.check"));
    push_item(v, text("browser.uncheck"));
    push_item(v, text("browser.select"));
    push_item(v, text("browser.scroll"));
    push_item(v, text("browser.scroll_into_view"));
    push_item(v, text("browser.get.attr"));
    push_item(v, text("browser.get.box"));
    push_item(v, text("browser.get.count"));
    push_item(v, text("browser.get.html"));
    push_item(v, text("browser.get.styles"));
    push_item(v, text("browser.is.checked"));
    push_item(v, text("browser.is.enabled"));
    push_item(v, text("browser.is.visible"));
    proof { assert(items_view(v@) =~= items_view(old(v)@) + method_names_2().map_values(|s: Seq<char>| jstr(s))); }
}

#[verifier::rlimit(100)]
fn push_methods_3(v: &mut Vec<Json>)
    ensures
        items_view(final(v)@) == items_view(old(v)@) + method_names_3().map_values(|s: Seq<char>| jstr(s)),
{
    push_item(v, text("browser.find.role"));
    push_item(v, text("browser.find.text"));
    push_item(v, text("browser.find.label"));
    push_item(v, text("browser.find.placeholder"));
    push_item(v, text("browser.find.alt"));
    push_item(v, text("browser.find.title"));
    push_item(v, text("browser.find.testid"));
    push_item(v, text("browser.find.first"));
    push_item(v, text("browser.find.last"));
    push_item(v, text("browser.find.nth"));
    push_item(v, text("browser.highlight"));
    push_item(v, text("browser.viewport.set"));
    push_item(v, text("browser.geolocation.set"));
    push_item(v, text("browser.offline.set"));
    push_item(v, text("browser.trace.start"));
    push_item(v, text("browser.trace.stop"));
    push_item(v, text("browser.network.route"));
    push_item(v, text("browser.network.unroute"));
    push_item(v, text("browser.network.requests"));
    push_item(v, text("browser.screencast.start"));
    push_item(v, text("browser.screencast.stop"));
    push_item(v, text("browser.input_mouse"));
    push_item(v, text("browser.input_keyboard"));
    push_item(v, text("browser.input_touch"));
    push_item(v, text("browser.addscript"));
    push_item(v, text("browser.addinitscript"));
    push_item(v, text("browser.addstyle"));
    push_item(v, text("browser.console.list"));
    push_item(v, text("browser.console.clear"));
    push_item(v, text("browser.errors.list"));
    proof { assert(items_view(v@) =~= items_view(old(v)@) + method_names_3().map_values(|s: Seq<char>| jstr(s))); }
}

#[verifier::rlimit(100)]
fn push_methods_4(v: &mut Vec<Json>)
    ensures
        items_view(final(v)@) == items_view(old(v)@) + method_names_4().map_values(|s: Seq<char>| jstr(s)),
{
    push_item(v, text("browser.cookies.get"));
    push_item(v, text("browser.cookies.set"));
    push_item(v, text("browser.cookies.clear"));
    push_item(v, text("browser.storage.get"));
    push_item(v, text("browser.storage.set"));
    push_item(v, text("browser.storage.clear"));
    push_item(v, text("browser.tab.list"));
    push_item(v, text("browser.tab.new"));
    push_item(v, text("browser.tab.switch"));
    push_item(v, text("browser.tab.close"));
    push_item(v, text("browser.frame.main"));
    push_item(v, text("browser.frame.select"));
    push_item(v, text("browser.dialog.accept"));
    push_item(v, text("browser.dialog.dismiss"));
    push_item(v, text("browser.download.wait"));
    push_item(v, text("browser.state.save"));
    push_item(v, text("browser.state.load"));
    push_item(v, text("debug.app.activate"));
    push_item(v, text("debug.bonsplit_underflow.count"));
    push_item(v, text("debug.bonsplit_underflow.reset"));
    push_item(v, text("debug.command_palette.rename_input.delete_backward"));
    push_item(v, text("debug.command_palette.rename_input.interact"));
    push_item(v, text("debug.command_palette.rename_input.select_all"));
    push_item(v, text("debug.command_palette.rename_input.selection"));
    push_item(v, text("debug.command_palette.rename_tab.open"));
    push_item(v, text("debug.command_palette.results"));
    push_item(v, text("debug.command_palette.selection"));
    push_item(v, text("debug.command_palette.toggle"));
    push_item(v, text("debug.command_palette.visible"));
    push_item(v, text("debug.empty_panel.count"));
    proof { assert(items_view(v@) =~= items_view(old(v)@) + method_names_4().map_values(|s: Seq<char>| jstr(s))); }
}

#[verifier::rlimit(100)]
fn push_methods_5(v: &mut Vec<Json>)
    ensures
        items_view(final(v)@) == items_view(old(v)@) + method_names_5().map_values(|s: Seq<char>| jstr(s)),
{
    push_item(v, text("debug.empty_panel.reset"));
    push_item(v, text("debug.flash.count"));
    push_item(v, text("debug.flash.reset"));
    push_item(v, text("debug.layout"));
    push_item(v, text("debug.notification.focus"));
    push_item(v, text("debug.panel_snapshot"));
    push_item(v, text("debug.panel_snapshot.reset"));
    push_item(v, text("debug.portal.stats"));
    push_item(v, text("debug.shortcut.set"));
    push_item(v, text("debug.shortcut.simulate"));
    push_item(v, text("debug.sidebar.visible"));
    push_item(v, text("debug.terminal.is_focused"));
    push_item(v, text("debug.terminal.read_text"));
    push_item(v, text("debug.terminal.render_stats"));
    push_item(v, text("debug.type"));
    push_item(v, text("debug.window.screenshot"));
    proof { assert(items_view(v@) =~= items_view(old(v)@) + method_names_5().map_values(|s: Seq<char>| jstr(s))); }
}

fn method_list() -> (r: Vec<Json>)
    ensures
        items_view(r@) == method_items(),
{
    let mut v = new_items();
    proof { assert(items_view(v@) =~= Seq::<JsonV>::empty()); }
    push_methods_0(&mut v);
    push_methods_1(&mut v);
    push_methods_2(&mut v);
    push_methods_3(&mut v);
    push_methods_4(&mut v);
    push_methods_5(&mut v);
    proof {
        assert(method_names().map_values(|s: Seq<char>| jstr(s)) =~= Seq::<JsonV>::empty() + method_names_0().map_values(|s: Seq<char>| jstr(s)) + method_names_1().map_values(|s: Seq<char>| jstr(s)) + method_names_2().map_values(|s: Seq<char>| jstr(s)) + method_names_3().map_values(|s: Seq<char>| jstr(s)) + method_names_4().map_values(|s: Seq<char>| jstr(s)) + method_names_5().map_values(|s: Seq<char>| jstr(s)));
    }
    v
}

pub fn capabilities(state: &mut ControlState) -> (r: Json)
    ensures
        final(state)@ == old(state)@,
        Ok::<JsonV, ErrorV>(json_view(r)) == cmd_capabilities(old(state)@).1,
{
    let mut m = new_members();
    put(&mut m, "commands", array(method_list()));
    put(&mut m, "methods", array(method_list()));
    proof {
        assert(members_view(m@) =~= seq![
            ("commands"@, JsonV::Array(method_items())),
            ("methods"@, JsonV::Array(method_items())),
        ]);
    }
    object(m)
}

// ---------------------------------------------------------------------------
// The router
// ---------------------------------------------------------------------------

pub open spec fn not_supported_err(method: Seq<char>) -> ErrorV {
    ErrorV { code: -32020i64, message: "not_supported: "@ + method }
}

pub open spec fn plain(o: Outcome) -> RunOutcome {
    (o.0, o.1, Seq::empty())
}

/// The debug method whose answer is floating-point geometry: the control
/// plane answers it as not supported, and the host answers it from
/// `layout_panes`.
pub open spec fn unprovided_methods() -> Seq<Seq<char>> {
    seq!["debug.layout"@]
}

pub open spec fn unprovided(method: Seq<char>) -> bool {
    unprovided_methods().contains(method)
}

fn is_unprovided(method: &str) -> (r: bool)
    ensures
        r == unprovided(method@),
{
    let names = ["debug.layout"];
    proof { assert(names@.map_values(|s: &str| s@) =~= unprovided_methods()); }
    let mut i: usize = 0;
    while i < names.len()
        invariant
            i <= names.len(),
            names@.map_values(|s: &str| s@) == unprovided_methods(),
            forall|j: int| 0 <= j < i ==> unprovided_methods()[j] != method@,
        decreases names.len() - i,
    {
        if str_eq(names[i], method) {
            proof { assert(unprovided_methods()[i as int] == method@); }
            return true;
        }
        i = i + 1;
    }
    proof {
        assert(unprovided_methods().len() == names.len());
        if unprovided_methods().contains(method@) {
            let j = choose|j: int| 0 <= j < unprovided_methods().len() && unprovided_methods()[j] == method@;
            assert(unprovided_methods()[j] != method@);
        }
    }
    false
}

/// A command on the parameters' members; the parameters must be an object.
pub open spec fn with_params(m: ControlV, params: JsonV, f: spec_fn(Members) -> Outcome) -> Outcome {
    match params_members(params) {
        Err(e) => fail(m, e),
        Ok(ms) => f(ms),
    }
}

/// Whether a request can be carried out without an id counter running out.
pub open spec fn request_room(m: ControlV, params: JsonV) -> bool {
    &&& state_room(m)
    &&& history_room(m)
    &&& match params {
        JsonV::Object(ms) => text_room(m, ms),
        _ => true,
    }
}

/// What a request does to the state, what it answers, and which shell
/// commands the host is to run. The debug methods of `unprovided_methods`
/// are answered as not supported.
pub open spec fn dispatch_command(m: ControlV, method: Seq<char>, params: JsonV, home: Option<Seq<char>>, files: Pairs) -> RunOutcome {
    if method == "system.ping"@ {
        plain(cmd_ping(m))
    } else if method == "system.identify"@ {
        plain(with_params(m, params, |ms: Members| cmd_identify(m, ms)))
    } else if method == "system.capabilities"@ {
        plain(cmd_capabilities(m))
    } else if method == "app.focus_override.set"@ {
        plain(with_params(m, params, |ms: Members| cmd_focus_override(m, ms)))
    } else if method == "app.simulate_active"@ {
        plain(with_params(m, params, |ms: Members| cmd_simulate_active(m, ms)))
    } else if method == "window.list"@ {
        plain(cmd_window_list(m))
    } else if method == "window.current"@ {
        plain(cmd_window_current(m))
    } else if method == "window.create"@ {
        plain(with_params(m, params, |ms: Members| cmd_window_create(m, ms)))
    } else if method == "window.focus"@ {
        plain(with_params(m, params, |ms: Members| cmd_window_focus(m, ms)))
    } else if method == "window.close"@ {
        plain(with_params(m, params, |ms: Members| cmd_window_close(m, ms)))
    } else if method == "workspace.list"@ {
        plain(with_params(m, params, |ms: Members| cmd_workspace_list(m, ms)))
    } else if method == "workspace.current"@ {
        plain(cmd_workspace_current(m))
    } else if method == "workspace.create"@ {
        plain(with_params(m, params, |ms: Members| cmd_workspace_create(m, ms)))
    } else if method == "workspace.select"@ {
        plain(with_params(m, params, |ms: Members| cmd_workspace_select(m, ms)))
    } else if method == "workspace.next"@ {
        plain(cmd_workspace_step(m, 1))
    } else if method == "workspace.previous"@ {
        plain(cmd_workspace_step(m, -1))
    } else if method == "workspace.last"@ {
        plain(cmd_workspace_last(m))
    } else if method == "workspace.rename"@ {
        plain(with_params(m, params, |ms: Members| cmd_workspace_rename(m, ms)))
    } else if method == "workspace.reorder"@ {
        plain(with_params(m, params, |ms: Members| cmd_workspace_reorder(m, ms)))
    } else if method == "workspace.close"@ {
        plain(with_params(m, params, |ms: Members| cmd_workspace_close(m, ms)))
    } else if method == "workspace.move_to_window"@ {
        plain(with_params(m, params, |ms: Members| cmd_workspace_move(m, ms)))
    } else if method == "workspace.action"@ {
        plain(with_params(m, params, |ms: Members| cmd_action_ack(m, ms)))
    } else if method == "pane.list"@ {
        plain(with_params(m, params, |ms: Members| cmd_pane_list(m, ms)))
    } else if method == "pane.surfaces"@ {
        plain(with_params(m, params, |ms: Members| cmd_pane_surfaces(m, ms)))
    } else if method == "pane.create"@ {
        plain(with_params(m, params, |ms: Members| cmd_pane_create(m, ms)))
    } else if method == "pane.focus"@ {
        plain(with_params(m, params, |ms: Members| cmd_pane_focus(m, ms)))
    } else if method == "pane.swap"@ {
        plain(with_params(m, params, |ms: Members| cmd_pane_swap(m, ms)))
    } else if method == "pane.break"@ {
        plain(with_params(m, params, |ms: Members| cmd_pane_break(m, ms)))
    } else if method == "pane.join"@ {
        plain(with_params(m, params, |ms: Members| cmd_pane_join(m, ms)))
    } else if method == "pane.last"@ {
        plain(cmd_pane_last(m))
    } else if method == "pane.resize"@ {
        plain(with_params(m, params, |ms: Members| cmd_pane_resize(m, ms)))
    } else if method == "surface.list"@ {
        plain(with_params(m, params, |ms: Members| cmd_surface_list(m, ms)))
    } else if method == "surface.current"@ {
        plain(with_params(m, params, |ms: Members| cmd_surface_current(m, ms)))
    } else if method == "surface.create"@ {
        plain(with_params(m, params, |ms: Members| cmd_surface_create(m, ms)))
    } else if method == "surface.split"@ {
        plain(with_params(m, params, |ms: Members| cmd_surface_split(m, ms)))
    } else if method == "surface.focus"@ {
        plain(with_params(m, params, |ms: Members| cmd_surface_focus(m, ms)))
    } else if method == "surface.close"@ {
        plain(with_params(m, params, |ms: Members| cmd_surface_close(m, ms)))
    } else if method == "surface.move"@ {
        plain(with_params(m, params, |ms: Members| cmd_surface_move(m, ms)))
    } else if method == "surface.reorder"@ {
        plain(with_params(m, params, |ms: Members| cmd_surface_reorder(m, ms)))
    } else if method == "surface.drag_to_split"@ {
        plain(with_params(m, params, |ms: Members| cmd_surface_drag(m, ms)))
    } else if method == "surface.refresh"@ {
        plain(with_params(m, params, |ms: Members| cmd_surface_refresh(m, ms)))
    } else if method == "surface.health"@ {
        plain(with_params(m, params, |ms: Members| cmd_surface_health(m, ms)))
    } else if method == "surface.read_text"@ {
        plain(with_params(m, params, |ms: Members| cmd_surface_read_text(m, ms)))
    } else if method == "surface.send_text"@ {
        match params_members(params) {
            Err(e) => (m, Err(e), Seq::empty()),
            Ok(ms) => cmd_surface_send_text(m, ms, home),
        }
    } else if method == "surface.send_key"@ {
        plain(with_params(m, params, |ms: Members| cmd_surface_send_key(m, ms)))
    } else if method == "surface.trigger_flash"@ {
        plain(with_params(m, params, |ms: Members| cmd_surface_edit(m, ms, SurfaceEditV::Flash, true)))
    } else if method == "surface.clear_history"@ {
        plain(with_params(m, params, |ms: Members| cmd_surface_edit(m, ms, SurfaceEditV::ClearHistory, false)))
    } else if method == "surface.action"@ {
        plain(with_params(m, params, |ms: Members| cmd_surface_action(m, ms, false)))
    } else if method == "notification.create"@ {
        plain(with_params(m, params, |ms: Members| cmd_notification_create(m, ms, false)))
    } else if method == "notification.create_for_surface"@ {
        plain(with_params(m, params, |ms: Members| cmd_notification_create(m, ms, true)))
    } else if method == "notification.list"@ {
        plain(with_params(m, params, |ms: Members| cmd_notification_list(m, ms)))
    } else if method == "notification.clear"@ {
        plain(with_params(m, params, |ms: Members| cmd_notification_clear(m, ms)))
    } else if method == "tab.action"@ {
        plain(with_params(m, params, |ms: Members| cmd_surface_action(m, ms, true)))
    } else if method == "browser.open_split"@ {
        plain(with_params(m, params, |ms: Members| cmd_browser_open_split(m, ms, files)))
    } else if method == "browser.navigate"@ {
        plain(with_params(m, params, |ms: Members| cmd_browser_navigate(m, ms, files)))
    } else if method == "browser.url.get"@ {
        plain(with_params(m, params, |ms: Members| cmd_browser_url(m, ms)))
    } else if method == "browser.eval"@ {
        plain(with_params(m, params, |ms: Members| cmd_browser_eval(m, ms)))
    } else if method == "browser.wait"@ {
        plain(with_params(m, params, |ms: Members| cmd_browser_wait(m, ms)))
    } else if method == "browser.click"@ {
        plain(with_params(m, params, |ms: Members| cmd_browser_click(m, ms)))
    } else if method == "browser.fill"@ {
        plain(with_params(m, params, |ms: Members| cmd_browser_fill(m, ms)))
    } else if method == "browser.get.text"@ {
        plain(with_params(m, params, |ms: Members| cmd_browser_get_text(m, ms)))
    } else if method == "browser.get.value"@ {
        plain(with_params(m, params, |ms: Members| cmd_browser_get_value(m, ms)))
    } else if method == "browser.get.title"@ {
        plain(ok(m, title_reply(m.browser)))
    } else if method == "browser.snapshot"@ {
        plain(ok(m, snapshot_reply(m.browser)))
    } else if method == "browser.focus_webview"@ {
        plain(cmd_browser_focus(m))
    } else if method == "browser.is_webview_focused"@ {
        plain(ok(m, focus_reply(m.browser.focused)))
    } else if method == "browser.screenshot"@ {
        plain(ok(m, screenshot_reply()))
    } else if method == "browser.back"@ {
        plain(cmd_browser_history(m, HistoryStep::Back, files))
    } else if method == "browser.forward"@ {
        plain(cmd_browser_history(m, HistoryStep::Forward, files))
    } else if method == "browser.reload"@ {
        plain(cmd_browser_history(m, HistoryStep::Reload, files))
    } else if method == "debug.sidebar.visible"@ {
        plain(with_params(m, params, |ms: Members| cmd_debug_sidebar(m, ms)))
    } else if method == "debug.portal.stats"@ {
        plain(with_params(m, params, |ms: Members| ok(m, portal_stats())))
    } else if method == "debug.bonsplit_underflow.count"@ || method == "debug.empty_panel.count"@ {
        plain(with_params(m, params, |ms: Members| ok(m, single("count"@, juint(0)))))
    } else if method == "debug.bonsplit_underflow.reset"@ || method == "debug.empty_panel.reset"@ {
        plain(with_params(m, params, |ms: Members| ok(m, ok_reply())))
    } else if method == "debug.flash.count"@ {
        plain(with_params(m, params, |ms: Members| cmd_debug_flash_count(m, ms)))
    } else if method == "debug.flash.reset"@ {
        plain(with_params(m, params, |ms: Members| cmd_debug_flash_reset(m)))
    } else if method == "debug.panel_snapshot"@ {
        plain(with_params(m, params, |ms: Members| cmd_panel_snapshot(m, ms)))
    } else if method == "debug.panel_snapshot.reset"@ {
        plain(with_params(m, params, |ms: Members| cmd_panel_snapshot_reset(m, ms)))
    } else if method == "debug.window.screenshot"@ {
        plain(with_params(m, params, |ms: Members| cmd_window_screenshot(m, ms)))
    } else if method == "debug.app.activate"@ {
        plain(with_params(m, params, |ms: Members| cmd_debug_activate(m)))
    } else if method == "debug.terminal.is_focused"@ {
        plain(with_params(m, params, |ms: Members| cmd_debug_terminal_focused(m, ms)))
    } else if method == "debug.terminal.read_text"@ {
        plain(with_params(m, params, |ms: Members| cmd_debug_read_text(m, ms)))
    } else if method == "debug.terminal.render_stats"@ {
        plain(with_params(m, params, |ms: Members| cmd_debug_render_stats(m, ms)))
    } else if method == "debug.notification.focus"@ {
        plain(with_params(m, params, |ms: Members| cmd_debug_notification_focus(m, ms)))
    } else if method == "debug.type"@ {
        match params_members(params) {
            Err(e) => (m, Err(e), Seq::empty()),
            Ok(ms) => cmd_debug_type(m, ms, home),
        }
    } else if palette_method(method) {
        palette_dispatch(m, method, params, home)
    } else if starts_with(method, "browser."@) {
        plain(browser_ext_dispatch(m, method, params, files))
    } else if starts_with(method, "debug."@) {
        plain(with_params(m, params, |ms: Members|
            if unprovided(method) { fail(m, not_supported_err(method)) } else { fail(m, unknown_method_err(method)) }))
    } else {
        plain(fail(m, unknown_method_err(method)))
    }
}

/// Carries out one request; see `dispatch_command`.
pub fn handle_command(state: &mut ControlState, method: &str, params: &Json, home: Option<&str>, files: &Vec<(String, String)>) -> (r: (Result<Json, CommandError>, Vec<ShellRun>))
    requires
        request_room(old(state)@, json_view(*params)),
    ensures
        (final(state)@, res_view(r.0), runs_view(r.1@)) == dispatch_command(old(state)@, method@, json_view(*params), str_opt(home), pairs_view(files@)),
{
    let none: Vec<ShellRun> = Vec::new();
    proof { assert(runs_view(none@) =~= Seq::<ShellRunV>::empty()); }
    if str_eq(method, "system.ping") {
        (Ok(ping(state)), none)
    } else if str_eq(method, "system.identify") {
        match params_object(params) {
            Err(e) => (Err(e), none),
            Ok(ms) => (identify(state, ms), none),
        }
    } else if str_eq(method, "system.capabilities") {
        (Ok(capabilities(state)), none)
    } else if str_eq(method, "app.focus_override.set") {
        match params_object(params) {
            Err(e) => (Err(e), none),
            Ok(ms) => (app_focus_override_set(state, ms), none),
        }
    } else if str_eq(method, "app.simulate_active") {
        match params_object(params) {
            Err(e) => (Err(e), none),
            Ok(ms) => (app_simulate_active(state, ms), none),
        }
    } else if str_eq(method, "window.list") {
        (window_list(state), none)
    } else if str_eq(method, "window.current") {
        (window_current(state), none)
    } else if str_eq(method, "window.create") {
        match params_object(params) {
            Err(e) => (Err(e), none),
            Ok(ms) => (window_create(state, ms), none),
        }
    } else if str_eq(method, "window.focus") {
        match params_object(params) {
            Err(e) => (Err(e), none),
            Ok(ms) => (window_focus(state, ms), none),
        }
    } else if str_eq(method, "window.close") {
        match params_object(params) {
            Err(e) => (Err(e), none),
            Ok(ms) => (window_close(state, ms), none),
        }
    } else if str_eq(method, "workspace.list") {
        match params_object(params) {
            Err(e) => (Err(e), none),
            Ok(ms) => (workspace_list(state, ms), none),
        }
    } else if str_eq(method, "workspace.current") {
        (workspace_current(state), none)
    } else if str_eq(method, "workspace.create") {
        match params_object(params) {
            Err(e) => (Err(e), none),
            Ok(ms) => (workspace_create(state, ms), none),
        }
    } else if str_eq(method, "workspace.select") {
        match params_object(params) {
            Err(e) => (Err(e), none),
            Ok(ms) => (workspace_select(state, ms), none),
        }
    } else if str_eq(method, "workspace.next") {
        (workspace_step(state, true), none)
    } else if str_eq(method, "workspace.previous") {
        (workspace_step(state, false), none)
    } else if str_eq(method, "workspace.last") {
        (workspace_last(state), none)
    } else if str_eq(method, "workspace.rename") {
        match params_object(params) {
            Err(e) => (Err(e), none),
            Ok(ms) => (workspace_rename(state, ms), none),
        }
    } else if str_eq(method, "workspace.reorder") {
        match params_object(params) {
            Err(e) => (Err(e), none),
            Ok(ms) => (workspace_reorder(state, ms), none),
        }
    } else if str_eq(method, "workspace.close") {
        match params_object(params) {
            Err(e) => (Err(e), none),
            Ok(ms) => (workspace_close(state, ms), none),
        }
    } else if str_eq(method, "workspace.move_to_window") {
        match params_object(params) {
            Err(e) => (Err(e), none),
            Ok(ms) => (workspace_move_to_window(state, ms), none),
        }
    } else if str_eq(method, "workspace.action") {
        match params_object(params) {
            Err(e) => (Err(e), none),
            Ok(ms) => (action_ack(state, ms), none),
        }
    } else if str_eq(method, "pane.list") {
        match params_object(params) {
            Err(e) => (Err(e), none),
            Ok(ms) => (pane_list(state, ms), none),
        }
    } else if str_eq(method, "pane.surfaces") {
        match params_object(params) {
            Err(e) => (Err(e), none),
            Ok(ms) => (pane_surfaces(state, ms), none),
        }
    } else if str_eq(method, "pane.create") {
        match params_object(params) {
            Err(e) => (Err(e), none),
            Ok(ms) => (pane_create(state, ms), none),
        }
    } else if str_eq(method, "pane.focus") {
        match params_object(params) {
            Err(e) => (Err(e), none),
            Ok(ms) => (pane_focus(state, ms), none),
        }
    } else if str_eq(method, "pane.swap") {
        match params_object(params) {
            Err(e) => (Err(e), none),
            Ok(ms) => (pane_swap(state, ms), none),
        }
    } else if str_eq(method, "pane.break") {
        match params_object(params) {
            Err(e) => (Err(e), none),
            Ok(ms) => (pane_break(state, ms), none),
        }
    } else if str_eq(method, "pane.join") {
        match params_object(params) {
            Err(e) => (Err(e), none),
            Ok(ms) => (pane_join(state, ms), none),
        }
    } else if str_eq(method, "pane.last") {
        (pane_last(state), none)
    } else if str_eq(method, "pane.resize") {
        match params_object(params) {
            Err(e) => (Err(e), none),
            Ok(ms) => (pane_resize(state, ms), none),
        }
    } else if str_eq(method, "surface.list") {
        match params_object(params) {
            Err(e) => (Err(e), none),
            Ok(ms) => (surface_list(state, ms), none),
        }
    } else if str_eq(method, "surface.current") {
        match params_object(params) {
            Err(e) => (Err(e), none),
            Ok(ms) => (surface_current(state, ms), none),
        }
    } else if str_eq(method, "surface.create") {
        match params_object(params) {
            Err(e) => (Err(e), none),
            Ok(ms) => (surface_create(state, ms), none),
        }
    } else if str_eq(method, "surface.split") {
        match params_object(params) {
            Err(e) => (Err(e), none),
            Ok(ms) => (surface_split(state, ms), none),
        }
    } else if str_eq(method, "surface.focus") {
        match params_object(params) {
            Err(e) => (Err(e), none),
            Ok(ms) => (surface_focus(state, ms), none),
        }
    } else if str_eq(method, "surface.close") {
        match params_object(params) {
            Err(e) => (Err(e), none),
            Ok(ms) => (surface_close(state, ms), none),
        }
    } else if str_eq(method, "surface.move") {
        match params_object(params) {
            Err(e) => (Err(e), none),
            Ok(ms) => (surface_move(state, ms), none),
        }
    } else if str_eq(method, "surface.reorder") {
        match params_object(params) {
            Err(e) => (Err(e), none),
            Ok(ms) => (surface_reorder(state, ms), none),
        }
    } else if str_eq(method, "surface.drag_to_split") {
        match params_object(params) {
            Err(e) => (Err(e), none),
            Ok(ms) => (surface_drag_to_split(state, ms), none),
        }
    } else if str_eq(method, "surface.refresh") {
        match params_object(params) {
            Err(e) => (Err(e), none),
            Ok(ms) => (surface_refresh(state, ms), none),
        }
    } else if str_eq(method, "surface.health") {
        match params_object(params) {
            Err(e) => (Err(e), none),
            Ok(ms) => (surface_health(state, ms), none),
        }
    } else if str_eq(method, "surface.read_text") {
        match params_object(params) {
            Err(e) => (Err(e), none),
            Ok(ms) => (surface_read_text(state, ms), none),
        }
    } else if str_eq(method, "surface.send_text") {
        match params_object(params) {
            Err(e) => (Err(e), none),
            Ok(ms) => surface_send_text(state, ms, home),
        }
    } else if str_eq(method, "surface.send_key") {
        match params_object(params) {
            Err(e) => (Err(e), none),
            Ok(ms) => (surface_send_key(state, ms), none),
        }
    } else if str_eq(method, "surface.trigger_flash") {
        match params_object(params) {
            Err(e) => (Err(e), none),
            Ok(ms) => (surface_edit(state, ms, &SurfaceEdit::Flash, true), none),
        }
    } else if str_eq(method, "surface.clear_history") {
        match params_object(params) {
            Err(e) => (Err(e), none),
            Ok(ms) => (surface_edit(state, ms, &SurfaceEdit::ClearHistory, false), none),
        }
    } else if str_eq(method, "surface.action") {
        match params_object(params) {
            Err(e) => (Err(e), none),
            Ok(ms) => (surface_action(state, ms, false), none),
        }
    } else if str_eq(method, "notification.create") {
        match params_object(params) {
            Err(e) => (Err(e), none),
            Ok(ms) => (notification_create(state, ms, false), none),
        }
    } else if str_eq(method, "notification.create_for_surface") {
        match params_object(params) {
            Err(e) => (Err(e), none),
            Ok(ms) => (notification_create(state, ms, true), none),
        }
    } else if str_eq(method, "notification.list") {
        match params_object(params) {
            Err(e) => (Err(e), none),
            Ok(ms) => (notification_list(state, ms), none),
        }
    } else if str_eq(method, "notification.clear") {
        match params_object(params) {
            Err(e) => (Err(e), none),
            Ok(ms) => (notification_clear(state, ms), none),
        }
    } else if str_eq(method, "tab.action") {
        match params_object(params) {
            Err(e) => (Err(e), none),
            Ok(ms) => (surface_action(state, ms, true), none),
        }
    } else if str_eq(method, "browser.open_split") {
        match params_object(params) {
            Err(e) => (Err(e), none),
            Ok(ms) => (browser_open_split(state, ms, files), none),
        }
    } else if str_eq(method, "browser.navigate") {
        match params_object(params) {
            Err(e) => (Err(e), none),
            Ok(ms) => (browser_navigate(state, ms, files), none),
        }
    } else if str_eq(method, "browser.url.get") {
        match params_object(params) {
            Err(e) => (Err(e), none),
            Ok(ms) => (browser_url(state, ms), none),
        }
    } else if str_eq(method, "browser.eval") {
        match params_object(params) {
            Err(e) => (Err(e), none),
            Ok(ms) => (browser_eval(state, ms), none),
        }
    } else if str_eq(method, "browser.wait") {
        match params_object(params) {
            Err(e) => (Err(e), none),
            Ok(ms) => (browser_wait(state, ms), none),
        }
    } else if str_eq(method, "browser.click") {
        match params_object(params) {
            Err(e) => (Err(e), none),
            Ok(ms) => (browser_click(state, ms), none),
        }
    } else if str_eq(method, "browser.fill") {
        match params_object(params) {
            Err(e) => (Err(e), none),
            Ok(ms) => (browser_fill(state, ms), none),
        }
    } else if str_eq(method, "browser.get.text") {
        match params_object(params) {
            Err(e) => (Err(e), none),
            Ok(ms) => (browser_get_text(state, ms), none),
        }
    } else if str_eq(method, "browser.get.value") {
        match params_object(params) {
            Err(e) => (Err(e), none),
            Ok(ms) => (browser_get_value(state, ms), none),
        }
    } else if str_eq(method, "browser.get.title") {
        (Ok(browser_title(state)), none)
    } else if str_eq(method, "browser.snapshot") {
        (Ok(browser_snapshot(state)), none)
    } else if str_eq(method, "browser.focus_webview") {
        (Ok(browser_focus_webview(state)), none)
    } else if str_eq(method, "browser.is_webview_focused") {
        (Ok(browser_is_focused(state)), none)
    } else if str_eq(method, "browser.screenshot") {
        (Ok(browser_screenshot()), none)
    } else if str_eq(method, "browser.back") {
        (Ok(browser_history(state, HistoryStep::Back, files)), none)
    } else if str_eq(method, "browser.forward") {
        (Ok(browser_history(state, HistoryStep::Forward, files)), none)
    } else if str_eq(method, "browser.reload") {
        (Ok(browser_history(state, HistoryStep::Reload, files)), none)
    } else if str_eq(method, "debug.sidebar.visible") {
        match params_object(params) {
            Err(e) => (Err(e), none),
            Ok(ms) => (debug_sidebar(state, ms), none),
        }
    } else if str_eq(method, "debug.portal.stats") {
        match params_object(params) {
            Err(e) => (Err(e), none),
            Ok(_) => (Ok(debug_portal_stats()), none),
        }
    } else if str_eq(method, "debug.bonsplit_underflow.count") || str_eq(method, "debug.empty_panel.count") {
        match params_object(params) {
            Err(e) => (Err(e), none),
            Ok(_) => (Ok(debug_zero_count()), none),
        }
    } else if str_eq(method, "debug.bonsplit_underflow.reset") || str_eq(method, "debug.empty_panel.reset") {
        match params_object(params) {
            Err(e) => (Err(e), none),
            Ok(_) => (Ok(debug_ok()), none),
        }
    } else if str_eq(method, "debug.flash.count") {
        match params_object(params) {
            Err(e) => (Err(e), none),
            Ok(ms) => (debug_flash_count(state, ms), none),
        }
    } else if str_eq(method, "debug.flash.reset") {
        match params_object(params) {
            Err(e) => (Err(e), none),
            Ok(_) => (Ok(debug_flash_reset(state)), none),
        }
    } else if str_eq(method, "debug.panel_snapshot") {
        match params_object(params) {
            Err(e) => (Err(e), none),
            Ok(ms) => (panel_snapshot(state, ms), none),
        }
    } else if str_eq(method, "debug.panel_snapshot.reset") {
        match params_object(params) {
            Err(e) => (Err(e), none),
            Ok(ms) => (panel_snapshot_reset(state, ms), none),
        }
    } else if str_eq(method, "debug.window.screenshot") {
        match params_object(params) {
            Err(e) => (Err(e), none),
            Ok(ms) => (window_screenshot(state, ms), none),
        }
    } else if str_eq(method, "debug.app.activate") {
        match params_object(params) {
            Err(e) => (Err(e), none),
            Ok(_) => (Ok(debug_activate(state)), none),
        }
    } else if str_eq(method, "debug.terminal.is_focused") {
        match params_object(params) {
            Err(e) => (Err(e), none),
            Ok(ms) => (debug_terminal_focused(state, ms), none),
        }
    } else if str_eq(method, "debug.terminal.read_text") {
        match params_object(params) {
            Err(e) => (Err(e), none),
            Ok(ms) => (debug_read_text(state, ms), none),
        }
    } else if str_eq(method, "debug.terminal.render_stats") {
        match params_object(params) {
            Err(e) => (Err(e), none),
            Ok(ms) => (debug_render_stats(state, ms), none),
        }
    } else if str_eq(method, "debug.notification.focus") {
        match params_object(params) {
            Err(e) => (Err(e), none),
            Ok(ms) => (debug_notification_focus(state, ms), none),
        }
    } else if str_eq(method, "debug.type") {
        match params_object(params) {
            Err(e) => (Err(e), none),
            Ok(ms) => {
                proof { assert(json_view(*params)->Object_0 =~= members_view(ms@)); }
                debug_type(state, ms, home)
            },
        }
    } else if is_palette_method(method) {
        handle_palette_command(state, method, params, home)
    } else if str_starts_with(method, "browser.") {
        (handle_browser_ext(state, method, params, files), none)
    } else if str_starts_with(method, "debug.") {
        match params_object(params) {
            Err(e) => (Err(e), none),
            Ok(_) => if is_unprovided(method) {
                (Err(CommandError::not_supported(method)), none)
            } else {
                (Err(CommandError::unknown_method(method)), none)
            },
        }
    } else {
        (Err(CommandError::unknown_method(method)), none)
    }
}


/// Whether a request can be carried out; see `request_room`.
pub fn request_has_room(state: &ControlState, params: &Json) -> (r: bool)
    ensures
        r == request_room(state@, json_view(*params)),
{
    if !(state.has_id_room() && state.next_surface_id() < u64::MAX - 1) {
        return false;
    }
    if state.browser().history().len() == usize::MAX {
        return false;
    }
    match params {
        Json::Object(ms) => {
            proof { assert(json_view(*params)->Object_0 =~= members_view(ms@)); }
            match get(ms, "text") {
                Some(Json::Str(t)) => {
                    let n = t.unicode_len() as u64;
                    n <= u64::MAX - state.next_notification_id()
                },
                _ => true,
            }
        },
        _ => true,
    }
}

/// A request: an id echoed in the response, a method and its parameters.
#[derive(Debug)]
pub struct V2Request {
    pub id: Option<Json>,
    pub method: String,
    pub params: Json,
}

/// The error of a failed request.
#[derive(Debug)]
pub struct V2Error {
    pub code: i64,
    pub message: String,
    pub data: Option<Json>,
}

/// A response: the request's id and either a result or an error.
#[derive(Debug)]
pub struct V2Response {
    pub id: Option<Json>,
    pub result: Option<Json>,
    pub error: Option<V2Error>,
}

pub open spec fn opt_json_view(o: Option<Json>) -> Option<JsonV> {
    match o {
        Some(j) => Some(json_view(j)),
        None => None,
    }
}

impl V2Response {
    pub fn success(id: Option<Json>, result: Json) -> (r: V2Response)
        ensures
            opt_json_view(r.id) == opt_json_view(id),
            opt_json_view(r.result) == Some(json_view(result)),
            r.error is None,
    {
        V2Response { id, result: Some(result), error: None }
    }

    pub fn error(id: Option<Json>, code: i64, message: String, data: Option<Json>) -> (r: V2Response)
        ensures
            opt_json_view(r.id) == opt_json_view(id),
            r.result is None,
            r.error matches Some(e) && e.code == code && e.message@ == message@ && opt_json_view(e.data) == opt_json_view(data),
    {
        V2Response { id, result: None, error: Some(V2Error { code, message, data }) }
    }
}

/// Answers requests against one control state.
pub struct Dispatcher {
    state: ControlState,
}

impl View for Dispatcher {
    type V = ControlV;

    closed spec fn view(&self) -> ControlV {
        self.state@
    }
}

impl Dispatcher {
    /// A dispatcher over a fresh state.
    pub fn new() -> (r: Dispatcher)
        ensures
            r@ == super::model::initial_state(),
    {
        Dispatcher { state: ControlState::new() }
    }

    /// A dispatcher over the given state.
    pub fn with_state(state: ControlState) -> (r: Dispatcher)
        ensures
            r@ == state@,
    {
        Dispatcher { state }
    }

    /// The state requests act on.
    pub fn state(&self) -> (r: &ControlState)
        ensures
            r@ == self@,
    {
        &self.state
    }

    /// Whether a request's parameters leave the id counters room.
    pub fn has_room(&self, params: &Json) -> (r: bool)
        ensures
            r == request_room(self@, json_view(*params)),
    {
        request_has_room(&self.state, params)
    }

    /// The panes of the focused window as `debug.layout` lays them out; see
    /// `layout_panes`.
    pub fn layout_panes(&self) -> (r: Vec<(u64, Option<u64>, i64, i64)>)
        ensures
            r@ == super::snapshots::layout_panes(self@),
    {
        super::snapshots::layout_panes_of(&self.state)
    }

    /// Loads a browser state file the host has read and parsed: its URL (if
    /// any) is opened, then its storages (if any) replace the browser's; see
    /// `loaded_state`. Answers as `browser.state.load` does.
    pub fn load_browser_state(
        &mut self,
        url: Option<String>,
        local: Option<Vec<(String, String)>>,
        session: Option<Vec<(String, String)>>,
        files: &Vec<(String, String)>,
    ) -> (r: Json)
        requires
            history_room(old(self)@),
        ensures
            final(self)@ == super::browser_commands::with_browser(old(self)@, loaded_state(old(self)@.browser, opt_str_view(url), opt_pairs_view(local), opt_pairs_view(session), pairs_view(files@))),
            json_view(r) == ok_and("url"@, jstr(final(self)@.browser.url)),
    {
        load_state(&mut self.state, url, local, session, files)
    }

    /// Answers a request: its result, or its error with the request's id;
    /// the shell commands the host is to run come back beside it.
    pub fn dispatch(&mut self, request: V2Request, home: Option<&str>, files: &Vec<(String, String)>) -> (r: (V2Response, Vec<ShellRun>))
        requires
            request_room(old(self)@, json_view(request.params)),
        ensures
            ({
                let (m, res, runs) = dispatch_command(old(self)@, request.method@, json_view(request.params), str_opt(home), pairs_view(files@));
                &&& final(self)@ == m
                &&& runs_view(r.1@) == runs
                &&& opt_json_view(r.0.id) == opt_json_view(request.id)
                &&& match res {
                    Ok(j) => opt_json_view(r.0.result) == Some(j) && r.0.error is None,
                    Err(e) => r.0.result is None && (r.0.error matches Some(x) && x.code == e.code
                        && x.message@ == e.message && x.data is None),
                }
            }),
    {
        let V2Request { id, method, params } = request;
        let (res, runs) = handle_command(&mut self.state, method.as_str(), &params, home, files);
        let response = match res {
            Ok(result) => V2Response::success(id, result),
            Err(e) => V2Response::error(id, e.code, e.message, None),
        };
        (response, runs)
    }
}


/// The methods the dispatcher answers by name.
pub open spec fn routed_method(method: Seq<char>) -> bool {
    method == "system.ping"@
        || method == "system.identify"@
        || method == "system.capabilities"@
        || method == "app.focus_override.set"@
        || method == "app.simulate_active"@
        || method == "window.list"@
        || method == "window.current"@
        || method == "window.create"@
        || method == "window.focus"@
        || method == "window.close"@
        || method == "workspace.list"@
        || method == "workspace.current"@
        || method == "workspace.create"@
        || method == "workspace.select"@
        || method == "workspace.next"@
        || method == "workspace.previous"@
        || method == "workspace.last"@
        || method == "workspace.rename"@
        || method == "workspace.reorder"@
        || method == "workspace.close"@
        || method == "workspace.move_to_window"@
        || method == "workspace.action"@
        || method == "pane.list"@
        || method == "pane.surfaces"@
        || method == "pane.create"@
        || method == "pane.focus"@
        || method == "pane.swap"@
        || method == "pane.break"@
        || method == "pane.join"@
        || method == "pane.last"@
        || method == "pane.resize"@
        || method == "surface.list"@
        || method == "surface.current"@
        || method == "surface.create"@
        || method == "surface.split"@
        || method == "surface.focus"@
        || method == "surface.close"@
        || method == "surface.move"@
        || method == "surface.reorder"@
        || method == "surface.drag_to_split"@
        || method == "surface.refresh"@
        || method == "surface.health"@
        || method == "surface.read_text"@
        || method == "surface.send_text"@
        || method == "surface.send_key"@
        || method == "surface.trigger_flash"@
        || method == "surface.clear_history"@
        || method == "surface.action"@
        || method == "notification.create"@
        || method == "notification.create_for_surface"@
        || method == "notification.list"@
        || method == "notification.clear"@
        || method == "tab.action"@
        || method == "browser.open_split"@
        || method == "browser.navigate"@
        || method == "browser.url.get"@
        || method == "browser.eval"@
        || method == "browser.wait"@
        || method == "browser.click"@
        || method == "browser.fill"@
        || method == "browser.get.text"@
        || method == "browser.get.value"@
        || method == "browser.get.title"@
        || method == "browser.snapshot"@
        || method == "browser.focus_webview"@
        || method == "browser.is_webview_focused"@
        || method == "browser.screenshot"@
        || method == "browser.back"@
        || method == "browser.forward"@
        || method == "browser.reload"@
        || method == "debug.sidebar.visible"@
        || method == "debug.portal.stats"@
        || method == "debug.bonsplit_underflow.count"@
        || method == "debug.empty_panel.count"@
        || method == "debug.bonsplit_underflow.reset"@
        || method == "debug.empty_panel.reset"@
        || method == "debug.flash.count"@
        || method == "debug.flash.reset"@
        || method == "debug.panel_snapshot"@
        || method == "debug.panel_snapshot.reset"@
        || method == "debug.window.screenshot"@
        || method == "debug.app.activate"@
        || method == "debug.terminal.is_focused"@
        || method == "debug.terminal.read_text"@
        || method == "debug.terminal.render_stats"@
        || method == "debug.notification.focus"@
        || method == "debug.type"@
}

/// A method the dispatcher does not know is answered with an unknown-method
/// error (-32601, naming the method), the state is left as it was, and no
/// shell command runs.
pub proof fn law_unknown_method(m: ControlV, method: Seq<char>, params: JsonV, home: Option<Seq<char>>, files: Pairs)
    requires
        !routed_method(method),
        !palette_method(method),
        !starts_with(method, "browser."@),
        !starts_with(method, "debug."@),
    ensures
        dispatch_command(m, method, params, home, files) == (m, Err::<JsonV, ErrorV>(unknown_method_err(method)), Seq::<ShellRunV>::empty()),
        unknown_method_err(method).code == -32601,
        unknown_method_err(method).message == "unknown method: "@ + method,
{
}

} // verus!
