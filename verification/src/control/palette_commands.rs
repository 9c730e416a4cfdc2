//! What the palette does to the control plane: which window it belongs to,
//! the rows it lists, renames, switching to a workspace or surface, and the
//! keys it answers to.
use vstd::prelude::*;
use crate::text::{starts_with, str_starts_with, str_eq, to_ascii_lowercase, trim_str};
use super::palette::{
    PaletteV, PaletteState, default_palette, commands_mode, switcher_mode, rename_mode, opened_in_mode,
    closed, all_selected, moved, clamped, opened_rename,
};
use super::palette_rows::{RowV, PaletteRow, rows_view, command_rows, switcher_rows, command_palette_command_rows};
use super::model::{
    current_window, focused_handles, current_surface, current_workspace_info, update_surface, rename_workspace,
    select_workspace, focus_window, focus_surface,
};
use super::state::ControlState;
use super::{ControlV, SurfaceEdit, SurfaceEditV, win_info_opt, surf_info_opt, ws_info_opt, opt_str_view};
use super::palette::{bytes, nmin, edited_text, opened_plain, deleted_backward, interacted, byte_len};
use crate::json::{
    Json, JsonV, json_view, members_view, items_view, object, array, put, push_item, new_members, new_items,
    uint, string, boolean, juint, jstr, jbool,
};
use super::protocol::{
    CommandError, ErrorV, Members, u64_param_any, u64_param, bool_param, not_found_err, optional_u64_param,
    optional_bool_param,
};
use super::dispatch::{Outcome, fail, ok, res_view, single};
use super::debug_commands::{ok_reply, ok_json, one_json, window_hint};
use super::protocol::{string_param, optional_string_param, invalid_params_err};
use super::palette::pair_del;
use super::browser::{pair_get, pair_put, pair_value};
use crate::shortcut::{normalized_combo, normalize_shortcut_combo};
use crate::text::{contains, str_contains, ascii_lower};
use crate::json::text;
use super::model::{
    split_surface, register_split, update_surface_in, send_text, send_key, toggle_sidebar, create_surface,
    focus_neighbor_pane, dir_right, dir_down, has_id_room, ShellRunV,
};
use super::dispatch::RunOutcome;
use super::protocol::{params_members, params_object, unknown_method_err};
use super::palette::typed;
use super::{ShellRun, runs_view, str_opt};

verus! {

/// A window's palette: the stored one, else a closed one.
pub open spec fn palette_of(m: ControlV, wid: u64) -> PaletteV {
    if m.palettes.contains_key(wid) { m.palettes[wid] } else { default_palette() }
}

pub open spec fn with_palette(m: ControlV, wid: u64, p: PaletteV) -> ControlV {
    ControlV { palettes: m.palettes.insert(wid, p), ..m }
}

/// The id of the focused window.
pub open spec fn active_window(m: ControlV) -> Option<u64> {
    match current_window(m) {
        Some(i) => Some(i.id),
        None => None,
    }
}

/// The window a palette request is for: the one named, else the focused one.
pub open spec fn palette_window(m: ControlV, requested: Option<u64>) -> Option<u64> {
    match requested {
        Some(w) => Some(w),
        None => active_window(m),
    }
}

/// The focused window, when its palette is shown (where typing goes).
pub open spec fn typing_window(m: ControlV) -> Option<u64> {
    match active_window(m) {
        Some(w) => if palette_of(m, w).visible { Some(w) } else { None },
        None => None,
    }
}

/// The rows a window's palette lists in its mode; none outside command and
/// switcher mode.
pub open spec fn palette_rows(m: ControlV, wid: u64) -> Seq<RowV> {
    let p = palette_of(m, wid);
    if p.mode == switcher_mode() {
        switcher_rows(m, p.query)
    } else if p.mode == commands_mode() {
        command_rows(m.shortcuts, p.query)
    } else {
        Seq::empty()
    }
}

pub open spec fn close_palette(m: ControlV, wid: u64) -> ControlV {
    with_palette(m, wid, closed(palette_of(m, wid)))
}

/// A rename of the focused surface (of the current workspace and no surface
/// when nothing is focused), starting from its title.
pub open spec fn rename_tab_opened(m: ControlV, wid: u64) -> ControlV {
    let (wsid, sid) = match focused_handles(m) {
        Some(h) => (h.0, h.3),
        None => (m.current_workspace_id, 0u64),
    };
    let title = match current_surface(m) {
        Some(s) => s.title,
        None => Seq::empty(),
    };
    let target = if sid == 0 { None } else { Some(sid) };
    with_palette(m, wid, opened_rename(palette_of(m, wid), title, target, wsid, m.rename_select_all))
}

/// A rename of the current workspace, starting from its name.
pub open spec fn rename_workspace_opened(m: ControlV, wid: u64) -> ControlV {
    let name = match current_workspace_info(m) {
        Some(i) => i.name,
        None => Seq::empty(),
    };
    with_palette(m, wid, opened_rename(palette_of(m, wid), name, None, m.current_workspace_id, m.rename_select_all))
}

/// Selects a switcher row's workspace and focuses its host window.
pub open spec fn switched_to(m: ControlV, row: RowV) -> ControlV {
    match row.workspace_id {
        None => m,
        Some(ws) => {
            let m1 = select_workspace(m, Some(ws), None).0;
            match row.host_window_id {
                Some(h) => focus_window(m1, h).0,
                None => m1,
            }
        },
    }
}

/// Enter in a shown palette: a rename renames its surface (or else its
/// workspace) and closes; otherwise the selected row (kept within the rows)
/// is carried out: a switcher row switches and closes, the rename commands
/// open a rename, any other command closes. With no rows nothing happens.
pub open spec fn palette_entered(m: ControlV, wid: u64) -> ControlV {
    let p = palette_of(m, wid);
    if !p.visible {
        m
    } else if p.mode == rename_mode() {
        let m1 = match p.rename_target_surface_id {
            Some(sid) => update_surface(m, Some(sid), SurfaceEditV::Rename(Some(p.rename_text))).0,
            None => match p.rename_target_workspace_id {
                Some(ws) => rename_workspace(m, Some(ws), p.rename_text).0,
                None => m,
            },
        };
        close_palette(m1, wid)
    } else {
        let rows = palette_rows(m, wid);
        if rows.len() == 0 {
            m
        } else {
            let row = rows[if p.selected_index < rows.len() { p.selected_index as int } else { rows.len() - 1 }];
            if starts_with(row.command_id, "switcher.workspace."@) {
                close_palette(switched_to(m, row), wid)
            } else if starts_with(row.command_id, "switcher.surface."@) {
                let m1 = switched_to(m, row);
                let m2 = match row.surface_id {
                    Some(s) => focus_surface(m1, s).0,
                    None => m1,
                };
                close_palette(m2, wid)
            } else if row.command_id == "palette.renameTab"@ {
                rename_tab_opened(m, wid)
            } else if row.command_id == "palette.renameWorkspace"@ {
                rename_workspace_opened(m, wid)
            } else {
                close_palette(m, wid)
            }
        }
    }
}

pub open spec fn moved_in(m: ControlV, wid: u64, delta: int) -> ControlV {
    with_palette(m, wid, moved(palette_of(m, wid), palette_rows(m, wid).len(), delta))
}

/// Shows a palette in a mode, or closes it when it is already shown in that mode.
pub open spec fn toggled_in_mode(m: ControlV, wid: u64, mode: Seq<char>) -> ControlV {
    let p = palette_of(m, wid);
    if p.visible && p.mode == mode { close_palette(m, wid) } else { with_palette(m, wid, opened_in_mode(p, mode)) }
}

/// A normalized key combination given to the focused window's palette, and
/// whether the palette took it: `cmd+shift+p` and `cmd+p` toggle command and
/// switcher mode; while the palette is shown, down and up keys move the
/// selection, `cmd+a` selects all and enter carries out the selection.
pub open spec fn palette_shortcut(m: ControlV, combo: Seq<char>) -> (ControlV, bool) {
    match active_window(m) {
        None => (m, false),
        Some(wid) => {
            let p = palette_of(m, wid);
            if combo == "cmd+shift+p"@ {
                (toggled_in_mode(m, wid, commands_mode()), true)
            } else if combo == "cmd+p"@ {
                (toggled_in_mode(m, wid, switcher_mode()), true)
            } else if combo == "down"@ || combo == "ctrl+n"@ || combo == "ctrl+j"@ {
                if p.visible { (moved_in(m, wid, 1), true) } else { (m, false) }
            } else if combo == "up"@ || combo == "ctrl+p"@ || combo == "ctrl+k"@ {
                if p.visible { (moved_in(m, wid, -1), true) } else { (m, false) }
            } else if combo == "cmd+a"@ {
                if p.visible { (with_palette(m, wid, all_selected(p)), true) } else { (m, false) }
            } else if combo == "enter"@ {
                if p.visible { (palette_entered(m, wid), true) } else { (m, false) }
            } else {
                (m, false)
            }
        },
    }
}

/// The focused window's id; see `active_window`.
pub fn active_window_id(state: &ControlState) -> (r: Option<u64>)
    ensures
        r == active_window(state@),
{
    match state.current_window() {
        Some(i) => Some(i.id),
        None => None,
    }
}

/// The rows of a window's palette; see `palette_rows`.
pub fn rows_of(state: &ControlState, wid: u64) -> (r: Vec<PaletteRow>)
    ensures
        rows_view(r@) == palette_rows(state@, wid),
{
    let p = state.palette(wid);
    if str_eq(p.mode.as_str(), "switcher") {
        state.switcher_rows(p.query.as_str())
    } else if str_eq(p.mode.as_str(), "commands") {
        command_palette_command_rows(state.shortcuts(), p.query.as_str())
    } else {
        let v: Vec<PaletteRow> = Vec::new();
        proof { assert(rows_view(v@) =~= Seq::<RowV>::empty()); }
        v
    }
}

fn close_window_palette(state: &mut ControlState, wid: u64)
    ensures
        final(state)@ == close_palette(old(state)@, wid),
{
    let mut p = state.palette(wid);
    p.close();
    state.set_palette(wid, p);
}

/// Opens a rename of the focused surface; see `rename_tab_opened`.
pub fn open_rename_tab(state: &mut ControlState, wid: u64)
    ensures
        final(state)@ == rename_tab_opened(old(state)@, wid),
{
    let (wsid, sid) = match state.focused_handles() {
        Some((w, _, _, s)) => (w, s),
        None => (state.current_workspace_id(), 0u64),
    };
    let title = match state.current_surface() {
        Some(s) => s.title,
        None => String::new(),
    };
    let target = if sid == 0 { None } else { Some(sid) };
    let select_all = state.rename_select_all();
    let mut p = state.palette(wid);
    p.open_rename(title, target, wsid, select_all);
    state.set_palette(wid, p);
}

/// Opens a rename of the current workspace; see `rename_workspace_opened`.
pub fn open_rename_workspace(state: &mut ControlState, wid: u64)
    ensures
        final(state)@ == rename_workspace_opened(old(state)@, wid),
{
    let name = match state.current_workspace_info() {
        Some(i) => i.name,
        None => String::new(),
    };
    let ws = state.current_workspace_id();
    let select_all = state.rename_select_all();
    let mut p = state.palette(wid);
    p.open_rename(name, None, ws, select_all);
    state.set_palette(wid, p);
}

fn switch_to_row(state: &mut ControlState, row: &PaletteRow)
    ensures
        final(state)@ == switched_to(old(state)@, row@),
{
    match row.workspace_id {
        None => {},
        Some(ws) => {
            let _ = state.select_workspace(Some(ws), None);
            match row.host_window_id {
                Some(h) => { let _ = state.focus_window(h); },
                None => {},
            }
        },
    }
}

/// Enter in a window's palette; see `palette_entered`.
pub fn enter_palette(state: &mut ControlState, wid: u64)
    ensures
        final(state)@ == palette_entered(old(state)@, wid),
{
    let p = state.palette(wid);
    if !p.visible {
        return;
    }
    if str_eq(p.mode.as_str(), "rename_input") {
        match p.rename_target_surface_id {
            Some(sid) => {
                let edit = SurfaceEdit::Rename(Some(p.rename_text.clone()));
                let _ = state.update_surface(Some(sid), &edit);
            },
            None => match p.rename_target_workspace_id {
                Some(ws) => { let _ = state.rename_workspace(Some(ws), p.rename_text.clone()); },
                None => {},
            },
        }
        close_window_palette(state, wid);
        return;
    }
    let rows = rows_of(state, wid);
    if rows.len() == 0 {
        return;
    }
    let idx = if p.selected_index < rows.len() { p.selected_index } else { rows.len() - 1 };
    let row = &rows[idx];
    proof { assert(rows_view(rows@)[idx as int] == row@); }
    if str_starts_with(row.command_id.as_str(), "switcher.workspace.") {
        switch_to_row(state, row);
        close_window_palette(state, wid);
    } else if str_starts_with(row.command_id.as_str(), "switcher.surface.") {
        switch_to_row(state, row);
        match row.surface_id {
            Some(s) => { let _ = state.focus_surface(s); },
            None => {},
        }
        close_window_palette(state, wid);
    } else if str_eq(row.command_id.as_str(), "palette.renameTab") {
        open_rename_tab(state, wid);
    } else if str_eq(row.command_id.as_str(), "palette.renameWorkspace") {
        open_rename_workspace(state, wid);
    } else {
        close_window_palette(state, wid);
    }
}

fn move_in(state: &mut ControlState, wid: u64, delta: isize)
    ensures
        final(state)@ == moved_in(old(state)@, wid, delta as int),
{
    let count = rows_of(state, wid).len();
    let mut p = state.palette(wid);
    p.move_selection(count, delta);
    state.set_palette(wid, p);
}

fn toggle_in_mode(state: &mut ControlState, wid: u64, mode: &str)
    ensures
        final(state)@ == toggled_in_mode(old(state)@, wid, mode@),
{
    let mut p = state.palette(wid);
    if p.visible && str_eq(p.mode.as_str(), mode) {
        p.close();
    } else {
        p.open_in_mode(mode);
    }
    state.set_palette(wid, p);
}

/// Gives a normalized key combination to the focused window's palette; see
/// `palette_shortcut`.
pub fn handle_palette_shortcut(state: &mut ControlState, combo: &str) -> (r: bool)
    ensures
        (final(state)@, r) == palette_shortcut(old(state)@, combo@),
{
    let wid = match active_window_id(state) {
        None => return false,
        Some(w) => w,
    };
    let p = state.palette(wid);
    if str_eq(combo, "cmd+shift+p") {
        toggle_in_mode(state, wid, "commands");
        true
    } else if str_eq(combo, "cmd+p") {
        toggle_in_mode(state, wid, "switcher");
        true
    } else if str_eq(combo, "down") || str_eq(combo, "ctrl+n") || str_eq(combo, "ctrl+j") {
        if p.visible {
            move_in(state, wid, 1);
            true
        } else {
            false
        }
    } else if str_eq(combo, "up") || str_eq(combo, "ctrl+p") || str_eq(combo, "ctrl+k") {
        if p.visible {
            move_in(state, wid, -1);
            true
        } else {
            false
        }
    } else if str_eq(combo, "cmd+a") {
        if p.visible {
            let mut q = p;
            q.select_all();
            state.set_palette(wid, q);
            true
        } else {
            false
        }
    } else if str_eq(combo, "enter") {
        if p.visible {
            enter_palette(state, wid);
            true
        } else {
            false
        }
    } else {
        false
    }
}

} // verus!

verus! {

pub open spec fn jopt_str(o: Option<Seq<char>>) -> JsonV {
    match o {
        Some(s) => jstr(s),
        None => JsonV::Null,
    }
}

/// A listed row: its command id, title, trailing label and shortcut hint.
pub open spec fn row_json(r: RowV) -> JsonV {
    JsonV::Object(seq![
        ("command_id"@, jstr(r.command_id)),
        ("title"@, jstr(r.title)),
        ("trailing_label"@, jopt_str(r.trailing_label)),
        ("shortcut_hint"@, jopt_str(r.shortcut_hint)),
    ])
}

/// The first `limit` rows, listed.
pub open spec fn rows_json(rows: Seq<RowV>, limit: u64) -> JsonV {
    JsonV::Array(rows.take(nmin(limit as nat, rows.len()) as int).map_values(|r: RowV| row_json(r)))
}

pub open spec fn results_reply(p: PaletteV, selected: nat, rows: Seq<RowV>, limit: u64) -> JsonV {
    JsonV::Object(seq![
        ("mode"@, jstr(p.mode)),
        ("query"@, jstr(p.query)),
        ("selected_index"@, juint(selected as u64)),
        ("results"@, rows_json(rows, limit)),
    ])
}

/// What the palette's edited text looks like: whether the palette is shown,
/// the text's size in bytes and the selection.
pub open spec fn selection_reply(p: PaletteV) -> JsonV {
    JsonV::Object(seq![
        ("focused"@, jbool(p.visible)),
        ("text_length"@, juint(bytes(edited_text(p)) as u64)),
        ("selection_location"@, juint(p.selection_location as u64)),
        ("selection_length"@, juint(p.selection_length as u64)),
    ])
}

/// A palette request: the window named by `window_id` or `id`, else the
/// focused one; `not_found` when there is none.
pub open spec fn for_palette(m: ControlV, ms: Members, f: spec_fn(u64) -> Outcome) -> Outcome {
    match u64_param_any(ms, seq!["window_id"@, "id"@]) {
        Err(e) => fail(m, e),
        Ok(w) => match palette_window(m, w) {
            None => fail(m, not_found_err("window not found"@)),
            Some(wid) => f(wid),
        },
    }
}

/// `debug.command_palette.toggle`: closes a shown palette, or shows it in
/// command mode with nothing typed.
pub open spec fn cmd_palette_toggle(m: ControlV, ms: Members) -> Outcome {
    for_palette(m, ms, |wid: u64| {
        let p = palette_of(m, wid);
        let m1 = if p.visible { close_palette(m, wid) } else { with_palette(m, wid, opened_plain(p)) };
        ok(m1, single("visible"@, jbool(palette_of(m1, wid).visible)))
    })
}

/// `debug.command_palette.visible`
pub open spec fn cmd_palette_visible(m: ControlV, ms: Members) -> Outcome {
    for_palette(m, ms, |wid: u64| ok(m, single("visible"@, jbool(palette_of(m, wid).visible))))
}

/// `debug.command_palette.selection`
pub open spec fn cmd_palette_selection(m: ControlV, ms: Members) -> Outcome {
    for_palette(m, ms, |wid: u64| ok(m, single("selected_index"@, juint(palette_of(m, wid).selected_index as u64))))
}

/// `debug.command_palette.results`: the palette's mode, query, selection
/// (first kept within the rows) and its first `limit` rows (20 by default).
pub open spec fn cmd_palette_results(m: ControlV, ms: Members) -> Outcome {
    for_palette(m, ms, |wid: u64| match u64_param(ms, "limit"@) {
        Err(e) => fail(m, e),
        Ok(l) => {
            let limit: u64 = match l { Some(x) => x, None => 20 };
            let p = palette_of(m, wid);
            let rows = palette_rows(m, wid);
            let q = clamped(p, rows.len());
            ok(with_palette(m, wid, q), results_reply(p, q.selected_index, rows, limit))
        },
    })
}

/// `debug.command_palette.rename_tab.open`
pub open spec fn cmd_palette_rename_tab(m: ControlV, ms: Members) -> Outcome {
    for_palette(m, ms, |wid: u64| ok(rename_tab_opened(m, wid), ok_reply()))
}

/// `debug.command_palette.rename_input.selection`
pub open spec fn cmd_palette_rename_selection(m: ControlV, ms: Members) -> Outcome {
    for_palette(m, ms, |wid: u64| ok(m, selection_reply(palette_of(m, wid))))
}

/// `debug.command_palette.rename_input.select_all`: sets, when `enabled` is
/// given, whether a rename opens with the name selected; answers the setting.
pub open spec fn cmd_palette_select_all(m: ControlV, ms: Members) -> Outcome {
    match bool_param(ms, "enabled"@) {
        Err(e) => fail(m, e),
        Ok(b) => {
            let m1 = match b {
                Some(x) => ControlV { rename_select_all: x, ..m },
                None => m,
            };
            ok(m1, single("enabled"@, jbool(m1.rename_select_all)))
        },
    }
}

/// `debug.command_palette.rename_input.delete_backward`
pub open spec fn cmd_palette_delete_backward(m: ControlV, ms: Members) -> Outcome {
    for_palette(m, ms, |wid: u64| ok(with_palette(m, wid, deleted_backward(palette_of(m, wid))), ok_reply()))
}

/// `debug.command_palette.rename_input.interact`
pub open spec fn cmd_palette_interact(m: ControlV, ms: Members) -> Outcome {
    for_palette(m, ms, |wid: u64| ok(with_palette(m, wid, interacted(palette_of(m, wid), m.rename_select_all)), ok_reply()))
}

fn palette_window_id(state: &ControlState, params: &Vec<(String, Json)>) -> (r: Result<u64, CommandError>)
    ensures
        match u64_param_any(members_view(params@), seq!["window_id"@, "id"@]) {
            Err(e) => r matches Err(x) && x@ == e,
            Ok(w) => match palette_window(state@, w) {
                None => r matches Err(x) && x@ == not_found_err("window not found"@),
                Some(wid) => r == Ok::<u64, CommandError>(wid),
            },
        },
{
    let w = match window_hint(params) { Err(e) => return Err(e), Ok(v) => v };
    match w {
        Some(x) => Ok(x),
        None => match active_window_id(state) {
            Some(x) => Ok(x),
            None => Err(CommandError::not_found("window not found")),
        },
    }
}

pub fn palette_toggle(state: &mut ControlState, params: &Vec<(String, Json)>) -> (r: Result<Json, CommandError>)
    ensures
        (final(state)@, res_view(r)) == cmd_palette_toggle(old(state)@, members_view(params@)),
{
    let wid = match palette_window_id(state, params) { Err(e) => return Err(e), Ok(w) => w };
    let mut p = state.palette(wid);
    if p.visible {
        p.close();
    } else {
        p.open_plain();
    }
    let v = p.visible;
    state.set_palette(wid, p);
    Ok(one_json("visible", boolean(v)))
}

pub fn palette_visible(state: &mut ControlState, params: &Vec<(String, Json)>) -> (r: Result<Json, CommandError>)
    ensures
        (final(state)@, res_view(r)) == cmd_palette_visible(old(state)@, members_view(params@)),
{
    let wid = match palette_window_id(state, params) { Err(e) => return Err(e), Ok(w) => w };
    Ok(one_json("visible", boolean(state.palette(wid).visible)))
}

pub fn palette_selection(state: &mut ControlState, params: &Vec<(String, Json)>) -> (r: Result<Json, CommandError>)
    ensures
        (final(state)@, res_view(r)) == cmd_palette_selection(old(state)@, members_view(params@)),
{
    let wid = match palette_window_id(state, params) { Err(e) => return Err(e), Ok(w) => w };
    Ok(one_json("selected_index", uint(state.palette(wid).selected_index as u64)))
}

fn opt_text(o: Option<String>) -> (r: Json)
    ensures
        json_view(r) == jopt_str(opt_str_view(o)),
{
    match o {
        Some(s) => string(s),
        None => Json::Null,
    }
}

fn row_as_json(r: PaletteRow) -> (j: Json)
    ensures
        json_view(j) == row_json(r@),
{
    let ghost rv = r@;
    let mut m = new_members();
    put(&mut m, "command_id", string(r.command_id));
    put(&mut m, "title", string(r.title));
    put(&mut m, "trailing_label", opt_text(r.trailing_label));
    put(&mut m, "shortcut_hint", opt_text(r.shortcut_hint));
    proof { assert(members_view(m@) =~= (row_json(rv))->Object_0); }
    object(m)
}

fn rows_as_json(rows: Vec<PaletteRow>, limit: u64) -> (j: Json)
    ensures
        json_view(j) == rows_json(rows_view(rows@), limit),
{
    let ghost rv = rows_view(rows@);
    let ghost n = nmin(limit as nat, rv.len());
    let mut rest = rows;
    let total = rest.len();
    proof { assert(rv.len() == total); }
    let mut items = new_items();
    let mut i: usize = 0;
    proof { assert(rv.take(0).map_values(|r: RowV| row_json(r)) =~= items_view(items@)); }
    while (i as u64) < limit && rest.len() > 0
        invariant
            i as nat <= n,
            i + rest.len() == rv.len(),
            rv.len() <= usize::MAX,
            n == nmin(limit as nat, rv.len()),
            rows_view(rest@) == rv.skip(i as int),
            items_view(items@) == rv.take(i as int).map_values(|r: RowV| row_json(r)),
        decreases rest.len(),
    {
        let ghost before = rest@;
        let r = rest.remove(0);
        proof {
            assert(rows_view(before)[0] == rv.skip(i as int)[0]);
            assert(r@ == rv[i as int]);
            assert(rest@ =~= before.drop_first());
            assert(rows_view(rest@) =~= rows_view(before).drop_first());
            assert(rv.skip(i as int).drop_first() =~= rv.skip(i + 1 as int));
        }
        let ghost iv = items_view(items@);
        push_item(&mut items, row_as_json(r));
        proof {
            assert(rv.take(i + 1 as int) =~= rv.take(i as int).push(rv[i as int]));
            assert(items_view(items@) =~= rv.take(i + 1 as int).map_values(|r: RowV| row_json(r)));
        }
        i = i + 1;
    }
    proof {
        assert(i as nat == n);
    }
    array(items)
}

pub fn palette_results(state: &mut ControlState, params: &Vec<(String, Json)>) -> (r: Result<Json, CommandError>)
    ensures
        (final(state)@, res_view(r)) == cmd_palette_results(old(state)@, members_view(params@)),
{
    let wid = match palette_window_id(state, params) { Err(e) => return Err(e), Ok(w) => w };
    let l = match optional_u64_param(params, "limit") { Err(e) => return Err(e), Ok(v) => v };
    let limit: u64 = match l { Some(x) => x, None => 20 };
    let p = state.palette(wid);
    let rows = rows_of(state, wid);
    let mut q = p.copy();
    q.clamp(rows.len());
    let sel = q.selected_index;
    state.set_palette(wid, q);
    let ghost pv = p@;
    let mut m = new_members();
    put(&mut m, "mode", string(p.mode));
    put(&mut m, "query", string(p.query));
    put(&mut m, "selected_index", uint(sel as u64));
    let ghost rv = rows_view(rows@);
    put(&mut m, "results", rows_as_json(rows, limit));
    proof { assert(members_view(m@) =~= (results_reply(pv, sel as nat, rv, limit))->Object_0); }
    Ok(object(m))
}

pub fn palette_rename_tab(state: &mut ControlState, params: &Vec<(String, Json)>) -> (r: Result<Json, CommandError>)
    ensures
        (final(state)@, res_view(r)) == cmd_palette_rename_tab(old(state)@, members_view(params@)),
{
    let wid = match palette_window_id(state, params) { Err(e) => return Err(e), Ok(w) => w };
    open_rename_tab(state, wid);
    Ok(ok_json())
}

pub fn palette_rename_selection(state: &mut ControlState, params: &Vec<(String, Json)>) -> (r: Result<Json, CommandError>)
    ensures
        (final(state)@, res_view(r)) == cmd_palette_rename_selection(old(state)@, members_view(params@)),
{
    let wid = match palette_window_id(state, params) { Err(e) => return Err(e), Ok(w) => w };
    let p = state.palette(wid);
    let t = if str_eq(p.mode.as_str(), "rename_input") { p.rename_text.as_str() } else { p.query.as_str() };
    let n = byte_len(t);
    let mut m = new_members();
    put(&mut m, "focused", boolean(p.visible));
    put(&mut m, "text_length", uint(n as u64));
    put(&mut m, "selection_location", uint(p.selection_location as u64));
    put(&mut m, "selection_length", uint(p.selection_length as u64));
    proof { assert(members_view(m@) =~= (selection_reply(p@))->Object_0); }
    Ok(object(m))
}

pub fn palette_select_all(state: &mut ControlState, params: &Vec<(String, Json)>) -> (r: Result<Json, CommandError>)
    ensures
        (final(state)@, res_view(r)) == cmd_palette_select_all(old(state)@, members_view(params@)),
{
    let b = match optional_bool_param(params, "enabled") { Err(e) => return Err(e), Ok(v) => v };
    match b {
        Some(x) => state.set_rename_select_all(x),
        None => {},
    }
    Ok(one_json("enabled", boolean(state.rename_select_all())))
}

pub fn palette_delete_backward(state: &mut ControlState, params: &Vec<(String, Json)>) -> (r: Result<Json, CommandError>)
    ensures
        (final(state)@, res_view(r)) == cmd_palette_delete_backward(old(state)@, members_view(params@)),
{
    let wid = match palette_window_id(state, params) { Err(e) => return Err(e), Ok(w) => w };
    let mut p = state.palette(wid);
    p.delete_backward();
    state.set_palette(wid, p);
    Ok(ok_json())
}

pub fn palette_interact(state: &mut ControlState, params: &Vec<(String, Json)>) -> (r: Result<Json, CommandError>)
    ensures
        (final(state)@, res_view(r)) == cmd_palette_interact(old(state)@, members_view(params@)),
{
    let wid = match palette_window_id(state, params) { Err(e) => return Err(e), Ok(w) => w };
    let select_all = state.rename_select_all();
    let mut p = state.palette(wid);
    p.interact(select_all);
    state.set_palette(wid, p);
    Ok(ok_json())
}

} // verus!

verus! {

/// A string parameter, else a second one; an error from the second is
/// passed over.
pub open spec fn string_or(ms: Members, first: Seq<char>, second: Seq<char>) -> Result<Option<Seq<char>>, ErrorV> {
    match string_param(ms, first) {
        Err(e) => Err(e),
        Ok(Some(x)) => Ok(Some(x)),
        Ok(None) => match string_param(ms, second) {
            Ok(Some(y)) => Ok(Some(y)),
            _ => Ok(None),
        },
    }
}

fn string_param_or(params: &Vec<(String, Json)>, first: &str, second: &str) -> (r: Result<Option<String>, CommandError>)
    ensures
        match r {
            Ok(v) => string_or(members_view(params@), first@, second@) == Ok::<Option<Seq<char>>, ErrorV>(opt_str_view(v)),
            Err(e) => string_or(members_view(params@), first@, second@) == Err::<Option<Seq<char>>, ErrorV>(e@),
        },
{
    match optional_string_param(params, first) {
        Err(e) => Err(e),
        Ok(Some(x)) => Ok(Some(x)),
        Ok(None) => match optional_string_param(params, second) {
            Ok(Some(y)) => Ok(Some(y)),
            _ => Ok(None),
        },
    }
}

pub open spec fn shortcut_set_reply(name: Seq<char>, combo: Seq<char>) -> JsonV {
    JsonV::Object(seq![("ok"@, jbool(true)), ("name"@, jstr(name)), ("combo"@, jstr(combo))])
}

/// `debug.shortcut.set`: remaps the shortcut named by `name` (or `action`)
/// to the normalized `combo` (or `shortcut`); `clear` drops the remap and an
/// empty combination changes nothing.
pub open spec fn cmd_shortcut_set(m: ControlV, ms: Members) -> Outcome {
    match string_or(ms, "name"@, "action"@) {
        Err(e) => fail(m, e),
        Ok(None) => fail(m, invalid_params_err("name/action is required"@)),
        Ok(Some(name)) => match string_or(ms, "combo"@, "shortcut"@) {
            Err(e) => fail(m, e),
            Ok(c) => {
                let combo = match c { Some(x) => x, None => Seq::empty() };
                let m1 = if combo == "clear"@ {
                    ControlV { shortcuts: pair_del(m.shortcuts, name), ..m }
                } else if combo.len() > 0 {
                    ControlV { shortcuts: pair_put(m.shortcuts, name, normalized_combo(combo)), ..m }
                } else {
                    m
                };
                ok(m1, shortcut_set_reply(name, combo))
            },
        },
    }
}

pub fn shortcut_set(state: &mut ControlState, params: &Vec<(String, Json)>) -> (r: Result<Json, CommandError>)
    ensures
        (final(state)@, res_view(r)) == cmd_shortcut_set(old(state)@, members_view(params@)),
{
    let name = match string_param_or(params, "name", "action") {
        Err(e) => return Err(e),
        Ok(None) => return Err(CommandError::invalid_params("name/action is required")),
        Ok(Some(n)) => n,
    };
    let c = match string_param_or(params, "combo", "shortcut") { Err(e) => return Err(e), Ok(v) => v };
    let combo = match c { Some(x) => x, None => String::new() };
    if str_eq(combo.as_str(), "clear") {
        state.clear_shortcut(name.as_str());
    } else if combo.unicode_len() > 0 {
        state.set_shortcut(name.clone(), normalize_shortcut_combo(combo.as_str()));
    }
    let ghost nv = name@;
    let ghost cv = combo@;
    let mut m = new_members();
    put(&mut m, "ok", boolean(true));
    put(&mut m, "name", string(name));
    put(&mut m, "combo", string(combo));
    proof { assert(members_view(m@) =~= (shortcut_set_reply(nv, cv))->Object_0); }
    Ok(object(m))
}

pub open spec fn combo_reply(combo: Seq<char>) -> JsonV {
    JsonV::Object(seq![("ok"@, jbool(true)), ("combo"@, jstr(combo))])
}

/// A shortcut's combination: the user's remap, else its normalized default.
pub open spec fn remapped(m: ControlV, name: Seq<char>, default: Seq<char>) -> Seq<char> {
    match pair_get(m.shortcuts, name) {
        Some(c) => c,
        None => normalized_combo(default),
    }
}

/// A split off the focused pane, recorded as its neighbor in a direction.
pub open spec fn split_from_focus(m: ControlV, direction: Seq<char>) -> ControlV {
    match focused_handles(m) {
        None => m,
        Some(h) => {
            let (m1, s) = split_surface(m, None);
            match s {
                Some(info) => register_split(m1, h.2, info.pane_id, direction),
                None => m1,
            }
        },
    }
}

/// Developer tools shown or hidden on the focused surface, when it is a browser.
pub open spec fn devtools_toggled(m: ControlV) -> ControlV {
    match focused_handles(m) {
        None => m,
        Some(h) => update_surface_in(m, h.0, h.3, SurfaceEditV::ToggleDevtools).0,
    }
}

/// Text typed into the focused surface; the commands its shell runs come back.
pub open spec fn typed_into_focus(m: ControlV, combo: Seq<char>, text: Seq<char>, home: Option<Seq<char>>) -> RunOutcome {
    match focused_handles(m) {
        None => (m, Ok(combo_reply(combo)), Seq::empty()),
        Some(h) => {
            let (m1, out) = send_text(m, h.0, h.3, text, home);
            let runs = match out { Some((_, rs)) => rs, None => Seq::empty() };
            (m1, Ok(combo_reply(combo)), runs)
        },
    }
}

/// A key combination the palette did not take: focus moves left or right
/// (by the remappable shortcuts), developer tools, the sidebar, a new tab,
/// splits to the right or below, `ctrl+d` and enter into the focused
/// terminal, and a single character typed into it.
pub open spec fn simulated_key(m: ControlV, combo: Seq<char>, cn: Seq<char>, home: Option<Seq<char>>) -> RunOutcome {
    let done = Ok(combo_reply(combo));
    if cn == remapped(m, "focus_left"@, "cmd+opt+left"@) {
        (focus_neighbor_pane(m, -1).0, done, Seq::empty())
    } else if cn == remapped(m, "focus_right"@, "cmd+opt+right"@) {
        (focus_neighbor_pane(m, 1).0, done, Seq::empty())
    } else if cn == normalized_combo("cmd+opt+i"@) {
        (devtools_toggled(m), done, Seq::empty())
    } else if cn == normalized_combo("cmd+b"@) {
        match active_window(m) {
            Some(w) => {
                let (m1, v) = toggle_sidebar(m, w);
                (m1, Ok(JsonV::Object(seq![("ok"@, jbool(true)), ("combo"@, jstr(combo)), ("visible"@, jbool(v))])), Seq::empty())
            },
            None => (m, done, Seq::empty()),
        }
    } else if cn == normalized_combo("cmd+t"@) {
        (create_surface(m, None).0, done, Seq::empty())
    } else if cn == normalized_combo("cmd+d"@) {
        (split_from_focus(m, dir_right()), done, Seq::empty())
    } else if cn == normalized_combo("cmd+shift+d"@) {
        (split_from_focus(m, dir_down()), done, Seq::empty())
    } else if cn == normalized_combo("ctrl+d"@) {
        match focused_handles(m) {
            Some(h) => (send_key(m, h.0, h.3, "ctrl-d"@).0, done, Seq::empty()),
            None => (m, done, Seq::empty()),
        }
    } else if cn == normalized_combo("enter"@) {
        typed_into_focus(m, combo, "\n"@, home)
    } else if cn.len() == 1 && !contains(cn, "+"@) {
        typed_into_focus(m, combo, cn, home)
    } else {
        (m, done, Seq::empty())
    }
}

/// `debug.shortcut.simulate`: the normalized `combo` (or `action`) goes to
/// the palette first, then to the shortcuts of `simulated_key`.
pub open spec fn cmd_shortcut_simulate(m: ControlV, ms: Members, home: Option<Seq<char>>) -> RunOutcome {
    match string_or(ms, "combo"@, "action"@) {
        Err(e) => (m, Err(e), Seq::empty()),
        Ok(None) => (m, Err(invalid_params_err("combo/action is required"@)), Seq::empty()),
        Ok(Some(combo)) => {
            let cn = normalized_combo(combo);
            let (m1, taken) = palette_shortcut(m, cn);
            if taken { (m1, Ok(combo_reply(combo)), Seq::empty()) } else { simulated_key(m, combo, cn, home) }
        },
    }
}

fn combo_json(combo: &str) -> (r: Json)
    ensures
        json_view(r) == combo_reply(combo@),
{
    let mut m = new_members();
    put(&mut m, "ok", boolean(true));
    put(&mut m, "combo", text(combo));
    proof { assert(members_view(m@) =~= (combo_reply(combo@))->Object_0); }
    object(m)
}

fn remap_of(state: &ControlState, name: &str, default: &str) -> (r: String)
    ensures
        r@ == remapped(state@, name@, default@),
{
    match pair_value(state.shortcuts(), name) {
        Some(c) => c,
        None => normalize_shortcut_combo(default),
    }
}

fn split_focused(state: &mut ControlState, right: bool)
    requires
        has_id_room(old(state)@),
    ensures
        final(state)@ == split_from_focus(old(state)@, if right { dir_right() } else { dir_down() }),
{
    match state.focused_handles() {
        None => {},
        Some((_, _, pane, _)) => {
            match state.split_surface(None) {
                Some(info) => {
                    if right {
                        state.register_split_relation(pane, info.pane_id, "right");
                        proof { reveal_strlit("right"); assert("right"@ =~= dir_right()); assert(ascii_lower(dir_right()) =~= dir_right()); }
                    } else {
                        state.register_split_relation(pane, info.pane_id, "down");
                        proof { reveal_strlit("down"); assert("down"@ =~= dir_down()); assert(ascii_lower(dir_down()) =~= dir_down()); }
                    }
                },
                None => {},
            }
        },
    }
}

fn type_into_focus(state: &mut ControlState, combo: &str, t: &str, home: Option<&str>) -> (r: (Result<Json, CommandError>, Vec<ShellRun>))
    requires
        old(state)@.next_notification_id + t@.len() <= u64::MAX,
    ensures
        (final(state)@, res_view(r.0), runs_view(r.1@)) == typed_into_focus(old(state)@, combo@, t@, str_opt(home)),
{
    let none: Vec<ShellRun> = Vec::new();
    proof { assert(runs_view(none@) =~= Seq::<ShellRunV>::empty()); }
    let runs = match state.focused_handles() {
        None => none,
        Some((w, _, _, sid)) => match state.apply_surface_text_input(w, sid, t, home) {
            Some((_, rs)) => rs,
            None => none,
        },
    };
    (Ok(combo_json(combo)), runs)
}

fn simulate_key(state: &mut ControlState, combo: &str, cn: &str, home: Option<&str>) -> (r: (Result<Json, CommandError>, Vec<ShellRun>))
    requires
        has_id_room(old(state)@),
    ensures
        (final(state)@, res_view(r.0), runs_view(r.1@)) == simulated_key(old(state)@, combo@, cn@, str_opt(home)),
{
    let none: Vec<ShellRun> = Vec::new();
    proof { assert(runs_view(none@) =~= Seq::<ShellRunV>::empty()); }
    let left = remap_of(state, "focus_left", "cmd+opt+left");
    let right = remap_of(state, "focus_right", "cmd+opt+right");
    if str_eq(cn, left.as_str()) {
        let _ = state.focus_left_pane();
        return (Ok(combo_json(combo)), none);
    }
    if str_eq(cn, right.as_str()) {
        let _ = state.focus_right_pane();
        return (Ok(combo_json(combo)), none);
    }
    if str_eq(cn, normalize_shortcut_combo("cmd+opt+i").as_str()) {
        match state.focused_handles() {
            Some((w, _, _, sid)) => { let _ = state.update_surface_metadata(w, sid, &SurfaceEdit::ToggleDevtools); },
            None => {},
        }
        return (Ok(combo_json(combo)), none);
    }
    if str_eq(cn, normalize_shortcut_combo("cmd+b").as_str()) {
        match active_window_id(state) {
            Some(w) => {
                let v = state.toggle_sidebar_for_window(w);
                let mut m = new_members();
                put(&mut m, "ok", boolean(true));
                put(&mut m, "combo", text(combo));
                put(&mut m, "visible", boolean(v));
                proof { assert(members_view(m@) =~= seq![("ok"@, jbool(true)), ("combo"@, jstr(combo@)), ("visible"@, jbool(v))]); }
                return (Ok(object(m)), none);
            },
            None => return (Ok(combo_json(combo)), none),
        }
    }
    if str_eq(cn, normalize_shortcut_combo("cmd+t").as_str()) {
        let _ = state.create_surface(None);
        return (Ok(combo_json(combo)), none);
    }
    if str_eq(cn, normalize_shortcut_combo("cmd+d").as_str()) {
        split_focused(state, true);
        return (Ok(combo_json(combo)), none);
    }
    if str_eq(cn, normalize_shortcut_combo("cmd+shift+d").as_str()) {
        split_focused(state, false);
        return (Ok(combo_json(combo)), none);
    }
    if str_eq(cn, normalize_shortcut_combo("ctrl+d").as_str()) {
        match state.focused_handles() {
            Some((w, _, _, sid)) => { let _ = state.apply_surface_key_input(w, sid, "ctrl-d"); },
            None => {},
        }
        return (Ok(combo_json(combo)), none);
    }
    if str_eq(cn, normalize_shortcut_combo("enter").as_str()) {
        proof { reveal_strlit("\n"); }
        return type_into_focus(state, combo, "\n", home);
    }
    if cn.unicode_len() == 1 && !str_contains(cn, "+") {
        return type_into_focus(state, combo, cn, home);
    }
    (Ok(combo_json(combo)), none)
}

pub fn shortcut_simulate(state: &mut ControlState, params: &Vec<(String, Json)>, home: Option<&str>) -> (r: (Result<Json, CommandError>, Vec<ShellRun>))
    requires
        has_id_room(old(state)@),
    ensures
        (final(state)@, res_view(r.0), runs_view(r.1@)) == cmd_shortcut_simulate(old(state)@, members_view(params@), str_opt(home)),
{
    let none: Vec<ShellRun> = Vec::new();
    proof { assert(runs_view(none@) =~= Seq::<ShellRunV>::empty()); }
    let combo = match string_param_or(params, "combo", "action") {
        Err(e) => return (Err(e), none),
        Ok(None) => return (Err(CommandError::invalid_params("combo/action is required")), none),
        Ok(Some(c)) => c,
    };
    let cn = normalize_shortcut_combo(combo.as_str());
    if handle_palette_shortcut(state, cn.as_str()) {
        return (Ok(combo_json(combo.as_str())), none);
    }
    simulate_key(state, combo.as_str(), cn.as_str(), home)
}

} // verus!

verus! {

pub open spec fn palette_method(method: Seq<char>) -> bool {
    starts_with(method, "debug.command_palette."@) || starts_with(method, "debug.shortcut."@)
}

/// The palette and shortcut requests.
pub open spec fn palette_dispatch(m: ControlV, method: Seq<char>, params: JsonV, home: Option<Seq<char>>) -> RunOutcome {
    match params_members(params) {
        Err(e) => (m, Err(e), Seq::empty()),
        Ok(ms) => {
            let o = if method == "debug.command_palette.toggle"@ {
                cmd_palette_toggle(m, ms)
            } else if method == "debug.command_palette.visible"@ {
                cmd_palette_visible(m, ms)
            } else if method == "debug.command_palette.selection"@ {
                cmd_palette_selection(m, ms)
            } else if method == "debug.command_palette.results"@ {
                cmd_palette_results(m, ms)
            } else if method == "debug.command_palette.rename_tab.open"@ {
                cmd_palette_rename_tab(m, ms)
            } else if method == "debug.command_palette.rename_input.selection"@ {
                cmd_palette_rename_selection(m, ms)
            } else if method == "debug.command_palette.rename_input.select_all"@ {
                cmd_palette_select_all(m, ms)
            } else if method == "debug.command_palette.rename_input.delete_backward"@ {
                cmd_palette_delete_backward(m, ms)
            } else if method == "debug.command_palette.rename_input.interact"@ {
                cmd_palette_interact(m, ms)
            } else if method == "debug.shortcut.set"@ {
                cmd_shortcut_set(m, ms)
            } else {
                fail(m, unknown_method_err(method))
            };
            if method == "debug.shortcut.simulate"@ { cmd_shortcut_simulate(m, ms, home) } else { (o.0, o.1, Seq::empty()) }
        },
    }
}

/// Whether a method is one of the palette and shortcut requests.
pub fn is_palette_method(method: &str) -> (r: bool)
    ensures
        r == palette_method(method@),
{
    str_starts_with(method, "debug.command_palette.") || str_starts_with(method, "debug.shortcut.")
}

/// Carries out a palette or shortcut request; see `palette_dispatch`.
pub fn handle_palette_command(state: &mut ControlState, method: &str, params: &Json, home: Option<&str>) -> (r: (Result<Json, CommandError>, Vec<ShellRun>))
    requires
        has_id_room(old(state)@),
    ensures
        (final(state)@, res_view(r.0), runs_view(r.1@)) == palette_dispatch(old(state)@, method@, json_view(*params), str_opt(home)),
{
    let none: Vec<ShellRun> = Vec::new();
    proof { assert(runs_view(none@) =~= Seq::<ShellRunV>::empty()); }
    let ms = match params_object(params) { Err(e) => return (Err(e), none), Ok(ms) => ms };
    proof { assert(json_view(*params)->Object_0 =~= members_view(ms@)); }
    if str_eq(method, "debug.shortcut.simulate") {
        return shortcut_simulate(state, ms, home);
    }
    let r = if str_eq(method, "debug.command_palette.toggle") {
        palette_toggle(state, ms)
    } else if str_eq(method, "debug.command_palette.visible") {
        palette_visible(state, ms)
    } else if str_eq(method, "debug.command_palette.selection") {
        palette_selection(state, ms)
    } else if str_eq(method, "debug.command_palette.results") {
        palette_results(state, ms)
    } else if str_eq(method, "debug.command_palette.rename_tab.open") {
        palette_rename_tab(state, ms)
    } else if str_eq(method, "debug.command_palette.rename_input.selection") {
        palette_rename_selection(state, ms)
    } else if str_eq(method, "debug.command_palette.rename_input.select_all") {
        palette_select_all(state, ms)
    } else if str_eq(method, "debug.command_palette.rename_input.delete_backward") {
        palette_delete_backward(state, ms)
    } else if str_eq(method, "debug.command_palette.rename_input.interact") {
        palette_interact(state, ms)
    } else if str_eq(method, "debug.shortcut.set") {
        shortcut_set(state, ms)
    } else {
        Err(CommandError::unknown_method(method))
    };
    (r, none)
}

/// The focused window, when its palette is shown; see `typing_window`.
pub fn typing_window_id(state: &ControlState) -> (r: Option<u64>)
    ensures
        r == typing_window(state@),
{
    match active_window_id(state) {
        Some(w) => if state.palette(w).visible { Some(w) } else { None },
        None => None,
    }
}

/// Types into a window's palette; see `typed`.
pub fn type_into_palette(state: &mut ControlState, wid: u64, t: &str)
    ensures
        final(state)@ == with_palette(old(state)@, wid, typed(palette_of(old(state)@, wid), t@)),
{
    let mut p = state.palette(wid);
    p.type_text(t);
    state.set_palette(wid, p);
}

} // verus!
