//! The control-plane state and its operations.
use std::collections::HashMap;
use vstd::prelude::*;
use super::model::{
    KeyOutcome, ShellRunV, TerminalActionV, app_active, apply_edit, break_pane, browser_type, clear_notification, close_surface, close_window, close_workspace, create_notification, create_pane, create_surface, create_surface_in_pane, create_window, create_workspace, cur_pane, cur_surf, cur_win, cur_ws, current_surface, current_surface_of_workspace, current_window, current_workspace_info, dir_down, dir_left, dir_right, dir_up, drag_surface_to_split, emit_osc, expand_home, feed, find_in_focused_window, find_in_workspace, flash_all, flat_surf_infos, focus_last_pane, focus_neighbor_pane, focus_pane, focus_pane_at, focus_surface, focus_window, focus_window_in, focused_handles, focused_pane, focused_surface, focused_window, fresh_pane, fresh_surface, fresh_window, fresh_workspace, has_id_room, id_is_not, increment_flash, initial_state, is_unread, join_panes, key_marker, lemma_feed_len, lemma_mark_read_ws_shape, lemma_run_actions_ids, list_panes, list_surfaces, list_surfaces_for_pane, list_windows, loc_pane, loc_surf, loc_win, loc_ws, main_name, mark_all_read, mark_browser_panel, mark_read_for_surface, mark_read_for_workspace, mark_read_if, move_surface, move_workspace_to_window, newline, not_in_ws, notification_message, opt_or, or_default_name, osc_payload, pane_exists, pane_for_surface, pane_has, pane_in_focused_window, pane_info, pane_infos, pane_is, pane_without, parse_line, press_key, register_split, relative_index, rename_workspace, reorder_surface, reorder_workspace, reset_flashes, resize_pane, right_neighbor, run_actions, sat_add_i64, sat_inc, sat_sub_i64, select_last_workspace, select_workspace, select_workspace_relative, send_key, send_text, set_surface, set_window, set_workspace_cwd, sidebar_visible, space, split_surface, split_surface_from_pane, surf_info, surf_infos, surf_is, surface_prefix, swap_panes, switch_to, terminal_type, text_between, toggle_sidebar, type_text, unflashed_pane, unflashed_surface, unflashed_window, unflashed_workspace, unread_for_surface, unread_in_ws, unread_surfaces, update_surface, update_surface_in, win_has, win_info, win_infos, win_is, window_prefix, workspace_contains_surface, workspace_cwd, workspace_of_surface, workspace_prefix, ws_has, ws_holds_window, ws_info, ws_infos, ws_is, ws_matches,
};
use crate::seqs::{
    first_index, lemma_first_index, lemma_first_index_none, lemma_first_index_take,
    lemma_first_index_unique,
};
use crate::text::{
    push_decimal, decimal, str_eq, ascii_lower, to_ascii_lowercase, trim_str, trim, str_split_once,
    split_once, str_starts_with, starts_with, strip_prefix, str_contains, contains, str_parse_u64,
    parse_u64, push_char,
};
use vstd::seq_lib::group_seq_properties;
use vstd::string::StringExecFns;
use super::browser::{BrowserState, pairs_view};
use super::palette::{PaletteState, PaletteV, palettes_view, default_palette, pair_del, pair_remove};
use super::palette_rows::{
    PaletteRow, rows_view, opt_seq, surface_switch_row, surface_switch_rows, pane_switch_rows, window_switch_rows,
    workspace_switch_row, workspace_switch_rows, all_switch_rows, switcher_rows, surface_switch_row_for,
    workspace_switch_row_for, sorted_rows,
};
use super::{
    ControlV, SurfaceEdit, SurfaceEditV, TerminalAction, ShellRun, actions_view, runs_view, NotificationInfo, NotificationV, PaneInfo, PaneV, SurfaceInfo, SurfaceInfoV, SurfaceV,
    TerminalMode, WindowInfo, WindowInfoV, WindowV, WorkspaceInfo, WorkspaceInfoV, WorkspaceV,
    opt_str_view, notes_view, ws_info_views, win_info_views, surf_info_views, ws_info_opt, win_info_opt, surf_info_opt, str_opt,
};

verus! {

broadcast use vstd::std_specs::hash::group_hash_axioms;

pub(crate) struct SurfaceState {
    pub(crate) id: u64,
    pub(crate) title: String,
    pub(crate) text: String,
    pub(crate) shell_input: String,
    pub(crate) terminal_mode: TerminalMode,
    pub(crate) panel_type: String,
    pub(crate) developer_tools_visible: bool,
    pub(crate) pinned: bool,
    pub(crate) unread: bool,
    pub(crate) flash_count: u64,
    pub(crate) refresh_count: u64,
}

pub(crate) struct PaneState {
    pub(crate) id: u64,
    pub(crate) surfaces: Vec<SurfaceState>,
    pub(crate) current_surface_id: Option<u64>,
    pub(crate) last_surface_id: Option<u64>,
}

pub(crate) struct WindowState {
    pub(crate) id: u64,
    pub(crate) title: String,
    pub(crate) panes: Vec<PaneState>,
    pub(crate) current_pane_id: Option<u64>,
    pub(crate) last_pane_id: Option<u64>,
}

pub(crate) struct WorkspaceState {
    pub(crate) id: u64,
    pub(crate) name: String,
    pub(crate) cwd: Option<String>,
    pub(crate) host_window_id: u64,
    pub(crate) windows: Vec<WindowState>,
    pub(crate) current_window_id: Option<u64>,
    pub(crate) last_window_id: Option<u64>,
}

/// The whole control-plane state.
pub struct ControlState {
    pub(crate) workspaces: Vec<WorkspaceState>,
    pub(crate) current_workspace_id: u64,
    pub(crate) last_workspace_id: Option<u64>,
    pub(crate) next_workspace_id: u64,
    pub(crate) next_window_id: u64,
    pub(crate) next_pane_id: u64,
    pub(crate) next_surface_id: u64,
    pub(crate) next_notification_id: u64,
    pub(crate) notifications: Vec<NotificationInfo>,
    pub(crate) app_focus_override: bool,
    pub(crate) app_simulate_active: bool,
    pub(crate) debug_sidebar_visible: bool,
    pub(crate) debug_flash_count: u64,
    pub(crate) sidebar_visibility_by_window: HashMap<u64, bool>,
    pub(crate) pane_right_neighbors: HashMap<u64, u64>,
    pub(crate) pane_down_neighbors: HashMap<u64, u64>,
    pub(crate) pane_size_overrides: HashMap<u64, (i64, i64)>,
    pub(crate) kitty_notification_chunks: HashMap<u64, (Option<String>, Option<String>)>,
    pub(crate) browser: BrowserState,
    pub(crate) command_palettes: HashMap<u64, PaletteState>,
    pub(crate) shortcuts: Vec<(String, String)>,
    pub(crate) rename_input_select_all: bool,
    pub(crate) panel_snapshot_baselines: HashMap<u64, String>,
    pub(crate) next_snapshot_id: u64,
}

pub(crate) closed spec fn surfaces_view(v: Seq<SurfaceState>) -> Seq<SurfaceV> {
    v.map_values(|s: SurfaceState| s@)
}

pub(crate) closed spec fn panes_view(v: Seq<PaneState>) -> Seq<PaneV> {
    v.map_values(|p: PaneState| p@)
}

pub(crate) closed spec fn windows_view(v: Seq<WindowState>) -> Seq<WindowV> {
    v.map_values(|w: WindowState| w@)
}

pub(crate) closed spec fn workspaces_view(v: Seq<WorkspaceState>) -> Seq<WorkspaceV> {
    v.map_values(|w: WorkspaceState| w@)
}

impl View for SurfaceState {
    type V = SurfaceV;

    closed spec fn view(&self) -> SurfaceV {
        SurfaceV {
            id: self.id,
            title: self.title@,
            text: self.text@,
            shell_input: self.shell_input@,
            terminal_mode: self.terminal_mode,
            panel_type: self.panel_type@,
            developer_tools_visible: self.developer_tools_visible,
            pinned: self.pinned,
            unread: self.unread,
            flash_count: self.flash_count,
            refresh_count: self.refresh_count,
        }
    }
}

impl View for PaneState {
    type V = PaneV;

    closed spec fn view(&self) -> PaneV {
        PaneV {
            id: self.id,
            surfaces: surfaces_view(self.surfaces@),
            current_surface_id: self.current_surface_id,
            last_surface_id: self.last_surface_id,
        }
    }
}

impl View for WindowState {
    type V = WindowV;

    closed spec fn view(&self) -> WindowV {
        WindowV {
            id: self.id,
            title: self.title@,
            panes: panes_view(self.panes@),
            current_pane_id: self.current_pane_id,
            last_pane_id: self.last_pane_id,
        }
    }
}

impl View for WorkspaceState {
    type V = WorkspaceV;

    closed spec fn view(&self) -> WorkspaceV {
        WorkspaceV {
            id: self.id,
            name: self.name@,
            cwd: opt_str_view(self.cwd),
            host_window_id: self.host_window_id,
            windows: windows_view(self.windows@),
            current_window_id: self.current_window_id,
            last_window_id: self.last_window_id,
        }
    }
}

pub closed spec fn kitty_view(m: Map<u64, (Option<String>, Option<String>)>) -> Map<
    u64,
    (Option<Seq<char>>, Option<Seq<char>>),
> {
    m.map_values(|v: (Option<String>, Option<String>)| (opt_str_view(v.0), opt_str_view(v.1)))
}

pub closed spec fn baselines_view(m: Map<u64, String>) -> Map<u64, Seq<char>> {
    m.map_values(|s: String| s@)
}

impl View for ControlState {
    type V = ControlV;

    closed spec fn view(&self) -> ControlV {
        ControlV {
            workspaces: workspaces_view(self.workspaces@),
            current_workspace_id: self.current_workspace_id,
            last_workspace_id: self.last_workspace_id,
            next_workspace_id: self.next_workspace_id,
            next_window_id: self.next_window_id,
            next_pane_id: self.next_pane_id,
            next_surface_id: self.next_surface_id,
            next_notification_id: self.next_notification_id,
            notifications: notes_view(self.notifications@),
            app_focus_override: self.app_focus_override,
            app_simulate_active: self.app_simulate_active,
            debug_sidebar_visible: self.debug_sidebar_visible,
            debug_flash_count: self.debug_flash_count,
            sidebar_visibility: self.sidebar_visibility_by_window@,
            right_neighbors: self.pane_right_neighbors@,
            down_neighbors: self.pane_down_neighbors@,
            size_overrides: self.pane_size_overrides@,
            kitty_chunks: kitty_view(self.kitty_notification_chunks@),
            browser: self.browser@,
            palettes: palettes_view(self.command_palettes@),
            shortcuts: pairs_view(self.shortcuts@),
            rename_select_all: self.rename_input_select_all,
            panel_baselines: baselines_view(self.panel_snapshot_baselines@),
            next_snapshot_id: self.next_snapshot_id,
        }
    }
}


// ---------------------------------------------------------------------------
// Searches
// ---------------------------------------------------------------------------

/// Position of the first surface of the pane with this id.
fn surface_index(p: &PaneState, sid: u64) -> (r: Option<usize>)
    ensures
        match r {
            Some(l) => l < p.surfaces.len() && l == first_index(p@.surfaces, surf_is(sid)),
            None => first_index(p@.surfaces, surf_is(sid)) == -1,
        },
{
    let mut l: usize = 0;
    while l < p.surfaces.len()
        invariant
            l <= p.surfaces.len(),
            forall|j: int| 0 <= j < l ==> !surf_is(sid)(#[trigger] p@.surfaces[j]),
        decreases p.surfaces.len() - l,
    {
        if p.surfaces[l].id == sid {
            proof { lemma_first_index_unique(p@.surfaces, surf_is(sid), l as int); }
            return Some(l);
        }
        l = l + 1;
    }
    proof { lemma_first_index_none(p@.surfaces, surf_is(sid)); }
    None
}

proof fn lemma_pane_has(p: PaneState, sid: u64)
    ensures
        pane_has(sid)(p@) <==> first_index(p@.surfaces, surf_is(sid)) != -1,
{
    lemma_first_index(p@.surfaces, surf_is(sid));
    if pane_has(sid)(p@) {
        let l = choose|l: int| 0 <= l < p@.surfaces.len() && p@.surfaces[l].id == sid;
        assert(surf_is(sid)(p@.surfaces[l]));
    }
    if first_index(p@.surfaces, surf_is(sid)) != -1 {
        let l = first_index(p@.surfaces, surf_is(sid));
        assert(p@.surfaces[l].id == sid);
    }
}

/// Position of the first pane holding a surface with this id.
fn pane_index_having(panes: &Vec<PaneState>, sid: u64) -> (r: Option<usize>)
    ensures
        match r {
            Some(k) => k < panes.len() && k == first_index(panes_view(panes@), pane_has(sid)),
            None => first_index(panes_view(panes@), pane_has(sid)) == -1,
        },
{
    let ghost v = panes_view(panes@);
    let mut k: usize = 0;
    while k < panes.len()
        invariant
            k <= panes.len(),
            v == panes_view(panes@),
            forall|j: int| 0 <= j < k ==> !pane_has(sid)(#[trigger] v[j]),
        decreases panes.len() - k,
    {
        proof { lemma_pane_has(panes@[k as int], sid); }
        if surface_index(&panes[k], sid).is_some() {
            proof { lemma_first_index_unique(v, pane_has(sid), k as int); }
            return Some(k);
        }
        k = k + 1;
    }
    proof { lemma_first_index_none(v, pane_has(sid)); }
    None
}

proof fn lemma_win_has(w: WindowState, sid: u64)
    ensures
        win_has(sid)(w@) <==> first_index(w@.panes, pane_has(sid)) != -1,
{
    lemma_first_index(w@.panes, pane_has(sid));
    if win_has(sid)(w@) {
        let k = choose|k: int| 0 <= k < w@.panes.len() && pane_has(sid)(w@.panes[k]);
        assert(pane_has(sid)(w@.panes[k]));
    }
}

/// Position of the first window holding a surface with this id.
fn window_index_having(windows: &Vec<WindowState>, sid: u64) -> (r: Option<usize>)
    ensures
        match r {
            Some(j) => j < windows.len() && j == first_index(windows_view(windows@), win_has(sid)),
            None => first_index(windows_view(windows@), win_has(sid)) == -1,
        },
{
    let ghost v = windows_view(windows@);
    let mut j: usize = 0;
    while j < windows.len()
        invariant
            j <= windows.len(),
            v == windows_view(windows@),
            forall|x: int| 0 <= x < j ==> !win_has(sid)(#[trigger] v[x]),
        decreases windows.len() - j,
    {
        proof { lemma_win_has(windows@[j as int], sid); }
        if pane_index_having(&windows[j].panes, sid).is_some() {
            proof { lemma_first_index_unique(v, win_has(sid), j as int); }
            return Some(j);
        }
        j = j + 1;
    }
    proof { lemma_first_index_none(v, win_has(sid)); }
    None
}

proof fn lemma_ws_has(w: WorkspaceState, sid: u64)
    ensures
        ws_has(sid)(w@) <==> first_index(w@.windows, win_has(sid)) != -1,
{
    lemma_first_index(w@.windows, win_has(sid));
    if ws_has(sid)(w@) {
        let j = choose|j: int| 0 <= j < w@.windows.len() && win_has(sid)(w@.windows[j]);
        assert(win_has(sid)(w@.windows[j]));
    }
}

impl ControlState {
    /// Where the first surface with this id lives: workspace, window, pane and
    /// surface positions.
    fn locate_surface(&self, sid: u64) -> (r: Option<(usize, usize, usize, usize)>)
        ensures
            match r {
                Some((i, j, k, l)) => {
                    &&& i == loc_ws(self@, sid)
                    &&& j == loc_win(self@, i as int, sid)
                    &&& k == loc_pane(self@, i as int, j as int, sid)
                    &&& l == loc_surf(self@, i as int, j as int, k as int, sid)
                    &&& i < self.workspaces.len()
                    &&& j < self.workspaces@[i as int].windows.len()
                    &&& k < self.workspaces@[i as int].windows@[j as int].panes.len()
                    &&& l < self.workspaces@[i as int].windows@[j as int].panes@[k as int].surfaces.len()
                },
                None => loc_ws(self@, sid) == -1,
            },
    {
        let ghost v = self@.workspaces;
        let mut i: usize = 0;
        while i < self.workspaces.len()
            invariant
                i <= self.workspaces.len(),
                v == self@.workspaces,
                forall|x: int| 0 <= x < i ==> !ws_has(sid)(#[trigger] v[x]),
            decreases self.workspaces.len() - i,
        {
            proof { lemma_ws_has(self.workspaces@[i as int], sid); }
            if let Some(j) = window_index_having(&self.workspaces[i].windows, sid) {
                proof {
                    lemma_first_index_unique(v, ws_has(sid), i as int);
                    lemma_first_index(self@.workspaces[i as int].windows, win_has(sid));
                    lemma_win_has(self.workspaces@[i as int].windows@[j as int], sid);
                }
                let k = pane_index_having(&self.workspaces[i].windows[j].panes, sid).unwrap();
                proof {
                    lemma_first_index(self@.workspaces[i as int].windows[j as int].panes, pane_has(sid));
                    lemma_pane_has(self.workspaces@[i as int].windows@[j as int].panes@[k as int], sid);
                }
                let l = surface_index(&self.workspaces[i].windows[j].panes[k], sid).unwrap();
                return Some((i, j, k, l));
            }
            i = i + 1;
        }
        proof { lemma_first_index_none(v, ws_has(sid)); }
        None
    }

    /// A window's palette (a closed one when it has none yet).
    pub fn palette(&self, wid: u64) -> (r: PaletteState)
        ensures
            r@ == super::palette_commands::palette_of(self@, wid),
    {
        match self.command_palettes.get(&wid) {
            Some(p) => p.copy(),
            None => PaletteState::new(),
        }
    }

    /// Stores a window's palette.
    pub fn set_palette(&mut self, wid: u64, p: PaletteState)
        ensures
            final(self)@ == super::palette_commands::with_palette(old(self)@, wid, p@),
    {
        self.command_palettes.insert(wid, p);
        proof { assert(palettes_view(self.command_palettes@) =~= palettes_view(old(self).command_palettes@).insert(wid, p@)); }
    }

    /// The shortcut remaps, by name.
    pub fn shortcuts(&self) -> (r: &Vec<(String, String)>)
        ensures
            pairs_view(r@) == self@.shortcuts,
    {
        &self.shortcuts
    }

    /// Remaps a shortcut.
    pub fn set_shortcut(&mut self, name: String, combo: String)
        ensures
            final(self)@ == (ControlV { shortcuts: super::browser::pair_put(old(self)@.shortcuts, name@, combo@), ..old(self)@ }),
    {
        super::browser::pair_set(&mut self.shortcuts, name, combo);
    }

    /// Drops a shortcut remap.
    pub fn clear_shortcut(&mut self, name: &str)
        ensures
            final(self)@ == (ControlV { shortcuts: pair_del(old(self)@.shortcuts, name@), ..old(self)@ }),
    {
        let kept = pair_remove(&self.shortcuts, name);
        self.shortcuts = kept;
    }

    /// The built-in browser.
    pub fn browser(&self) -> (r: &BrowserState)
        ensures
            r@ == self@.browser,
    {
        &self.browser
    }

    /// Takes the browser out, leaving a fresh one in its place.
    pub fn take_browser(&mut self) -> (r: BrowserState)
        ensures
            r@ == old(self)@.browser,
            final(self)@ == (ControlV { browser: super::browser::default_browser(), ..old(self)@ }),
    {
        let mut b = BrowserState::new();
        std::mem::swap(&mut b, &mut self.browser);
        b
    }

    /// Puts a browser in.
    pub fn put_browser(&mut self, b: BrowserState)
        ensures
            final(self)@ == (ControlV { browser: b@, ..old(self)@ }),
    {
        self.browser = b;
    }

    /// Makes the first surface with this id a browser panel.
    pub fn mark_browser_panel(&mut self, sid: u64)
        ensures
            final(self)@ == mark_browser_panel(old(self)@, sid),
    {
        match self.locate_surface(sid) {
            None => {},
            Some((i, j, k, l)) => {
                let t = String::from_str("browser");
                proof { reveal_strlit("browser"); assert(t@ =~= browser_type()); }
                self.workspaces[i].windows[j].panes[k].surfaces[l].panel_type = t;
                proof {
                    let m = old(self)@;
                    let s0 = m.workspaces[i as int].windows[j as int].panes[k as int].surfaces[l as int];
                    let m2 = set_surface(m, i as int, j as int, k as int, l as int, SurfaceV { panel_type: browser_type(), ..s0 });
                    assert(self@.workspaces[i as int].windows[j as int].panes[k as int].surfaces =~= m2.workspaces[i as int].windows[j as int].panes[k as int].surfaces);
                    assert(self@.workspaces[i as int].windows[j as int].panes =~= m2.workspaces[i as int].windows[j as int].panes);
                    assert(self@.workspaces[i as int].windows =~= m2.workspaces[i as int].windows);
                    assert(self@.workspaces =~= m2.workspaces);
                }
            },
        }
    }

    /// Adds one flash to the first surface with this id.
    pub fn increment_surface_flash(&mut self, sid: u64)
        ensures
            final(self)@ == increment_flash(old(self)@, sid),
    {
        match self.locate_surface(sid) {
            None => {},
            Some((i, j, k, l)) => {
                let f = self.workspaces[i].windows[j].panes[k].surfaces[l].flash_count;
                self.workspaces[i].windows[j].panes[k].surfaces[l].flash_count = f.saturating_add(1);
                self.debug_flash_count = self.debug_flash_count.saturating_add(1);
                proof {
                    let m = old(self)@;
                    let s0 = m.workspaces[i as int].windows[j as int].panes[k as int].surfaces[l as int];
                    let m2 = set_surface(m, i as int, j as int, k as int, l as int, SurfaceV { flash_count: sat_inc(s0.flash_count), ..s0 });
                    assert(self@.workspaces[i as int].windows[j as int].panes[k as int].surfaces =~= m2.workspaces[i as int].windows[j as int].panes[k as int].surfaces);
                    assert(self@.workspaces[i as int].windows[j as int].panes =~= m2.workspaces[i as int].windows[j as int].panes);
                    assert(self@.workspaces[i as int].windows =~= m2.workspaces[i as int].windows);
                    assert(self@.workspaces =~= m2.workspaces);
                }
            },
        }
    }
}


impl PaneState {
    fn reset_flashes(&mut self)
        ensures
            final(self)@ == unflashed_pane(old(self)@),
    {
        let ghost o = old(self)@;
        let mut l: usize = 0;
        while l < self.surfaces.len()
            invariant
                l <= self.surfaces.len(),
                self.surfaces.len() == o.surfaces.len(),
                self.id == o.id,
                self.current_surface_id == o.current_surface_id,
                self.last_surface_id == o.last_surface_id,
                forall|x: int| 0 <= x < l ==> (#[trigger] self.surfaces@[x])@ == unflashed_surface(o.surfaces[x]),
                forall|x: int| l <= x < self.surfaces.len() ==> (#[trigger] self.surfaces@[x])@ == o.surfaces[x],
            decreases self.surfaces.len() - l,
        {
            self.surfaces[l].flash_count = 0;
            l = l + 1;
        }
        proof { assert(self@.surfaces =~= o.surfaces.map_values(|s: SurfaceV| unflashed_surface(s))); }
    }
}

impl WindowState {
    fn reset_flashes(&mut self)
        ensures
            final(self)@ == unflashed_window(old(self)@),
    {
        let ghost o = old(self)@;
        let mut k: usize = 0;
        while k < self.panes.len()
            invariant
                k <= self.panes.len(),
                self.panes.len() == o.panes.len(),
                self.id == o.id,
                self.title@ == o.title,
                self.current_pane_id == o.current_pane_id,
                self.last_pane_id == o.last_pane_id,
                forall|x: int| 0 <= x < k ==> (#[trigger] self.panes@[x])@ == unflashed_pane(o.panes[x]),
                forall|x: int| k <= x < self.panes.len() ==> (#[trigger] self.panes@[x])@ == o.panes[x],
            decreases self.panes.len() - k,
        {
            self.panes[k].reset_flashes();
            k = k + 1;
        }
        proof { assert(self@.panes =~= o.panes.map_values(|p: PaneV| unflashed_pane(p))); }
    }
}

impl WorkspaceState {
    fn reset_flashes(&mut self)
        ensures
            final(self)@ == unflashed_workspace(old(self)@),
    {
        let ghost o = old(self)@;
        let mut j: usize = 0;
        while j < self.windows.len()
            invariant
                j <= self.windows.len(),
                self.windows.len() == o.windows.len(),
                self.id == o.id,
                self.name@ == o.name,
                opt_str_view(self.cwd) == o.cwd,
                self.host_window_id == o.host_window_id,
                self.current_window_id == o.current_window_id,
                self.last_window_id == o.last_window_id,
                forall|x: int| 0 <= x < j ==> (#[trigger] self.windows@[x])@ == unflashed_window(o.windows[x]),
                forall|x: int| j <= x < self.windows.len() ==> (#[trigger] self.windows@[x])@ == o.windows[x],
            decreases self.windows.len() - j,
        {
            self.windows[j].reset_flashes();
            j = j + 1;
        }
        proof { assert(self@.windows =~= o.windows.map_values(|x: WindowV| unflashed_window(x))); }
    }
}

impl ControlState {
    /// Every flash count back to zero; see `reset_flashes`.
    pub fn reset_flash_counts(&mut self)
        ensures
            final(self)@ == reset_flashes(old(self)@),
    {
        let ghost o = old(self)@;
        self.debug_flash_count = 0;
        let mut i: usize = 0;
        while i < self.workspaces.len()
            invariant
                i <= self.workspaces.len(),
                self.workspaces.len() == o.workspaces.len(),
                self@ == (ControlV { workspaces: workspaces_view(self.workspaces@), debug_flash_count: 0, ..o }),
                forall|x: int| 0 <= x < i ==> (#[trigger] self.workspaces@[x])@ == unflashed_workspace(o.workspaces[x]),
                forall|x: int| i <= x < self.workspaces.len() ==> (#[trigger] self.workspaces@[x])@ == o.workspaces[x],
            decreases self.workspaces.len() - i,
        {
            self.workspaces[i].reset_flashes();
            i = i + 1;
        }
        proof { assert(self@.workspaces =~= o.workspaces.map_values(|w: WorkspaceV| unflashed_workspace(w))); }
    }
}


// ---------------------------------------------------------------------------
// Summaries and fresh elements
// ---------------------------------------------------------------------------

impl WorkspaceState {
    fn info(&self) -> (r: WorkspaceInfo)
        ensures
            r@ == ws_info(self@),
    {
        WorkspaceInfo {
            id: self.id,
            name: self.name.clone(),
            host_window_id: self.host_window_id,
            window_count: self.windows.len(),
            current_window_id: self.current_window_id,
        }
    }
}

impl WindowState {
    fn info(&self) -> (r: WindowInfo)
        ensures
            r@ == win_info(self@),
    {
        WindowInfo {
            id: self.id,
            title: self.title.clone(),
            pane_count: self.panes.len(),
            current_pane_id: self.current_pane_id,
        }
    }
}

impl PaneState {
    fn info(&self) -> (r: PaneInfo)
        ensures
            r == pane_info(self@),
    {
        PaneInfo {
            id: self.id,
            surface_count: self.surfaces.len(),
            current_surface_id: self.current_surface_id,
        }
    }
}

impl SurfaceState {
    fn info(&self, pane_id: u64) -> (r: SurfaceInfo)
        ensures
            r@ == surf_info(self@, pane_id),
    {
        SurfaceInfo {
            id: self.id,
            pane_id,
            title: self.title.clone(),
            text: self.text.clone(),
            panel_type: self.panel_type.clone(),
            developer_tools_visible: self.developer_tools_visible,
            pinned: self.pinned,
            unread: self.unread,
            flash_count: self.flash_count,
            refresh_count: self.refresh_count,
        }
    }
}

/// `prefix` followed by the decimal id, or the given name.
fn name_or_default(name: Option<String>, prefix: &str, id: u64) -> (r: String)
    ensures
        r@ == or_default_name(opt_str_view(name), prefix@, id),
{
    match name {
        Some(n) => n,
        None => {
            let mut t = String::from_str(prefix);
            push_decimal(&mut t, id);
            t
        },
    }
}

fn terminal_string() -> (r: String)
    ensures
        r@ == terminal_type(),
{
    let r = String::from_str("terminal");
    proof {
        reveal_strlit("terminal");
        assert(r@ =~= terminal_type());
    }
    r
}

fn fresh_surface_state(id: u64, title: Option<String>) -> (r: SurfaceState)
    ensures
        r@ == fresh_surface(id, opt_str_view(title)),
{
    proof { reveal_strlit("surface-"); assert("surface-"@ =~= surface_prefix()); }
    SurfaceState {
        id,
        title: name_or_default(title, "surface-", id),
        text: String::new(),
        shell_input: String::new(),
        terminal_mode: TerminalMode::Idle,
        panel_type: terminal_string(),
        developer_tools_visible: false,
        pinned: false,
        unread: false,
        flash_count: 0,
        refresh_count: 0,
    }
}

impl ControlState {
    fn make_surface(&mut self, title: Option<String>) -> (r: SurfaceState)
        requires
            old(self).next_surface_id < u64::MAX,
        ensures
            r@ == fresh_surface(old(self).next_surface_id, opt_str_view(title)),
            final(self)@ == (ControlV { next_surface_id: (old(self)@.next_surface_id + 1) as u64, ..old(self)@ }),
    {
        let id = self.next_surface_id;
        self.next_surface_id = self.next_surface_id + 1;
        fresh_surface_state(id, title)
    }

    fn make_pane(&mut self, title: Option<String>) -> (r: PaneState)
        requires
            old(self).next_surface_id < u64::MAX,
            old(self).next_pane_id < u64::MAX,
        ensures
            r@ == fresh_pane(old(self).next_pane_id, old(self).next_surface_id, opt_str_view(title)),
            final(self)@ == (ControlV {
                next_pane_id: (old(self)@.next_pane_id + 1) as u64,
                next_surface_id: (old(self)@.next_surface_id + 1) as u64,
                ..old(self)@
            }),
    {
        let id = self.next_pane_id;
        self.next_pane_id = self.next_pane_id + 1;
        let surface = self.make_surface(title);
        let sid = surface.id;
        let p = PaneState { id, surfaces: vec![surface], current_surface_id: Some(sid), last_surface_id: None };
        assert(p@.surfaces =~= seq![fresh_surface(sid, opt_str_view(title))]);
        p
    }

    fn make_window(&mut self, title: Option<String>) -> (r: WindowState)
        requires
            old(self).next_surface_id < u64::MAX,
            old(self).next_pane_id < u64::MAX,
            old(self).next_window_id < u64::MAX,
        ensures
            r@ == fresh_window(old(self).next_window_id, old(self).next_pane_id, old(self).next_surface_id, opt_str_view(title)),
            final(self)@ == (ControlV {
                next_window_id: (old(self)@.next_window_id + 1) as u64,
                next_pane_id: (old(self)@.next_pane_id + 1) as u64,
                next_surface_id: (old(self)@.next_surface_id + 1) as u64,
                ..old(self)@
            }),
    {
        let id = self.next_window_id;
        self.next_window_id = self.next_window_id + 1;
        proof { reveal_strlit("window-"); assert("window-"@ =~= window_prefix()); }
        let t = name_or_default(title, "window-", id);
        let pane = self.make_pane(None);
        let pid = pane.id;
        let w = WindowState { id, title: t, panes: vec![pane], current_pane_id: Some(pid), last_pane_id: None };
        assert(w@.panes =~= seq![fresh_pane(pid, old(self).next_surface_id, None)]);
        w
    }

    fn make_workspace(&mut self, name: Option<String>) -> (r: WorkspaceState)
        requires
            has_id_room(old(self)@),
        ensures
            r@ == fresh_workspace(
                old(self).next_workspace_id,
                old(self).next_window_id,
                old(self).next_pane_id,
                old(self).next_surface_id,
                opt_str_view(name),
            ),
            final(self)@ == (ControlV {
                next_workspace_id: (old(self)@.next_workspace_id + 1) as u64,
                next_window_id: (old(self)@.next_window_id + 1) as u64,
                next_pane_id: (old(self)@.next_pane_id + 1) as u64,
                next_surface_id: (old(self)@.next_surface_id + 1) as u64,
                ..old(self)@
            }),
    {
        let id = self.next_workspace_id;
        self.next_workspace_id = self.next_workspace_id + 1;
        proof { reveal_strlit("workspace-"); assert("workspace-"@ =~= workspace_prefix()); }
        let n = name_or_default(name, "workspace-", id);
        let window = self.make_window(None);
        let wid = window.id;
        let w = WorkspaceState {
            id,
            name: n,
            cwd: None,
            host_window_id: 1,
            windows: vec![window],
            current_window_id: Some(wid),
            last_window_id: None,
        };
        assert(w@.windows =~= seq![fresh_window(wid, old(self).next_pane_id, old(self).next_surface_id, None)]);
        w
    }
}


// ---------------------------------------------------------------------------
// Lookups by id
// ---------------------------------------------------------------------------

fn workspace_position(v: &Vec<WorkspaceState>, id: u64) -> (r: Option<usize>)
    ensures
        match r {
            Some(i) => i < v.len() && i == first_index(workspaces_view(v@), ws_is(id)),
            None => first_index(workspaces_view(v@), ws_is(id)) == -1,
        },
{
    let ghost s = workspaces_view(v@);
    let mut i: usize = 0;
    while i < v.len()
        invariant
            i <= v.len(),
            s == workspaces_view(v@),
            forall|j: int| 0 <= j < i ==> !ws_is(id)(#[trigger] s[j]),
        decreases v.len() - i,
    {
        if v[i].id == id {
            proof { lemma_first_index_unique(s, ws_is(id), i as int); }
            return Some(i);
        }
        i = i + 1;
    }
    proof { lemma_first_index_none(s, ws_is(id)); }
    None
}

fn window_position(v: &Vec<WindowState>, id: u64) -> (r: Option<usize>)
    ensures
        match r {
            Some(i) => i < v.len() && i == first_index(windows_view(v@), win_is(id)),
            None => first_index(windows_view(v@), win_is(id)) == -1,
        },
{
    let ghost s = windows_view(v@);
    let mut i: usize = 0;
    while i < v.len()
        invariant
            i <= v.len(),
            s == windows_view(v@),
            forall|j: int| 0 <= j < i ==> !win_is(id)(#[trigger] s[j]),
        decreases v.len() - i,
    {
        if v[i].id == id {
            proof { lemma_first_index_unique(s, win_is(id), i as int); }
            return Some(i);
        }
        i = i + 1;
    }
    proof { lemma_first_index_none(s, win_is(id)); }
    None
}

fn pane_position(v: &Vec<PaneState>, id: u64) -> (r: Option<usize>)
    ensures
        match r {
            Some(i) => i < v.len() && i == first_index(panes_view(v@), pane_is(id)),
            None => first_index(panes_view(v@), pane_is(id)) == -1,
        },
{
    let ghost s = panes_view(v@);
    let mut i: usize = 0;
    while i < v.len()
        invariant
            i <= v.len(),
            s == panes_view(v@),
            forall|j: int| 0 <= j < i ==> !pane_is(id)(#[trigger] s[j]),
        decreases v.len() - i,
    {
        if v[i].id == id {
            proof { lemma_first_index_unique(s, pane_is(id), i as int); }
            return Some(i);
        }
        i = i + 1;
    }
    proof { lemma_first_index_none(s, pane_is(id)); }
    None
}

impl ControlState {
    fn cur_ws_idx(&self) -> (r: Option<usize>)
        ensures
            match r {
                Some(i) => i < self.workspaces.len() && i == cur_ws(self@),
                None => cur_ws(self@) == -1,
            },
    {
        workspace_position(&self.workspaces, self.current_workspace_id)
    }

    fn cur_win_idx(&self, wi: usize) -> (r: Option<usize>)
        requires
            wi < self.workspaces.len(),
        ensures
            match r {
                Some(j) => j < self.workspaces@[wi as int].windows.len() && j == cur_win(self@, wi as int),
                None => cur_win(self@, wi as int) == -1,
            },
    {
        match self.workspaces[wi].current_window_id {
            None => None,
            Some(id) => window_position(&self.workspaces[wi].windows, id),
        }
    }

    fn cur_pane_idx(&self, wi: usize, wj: usize) -> (r: Option<usize>)
        requires
            wi < self.workspaces.len(),
            wj < self.workspaces@[wi as int].windows.len(),
        ensures
            match r {
                Some(k) => k < self.workspaces@[wi as int].windows@[wj as int].panes.len()
                    && k == cur_pane(self@, wi as int, wj as int),
                None => cur_pane(self@, wi as int, wj as int) == -1,
            },
    {
        match self.workspaces[wi].windows[wj].current_pane_id {
            None => None,
            Some(id) => pane_position(&self.workspaces[wi].windows[wj].panes, id),
        }
    }

    fn cur_surf_idx(&self, wi: usize, wj: usize, pk: usize) -> (r: Option<usize>)
        requires
            wi < self.workspaces.len(),
            wj < self.workspaces@[wi as int].windows.len(),
            pk < self.workspaces@[wi as int].windows@[wj as int].panes.len(),
        ensures
            match r {
                Some(l) => l < self.workspaces@[wi as int].windows@[wj as int].panes@[pk as int].surfaces.len()
                    && l == cur_surf(self@, wi as int, wj as int, pk as int),
                None => cur_surf(self@, wi as int, wj as int, pk as int) == -1,
            },
    {
        match self.workspaces[wi].windows[wj].panes[pk].current_surface_id {
            None => None,
            Some(id) => surface_index(&self.workspaces[wi].windows[wj].panes[pk], id),
        }
    }

    /// Positions of the current workspace and its current window.
    fn focused_window_idx(&self) -> (r: Option<(usize, usize)>)
        ensures
            match r {
                Some((i, j)) => focused_window(self@) == Some((i as int, j as int))
                    && i < self.workspaces.len() && j < self.workspaces@[i as int].windows.len(),
                None => focused_window(self@) is None,
            },
    {
        let i = match self.cur_ws_idx() { Some(i) => i, None => return None };
        let j = match self.cur_win_idx(i) { Some(j) => j, None => return None };
        Some((i, j))
    }

    /// Positions of the current workspace, window and pane.
    fn focused_pane_idx(&self) -> (r: Option<(usize, usize, usize)>)
        ensures
            match r {
                Some((i, j, k)) => focused_pane(self@) == Some((i as int, j as int, k as int))
                    && i < self.workspaces.len() && j < self.workspaces@[i as int].windows.len()
                    && k < self.workspaces@[i as int].windows@[j as int].panes.len(),
                None => focused_pane(self@) is None,
            },
    {
        let (i, j) = match self.focused_window_idx() { Some(p) => p, None => return None };
        let k = match self.cur_pane_idx(i, j) { Some(k) => k, None => return None };
        Some((i, j, k))
    }

    /// Ids of the focused workspace, window, pane and surface.
    pub fn focused_handles(&self) -> (r: Option<(u64, u64, u64, u64)>)
        ensures
            r == focused_handles(self@),
    {
        let (i, j, k) = match self.focused_pane_idx() { Some(p) => p, None => return None };
        let ws = &self.workspaces[i];
        let win = &ws.windows[j];
        let p = &win.panes[k];
        match p.current_surface_id {
            None => None,
            Some(sid) => Some((ws.id, win.id, p.id, sid)),
        }
    }

    pub fn app_is_active(&self) -> (r: bool)
        ensures
            r == app_active(self@),
    {
        self.app_focus_override || self.app_simulate_active
    }

    /// The current surface id of a workspace, through its current window and pane.
    pub fn current_surface_id_for_workspace(&self, wsid: u64) -> (r: Option<u64>)
        ensures
            r == current_surface_of_workspace(self@, wsid),
    {
        let i = match workspace_position(&self.workspaces, wsid) { Some(i) => i, None => return None };
        let ws = &self.workspaces[i];
        let win_id = match ws.current_window_id { Some(x) => x, None => return None };
        let j = match window_position(&ws.windows, win_id) { Some(j) => j, None => return None };
        let win = &ws.windows[j];
        let pid = match win.current_pane_id { Some(x) => x, None => return None };
        let k = match pane_position(&win.panes, pid) { Some(k) => k, None => return None };
        win.panes[k].current_surface_id
    }
}


// ---------------------------------------------------------------------------
// Notifications marked read
// ---------------------------------------------------------------------------

fn opt_is(o: Option<u64>, x: u64) -> (r: bool)
    ensures
        r == (o == Some(x)),
{
    match o {
        Some(v) => v == x,
        None => false,
    }
}

impl ControlState {
    /// Marks this workspace's unread notifications read; see `mark_read_for_workspace`.
    pub fn mark_notifications_read_for_workspace(&mut self, wsid: u64) -> (r: bool)
        ensures
            (final(self)@, r) == mark_read_for_workspace(old(self)@, wsid),
    {
        let fallback = self.current_surface_id_for_workspace(wsid);
        let ghost ns = old(self)@.notifications;
        let ghost p = unread_in_ws(wsid);
        let ghost q = |n: NotificationV| unread_in_ws(wsid)(n) && (n.surface_id is Some || fallback is Some);
        let mut updated = false;
        let mut flashed: Option<u64> = None;
        let mut i: usize = 0;
        while i < self.notifications.len()
            invariant
                i <= self.notifications.len(),
                ns.len() == self.notifications.len(),
                self@ == (ControlV { notifications: self@.notifications, ..old(self)@ }),
                forall|j: int| 0 <= j < i ==> #[trigger] self@.notifications[j] == mark_read_if(p)(ns[j]),
                forall|j: int| i <= j < ns.len() ==> #[trigger] self@.notifications[j] == ns[j],
                updated == (first_index(ns.take(i as int), p) >= 0),
                flashed == ({
                    let fi = first_index(ns.take(i as int), q);
                    if fi < 0 { None } else { opt_or(ns[fi].surface_id, fallback) }
                }),
                fallback == current_surface_of_workspace(old(self)@, wsid),
                p == unread_in_ws(wsid),
                q == (|n: NotificationV| unread_in_ws(wsid)(n) && (n.surface_id is Some || fallback is Some)),
            decreases self.notifications.len() - i,
        {
            proof {
                lemma_first_index_take(ns, p, i as int);
                lemma_first_index_take(ns, q, i as int);
                lemma_first_index(ns.take(i as int), q);
            }
            let ghost before = self@.notifications;
            assert(before[i as int] == ns[i as int]);
            if self.notifications[i].unread && opt_is(self.notifications[i].workspace_id, wsid) {
                self.notifications[i].unread = false;
                updated = true;
                if flashed.is_none() {
                    flashed = match self.notifications[i].surface_id {
                        Some(x) => Some(x),
                        None => fallback,
                    };
                }
            }
            proof {
                assert(self@.notifications =~= before.update(i as int, mark_read_if(p)(ns[i as int])));
            }
            i = i + 1;
        }
        proof {
            assert(ns.take(ns.len() as int) =~= ns);
            assert(self@.notifications =~= ns.map_values(mark_read_if(p)));
        }
        if let Some(sid) = flashed {
            self.increment_surface_flash(sid);
        }
        updated
    }

    /// Marks this surface's unread notifications read; see `mark_read_for_surface`.
    pub fn mark_notifications_read_for_surface(&mut self, sid: u64) -> (r: bool)
        ensures
            (final(self)@, r) == mark_read_for_surface(old(self)@, sid),
    {
        let ghost ns = old(self)@.notifications;
        let ghost p = unread_for_surface(sid);
        let mut updated = false;
        let mut i: usize = 0;
        while i < self.notifications.len()
            invariant
                i <= self.notifications.len(),
                ns.len() == self.notifications.len(),
                self@ == (ControlV { notifications: self@.notifications, ..old(self)@ }),
                forall|j: int| 0 <= j < i ==> #[trigger] self@.notifications[j] == mark_read_if(p)(ns[j]),
                forall|j: int| i <= j < ns.len() ==> #[trigger] self@.notifications[j] == ns[j],
                updated == (first_index(ns.take(i as int), p) >= 0),
                p == unread_for_surface(sid),
            decreases self.notifications.len() - i,
        {
            proof { lemma_first_index_take(ns, p, i as int); }
            let ghost before = self@.notifications;
            assert(before[i as int] == ns[i as int]);
            if self.notifications[i].unread && opt_is(self.notifications[i].surface_id, sid) {
                self.notifications[i].unread = false;
                updated = true;
            }
            proof {
                assert(self@.notifications =~= before.update(i as int, mark_read_if(p)(ns[i as int])));
            }
            i = i + 1;
        }
        proof {
            assert(ns.take(ns.len() as int) =~= ns);
            assert(self@.notifications =~= ns.map_values(mark_read_if(p)));
        }
        if updated {
            self.increment_surface_flash(sid);
        }
        updated
    }

    /// Marks every notification read; see `mark_all_read`.
    pub fn mark_all_notifications_read(&mut self) -> (r: bool)
        ensures
            (final(self)@, r) == mark_all_read(old(self)@),
    {
        let ghost ns = old(self)@.notifications;
        let mut touched = false;
        let mut flashed: Vec<u64> = Vec::new();
        let mut i: usize = 0;
        while i < self.notifications.len()
            invariant
                i <= self.notifications.len(),
                ns.len() == self.notifications.len(),
                self@ == (ControlV { notifications: self@.notifications, ..old(self)@ }),
                forall|j: int| 0 <= j < i ==> #[trigger] self@.notifications[j] == mark_read_if(is_unread())(ns[j]),
                forall|j: int| i <= j < ns.len() ==> #[trigger] self@.notifications[j] == ns[j],
                touched == (first_index(ns.take(i as int), is_unread()) >= 0),
                flashed@ == unread_surfaces(ns.take(i as int)),
            decreases self.notifications.len() - i,
        {
            proof {
                lemma_first_index_take(ns, is_unread(), i as int);
                assert(ns.take(i + 1).drop_last() =~= ns.take(i as int));
            }
            let ghost before = self@.notifications;
            assert(before[i as int] == ns[i as int]);
            if self.notifications[i].unread {
                self.notifications[i].unread = false;
                touched = true;
                if let Some(sid) = self.notifications[i].surface_id {
                    if !vec_contains(&flashed, sid) {
                        flashed.push(sid);
                    }
                }
            }
            proof {
                assert(self@.notifications =~= before.update(i as int, mark_read_if(is_unread())(ns[i as int])));
            }
            i = i + 1;
        }
        proof {
            assert(ns.take(ns.len() as int) =~= ns);
            assert(self@.notifications =~= ns.map_values(mark_read_if(is_unread())));
        }
        let ghost m1 = self@;
        let mut k: usize = 0;
        while k < flashed.len()
            invariant
                k <= flashed.len(),
                self@ == flash_all(m1, flashed@.take(k as int)),
            decreases flashed.len() - k,
        {
            proof { assert(flashed@.take(k + 1).drop_last() =~= flashed@.take(k as int)); }
            self.increment_surface_flash(flashed[k]);
            k = k + 1;
        }
        proof { assert(flashed@.take(flashed.len() as int) =~= flashed@); }
        touched
    }
}

fn vec_contains(v: &Vec<u64>, x: u64) -> (r: bool)
    ensures
        r == v@.contains(x),
{
    let mut i: usize = 0;
    while i < v.len()
        invariant
            i <= v.len(),
            forall|j: int| 0 <= j < i ==> v@[j] != x,
        decreases v.len() - i,
    {
        if v[i] == x {
            assert(v@[i as int] == x);
            return true;
        }
        i = i + 1;
    }
    false
}


// ---------------------------------------------------------------------------
// Workspaces
// ---------------------------------------------------------------------------

impl ControlState {
    fn switch_to_index(&mut self, idx: usize)
        requires
            idx < old(self).workspaces.len(),
        ensures
            final(self)@ == switch_to(old(self)@, idx as int),
            final(self).workspaces.len() == old(self).workspaces.len(),
    {
        let target = self.workspaces[idx].id;
        if self.current_workspace_id != target {
            self.last_workspace_id = Some(self.current_workspace_id);
            self.current_workspace_id = target;
        }
        if self.app_is_active() {
            proof { lemma_mark_read_ws_shape(self@, target); }
            let _ = self.mark_notifications_read_for_workspace(target);
        }
    }
}


impl ControlState {
    /// Selects the first workspace whose id or name matches; see `select_workspace`.
    pub fn select_workspace(&mut self, id: Option<u64>, name: Option<&str>) -> (r: Option<WorkspaceInfo>)
        ensures
            (final(self)@, ws_info_opt(r)) == select_workspace(old(self)@, id, str_opt(name)),
    {
        let ghost s = self@.workspaces;
        let ghost p = ws_matches(id, str_opt(name));
        let mut i: usize = 0;
        while i < self.workspaces.len()
            invariant
                i <= self.workspaces.len(),
                s == self@.workspaces,
                self@ == old(self)@,
                p == ws_matches(id, str_opt(name)),
                forall|j: int| 0 <= j < i ==> !p(#[trigger] s[j]),
            decreases self.workspaces.len() - i,
        {
            let by_id = match id { Some(x) => self.workspaces[i].id == x, None => false };
            let by_name = match name { Some(n) => str_eq(self.workspaces[i].name.as_str(), n), None => false };
            if by_id || by_name {
                proof { lemma_first_index_unique(s, p, i as int); }
                self.switch_to_index(i);
                return Some(self.workspaces[i].info());
            }
            i = i + 1;
        }
        proof { lemma_first_index_none(s, p); }
        None
    }
}


impl ControlState {
    /// Selects the workspace `delta` places away from the current one, wrapping.
    #[verifier::spinoff_prover]
    pub fn select_workspace_relative(&mut self, delta: isize) -> (r: Option<WorkspaceInfo>)
        ensures
            (final(self)@, ws_info_opt(r)) == select_workspace_relative(old(self)@, delta as int),
    {
        if self.workspaces.len() == 0 {
            return None;
        }
        let cur = match self.cur_ws_idx() { Some(c) => c, None => return None };
        let len = self.workspaces.len();
        let sum: i128 = cur as i128 + delta as i128;
        let l128 = len as i128;
        let t: i128 = if sum >= 0 {
            let r = sum % l128;
            proof {
                let q = sum as int / l128 as int;
                vstd::arithmetic::div_mod::lemma_fundamental_div_mod(sum as int, l128 as int);
                assert(r as int == sum as int % l128 as int);
                assert(0 <= r < l128);
                assert(sum as int == q * (l128 as int) + r as int) by (nonlinear_arith)
                    requires sum as int == (l128 as int) * q + (r as int);
                vstd::arithmetic::div_mod::lemma_fundamental_div_mod_converse(sum as int, l128 as int, q, r as int);
            }
            r
        } else {
            let neg = -sum - 1;
            let r = neg % l128;
            proof {
                let q = neg as int / l128 as int;
                vstd::arithmetic::div_mod::lemma_fundamental_div_mod(neg as int, l128 as int);
                assert(neg as int == q * l128 as int + r as int);
                assert(sum as int == (-q - 1) * (l128 as int) + (l128 - 1 - r) as int) by (nonlinear_arith)
                    requires neg as int == q * l128 as int + r as int, neg == -sum - 1;
                vstd::arithmetic::div_mod::lemma_fundamental_div_mod_converse(sum as int, l128 as int, -q - 1, (l128 - 1 - r) as int);
            }
            l128 - 1 - r
        };
        assert(t as int == relative_index(cur as int, delta as int, len as int));
        let idx = t as usize;
        self.switch_to_index(idx);
        Some(self.workspaces[idx].info())
    }
}


fn copy_notification(n: &NotificationInfo) -> (r: NotificationInfo)
    ensures
        r@ == n@,
{
    NotificationInfo {
        id: n.id,
        message: n.message.clone(),
        title: n.title.clone(),
        subtitle: n.subtitle.clone(),
        body: n.body.clone(),
        surface_id: n.surface_id,
        workspace_id: n.workspace_id,
        unread: n.unread,
    }
}

impl ControlState {
    /// A control plane with one workspace named "main"; see `initial_state`.
    pub fn new() -> (r: ControlState)
        ensures
            r@ == initial_state(),
    {
        let mut state = ControlState {
            workspaces: Vec::new(),
            current_workspace_id: 0,
            last_workspace_id: None,
            next_workspace_id: 1,
            next_window_id: 1,
            next_pane_id: 1,
            next_surface_id: 1,
            next_notification_id: 1,
            notifications: Vec::new(),
            app_focus_override: false,
            app_simulate_active: false,
            debug_sidebar_visible: true,
            debug_flash_count: 0,
            sidebar_visibility_by_window: HashMap::new(),
            pane_right_neighbors: HashMap::new(),
            pane_down_neighbors: HashMap::new(),
            pane_size_overrides: HashMap::new(),
            kitty_notification_chunks: HashMap::new(),
            browser: BrowserState::new(),
            command_palettes: HashMap::new(),
            shortcuts: Vec::new(),
            rename_input_select_all: true,
            panel_snapshot_baselines: HashMap::new(),
            next_snapshot_id: 1,
        };
        let main = String::from_str("main");
        proof { reveal_strlit("main"); assert(main@ =~= main_name()); }
        let workspace = state.make_workspace(Some(main));
        assert(workspace.windows@.len() == windows_view(workspace.windows@).len());
        state.current_workspace_id = workspace.id;
        let wid = workspace.windows[0].id;
        assert(windows_view(workspace.windows@)[0].id == wid);
        state.sidebar_visibility_by_window.insert(wid, state.debug_sidebar_visible);
        assert(workspaces_view(state.workspaces@).len() == state.workspaces@.len());
        assert(state.workspaces@ =~= Seq::<WorkspaceState>::empty());
        state.workspaces.push(workspace);
        proof {
            assert(state.workspaces@ =~= seq![workspace]);
            assert(workspaces_view(state.workspaces@) =~= seq![workspace@]);
            assert(state@.workspaces =~= initial_state().workspaces);
            assert(state@.sidebar_visibility =~= initial_state().sidebar_visibility);
            assert(state@.right_neighbors =~= initial_state().right_neighbors);
            assert(state@.size_overrides =~= initial_state().size_overrides);
            assert(kitty_view(state.kitty_notification_chunks@) =~= Map::empty());
            assert(state@.notifications =~= Seq::empty());
            assert(palettes_view(state.command_palettes@) =~= Map::empty());
            assert(pairs_view(state.shortcuts@) =~= Seq::empty());
            assert(baselines_view(state.panel_snapshot_baselines@) =~= Map::empty());
        }
        state
    }

    /// Summaries of all workspaces, in order.
    pub fn list_workspaces(&self) -> (r: Vec<WorkspaceInfo>)
        ensures
            ws_info_views(r@) == ws_infos(self@.workspaces),
    {
        let mut out: Vec<WorkspaceInfo> = Vec::new();
        let mut i: usize = 0;
        while i < self.workspaces.len()
            invariant
                i <= self.workspaces.len(),
                ws_info_views(out@) == ws_infos(self@.workspaces).take(i as int),
            decreases self.workspaces.len() - i,
        {
            let info = self.workspaces[i].info();
            let ghost before = out@;
            out.push(info);
            proof {
                assert(ws_info_views(out@) =~= ws_info_views(before).push(info@));
                assert(ws_infos(self@.workspaces)[i as int] == info@);
                assert(ws_info_views(out@) =~= ws_infos(self@.workspaces).take(i + 1));
            }
            i = i + 1;
        }
        proof { assert(ws_infos(self@.workspaces).take(i as int) =~= ws_infos(self@.workspaces)); }
        out
    }

    /// Info of the current workspace.
    pub fn current_workspace_info(&self) -> (r: Option<WorkspaceInfo>)
        ensures
            ws_info_opt(r) == current_workspace_info(self@),
    {
        match self.cur_ws_idx() {
            Some(i) => Some(self.workspaces[i].info()),
            None => None,
        }
    }

    /// Selects the previously current workspace.
    pub fn select_last_workspace(&mut self) -> (r: Option<WorkspaceInfo>)
        ensures
            (final(self)@, ws_info_opt(r)) == select_last_workspace(old(self)@),
    {
        match self.last_workspace_id {
            None => None,
            Some(last) => self.select_workspace(Some(last), None),
        }
    }

    /// Creates a workspace and switches to it; see `create_workspace`.
    pub fn create_workspace(&mut self, name: Option<String>, host_window_id: Option<u64>) -> (r: WorkspaceInfo)
        requires
            has_id_room(old(self)@),
        ensures
            (final(self)@, r@) == create_workspace(old(self)@, opt_str_view(name), host_window_id),
    {
        let mut workspace = self.make_workspace(name);
        let ghost w0 = workspace@;
        assert(workspace.windows@.len() == windows_view(workspace.windows@).len());
        if let Some(h) = host_window_id {
            workspace.host_window_id = h;
            workspace.windows[0].id = h;
            workspace.current_window_id = Some(h);
            proof { assert(workspace@.windows =~= seq![WindowV { id: h, ..w0.windows[0] }]); }
        }
        let wid = workspace.windows[0].id;
        if !self.sidebar_visibility_by_window.contains_key(&wid) {
            self.sidebar_visibility_by_window.insert(wid, self.debug_sidebar_visible);
        }
        let info = workspace.info();
        self.last_workspace_id = Some(self.current_workspace_id);
        self.current_workspace_id = workspace.id;
        self.workspaces.push(workspace);
        proof {
            assert(self@.workspaces =~= old(self)@.workspaces.push(workspace@));
        }
        info
    }

    /// Renames a workspace (the current one when no id is given).
    pub fn rename_workspace(&mut self, id: Option<u64>, name: String) -> (r: Option<WorkspaceInfo>)
        ensures
            (final(self)@, ws_info_opt(r)) == rename_workspace(old(self)@, id, name@),
    {
        let target = match id { Some(x) => x, None => self.current_workspace_id };
        let idx = match workspace_position(&self.workspaces, target) { Some(i) => i, None => return None };
        self.workspaces[idx].name = name;
        proof { assert(self@.workspaces =~= rename_workspace(old(self)@, id, name@).0.workspaces); }
        Some(self.workspaces[idx].info())
    }

    /// Sets the working directory remembered for a workspace.
    pub fn set_workspace_cwd(&mut self, id: u64, cwd: Option<String>) -> (r: bool)
        ensures
            (final(self)@, r) == set_workspace_cwd(old(self)@, id, opt_str_view(cwd)),
    {
        let idx = match workspace_position(&self.workspaces, id) { Some(i) => i, None => return false };
        self.workspaces[idx].cwd = cwd;
        proof { assert(self@.workspaces =~= set_workspace_cwd(old(self)@, id, opt_str_view(cwd)).0.workspaces); }
        true
    }

    /// The working directory remembered for a workspace.
    pub fn workspace_cwd(&self, id: u64) -> (r: Option<String>)
        ensures
            opt_str_view(r) == workspace_cwd(self@, id),
    {
        let idx = match workspace_position(&self.workspaces, id) { Some(i) => i, None => return None };
        match &self.workspaces[idx].cwd {
            Some(c) => Some(c.clone()),
            None => None,
        }
    }

    /// Moves a workspace to position `index` (clamped to the last position).
    pub fn reorder_workspace(&mut self, id: u64, index: usize) -> (r: Option<WorkspaceInfo>)
        ensures
            (final(self)@, ws_info_opt(r)) == reorder_workspace(old(self)@, id, index as int),
    {
        let from = match workspace_position(&self.workspaces, id) { Some(i) => i, None => return None };
        proof { lemma_first_index(old(self)@.workspaces, ws_is(id)); }
        let last = self.workspaces.len() - 1;
        let to = if index < last { index } else { last };
        if from != to {
            let w = self.workspaces.remove(from);
            self.workspaces.insert(to, w);
            proof {
                let s = old(self)@.workspaces;
                assert(self@.workspaces =~= s.remove(from as int).insert(to as int, s[from as int]));
            }
        }
        proof {
            lemma_first_index(self@.workspaces, ws_is(id));
            assert(ws_is(id)(self@.workspaces[to as int]));
        }
        let found = workspace_position(&self.workspaces, id);
        match found {
            Some(k) => Some(self.workspaces[k].info()),
            None => None,
        }
    }

    /// Closes a workspace; see `close_workspace`.
    pub fn close_workspace(&mut self, id: Option<u64>) -> (r: Option<WorkspaceInfo>)
        ensures
            (final(self)@, ws_info_opt(r)) == close_workspace(old(self)@, id),
    {
        if self.workspaces.len() <= 1 {
            return None;
        }
        let target = match id { Some(x) => x, None => self.current_workspace_id };
        let idx = match workspace_position(&self.workspaces, target) { Some(i) => i, None => return None };
        let removed = self.workspaces.remove(idx);
        proof { assert(self@.workspaces =~= old(self)@.workspaces.remove(idx as int)); }
        let rid = removed.id;
        let ghost ns = old(self)@.notifications;
        let mut kept: Vec<NotificationInfo> = Vec::new();
        let mut i: usize = 0;
        while i < self.notifications.len()
            invariant
                i <= self.notifications.len(),
                ns == self@.notifications,
                notes_view(kept@) == ns.take(i as int).filter(not_in_ws(rid)),
            decreases self.notifications.len() - i,
        {
            proof {
                broadcast use group_seq_properties;
                assert(ns.take(i + 1) =~= ns.take(i as int).push(ns[i as int]));
            }
            proof { ns.take(i as int).lemma_filter_push(ns[i as int], not_in_ws(rid)); }
            if !opt_is(self.notifications[i].workspace_id, rid) {
                kept.push(copy_notification(&self.notifications[i]));
            }
            proof {
                assert(notes_view(kept@) =~= ns.take(i + 1).filter(not_in_ws(rid)));
            }
            i = i + 1;
        }
        proof { assert(ns.take(ns.len() as int) =~= ns); }
        self.notifications = kept;
        if rid == self.current_workspace_id {
            let last = self.workspaces.len() - 1;
            let fb = if idx < last { idx } else { last };
            self.last_workspace_id = Some(rid);
            self.current_workspace_id = self.workspaces[fb].id;
        }
        Some(removed.info())
    }

    /// Sets the window hosting a workspace (the current one when no id is given).
    pub fn move_workspace_to_window(&mut self, id: Option<u64>, host_window_id: u64) -> (r: Option<WorkspaceInfo>)
        ensures
            (final(self)@, ws_info_opt(r)) == move_workspace_to_window(old(self)@, id, host_window_id),
    {
        let target = match id { Some(x) => x, None => self.current_workspace_id };
        let idx = match workspace_position(&self.workspaces, target) { Some(i) => i, None => return None };
        self.workspaces[idx].host_window_id = host_window_id;
        proof { assert(self@.workspaces =~= move_workspace_to_window(old(self)@, id, host_window_id).0.workspaces); }
        Some(self.workspaces[idx].info())
    }
}


// ---------------------------------------------------------------------------
// Windows
// ---------------------------------------------------------------------------

impl ControlState {
    /// Summaries of the current workspace's windows.
    pub fn list_windows(&self) -> (r: Option<Vec<WindowInfo>>)
        ensures
            match r {
                Some(v) => list_windows(self@) == Some(win_info_views(v@)),
                None => list_windows(self@) is None,
            },
    {
        let wi = match self.cur_ws_idx() { Some(i) => i, None => return None };
        let ws = &self.workspaces[wi];
        let mut out: Vec<WindowInfo> = Vec::new();
        let mut j: usize = 0;
        while j < ws.windows.len()
            invariant
                j <= ws.windows.len(),
                wi < self.workspaces.len(),
                ws == self.workspaces@[wi as int],
                win_info_views(out@) == win_infos(self@.workspaces[wi as int].windows).take(j as int),
            decreases ws.windows.len() - j,
        {
            let info = ws.windows[j].info();
            let ghost before = out@;
            out.push(info);
            proof {
                assert(win_info_views(out@) =~= win_info_views(before).push(info@));
                assert(win_infos(self@.workspaces[wi as int].windows)[j as int] == info@);
                assert(win_info_views(out@) =~= win_infos(self@.workspaces[wi as int].windows).take(j + 1));
            }
            j = j + 1;
        }
        proof { assert(win_infos(self@.workspaces[wi as int].windows).take(j as int) =~= win_infos(self@.workspaces[wi as int].windows)); }
        Some(out)
    }

    /// Summary of the current window.
    pub fn current_window(&self) -> (r: Option<WindowInfo>)
        ensures
            win_info_opt(r) == current_window(self@),
    {
        match self.focused_window_idx() {
            Some((i, j)) => Some(self.workspaces[i].windows[j].info()),
            None => None,
        }
    }

    /// Creates a window in the current workspace; see `create_window`.
    pub fn create_window(&mut self, title: Option<String>) -> (r: Option<WindowInfo>)
        requires
            has_id_room(old(self)@),
        ensures
            (final(self)@, win_info_opt(r)) == create_window(old(self)@, opt_str_view(title)),
    {
        let window = self.make_window(title);
        let info = window.info();
        let wid = window.id;
        if !self.sidebar_visibility_by_window.contains_key(&wid) {
            self.sidebar_visibility_by_window.insert(wid, self.debug_sidebar_visible);
        }
        let wi = match self.cur_ws_idx() { Some(i) => i, None => return None };
        let cur = self.workspaces[wi].current_window_id;
        self.workspaces[wi].last_window_id = cur;
        self.workspaces[wi].current_window_id = Some(wid);
        let ghost before = self.workspaces@[wi as int].windows@;
        self.workspaces[wi].windows.push(window);
        proof {
            let m = old(self)@;
            let r = create_window(m, opt_str_view(title)).0;
            assert(windows_view(self.workspaces@[wi as int].windows@) =~= windows_view(before).push(window@));
            assert(self@.workspaces =~= r.workspaces);
        }
        Some(info)
    }

    fn focus_window_at(&mut self, wi: usize, id: u64)
        requires
            wi < old(self).workspaces.len(),
        ensures
            final(self)@ == focus_window_in(old(self)@, wi as int, id),
            final(self).workspaces.len() == old(self).workspaces.len(),
    {
        let cur = self.workspaces[wi].current_window_id;
        self.workspaces[wi].host_window_id = id;
        self.workspaces[wi].last_window_id = cur;
        self.workspaces[wi].current_window_id = Some(id);
        proof { assert(self@.workspaces =~= focus_window_in(old(self)@, wi as int, id).workspaces); }
    }

    /// Focuses a window; see `focus_window`.
    pub fn focus_window(&mut self, id: u64) -> (r: Option<WindowInfo>)
        ensures
            (final(self)@, win_info_opt(r)) == focus_window(old(self)@, id),
    {
        if let Some(wi) = self.cur_ws_idx() {
            if let Some(wj) = window_position(&self.workspaces[wi].windows, id) {
                let info = self.workspaces[wi].windows[wj].info();
                let wsid = self.workspaces[wi].id;
                self.focus_window_at(wi, id);
                if self.app_is_active() {
                    let _ = self.mark_notifications_read_for_workspace(wsid);
                }
                return Some(info);
            }
        }
        let ghost s = self@.workspaces;
        let mut xi: usize = 0;
        while xi < self.workspaces.len()
            invariant
                xi <= self.workspaces.len(),
                s == self@.workspaces,
                self@ == old(self)@,
                forall|k: int| 0 <= k < xi ==> !ws_holds_window(id)(#[trigger] s[k]),
                !({
                    let wi = cur_ws(old(self)@);
                    wi >= 0 && first_index(old(self)@.workspaces[wi].windows, win_is(id)) >= 0
                }),
            decreases self.workspaces.len() - xi,
        {
            if let Some(xj) = window_position(&self.workspaces[xi].windows, id) {
                proof {
                    lemma_first_index(self@.workspaces[xi as int].windows, win_is(id));
                    assert(ws_holds_window(id)(s[xi as int]));
                    lemma_first_index_unique(s, ws_holds_window(id), xi as int);
                }
                let info = self.workspaces[xi].windows[xj].info();
                let target = self.workspaces[xi].id;
                if self.current_workspace_id != target {
                    self.last_workspace_id = Some(self.current_workspace_id);
                    self.current_workspace_id = target;
                }
                self.focus_window_at(xi, id);
                if self.app_is_active() {
                    let _ = self.mark_notifications_read_for_workspace(target);
                }
                return Some(info);
            }
            proof {
                lemma_first_index(self@.workspaces[xi as int].windows, win_is(id));
                if ws_holds_window(id)(s[xi as int]) {
                    let j = choose|j: int| 0 <= j < s[xi as int].windows.len() && s[xi as int].windows[j].id == id;
                    assert(win_is(id)(self@.workspaces[xi as int].windows[j]));
                }
            }
            xi = xi + 1;
        }
        proof { lemma_first_index_none(s, ws_holds_window(id)); }
        None
    }

    /// Closes a window of the current workspace; see `close_window`.
    pub fn close_window(&mut self, id: Option<u64>) -> (r: Option<WindowInfo>)
        ensures
            (final(self)@, win_info_opt(r)) == close_window(old(self)@, id),
    {
        let wi = match self.cur_ws_idx() { Some(i) => i, None => return None };
        if self.workspaces[wi].windows.len() <= 1 {
            return None;
        }
        let target = match id { Some(t) => t, None => match self.workspaces[wi].current_window_id { Some(t) => t, None => return None } };
        let idx = match window_position(&self.workspaces[wi].windows, target) { Some(i) => i, None => return None };
        let ghost before = self.workspaces@[wi as int].windows@;
        let removed = self.workspaces[wi].windows.remove(idx);
        proof { assert(windows_view(self.workspaces@[wi as int].windows@) =~= windows_view(before).remove(idx as int)); }
        if opt_is(self.workspaces[wi].current_window_id, target) {
            let last = self.workspaces[wi].windows.len() - 1;
            let fb = if idx < last { idx } else { last };
            let fid = self.workspaces[wi].windows[fb].id;
            self.workspaces[wi].last_window_id = Some(target);
            self.workspaces[wi].current_window_id = Some(fid);
        }
        proof { assert(self@.workspaces =~= close_window(old(self)@, id).0.workspaces); }
        Some(removed.info())
    }
}


// ---------------------------------------------------------------------------
// Panes
// ---------------------------------------------------------------------------

fn pane_infos_of(panes: &Vec<PaneState>) -> (r: Vec<PaneInfo>)
    ensures
        r@ == pane_infos(panes_view(panes@)),
{
    let mut out: Vec<PaneInfo> = Vec::new();
    let mut k: usize = 0;
    while k < panes.len()
        invariant
            k <= panes.len(),
            out@ == pane_infos(panes_view(panes@)).take(k as int),
        decreases panes.len() - k,
    {
        out.push(panes[k].info());
        proof { assert(out@ =~= pane_infos(panes_view(panes@)).take(k + 1)); }
        k = k + 1;
    }
    proof { assert(pane_infos(panes_view(panes@)).take(k as int) =~= pane_infos(panes_view(panes@))); }
    out
}

fn surface_infos_of(p: &PaneState) -> (r: Vec<SurfaceInfo>)
    ensures
        surf_info_views(r@) == surf_infos(p@.surfaces, p.id),
{
    let mut out: Vec<SurfaceInfo> = Vec::new();
    let mut l: usize = 0;
    while l < p.surfaces.len()
        invariant
            l <= p.surfaces.len(),
            surf_info_views(out@) == surf_infos(p@.surfaces, p.id).take(l as int),
        decreases p.surfaces.len() - l,
    {
        let info = p.surfaces[l].info(p.id);
        let ghost before = out@;
        out.push(info);
        proof {
            assert(surf_info_views(out@) =~= surf_info_views(before).push(info@));
            assert(surf_infos(p@.surfaces, p.id)[l as int] == info@);
            assert(surf_info_views(out@) =~= surf_infos(p@.surfaces, p.id).take(l + 1));
        }
        l = l + 1;
    }
    proof { assert(surf_infos(p@.surfaces, p.id).take(l as int) =~= surf_infos(p@.surfaces, p.id)); }
    out
}

fn sat_add(a: i64, b: i64) -> (r: i64)
    ensures
        r == sat_add_i64(a, b),
{
    if b >= 0 {
        if a > i64::MAX - b { i64::MAX } else { a + b }
    } else {
        if a < i64::MIN - b { i64::MIN } else { a + b }
    }
}

fn sat_sub(a: i64, b: i64) -> (r: i64)
    ensures
        r == sat_sub_i64(a, b),
{
    if b >= 0 {
        if a < i64::MIN + b { i64::MIN } else { a - b }
    } else {
        if a > i64::MAX + b { i64::MAX } else { a - b }
    }
}

impl ControlState {
    /// Summaries of the focused window's panes.
    pub fn list_panes(&self) -> (r: Option<Vec<PaneInfo>>)
        ensures
            match r {
                Some(v) => list_panes(self@) == Some(v@),
                None => list_panes(self@) is None,
            },
    {
        match self.focused_window_idx() {
            Some((i, j)) => Some(pane_infos_of(&self.workspaces[i].windows[j].panes)),
            None => None,
        }
    }

    /// Summaries of a pane's surfaces; see `list_surfaces_for_pane`.
    pub fn list_surfaces_for_pane(&self, pane_id: Option<u64>) -> (r: Option<Vec<SurfaceInfo>>)
        ensures
            match r {
                Some(v) => list_surfaces_for_pane(self@, pane_id) == Some(surf_info_views(v@)),
                None => list_surfaces_for_pane(self@, pane_id) is None,
            },
    {
        let (i, j) = match self.focused_window_idx() { Some(p) => p, None => return None };
        let k = match pane_id {
            Some(id) => match pane_position(&self.workspaces[i].windows[j].panes, id) { Some(k) => k, None => return None },
            None => match self.cur_pane_idx(i, j) { Some(k) => k, None => return None },
        };
        Some(surface_infos_of(&self.workspaces[i].windows[j].panes[k]))
    }

    /// Creates a pane in the focused window; see `create_pane`.
    pub fn create_pane(&mut self, title: Option<String>) -> (r: Option<PaneInfo>)
        requires
            has_id_room(old(self)@),
        ensures
            (final(self)@, r) == create_pane(old(self)@, opt_str_view(title)),
    {
        let pane = self.make_pane(title);
        let info = pane.info();
        let pid = pane.id;
        let (i, j) = match self.focused_window_idx() { Some(p) => p, None => return None };
        let cur = self.workspaces[i].windows[j].current_pane_id;
        self.workspaces[i].windows[j].last_pane_id = cur;
        self.workspaces[i].windows[j].current_pane_id = Some(pid);
        let ghost before = self.workspaces@[i as int].windows@[j as int].panes@;
        self.workspaces[i].windows[j].panes.push(pane);
        proof {
            let r = create_pane(old(self)@, opt_str_view(title)).0;
            assert(panes_view(self.workspaces@[i as int].windows@[j as int].panes@) =~= panes_view(before).push(pane@));
            assert(self@.workspaces[i as int].windows =~= r.workspaces[i as int].windows);
            assert(self@.workspaces =~= r.workspaces);
        }
        Some(info)
    }

    fn focus_pane_index(&mut self, i: usize, j: usize, k: usize)
        requires
            i < old(self).workspaces.len(),
            j < old(self).workspaces@[i as int].windows.len(),
            k < old(self).workspaces@[i as int].windows@[j as int].panes.len(),
        ensures
            final(self)@ == focus_pane_at(old(self)@, i as int, j as int, k as int),
    {
        let cur = self.workspaces[i].windows[j].current_pane_id;
        let pid = self.workspaces[i].windows[j].panes[k].id;
        self.workspaces[i].windows[j].last_pane_id = cur;
        self.workspaces[i].windows[j].current_pane_id = Some(pid);
        proof {
            let r = focus_pane_at(old(self)@, i as int, j as int, k as int);
            assert(self@.workspaces[i as int].windows =~= r.workspaces[i as int].windows);
            assert(self@.workspaces =~= r.workspaces);
        }
    }

    /// Makes a pane of the focused window current.
    pub fn focus_pane(&mut self, pane_id: u64) -> (r: Option<PaneInfo>)
        ensures
            (final(self)@, r) == focus_pane(old(self)@, pane_id),
    {
        let (i, j) = match self.focused_window_idx() { Some(p) => p, None => return None };
        let k = match pane_position(&self.workspaces[i].windows[j].panes, pane_id) { Some(k) => k, None => return None };
        let info = self.workspaces[i].windows[j].panes[k].info();
        self.focus_pane_index(i, j, k);
        Some(info)
    }

    /// Makes the previously current pane current again.
    pub fn focus_last_pane(&mut self) -> (r: Option<PaneInfo>)
        ensures
            (final(self)@, r) == focus_last_pane(old(self)@),
    {
        let (i, j) = match self.focused_window_idx() { Some(p) => p, None => return None };
        match self.workspaces[i].windows[j].last_pane_id {
            None => None,
            Some(last) => self.focus_pane(last),
        }
    }

    fn focus_neighbor(&mut self, right: bool) -> (r: Option<PaneInfo>)
        ensures
            (final(self)@, r) == focus_neighbor_pane(old(self)@, if right { 1 } else { -1 }),
    {
        let (i, j) = match self.focused_window_idx() { Some(p) => p, None => return None };
        let cur = match self.workspaces[i].windows[j].current_pane_id { Some(c) => c, None => return None };
        let ci = match pane_position(&self.workspaces[i].windows[j].panes, cur) { Some(c) => c, None => return None };
        let len = self.workspaces[i].windows[j].panes.len();
        let t = if !right {
            if ci > 0 { ci - 1 } else { 0 }
        } else {
            if ci + 1 < len - 1 { ci + 1 } else { len - 1 }
        };
        let tid = self.workspaces[i].windows[j].panes[t].id;
        let info = self.workspaces[i].windows[j].panes[t].info();
        if tid != cur {
            self.workspaces[i].windows[j].last_pane_id = Some(cur);
            self.workspaces[i].windows[j].current_pane_id = Some(tid);
            proof {
                let r = focus_neighbor_pane(old(self)@, if right { 1 } else { -1 }).0;
                assert(self@.workspaces[i as int].windows =~= r.workspaces[i as int].windows);
                assert(self@.workspaces =~= r.workspaces);
            }
        }
        Some(info)
    }

    /// Moves focus one pane to the left in the focused window.
    pub fn focus_left_pane(&mut self) -> (r: Option<PaneInfo>)
        ensures
            (final(self)@, r) == focus_neighbor_pane(old(self)@, -1),
    {
        self.focus_neighbor(false)
    }

    /// Moves focus one pane to the right in the focused window.
    pub fn focus_right_pane(&mut self) -> (r: Option<PaneInfo>)
        ensures
            (final(self)@, r) == focus_neighbor_pane(old(self)@, 1),
    {
        self.focus_neighbor(true)
    }

    /// Whether any pane anywhere has this id.
    pub fn pane_exists(&self, pane_id: u64) -> (r: bool)
        ensures
            r == pane_exists(self@, pane_id),
    {
        let mut i: usize = 0;
        while i < self.workspaces.len()
            invariant
                i <= self.workspaces.len(),
                forall|a: int, b: int, c: int|
                    0 <= a < i && 0 <= b < self@.workspaces[a].windows.len()
                        && 0 <= c < self@.workspaces[a].windows[b].panes.len()
                        ==> #[trigger] self@.workspaces[a].windows[b].panes[c].id != pane_id,
            decreases self.workspaces.len() - i,
        {
            let mut j: usize = 0;
            while j < self.workspaces[i].windows.len()
                invariant
                    i < self.workspaces.len(),
                    j <= self.workspaces@[i as int].windows.len(),
                    forall|a: int, b: int, c: int|
                        0 <= a < i && 0 <= b < self@.workspaces[a].windows.len()
                            && 0 <= c < self@.workspaces[a].windows[b].panes.len()
                            ==> #[trigger] self@.workspaces[a].windows[b].panes[c].id != pane_id,
                    forall|b: int, c: int|
                        0 <= b < j && 0 <= c < self@.workspaces[i as int].windows[b].panes.len()
                            ==> #[trigger] self@.workspaces[i as int].windows[b].panes[c].id != pane_id,
                decreases self.workspaces@[i as int].windows.len() - j,
            {
                if pane_position(&self.workspaces[i].windows[j].panes, pane_id).is_some() {
                    proof {
                        let k = first_index(self@.workspaces[i as int].windows[j as int].panes, pane_is(pane_id));
                        lemma_first_index(self@.workspaces[i as int].windows[j as int].panes, pane_is(pane_id));
                        assert(self@.workspaces[i as int].windows[j as int].panes[k].id == pane_id);
                    }
                    return true;
                }
                proof {
                    lemma_first_index(self@.workspaces[i as int].windows[j as int].panes, pane_is(pane_id));
                    assert forall|c: int| 0 <= c < self@.workspaces[i as int].windows[j as int].panes.len()
                        implies #[trigger] self@.workspaces[i as int].windows[j as int].panes[c].id != pane_id by {
                        assert(!pane_is(pane_id)(self@.workspaces[i as int].windows[j as int].panes[c]));
                    }
                }
                j = j + 1;
            }
            proof {
                assert forall|a: int, b: int, c: int|
                    0 <= a < i + 1 && 0 <= b < self@.workspaces[a].windows.len()
                        && 0 <= c < self@.workspaces[a].windows[b].panes.len()
                        implies #[trigger] self@.workspaces[a].windows[b].panes[c].id != pane_id by {
                    if a == i {
                        assert(self@.workspaces[i as int].windows[b].panes[c].id != pane_id);
                    }
                }
            }
            i = i + 1;
        }
        false
    }

    /// Records a size change for a pane; see `resize_pane`.
    pub fn resize_pane(&mut self, pane_id: u64, direction: &str, amount: i64) -> (r: Option<(i64, i64)>)
        ensures
            (final(self)@, r) == resize_pane(old(self)@, pane_id, direction@, amount),
    {
        if !self.pane_exists(pane_id) {
            return None;
        }
        let cur = match self.pane_size_overrides.get(&pane_id) {
            Some(v) => *v,
            None => (0i64, 0i64),
        };
        proof {
            reveal_strlit("right");
            reveal_strlit("left");
            reveal_strlit("down");
            reveal_strlit("up");
            assert("right"@ =~= dir_right());
            assert("left"@ =~= dir_left());
            assert("down"@ =~= dir_down());
            assert("up"@ =~= dir_up());
        }
        let next = if str_eq(direction, "right") {
            (sat_add(cur.0, amount), cur.1)
        } else if str_eq(direction, "left") {
            (sat_sub(cur.0, amount), cur.1)
        } else if str_eq(direction, "down") {
            (cur.0, sat_add(cur.1, amount))
        } else if str_eq(direction, "up") {
            (cur.0, sat_sub(cur.1, amount))
        } else {
            cur
        };
        self.pane_size_overrides.insert(pane_id, next);
        Some(next)
    }

    /// Swaps two panes of the focused window; see `swap_panes`.
    pub fn swap_panes(&mut self, first: u64, second: u64) -> (r: Option<Vec<PaneInfo>>)
        ensures
            match r {
                Some(v) => swap_panes(old(self)@, first, second) == (final(self)@, Some(v@)),
                None => swap_panes(old(self)@, first, second) == (final(self)@, None::<Seq<PaneInfo>>),
            },
    {
        let (i, j) = match self.focused_window_idx() { Some(p) => p, None => return None };
        let a = match pane_position(&self.workspaces[i].windows[j].panes, first) { Some(x) => x, None => return None };
        let b = match pane_position(&self.workspaces[i].windows[j].panes, second) { Some(x) => x, None => return None };
        let ghost before = self.workspaces@[i as int].windows@[j as int].panes@;
        if a != b {
            let (lo, hi) = if a < b { (a, b) } else { (b, a) };
            let y = self.workspaces[i].windows[j].panes.remove(hi);
            let x = self.workspaces[i].windows[j].panes.remove(lo);
            self.workspaces[i].windows[j].panes.insert(lo, y);
            self.workspaces[i].windows[j].panes.insert(hi, x);
            proof {
                assert(self.workspaces@[i as int].windows@[j as int].panes@ =~= before.update(lo as int, before[hi as int]).update(hi as int, before[lo as int]));
            }
        }
        proof {
            let r = swap_panes(old(self)@, first, second).0;
            assert(panes_view(self.workspaces@[i as int].windows@[j as int].panes@) =~= r.workspaces[i as int].windows[j as int].panes);
            assert(self@.workspaces[i as int].windows =~= r.workspaces[i as int].windows);
            assert(self@.workspaces =~= r.workspaces);
        }
        Some(pane_infos_of(&self.workspaces[i].windows[j].panes))
    }
}


impl ControlState {
    /// Moves every surface of one pane into another; see `join_panes`.
    pub fn join_panes(&mut self, source_id: u64, target_id: u64) -> (r: Option<PaneInfo>)
        ensures
            (final(self)@, r) == join_panes(old(self)@, source_id, target_id),
    {
        if source_id == target_id {
            return None;
        }
        let (i, j) = match self.focused_window_idx() { Some(p) => p, None => return None };
        let si = match pane_position(&self.workspaces[i].windows[j].panes, source_id) { Some(x) => x, None => return None };
        let ghost before = self.workspaces@[i as int].windows@[j as int].panes@;
        let mut source = self.workspaces[i].windows[j].panes.remove(si);
        proof {
            assert(panes_view(self.workspaces@[i as int].windows@[j as int].panes@) =~= panes_view(before).remove(si as int));
        }
        let ti = match pane_position(&self.workspaces[i].windows[j].panes, target_id) {
            Some(x) => x,
            None => {
                proof {
                    let r = join_panes(old(self)@, source_id, target_id).0;
                    assert(self@.workspaces[i as int].windows =~= r.workspaces[i as int].windows);
                    assert(self@.workspaces =~= r.workspaces);
                }
                return None;
            },
        };
        let ghost rest = self.workspaces@[i as int].windows@[j as int].panes@;
        let ghost src_v = source@;
        let moved_current = source.current_surface_id;
        let tcur = self.workspaces[i].windows[j].panes[ti].current_surface_id;
        let ghost tsurf = self.workspaces@[i as int].windows@[j as int].panes@[ti as int].surfaces@;
        self.workspaces[i].windows[j].panes[ti].surfaces.append(&mut source.surfaces);
        self.workspaces[i].windows[j].panes[ti].last_surface_id = tcur;
        if moved_current.is_some() {
            self.workspaces[i].windows[j].panes[ti].current_surface_id = moved_current;
        }
        if opt_is(self.workspaces[i].windows[j].current_pane_id, source_id) {
            self.workspaces[i].windows[j].current_pane_id = Some(target_id);
        }
        proof {
            let r = join_panes(old(self)@, source_id, target_id).0;
            assert(surfaces_view(self.workspaces@[i as int].windows@[j as int].panes@[ti as int].surfaces@)
                =~= surfaces_view(tsurf) + src_v.surfaces);
            assert(panes_view(self.workspaces@[i as int].windows@[j as int].panes@) =~= r.workspaces[i as int].windows[j as int].panes);
            assert(self@.workspaces[i as int].windows =~= r.workspaces[i as int].windows);
            assert(self@.workspaces =~= r.workspaces);
        }
        Some(self.workspaces[i].windows[j].panes[ti].info())
    }

    /// Moves a pane's current surface into a new pane; see `break_pane`.
    pub fn break_pane(&mut self, pane_id: Option<u64>) -> (r: Option<PaneInfo>)
        requires
            has_id_room(old(self)@),
        ensures
            (final(self)@, r) == break_pane(old(self)@, pane_id),
    {
        let (i, j) = match self.focused_window_idx() { Some(p) => p, None => return None };
        let fallback = self.make_surface(None);
        let si = match pane_id {
            Some(id) => match pane_position(&self.workspaces[i].windows[j].panes, id) { Some(x) => x, None => return None },
            None => match self.workspaces[i].windows[j].current_pane_id {
                Some(id) => match pane_position(&self.workspaces[i].windows[j].panes, id) { Some(x) => x, None => return None },
                None => return None,
            },
        };
        let csid = match self.workspaces[i].windows[j].panes[si].current_surface_id { Some(c) => c, None => return None };
        let sl = match surface_index(&self.workspaces[i].windows[j].panes[si], csid) { Some(x) => x, None => return None };
        let ghost src = self.workspaces@[i as int].windows@[j as int].panes@[si as int]@;
        let ghost before_s = self.workspaces@[i as int].windows@[j as int].panes@[si as int].surfaces@;
        let moved = self.workspaces[i].windows[j].panes[si].surfaces.remove(sl);
        proof {
            assert(surfaces_view(self.workspaces@[i as int].windows@[j as int].panes@[si as int].surfaces@) =~= surfaces_view(before_s).remove(sl as int));
        }
        if self.workspaces[i].windows[j].panes[si].surfaces.len() == 0 {
            let fid = fallback.id;
            self.workspaces[i].windows[j].panes[si].current_surface_id = Some(fid);
            self.workspaces[i].windows[j].panes[si].surfaces.push(fallback);
            proof {
                assert(surfaces_view(self.workspaces@[i as int].windows@[j as int].panes@[si as int].surfaces@) =~= seq![fallback@]);
            }
        } else {
            let len = self.workspaces[i].windows[j].panes[si].surfaces.len();
            let fb = if sl < len - 1 { sl } else { len - 1 };
            let fid = self.workspaces[i].windows[j].panes[si].surfaces[fb].id;
            self.workspaces[i].windows[j].panes[si].current_surface_id = Some(fid);
        }
        let new_id = self.next_pane_id;
        self.next_pane_id = self.next_pane_id + 1;
        let new_pane = PaneState { id: new_id, surfaces: vec![moved], current_surface_id: Some(csid), last_surface_id: None };
        let info = new_pane.info();
        let cur = self.workspaces[i].windows[j].current_pane_id;
        self.workspaces[i].windows[j].last_pane_id = cur;
        self.workspaces[i].windows[j].current_pane_id = Some(new_id);
        let ghost before_p = self.workspaces@[i as int].windows@[j as int].panes@;
        self.workspaces[i].windows[j].panes.push(new_pane);
        proof {
            let r = break_pane(old(self)@, pane_id).0;
            assert(new_pane@.surfaces =~= seq![src.surfaces[sl as int]]);
            assert(self.workspaces@[i as int].windows@[j as int].panes@[si as int]@ == pane_without(src, sl as int, fallback@));
            assert(panes_view(self.workspaces@[i as int].windows@[j as int].panes@) =~= panes_view(before_p).push(new_pane@));
            assert(panes_view(self.workspaces@[i as int].windows@[j as int].panes@) =~= r.workspaces[i as int].windows[j as int].panes);
            assert(self@.workspaces[i as int].windows =~= r.workspaces[i as int].windows);
            assert(self@.workspaces =~= r.workspaces);
        }
        Some(info)
    }
}


// ---------------------------------------------------------------------------
// Surfaces
// ---------------------------------------------------------------------------

fn flat_surface_infos(panes: &Vec<PaneState>) -> (r: Vec<SurfaceInfo>)
    ensures
        surf_info_views(r@) == flat_surf_infos(panes_view(panes@)),
{
    let mut out: Vec<SurfaceInfo> = Vec::new();
    let mut k: usize = 0;
    while k < panes.len()
        invariant
            k <= panes.len(),
            surf_info_views(out@) == flat_surf_infos(panes_view(panes@).take(k as int)),
        decreases panes.len() - k,
    {
        let mut part = surface_infos_of(&panes[k]);
        let ghost before = out@;
        let ghost pv = part@;
        out.append(&mut part);
        proof {
            let ps = panes_view(panes@);
            assert(ps.take(k + 1).drop_last() =~= ps.take(k as int));
            assert(surf_info_views(out@) =~= surf_info_views(before) + surf_info_views(pv));
        }
        k = k + 1;
    }
    proof { assert(panes_view(panes@).take(k as int) =~= panes_view(panes@)); }
    out
}

impl ControlState {
    /// Infos of every surface of the focused window, pane by pane.
    pub fn list_surfaces(&self) -> (r: Option<Vec<SurfaceInfo>>)
        ensures
            match r {
                Some(v) => list_surfaces(self@) == Some(surf_info_views(v@)),
                None => list_surfaces(self@) is None,
            },
    {
        match self.focused_window_idx() {
            Some((i, j)) => Some(flat_surface_infos(&self.workspaces[i].windows[j].panes)),
            None => None,
        }
    }

    fn focused_surface_idx(&self) -> (r: Option<(usize, usize, usize, usize)>)
        ensures
            match r {
                Some((i, j, k, l)) => focused_surface(self@) == Some((i as int, j as int, k as int, l as int))
                    && i < self.workspaces.len() && j < self.workspaces@[i as int].windows.len()
                    && k < self.workspaces@[i as int].windows@[j as int].panes.len()
                    && l < self.workspaces@[i as int].windows@[j as int].panes@[k as int].surfaces.len(),
                None => focused_surface(self@) is None,
            },
    {
        let (i, j, k) = match self.focused_pane_idx() { Some(p) => p, None => return None };
        let l = match self.cur_surf_idx(i, j, k) { Some(l) => l, None => return None };
        Some((i, j, k, l))
    }

    /// Info of the focused surface.
    pub fn current_surface(&self) -> (r: Option<SurfaceInfo>)
        ensures
            surf_info_opt(r) == current_surface(self@),
    {
        match self.focused_surface_idx() {
            Some((i, j, k, l)) => {
                let p = &self.workspaces[i].windows[j].panes[k];
                Some(p.surfaces[l].info(p.id))
            },
            None => None,
        }
    }

    /// Adds a surface to the focused pane; see `create_surface`.
    pub fn create_surface(&mut self, title: Option<String>) -> (r: Option<SurfaceInfo>)
        requires
            has_id_room(old(self)@),
        ensures
            (final(self)@, surf_info_opt(r)) == create_surface(old(self)@, opt_str_view(title)),
    {
        let surface = self.make_surface(title);
        let sid = surface.id;
        let (i, j, k) = match self.focused_pane_idx() { Some(p) => p, None => return None };
        let cur = self.workspaces[i].windows[j].panes[k].current_surface_id;
        self.workspaces[i].windows[j].panes[k].last_surface_id = cur;
        self.workspaces[i].windows[j].panes[k].current_surface_id = Some(sid);
        let ghost before = self.workspaces@[i as int].windows@[j as int].panes@[k as int].surfaces@;
        self.workspaces[i].windows[j].panes[k].surfaces.push(surface);
        proof {
            let r = create_surface(old(self)@, opt_str_view(title)).0;
            assert(surfaces_view(self.workspaces@[i as int].windows@[j as int].panes@[k as int].surfaces@) =~= surfaces_view(before).push(surface@));
            assert(self@.workspaces[i as int].windows[j as int].panes =~= r.workspaces[i as int].windows[j as int].panes);
            assert(self@.workspaces[i as int].windows =~= r.workspaces[i as int].windows);
            assert(self@.workspaces =~= r.workspaces);
            let ss = self@.workspaces[i as int].windows[j as int].panes[k as int].surfaces;
            lemma_first_index(ss, surf_is(sid));
            assert(surf_is(sid)(ss[ss.len() - 1]));
        }
        let p = &self.workspaces[i].windows[j].panes[k];
        let l = surface_index(p, sid).unwrap();
        Some(p.surfaces[l].info(p.id))
    }

    /// Focuses a pane of the focused window, then adds a surface to it.
    pub fn create_surface_in_pane(&mut self, pane_id: u64, title: Option<String>) -> (r: Option<SurfaceInfo>)
        requires
            has_id_room(old(self)@),
        ensures
            (final(self)@, surf_info_opt(r)) == create_surface_in_pane(old(self)@, pane_id, opt_str_view(title)),
    {
        if self.focus_pane(pane_id).is_none() {
            return None;
        }
        self.create_surface(title)
    }

    /// Adds a new pane to the focused window; see `split_surface`.
    pub fn split_surface(&mut self, title: Option<String>) -> (r: Option<SurfaceInfo>)
        requires
            has_id_room(old(self)@),
        ensures
            (final(self)@, surf_info_opt(r)) == split_surface(old(self)@, opt_str_view(title)),
    {
        let pid = self.next_pane_id;
        let sid = self.next_surface_id;
        let fw = self.focused_window_idx();
        if self.create_pane(title).is_none() {
            return None;
        }
        let (i, j) = match fw { Some(p) => p, None => return None };
        proof {
            assert(self@.workspaces.len() == self.workspaces@.len());
            assert(self@.workspaces[i as int].windows.len() == self.workspaces@[i as int].windows@.len());
        }
        let k = match pane_position(&self.workspaces[i].windows[j].panes, pid) { Some(k) => k, None => return None };
        let p = &self.workspaces[i].windows[j].panes[k];
        match surface_index(p, sid) {
            Some(l) => Some(p.surfaces[l].info(pid)),
            None => None,
        }
    }

    /// Focuses a pane of the focused window, then splits off a new pane.
    pub fn split_surface_from_pane(&mut self, pane_id: u64, title: Option<String>) -> (r: Option<SurfaceInfo>)
        requires
            has_id_room(old(self)@),
        ensures
            (final(self)@, surf_info_opt(r)) == split_surface_from_pane(old(self)@, pane_id, opt_str_view(title)),
    {
        if self.focus_pane(pane_id).is_none() {
            return None;
        }
        self.split_surface(title)
    }

    /// Whether the focused window has a pane with this id.
    pub fn pane_exists_in_current_window(&self, pane_id: u64) -> (r: bool)
        ensures
            r == pane_in_focused_window(self@, pane_id),
    {
        match self.focused_window_idx() {
            Some((i, j)) => pane_position(&self.workspaces[i].windows[j].panes, pane_id).is_some(),
            None => false,
        }
    }

    /// The pane recorded to the right of this one, when it is in the focused window.
    pub fn right_neighbor_in_current_window(&self, pane_id: u64) -> (r: Option<u64>)
        ensures
            r == right_neighbor(self@, pane_id),
    {
        let candidate = match self.pane_right_neighbors.get(&pane_id) { Some(c) => *c, None => return None };
        if self.pane_exists_in_current_window(candidate) { Some(candidate) } else { None }
    }

    /// Records a split relation; see `register_split` (the direction is compared
    /// case-insensitively).
    pub fn register_split_relation(&mut self, source_pane_id: u64, new_pane_id: u64, direction: &str)
        ensures
            final(self)@ == register_split(old(self)@, source_pane_id, new_pane_id, ascii_lower(direction@)),
    {
        let d = to_ascii_lowercase(direction);
        proof {
            reveal_strlit("right");
            reveal_strlit("down");
            assert("right"@ =~= dir_right());
            assert("down"@ =~= dir_down());
        }
        if str_eq(d.as_str(), "right") {
            self.pane_right_neighbors.insert(source_pane_id, new_pane_id);
            if let Some(sd) = self.pane_down_neighbors.get(&source_pane_id) {
                let sd = *sd;
                if let Some(sdr) = self.pane_right_neighbors.get(&sd) {
                    let sdr = *sdr;
                    self.pane_down_neighbors.insert(new_pane_id, sdr);
                }
            }
        } else if str_eq(d.as_str(), "down") {
            self.pane_down_neighbors.insert(source_pane_id, new_pane_id);
            if let Some(sr) = self.pane_right_neighbors.get(&source_pane_id) {
                let sr = *sr;
                if let Some(srd) = self.pane_down_neighbors.get(&sr) {
                    let srd = *srd;
                    self.pane_right_neighbors.insert(new_pane_id, srd);
                }
            }
        }
    }
}


fn apply_surface_edit(s: &mut SurfaceState, e: &SurfaceEdit)
    ensures
        final(s)@ == apply_edit(old(s)@, e@),
{
    match e {
        SurfaceEdit::Nothing => {},
        SurfaceEdit::AppendLine(t) => {
            s.text.append(t.as_str());
            s.text.append("\n");
            proof { reveal_strlit("\n"); assert(s.text@ =~= old(s).text@ + t@ + newline()); }
        },
        SurfaceEdit::Refresh => {
            s.refresh_count = s.refresh_count.saturating_add(1);
        },
        SurfaceEdit::Flash => {
            s.flash_count = s.flash_count.saturating_add(1);
        },
        SurfaceEdit::ClearHistory => {
            s.text = String::new();
            s.unread = false;
        },
        SurfaceEdit::Rename(t) => {
            if let Some(title) = t {
                s.title = title.clone();
            }
        },
        SurfaceEdit::ClearName => {
            proof { reveal_strlit("surface-"); assert("surface-"@ =~= surface_prefix()); }
            let mut t = String::from_str("surface-");
            push_decimal(&mut t, s.id);
            s.title = t;
        },
        SurfaceEdit::SetPinned(b) => {
            s.pinned = *b;
        },
        SurfaceEdit::SetUnread(b) => {
            s.unread = *b;
        },
        SurfaceEdit::ToggleDevtools => {
            proof { reveal_strlit("browser"); assert("browser"@ =~= browser_type()); }
            if str_eq(s.panel_type.as_str(), "browser") {
                s.developer_tools_visible = !s.developer_tools_visible;
            }
        },
    }
}

impl ControlState {
    /// Positions of the first surface with this id in the focused window.
    fn find_surface_in_current_window(&self, sid: u64) -> (r: Option<(usize, usize, usize, usize)>)
        ensures
            match r {
                Some((i, j, k, l)) => find_in_focused_window(self@, sid) == Some((i as int, j as int, k as int, l as int))
                    && i < self.workspaces.len() && j < self.workspaces@[i as int].windows.len()
                    && k < self.workspaces@[i as int].windows@[j as int].panes.len()
                    && l < self.workspaces@[i as int].windows@[j as int].panes@[k as int].surfaces.len(),
                None => find_in_focused_window(self@, sid) is None,
            },
    {
        let (i, j) = match self.focused_window_idx() { Some(p) => p, None => return None };
        let k = match pane_index_having(&self.workspaces[i].windows[j].panes, sid) { Some(k) => k, None => return None };
        proof {
            lemma_first_index(self@.workspaces[i as int].windows[j as int].panes, pane_has(sid));
            lemma_pane_has(self.workspaces@[i as int].windows@[j as int].panes@[k as int], sid);
        }
        let l = surface_index(&self.workspaces[i].windows[j].panes[k], sid).unwrap();
        Some((i, j, k, l))
    }

    /// Id of the focused window's pane holding this surface.
    pub fn find_pane_for_surface_in_current_window(&self, sid: u64) -> (r: Option<u64>)
        ensures
            r == pane_for_surface(self@, sid),
    {
        match self.find_surface_in_current_window(sid) {
            Some((i, j, k, _)) => Some(self.workspaces[i].windows[j].panes[k].id),
            None => None,
        }
    }

    /// Focuses a surface of the focused window; see `focus_surface`.
    pub fn focus_surface(&mut self, sid: u64) -> (r: Option<SurfaceInfo>)
        ensures
            (final(self)@, surf_info_opt(r)) == focus_surface(old(self)@, sid),
    {
        let (i, j, k, l) = match self.find_surface_in_current_window(sid) { Some(x) => x, None => return None };
        let pid = self.workspaces[i].windows[j].panes[k].id;
        let info = self.workspaces[i].windows[j].panes[k].surfaces[l].info(pid);
        let cur_pane = self.workspaces[i].windows[j].current_pane_id;
        self.workspaces[i].windows[j].last_pane_id = cur_pane;
        self.workspaces[i].windows[j].current_pane_id = Some(pid);
        let cur_surf = self.workspaces[i].windows[j].panes[k].current_surface_id;
        self.workspaces[i].windows[j].panes[k].last_surface_id = cur_surf;
        self.workspaces[i].windows[j].panes[k].current_surface_id = Some(sid);
        proof {
            let m = old(self)@;
            let win = m.workspaces[i as int].windows[j as int];
            let p = win.panes[k as int];
            let p2 = PaneV { last_surface_id: p.current_surface_id, current_surface_id: Some(sid), ..p };
            let win2 = WindowV { last_pane_id: win.current_pane_id, current_pane_id: Some(p.id), panes: win.panes.update(k as int, p2), ..win };
            let r = set_window(m, i as int, j as int, win2);
            assert(self@.workspaces[i as int].windows[j as int].panes =~= r.workspaces[i as int].windows[j as int].panes);
            assert(self@.workspaces[i as int].windows =~= r.workspaces[i as int].windows);
            assert(self@.workspaces =~= r.workspaces);
        }
        if self.app_is_active() {
            let _ = self.mark_notifications_read_for_surface(sid);
        }
        Some(info)
    }

    /// Edits a surface of the focused window; see `update_surface`.
    pub fn update_surface(&mut self, surface_id: Option<u64>, edit: &SurfaceEdit) -> (r: Option<SurfaceInfo>)
        ensures
            (final(self)@, surf_info_opt(r)) == update_surface(old(self)@, surface_id, edit@),
    {
        let target = match surface_id {
            Some(id) => id,
            None => match self.current_surface() { Some(info) => info.id, None => return None },
        };
        let (i, j, k, l) = match self.find_surface_in_current_window(target) { Some(x) => x, None => return None };
        apply_surface_edit(&mut self.workspaces[i].windows[j].panes[k].surfaces[l], edit);
        proof {
            let m = old(self)@;
            let p = m.workspaces[i as int].windows[j as int].panes[k as int];
            let r = set_surface(m, i as int, j as int, k as int, l as int, apply_edit(p.surfaces[l as int], edit@));
            assert(self@.workspaces[i as int].windows[j as int].panes[k as int].surfaces =~= r.workspaces[i as int].windows[j as int].panes[k as int].surfaces);
            assert(self@.workspaces[i as int].windows[j as int].panes =~= r.workspaces[i as int].windows[j as int].panes);
            assert(self@.workspaces[i as int].windows =~= r.workspaces[i as int].windows);
            assert(self@.workspaces =~= r.workspaces);
        }
        let pid = self.workspaces[i].windows[j].panes[k].id;
        Some(self.workspaces[i].windows[j].panes[k].surfaces[l].info(pid))
    }

    /// Positions of the first surface with this id in the workspace with this id.
    fn find_surface_in_workspace(&self, wsid: u64, sid: u64) -> (r: Option<(usize, usize, usize, usize)>)
        ensures
            match r {
                Some((i, j, k, l)) => find_in_workspace(self@, wsid, sid) == Some((i as int, j as int, k as int, l as int))
                    && i < self.workspaces.len() && j < self.workspaces@[i as int].windows.len()
                    && k < self.workspaces@[i as int].windows@[j as int].panes.len()
                    && l < self.workspaces@[i as int].windows@[j as int].panes@[k as int].surfaces.len(),
                None => find_in_workspace(self@, wsid, sid) is None,
            },
    {
        let i = match workspace_position(&self.workspaces, wsid) { Some(i) => i, None => return None };
        let j = match window_index_having(&self.workspaces[i].windows, sid) { Some(j) => j, None => return None };
        proof {
            lemma_first_index(self@.workspaces[i as int].windows, win_has(sid));
            lemma_win_has(self.workspaces@[i as int].windows@[j as int], sid);
        }
        let k = pane_index_having(&self.workspaces[i].windows[j].panes, sid).unwrap();
        proof {
            lemma_first_index(self@.workspaces[i as int].windows[j as int].panes, pane_has(sid));
            lemma_pane_has(self.workspaces@[i as int].windows@[j as int].panes@[k as int], sid);
        }
        let l = surface_index(&self.workspaces[i].windows[j].panes[k], sid).unwrap();
        Some((i, j, k, l))
    }

    /// Edits a surface found anywhere in a workspace; see `update_surface_in`.
    pub fn update_surface_metadata(&mut self, wsid: u64, sid: u64, edit: &SurfaceEdit) -> (r: Option<SurfaceInfo>)
        ensures
            (final(self)@, surf_info_opt(r)) == update_surface_in(old(self)@, wsid, sid, edit@),
    {
        let (i, j, k, l) = match self.find_surface_in_workspace(wsid, sid) { Some(x) => x, None => return None };
        apply_surface_edit(&mut self.workspaces[i].windows[j].panes[k].surfaces[l], edit);
        proof {
            let m = old(self)@;
            let p = m.workspaces[i as int].windows[j as int].panes[k as int];
            let r = set_surface(m, i as int, j as int, k as int, l as int, apply_edit(p.surfaces[l as int], edit@));
            assert(self@.workspaces[i as int].windows[j as int].panes[k as int].surfaces =~= r.workspaces[i as int].windows[j as int].panes[k as int].surfaces);
            assert(self@.workspaces[i as int].windows[j as int].panes =~= r.workspaces[i as int].windows[j as int].panes);
            assert(self@.workspaces[i as int].windows =~= r.workspaces[i as int].windows);
            assert(self@.workspaces =~= r.workspaces);
        }
        let pid = self.workspaces[i].windows[j].panes[k].id;
        Some(self.workspaces[i].windows[j].panes[k].surfaces[l].info(pid))
    }

    /// Whether the workspace with this id holds a surface with this id.
    pub fn workspace_contains_surface(&self, wsid: u64, sid: u64) -> (r: bool)
        ensures
            r == workspace_contains_surface(self@, wsid, sid),
    {
        let i = match workspace_position(&self.workspaces, wsid) { Some(i) => i, None => return false };
        proof {
            lemma_ws_has(self.workspaces@[i as int], sid);
        }
        window_index_having(&self.workspaces[i].windows, sid).is_some()
    }

    /// Id of the first workspace holding a surface with this id.
    pub fn find_workspace_for_surface(&self, sid: u64) -> (r: Option<u64>)
        ensures
            r == workspace_of_surface(self@, sid),
    {
        match self.locate_surface(sid) {
            Some((i, _, _, _)) => Some(self.workspaces[i].id),
            None => None,
        }
    }
}


/// Removes the surface at `l` from a pane, giving it a new current surface:
/// the fallback when it was the last one, otherwise its neighbor.
fn remove_surface_from_pane(p: &mut PaneState, l: usize, fallback: SurfaceState) -> (r: SurfaceState)
    requires
        l < old(p).surfaces.len(),
    ensures
        final(p)@ == pane_without(old(p)@, l as int, fallback@),
        r@ == old(p)@.surfaces[l as int],
{
    let ghost before = p.surfaces@;
    let removed = p.surfaces.remove(l);
    proof { assert(surfaces_view(p.surfaces@) =~= surfaces_view(before).remove(l as int)); }
    if p.surfaces.len() == 0 {
        let fid = fallback.id;
        p.current_surface_id = Some(fid);
        p.surfaces.push(fallback);
        proof { assert(surfaces_view(p.surfaces@) =~= seq![fallback@]); }
    } else {
        let len = p.surfaces.len();
        let fb = if l < len - 1 { l } else { len - 1 };
        let fid = p.surfaces[fb].id;
        p.current_surface_id = Some(fid);
    }
    removed
}

impl ControlState {
    /// Closes a surface of the focused window; see `close_surface`.
    pub fn close_surface(&mut self, surface_id: Option<u64>) -> (r: Option<SurfaceInfo>)
        requires
            has_id_room(old(self)@),
        ensures
            (final(self)@, surf_info_opt(r)) == close_surface(old(self)@, surface_id),
    {
        let (i, j) = match self.focused_window_idx() { Some(p) => p, None => return None };
        let fallback = self.make_surface(None);
        let target = match surface_id {
            Some(id) => id,
            None => {
                let k0 = match self.cur_pane_idx(i, j) { Some(k) => k, None => return None };
                match self.workspaces[i].windows[j].panes[k0].current_surface_id { Some(t) => t, None => return None }
            },
        };
        let (_, _, k, l) = match self.find_surface_in_current_window(target) { Some(x) => x, None => return None };
        let pid = self.workspaces[i].windows[j].panes[k].id;
        let ghost m1 = self@;
        let ghost win = m1.workspaces[i as int].windows[j as int];
        let ghost p0 = win.panes[k as int];
        if self.workspaces[i].windows[j].panes[k].surfaces.len() == 1 && self.workspaces[i].windows[j].panes.len() > 1 {
            let ghost before = self.workspaces@[i as int].windows@[j as int].panes@;
            let mut gone = self.workspaces[i].windows[j].panes.remove(k);
            proof { assert(panes_view(self.workspaces@[i as int].windows@[j as int].panes@) =~= panes_view(before).remove(k as int)); }
            let removed = gone.surfaces.remove(l);
            if opt_is(self.workspaces[i].windows[j].current_pane_id, pid) {
                let len = self.workspaces[i].windows[j].panes.len();
                let nx = if k < len - 1 { k } else { len - 1 };
                let nid = self.workspaces[i].windows[j].panes[nx].id;
                self.workspaces[i].windows[j].last_pane_id = Some(pid);
                self.workspaces[i].windows[j].current_pane_id = Some(nid);
            }
            proof {
                let r = close_surface(old(self)@, surface_id).0;
                assert(p0.surfaces.remove(l as int).len() == 0);
                assert(self@.workspaces[i as int].windows =~= r.workspaces[i as int].windows);
                assert(self@.workspaces =~= r.workspaces);
            }
            Some(removed.info(pid))
        } else {
            let removed = remove_surface_from_pane(&mut self.workspaces[i].windows[j].panes[k], l, fallback);
            proof {
                let r = close_surface(old(self)@, surface_id).0;
                assert(self@.workspaces[i as int].windows[j as int].panes =~= r.workspaces[i as int].windows[j as int].panes);
                assert(self@.workspaces[i as int].windows =~= r.workspaces[i as int].windows);
                assert(self@.workspaces =~= r.workspaces);
            }
            Some(removed.info(pid))
        }
    }
}


impl ControlState {
    /// Moves a surface into another pane of the focused window; see `move_surface`.
    pub fn move_surface(&mut self, sid: u64, target_pane_id: u64, index: Option<usize>) -> (r: Option<SurfaceInfo>)
        requires
            old(self)@.next_surface_id < u64::MAX,
        ensures
            (final(self)@, surf_info_opt(r)) == move_surface(
                old(self)@,
                sid,
                target_pane_id,
                match index { Some(x) => Some(x as int), None => None },
            ),
    {
        let (i, j, k, l) = match self.find_surface_in_current_window(sid) { Some(x) => x, None => return None };
        let fallback = self.make_surface(None);
        let ti = match pane_position(&self.workspaces[i].windows[j].panes, target_pane_id) { Some(t) => t, None => return None };
        let ghost m1 = self@;
        proof { lemma_first_index(m1.workspaces[i as int].windows[j as int].panes[k as int].surfaces, surf_is(sid)); }
        let moved = remove_surface_from_pane(&mut self.workspaces[i].windows[j].panes[k], l, fallback);
        let ghost ps1 = panes_view(self.workspaces@[i as int].windows@[j as int].panes@);
        let len = self.workspaces[i].windows[j].panes[ti].surfaces.len();
        let at = match index { Some(x) => if x < len { x } else { len }, None => len };
        let ghost before = self.workspaces@[i as int].windows@[j as int].panes@[ti as int].surfaces@;
        self.workspaces[i].windows[j].panes[ti].surfaces.insert(at, moved);
        let cur = self.workspaces[i].windows[j].panes[ti].current_surface_id;
        self.workspaces[i].windows[j].panes[ti].last_surface_id = cur;
        self.workspaces[i].windows[j].panes[ti].current_surface_id = Some(sid);
        proof {
            let r = move_surface(old(self)@, sid, target_pane_id, match index { Some(x) => Some(x as int), None => None }).0;
            assert(surfaces_view(self.workspaces@[i as int].windows@[j as int].panes@[ti as int].surfaces@)
                =~= surfaces_view(before).insert(at as int, moved@));
            assert(self@.workspaces[i as int].windows[j as int].panes =~= r.workspaces[i as int].windows[j as int].panes);
            assert(self@.workspaces[i as int].windows =~= r.workspaces[i as int].windows);
            assert(self@.workspaces =~= r.workspaces);
            let ss = self@.workspaces[i as int].windows[j as int].panes[ti as int].surfaces;
            lemma_first_index(ss, surf_is(sid));
            assert(surf_is(sid)(ss[at as int]));
        }
        let p = &self.workspaces[i].windows[j].panes[ti];
        let f = surface_index(p, sid).unwrap();
        Some(p.surfaces[f].info(p.id))
    }

    /// Moves a surface within its pane; see `reorder_surface`.
    pub fn reorder_surface(&mut self, sid: u64, index: usize) -> (r: Option<SurfaceInfo>)
        ensures
            (final(self)@, surf_info_opt(r)) == reorder_surface(old(self)@, sid, index as int),
    {
        let (i, j, k, from) = match self.find_surface_in_current_window(sid) { Some(x) => x, None => return None };
        let len = self.workspaces[i].windows[j].panes[k].surfaces.len();
        let to0 = if index < len - 1 { index } else { len - 1 };
        let to = if from < to0 { to0 - 1 } else { to0 };
        let ghost before = self.workspaces@[i as int].windows@[j as int].panes@[k as int].surfaces@;
        if from != to {
            let sv = self.workspaces[i].windows[j].panes[k].surfaces.remove(from);
            self.workspaces[i].windows[j].panes[k].surfaces.insert(to, sv);
            proof {
                let bv = surfaces_view(before);
                assert(surfaces_view(self.workspaces@[i as int].windows@[j as int].panes@[k as int].surfaces@)
                    =~= bv.remove(from as int).insert(to as int, bv[from as int]));
            }
        }
        proof {
            let r = reorder_surface(old(self)@, sid, index as int).0;
            assert(self@.workspaces[i as int].windows[j as int].panes =~= r.workspaces[i as int].windows[j as int].panes);
            assert(self@.workspaces[i as int].windows =~= r.workspaces[i as int].windows);
            assert(self@.workspaces =~= r.workspaces);
            let ss = self@.workspaces[i as int].windows[j as int].panes[k as int].surfaces;
            lemma_first_index(old(self)@.workspaces[i as int].windows[j as int].panes[k as int].surfaces, surf_is(sid));
            lemma_first_index(ss, surf_is(sid));
            assert(surf_is(sid)(ss[to as int]));
        }
        let p = &self.workspaces[i].windows[j].panes[k];
        let f = surface_index(p, sid).unwrap();
        Some(p.surfaces[f].info(p.id))
    }

    /// Moves a surface into a new pane; see `drag_surface_to_split`.
    pub fn drag_surface_to_split(&mut self, sid: u64, title: Option<String>) -> (r: Option<SurfaceInfo>)
        requires
            has_id_room(old(self)@),
            old(self)@.next_surface_id < u64::MAX - 1,
        ensures
            (final(self)@, surf_info_opt(r)) == drag_surface_to_split(old(self)@, sid, opt_str_view(title)),
    {
        let new_pane = self.make_pane(title);
        let new_id = new_pane.id;
        let (i, j) = match self.focused_window_idx() { Some(p) => p, None => return None };
        let ghost before = self.workspaces@[i as int].windows@[j as int].panes@;
        self.workspaces[i].windows[j].panes.push(new_pane);
        let cur = self.workspaces[i].windows[j].current_pane_id;
        self.workspaces[i].windows[j].last_pane_id = cur;
        self.workspaces[i].windows[j].current_pane_id = Some(new_id);
        proof {
            let m = old(self)@;
            let m1 = ControlV {
                next_pane_id: (m.next_pane_id + 1) as u64,
                next_surface_id: (m.next_surface_id + 1) as u64,
                ..m
            };
            let win = m.workspaces[i as int].windows[j as int];
            let win2 = WindowV {
                panes: win.panes.push(new_pane@),
                last_pane_id: win.current_pane_id,
                current_pane_id: Some(new_id),
                ..win
            };
            let r = set_window(m1, i as int, j as int, win2);
            assert(panes_view(self.workspaces@[i as int].windows@[j as int].panes@) =~= panes_view(before).push(new_pane@));
            assert(self@.workspaces[i as int].windows =~= r.workspaces[i as int].windows);
            assert(self@.workspaces =~= r.workspaces);
        }
        self.move_surface(sid, new_id, Some(0))
    }
}


// ---------------------------------------------------------------------------
// Notifications raised and cleared
// ---------------------------------------------------------------------------

fn join_message(t: &String, st: &String, b: &String) -> (r: String)
    ensures
        r@ == notification_message(t@, st@, b@),
{
    let mut out = String::new();
    let mut count: usize = 0;
    let ghost parts = seq![t@, st@, b@];
    let ghost keep = |p: Seq<char>| p.len() > 0;
    proof {
        broadcast use group_seq_properties;
        assert(seq![t@].filter(keep) == if t@.len() > 0 { seq![t@] } else { Seq::<Seq<char>>::empty() }) by {
            Seq::<Seq<char>>::empty().lemma_filter_push(t@, keep);
            assert(Seq::<Seq<char>>::empty().push(t@) =~= seq![t@]);
            assert(Seq::<Seq<char>>::empty().filter(keep) =~= Seq::<Seq<char>>::empty()) by {
                reveal(Seq::filter);
            }
        }
        seq![t@].lemma_filter_push(st@, keep);
        assert(seq![t@].push(st@) =~= seq![t@, st@]);
        seq![t@, st@].lemma_filter_push(b@, keep);
        assert(seq![t@, st@].push(b@) =~= parts);
    }
    if t.as_str().unicode_len() > 0 {
        out.append(t.as_str());
        count = 1;
    }
    if st.as_str().unicode_len() > 0 {
        if count > 0 {
            out.append(" ");
        }
        out.append(st.as_str());
        count = count + 1;
    }
    if b.as_str().unicode_len() > 0 {
        if count > 0 {
            out.append(" ");
        }
        out.append(b.as_str());
    }
    proof {
        reveal_strlit(" ");
        assert(" "@ =~= space());
        let f = parts.filter(keep);
        if t@.len() > 0 && st@.len() > 0 && b@.len() > 0 {
            assert(out@ =~= f[0] + space() + f[1] + space() + f[2]);
        } else if t@.len() > 0 && st@.len() > 0 {
            assert(out@ =~= f[0] + space() + f[1]);
        } else if t@.len() > 0 && b@.len() > 0 {
            assert(out@ =~= f[0] + space() + f[1]);
        } else if st@.len() > 0 && b@.len() > 0 {
            assert(out@ =~= f[0] + space() + f[1]);
        } else if t@.len() > 0 || st@.len() > 0 || b@.len() > 0 {
            assert(out@ =~= f[0]);
        } else {
            assert(out@ =~= Seq::<char>::empty());
        }
    }
    out
}

impl ControlState {
    /// Raises a notification; see `create_notification`.
    pub fn create_notification(
        &mut self,
        title: String,
        subtitle: String,
        body: String,
        surface_id: Option<u64>,
        workspace_id: Option<u64>,
    ) -> (r: Option<NotificationInfo>)
        requires
            old(self)@.next_notification_id < u64::MAX,
        ensures
            ({
                let (m2, n) = create_notification(old(self)@, title@, subtitle@, body@, surface_id, workspace_id);
                &&& final(self)@ == m2
                &&& match r { Some(x) => n == Some(x@), None => n is None }
            }),
    {
        let message = join_message(&title, &subtitle, &body);
        if self.app_is_active() {
            if surface_id.is_none() {
                return None;
            }
            if let Some((_, _, _, f)) = self.focused_handles() {
                if opt_is(surface_id, f) {
                    return None;
                }
            }
        }
        let id = self.next_notification_id;
        self.next_notification_id = self.next_notification_id + 1;
        let n = NotificationInfo {
            id,
            message,
            title,
            subtitle,
            body,
            surface_id,
            workspace_id,
            unread: true,
        };
        let copy = copy_notification(&n);
        self.notifications = vec![n];
        proof { assert(notes_view(self.notifications@) =~= seq![copy@]); }
        Some(copy)
    }

    /// Drops one notification or all of them; returns those left.
    pub fn clear_notification(&mut self, id: Option<u64>) -> (r: Vec<NotificationInfo>)
        ensures
            (final(self)@, notes_view(r@)) == clear_notification(old(self)@, id),
    {
        match id {
            Some(target) => {
                let ghost ns = old(self)@.notifications;
                let mut kept: Vec<NotificationInfo> = Vec::new();
                let mut i: usize = 0;
                while i < self.notifications.len()
                    invariant
                        i <= self.notifications.len(),
                        ns == self@.notifications,
                        self@ == old(self)@,
                        notes_view(kept@) == ns.take(i as int).filter(id_is_not(target)),
                    decreases self.notifications.len() - i,
                {
                    proof {
                        assert(ns.take(i + 1) =~= ns.take(i as int).push(ns[i as int]));
                        ns.take(i as int).lemma_filter_push(ns[i as int], id_is_not(target));
                    }
                    if self.notifications[i].id != target {
                        kept.push(copy_notification(&self.notifications[i]));
                    }
                    proof { assert(notes_view(kept@) =~= ns.take(i + 1).filter(id_is_not(target))); }
                    i = i + 1;
                }
                proof { assert(ns.take(ns.len() as int) =~= ns); }
                let mut out: Vec<NotificationInfo> = Vec::new();
                let mut k: usize = 0;
                while k < kept.len()
                    invariant
                        k <= kept.len(),
                        notes_view(out@) == notes_view(kept@).take(k as int),
                    decreases kept.len() - k,
                {
                    let c = copy_notification(&kept[k]);
                    let ghost before = out@;
                    out.push(c);
                    proof {
                        assert(notes_view(out@) =~= notes_view(before).push(c@));
                        assert(notes_view(out@) =~= notes_view(kept@).take(k + 1));
                    }
                    k = k + 1;
                }
                proof { assert(notes_view(kept@).take(k as int) =~= notes_view(kept@)); }
                self.notifications = kept;
                out
            },
            None => {
                self.notifications = Vec::new();
                proof { assert(notes_view(self.notifications@) =~= Seq::<NotificationV>::empty()); }
                Vec::new()
            },
        }
    }

    /// Copies of the current notifications.
    pub fn list_notifications(&self) -> (r: Vec<NotificationInfo>)
        ensures
            notes_view(r@) == self@.notifications,
    {
        let mut out: Vec<NotificationInfo> = Vec::new();
        let mut k: usize = 0;
        while k < self.notifications.len()
            invariant
                k <= self.notifications.len(),
                notes_view(out@) == self@.notifications.take(k as int),
            decreases self.notifications.len() - k,
        {
            let c = copy_notification(&self.notifications[k]);
            let ghost before = out@;
            out.push(c);
            proof {
                assert(notes_view(out@) =~= notes_view(before).push(c@));
                assert(notes_view(out@) =~= self@.notifications.take(k + 1));
            }
            k = k + 1;
        }
        proof { assert(self@.notifications.take(k as int) =~= self@.notifications); }
        out
    }

    /// Whether the sidebar of a window is shown (the default when never set).
    pub fn sidebar_visible_for_window(&self, window_id: u64) -> (r: bool)
        ensures
            r == sidebar_visible(self@, window_id),
    {
        match self.sidebar_visibility_by_window.get(&window_id) {
            Some(v) => *v,
            None => self.debug_sidebar_visible,
        }
    }

    /// Flips whether the sidebar of a window is shown.
    pub fn toggle_sidebar_for_window(&mut self, window_id: u64) -> (r: bool)
        ensures
            (final(self)@, r) == toggle_sidebar(old(self)@, window_id),
    {
        let next = !self.sidebar_visible_for_window(window_id);
        self.sidebar_visibility_by_window.insert(window_id, next);
        next
    }
}


// ---------------------------------------------------------------------------
// The simulated shell of terminal surfaces
// ---------------------------------------------------------------------------

/// `path` with a leading `~` replaced by `home`; see `expand_home`.
pub fn shell_expand_home(path: &str, home: Option<&str>) -> (r: String)
    ensures
        r@ == expand_home(path@, str_opt(home)),
{
    proof { reveal_strlit("~"); reveal_strlit("~/"); reveal_strlit("/"); }
    if str_eq(path, "~") {
        return match home { Some(h) => String::from_str(h), None => String::from_str(path) };
    }
    match strip_prefix(path, "~/") {
        Some(rest) => match home {
            Some(h) => {
                let mut out = String::from_str(h);
                out.append("/");
                out.append(rest);
                proof { assert(out@ =~= h@ + "/"@ + path@.skip(2)); }
                out
            },
            None => String::from_str(path),
        },
        None => String::from_str(path),
    }
}

/// The text between the first `start` and the next `end` after it.
pub fn between<'a>(source: &'a str, start: &str, end: &str) -> (r: Option<&'a str>)
    ensures
        str_opt(r) == text_between(source@, start@, end@),
{
    let (_, rest) = match str_split_once(source, start) { Some(p) => p, None => return None };
    let (value, _) = match str_split_once(rest, end) { Some(p) => p, None => return None };
    Some(value)
}

/// The payload of an OSC 99 sequence in a command line; see `osc_payload`.
pub fn extract_osc99_payload(command: &str, prefix: &str) -> (r: Option<String>)
    ensures
        opt_str_view(r) == osc_payload(command@, prefix@),
{
    let (_, rest) = match str_split_once(command, prefix) { Some(p) => p, None => return None };
    let payload = match str_split_once(rest, "\\x1b\\") {
        Some((v, _)) => v,
        None => match str_split_once(rest, "\\x1b\\\\") {
            Some((v, _)) => v,
            None => match str_split_once(rest, "'") {
                Some((v, _)) => v,
                None => rest,
            },
        },
    };
    Some(String::from_str(trim_str(payload)))
}

/// Reads a line submitted to the shell of `surface`; see `parse_line`.
fn parse_terminal_line(surface: &mut SurfaceState, line: &str) -> (r: Option<TerminalAction>)
    ensures
        final(surface)@ == (SurfaceV { terminal_mode: parse_line(old(surface)@.terminal_mode, line@).0, ..old(surface)@ }),
        action_opt(r) == parse_line(old(surface)@.terminal_mode, line@).1,
{
    proof { reveal_strlit("sleep "); reveal_strlit("cd "); }
    let trimmed = trim_str(line);
    if trimmed.unicode_len() == 0 {
        return None;
    }
    if str_eq(trimmed, "cat") {
        surface.terminal_mode = TerminalMode::Cat;
        return None;
    }
    if let Some(rest) = strip_prefix(trimmed, "sleep ") {
        if let Some(seconds) = str_parse_u64(trim_str(rest)) {
            if seconds > 0 {
                surface.terminal_mode = TerminalMode::Sleeping;
                return None;
            }
        }
    }
    if str_starts_with(trimmed, "python3 -c") && str_contains(trimmed, "iter(int, 1)")
        && str_contains(trimmed, "time.sleep") {
        surface.terminal_mode = TerminalMode::PythonLoop;
        return None;
    }
    if let Some(path) = strip_prefix(trimmed, "cd ") {
        let candidate = trim_str(path);
        if candidate.unicode_len() > 0 {
            return Some(TerminalAction::SetCwd(String::from_str(candidate)));
        }
    }
    Some(TerminalAction::RunCommand(String::from_str(line)))
}

/// Feeds typed text to the shell of an idle terminal surface and collects what
/// the submitted lines ask for; see `feed`.
fn collect_terminal_actions(surface: &mut SurfaceState, text: &str) -> (r: Vec<TerminalAction>)
    ensures
        ({
            let s = old(surface)@;
            if s.panel_type != terminal_type() || s.terminal_mode != TerminalMode::Idle {
                final(surface)@ == s && r@.len() == 0
            } else {
                let (mode, input, acts) = feed(s.terminal_mode, s.shell_input, text@);
                &&& final(surface)@ == (SurfaceV { terminal_mode: mode, shell_input: input, ..s })
                &&& actions_view(r@) == acts
            }
        }),
{
    let mut actions: Vec<TerminalAction> = Vec::new();
    proof { reveal_strlit("terminal"); assert("terminal"@ =~= terminal_type()); }
    if !str_eq(surface.panel_type.as_str(), "terminal") {
        return actions;
    }
    if surface.terminal_mode != TerminalMode::Idle {
        return actions;
    }
    let ghost s0 = old(surface)@;
    let ghost g = feed(s0.terminal_mode, s0.shell_input, text@);
    let n = text.unicode_len();
    let mut i: usize = 0;
    proof {
        assert(text@.skip(0) =~= text@);
        assert(actions_view(actions@) + g.2 =~= g.2);
    }
    while i < n
        invariant_except_break
            surface.terminal_mode == TerminalMode::Idle,
            g == ({
                let (m2, in2, rest) = feed(TerminalMode::Idle, surface@.shell_input, text@.skip(i as int));
                (m2, in2, actions_view(actions@) + rest)
            }),
        invariant
            n == text@.len(),
            i <= n,
            s0 == old(surface)@,
            g == feed(s0.terminal_mode, s0.shell_input, text@),
            surface@ == (SurfaceV { terminal_mode: surface@.terminal_mode, shell_input: surface@.shell_input, ..s0 }),
        ensures
            g == (surface@.terminal_mode, surface@.shell_input, actions_view(actions@)),
        decreases n - i,
    {
        let ch = text.get_char(i);
        let ghost rest = text@.skip(i as int);
        proof {
            assert(rest[0] == ch);
            assert(rest.drop_first() =~= text@.skip(i + 1));
        }
        if ch == '\n' || ch == '\r' {
            let mut line = String::new();
            std::mem::swap(&mut line, &mut surface.shell_input);
            let ghost before = actions@;
            let act = parse_terminal_line(surface, line.as_str());
            match act {
                Some(a) => {
                    actions.push(a);
                    proof { assert(actions_view(actions@) =~= actions_view(before).push(a@)); }
                },
                None => {
                    proof { assert(actions_view(actions@) =~= actions_view(before)); }
                },
            }
            proof {
                let (mode1, a1) = parse_line(TerminalMode::Idle, line@);
                let acts = match a1 { Some(a) => seq![a], None => Seq::<TerminalActionV>::empty() };
                assert(actions_view(actions@) =~= actions_view(before) + acts);
                if mode1 == TerminalMode::Idle {
                    let (m2, in2, tail) = feed(mode1, Seq::empty(), text@.skip(i + 1));
                    assert(actions_view(before) + (acts + tail) =~= actions_view(actions@) + tail);
                } else {
                    assert(actions_view(before) + acts =~= actions_view(actions@));
                }
            }
            if surface.terminal_mode != TerminalMode::Idle {
                break;
            }
        } else {
            push_char(&mut surface.shell_input, ch);
        }
        i = i + 1;
    }
    proof {
        if i == n {
            assert(text@.skip(i as int) =~= Seq::<char>::empty());
            assert(actions_view(actions@) + Seq::<TerminalActionV>::empty() =~= actions_view(actions@));
        }
    }
    actions
}

pub open spec fn action_opt(o: Option<TerminalAction>) -> Option<TerminalActionV> {
    match o {
        Some(a) => Some(a@),
        None => None,
    }
}

/// Presses a control key in the shell of `surface`; see `press_key`.
fn handle_terminal_key(surface: &mut SurfaceState, key: &str) -> (r: KeyOutcome)
    ensures
        (final(surface)@, r) == press_key(old(surface)@, key@),
{
    proof { reveal_strlit("terminal"); assert("terminal"@ =~= terminal_type()); }
    if !str_eq(surface.panel_type.as_str(), "terminal") {
        return KeyOutcome::Unhandled;
    }
    let key_norm = to_ascii_lowercase(trim_str(key));
    if str_eq(key_norm.as_str(), "ctrl-c") {
        surface.terminal_mode = TerminalMode::Idle;
        surface.shell_input = String::new();
        KeyOutcome::Handled
    } else if str_eq(key_norm.as_str(), "ctrl-d") {
        if surface.terminal_mode == TerminalMode::Cat {
            surface.terminal_mode = TerminalMode::Idle;
            return KeyOutcome::Handled;
        }
        if surface.terminal_mode == TerminalMode::Idle && surface.shell_input.unicode_len() == 0 {
            return KeyOutcome::RequestClose;
        }
        KeyOutcome::Handled
    } else {
        KeyOutcome::Unhandled
    }
}


/// Types text into `surface`; see `type_text`.
fn type_into_surface(surface: &mut SurfaceState, text: &str) -> (r: Vec<TerminalAction>)
    ensures
        (final(surface)@, actions_view(r@)) == type_text(old(surface)@, text@),
{
    surface.text.append(text);
    surface.unread = true;
    collect_terminal_actions(surface, text)
}

/// Presses a key in `surface`, recording a key its shell does not handle.
fn press_into_surface(surface: &mut SurfaceState, key: &str) -> (r: KeyOutcome)
    ensures
        ({
            let (s1, out) = press_key(old(surface)@, key@);
            &&& r == out
            &&& final(surface)@ == match out {
                KeyOutcome::Unhandled => SurfaceV { text: s1.text + key_marker(key@), unread: true, ..s1 },
                _ => s1,
            }
        }),
{
    let out = handle_terminal_key(surface, key);
    if let KeyOutcome::Unhandled = out {
        proof { reveal_strlit("<key:"); reveal_strlit(">"); }
        let ghost before = surface.text@;
        surface.text.append("<key:");
        surface.text.append(key);
        surface.text.append(">");
        proof { assert(surface.text@ =~= before + key_marker(key@)); }
        surface.unread = true;
    }
    out
}

pub open spec fn sent_view(r: Option<(SurfaceInfo, Vec<ShellRun>)>) -> Option<(SurfaceInfoV, Seq<ShellRunV>)> {
    match r {
        Some((i, v)) => Some((i@, runs_view(v@))),
        None => None,
    }
}

impl ControlState {
    /// Raises the notification that a command's escape sequence asks for; see `emit_osc`.
    pub fn maybe_emit_osc_notification(&mut self, workspace_id: u64, surface_id: u64, command: &str)
        requires
            old(self)@.next_notification_id < u64::MAX,
        ensures
            final(self)@ == emit_osc(old(self)@, workspace_id, surface_id, command@),
    {
        if let Some(title) = extract_osc99_payload(command, "\\x1b]99;;") {
            let _ = self.create_notification(title, String::new(), String::new(), Some(surface_id), Some(workspace_id));
            return;
        }
        if let Some(title) = extract_osc99_payload(command, "\\x1b]99;i=kitty:d=0:p=title;") {
            let body = match self.kitty_notification_chunks.get(&surface_id) {
                Some(e) => match &e.1 {
                    Some(b) => Some(b.clone()),
                    None => None,
                },
                None => None,
            };
            let ghost t = title@;
            let ghost b = opt_str_view(body);
            self.kitty_notification_chunks.insert(surface_id, (Some(title), body));
            proof {
                let m = old(self)@;
                let e = if m.kitty_chunks.contains_key(surface_id) { m.kitty_chunks[surface_id] } else { (None, None) };
                assert(b == e.1);
                assert(kitty_view(self.kitty_notification_chunks@) =~= m.kitty_chunks.insert(surface_id, (Some(t), b)));
            }
            return;
        }
        if let Some(body) = extract_osc99_payload(command, "\\x1b]99;i=kitty:p=body;") {
            let entry = self.kitty_notification_chunks.remove(&surface_id);
            let title = match entry {
                Some((Some(t), _)) => t,
                _ => String::new(),
            };
            proof {
                assert(kitty_view(self.kitty_notification_chunks@) =~= kitty_view(old(self).kitty_notification_chunks@).remove(surface_id));
            }
            let _ = self.create_notification(title, String::new(), body, Some(surface_id), Some(workspace_id));
            return;
        }
        if let Some(payload) = between(command, "\\x1b]777;notify;", "\\x07") {
            let (t, b) = match str_split_once(payload, ";") {
                Some((a, rest)) => (String::from_str(trim_str(a)), String::from_str(trim_str(rest))),
                None => (String::from_str(trim_str(payload)), String::new()),
            };
            let _ = self.create_notification(t, String::new(), b, Some(surface_id), Some(workspace_id));
        }
    }

    /// Types text into a surface of a workspace and carries out what its shell
    /// asks for; see `send_text`. The commands for the host to run come back in
    /// order, each with the directory it runs in.
    pub fn apply_surface_text_input(
        &mut self,
        workspace_id: u64,
        surface_id: u64,
        text: &str,
        home: Option<&str>,
    ) -> (r: Option<(SurfaceInfo, Vec<ShellRun>)>)
        requires
            old(self)@.next_notification_id + text@.len() <= u64::MAX,
        ensures
            (final(self)@, sent_view(r)) == send_text(old(self)@, workspace_id, surface_id, text@, str_opt(home)),
    {
        let (i, j, k, l) = match self.find_surface_in_workspace(workspace_id, surface_id) {
            Some(x) => x,
            None => return None,
        };
        let actions = type_into_surface(&mut self.workspaces[i].windows[j].panes[k].surfaces[l], text);
        let ghost m = old(self)@;
        let ghost p = m.workspaces[i as int].windows[j as int].panes[k as int];
        let ghost s1 = SurfaceV { text: p.surfaces[l as int].text + text@, unread: true, ..p.surfaces[l as int] };
        proof {
            let r = set_surface(m, i as int, j as int, k as int, l as int, type_text(p.surfaces[l as int], text@).0);
            assert(self@.workspaces[i as int].windows[j as int].panes[k as int].surfaces =~= r.workspaces[i as int].windows[j as int].panes[k as int].surfaces);
            assert(self@.workspaces[i as int].windows[j as int].panes =~= r.workspaces[i as int].windows[j as int].panes);
            assert(self@.workspaces[i as int].windows =~= r.workspaces[i as int].windows);
            assert(self@.workspaces =~= r.workspaces);
            lemma_feed_len(s1.terminal_mode, s1.shell_input, text@);
        }
        let pid = self.workspaces[i].windows[j].panes[k].id;
        let info = self.workspaces[i].windows[j].panes[k].surfaces[l].info(pid);
        let ghost m1 = self@;
        let ghost acts = actions_view(actions@);
        let ghost hv = str_opt(home);
        let mut runs: Vec<ShellRun> = Vec::new();
        let mut idx: usize = 0;
        proof { assert(acts.take(0) =~= Seq::<TerminalActionV>::empty()); assert(runs_view(runs@) =~= Seq::<ShellRunV>::empty()); }
        while idx < actions.len()
            invariant
                idx <= actions.len(),
                acts == actions_view(actions@),
                hv == str_opt(home),
                m1.next_notification_id + acts.len() <= u64::MAX,
                (self@, runs_view(runs@)) == run_actions(m1, workspace_id, surface_id, acts.take(idx as int), hv),
            decreases actions.len() - idx,
        {
            proof {
                assert(acts.take(idx + 1).drop_last() =~= acts.take(idx as int));
                assert(acts.take(idx + 1).last() == actions@[idx as int]@);
                lemma_run_actions_ids(m1, workspace_id, surface_id, acts.take(idx as int), hv);
            }
            match &actions[idx] {
                TerminalAction::SetCwd(path) => {
                    let _ = self.set_workspace_cwd(workspace_id, Some(shell_expand_home(path.as_str(), home)));
                },
                TerminalAction::RunCommand(command) => {
                    self.maybe_emit_osc_notification(workspace_id, surface_id, command.as_str());
                    let cwd = match self.workspace_cwd(workspace_id) {
                        Some(d) => Some(shell_expand_home(d.as_str(), home)),
                        None => None,
                    };
                    let ghost before = runs@;
                    let run = ShellRun { command: command.clone(), cwd, surface_id };
                    runs.push(run);
                    proof { assert(runs_view(runs@) =~= runs_view(before).push(run@)); }
                },
            }
            idx = idx + 1;
        }
        proof { assert(acts.take(idx as int) =~= acts); }
        Some((info, runs))
    }

    /// Sends a key to a surface of a workspace; see `send_key`.
    pub fn apply_surface_key_input(&mut self, workspace_id: u64, surface_id: u64, key: &str) -> (r: Option<SurfaceInfo>)
        requires
            has_id_room(old(self)@),
        ensures
            (final(self)@, surf_info_opt(r)) == send_key(old(self)@, workspace_id, surface_id, key@),
    {
        let (i, j, k, l) = match self.find_surface_in_workspace(workspace_id, surface_id) {
            Some(x) => x,
            None => return None,
        };
        let out = press_into_surface(&mut self.workspaces[i].windows[j].panes[k].surfaces[l], key);
        proof {
            let m = old(self)@;
            let p = m.workspaces[i as int].windows[j as int].panes[k as int];
            let r = set_surface(m, i as int, j as int, k as int, l as int, self@.workspaces[i as int].windows[j as int].panes[k as int].surfaces[l as int]);
            assert(self@.workspaces[i as int].windows[j as int].panes[k as int].surfaces =~= r.workspaces[i as int].windows[j as int].panes[k as int].surfaces);
            assert(self@.workspaces[i as int].windows[j as int].panes =~= r.workspaces[i as int].windows[j as int].panes);
            assert(self@.workspaces[i as int].windows =~= r.workspaces[i as int].windows);
            assert(self@.workspaces =~= r.workspaces);
        }
        if let KeyOutcome::RequestClose = out {
            return self.close_surface(Some(surface_id));
        }
        let pid = self.workspaces[i].windows[j].panes[k].id;
        Some(self.workspaces[i].windows[j].panes[k].surfaces[l].info(pid))
    }
}


impl ControlState {
    /// Sets the app's focus override; the simulated activity follows it.
    pub fn set_focus_override(&mut self, enabled: bool)
        ensures
            final(self)@ == (ControlV { app_focus_override: enabled, app_simulate_active: enabled, ..old(self)@ }),
    {
        self.app_focus_override = enabled;
        self.app_simulate_active = enabled;
    }

    /// Sets whether the app counts as active.
    pub fn set_simulate_active(&mut self, active: bool)
        ensures
            final(self)@ == (ControlV { app_simulate_active: active, ..old(self)@ }),
    {
        self.app_simulate_active = active;
    }

    /// The total of flashes counted.
    pub fn debug_flash_count(&self) -> (r: u64)
        ensures
            r == self@.debug_flash_count,
    {
        self.debug_flash_count
    }

    /// The width and height a pane has been resized by; nothing when never.
    pub fn size_override(&self, pane_id: u64) -> (r: (i64, i64))
        ensures
            r == (if self@.size_overrides.contains_key(pane_id) { self@.size_overrides[pane_id] } else { (0i64, 0i64) }),
    {
        match self.pane_size_overrides.get(&pane_id) {
            Some(v) => *v,
            None => (0i64, 0i64),
        }
    }

    /// The text a surface had at its last panel snapshot, if any.
    pub fn panel_baseline(&self, sid: u64) -> (r: Option<String>)
        ensures
            opt_str_view(r) == (if self@.panel_baselines.contains_key(sid) { Some(self@.panel_baselines[sid]) } else { None }),
    {
        match self.panel_snapshot_baselines.get(&sid) {
            Some(t) => Some(t.clone()),
            None => None,
        }
    }

    /// Records a surface's text as its panel snapshot baseline.
    pub fn set_panel_baseline(&mut self, sid: u64, text: String)
        ensures
            final(self)@ == (ControlV { panel_baselines: old(self)@.panel_baselines.insert(sid, text@), ..old(self)@ }),
    {
        self.panel_snapshot_baselines.insert(sid, text);
        proof {
            assert(baselines_view(self.panel_snapshot_baselines@) =~= old(self)@.panel_baselines.insert(sid, text@));
        }
    }

    /// Hands out the next window screenshot id (the counter saturates).
    pub fn take_snapshot_id(&mut self) -> (r: u64)
        ensures
            r == old(self)@.next_snapshot_id,
            final(self)@ == (ControlV { next_snapshot_id: sat_inc(old(self)@.next_snapshot_id), ..old(self)@ }),
    {
        let id = self.next_snapshot_id;
        self.next_snapshot_id = self.next_snapshot_id.saturating_add(1);
        id
    }

    /// Counts one more flash in the debug counter (saturating).
    pub fn bump_debug_flash_count(&mut self)
        ensures
            final(self)@ == (ControlV { debug_flash_count: sat_inc(old(self)@.debug_flash_count), ..old(self)@ }),
    {
        self.debug_flash_count = self.debug_flash_count.saturating_add(1);
    }

    /// Id of the selected workspace.
    pub fn current_workspace_id(&self) -> (r: u64)
        ensures
            r == self@.current_workspace_id,
    {
        self.current_workspace_id
    }

    /// Position of the first workspace with this id.
    pub fn workspace_index(&self, id: u64) -> (r: Option<usize>)
        ensures
            match r {
                Some(i) => i as int == first_index(self@.workspaces, ws_is(id)),
                None => first_index(self@.workspaces, ws_is(id)) < 0,
            },
            self@.workspaces.len() <= usize::MAX,
    {
        let _ = self.workspaces.len();
        workspace_position(&self.workspaces, id)
    }

    /// Position of a surface of the focused window within its pane.
    pub fn surface_index_in_current_window(&self, sid: u64) -> (r: Option<usize>)
        ensures
            match find_in_focused_window(self@, sid) {
                Some((_, _, _, l)) => r == Some(l as usize) && 0 <= l < usize::MAX,
                None => r is None,
            },
    {
        match self.find_surface_in_current_window(sid) {
            Some((_, _, _, l)) => Some(l),
            None => None,
        }
    }

    /// Whether every id counter can still be advanced.
    pub fn has_id_room(&self) -> (r: bool)
        ensures
            r == has_id_room(self@),
    {
        self.next_workspace_id < u64::MAX && self.next_window_id < u64::MAX && self.next_pane_id < u64::MAX
            && self.next_surface_id < u64::MAX && self.next_notification_id < u64::MAX
    }

    /// The id the next surface gets.
    pub fn next_surface_id(&self) -> (r: u64)
        ensures
            r == self@.next_surface_id,
    {
        self.next_surface_id
    }

    /// Whether opening a rename selects the whole name.
    pub fn rename_select_all(&self) -> (r: bool)
        ensures
            r == self@.rename_select_all,
    {
        self.rename_input_select_all
    }

    /// Sets whether opening a rename selects the whole name.
    pub fn set_rename_select_all(&mut self, enabled: bool)
        ensures
            final(self)@ == (ControlV { rename_select_all: enabled, ..old(self)@ }),
    {
        self.rename_input_select_all = enabled;
    }

    /// The id the next notification gets.
    pub fn next_notification_id(&self) -> (r: u64)
        ensures
            r == self@.next_notification_id,
    {
        self.next_notification_id
    }
}

} // verus!

verus! {

fn surface_rows_into(out: &mut Vec<PaletteRow>, w: &WorkspaceState, p: &PaneState, nq: &str)
    ensures
        rows_view(final(out)@) == rows_view(old(out)@) + surface_switch_rows(w@, p@.surfaces, nq@),
{
    let ghost base = rows_view(out@);
    let ghost wv = w@;
    let ghost sv = p@.surfaces;
    let mut l: usize = 0;
    proof { assert(sv.take(0) =~= Seq::<SurfaceV>::empty()); assert(rows_view(out@) =~= base + surface_switch_rows(wv, sv.take(0), nq@)); }
    while l < p.surfaces.len()
        invariant
            l <= p.surfaces.len(),
            wv == w@,
            sv == p@.surfaces,
            sv.len() == p.surfaces.len(),
            rows_view(out@) == base + surface_switch_rows(wv, sv.take(l as int), nq@),
        decreases p.surfaces.len() - l,
    {
        let s = &p.surfaces[l];
        let ghost before = rows_view(out@);
        proof {
            assert(sv[l as int] == s@);
            assert(sv.take(l + 1).drop_last() =~= sv.take(l as int));
            assert(sv.take(l + 1).last() == s@);
        }
        let row = surface_switch_row_for(w.id, &w.name, w.host_window_id, s.id, &s.title, &s.text, nq);
        proof { assert(surface_switch_row(wv, s@, nq@) == surface_switch_row(wv, s@, nq@)); }
        match row {
            Some(r) => {
                out.push(r);
                proof { assert(rows_view(out@) =~= before + opt_seq(surface_switch_row(wv, s@, nq@))); }
            },
            None => {
                proof { assert(rows_view(out@) =~= before + opt_seq(surface_switch_row(wv, s@, nq@))); }
            },
        }
        l = l + 1;
    }
    proof { assert(sv.take(l as int) =~= sv); }
}

fn pane_rows_into(out: &mut Vec<PaletteRow>, w: &WorkspaceState, win: &WindowState, nq: &str)
    ensures
        rows_view(final(out)@) == rows_view(old(out)@) + pane_switch_rows(w@, win@.panes, nq@),
{
    let ghost base = rows_view(out@);
    let ghost wv = w@;
    let ghost pv = win@.panes;
    let mut k: usize = 0;
    proof { assert(pv.take(0) =~= Seq::<PaneV>::empty()); assert(rows_view(out@) =~= base + pane_switch_rows(wv, pv.take(0), nq@)); }
    while k < win.panes.len()
        invariant
            k <= win.panes.len(),
            wv == w@,
            pv == win@.panes,
            pv.len() == win.panes.len(),
            rows_view(out@) == base + pane_switch_rows(wv, pv.take(k as int), nq@),
        decreases win.panes.len() - k,
    {
        let p = &win.panes[k];
        let ghost before = rows_view(out@);
        proof {
            assert(pv[k as int] == p@);
            assert(pv.take(k + 1).drop_last() =~= pv.take(k as int));
            assert(pv.take(k + 1).last() == p@);
        }
        surface_rows_into(out, w, p, nq);
        proof { assert(rows_view(out@) =~= before + surface_switch_rows(wv, p@.surfaces, nq@)); }
        k = k + 1;
    }
    proof { assert(pv.take(k as int) =~= pv); }
}

fn window_rows_into(out: &mut Vec<PaletteRow>, w: &WorkspaceState, nq: &str)
    ensures
        rows_view(final(out)@) == rows_view(old(out)@) + window_switch_rows(w@, w@.windows, nq@),
{
    let ghost base = rows_view(out@);
    let ghost wv = w@;
    let ghost ws = w@.windows;
    let mut j: usize = 0;
    proof { assert(ws.take(0) =~= Seq::<WindowV>::empty()); assert(rows_view(out@) =~= base + window_switch_rows(wv, ws.take(0), nq@)); }
    while j < w.windows.len()
        invariant
            j <= w.windows.len(),
            wv == w@,
            ws == w@.windows,
            ws.len() == w.windows.len(),
            rows_view(out@) == base + window_switch_rows(wv, ws.take(j as int), nq@),
        decreases w.windows.len() - j,
    {
        let win = &w.windows[j];
        let ghost before = rows_view(out@);
        proof {
            assert(ws[j as int] == win@);
            assert(ws.take(j + 1).drop_last() =~= ws.take(j as int));
            assert(ws.take(j + 1).last() == win@);
        }
        pane_rows_into(out, w, win, nq);
        proof { assert(rows_view(out@) =~= before + pane_switch_rows(wv, win@.panes, nq@)); }
        j = j + 1;
    }
    proof { assert(ws.take(j as int) =~= ws); }
}

impl ControlState {
    /// The switcher's rows for a trimmed, lowercased query, before sorting:
    /// each workspace's row, then those of its surfaces.
    pub fn switch_rows(&self, nq: &str) -> (r: Vec<PaletteRow>)
        ensures
            rows_view(r@) == all_switch_rows(self@.workspaces, nq@),
    {
        let ghost wss = self@.workspaces;
        let mut out: Vec<PaletteRow> = Vec::new();
        let mut i: usize = 0;
        proof { assert(wss.take(0) =~= Seq::<WorkspaceV>::empty()); assert(rows_view(out@) =~= all_switch_rows(wss.take(0), nq@)); }
        while i < self.workspaces.len()
            invariant
                i <= self.workspaces.len(),
                wss == self@.workspaces,
                wss.len() == self.workspaces.len(),
                rows_view(out@) == all_switch_rows(wss.take(i as int), nq@),
            decreases self.workspaces.len() - i,
        {
            let w = &self.workspaces[i];
            let ghost before = rows_view(out@);
            proof {
                assert(wss[i as int] == w@);
                assert(wss.take(i + 1).drop_last() =~= wss.take(i as int));
                assert(wss.take(i + 1).last() == w@);
            }
            let row = workspace_switch_row_for(w.id, &w.name, w.host_window_id, nq);
            match row {
                Some(r) => { out.push(r); },
                None => {},
            }
            proof { assert(rows_view(out@) =~= before + opt_seq(workspace_switch_row(w@, nq@))); }
            window_rows_into(&mut out, w, nq);
            proof { assert(rows_view(out@) =~= before + workspace_switch_rows(w@, nq@)); }
            i = i + 1;
        }
        proof { assert(wss.take(i as int) =~= wss); }
        out
    }

    /// The switcher's rows for a query, in order; see `switcher_rows`.
    pub fn switcher_rows(&self, query: &str) -> (r: Vec<PaletteRow>)
        ensures
            rows_view(r@) == switcher_rows(self@, query@),
    {
        let nq = to_ascii_lowercase(trim_str(query));
        let rows = self.switch_rows(nq.as_str());
        sorted_rows(rows)
    }
}

} // verus!
