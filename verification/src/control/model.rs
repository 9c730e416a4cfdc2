//! Spec-level model of the control plane: lookups by id (first match, as the
//! original searches) and the effect of each operation on `ControlV`.
use vstd::prelude::*;
use super::{
    ControlV, NotificationV, SurfaceEditV, PaneInfo, PaneV, SurfaceInfoV, SurfaceV, TerminalMode, WindowInfoV,
    WindowV, WorkspaceInfoV, WorkspaceV,
};
use crate::seqs::{first_index, lemma_first_index, lemma_first_index_take};
use crate::text::{contains, decimal, parse_u64, split_once, starts_with, trim, ascii_lower};

verus! {

// ---------------------------------------------------------------------------
// Predicates used for lookups
// ---------------------------------------------------------------------------

pub open spec fn ws_is(id: u64) -> spec_fn(WorkspaceV) -> bool {
    |w: WorkspaceV| w.id == id
}

pub open spec fn win_is(id: u64) -> spec_fn(WindowV) -> bool {
    |w: WindowV| w.id == id
}

pub open spec fn pane_is(id: u64) -> spec_fn(PaneV) -> bool {
    |p: PaneV| p.id == id
}

pub open spec fn surf_is(id: u64) -> spec_fn(SurfaceV) -> bool {
    |s: SurfaceV| s.id == id
}

/// The pane holds a surface with this id.
pub open spec fn pane_has(sid: u64) -> spec_fn(PaneV) -> bool {
    |p: PaneV| exists|l: int| 0 <= l < p.surfaces.len() && p.surfaces[l].id == sid
}

/// Some pane of the window holds a surface with this id.
pub open spec fn win_has(sid: u64) -> spec_fn(WindowV) -> bool {
    |w: WindowV| exists|k: int| 0 <= k < w.panes.len() && pane_has(sid)(w.panes[k])
}

/// Some window of the workspace holds a surface with this id.
pub open spec fn ws_has(sid: u64) -> spec_fn(WorkspaceV) -> bool {
    |w: WorkspaceV| exists|j: int| 0 <= j < w.windows.len() && win_has(sid)(w.windows[j])
}

// ---------------------------------------------------------------------------
// Summaries
// ---------------------------------------------------------------------------

pub open spec fn ws_info(w: WorkspaceV) -> WorkspaceInfoV {
    WorkspaceInfoV {
        id: w.id,
        name: w.name,
        host_window_id: w.host_window_id,
        window_count: w.windows.len(),
        current_window_id: w.current_window_id,
    }
}

pub open spec fn win_info(w: WindowV) -> WindowInfoV {
    WindowInfoV {
        id: w.id,
        title: w.title,
        pane_count: w.panes.len(),
        current_pane_id: w.current_pane_id,
    }
}

pub open spec fn pane_info(p: PaneV) -> PaneInfo {
    PaneInfo {
        id: p.id,
        surface_count: p.surfaces.len() as usize,
        current_surface_id: p.current_surface_id,
    }
}

pub open spec fn surf_info(s: SurfaceV, pane_id: u64) -> SurfaceInfoV {
    SurfaceInfoV {
        id: s.id,
        pane_id,
        title: s.title,
        text: s.text,
        panel_type: s.panel_type,
        developer_tools_visible: s.developer_tools_visible,
        pinned: s.pinned,
        unread: s.unread,
        flash_count: s.flash_count,
        refresh_count: s.refresh_count,
    }
}

// ---------------------------------------------------------------------------
// Fresh elements
// ---------------------------------------------------------------------------

pub open spec fn terminal_type() -> Seq<char> {
    seq!['t', 'e', 'r', 'm', 'i', 'n', 'a', 'l']
}

pub open spec fn browser_type() -> Seq<char> {
    seq!['b', 'r', 'o', 'w', 's', 'e', 'r']
}

pub open spec fn or_default_name(name: Option<Seq<char>>, prefix: Seq<char>, id: u64) -> Seq<char> {
    match name {
        Some(n) => n,
        None => prefix + decimal(id as nat),
    }
}

pub open spec fn surface_prefix() -> Seq<char> {
    seq!['s', 'u', 'r', 'f', 'a', 'c', 'e', '-']
}

pub open spec fn window_prefix() -> Seq<char> {
    seq!['w', 'i', 'n', 'd', 'o', 'w', '-']
}

pub open spec fn workspace_prefix() -> Seq<char> {
    seq!['w', 'o', 'r', 'k', 's', 'p', 'a', 'c', 'e', '-']
}

/// A new terminal surface.
pub open spec fn fresh_surface(id: u64, title: Option<Seq<char>>) -> SurfaceV {
    SurfaceV {
        id,
        title: or_default_name(title, surface_prefix(), id),
        text: Seq::empty(),
        shell_input: Seq::empty(),
        terminal_mode: TerminalMode::Idle,
        panel_type: terminal_type(),
        developer_tools_visible: false,
        pinned: false,
        unread: false,
        flash_count: 0,
        refresh_count: 0,
    }
}

/// A new pane holding one new surface.
pub open spec fn fresh_pane(id: u64, surface_id: u64, title: Option<Seq<char>>) -> PaneV {
    PaneV {
        id,
        surfaces: seq![fresh_surface(surface_id, title)],
        current_surface_id: Some(surface_id),
        last_surface_id: None,
    }
}

/// A new window holding one new pane.
pub open spec fn fresh_window(id: u64, pane_id: u64, surface_id: u64, title: Option<Seq<char>>) -> WindowV {
    WindowV {
        id,
        title: or_default_name(title, window_prefix(), id),
        panes: seq![fresh_pane(pane_id, surface_id, None)],
        current_pane_id: Some(pane_id),
        last_pane_id: None,
    }
}

/// A new workspace holding one new window, hosted by window 1.
pub open spec fn fresh_workspace(
    id: u64,
    window_id: u64,
    pane_id: u64,
    surface_id: u64,
    name: Option<Seq<char>>,
) -> WorkspaceV {
    WorkspaceV {
        id,
        name: or_default_name(name, workspace_prefix(), id),
        cwd: None,
        host_window_id: 1,
        windows: seq![fresh_window(window_id, pane_id, surface_id, None)],
        current_window_id: Some(window_id),
        last_window_id: None,
    }
}

// ---------------------------------------------------------------------------
// Nested updates
// ---------------------------------------------------------------------------

pub open spec fn set_window(m: ControlV, wi: int, wj: int, w: WindowV) -> ControlV {
    let ws = m.workspaces[wi];
    ControlV {
        workspaces: m.workspaces.update(wi, WorkspaceV { windows: ws.windows.update(wj, w), ..ws }),
        ..m
    }
}

pub open spec fn set_pane(m: ControlV, wi: int, wj: int, pk: int, p: PaneV) -> ControlV {
    let win = m.workspaces[wi].windows[wj];
    set_window(m, wi, wj, WindowV { panes: win.panes.update(pk, p), ..win })
}

pub open spec fn set_surface(m: ControlV, wi: int, wj: int, pk: int, sl: int, s: SurfaceV) -> ControlV {
    let p = m.workspaces[wi].windows[wj].panes[pk];
    set_pane(m, wi, wj, pk, PaneV { surfaces: p.surfaces.update(sl, s), ..p })
}

// ---------------------------------------------------------------------------
// Locating a surface anywhere (first match in workspace, window, pane order)
// ---------------------------------------------------------------------------

pub open spec fn loc_ws(m: ControlV, sid: u64) -> int {
    first_index(m.workspaces, ws_has(sid))
}

pub open spec fn loc_win(m: ControlV, wi: int, sid: u64) -> int {
    first_index(m.workspaces[wi].windows, win_has(sid))
}

pub open spec fn loc_pane(m: ControlV, wi: int, wj: int, sid: u64) -> int {
    first_index(m.workspaces[wi].windows[wj].panes, pane_has(sid))
}

pub open spec fn loc_surf(m: ControlV, wi: int, wj: int, pk: int, sid: u64) -> int {
    first_index(m.workspaces[wi].windows[wj].panes[pk].surfaces, surf_is(sid))
}

/// Adds one flash to the first surface with this id (saturating), counting it
/// in the debug flash counter; unchanged when no surface has the id.
pub open spec fn increment_flash(m: ControlV, sid: u64) -> ControlV {
    let wi = loc_ws(m, sid);
    if wi < 0 {
        m
    } else {
        let wj = loc_win(m, wi, sid);
        let pk = loc_pane(m, wi, wj, sid);
        let sl = loc_surf(m, wi, wj, pk, sid);
        let s = m.workspaces[wi].windows[wj].panes[pk].surfaces[sl];
        let m2 = set_surface(m, wi, wj, pk, sl, SurfaceV { flash_count: sat_inc(s.flash_count), ..s });
        ControlV { debug_flash_count: sat_inc(m.debug_flash_count), ..m2 }
    }
}

/// The first surface with this id becomes a browser panel.
pub open spec fn mark_browser_panel(m: ControlV, sid: u64) -> ControlV {
    let wi = loc_ws(m, sid);
    if wi < 0 {
        m
    } else {
        let wj = loc_win(m, wi, sid);
        let pk = loc_pane(m, wi, wj, sid);
        let sl = loc_surf(m, wi, wj, pk, sid);
        let s = m.workspaces[wi].windows[wj].panes[pk].surfaces[sl];
        set_surface(m, wi, wj, pk, sl, SurfaceV { panel_type: browser_type(), ..s })
    }
}

pub open spec fn unflashed_surface(s: SurfaceV) -> SurfaceV {
    SurfaceV { flash_count: 0, ..s }
}

pub open spec fn unflashed_pane(p: PaneV) -> PaneV {
    PaneV { surfaces: p.surfaces.map_values(|s: SurfaceV| unflashed_surface(s)), ..p }
}

pub open spec fn unflashed_window(w: WindowV) -> WindowV {
    WindowV { panes: w.panes.map_values(|p: PaneV| unflashed_pane(p)), ..w }
}

pub open spec fn unflashed_workspace(w: WorkspaceV) -> WorkspaceV {
    WorkspaceV { windows: w.windows.map_values(|x: WindowV| unflashed_window(x)), ..w }
}

/// Every surface's flash count, and the debug counter, back to zero.
pub open spec fn reset_flashes(m: ControlV) -> ControlV {
    ControlV {
        workspaces: m.workspaces.map_values(|w: WorkspaceV| unflashed_workspace(w)),
        debug_flash_count: 0,
        ..m
    }
}

pub open spec fn sat_inc(x: u64) -> u64 {
    if x == u64::MAX { x } else { (x + 1) as u64 }
}


// ---------------------------------------------------------------------------
// The focused path: current workspace, its current window, pane and surface
// ---------------------------------------------------------------------------

pub open spec fn cur_ws(m: ControlV) -> int {
    first_index(m.workspaces, ws_is(m.current_workspace_id))
}

pub open spec fn cur_win(m: ControlV, wi: int) -> int {
    match m.workspaces[wi].current_window_id {
        Some(id) => first_index(m.workspaces[wi].windows, win_is(id)),
        None => -1,
    }
}

pub open spec fn cur_pane(m: ControlV, wi: int, wj: int) -> int {
    match m.workspaces[wi].windows[wj].current_pane_id {
        Some(id) => first_index(m.workspaces[wi].windows[wj].panes, pane_is(id)),
        None => -1,
    }
}

pub open spec fn cur_surf(m: ControlV, wi: int, wj: int, pk: int) -> int {
    match m.workspaces[wi].windows[wj].panes[pk].current_surface_id {
        Some(id) => first_index(m.workspaces[wi].windows[wj].panes[pk].surfaces, surf_is(id)),
        None => -1,
    }
}

/// The current window of the current workspace, when both resolve.
pub open spec fn focused_window(m: ControlV) -> Option<(int, int)> {
    let wi = cur_ws(m);
    if wi < 0 {
        None
    } else {
        let wj = cur_win(m, wi);
        if wj < 0 { None } else { Some((wi, wj)) }
    }
}

/// The current pane of the focused window, when it resolves.
pub open spec fn focused_pane(m: ControlV) -> Option<(int, int, int)> {
    match focused_window(m) {
        None => None,
        Some((wi, wj)) => {
            let pk = cur_pane(m, wi, wj);
            if pk < 0 { None } else { Some((wi, wj, pk)) }
        },
    }
}

/// The current surface of the focused pane, when it resolves.
pub open spec fn focused_surface(m: ControlV) -> Option<(int, int, int, int)> {
    match focused_pane(m) {
        None => None,
        Some((wi, wj, pk)) => {
            let sl = cur_surf(m, wi, wj, pk);
            if sl < 0 { None } else { Some((wi, wj, pk, sl)) }
        },
    }
}

/// Ids of the focused workspace, window, pane and surface. Only the current
/// surface id of the focused pane is read, whether or not that surface exists.
pub open spec fn focused_handles(m: ControlV) -> Option<(u64, u64, u64, u64)> {
    match focused_pane(m) {
        None => None,
        Some((wi, wj, pk)) => {
            let w = m.workspaces[wi];
            let win = w.windows[wj];
            let p = win.panes[pk];
            match p.current_surface_id {
                None => None,
                Some(sid) => Some((w.id, win.id, p.id, sid)),
            }
        },
    }
}

pub open spec fn app_active(m: ControlV) -> bool {
    m.app_focus_override || m.app_simulate_active
}

// ---------------------------------------------------------------------------
// Notifications marked read
// ---------------------------------------------------------------------------

/// Current surface id of the workspace with this id (through its current window
/// and pane), if every step resolves.
pub open spec fn current_surface_of_workspace(m: ControlV, wsid: u64) -> Option<u64> {
    let wi = first_index(m.workspaces, ws_is(wsid));
    if wi < 0 {
        None
    } else {
        let ws = m.workspaces[wi];
        match ws.current_window_id {
            None => None,
            Some(win_id) => {
                let wj = first_index(ws.windows, win_is(win_id));
                if wj < 0 {
                    None
                } else {
                    let win = ws.windows[wj];
                    match win.current_pane_id {
                        None => None,
                        Some(pid) => {
                            let pk = first_index(win.panes, pane_is(pid));
                            if pk < 0 { None } else { win.panes[pk].current_surface_id }
                        },
                    }
                }
            },
        }
    }
}

pub open spec fn unread_in_ws(wsid: u64) -> spec_fn(NotificationV) -> bool {
    |n: NotificationV| n.unread && n.workspace_id == Some(wsid)
}

pub open spec fn unread_for_surface(sid: u64) -> spec_fn(NotificationV) -> bool {
    |n: NotificationV| n.unread && n.surface_id == Some(sid)
}

pub open spec fn mark_read_if(p: spec_fn(NotificationV) -> bool) -> spec_fn(NotificationV) -> NotificationV {
    |n: NotificationV| if p(n) { NotificationV { unread: false, ..n } } else { n }
}

pub open spec fn opt_or(a: Option<u64>, b: Option<u64>) -> Option<u64> {
    match a {
        Some(x) => Some(x),
        None => b,
    }
}

/// Marks the workspace's unread notifications read and flashes one surface:
/// that of the first such notification which names a surface, or the
/// workspace's current surface. Returns whether any notification changed.
pub open spec fn mark_read_for_workspace(m: ControlV, wsid: u64) -> (ControlV, bool) {
    let fallback = current_surface_of_workspace(m, wsid);
    let any = first_index(m.notifications, unread_in_ws(wsid));
    let fi = first_index(
        m.notifications,
        |n: NotificationV| unread_in_ws(wsid)(n) && (n.surface_id is Some || fallback is Some),
    );
    let m1 = ControlV { notifications: m.notifications.map_values(mark_read_if(unread_in_ws(wsid))), ..m };
    let m2 = if fi < 0 {
        m1
    } else {
        match opt_or(m.notifications[fi].surface_id, fallback) {
            Some(sid) => increment_flash(m1, sid),
            None => m1,
        }
    };
    (m2, any >= 0)
}

/// Marks the unread notifications for this surface read, flashing the surface
/// when any changed.
pub open spec fn mark_read_for_surface(m: ControlV, sid: u64) -> (ControlV, bool) {
    let any = first_index(m.notifications, unread_for_surface(sid));
    let m1 = ControlV { notifications: m.notifications.map_values(mark_read_if(unread_for_surface(sid))), ..m };
    if any >= 0 { (increment_flash(m1, sid), true) } else { (m1, false) }
}

// ---------------------------------------------------------------------------
// Workspaces
// ---------------------------------------------------------------------------

/// Switches to the workspace at `idx`, remembering the previous one, and marks
/// its notifications read when the app is active.
pub open spec fn switch_to(m: ControlV, idx: int) -> ControlV {
    let target = m.workspaces[idx].id;
    let m1 = if m.current_workspace_id != target {
        ControlV { last_workspace_id: Some(m.current_workspace_id), current_workspace_id: target, ..m }
    } else {
        m
    };
    if app_active(m1) { mark_read_for_workspace(m1, target).0 } else { m1 }
}

pub open spec fn ws_matches(id: Option<u64>, name: Option<Seq<char>>) -> spec_fn(WorkspaceV) -> bool {
    |w: WorkspaceV| id == Some(w.id) || name == Some(w.name)
}

pub open spec fn select_workspace(m: ControlV, id: Option<u64>, name: Option<Seq<char>>) -> (ControlV, Option<WorkspaceInfoV>) {
    let idx = first_index(m.workspaces, ws_matches(id, name));
    if idx < 0 {
        (m, None)
    } else {
        let m2 = switch_to(m, idx);
        (m2, Some(ws_info(m2.workspaces[idx])))
    }
}

/// The workspace `delta` places away from the current one, wrapping around.
pub open spec fn relative_index(cur: int, delta: int, len: int) -> int {
    (cur + delta) % len
}

pub open spec fn select_workspace_relative(m: ControlV, delta: int) -> (ControlV, Option<WorkspaceInfoV>) {
    let cur = cur_ws(m);
    if m.workspaces.len() == 0 || cur < 0 {
        (m, None)
    } else {
        let idx = relative_index(cur, delta, m.workspaces.len() as int);
        let m2 = switch_to(m, idx);
        (m2, Some(ws_info(m2.workspaces[idx])))
    }
}

pub open spec fn select_last_workspace(m: ControlV) -> (ControlV, Option<WorkspaceInfoV>) {
    match m.last_workspace_id {
        None => (m, None),
        Some(last) => select_workspace(m, Some(last), None),
    }
}

/// Creates a workspace (with one window, pane and surface) and switches to it.
/// A host window id, when given, also becomes the id of the new window.
pub open spec fn create_workspace(m: ControlV, name: Option<Seq<char>>, host: Option<u64>) -> (ControlV, WorkspaceInfoV) {
    let w0 = fresh_workspace(m.next_workspace_id, m.next_window_id, m.next_pane_id, m.next_surface_id, name);
    let w = match host {
        Some(h) => WorkspaceV {
            host_window_id: h,
            windows: seq![WindowV { id: h, ..w0.windows[0] }],
            current_window_id: Some(h),
            ..w0
        },
        None => w0,
    };
    let win_id = w.windows[0].id;
    let vis = if m.sidebar_visibility.contains_key(win_id) {
        m.sidebar_visibility
    } else {
        m.sidebar_visibility.insert(win_id, m.debug_sidebar_visible)
    };
    let m2 = ControlV {
        workspaces: m.workspaces.push(w),
        current_workspace_id: w.id,
        last_workspace_id: Some(m.current_workspace_id),
        next_workspace_id: (m.next_workspace_id + 1) as u64,
        next_window_id: (m.next_window_id + 1) as u64,
        next_pane_id: (m.next_pane_id + 1) as u64,
        next_surface_id: (m.next_surface_id + 1) as u64,
        sidebar_visibility: vis,
        ..m
    };
    (m2, ws_info(w))
}

/// Room for one more id of each kind.
pub open spec fn has_id_room(m: ControlV) -> bool {
    &&& m.next_workspace_id < u64::MAX
    &&& m.next_window_id < u64::MAX
    &&& m.next_pane_id < u64::MAX
    &&& m.next_surface_id < u64::MAX
    &&& m.next_notification_id < u64::MAX
}

pub open spec fn rename_workspace(m: ControlV, id: Option<u64>, name: Seq<char>) -> (ControlV, Option<WorkspaceInfoV>) {
    let target = match id { Some(i) => i, None => m.current_workspace_id };
    let idx = first_index(m.workspaces, ws_is(target));
    if idx < 0 {
        (m, None)
    } else {
        let w = WorkspaceV { name, ..m.workspaces[idx] };
        (ControlV { workspaces: m.workspaces.update(idx, w), ..m }, Some(ws_info(w)))
    }
}

pub open spec fn set_workspace_cwd(m: ControlV, id: u64, cwd: Option<Seq<char>>) -> (ControlV, bool) {
    let idx = first_index(m.workspaces, ws_is(id));
    if idx < 0 {
        (m, false)
    } else {
        (ControlV { workspaces: m.workspaces.update(idx, WorkspaceV { cwd, ..m.workspaces[idx] }), ..m }, true)
    }
}

pub open spec fn workspace_cwd(m: ControlV, id: u64) -> Option<Seq<char>> {
    let idx = first_index(m.workspaces, ws_is(id));
    if idx < 0 { None } else { m.workspaces[idx].cwd }
}

/// Moves `s[from]` to position `to` (the element is removed, then inserted).
pub open spec fn move_to<A>(s: Seq<A>, from: int, to: int) -> Seq<A> {
    if from == to { s } else { s.remove(from).insert(to, s[from]) }
}

pub open spec fn reorder_workspace(m: ControlV, id: u64, index: int) -> (ControlV, Option<WorkspaceInfoV>) {
    let from = first_index(m.workspaces, ws_is(id));
    if from < 0 {
        (m, None)
    } else {
        let len = m.workspaces.len() as int;
        let to = if index < len - 1 { index } else { len - 1 };
        let ws2 = move_to(m.workspaces, from, to);
        let found = first_index(ws2, ws_is(id));
        (ControlV { workspaces: ws2, ..m }, Some(ws_info(ws2[found])))
    }
}

pub open spec fn not_in_ws(wsid: u64) -> spec_fn(NotificationV) -> bool {
    |n: NotificationV| n.workspace_id != Some(wsid)
}

/// Closes a workspace (never the last one), dropping its notifications; when it
/// was current, the workspace now at its position (or the last one) becomes
/// current.
pub open spec fn close_workspace(m: ControlV, id: Option<u64>) -> (ControlV, Option<WorkspaceInfoV>) {
    let target = match id { Some(i) => i, None => m.current_workspace_id };
    let idx = first_index(m.workspaces, ws_is(target));
    if m.workspaces.len() <= 1 || idx < 0 {
        (m, None)
    } else {
        let removed = m.workspaces[idx];
        let ws2 = m.workspaces.remove(idx);
        let m1 = ControlV { workspaces: ws2, notifications: m.notifications.filter(not_in_ws(removed.id)), ..m };
        let m2 = if removed.id == m.current_workspace_id {
            let fb = if idx < ws2.len() - 1 { idx } else { ws2.len() - 1 };
            ControlV { last_workspace_id: Some(removed.id), current_workspace_id: ws2[fb].id, ..m1 }
        } else {
            m1
        };
        (m2, Some(ws_info(removed)))
    }
}

pub open spec fn move_workspace_to_window(m: ControlV, id: Option<u64>, host: u64) -> (ControlV, Option<WorkspaceInfoV>) {
    let target = match id { Some(i) => i, None => m.current_workspace_id };
    let idx = first_index(m.workspaces, ws_is(target));
    if idx < 0 {
        (m, None)
    } else {
        let w = WorkspaceV { host_window_id: host, ..m.workspaces[idx] };
        (ControlV { workspaces: m.workspaces.update(idx, w), ..m }, Some(ws_info(w)))
    }
}


/// Surface ids named by unread notifications, each once, in order of first mention.
pub open spec fn unread_surfaces(ns: Seq<NotificationV>) -> Seq<u64>
    decreases ns.len(),
{
    if ns.len() == 0 {
        Seq::empty()
    } else {
        let prev = unread_surfaces(ns.drop_last());
        let n = ns.last();
        match n.surface_id {
            Some(sid) => if n.unread && !prev.contains(sid) { prev.push(sid) } else { prev },
            None => prev,
        }
    }
}

/// Flashes each surface of `ids` in turn.
pub open spec fn flash_all(m: ControlV, ids: Seq<u64>) -> ControlV
    decreases ids.len(),
{
    if ids.len() == 0 {
        m
    } else {
        increment_flash(flash_all(m, ids.drop_last()), ids.last())
    }
}

pub open spec fn is_unread() -> spec_fn(NotificationV) -> bool {
    |n: NotificationV| n.unread
}

/// Marks every notification read and flashes each surface that an unread one named.
pub open spec fn mark_all_read(m: ControlV) -> (ControlV, bool) {
    let ids = unread_surfaces(m.notifications);
    let m1 = ControlV { notifications: m.notifications.map_values(mark_read_if(is_unread())), ..m };
    (flash_all(m1, ids), first_index(m.notifications, is_unread()) >= 0)
}


/// The located indices of a surface are valid whenever the workspace index is.
pub proof fn lemma_loc_valid(m: ControlV, sid: u64)
    ensures
        loc_ws(m, sid) >= 0 ==> {
            let wi = loc_ws(m, sid);
            let wj = loc_win(m, wi, sid);
            let pk = loc_pane(m, wi, wj, sid);
            let sl = loc_surf(m, wi, wj, pk, sid);
            &&& wi < m.workspaces.len()
            &&& 0 <= wj < m.workspaces[wi].windows.len()
            &&& 0 <= pk < m.workspaces[wi].windows[wj].panes.len()
            &&& 0 <= sl < m.workspaces[wi].windows[wj].panes[pk].surfaces.len()
            &&& m.workspaces[wi].windows[wj].panes[pk].surfaces[sl].id == sid
        },
{
    lemma_first_index(m.workspaces, ws_has(sid));
    let wi = loc_ws(m, sid);
    if wi >= 0 {
        let ws = m.workspaces[wi];
        assert(ws_has(sid)(ws));
        let j0 = choose|j: int| 0 <= j < ws.windows.len() && win_has(sid)(ws.windows[j]);
        lemma_first_index(ws.windows, win_has(sid));
        assert(win_has(sid)(ws.windows[j0]));
        let wj = loc_win(m, wi, sid);
        let win = ws.windows[wj];
        assert(win_has(sid)(win));
        let k0 = choose|k: int| 0 <= k < win.panes.len() && pane_has(sid)(win.panes[k]);
        lemma_first_index(win.panes, pane_has(sid));
        assert(pane_has(sid)(win.panes[k0]));
        let pk = loc_pane(m, wi, wj, sid);
        let p = win.panes[pk];
        assert(pane_has(sid)(p));
        let l0 = choose|l: int| 0 <= l < p.surfaces.len() && p.surfaces[l].id == sid;
        lemma_first_index(p.surfaces, surf_is(sid));
        assert(surf_is(sid)(p.surfaces[l0]));
    }
}

/// Flashing a surface leaves every id, name and current/last pointer unchanged:
/// only flash counters move.
pub proof fn lemma_increment_flash_shape(m: ControlV, sid: u64)
    ensures
        increment_flash(m, sid).workspaces.len() == m.workspaces.len(),
        increment_flash(m, sid).current_workspace_id == m.current_workspace_id,
        increment_flash(m, sid).last_workspace_id == m.last_workspace_id,
        increment_flash(m, sid).notifications == m.notifications,
        forall|i: int| 0 <= i < m.workspaces.len() ==> {
            let a = #[trigger] increment_flash(m, sid).workspaces[i];
            let b = m.workspaces[i];
            &&& a.id == b.id && a.name == b.name && a.cwd == b.cwd && a.host_window_id == b.host_window_id
            &&& a.windows.len() == b.windows.len()
            &&& a.current_window_id == b.current_window_id && a.last_window_id == b.last_window_id
        },
{
    lemma_loc_valid(m, sid);
}

pub proof fn lemma_mark_read_ws_shape(m: ControlV, wsid: u64)
    ensures
        mark_read_for_workspace(m, wsid).0.workspaces.len() == m.workspaces.len(),
        mark_read_for_workspace(m, wsid).0.current_workspace_id == m.current_workspace_id,
        mark_read_for_workspace(m, wsid).0.last_workspace_id == m.last_workspace_id,
        forall|i: int| 0 <= i < m.workspaces.len() ==> {
            let a = #[trigger] mark_read_for_workspace(m, wsid).0.workspaces[i];
            let b = m.workspaces[i];
            &&& a.id == b.id && a.name == b.name && a.cwd == b.cwd && a.host_window_id == b.host_window_id
            &&& a.windows.len() == b.windows.len()
            &&& a.current_window_id == b.current_window_id && a.last_window_id == b.last_window_id
        },
{
    let fallback = current_surface_of_workspace(m, wsid);
    let m1 = ControlV { notifications: m.notifications.map_values(mark_read_if(unread_in_ws(wsid))), ..m };
    let fi = first_index(
        m.notifications,
        |n: NotificationV| unread_in_ws(wsid)(n) && (n.surface_id is Some || fallback is Some),
    );
    if fi >= 0 {
        match opt_or(m.notifications[fi].surface_id, fallback) {
            Some(sid) => lemma_increment_flash_shape(m1, sid),
            None => {},
        }
    }
}


pub open spec fn main_name() -> Seq<char> {
    seq!['m', 'a', 'i', 'n']
}

/// The state a new control plane starts in: one workspace named "main".
pub open spec fn initial_state() -> ControlV {
    ControlV {
        workspaces: seq![fresh_workspace(1, 1, 1, 1, Some(main_name()))],
        current_workspace_id: 1,
        last_workspace_id: None,
        next_workspace_id: 2,
        next_window_id: 2,
        next_pane_id: 2,
        next_surface_id: 2,
        next_notification_id: 1,
        notifications: Seq::empty(),
        app_focus_override: false,
        app_simulate_active: false,
        debug_sidebar_visible: true,
        debug_flash_count: 0,
        sidebar_visibility: Map::empty().insert(1, true),
        right_neighbors: Map::empty(),
        down_neighbors: Map::empty(),
        size_overrides: Map::empty(),
        kitty_chunks: Map::empty(),
        browser: super::browser::default_browser(),
        palettes: Map::empty(),
        shortcuts: Seq::empty(),
        rename_select_all: true,
        panel_baselines: Map::empty(),
        next_snapshot_id: 1,
    }
}

pub open spec fn ws_infos(ws: Seq<WorkspaceV>) -> Seq<WorkspaceInfoV> {
    ws.map_values(|w: WorkspaceV| ws_info(w))
}

/// Info of the current workspace, when it exists.
pub open spec fn current_workspace_info(m: ControlV) -> Option<WorkspaceInfoV> {
    let wi = cur_ws(m);
    if wi < 0 { None } else { Some(ws_info(m.workspaces[wi])) }
}


// ---------------------------------------------------------------------------
// Windows
// ---------------------------------------------------------------------------

pub open spec fn win_infos(ws: Seq<WindowV>) -> Seq<WindowInfoV> {
    ws.map_values(|w: WindowV| win_info(w))
}

/// Summaries of the current workspace's windows.
pub open spec fn list_windows(m: ControlV) -> Option<Seq<WindowInfoV>> {
    let wi = cur_ws(m);
    if wi < 0 { None } else { Some(win_infos(m.workspaces[wi].windows)) }
}

/// Summary of the current window of the current workspace.
pub open spec fn current_window(m: ControlV) -> Option<WindowInfoV> {
    match focused_window(m) {
        None => None,
        Some((wi, wj)) => Some(win_info(m.workspaces[wi].windows[wj])),
    }
}

/// Creates a window (with one pane and surface) in the current workspace and
/// makes it current. Ids are spent and the sidebar entry is made even when there
/// is no current workspace.
pub open spec fn create_window(m: ControlV, title: Option<Seq<char>>) -> (ControlV, Option<WindowInfoV>) {
    let w = fresh_window(m.next_window_id, m.next_pane_id, m.next_surface_id, title);
    let vis = if m.sidebar_visibility.contains_key(w.id) {
        m.sidebar_visibility
    } else {
        m.sidebar_visibility.insert(w.id, m.debug_sidebar_visible)
    };
    let m1 = ControlV {
        next_window_id: (m.next_window_id + 1) as u64,
        next_pane_id: (m.next_pane_id + 1) as u64,
        next_surface_id: (m.next_surface_id + 1) as u64,
        sidebar_visibility: vis,
        ..m
    };
    let wi = cur_ws(m);
    if wi < 0 {
        (m1, None)
    } else {
        let ws = m.workspaces[wi];
        let ws2 = WorkspaceV {
            last_window_id: ws.current_window_id,
            current_window_id: Some(w.id),
            windows: ws.windows.push(w),
            ..ws
        };
        (ControlV { workspaces: m.workspaces.update(wi, ws2), ..m1 }, Some(win_info(w)))
    }
}

pub open spec fn ws_holds_window(id: u64) -> spec_fn(WorkspaceV) -> bool {
    |w: WorkspaceV| exists|j: int| 0 <= j < w.windows.len() && w.windows[j].id == id
}

/// Makes window `id` of workspace `wi` its current window and its host.
pub open spec fn focus_window_in(m: ControlV, wi: int, id: u64) -> ControlV {
    let ws = m.workspaces[wi];
    let ws2 = WorkspaceV {
        host_window_id: id,
        last_window_id: ws.current_window_id,
        current_window_id: Some(id),
        ..ws
    };
    ControlV { workspaces: m.workspaces.update(wi, ws2), ..m }
}

/// Focuses a window: one of the current workspace when it has it, otherwise the
/// first workspace holding it becomes current. Notifications of that workspace
/// are marked read when the app is active.
pub open spec fn focus_window(m: ControlV, id: u64) -> (ControlV, Option<WindowInfoV>) {
    let wi = cur_ws(m);
    let wj = if wi < 0 { -1 } else { first_index(m.workspaces[wi].windows, win_is(id)) };
    if wi >= 0 && wj >= 0 {
        let m1 = focus_window_in(m, wi, id);
        let m2 = if app_active(m1) { mark_read_for_workspace(m1, m.workspaces[wi].id).0 } else { m1 };
        (m2, Some(win_info(m.workspaces[wi].windows[wj])))
    } else {
        let xi = first_index(m.workspaces, ws_holds_window(id));
        if xi < 0 {
            (m, None)
        } else {
            let xj = first_index(m.workspaces[xi].windows, win_is(id));
            let target = m.workspaces[xi].id;
            let m0 = if m.current_workspace_id != target {
                ControlV { last_workspace_id: Some(m.current_workspace_id), current_workspace_id: target, ..m }
            } else {
                m
            };
            let m1 = focus_window_in(m0, xi, id);
            let m2 = if app_active(m1) { mark_read_for_workspace(m1, target).0 } else { m1 };
            (m2, Some(win_info(m.workspaces[xi].windows[xj])))
        }
    }
}

/// Closes a window of the current workspace (never its last one); when it was
/// current, the window now at its position (or the last one) becomes current.
pub open spec fn close_window(m: ControlV, id: Option<u64>) -> (ControlV, Option<WindowInfoV>) {
    let wi = cur_ws(m);
    if wi < 0 {
        (m, None)
    } else {
        let ws = m.workspaces[wi];
        let target = match id { Some(t) => Some(t), None => ws.current_window_id };
        if ws.windows.len() <= 1 || target is None {
            (m, None)
        } else {
            let t = target.unwrap();
            let idx = first_index(ws.windows, win_is(t));
            if idx < 0 {
                (m, None)
            } else {
                let rest = ws.windows.remove(idx);
                let ws2 = if ws.current_window_id == Some(t) {
                    let fb = if idx < rest.len() - 1 { idx } else { rest.len() - 1 };
                    WorkspaceV {
                        windows: rest,
                        last_window_id: Some(t),
                        current_window_id: Some(rest[fb].id),
                        ..ws
                    }
                } else {
                    WorkspaceV { windows: rest, ..ws }
                };
                (ControlV { workspaces: m.workspaces.update(wi, ws2), ..m }, Some(win_info(ws.windows[idx])))
            }
        }
    }
}


// ---------------------------------------------------------------------------
// Panes of the focused window
// ---------------------------------------------------------------------------

pub open spec fn pane_infos(ps: Seq<PaneV>) -> Seq<PaneInfo> {
    ps.map_values(|p: PaneV| pane_info(p))
}

pub open spec fn surf_infos(ss: Seq<SurfaceV>, pane_id: u64) -> Seq<SurfaceInfoV> {
    ss.map_values(|s: SurfaceV| surf_info(s, pane_id))
}

pub open spec fn list_panes(m: ControlV) -> Option<Seq<PaneInfo>> {
    match focused_window(m) {
        None => None,
        Some((wi, wj)) => Some(pane_infos(m.workspaces[wi].windows[wj].panes)),
    }
}

/// Surfaces of a pane of the focused window (its current pane when no id is given).
pub open spec fn list_surfaces_for_pane(m: ControlV, pane_id: Option<u64>) -> Option<Seq<SurfaceInfoV>> {
    match focused_window(m) {
        None => None,
        Some((wi, wj)) => {
            let win = m.workspaces[wi].windows[wj];
            let pk = match pane_id {
                Some(id) => first_index(win.panes, pane_is(id)),
                None => cur_pane(m, wi, wj),
            };
            if pk < 0 { None } else { Some(surf_infos(win.panes[pk].surfaces, win.panes[pk].id)) }
        },
    }
}

/// Creates a pane (with one surface) in the focused window and makes it current.
/// Ids are spent even when there is no focused window.
pub open spec fn create_pane(m: ControlV, title: Option<Seq<char>>) -> (ControlV, Option<PaneInfo>) {
    let p = fresh_pane(m.next_pane_id, m.next_surface_id, title);
    let m1 = ControlV {
        next_pane_id: (m.next_pane_id + 1) as u64,
        next_surface_id: (m.next_surface_id + 1) as u64,
        ..m
    };
    match focused_window(m) {
        None => (m1, None),
        Some((wi, wj)) => {
            let win = m.workspaces[wi].windows[wj];
            let win2 = WindowV {
                last_pane_id: win.current_pane_id,
                current_pane_id: Some(p.id),
                panes: win.panes.push(p),
                ..win
            };
            (set_window(m1, wi, wj, win2), Some(pane_info(p)))
        },
    }
}

/// Makes pane `pk` of the focused window current, remembering the previous one.
pub open spec fn focus_pane_at(m: ControlV, wi: int, wj: int, pk: int) -> ControlV {
    let win = m.workspaces[wi].windows[wj];
    set_window(m, wi, wj, WindowV {
        last_pane_id: win.current_pane_id,
        current_pane_id: Some(win.panes[pk].id),
        ..win
    })
}

pub open spec fn focus_pane(m: ControlV, pane_id: u64) -> (ControlV, Option<PaneInfo>) {
    match focused_window(m) {
        None => (m, None),
        Some((wi, wj)) => {
            let win = m.workspaces[wi].windows[wj];
            let pk = first_index(win.panes, pane_is(pane_id));
            if pk < 0 {
                (m, None)
            } else {
                (focus_pane_at(m, wi, wj, pk), Some(pane_info(win.panes[pk])))
            }
        },
    }
}

pub open spec fn focus_last_pane(m: ControlV) -> (ControlV, Option<PaneInfo>) {
    match focused_window(m) {
        None => (m, None),
        Some((wi, wj)) => match m.workspaces[wi].windows[wj].last_pane_id {
            None => (m, None),
            Some(last) => focus_pane(m, last),
        },
    }
}

/// Moves focus one pane left (`step == -1`) or right (`step == 1`) in the
/// focused window, stopping at the ends.
pub open spec fn focus_neighbor_pane(m: ControlV, step: int) -> (ControlV, Option<PaneInfo>) {
    match focused_window(m) {
        None => (m, None),
        Some((wi, wj)) => {
            let win = m.workspaces[wi].windows[wj];
            match win.current_pane_id {
                None => (m, None),
                Some(cur) => {
                    let ci = first_index(win.panes, pane_is(cur));
                    if ci < 0 {
                        (m, None)
                    } else {
                        let len = win.panes.len() as int;
                        let t = if step < 0 {
                            if ci > 0 { ci - 1 } else { 0 }
                        } else {
                            if ci + 1 < len - 1 { ci + 1 } else { len - 1 }
                        };
                        let tid = win.panes[t].id;
                        let m2 = if tid != cur {
                            set_window(m, wi, wj, WindowV { last_pane_id: Some(cur), current_pane_id: Some(tid), ..win })
                        } else {
                            m
                        };
                        (m2, Some(pane_info(win.panes[t])))
                    }
                },
            }
        },
    }
}

/// Some pane anywhere has this id.
pub open spec fn pane_exists(m: ControlV, pane_id: u64) -> bool {
    exists|i: int, j: int, k: int|
        0 <= i < m.workspaces.len() && 0 <= j < m.workspaces[i].windows.len()
            && 0 <= k < m.workspaces[i].windows[j].panes.len()
            && #[trigger] m.workspaces[i].windows[j].panes[k].id == pane_id
}

pub open spec fn sat_add_i64(a: i64, b: i64) -> i64 {
    if a + b > i64::MAX { i64::MAX } else if a + b < i64::MIN { i64::MIN } else { (a + b) as i64 }
}

pub open spec fn sat_sub_i64(a: i64, b: i64) -> i64 {
    if a - b > i64::MAX { i64::MAX } else if a - b < i64::MIN { i64::MIN } else { (a - b) as i64 }
}

pub open spec fn dir_right() -> Seq<char> { seq!['r', 'i', 'g', 'h', 't'] }
pub open spec fn dir_left() -> Seq<char> { seq!['l', 'e', 'f', 't'] }
pub open spec fn dir_down() -> Seq<char> { seq!['d', 'o', 'w', 'n'] }
pub open spec fn dir_up() -> Seq<char> { seq!['u', 'p'] }

/// Grows or shrinks the recorded size offset of a pane in one direction.
pub open spec fn resize_pane(m: ControlV, pane_id: u64, direction: Seq<char>, amount: i64) -> (ControlV, Option<(i64, i64)>) {
    if !pane_exists(m, pane_id) {
        (m, None)
    } else {
        let cur = if m.size_overrides.contains_key(pane_id) { m.size_overrides[pane_id] } else { (0i64, 0i64) };
        let next = if direction == dir_right() {
            (sat_add_i64(cur.0, amount), cur.1)
        } else if direction == dir_left() {
            (sat_sub_i64(cur.0, amount), cur.1)
        } else if direction == dir_down() {
            (cur.0, sat_add_i64(cur.1, amount))
        } else if direction == dir_up() {
            (cur.0, sat_sub_i64(cur.1, amount))
        } else {
            cur
        };
        (ControlV { size_overrides: m.size_overrides.insert(pane_id, next), ..m }, Some(next))
    }
}

/// Swaps the positions of two panes of the focused window.
pub open spec fn swap_panes(m: ControlV, first: u64, second: u64) -> (ControlV, Option<Seq<PaneInfo>>) {
    match focused_window(m) {
        None => (m, None),
        Some((wi, wj)) => {
            let win = m.workspaces[wi].windows[wj];
            let a = first_index(win.panes, pane_is(first));
            let b = first_index(win.panes, pane_is(second));
            if a < 0 || b < 0 {
                (m, None)
            } else {
                let ps = win.panes.update(a, win.panes[b]).update(b, win.panes[a]);
                (set_window(m, wi, wj, WindowV { panes: ps, ..win }), Some(pane_infos(ps)))
            }
        },
    }
}

/// Moves every surface of the source pane to the end of the target pane and
/// removes the source pane. The source's current surface becomes the target's.
/// The source pane is already gone when the target then turns out missing.
pub open spec fn join_panes(m: ControlV, source: u64, target: u64) -> (ControlV, Option<PaneInfo>) {
    if source == target {
        (m, None)
    } else {
        match focused_window(m) {
            None => (m, None),
            Some((wi, wj)) => {
                let win = m.workspaces[wi].windows[wj];
                let si = first_index(win.panes, pane_is(source));
                if si < 0 {
                    (m, None)
                } else {
                    let src = win.panes[si];
                    let rest = win.panes.remove(si);
                    let ti = first_index(rest, pane_is(target));
                    if ti < 0 {
                        (set_window(m, wi, wj, WindowV { panes: rest, ..win }), None)
                    } else {
                        let t = rest[ti];
                        let t2 = PaneV {
                            surfaces: t.surfaces + src.surfaces,
                            last_surface_id: t.current_surface_id,
                            current_surface_id: if src.current_surface_id is Some { src.current_surface_id } else { t.current_surface_id },
                            ..t
                        };
                        let cur = if win.current_pane_id == Some(source) { Some(target) } else { win.current_pane_id };
                        let win2 = WindowV { panes: rest.update(ti, t2), current_pane_id: cur, ..win };
                        (set_window(m, wi, wj, win2), Some(pane_info(t2)))
                    }
                }
            },
        }
    }
}

/// Which surface becomes current in a pane after the one at `idx` left it:
/// the one now at `idx`, or the last one.
pub open spec fn fallback_index(idx: int, len: int) -> int {
    if idx < len - 1 { idx } else { len - 1 }
}

/// Pane `p` after removing its surface at `sl`: an emptied pane gets the
/// fallback surface `fb`, otherwise the surface now at that position (or the
/// last) becomes current.
pub open spec fn pane_without(p: PaneV, sl: int, fb: SurfaceV) -> PaneV {
    let rest = p.surfaces.remove(sl);
    if rest.len() == 0 {
        PaneV { surfaces: seq![fb], current_surface_id: Some(fb.id), ..p }
    } else {
        PaneV { surfaces: rest, current_surface_id: Some(rest[fallback_index(sl, rest.len() as int)].id), ..p }
    }
}

/// Moves the current surface of a pane (the focused one when no id is given)
/// into a new pane at the end of the focused window, which becomes current.
pub open spec fn break_pane(m: ControlV, pane_id: Option<u64>) -> (ControlV, Option<PaneInfo>) {
    match focused_window(m) {
        None => (m, None),
        Some((wi, wj)) => {
            let fb = fresh_surface(m.next_surface_id, None);
            let m1 = ControlV { next_surface_id: (m.next_surface_id + 1) as u64, ..m };
            let win = m.workspaces[wi].windows[wj];
            let si = match pane_id {
                Some(id) => first_index(win.panes, pane_is(id)),
                None => match win.current_pane_id {
                    Some(id) => first_index(win.panes, pane_is(id)),
                    None => -1,
                },
            };
            if si < 0 || win.panes[si].current_surface_id is None {
                (m1, None)
            } else {
                let src = win.panes[si];
                let csid = src.current_surface_id.unwrap();
                let sl = first_index(src.surfaces, surf_is(csid));
                if sl < 0 {
                    (m1, None)
                } else {
                    let np = PaneV {
                        id: m.next_pane_id,
                        surfaces: seq![src.surfaces[sl]],
                        current_surface_id: Some(csid),
                        last_surface_id: None,
                    };
                    let win2 = WindowV {
                        panes: win.panes.update(si, pane_without(src, sl, fb)).push(np),
                        last_pane_id: win.current_pane_id,
                        current_pane_id: Some(np.id),
                        ..win
                    };
                    let m2 = ControlV { next_pane_id: (m.next_pane_id + 1) as u64, ..m1 };
                    (set_window(m2, wi, wj, win2), Some(pane_info(np)))
                }
            }
        },
    }
}


// ---------------------------------------------------------------------------
// Surfaces
// ---------------------------------------------------------------------------

/// Infos of every surface of the panes, pane by pane.
pub open spec fn flat_surf_infos(ps: Seq<PaneV>) -> Seq<SurfaceInfoV>
    decreases ps.len(),
{
    if ps.len() == 0 {
        Seq::empty()
    } else {
        flat_surf_infos(ps.drop_last()) + surf_infos(ps.last().surfaces, ps.last().id)
    }
}

pub open spec fn list_surfaces(m: ControlV) -> Option<Seq<SurfaceInfoV>> {
    match focused_window(m) {
        None => None,
        Some((wi, wj)) => Some(flat_surf_infos(m.workspaces[wi].windows[wj].panes)),
    }
}

pub open spec fn current_surface(m: ControlV) -> Option<SurfaceInfoV> {
    match focused_surface(m) {
        None => None,
        Some((wi, wj, pk, sl)) => {
            let p = m.workspaces[wi].windows[wj].panes[pk];
            Some(surf_info(p.surfaces[sl], p.id))
        },
    }
}

/// Adds a surface to the focused pane and makes it current. The id is spent even
/// when there is no focused pane.
pub open spec fn create_surface(m: ControlV, title: Option<Seq<char>>) -> (ControlV, Option<SurfaceInfoV>) {
    let s = fresh_surface(m.next_surface_id, title);
    let m1 = ControlV { next_surface_id: (m.next_surface_id + 1) as u64, ..m };
    match focused_pane(m) {
        None => (m1, None),
        Some((wi, wj, pk)) => {
            let p = m.workspaces[wi].windows[wj].panes[pk];
            let ss = p.surfaces.push(s);
            let p2 = PaneV { last_surface_id: p.current_surface_id, current_surface_id: Some(s.id), surfaces: ss, ..p };
            let l = first_index(ss, surf_is(s.id));
            (set_pane(m1, wi, wj, pk, p2), Some(surf_info(ss[l], p.id)))
        },
    }
}

pub open spec fn create_surface_in_pane(m: ControlV, pane_id: u64, title: Option<Seq<char>>) -> (ControlV, Option<SurfaceInfoV>) {
    let (m1, r) = focus_pane(m, pane_id);
    if r is None { (m1, None) } else { create_surface(m1, title) }
}

/// Adds a new pane (with one surface) to the focused window and makes it
/// current. Ids are spent even when there is no focused window.
pub open spec fn split_surface(m: ControlV, title: Option<Seq<char>>) -> (ControlV, Option<SurfaceInfoV>) {
    let pid = m.next_pane_id;
    let sid = m.next_surface_id;
    let (m1, r) = create_pane(m, title);
    match focused_window(m) {
        None => (m1, None),
        Some((wi, wj)) => {
            let ps = m1.workspaces[wi].windows[wj].panes;
            let k = first_index(ps, pane_is(pid));
            let l = first_index(ps[k].surfaces, surf_is(sid));
            (m1, if l < 0 { None } else { Some(surf_info(ps[k].surfaces[l], pid)) })
        },
    }
}

pub open spec fn split_surface_from_pane(m: ControlV, pane_id: u64, title: Option<Seq<char>>) -> (ControlV, Option<SurfaceInfoV>) {
    let (m1, r) = focus_pane(m, pane_id);
    if r is None { (m1, None) } else { split_surface(m1, title) }
}

pub open spec fn pane_in_focused_window(m: ControlV, pane_id: u64) -> bool {
    match focused_window(m) {
        None => false,
        Some((wi, wj)) => first_index(m.workspaces[wi].windows[wj].panes, pane_is(pane_id)) >= 0,
    }
}

pub open spec fn right_neighbor(m: ControlV, pane_id: u64) -> Option<u64> {
    if m.right_neighbors.contains_key(pane_id) && pane_in_focused_window(m, m.right_neighbors[pane_id]) {
        Some(m.right_neighbors[pane_id])
    } else {
        None
    }
}

/// Records that `new` was split off `source` to the right or below, carrying
/// the diagonal neighbor over.
pub open spec fn register_split(m: ControlV, source: u64, new: u64, direction: Seq<char>) -> ControlV {
    if direction == dir_right() {
        let r = m.right_neighbors.insert(source, new);
        let d = if m.down_neighbors.contains_key(source) && r.contains_key(m.down_neighbors[source]) {
            m.down_neighbors.insert(new, r[m.down_neighbors[source]])
        } else {
            m.down_neighbors
        };
        ControlV { right_neighbors: r, down_neighbors: d, ..m }
    } else if direction == dir_down() {
        let d = m.down_neighbors.insert(source, new);
        let r = if m.right_neighbors.contains_key(source) && d.contains_key(m.right_neighbors[source]) {
            m.right_neighbors.insert(new, d[m.right_neighbors[source]])
        } else {
            m.right_neighbors
        };
        ControlV { right_neighbors: r, down_neighbors: d, ..m }
    } else {
        m
    }
}

/// Pane and surface positions of the first surface with this id in the focused window.
pub open spec fn find_in_focused_window(m: ControlV, sid: u64) -> Option<(int, int, int, int)> {
    match focused_window(m) {
        None => None,
        Some((wi, wj)) => {
            let win = m.workspaces[wi].windows[wj];
            let pk = first_index(win.panes, pane_has(sid));
            if pk < 0 {
                None
            } else {
                Some((wi, wj, pk, first_index(win.panes[pk].surfaces, surf_is(sid))))
            }
        },
    }
}

pub open spec fn pane_for_surface(m: ControlV, sid: u64) -> Option<u64> {
    match find_in_focused_window(m, sid) {
        None => None,
        Some((wi, wj, pk, sl)) => Some(m.workspaces[wi].windows[wj].panes[pk].id),
    }
}

/// Focuses a surface of the focused window (and its pane); its notifications are
/// marked read when the app is active.
pub open spec fn focus_surface(m: ControlV, sid: u64) -> (ControlV, Option<SurfaceInfoV>) {
    match find_in_focused_window(m, sid) {
        None => (m, None),
        Some((wi, wj, pk, sl)) => {
            let win = m.workspaces[wi].windows[wj];
            let p = win.panes[pk];
            let p2 = PaneV { last_surface_id: p.current_surface_id, current_surface_id: Some(sid), ..p };
            let win2 = WindowV {
                last_pane_id: win.current_pane_id,
                current_pane_id: Some(p.id),
                panes: win.panes.update(pk, p2),
                ..win
            };
            let m1 = set_window(m, wi, wj, win2);
            let m2 = if app_active(m1) { mark_read_for_surface(m1, sid).0 } else { m1 };
            (m2, Some(surf_info(p.surfaces[sl], p.id)))
        },
    }
}

/// Closes a surface of the focused window (its current surface when no id is
/// given). A pane left empty is removed, unless it is the window's only pane,
/// which then gets a fresh surface. The id for that fresh surface is spent
/// whenever the focused window resolves.
pub open spec fn close_surface(m: ControlV, surface_id: Option<u64>) -> (ControlV, Option<SurfaceInfoV>) {
    match focused_window(m) {
        None => (m, None),
        Some((wi, wj)) => {
            let fb = fresh_surface(m.next_surface_id, None);
            let m1 = ControlV { next_surface_id: (m.next_surface_id + 1) as u64, ..m };
            let win = m.workspaces[wi].windows[wj];
            let pk0 = cur_pane(m, wi, wj);
            let target = match surface_id {
                Some(id) => Some(id),
                None => if pk0 < 0 { None } else { win.panes[pk0].current_surface_id },
            };
            match target {
                None => (m1, None),
                Some(t) => match find_in_focused_window(m, t) {
                    None => (m1, None),
                    Some((_, _, pk, sl)) => {
                        let p = win.panes[pk];
                        let removed = p.surfaces[sl];
                        let rest = p.surfaces.remove(sl);
                        let win2 = if rest.len() == 0 {
                            if win.panes.len() > 1 {
                                let ps = win.panes.remove(pk);
                                if win.current_pane_id == Some(p.id) {
                                    WindowV {
                                        panes: ps,
                                        last_pane_id: Some(p.id),
                                        current_pane_id: Some(ps[fallback_index(pk, ps.len() as int)].id),
                                        ..win
                                    }
                                } else {
                                    WindowV { panes: ps, ..win }
                                }
                            } else {
                                WindowV { panes: win.panes.update(pk, pane_without(p, sl, fb)), ..win }
                            }
                        } else {
                            WindowV { panes: win.panes.update(pk, pane_without(p, sl, fb)), ..win }
                        };
                        (set_window(m1, wi, wj, win2), Some(surf_info(removed, p.id)))
                    },
                },
            }
        },
    }
}

/// Moves a surface of the focused window into another pane of that window, at
/// `index` (clamped; the end when none is given), where it becomes current.
pub open spec fn move_surface(m: ControlV, sid: u64, target_pane_id: u64, index: Option<int>) -> (ControlV, Option<SurfaceInfoV>) {
    match find_in_focused_window(m, sid) {
        None => (m, None),
        Some((wi, wj, pk, sl)) => {
            let fb = fresh_surface(m.next_surface_id, None);
            let m1 = ControlV { next_surface_id: (m.next_surface_id + 1) as u64, ..m };
            let win = m.workspaces[wi].windows[wj];
            let ti = first_index(win.panes, pane_is(target_pane_id));
            if ti < 0 {
                (m1, None)
            } else {
                let moved = win.panes[pk].surfaces[sl];
                let ps1 = win.panes.update(pk, pane_without(win.panes[pk], sl, fb));
                let t = ps1[ti];
                let len = t.surfaces.len() as int;
                let at = match index { Some(x) => if x < len { x } else { len }, None => len };
                let ss = t.surfaces.insert(at, moved);
                let t2 = PaneV { surfaces: ss, last_surface_id: t.current_surface_id, current_surface_id: Some(sid), ..t };
                let m2 = set_window(m1, wi, wj, WindowV { panes: ps1.update(ti, t2), ..win });
                (m2, Some(surf_info(ss[first_index(ss, surf_is(sid))], t.id)))
            }
        },
    }
}

/// Moves a surface within its pane to position `index` (clamped).
pub open spec fn reorder_surface(m: ControlV, sid: u64, index: int) -> (ControlV, Option<SurfaceInfoV>) {
    match find_in_focused_window(m, sid) {
        None => (m, None),
        Some((wi, wj, pk, from)) => {
            let p = m.workspaces[wi].windows[wj].panes[pk];
            let len = p.surfaces.len() as int;
            let to0 = if index < len - 1 { index } else { len - 1 };
            let to = if from < to0 { to0 - 1 } else { to0 };
            let ss = move_to(p.surfaces, from, to);
            let m2 = set_pane(m, wi, wj, pk, PaneV { surfaces: ss, ..p });
            (m2, Some(surf_info(ss[first_index(ss, surf_is(sid))], p.id)))
        },
    }
}

/// Moves a surface into a new pane (split-like). The new pane is appended and
/// made current before the move; ids are spent even when nothing is focused.
pub open spec fn drag_surface_to_split(m: ControlV, sid: u64, title: Option<Seq<char>>) -> (ControlV, Option<SurfaceInfoV>) {
    let p = fresh_pane(m.next_pane_id, m.next_surface_id, title);
    let m1 = ControlV {
        next_pane_id: (m.next_pane_id + 1) as u64,
        next_surface_id: (m.next_surface_id + 1) as u64,
        ..m
    };
    match focused_window(m) {
        None => (m1, None),
        Some((wi, wj)) => {
            let win = m.workspaces[wi].windows[wj];
            let win2 = WindowV {
                panes: win.panes.push(p),
                last_pane_id: win.current_pane_id,
                current_pane_id: Some(p.id),
                ..win
            };
            move_surface(set_window(m1, wi, wj, win2), sid, p.id, Some(0))
        },
    }
}

pub open spec fn newline() -> Seq<char> {
    seq!['\n']
}

/// The effect of an edit on one surface.
pub open spec fn apply_edit(s: SurfaceV, e: SurfaceEditV) -> SurfaceV {
    match e {
        SurfaceEditV::Nothing => s,
        SurfaceEditV::AppendLine(t) => SurfaceV { text: s.text + t + newline(), ..s },
        SurfaceEditV::Refresh => SurfaceV { refresh_count: sat_inc(s.refresh_count), ..s },
        SurfaceEditV::Flash => SurfaceV { flash_count: sat_inc(s.flash_count), ..s },
        SurfaceEditV::ClearHistory => SurfaceV { text: Seq::empty(), unread: false, ..s },
        SurfaceEditV::Rename(t) => match t {
            Some(title) => SurfaceV { title, ..s },
            None => s,
        },
        SurfaceEditV::ClearName => SurfaceV { title: surface_prefix() + decimal(s.id as nat), ..s },
        SurfaceEditV::SetPinned(b) => SurfaceV { pinned: b, ..s },
        SurfaceEditV::SetUnread(b) => SurfaceV { unread: b, ..s },
        SurfaceEditV::ToggleDevtools => if s.panel_type == browser_type() {
            SurfaceV { developer_tools_visible: !s.developer_tools_visible, ..s }
        } else {
            s
        },
    }
}

/// Edits a surface of the focused window (its current surface when no id is given).
pub open spec fn update_surface(m: ControlV, surface_id: Option<u64>, e: SurfaceEditV) -> (ControlV, Option<SurfaceInfoV>) {
    let target = match surface_id {
        Some(id) => Some(id),
        None => match current_surface(m) {
            Some(info) => Some(info.id),
            None => None,
        },
    };
    match target {
        None => (m, None),
        Some(t) => match find_in_focused_window(m, t) {
            None => (m, None),
            Some((wi, wj, pk, sl)) => {
                let p = m.workspaces[wi].windows[wj].panes[pk];
                let s2 = apply_edit(p.surfaces[sl], e);
                (set_surface(m, wi, wj, pk, sl, s2), Some(surf_info(s2, p.id)))
            },
        },
    }
}

/// Position of the first surface with this id inside the workspace with
/// `wsid` (first such workspace), in window, pane, surface order.
pub open spec fn find_in_workspace(m: ControlV, wsid: u64, sid: u64) -> Option<(int, int, int, int)> {
    let wi = first_index(m.workspaces, ws_is(wsid));
    if wi < 0 {
        None
    } else {
        let wj = first_index(m.workspaces[wi].windows, win_has(sid));
        if wj < 0 {
            None
        } else {
            let pk = first_index(m.workspaces[wi].windows[wj].panes, pane_has(sid));
            let sl = first_index(m.workspaces[wi].windows[wj].panes[pk].surfaces, surf_is(sid));
            Some((wi, wj, pk, sl))
        }
    }
}

/// Edits a surface found anywhere in the given workspace.
pub open spec fn update_surface_in(m: ControlV, wsid: u64, sid: u64, e: SurfaceEditV) -> (ControlV, Option<SurfaceInfoV>) {
    match find_in_workspace(m, wsid, sid) {
        None => (m, None),
        Some((wi, wj, pk, sl)) => {
            let p = m.workspaces[wi].windows[wj].panes[pk];
            let s2 = apply_edit(p.surfaces[sl], e);
            (set_surface(m, wi, wj, pk, sl, s2), Some(surf_info(s2, p.id)))
        },
    }
}

pub open spec fn workspace_contains_surface(m: ControlV, wsid: u64, sid: u64) -> bool {
    let wi = first_index(m.workspaces, ws_is(wsid));
    wi >= 0 && ws_has(sid)(m.workspaces[wi])
}

pub open spec fn workspace_of_surface(m: ControlV, sid: u64) -> Option<u64> {
    let wi = loc_ws(m, sid);
    if wi < 0 { None } else { Some(m.workspaces[wi].id) }
}


// ---------------------------------------------------------------------------
// Notifications
// ---------------------------------------------------------------------------

pub open spec fn space() -> Seq<char> {
    seq![' ']
}

/// The non-empty parts among title, subtitle and body, joined by spaces.
pub open spec fn notification_message(t: Seq<char>, st: Seq<char>, b: Seq<char>) -> Seq<char> {
    let parts = seq![t, st, b].filter(|p: Seq<char>| p.len() > 0);
    if parts.len() == 0 {
        Seq::empty()
    } else if parts.len() == 1 {
        parts[0]
    } else if parts.len() == 2 {
        parts[0] + space() + parts[1]
    } else {
        parts[0] + space() + parts[1] + space() + parts[2]
    }
}

/// Raises a notification, which replaces any earlier one. While the app is
/// active, a notification for no surface or for the focused surface is
/// suppressed.
pub open spec fn create_notification(
    m: ControlV,
    t: Seq<char>,
    st: Seq<char>,
    b: Seq<char>,
    sid: Option<u64>,
    wsid: Option<u64>,
) -> (ControlV, Option<NotificationV>) {
    let suppressed = app_active(m) && (sid is None || match focused_handles(m) {
        Some((_, _, _, f)) => sid == Some(f),
        None => false,
    });
    if suppressed {
        (m, None)
    } else {
        let n = NotificationV {
            id: m.next_notification_id,
            message: notification_message(t, st, b),
            title: t,
            subtitle: st,
            body: b,
            surface_id: sid,
            workspace_id: wsid,
            unread: true,
        };
        (ControlV {
            notifications: seq![n],
            next_notification_id: (m.next_notification_id + 1) as u64,
            ..m
        }, Some(n))
    }
}

pub open spec fn id_is_not(id: u64) -> spec_fn(NotificationV) -> bool {
    |n: NotificationV| n.id != id
}

/// Drops one notification (or all when no id is given); returns those left.
pub open spec fn clear_notification(m: ControlV, id: Option<u64>) -> (ControlV, Seq<NotificationV>) {
    let ns = match id {
        Some(t) => m.notifications.filter(id_is_not(t)),
        None => Seq::empty(),
    };
    (ControlV { notifications: ns, ..m }, ns)
}

pub open spec fn sidebar_visible(m: ControlV, wid: u64) -> bool {
    if m.sidebar_visibility.contains_key(wid) { m.sidebar_visibility[wid] } else { m.debug_sidebar_visible }
}

pub open spec fn toggle_sidebar(m: ControlV, wid: u64) -> (ControlV, bool) {
    let next = !sidebar_visible(m, wid);
    (ControlV { sidebar_visibility: m.sidebar_visibility.insert(wid, next), ..m }, next)
}

// ---------------------------------------------------------------------------
// The simulated terminal
// ---------------------------------------------------------------------------

pub enum TerminalActionV {
    SetCwd(Seq<char>),
    RunCommand(Seq<char>),
}

/// The mode a line puts the shell in, and what it asks for.
pub open spec fn parse_line(mode: TerminalMode, line: Seq<char>) -> (TerminalMode, Option<TerminalActionV>) {
    let t = trim(line);
    if t.len() == 0 {
        (mode, None)
    } else if t == "cat"@ {
        (TerminalMode::Cat, None)
    } else if starts_with(t, "sleep "@) && (match parse_u64(trim(t.skip(6))) {
        Some(n) => n > 0,
        None => false,
    }) {
        (TerminalMode::Sleeping, None)
    } else if starts_with(t, "python3 -c"@) && contains(t, "iter(int, 1)"@) && contains(t, "time.sleep"@) {
        (TerminalMode::PythonLoop, None)
    } else if starts_with(t, "cd "@) && trim(t.skip(3)).len() > 0 {
        (mode, Some(TerminalActionV::SetCwd(trim(t.skip(3)))))
    } else {
        (mode, Some(TerminalActionV::RunCommand(line)))
    }
}

pub open spec fn is_newline(c: char) -> bool {
    c == '\n' || c == '\r'
}

/// Types `text` into an idle shell: characters gather into the input line and
/// each newline submits it; a line that blocks the shell stops the rest.
pub open spec fn feed(mode: TerminalMode, input: Seq<char>, text: Seq<char>) -> (TerminalMode, Seq<char>, Seq<TerminalActionV>)
    decreases text.len(),
{
    if text.len() == 0 {
        (mode, input, Seq::empty())
    } else if is_newline(text[0]) {
        let (mode1, act) = parse_line(mode, input);
        let acts = match act { Some(a) => seq![a], None => Seq::empty() };
        if mode1 != TerminalMode::Idle {
            (mode1, Seq::empty(), acts)
        } else {
            let (mode2, input2, rest) = feed(mode1, Seq::empty(), text.drop_first());
            (mode2, input2, acts + rest)
        }
    } else {
        feed(mode, input.push(text[0]), text.drop_first())
    }
}

/// A surface after `text` was typed into it, and what the shell was asked to do.
/// Only idle terminal surfaces run a shell.
pub open spec fn type_text(s: SurfaceV, text: Seq<char>) -> (SurfaceV, Seq<TerminalActionV>) {
    let s1 = SurfaceV { text: s.text + text, unread: true, ..s };
    if s1.panel_type != terminal_type() || s1.terminal_mode != TerminalMode::Idle {
        (s1, Seq::empty())
    } else {
        let (mode, input, acts) = feed(s1.terminal_mode, s1.shell_input, text);
        (SurfaceV { terminal_mode: mode, shell_input: input, ..s1 }, acts)
    }
}

/// Expands a leading `~` with the home directory, when one is known.
pub open spec fn expand_home(path: Seq<char>, home: Option<Seq<char>>) -> Seq<char> {
    if path == "~"@ {
        match home { Some(h) => h, None => path }
    } else if starts_with(path, "~/"@) {
        match home { Some(h) => h + "/"@ + path.skip(2), None => path }
    } else {
        path
    }
}

/// The text after `prefix` up to a terminator, trimmed.
pub open spec fn osc_payload(cmd: Seq<char>, prefix: Seq<char>) -> Option<Seq<char>> {
    match split_once(cmd, prefix) {
        None => None,
        Some((_, rest)) => {
            let payload = match split_once(rest, "\\x1b\\"@) {
                Some((v, _)) => v,
                None => match split_once(rest, "\\x1b\\\\"@) {
                    Some((v, _)) => v,
                    None => match split_once(rest, "'"@) {
                        Some((v, _)) => v,
                        None => rest,
                    },
                },
            };
            Some(trim(payload))
        },
    }
}

/// The text between the first `start` and the next `end`.
pub open spec fn text_between(src: Seq<char>, start: Seq<char>, end: Seq<char>) -> Option<Seq<char>> {
    match split_once(src, start) {
        None => None,
        Some((_, rest)) => match split_once(rest, end) {
            None => None,
            Some((v, _)) => Some(v),
        },
    }
}

pub open spec fn osc_plain() -> Seq<char> { "\\x1b]99;;"@ }
pub open spec fn osc_kitty_title() -> Seq<char> { "\\x1b]99;i=kitty:d=0:p=title;"@ }
pub open spec fn osc_kitty_body() -> Seq<char> { "\\x1b]99;i=kitty:p=body;"@ }
pub open spec fn osc_777() -> Seq<char> { "\\x1b]777;notify;"@ }
pub open spec fn bel() -> Seq<char> { "\\x07"@ }

/// Raises the notification that a command's terminal escape sequence asks for.
pub open spec fn emit_osc(m: ControlV, wsid: u64, sid: u64, cmd: Seq<char>) -> ControlV {
    match osc_payload(cmd, osc_plain()) {
        Some(title) => create_notification(m, title, Seq::empty(), Seq::empty(), Some(sid), Some(wsid)).0,
        None => match osc_payload(cmd, osc_kitty_title()) {
            Some(title) => {
                let e = if m.kitty_chunks.contains_key(sid) { m.kitty_chunks[sid] } else { (None, None) };
                ControlV { kitty_chunks: m.kitty_chunks.insert(sid, (Some(title), e.1)), ..m }
            },
            None => match osc_payload(cmd, osc_kitty_body()) {
                Some(body) => {
                    let e = if m.kitty_chunks.contains_key(sid) { m.kitty_chunks[sid] } else { (None, None) };
                    let title = match e.0 { Some(t) => t, None => Seq::empty() };
                    let m1 = ControlV { kitty_chunks: m.kitty_chunks.remove(sid), ..m };
                    create_notification(m1, title, Seq::empty(), body, Some(sid), Some(wsid)).0
                },
                None => match text_between(cmd, osc_777(), bel()) {
                    Some(payload) => {
                        let (t, b) = match split_once(payload, ";"@) {
                            Some((a, rest)) => (trim(a), trim(rest)),
                            None => (trim(payload), Seq::empty()),
                        };
                        create_notification(m, t, Seq::empty(), b, Some(sid), Some(wsid)).0
                    },
                    None => m,
                },
            },
        },
    }
}

/// A shell command the host should run for a surface.
pub struct ShellRunV {
    pub command: Seq<char>,
    pub cwd: Option<Seq<char>>,
    pub surface_id: u64,
}

/// Carries out the shell's requests in order: `cd` updates the workspace's
/// directory; other lines raise their escape-sequence notification and are
/// handed to the host with the directory current at that point (its `~`
/// expanded).
pub open spec fn run_actions(m: ControlV, wsid: u64, sid: u64, acts: Seq<TerminalActionV>, home: Option<Seq<char>>) -> (ControlV, Seq<ShellRunV>)
    decreases acts.len(),
{
    if acts.len() == 0 {
        (m, Seq::empty())
    } else {
        let (m0, runs) = run_actions(m, wsid, sid, acts.drop_last(), home);
        match acts.last() {
            TerminalActionV::SetCwd(p) => (set_workspace_cwd(m0, wsid, Some(expand_home(p, home))).0, runs),
            TerminalActionV::RunCommand(c) => {
                let m1 = emit_osc(m0, wsid, sid, c);
                let cwd = match workspace_cwd(m1, wsid) { Some(d) => Some(expand_home(d, home)), None => None };
                (m1, runs.push(ShellRunV { command: c, cwd, surface_id: sid }))
            },
        }
    }
}

/// Types text into a surface of a workspace and runs what its shell asks for.
pub open spec fn send_text(m: ControlV, wsid: u64, sid: u64, text: Seq<char>, home: Option<Seq<char>>) -> (ControlV, Option<(SurfaceInfoV, Seq<ShellRunV>)>) {
    match find_in_workspace(m, wsid, sid) {
        None => (m, None),
        Some((wi, wj, pk, sl)) => {
            let p = m.workspaces[wi].windows[wj].panes[pk];
            let (s2, acts) = type_text(p.surfaces[sl], text);
            let (m2, runs) = run_actions(set_surface(m, wi, wj, pk, sl, s2), wsid, sid, acts, home);
            (m2, Some((surf_info(s2, p.id), runs)))
        },
    }
}

pub enum KeyOutcome {
    Unhandled,
    Handled,
    RequestClose,
}

/// A control key pressed in a terminal surface: ctrl-c returns the shell to
/// idle; ctrl-d leaves `cat`, or asks to close an idle shell with no input.
pub open spec fn press_key(s: SurfaceV, key: Seq<char>) -> (SurfaceV, KeyOutcome) {
    let k = ascii_lower(trim(key));
    if s.panel_type != terminal_type() {
        (s, KeyOutcome::Unhandled)
    } else if k == "ctrl-c"@ {
        (SurfaceV { terminal_mode: TerminalMode::Idle, shell_input: Seq::empty(), ..s }, KeyOutcome::Handled)
    } else if k == "ctrl-d"@ {
        if s.terminal_mode == TerminalMode::Cat {
            (SurfaceV { terminal_mode: TerminalMode::Idle, ..s }, KeyOutcome::Handled)
        } else if s.terminal_mode == TerminalMode::Idle && s.shell_input.len() == 0 {
            (s, KeyOutcome::RequestClose)
        } else {
            (s, KeyOutcome::Handled)
        }
    } else {
        (s, KeyOutcome::Unhandled)
    }
}

/// The marker recorded in a surface's text for a key the shell does not handle.
pub open spec fn key_marker(key: Seq<char>) -> Seq<char> {
    "<key:"@ + key + ">"@
}

/// Sends a key to a surface of a workspace. An unhandled key is recorded in its
/// text; a request to close closes the surface (in the focused window).
pub open spec fn send_key(m: ControlV, wsid: u64, sid: u64, key: Seq<char>) -> (ControlV, Option<SurfaceInfoV>) {
    match find_in_workspace(m, wsid, sid) {
        None => (m, None),
        Some((wi, wj, pk, sl)) => {
            let p = m.workspaces[wi].windows[wj].panes[pk];
            let (s1, out) = press_key(p.surfaces[sl], key);
            let s2 = match out {
                KeyOutcome::Unhandled => SurfaceV { text: s1.text + key_marker(key), unread: true, ..s1 },
                _ => s1,
            };
            let m1 = set_surface(m, wi, wj, pk, sl, s2);
            match out {
                KeyOutcome::RequestClose => close_surface(m1, Some(sid)),
                _ => (m1, Some(surf_info(s2, p.id))),
            }
        },
    }
}


/// A line submitted to the shell yields at most one request, so typing text
/// yields no more requests than it has characters.
pub proof fn lemma_feed_len(mode: TerminalMode, input: Seq<char>, text: Seq<char>)
    ensures
        feed(mode, input, text).2.len() <= text.len(),
    decreases text.len(),
{
    if text.len() > 0 {
        if is_newline(text[0]) {
            let (mode1, act) = parse_line(mode, input);
            if mode1 == TerminalMode::Idle {
                lemma_feed_len(mode1, Seq::empty(), text.drop_first());
            }
        } else {
            lemma_feed_len(mode, input.push(text[0]), text.drop_first());
        }
    }
}

/// Each request raises at most one notification.
pub proof fn lemma_run_actions_ids(m: ControlV, wsid: u64, sid: u64, acts: Seq<TerminalActionV>, home: Option<Seq<char>>)
    requires
        m.next_notification_id + acts.len() <= u64::MAX,
    ensures
        run_actions(m, wsid, sid, acts, home).0.next_notification_id <= m.next_notification_id + acts.len(),
        run_actions(m, wsid, sid, acts, home).0.next_notification_id >= m.next_notification_id,
    decreases acts.len(),
{
    if acts.len() > 0 {
        lemma_run_actions_ids(m, wsid, sid, acts.drop_last(), home);
        let m0 = run_actions(m, wsid, sid, acts.drop_last(), home).0;
        match acts.last() {
            TerminalActionV::SetCwd(p) => {},
            TerminalActionV::RunCommand(c) => {
                lemma_emit_osc_ids(m0, wsid, sid, c);
            },
        }
    }
}

/// An escape sequence raises at most one notification.
pub proof fn lemma_emit_osc_ids(m: ControlV, wsid: u64, sid: u64, cmd: Seq<char>)
    requires
        m.next_notification_id < u64::MAX,
    ensures
        m.next_notification_id <= emit_osc(m, wsid, sid, cmd).next_notification_id <= m.next_notification_id + 1,
{
}

} // verus!
