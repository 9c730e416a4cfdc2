//! The persisted session: workspaces with a layout tree of panes whose tabs
//! are terminals, browsers or settings pages.
//!
//! Split ratios are floating point values; here a split carries its ratio as
//! the bits of an `f64`, untouched. Clamping ratios is left to the host.
use vstd::prelude::*;
use crate::control::{opt_str_view, str_opt};
use crate::paths::{join, join_path};
use crate::text::str_eq;

verus! {

/// Where a loaded session came from.
#[derive(Clone, Copy, Debug, PartialEq, Eq, Structural)]
pub enum SessionLoadSource {
    Canonical,
    Legacy,
    Empty,
}

/// The sidebar's visibility and width.
#[derive(Clone, Copy, Debug, PartialEq, Eq, Structural)]
pub struct SidebarState {
    pub visible: bool,
    pub width: i32,
}

/// How a split divides its area.
#[derive(Clone, Copy, Debug, PartialEq, Eq, Structural)]
pub enum SplitOrientation {
    Horizontal,
    Vertical,
}

/// What a tab shows.
#[derive(Clone, Debug)]
pub enum TabContentState {
    Terminal { cwd: Option<String> },
    Browser { uri: Option<String> },
    Keybinds {},
    Settings {},
}

/// A tab of a pane.
#[derive(Clone, Debug)]
pub struct TabState {
    pub id: String,
    pub custom_name: Option<String>,
    pub pinned: bool,
    pub content: TabContentState,
}

/// A pane: its tabs and the id of the active one.
#[derive(Clone, Debug)]
pub struct PaneState {
    pub active_tab_id: Option<String>,
    pub tabs: Vec<TabState>,
}

/// A split of an area into two layouts; `ratio_bits` are the bits of the
/// `f64` ratio.
#[derive(Debug)]
pub struct SplitState {
    pub orientation: SplitOrientation,
    pub ratio_bits: u64,
    pub start: Box<LayoutNodeState>,
    pub end: Box<LayoutNodeState>,
}

/// A layout tree.
#[derive(Debug)]
pub enum LayoutNodeState {
    Pane(PaneState),
    Split(SplitState),
}

/// A workspace of the session.
#[derive(Debug)]
pub struct WorkspaceState {
    pub name: String,
    pub favorite: bool,
    pub cwd: Option<String>,
    pub folder_path: Option<String>,
    pub layout: LayoutNodeState,
}

/// The whole persisted session.
#[derive(Debug)]
pub struct AppSessionState {
    pub version: u32,
    pub active_workspace_index: usize,
    pub top_bar_visible: bool,
    pub sidebar: SidebarState,
    pub workspaces: Vec<WorkspaceState>,
}

/// A workspace as the older file format saved it.
#[derive(Clone, Debug)]
pub struct LegacySavedWorkspace {
    pub name: String,
    pub favorite: bool,
    pub cwd: Option<String>,
    pub folder_path: Option<String>,
}

/// A session and where it came from.
#[derive(Debug)]
pub struct LoadedSession {
    pub state: AppSessionState,
    pub source: SessionLoadSource,
}

// ---------------------------------------------------------------------------
// Views
// ---------------------------------------------------------------------------

pub enum TabContentV {
    Terminal(Option<Seq<char>>),
    Browser(Option<Seq<char>>),
    Keybinds,
    Settings,
}

pub struct TabV {
    pub id: Seq<char>,
    pub custom_name: Option<Seq<char>>,
    pub pinned: bool,
    pub content: TabContentV,
}

pub struct PaneLayoutV {
    pub active_tab_id: Option<Seq<char>>,
    pub tabs: Seq<TabV>,
}

pub enum LayoutV {
    Pane(PaneLayoutV),
    Split(SplitOrientation, u64, Box<LayoutV>, Box<LayoutV>),
}

pub struct SessionWorkspaceV {
    pub name: Seq<char>,
    pub favorite: bool,
    pub cwd: Option<Seq<char>>,
    pub folder_path: Option<Seq<char>>,
    pub layout: LayoutV,
}

pub struct SessionV {
    pub version: u32,
    pub active_workspace_index: usize,
    pub top_bar_visible: bool,
    pub sidebar: SidebarState,
    pub workspaces: Seq<SessionWorkspaceV>,
}

pub struct LegacyV {
    pub name: Seq<char>,
    pub favorite: bool,
    pub cwd: Option<Seq<char>>,
    pub folder_path: Option<Seq<char>>,
}

impl View for TabContentState {
    type V = TabContentV;

    open spec fn view(&self) -> TabContentV {
        match self {
            TabContentState::Terminal { cwd } => TabContentV::Terminal(opt_str_view(*cwd)),
            TabContentState::Browser { uri } => TabContentV::Browser(opt_str_view(*uri)),
            TabContentState::Keybinds {} => TabContentV::Keybinds,
            TabContentState::Settings {} => TabContentV::Settings,
        }
    }
}

impl View for TabState {
    type V = TabV;

    open spec fn view(&self) -> TabV {
        TabV { id: self.id@, custom_name: opt_str_view(self.custom_name), pinned: self.pinned, content: self.content@ }
    }
}

pub open spec fn tabs_view(v: Seq<TabState>) -> Seq<TabV> {
    v.map_values(|t: TabState| t@)
}

impl View for PaneState {
    type V = PaneLayoutV;

    open spec fn view(&self) -> PaneLayoutV {
        PaneLayoutV { active_tab_id: opt_str_view(self.active_tab_id), tabs: tabs_view(self.tabs@) }
    }
}

pub open spec fn layout_view(l: LayoutNodeState) -> LayoutV
    decreases l,
{
    match l {
        LayoutNodeState::Pane(p) => LayoutV::Pane(p@),
        LayoutNodeState::Split(s) => LayoutV::Split(
            s.orientation,
            s.ratio_bits,
            Box::new(layout_view(*s.start)),
            Box::new(layout_view(*s.end)),
        ),
    }
}

impl View for LayoutNodeState {
    type V = LayoutV;

    open spec fn view(&self) -> LayoutV {
        layout_view(*self)
    }
}

impl View for WorkspaceState {
    type V = SessionWorkspaceV;

    open spec fn view(&self) -> SessionWorkspaceV {
        SessionWorkspaceV {
            name: self.name@,
            favorite: self.favorite,
            cwd: opt_str_view(self.cwd),
            folder_path: opt_str_view(self.folder_path),
            layout: self.layout@,
        }
    }
}

pub open spec fn session_workspaces_view(v: Seq<WorkspaceState>) -> Seq<SessionWorkspaceV> {
    v.map_values(|w: WorkspaceState| w@)
}

impl View for AppSessionState {
    type V = SessionV;

    open spec fn view(&self) -> SessionV {
        SessionV {
            version: self.version,
            active_workspace_index: self.active_workspace_index,
            top_bar_visible: self.top_bar_visible,
            sidebar: self.sidebar,
            workspaces: session_workspaces_view(self.workspaces@),
        }
    }
}

impl View for LegacySavedWorkspace {
    type V = LegacyV;

    open spec fn view(&self) -> LegacyV {
        LegacyV { name: self.name@, favorite: self.favorite, cwd: opt_str_view(self.cwd), folder_path: opt_str_view(self.folder_path) }
    }
}

pub open spec fn legacy_view(v: Seq<LegacySavedWorkspace>) -> Seq<LegacyV> {
    v.map_values(|w: LegacySavedWorkspace| w@)
}

// ---------------------------------------------------------------------------
// The model
// ---------------------------------------------------------------------------

pub open spec fn session_version() -> u32 { 1 }

pub open spec fn default_sidebar_width() -> i32 { 220 }

pub open spec fn default_sidebar() -> SidebarState {
    SidebarState { visible: true, width: default_sidebar_width() }
}

/// The session of a fresh start.
pub open spec fn default_session() -> SessionV {
    SessionV {
        version: session_version(),
        active_workspace_index: 0,
        top_bar_visible: true,
        sidebar: default_sidebar(),
        workspaces: Seq::empty(),
    }
}

/// The id given to the first tab of a kind: `prefix-0`.
pub open spec fn tab_id(prefix: Seq<char>) -> Seq<char> {
    prefix + "-0"@
}

pub open spec fn terminal_tab(id: Seq<char>, cwd: Option<Seq<char>>) -> TabV {
    TabV { id, custom_name: None, pinned: false, content: TabContentV::Terminal(cwd) }
}

pub open spec fn browser_tab(id: Seq<char>, uri: Option<Seq<char>>) -> TabV {
    TabV { id, custom_name: None, pinned: false, content: TabContentV::Browser(uri) }
}

/// A pane of one tab, which is active.
pub open spec fn single_tab_pane(t: TabV) -> PaneLayoutV {
    PaneLayoutV { active_tab_id: Some(t.id), tabs: seq![t] }
}

/// The pane that stands in for an empty one: one terminal in `wd`.
pub open spec fn fallback_pane(wd: Option<Seq<char>>) -> PaneLayoutV {
    single_tab_pane(terminal_tab(tab_id("terminal"@), wd))
}

pub open spec fn has_tab(p: PaneLayoutV, id: Seq<char>) -> bool {
    exists|i: int| 0 <= i < p.tabs.len() && #[trigger] p.tabs[i].id == id
}

/// A pane with tabs whose active id names one of them, else its first tab
/// made active; an empty pane becomes the fallback pane.
pub open spec fn normalize_pane(p: PaneLayoutV, wd: Option<Seq<char>>) -> PaneLayoutV {
    if p.tabs.len() == 0 {
        fallback_pane(wd)
    } else if (match p.active_tab_id { Some(a) => has_tab(p, a), None => false }) {
        p
    } else {
        PaneLayoutV { active_tab_id: Some(p.tabs[0].id), ..p }
    }
}

/// Every pane of a layout normalized; the shape and the ratios are kept.
pub open spec fn normalize_layout_view(l: LayoutV, wd: Option<Seq<char>>) -> LayoutV
    decreases l,
{
    match l {
        LayoutV::Pane(p) => LayoutV::Pane(normalize_pane(p, wd)),
        LayoutV::Split(o, r, a, b) => LayoutV::Split(
            o,
            r,
            Box::new(normalize_layout_view(*a, wd)),
            Box::new(normalize_layout_view(*b, wd)),
        ),
    }
}

/// The directory a workspace's fresh terminals start in.
pub open spec fn working_directory(folder_path: Option<Seq<char>>, cwd: Option<Seq<char>>) -> Option<Seq<char>> {
    match folder_path {
        Some(f) => Some(f),
        None => cwd,
    }
}

pub open spec fn normalize_workspace(w: SessionWorkspaceV) -> SessionWorkspaceV {
    SessionWorkspaceV { layout: normalize_layout_view(w.layout, working_directory(w.folder_path, w.cwd)), ..w }
}

/// A session brought to the current version: the sidebar at least its
/// default width, the active index inside the list (0 when empty), every
/// layout normalized.
pub open spec fn normalize_session_view(s: SessionV) -> SessionV {
    let n = s.workspaces.len();
    SessionV {
        version: session_version(),
        active_workspace_index: if n == 0 { 0 } else if s.active_workspace_index >= n { (n - 1) as usize } else { s.active_workspace_index },
        top_bar_visible: s.top_bar_visible,
        sidebar: SidebarState {
            visible: s.sidebar.visible,
            width: if s.sidebar.width >= default_sidebar_width() { s.sidebar.width } else { default_sidebar_width() },
        },
        workspaces: s.workspaces.map_values(|w: SessionWorkspaceV| normalize_workspace(w)),
    }
}

/// A workspace of the older format: a single fresh terminal in its directory.
pub open spec fn migrate_workspace(w: LegacyV) -> SessionWorkspaceV {
    SessionWorkspaceV {
        name: w.name,
        favorite: w.favorite,
        cwd: w.cwd,
        folder_path: w.folder_path,
        layout: LayoutV::Pane(single_tab_pane(terminal_tab(tab_id("legacy-terminal"@), working_directory(w.folder_path, w.cwd)))),
    }
}

pub open spec fn from_legacy_view(ws: Seq<LegacyV>) -> SessionV {
    normalize_session_view(SessionV { workspaces: ws.map_values(|w: LegacyV| migrate_workspace(w)), ..default_session() })
}


/// The session a load yields, from what was found on disk: for each file,
/// `None` when it does not exist, `Some(None)` when it could not be read or
/// parsed. The canonical file is preferred; a legacy file is migrated; an
/// unreadable file yields the default session.
pub open spec fn loaded_session(
    canonical: Option<Option<SessionV>>,
    legacy: Option<Option<Seq<LegacyV>>>,
) -> (SessionV, SessionLoadSource) {
    match canonical {
        Some(parsed) => (
            match parsed { Some(s) => normalize_session_view(s), None => default_session() },
            SessionLoadSource::Canonical,
        ),
        None => match legacy {
            Some(parsed) => (
                match parsed { Some(ws) => from_legacy_view(ws), None => default_session() },
                SessionLoadSource::Legacy,
            ),
            None => (default_session(), SessionLoadSource::Empty),
        },
    }
}

pub open spec fn session_opt_view(o: Option<Option<AppSessionState>>) -> Option<Option<SessionV>> {
    match o {
        Some(Some(s)) => Some(Some(s@)),
        Some(None) => Some(None),
        None => None,
    }
}

pub open spec fn legacy_opt_view(o: Option<Option<Vec<LegacySavedWorkspace>>>) -> Option<Option<Seq<LegacyV>>> {
    match o {
        Some(Some(v)) => Some(Some(legacy_view(v@))),
        Some(None) => Some(None),
        None => None,
    }
}

// ---------------------------------------------------------------------------
// Constructors
// ---------------------------------------------------------------------------

/// The id of the first tab of a kind.
fn default_tab_id(prefix: &str) -> (r: String)
    ensures
        r@ == tab_id(prefix@),
{
    let mut id = String::from_str(prefix);
    id.append("-0");
    id
}

fn copy_opt(o: Option<&str>) -> (r: Option<String>)
    ensures
        opt_str_view(r) == str_opt(o),
{
    match o {
        Some(v) => Some(String::from_str(v)),
        None => None,
    }
}

impl TabState {
    /// A terminal tab starting in `cwd`.
    pub fn terminal(id: String, cwd: Option<&str>) -> (r: TabState)
        ensures
            r@ == terminal_tab(id@, str_opt(cwd)),
    {
        TabState { id, custom_name: None, pinned: false, content: TabContentState::Terminal { cwd: copy_opt(cwd) } }
    }

    /// A browser tab showing `uri`.
    pub fn browser(id: String, uri: Option<&str>) -> (r: TabState)
        ensures
            r@ == browser_tab(id@, str_opt(uri)),
    {
        TabState { id, custom_name: None, pinned: false, content: TabContentState::Browser { uri: copy_opt(uri) } }
    }
}

impl PaneState {
    /// The pane that stands in for an empty one: one terminal, active, in the
    /// working directory.
    pub fn fallback(working_directory: Option<&str>) -> (r: PaneState)
        ensures
            r@ == fallback_pane(str_opt(working_directory)),
    {
        proof { reveal_strlit("terminal"); }
        let tab = TabState::terminal(default_tab_id("terminal"), working_directory);
        let id = tab.id.clone();
        let r = PaneState { active_tab_id: Some(id), tabs: vec![tab] };
        proof { assert(tabs_view(r.tabs@) =~= seq![tab@]); }
        r
    }

    /// A pane of a single browser tab, active.
    pub fn browser_only(uri: Option<&str>) -> (r: PaneState)
        ensures
            r@ == single_tab_pane(browser_tab(tab_id("browser"@), str_opt(uri))),
    {
        let tab = TabState::browser(default_tab_id("browser"), uri);
        let id = tab.id.clone();
        let r = PaneState { active_tab_id: Some(id), tabs: vec![tab] };
        proof { assert(tabs_view(r.tabs@) =~= seq![tab@]); }
        r
    }
}

impl Default for SidebarState {
    fn default() -> (r: Self)
        ensures
            r == default_sidebar(),
    {
        SidebarState { visible: true, width: 220 }
    }
}

impl Default for AppSessionState {
    fn default() -> (r: Self)
        ensures
            r@ == default_session(),
    {
        let r = AppSessionState {
            version: 1,
            active_workspace_index: 0,
            top_bar_visible: true,
            sidebar: SidebarState { visible: true, width: 220 },
            workspaces: Vec::new(),
        };
        proof { assert(session_workspaces_view(r.workspaces@) =~= Seq::<SessionWorkspaceV>::empty()); }
        r
    }
}

/// The canonical session file in `dir`.
pub fn canonical_session_path_in(dir: &str) -> (r: String)
    ensures
        r@ == join(dir@, "session.json"@),
{
    join_path(dir, "session.json")
}

/// The file of the older format in `dir`.
pub fn legacy_workspaces_path_in(dir: &str) -> (r: String)
    ensures
        r@ == join(dir@, "workspaces.json"@),
{
    join_path(dir, "workspaces.json")
}

// ---------------------------------------------------------------------------
// Normalization
// ---------------------------------------------------------------------------

fn normalize_pane_state(p: PaneState, working_directory: Option<&str>) -> (r: PaneState)
    ensures
        r@ == normalize_pane(p@, str_opt(working_directory)),
{
    if p.tabs.len() == 0 {
        return PaneState::fallback(working_directory);
    }
    let mut active_exists = false;
    if let Some(active) = &p.active_tab_id {
        let mut i: usize = 0;
        while i < p.tabs.len()
            invariant_except_break
                !active_exists,
                forall|k: int| 0 <= k < i ==> p.tabs@[k].id@ != active@,
            invariant
                i <= p.tabs.len(),
            ensures
                active_exists <==> has_tab(p@, active@),
            decreases p.tabs.len() - i,
        {
            if str_eq(active.as_str(), p.tabs[i].id.as_str()) {
                active_exists = true;
                proof { assert(p@.tabs[i as int].id == active@); }
                break;
            }
            i = i + 1;
        }
        proof {
            if !active_exists {
                assert forall|k: int| 0 <= k < p@.tabs.len() implies #[trigger] p@.tabs[k].id != active@ by {
                    assert(p@.tabs[k] == p.tabs@[k]@);
                }
            }
        }
    }
    if active_exists {
        p
    } else {
        let first = p.tabs[0].id.clone();
        PaneState { active_tab_id: Some(first), tabs: p.tabs }
    }
}

fn normalized_layout(layout: LayoutNodeState, working_directory: Option<&str>) -> (r: LayoutNodeState)
    ensures
        r@ == normalize_layout_view(layout@, str_opt(working_directory)),
    decreases layout,
{
    match layout {
        LayoutNodeState::Pane(p) => LayoutNodeState::Pane(normalize_pane_state(p, working_directory)),
        LayoutNodeState::Split(s) => {
            let SplitState { orientation, ratio_bits, start, end } = s;
            let a = normalized_layout(*start, working_directory);
            let b = normalized_layout(*end, working_directory);
            LayoutNodeState::Split(SplitState { orientation, ratio_bits, start: Box::new(a), end: Box::new(b) })
        },
    }
}

/// Normalizes every pane of a layout; see `normalize_layout_view`.
pub fn normalize_layout(layout: &mut LayoutNodeState, working_directory: Option<&str>)
    ensures
        final(layout)@ == normalize_layout_view(old(layout)@, str_opt(working_directory)),
{
    let mut taken = LayoutNodeState::Pane(PaneState { active_tab_id: None, tabs: Vec::new() });
    std::mem::swap(&mut taken, layout);
    *layout = normalized_layout(taken, working_directory);
}

fn workspace_directory(w: &WorkspaceState) -> (r: Option<String>)
    ensures
        opt_str_view(r) == working_directory(opt_str_view(w.folder_path), opt_str_view(w.cwd)),
{
    match &w.folder_path {
        Some(f) => Some(f.clone()),
        None => match &w.cwd {
            Some(c) => Some(c.clone()),
            None => None,
        },
    }
}

/// Brings a session to the current version; see `normalize_session_view`.
pub fn normalize_session(state: AppSessionState) -> (r: AppSessionState)
    ensures
        r@ == normalize_session_view(state@),
{
    let mut state = state;
    let ghost s0 = state@;
    state.version = 1;
    if state.sidebar.width < 220 {
        state.sidebar.width = 220;
    }
    if state.workspaces.len() == 0 {
        state.active_workspace_index = 0;
    } else if state.active_workspace_index >= state.workspaces.len() {
        state.active_workspace_index = state.workspaces.len() - 1;
    }
    let n = state.workspaces.len();
    let mut i: usize = 0;
    while i < n
        invariant
            n == state.workspaces.len(),
            n == s0.workspaces.len(),
            i <= n,
            forall|k: int| 0 <= k < i ==> #[trigger] state.workspaces@[k]@ == normalize_workspace(s0.workspaces[k]),
            forall|k: int| i <= k < n ==> #[trigger] state.workspaces@[k]@ == s0.workspaces[k],
            state.version == 1,
            state.sidebar.visible == s0.sidebar.visible,
            state.sidebar.width == normalize_session_view(s0).sidebar.width,
            state.active_workspace_index == normalize_session_view(s0).active_workspace_index,
            state.top_bar_visible == s0.top_bar_visible,
        decreases n - i,
    {
        let wd = workspace_directory(&state.workspaces[i]);
        let wd_ref: Option<&str> = match &wd {
            Some(d) => Some(d.as_str()),
            None => None,
        };
        let ghost before = state.workspaces@;
        assert(str_opt(wd_ref) == opt_str_view(wd));
        assert(before[i as int]@ == s0.workspaces[i as int]);
        assert(str_opt(wd_ref) == working_directory(s0.workspaces[i as int].folder_path, s0.workspaces[i as int].cwd));
        normalize_layout(&mut state.workspaces[i].layout, wd_ref);
        proof {
            assert(state.workspaces@[i as int].name == before[i as int].name);
            assert(state.workspaces@[i as int].layout@ == normalize_layout_view(before[i as int].layout@, str_opt(wd_ref)));
            assert(state.workspaces@[i as int]@ == normalize_workspace(s0.workspaces[i as int]));
        }
        i = i + 1;
    }
    proof {
        assert(session_workspaces_view(state.workspaces@) =~= s0.workspaces.map_values(|w: SessionWorkspaceV| normalize_workspace(w)));
    }
    state
}

impl AppSessionState {
    /// Migrates workspaces of the older format; see `from_legacy_view`.
    pub fn from_legacy(workspaces: Vec<LegacySavedWorkspace>) -> (r: AppSessionState)
        ensures
            r@ == from_legacy_view(legacy_view(workspaces@)),
    {
        let ghost src = legacy_view(workspaces@);
        let mut out: Vec<WorkspaceState> = Vec::new();
        let mut i: usize = 0;
        while i < workspaces.len()
            invariant
                i <= workspaces.len(),
                src == legacy_view(workspaces@),
                session_workspaces_view(out@) == src.take(i as int).map_values(|w: LegacyV| migrate_workspace(w)),
            decreases workspaces.len() - i,
        {
            let w = &workspaces[i];
            let wd: Option<&str> = match &w.folder_path {
                Some(f) => Some(f.as_str()),
                None => match &w.cwd {
                    Some(c) => Some(c.as_str()),
                    None => None,
                },
            };
            proof { reveal_strlit("legacy-terminal"); }
            let tab = TabState::terminal(default_tab_id("legacy-terminal"), wd);
            let id = tab.id.clone();
            let pane = PaneState { active_tab_id: Some(id), tabs: vec![tab] };
            proof { assert(tabs_view(pane.tabs@) =~= seq![tab@]); }
            let ws = WorkspaceState {
                name: w.name.clone(),
                favorite: w.favorite,
                cwd: match &w.cwd { Some(c) => Some(c.clone()), None => None },
                folder_path: match &w.folder_path { Some(f) => Some(f.clone()), None => None },
                layout: LayoutNodeState::Pane(pane),
            };
            let ghost before = out@;
            out.push(ws);
            proof {
                assert(ws@ == migrate_workspace(src[i as int]));
                assert(src.take(i + 1) =~= src.take(i as int).push(src[i as int]));
                assert(session_workspaces_view(out@) =~= session_workspaces_view(before).push(ws@));
                assert(session_workspaces_view(out@) =~= src.take(i + 1).map_values(|w: LegacyV| migrate_workspace(w)));
            }
            i = i + 1;
        }
        proof { assert(src.take(i as int) =~= src); }
        let mut fresh = AppSessionState::default();
        fresh.workspaces = out;
        normalize_session(fresh)
    }
}

/// The session a load yields; see `loaded_session`.
pub fn load_session_from_files(
    canonical: Option<Option<AppSessionState>>,
    legacy: Option<Option<Vec<LegacySavedWorkspace>>>,
) -> (r: LoadedSession)
    ensures
        (r.state@, r.source) == loaded_session(session_opt_view(canonical), legacy_opt_view(legacy)),
{
    match canonical {
        Some(parsed) => LoadedSession {
            state: match parsed {
                Some(s) => normalize_session(s),
                None => AppSessionState::default(),
            },
            source: SessionLoadSource::Canonical,
        },
        None => match legacy {
            Some(parsed) => LoadedSession {
                state: match parsed {
                    Some(ws) => AppSessionState::from_legacy(ws),
                    None => AppSessionState::default(),
                },
                source: SessionLoadSource::Legacy,
            },
            None => LoadedSession { state: AppSessionState::default(), source: SessionLoadSource::Empty },
        },
    }
}


// ---------------------------------------------------------------------------
// Laws
// ---------------------------------------------------------------------------

/// A normalized pane has tabs, and its active id names one of them.
pub proof fn law_normalized_pane_has_active_tab(p: PaneLayoutV, wd: Option<Seq<char>>)
    ensures
        normalize_pane(p, wd).tabs.len() >= 1,
        normalize_pane(p, wd).active_tab_id is Some,
        has_tab(normalize_pane(p, wd), normalize_pane(p, wd).active_tab_id->0),
{
    let q = normalize_pane(p, wd);
    assert(q.tabs[0].id == q.tabs[0].id);
    if p.tabs.len() == 0 {
        assert(q.tabs[0].id == q.active_tab_id->0);
    } else if !(match p.active_tab_id { Some(a) => has_tab(p, a), None => false }) {
        assert(q.tabs[0].id == q.active_tab_id->0);
    }
}

/// Normalizing a layout twice is normalizing it once.
pub proof fn law_normalize_layout_idempotent(l: LayoutV, wd: Option<Seq<char>>)
    ensures
        normalize_layout_view(normalize_layout_view(l, wd), wd) == normalize_layout_view(l, wd),
    decreases l,
{
    match l {
        LayoutV::Pane(p) => {
            law_normalized_pane_has_active_tab(p, wd);
        },
        LayoutV::Split(o, r, a, b) => {
            law_normalize_layout_idempotent(*a, wd);
            law_normalize_layout_idempotent(*b, wd);
        },
    }
}

/// Normalizing a session twice is normalizing it once.
pub proof fn law_normalize_session_idempotent(s: SessionV)
    ensures
        normalize_session_view(normalize_session_view(s)) == normalize_session_view(s),
{
    let n1 = normalize_session_view(s);
    let n2 = normalize_session_view(n1);
    assert forall|i: int| 0 <= i < n1.workspaces.len() implies #[trigger] n2.workspaces[i] == n1.workspaces[i] by {
        let w = s.workspaces[i];
        law_normalize_layout_idempotent(w.layout, working_directory(w.folder_path, w.cwd));
    }
    assert(n2.workspaces =~= n1.workspaces);
}

/// A canonical session file is preferred to a legacy one, even when it cannot
/// be read (the session is then the default one).
pub proof fn law_canonical_file_preferred(canonical: Option<SessionV>, legacy: Option<Option<Seq<LegacyV>>>)
    ensures
        loaded_session(Some(canonical), legacy).1 == SessionLoadSource::Canonical,
        canonical is None ==> loaded_session(Some(canonical), legacy).0 == default_session(),
{
}


/// Each migrated workspace keeps its name, folder and directory, and holds
/// one fresh terminal that starts in its folder when it has one, else in its
/// directory.
pub proof fn law_legacy_terminal_directory(ws: Seq<LegacyV>, i: int)
    requires
        0 <= i < ws.len(),
    ensures
        from_legacy_view(ws).workspaces.len() == ws.len(),
        from_legacy_view(ws).workspaces[i].name == ws[i].name,
        from_legacy_view(ws).workspaces[i].folder_path == ws[i].folder_path,
        from_legacy_view(ws).workspaces[i].cwd == ws[i].cwd,
        (match from_legacy_view(ws).workspaces[i].layout {
            LayoutV::Pane(p) => p.tabs.len() == 1 && p.tabs[0].content == TabContentV::Terminal(
                if ws[i].folder_path is Some { ws[i].folder_path } else { ws[i].cwd }),
            _ => false,
        }),
{
    let w = ws[i];
    let mw = migrate_workspace(w);
    let t = terminal_tab(tab_id("legacy-terminal"@), working_directory(w.folder_path, w.cwd));
    let p = single_tab_pane(t);
    assert(p.tabs[0].id == t.id);
    assert(has_tab(p, t.id));
    assert(normalize_pane(p, working_directory(w.folder_path, w.cwd)) == p);
}

/// Normalizing gives an empty pane of a workspace one fresh terminal, which
/// starts in the workspace's folder when it has one, else in its directory.
pub proof fn law_normalized_empty_pane_directory(s: SessionV, i: int)
    requires
        0 <= i < s.workspaces.len(),
        s.workspaces[i].layout matches LayoutV::Pane(p) && p.tabs.len() == 0,
    ensures
        (match normalize_session_view(s).workspaces[i].layout {
            LayoutV::Pane(p) => p.tabs.len() == 1 && p.tabs[0].content == TabContentV::Terminal(
                if s.workspaces[i].folder_path is Some { s.workspaces[i].folder_path } else { s.workspaces[i].cwd }),
            _ => false,
        }),
{
}

} // verus!
