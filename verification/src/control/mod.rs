//! The control plane's workspace model: workspaces hold windows, windows hold
//! panes, panes hold surfaces (terminal or browser tabs), plus notifications.
//!
//! Every type has a view over plain sequences; every operation is specified by
//! a spec function over those views (see `model`).
use vstd::prelude::*;

pub mod model;
pub mod state;
pub mod protocol;
pub mod dispatch;
pub mod laws;
pub mod browser;
pub mod browser_commands;
pub mod debug_commands;
pub mod envelope;
pub mod palette;
pub mod palette_commands;
pub mod palette_rows;
pub mod browser_ext;
pub mod snapshots;

verus! {

/// Summary of a workspace as reported to clients.
#[derive(Clone, Debug)]
pub struct WorkspaceInfo {
    pub id: u64,
    pub name: String,
    pub host_window_id: u64,
    pub window_count: usize,
    pub current_window_id: Option<u64>,
}

/// Summary of a window as reported to clients.
#[derive(Clone, Debug)]
pub struct WindowInfo {
    pub id: u64,
    pub title: String,
    pub pane_count: usize,
    pub current_pane_id: Option<u64>,
}

/// Summary of a pane as reported to clients.
#[derive(Clone, Copy, Debug, PartialEq, Eq, Structural)]
pub struct PaneInfo {
    pub id: u64,
    pub surface_count: usize,
    pub current_surface_id: Option<u64>,
}

/// Summary of a surface as reported to clients.
#[derive(Clone, Debug)]
pub struct SurfaceInfo {
    pub id: u64,
    pub pane_id: u64,
    pub title: String,
    pub text: String,
    pub panel_type: String,
    pub developer_tools_visible: bool,
    pub pinned: bool,
    pub unread: bool,
    pub flash_count: u64,
    pub refresh_count: u64,
}

/// A notification raised by a command or by a terminal escape sequence.
#[derive(Clone, Debug)]
pub struct NotificationInfo {
    pub id: u64,
    pub message: String,
    pub title: String,
    pub subtitle: String,
    pub body: String,
    pub surface_id: Option<u64>,
    pub workspace_id: Option<u64>,
    pub unread: bool,
}

/// What the simulated shell of a terminal surface is doing.
#[derive(Clone, Copy, Debug, PartialEq, Eq, Structural)]
pub enum TerminalMode {
    Idle,
    Sleeping,
    Cat,
    PythonLoop,
}

// ----------------------------------------------------------------------------
// Views
// ----------------------------------------------------------------------------

pub struct WorkspaceInfoV {
    pub id: u64,
    pub name: Seq<char>,
    pub host_window_id: u64,
    pub window_count: nat,
    pub current_window_id: Option<u64>,
}

pub struct WindowInfoV {
    pub id: u64,
    pub title: Seq<char>,
    pub pane_count: nat,
    pub current_pane_id: Option<u64>,
}

pub struct SurfaceInfoV {
    pub id: u64,
    pub pane_id: u64,
    pub title: Seq<char>,
    pub text: Seq<char>,
    pub panel_type: Seq<char>,
    pub developer_tools_visible: bool,
    pub pinned: bool,
    pub unread: bool,
    pub flash_count: u64,
    pub refresh_count: u64,
}

pub struct NotificationV {
    pub id: u64,
    pub message: Seq<char>,
    pub title: Seq<char>,
    pub subtitle: Seq<char>,
    pub body: Seq<char>,
    pub surface_id: Option<u64>,
    pub workspace_id: Option<u64>,
    pub unread: bool,
}

pub struct SurfaceV {
    pub id: u64,
    pub title: Seq<char>,
    pub text: Seq<char>,
    pub shell_input: Seq<char>,
    pub terminal_mode: TerminalMode,
    pub panel_type: Seq<char>,
    pub developer_tools_visible: bool,
    pub pinned: bool,
    pub unread: bool,
    pub flash_count: u64,
    pub refresh_count: u64,
}

pub struct PaneV {
    pub id: u64,
    pub surfaces: Seq<SurfaceV>,
    pub current_surface_id: Option<u64>,
    pub last_surface_id: Option<u64>,
}

pub struct WindowV {
    pub id: u64,
    pub title: Seq<char>,
    pub panes: Seq<PaneV>,
    pub current_pane_id: Option<u64>,
    pub last_pane_id: Option<u64>,
}

pub struct WorkspaceV {
    pub id: u64,
    pub name: Seq<char>,
    pub cwd: Option<Seq<char>>,
    pub host_window_id: u64,
    pub windows: Seq<WindowV>,
    pub current_window_id: Option<u64>,
    pub last_window_id: Option<u64>,
}

/// The abstract control-plane state.
pub struct ControlV {
    pub workspaces: Seq<WorkspaceV>,
    pub current_workspace_id: u64,
    pub last_workspace_id: Option<u64>,
    pub next_workspace_id: u64,
    pub next_window_id: u64,
    pub next_pane_id: u64,
    pub next_surface_id: u64,
    pub next_notification_id: u64,
    pub notifications: Seq<NotificationV>,
    pub app_focus_override: bool,
    pub app_simulate_active: bool,
    pub debug_sidebar_visible: bool,
    pub debug_flash_count: u64,
    pub sidebar_visibility: Map<u64, bool>,
    pub right_neighbors: Map<u64, u64>,
    pub down_neighbors: Map<u64, u64>,
    pub size_overrides: Map<u64, (i64, i64)>,
    pub kitty_chunks: Map<u64, (Option<Seq<char>>, Option<Seq<char>>)>,
    pub browser: browser::BrowserV,
    pub palettes: Map<u64, palette::PaletteV>,
    pub shortcuts: browser::Pairs,
    pub rename_select_all: bool,
    /// The text each surface had at its last panel snapshot (or reset).
    pub panel_baselines: Map<u64, Seq<char>>,
    /// The id the next window screenshot gets.
    pub next_snapshot_id: u64,
}

pub open spec fn opt_str_view(o: Option<String>) -> Option<Seq<char>> {
    match o {
        Some(s) => Some(s@),
        None => None,
    }
}

impl View for WorkspaceInfo {
    type V = WorkspaceInfoV;

    open spec fn view(&self) -> WorkspaceInfoV {
        WorkspaceInfoV {
            id: self.id,
            name: self.name@,
            host_window_id: self.host_window_id,
            window_count: self.window_count as nat,
            current_window_id: self.current_window_id,
        }
    }
}

impl View for WindowInfo {
    type V = WindowInfoV;

    open spec fn view(&self) -> WindowInfoV {
        WindowInfoV {
            id: self.id,
            title: self.title@,
            pane_count: self.pane_count as nat,
            current_pane_id: self.current_pane_id,
        }
    }
}

impl View for SurfaceInfo {
    type V = SurfaceInfoV;

    open spec fn view(&self) -> SurfaceInfoV {
        SurfaceInfoV {
            id: self.id,
            pane_id: self.pane_id,
            title: self.title@,
            text: self.text@,
            panel_type: self.panel_type@,
            developer_tools_visible: self.developer_tools_visible,
            pinned: self.pinned,
            unread: self.unread,
            flash_count: self.flash_count,
            refresh_count: self.refresh_count,
        }
    }
}

impl View for NotificationInfo {
    type V = NotificationV;

    open spec fn view(&self) -> NotificationV {
        NotificationV {
            id: self.id,
            message: self.message@,
            title: self.title@,
            subtitle: self.subtitle@,
            body: self.body@,
            surface_id: self.surface_id,
            workspace_id: self.workspace_id,
            unread: self.unread,
        }
    }
}


pub open spec fn ws_info_opt(o: Option<WorkspaceInfo>) -> Option<WorkspaceInfoV> {
    match o {
        Some(i) => Some(i@),
        None => None,
    }
}

pub open spec fn win_info_opt(o: Option<WindowInfo>) -> Option<WindowInfoV> {
    match o {
        Some(i) => Some(i@),
        None => None,
    }
}

pub open spec fn surf_info_opt(o: Option<SurfaceInfo>) -> Option<SurfaceInfoV> {
    match o {
        Some(i) => Some(i@),
        None => None,
    }
}

pub open spec fn str_opt(o: Option<&str>) -> Option<Seq<char>> {
    match o {
        Some(s) => Some(s@),
        None => None,
    }
}


pub open spec fn notes_view(v: Seq<NotificationInfo>) -> Seq<NotificationV> {
    v.map_values(|n: NotificationInfo| n@)
}

pub open spec fn ws_info_views(v: Seq<WorkspaceInfo>) -> Seq<WorkspaceInfoV> {
    v.map_values(|i: WorkspaceInfo| i@)
}

pub open spec fn win_info_views(v: Seq<WindowInfo>) -> Seq<WindowInfoV> {
    v.map_values(|i: WindowInfo| i@)
}

pub open spec fn surf_info_views(v: Seq<SurfaceInfo>) -> Seq<SurfaceInfoV> {
    v.map_values(|i: SurfaceInfo| i@)
}


/// A change to one surface's metadata.
pub enum SurfaceEdit {
    /// Leave the surface as it is (a lookup).
    Nothing,
    /// Append a line (the text, then a newline) to the surface's text.
    AppendLine(String),
    /// Count one refresh.
    Refresh,
    /// Count one flash.
    Flash,
    /// Clear the text and mark the surface read.
    ClearHistory,
    /// Set the title, when one is given.
    Rename(Option<String>),
    /// Reset the title to `surface-<id>`.
    ClearName,
    /// Set whether the surface is pinned.
    SetPinned(bool),
    /// Set whether the surface is unread.
    SetUnread(bool),
    /// Show or hide developer tools, for browser surfaces only.
    ToggleDevtools,
}

pub enum SurfaceEditV {
    Nothing,
    AppendLine(Seq<char>),
    Refresh,
    Flash,
    ClearHistory,
    Rename(Option<Seq<char>>),
    ClearName,
    SetPinned(bool),
    SetUnread(bool),
    ToggleDevtools,
}

impl View for SurfaceEdit {
    type V = SurfaceEditV;

    open spec fn view(&self) -> SurfaceEditV {
        match self {
            SurfaceEdit::Nothing => SurfaceEditV::Nothing,
            SurfaceEdit::AppendLine(t) => SurfaceEditV::AppendLine(t@),
            SurfaceEdit::Refresh => SurfaceEditV::Refresh,
            SurfaceEdit::Flash => SurfaceEditV::Flash,
            SurfaceEdit::ClearHistory => SurfaceEditV::ClearHistory,
            SurfaceEdit::Rename(t) => SurfaceEditV::Rename(opt_str_view(*t)),
            SurfaceEdit::ClearName => SurfaceEditV::ClearName,
            SurfaceEdit::SetPinned(b) => SurfaceEditV::SetPinned(*b),
            SurfaceEdit::SetUnread(b) => SurfaceEditV::SetUnread(*b),
            SurfaceEdit::ToggleDevtools => SurfaceEditV::ToggleDevtools,
        }
    }
}


/// What a line typed into a terminal surface asks the host to do.
pub enum TerminalAction {
    SetCwd(String),
    RunCommand(String),
}

impl View for TerminalAction {
    type V = model::TerminalActionV;

    open spec fn view(&self) -> model::TerminalActionV {
        match self {
            TerminalAction::SetCwd(p) => model::TerminalActionV::SetCwd(p@),
            TerminalAction::RunCommand(c) => model::TerminalActionV::RunCommand(c@),
        }
    }
}

pub open spec fn actions_view(v: Seq<TerminalAction>) -> Seq<model::TerminalActionV> {
    v.map_values(|a: TerminalAction| a@)
}

/// A shell command the host runs for a surface, in the given directory.
#[derive(Debug)]
pub struct ShellRun {
    pub command: String,
    pub cwd: Option<String>,
    pub surface_id: u64,
}

impl View for ShellRun {
    type V = model::ShellRunV;

    open spec fn view(&self) -> model::ShellRunV {
        model::ShellRunV { command: self.command@, cwd: opt_str_view(self.cwd), surface_id: self.surface_id }
    }
}

pub open spec fn runs_view(v: Seq<ShellRun>) -> Seq<model::ShellRunV> {
    v.map_values(|r: ShellRun| r@)
}

} // verus!
