use chostty::layout_state::{PaneState, TabContentState};

#[test]
fn browser_only_pane_creates_a_single_browser_tab() {
    let pane = PaneState::browser_only(Some("https://example.com"));

    assert_eq!(pane.tabs.len(), 1);
    assert_eq!(pane.active_tab_id.as_deref(), Some("browser-0"));
    match &pane.tabs[0].content {
        TabContentState::Browser { uri } => {
            assert_eq!(uri.as_deref(), Some("https://example.com"));
        }
        other => panic!("expected browser tab, got {other:?}"),
    }
}

use chostty::layout_state::{
    canonical_session_path_in, legacy_workspaces_path_in, load_session_from_files, normalize_layout,
    AppSessionState, LayoutNodeState, LegacySavedWorkspace, SessionLoadSource, SplitOrientation, SplitState,
    TabState, WorkspaceState,
};

#[test]
fn normalize_layout_falls_back_to_first_tab_when_active_tab_is_stale() {
    let mut layout = LayoutNodeState::Pane(PaneState {
        active_tab_id: Some("missing".to_string()),
        tabs: vec![TabState {
            id: "browser-1".to_string(),
            custom_name: None,
            pinned: false,
            content: TabContentState::Browser { uri: Some("https://example.com".to_string()) },
        }],
    });

    normalize_layout(&mut layout, None);

    let LayoutNodeState::Pane(pane) = layout else {
        panic!("expected pane");
    };
    assert_eq!(pane.active_tab_id.as_deref(), Some("browser-1"));
}

#[test]
fn normalize_layout_rebuilds_empty_pane_from_working_directory() {
    let mut layout = LayoutNodeState::Pane(PaneState { active_tab_id: None, tabs: Vec::new() });

    normalize_layout(&mut layout, Some("/tmp/project"));

    let LayoutNodeState::Pane(pane) = layout else {
        panic!("expected pane");
    };
    assert_eq!(pane.tabs.len(), 1);
    match &pane.tabs[0].content {
        TabContentState::Terminal { cwd } => {
            assert_eq!(cwd.as_deref(), Some("/tmp/project"));
        }
        other => panic!("expected terminal fallback, got {other:?}"),
    }
}

#[test]
fn normalize_layout_reaches_panes_inside_splits() {
    let mut layout = LayoutNodeState::Split(SplitState {
        orientation: SplitOrientation::Horizontal,
        ratio_bits: 0,
        start: Box::new(LayoutNodeState::Pane(PaneState { active_tab_id: None, tabs: Vec::new() })),
        end: Box::new(LayoutNodeState::Pane(PaneState::browser_only(None))),
    });
    normalize_layout(&mut layout, Some("/srv"));
    let LayoutNodeState::Split(split) = layout else {
        panic!("expected split");
    };
    let LayoutNodeState::Pane(left) = *split.start else {
        panic!("expected pane");
    };
    assert_eq!(left.active_tab_id.as_deref(), Some("terminal-0"));
    let LayoutNodeState::Pane(right) = *split.end else {
        panic!("expected pane");
    };
    assert_eq!(right.active_tab_id.as_deref(), Some("browser-0"));
}

#[test]
fn load_prefers_canonical_session_over_legacy() {
    let mut canonical = AppSessionState::default();
    canonical.workspaces.push(WorkspaceState {
        name: "canonical".to_string(),
        favorite: false,
        cwd: Some("/canonical".to_string()),
        folder_path: None,
        layout: LayoutNodeState::Pane(PaneState::fallback(Some("/canonical"))),
    });
    let legacy = vec![LegacySavedWorkspace {
        name: "legacy".to_string(),
        favorite: false,
        cwd: Some("/legacy".to_string()),
        folder_path: None,
    }];
    let loaded = load_session_from_files(Some(Some(canonical)), Some(Some(legacy)));
    assert_eq!(loaded.source, SessionLoadSource::Canonical);
    assert_eq!(loaded.state.workspaces[0].name, "canonical");
}

#[test]
fn load_migrates_legacy_workspaces_when_canonical_missing() {
    let legacy = vec![LegacySavedWorkspace {
        name: "legacy".to_string(),
        favorite: true,
        cwd: Some("/tmp/project".to_string()),
        folder_path: None,
    }];
    let loaded = load_session_from_files(None, Some(Some(legacy)));
    assert_eq!(loaded.source, SessionLoadSource::Legacy);
    assert_eq!(loaded.state.workspaces.len(), 1);
    assert_eq!(loaded.state.workspaces[0].name, "legacy");
    assert!(loaded.state.workspaces[0].favorite);
    let LayoutNodeState::Pane(pane) = &loaded.state.workspaces[0].layout else {
        panic!("legacy migration should create a pane layout");
    };
    match &pane.tabs[0].content {
        TabContentState::Terminal { cwd } => assert_eq!(cwd.as_deref(), Some("/tmp/project")),
        other => panic!("expected terminal tab, got {other:?}"),
    }
}

#[test]
fn load_returns_empty_state_for_corrupt_canonical_file() {
    let loaded = load_session_from_files(Some(None), None);
    assert_eq!(loaded.source, SessionLoadSource::Canonical);
    assert!(loaded.state.workspaces.is_empty());
    assert!(loaded.state.top_bar_visible);
}

#[test]
fn load_without_files_is_empty() {
    let loaded = load_session_from_files(None, None);
    assert_eq!(loaded.source, SessionLoadSource::Empty);
    assert!(loaded.state.workspaces.is_empty());
    assert_eq!(loaded.state.version, 1);
    assert_eq!(loaded.state.sidebar.width, 220);
}

#[test]
fn session_files_live_in_the_state_dir() {
    assert_eq!(canonical_session_path_in("/home/u/.local/state/chostty"), "/home/u/.local/state/chostty/session.json");
    assert_eq!(legacy_workspaces_path_in("/data"), "/data/workspaces.json");
}
