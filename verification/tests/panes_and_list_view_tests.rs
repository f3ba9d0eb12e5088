use app_ui::browser::{DirectoryEntry, FileBrowser, FileKind};
use app_ui::config::{BrowserViewMode, SortDirection, SortField};
use app_ui::metadata_demand::{
    DirectoryMetadataDemandKey, DirectoryMetadataLoadContext, DirectoryMetadataLoadRequest,
    DirectoryMetadataOutcome, DirectoryMetadataRequirement,
};
use app_ui::panes::{
    BrowserPane, BrowserPaneId, DirectoryOrderPhase, EntryChangeApplicationTarget, ExpandedDirectory,
    ExpandedDirectoryStatus, PaneDirectoryRole, remember_pane_for_refresh,
};
use app_ui::paths::FsPath;
use app_ui::view_switch::{ViewSwitch, ViewSwitchTransition};
use app_ui::view_modes::{
    advance_expanded_directories, expanded_directory_is_animating, list_directory_is_followable,
    loading_list_directory, DirectoryExpansionLoadContext, ListFollowStep, ListKeyboardStep,
};

fn path(text: &str) -> FsPath {
    FsPath::new(
        text.starts_with('/'),
        text.split('/')
            .filter(|part| !part.is_empty())
            .map(str::to_owned)
            .collect(),
    )
}

fn entry(text: &str, kind: FileKind) -> DirectoryEntry {
    DirectoryEntry { path: path(text), kind, discovery_index: None }
}

fn ready() -> DirectoryOrderPhase {
    DirectoryOrderPhase::Ready { field: SortField::Name, direction: SortDirection::Ascending }
}

fn loaded(text: &str, entries: Vec<DirectoryEntry>) -> ExpandedDirectory {
    ExpandedDirectory {
        path: path(text),
        entries,
        status: ExpandedDirectoryStatus::Loaded,
        is_expanded: true,
        is_collapsing: false,
        animation_progress: 1000,
        load_generation: 1,
        directory_discovery: Some(Vec::new()),
        load_in_flight: false,
        directory_order_phase: ready(),
    }
}

fn pane(id: u64, dir: &str, entries: Vec<DirectoryEntry>) -> BrowserPane {
    BrowserPane {
        id: BrowserPaneId { id },
        is_trash_view: false,
        current_dir: path(dir),
        entries,
        selected: None,
        selected_paths: Vec::new(),
        expanded_directories: Vec::new(),
        directory_load_generation: 1,
        directory_discovery: Some(Vec::new()),
        directory_order_phase: ready(),
    }
}

#[test]
fn entry_changes_reach_every_pane_showing_the_directory() {
    let mut browser = FileBrowser::new(path("/workspace"), path("/trash"));
    browser.expanded_directories = vec![loaded("/workspace/project", vec![])];
    let mut other = pane(1, "/workspace/project", vec![]);
    other.expanded_directories = vec![loaded("/workspace/project", vec![])];
    browser.panes = vec![pane(0, "/workspace/project", vec![]), other, pane(2, "/elsewhere", vec![])];

    let targets = browser.entry_change_application_targets(&path("/workspace/project"));
    assert_eq!(
        targets,
        vec![
            EntryChangeApplicationTarget::ActiveMirror(PaneDirectoryRole::Expanded),
            EntryChangeApplicationTarget::Pane(BrowserPaneId { id: 1 }, PaneDirectoryRole::Root),
            EntryChangeApplicationTarget::Pane(BrowserPaneId { id: 1 }, PaneDirectoryRole::Expanded),
        ]
    );

    let root = browser.entry_change_application_targets(&path("/workspace"));
    assert_eq!(root, vec![EntryChangeApplicationTarget::ActiveMirror(PaneDirectoryRole::Root)]);
    browser.is_trash_view = true;
    assert!(browser.entry_change_application_targets(&path("/workspace")).is_empty());
}

#[test]
fn panes_are_remembered_once_for_refresh() {
    let mut ids = Vec::new();
    remember_pane_for_refresh(&mut ids, BrowserPaneId { id: 3 });
    remember_pane_for_refresh(&mut ids, BrowserPaneId { id: 1 });
    remember_pane_for_refresh(&mut ids, BrowserPaneId { id: 3 });
    assert_eq!(ids, vec![BrowserPaneId { id: 3 }, BrowserPaneId { id: 1 }]);
}

#[test]
fn finished_moves_are_checked_in_every_pane_showing_the_directories() {
    let mut browser = FileBrowser::new(path("/workspace"), path("/trash"));
    browser.entries = vec![entry("/workspace/b.txt", FileKind::File)];
    browser.panes = vec![pane(1, "/workspace", vec![entry("/workspace/a.txt", FileKind::File)])];

    assert!(browser.path_hidden_in_all_displaying_panes(&path("/other/a.txt")));
    assert!(!browser.path_hidden_in_all_displaying_panes(&path("/workspace/a.txt")));
    assert!(!browser.path_shown_in_all_displaying_panes(&path("/workspace/b.txt")));

    browser.panes[0].entries = vec![entry("/workspace/b.txt", FileKind::File)];
    assert!(browser.path_shown_in_all_displaying_panes(&path("/workspace/b.txt")));
    assert!(browser.transfers_are_reflected_in_visible_directories(&vec![(
        path("/workspace/a.txt"),
        path("/workspace/b.txt")
    )]));
    assert!(!browser.path_hidden_in_all_displaying_panes(&FsPath::root()));
}

#[test]
fn animation_opens_in_steps_and_a_finished_close_collapses() {
    let mut opening = loading_list_directory(path("/workspace/a"));
    assert!(expanded_directory_is_animating(&opening));
    let mut closing = loaded("/workspace/b", vec![]);
    closing.is_collapsing = true;
    closing.animation_progress = 200;
    let still = loaded("/workspace/c", vec![]);
    assert!(!expanded_directory_is_animating(&still));
    opening.animation_progress = 900;
    let mut directories = vec![opening, closing, still];

    assert!(advance_expanded_directories(&mut directories));
    assert_eq!(directories[0].animation_progress, 1000);
    assert_eq!(directories[1].animation_progress, 20);
    assert!(directories[1].is_collapsing);

    assert!(advance_expanded_directories(&mut directories));
    assert_eq!(directories[1].animation_progress, 0);
    assert!(!directories[1].is_expanded);
    assert!(!directories[1].is_collapsing);

    assert!(!advance_expanded_directories(&mut directories));
}

#[test]
fn animation_activity_covers_every_pane() {
    let mut browser = FileBrowser::new(path("/workspace"), path("/trash"));
    assert!(!browser.list_directory_animation_is_active());
    let mut other = pane(1, "/elsewhere", vec![]);
    other.expanded_directories = vec![loading_list_directory(path("/elsewhere/x"))];
    browser.panes = vec![other];
    assert!(browser.list_directory_animation_is_active());

    let (active_changed, changed_panes) = browser.advance_list_directory_animations();
    assert!(!active_changed);
    assert_eq!(changed_panes, vec![BrowserPaneId { id: 1 }]);
    assert_eq!(browser.panes[0].expanded_directories[0].animation_progress, 180);
}

fn list_browser() -> FileBrowser {
    let mut browser = FileBrowser::new(path("/w"), path("/trash"));
    browser.view_mode = BrowserViewMode::List;
    browser.entries = vec![entry("/w/a", FileKind::Directory), entry("/w/readme", FileKind::File)];
    browser.expanded_directories = vec![
        loaded("/w/a", vec![entry("/w/a/b", FileKind::Directory), entry("/w/a/x.txt", FileKind::File)]),
        loaded("/w/a/b", vec![entry("/w/a/b/photo.jpg", FileKind::File)]),
    ];
    browser
}

#[test]
fn list_view_hands_over_the_chain_of_open_directories() {
    let mut browser = list_browser();
    browser.selected = Some(path("/w/a/b/photo.jpg"));
    let transfer = browser.list_expansion_transfer().unwrap();
    assert_eq!(transfer.chain, vec![path("/w/a"), path("/w/a/b")]);
    assert_eq!(transfer.target_selection, path("/w/a/b/photo.jpg"));

    browser.selected = Some(path("/w/a/b"));
    let transfer = browser.list_expansion_transfer().unwrap();
    assert_eq!(transfer.chain, vec![path("/w/a"), path("/w/a/b")]);

    browser.selected = Some(path("/w/readme"));
    assert!(browser.list_expansion_transfer().is_none());
    browser.selected = Some(path("/w"));
    assert!(browser.list_expansion_transfer().is_none());

    browser.expanded_directories[0].is_collapsing = true;
    browser.selected = Some(path("/w/a/b/photo.jpg"));
    assert!(browser.list_expansion_transfer().is_none());
    assert!(!list_directory_is_followable(&browser.expanded_directories[0]));
}

#[test]
fn follow_plan_loads_one_link_at_a_time_and_reveals_the_target() {
    let mut browser = FileBrowser::new(path("/w"), path("/trash"));
    browser.view_mode = BrowserViewMode::List;
    browser.entries = vec![entry("/w/a", FileKind::Directory)];
    browser.next_list_expansion_follow_session_id = 7;

    let (cancelled, request) =
        browser.start_list_expansion_follow(vec![path("/w/a"), path("/w/a/b")], path("/w/a/b/photo.jpg"));
    assert!(cancelled.is_empty());
    let request = request.unwrap();
    assert_eq!(request.path, path("/w/a"));
    assert_eq!(request.generation, 1);
    assert!(browser.list_expansion_follow_request_is_current(&request));
    assert_eq!(browser.pending_list_expansion_follow_request(), Some(request.clone()));
    assert_eq!(browser.next_list_expansion_follow_session_id, 8);
    assert!(matches!(
        browser.expanded_directory_load_context(browser.active_pane_id(), &path("/w/a")),
        DirectoryExpansionLoadContext::ListFollow { session_id: 7, .. }
    ));
    assert_eq!(
        browser.expanded_directory_load_context(browser.active_pane_id(), &path("/w/other")),
        DirectoryExpansionLoadContext::BrowserTree { pane_id: browser.active_pane_id() }
    );

    browser.expanded_directories[0].status = ExpandedDirectoryStatus::Loaded;
    browser.expanded_directories[0].entries = vec![entry("/w/a/b", FileKind::Directory)];
    let step = browser.advance_list_expansion_follow(true);
    let next = match step {
        ListFollowStep::Load(request) => request,
        other => panic!("expected the next link, got {other:?}"),
    };
    assert_eq!(next.path, path("/w/a/b"));
    assert!(!browser.list_expansion_follow_request_is_current(&request));
    assert!(browser.list_expansion_follow_request_is_current(&next));

    browser.view_mode = BrowserViewMode::Icons;
    assert!(!browser.list_expansion_follow_request_is_current(&next));
    browser.view_mode = BrowserViewMode::List;

    assert_eq!(browser.advance_list_expansion_follow(true), ListFollowStep::Reveal(path("/w/a/b/photo.jpg")));
    assert!(browser.list_expansion_follow.is_none());
    assert_eq!(browser.advance_list_expansion_follow(true), ListFollowStep::Idle);
}

#[test]
fn follow_plan_stops_on_a_failed_load_or_a_missing_link() {
    let mut browser = FileBrowser::new(path("/w"), path("/trash"));
    browser.view_mode = BrowserViewMode::List;
    browser.entries = vec![entry("/w/a", FileKind::Directory)];
    assert!(browser.start_list_expansion_follow(vec![path("/w/zzz")], path("/w/zzz/f")).1.is_none());
    assert!(browser.list_expansion_follow.is_none());

    browser.start_list_expansion_follow(vec![path("/w/a"), path("/w/a/b")], path("/w/a/b/f")).1.unwrap();
    assert_eq!(browser.advance_list_expansion_follow(false), ListFollowStep::Idle);
    assert!(browser.list_expansion_follow.is_none());

    // Starting again drops what the list had open, with its load.
    let (cancelled, request) =
        browser.start_list_expansion_follow(vec![path("/w/a"), path("/w/a/b")], path("/w/a/b/f"));
    assert_eq!(cancelled, vec![path("/w/a")]);
    request.unwrap();
    browser.expanded_directories[0].status = ExpandedDirectoryStatus::Loaded;
    assert_eq!(browser.advance_list_expansion_follow(true), ListFollowStep::Idle);
    assert!(browser.list_expansion_follow.is_none());

    browser.start_list_expansion_follow(vec![path("/w/a")], path("/w/a/f")).1.unwrap();
    assert_eq!(browser.cancel_list_expansion_follow(), Some(path("/w/a")));
    assert_eq!(browser.cancel_list_expansion_follow(), None);
    assert!(browser.list_expansion_follow.is_none());
    assert!(browser.expanded_directories.is_empty());
}

#[test]
fn direct_entry_selection_is_recognised() {
    let mut browser = list_browser();
    assert!(!browser.selected_is_direct_entry());
    browser.selected = Some(path("/w/readme"));
    assert!(browser.selected_is_direct_entry());
    browser.selected = Some(path("/w/a/x.txt"));
    assert!(!browser.selected_is_direct_entry());
    let id = browser.next_list_expansion_follow_session_id();
    assert_eq!(id, 0);
    browser.next_list_expansion_follow_session_id = u64::MAX;
    assert_eq!(browser.next_list_expansion_follow_session_id(), u64::MAX);
    assert_eq!(browser.next_list_expansion_follow_session_id, 0);
}

fn root_request(generation: u64) -> DirectoryMetadataLoadRequest {
    DirectoryMetadataLoadRequest {
        context: DirectoryMetadataLoadContext::Root {
            pane_id: BrowserPaneId { id: 0 },
            path: path("/w"),
            collection_generation: 4,
        },
        request_generation: generation,
        requirement: DirectoryMetadataRequirement::Filesystem,
        targets: vec![0, 2],
    }
}

#[test]
fn metadata_replies_commit_only_the_sort_they_were_awaited_for() {
    let mut browser = FileBrowser::new(path("/w"), path("/trash"));
    browser.directory_load_generation = 4;
    browser.directory_discovery = Some(Vec::new());
    browser.sort_field = SortField::Size;
    browser.sort_direction = SortDirection::Descending;
    let request = root_request(9);
    browser.directory_metadata_in_flight = vec![
        DirectoryMetadataDemandKey { context: request.context.clone(), requirement: DirectoryMetadataRequirement::Filesystem, index: 0 },
        DirectoryMetadataDemandKey { context: request.context.clone(), requirement: DirectoryMetadataRequirement::Filesystem, index: 1 },
        DirectoryMetadataDemandKey { context: request.context.clone(), requirement: DirectoryMetadataRequirement::IdentityNames, index: 2 },
    ];

    browser.set_directory_order_waiting(&request.context, 9);
    assert_eq!(
        browser.directory_order_phase,
        DirectoryOrderPhase::WaitingForMetadata { request_generation: 9, field: SortField::Size, direction: SortDirection::Descending }
    );
    assert!(browser.directory_metadata_request_is_current(&request));

    let commit = browser.accept_directory_metadata_resolution(
        &request,
        DirectoryMetadataOutcome::Resolved {
            request_generation: 9,
            requirement: DirectoryMetadataRequirement::Filesystem,
            first_warning: Some("cannot read x".to_owned()),
        },
    );
    assert!(commit);
    assert_eq!(browser.global_error.as_deref(), Some("cannot read x"));
    assert_eq!(browser.directory_metadata_in_flight.len(), 2);

    assert_eq!(browser.metadata_sort_order(&request.context, 8), None);
    assert_eq!(
        browser.metadata_sort_order(&request.context, 9),
        Some((SortField::Size, SortDirection::Descending))
    );
    assert!(!browser.commit_metadata_sort(&request.context, 8, true, vec![]));
    let sorted = vec![entry("/w/big", FileKind::File), entry("/w/small", FileKind::File)];
    // Not every entry has its size yet: the listing keeps waiting.
    assert!(!browser.commit_metadata_sort(&request.context, 9, false, sorted.clone()));
    assert_ne!(browser.entries, sorted);
    assert!(browser.commit_metadata_sort(&request.context, 9, true, sorted.clone()));
    assert_eq!(browser.entries, sorted);
    assert_eq!(
        browser.directory_order_phase,
        DirectoryOrderPhase::Ready { field: SortField::Size, direction: SortDirection::Descending }
    );
}

#[test]
fn stale_or_failed_metadata_replies_are_dropped() {
    let mut browser = FileBrowser::new(path("/w"), path("/trash"));
    browser.directory_load_generation = 5;
    browser.directory_discovery = Some(Vec::new());
    let stale = root_request(1);
    assert!(!browser.directory_metadata_request_is_current(&stale));
    assert!(!browser.accept_directory_metadata_resolution(
        &stale,
        DirectoryMetadataOutcome::ReadFailed("gone".to_owned())
    ));
    assert_eq!(browser.global_error, None);

    browser.directory_load_generation = 4;
    assert!(!browser.accept_directory_metadata_resolution(
        &stale,
        DirectoryMetadataOutcome::ReadFailed("gone".to_owned())
    ));
    assert_eq!(browser.global_error.as_deref(), Some("gone"));
    assert!(!browser.accept_directory_metadata_resolution(&stale, DirectoryMetadataOutcome::Cancelled));

    browser.directory_metadata_in_flight = vec![DirectoryMetadataDemandKey {
        context: stale.context.clone(),
        requirement: DirectoryMetadataRequirement::Filesystem,
        index: 3,
    }];
    browser.clear_directory_metadata_demands_for_pane(BrowserPaneId { id: 1 });
    assert_eq!(browser.directory_metadata_in_flight.len(), 1);
    browser.clear_directory_metadata_demands_for_pane(BrowserPaneId { id: 0 });
    assert!(browser.directory_metadata_in_flight.is_empty());
}

#[test]
fn expanded_listings_of_other_panes_wait_and_commit_in_place() {
    let mut browser = FileBrowser::new(path("/w"), path("/trash"));
    let mut other = pane(1, "/elsewhere", vec![]);
    other.expanded_directories = vec![loaded("/elsewhere/x", vec![])];
    browser.panes = vec![other];
    let context = DirectoryMetadataLoadContext::Expanded {
        pane_id: BrowserPaneId { id: 1 },
        path: path("/elsewhere/x"),
        load_generation: 1,
    };
    let request = DirectoryMetadataLoadRequest {
        context: context.clone(),
        request_generation: 3,
        requirement: DirectoryMetadataRequirement::Filesystem,
        targets: vec![],
    };
    assert!(browser.directory_metadata_request_is_current(&request));
    browser.set_directory_order_waiting(&context, 3);
    let sorted = vec![entry("/elsewhere/x/1", FileKind::File)];
    assert!(browser.commit_metadata_sort(&context, 3, true, sorted.clone()));
    assert_eq!(browser.panes[0].expanded_directories[0].entries, sorted);
    assert_eq!(browser.panes[0].expanded_directories[0].directory_order_phase, ready());
}

#[test]
fn toggling_a_listed_directory_opens_and_closes_it() {
    let mut browser = FileBrowser::new(path("/w"), path("/trash"));
    browser.entries = vec![entry("/w/a", FileKind::Directory), entry("/w/f", FileKind::File)];

    assert!(browser.toggle_list_directory_for_path(path("/w/f")).is_none());
    assert!(browser.expanded_directories.is_empty());

    let request = browser.toggle_list_directory_for_path(path("/w/a")).unwrap();
    assert_eq!(request.path, path("/w/a"));
    assert_eq!(request.context, DirectoryExpansionLoadContext::BrowserTree { pane_id: browser.active_pane_id() });
    assert_eq!(browser.expanded_directories.len(), 1);
    assert!(browser.expanded_directories[0].load_in_flight);

    browser.expanded_directories[0].animation_progress = 540;
    assert!(browser.toggle_list_directory_for_path(path("/w/a")).is_none());
    assert!(browser.expanded_directories[0].is_collapsing);
    assert!(!browser.expanded_directories[0].load_in_flight);

    assert!(browser.toggle_list_directory_for_path(path("/w/a")).is_none());
    assert!(browser.expanded_directories[0].is_expanded);
    assert!(!browser.expanded_directories[0].is_collapsing);
    assert_eq!(browser.expanded_directories[0].animation_progress, 540);

    browser.is_trash_view = true;
    assert!(browser.toggle_list_directory_for_path(path("/w/a")).is_none());
    assert!(browser.expanded_directories[0].is_expanded);
    assert_eq!(browser.entry_kind(&path("/w/f")), Some(FileKind::File));
    assert_eq!(browser.entry_kind(&path("/w/zzz")), None);
}

#[test]
fn right_key_opens_a_closed_directory_and_enters_an_open_one() {
    let mut browser = FileBrowser::new(path("/workspace"), path("/trash"));
    browser.view_mode = BrowserViewMode::List;
    browser.entries = vec![entry("/workspace/project", FileKind::Directory), entry("/workspace/a.txt", FileKind::File)];
    browser.selected = Some(path("/workspace/a.txt"));
    assert_eq!(browser.expand_selected_list_directory(), (None, ListKeyboardStep::Nothing));

    browser.selected = Some(path("/workspace/project"));
    match browser.expand_selected_list_directory() {
        (None, ListKeyboardStep::Opened(Some(_))) => {}
        other => panic!("expected a load, got {other:?}"),
    }
    assert!(browser.expanded_directories[0].is_expanded);
    // Loaded and open now: Right moves into it.
    browser.expanded_directories = vec![loaded("/workspace/project", vec![])];
    assert_eq!(
        browser.expand_selected_list_directory(),
        (None, ListKeyboardStep::SelectFirstVisibleChild(path("/workspace/project")))
    );
}

#[test]
fn left_key_collapses_or_selects_the_parent() {
    let mut browser = FileBrowser::new(path("/workspace"), path("/trash"));
    browser.view_mode = BrowserViewMode::List;
    browser.expanded_directories = vec![loaded("/workspace/project", vec![entry("/workspace/project/b.txt", FileKind::File)])];
    browser.selected = Some(path("/workspace/project"));
    assert_eq!(browser.collapse_selected_list_directory_or_select_parent(), (None, ListKeyboardStep::Collapsed));
    assert!(browser.expanded_directories[0].is_collapsing);

    browser.selected = Some(path("/workspace/project/b.txt"));
    assert_eq!(
        browser.collapse_selected_list_directory_or_select_parent(),
        (None, ListKeyboardStep::SelectParentIfVisible(path("/workspace/project")))
    );
    browser.selected = Some(path("/workspace/a.txt"));
    assert_eq!(browser.collapse_selected_list_directory_or_select_parent(), (None, ListKeyboardStep::Nothing));
}

#[test]
fn leaving_the_columns_view_keeps_only_the_open_columns_expanded() {
    let mut browser = FileBrowser::new(path("/workspace"), path("/trash"));
    let mut closing = loaded("/workspace/project", vec![]);
    closing.is_collapsing = true;
    closing.animation_progress = 300;
    browser.expanded_directories = vec![closing, loaded("/workspace/other", vec![]), loaded("/workspace", vec![])];
    let cancelled =
        browser.sync_expanded_directories_to_open_columns(&vec![path("/workspace"), path("/workspace/project")]);
    assert_eq!(cancelled, vec![path("/workspace/other"), path("/workspace")]);
    assert_eq!(browser.expanded_directories.len(), 1);
    let kept = &browser.expanded_directories[0];
    assert_eq!(kept.path, path("/workspace/project"));
    assert!(kept.is_expanded && !kept.is_collapsing);
    assert_eq!(kept.animation_progress, 1000);
}

#[test]
fn switching_to_the_same_view_does_nothing() {
    let mut browser = list_browser();
    browser.hovered_entry = Some(path("/w/a"));
    assert_eq!(browser.select_browser_view_mode(BrowserViewMode::List, None, &Vec::new()), None);
    assert_eq!(browser.hovered_entry, Some(path("/w/a")));
    assert_eq!(browser.view_mode, BrowserViewMode::List);
    assert_eq!(browser.expanded_directories.len(), 2);
}

#[test]
fn list_to_icons_hands_the_open_chain_to_the_icon_view() {
    let mut browser = list_browser();
    browser.selected = Some(path("/w/a/b/photo.jpg"));
    browser.selected_paths = vec![path("/w/a/b/photo.jpg"), path("/w/readme")];
    browser.hovered_entry = Some(path("/w/a"));
    browser.cursor_paste_directory = Some(path("/w/a"));

    let switch = browser
        .select_browser_view_mode(BrowserViewMode::Icons, None, &Vec::new())
        .unwrap();

    match switch.transition {
        Some(ViewSwitchTransition::StartIconGridFollow(transfer)) => {
            assert_eq!(transfer.chain, vec![path("/w/a"), path("/w/a/b")]);
            assert_eq!(transfer.target_selection, path("/w/a/b/photo.jpg"));
        }
        other => panic!("expected the icon view to follow the chain, got {other:?}"),
    }
    assert!(!switch.schedule_list_summaries);
    assert_eq!(browser.view_mode, BrowserViewMode::Icons);
    // The icon view shows no expanded subdirectories: only direct entries
    // stay selected.
    assert_eq!(browser.selected, None);
    assert_eq!(browser.selected_paths, vec![path("/w/readme")]);
    assert_eq!(browser.hovered_entry, None);
    assert_eq!(browser.cursor_paste_directory, None);
}

#[test]
fn icons_to_list_follows_the_icon_views_chain() {
    let mut browser = FileBrowser::new(path("/w"), path("/trash"));
    browser.view_mode = BrowserViewMode::Icons;
    browser.entries = vec![entry("/w/a", FileKind::Directory)];
    browser.selected = Some(path("/w/a"));
    browser.selected_paths = vec![path("/w/a")];
    let transfer = app_ui::view_modes::DirectoryExpansionTransfer {
        chain: vec![path("/w/a")],
        target_selection: path("/w/a/f"),
    };

    let switch = browser
        .select_browser_view_mode(BrowserViewMode::List, Some(transfer), &Vec::new())
        .unwrap();

    assert!(switch.schedule_list_summaries);
    match switch.transition {
        Some(ViewSwitchTransition::LoadExpandedDirectory(request)) => {
            assert_eq!(request.path, path("/w/a"));
            assert!(browser.list_expansion_follow_request_is_current(&request));
        }
        other => panic!("expected the first link to load, got {other:?}"),
    }
    assert_eq!(browser.selected, Some(path("/w/a")));
    assert_eq!(browser.expanded_directories.len(), 1);
}

#[test]
fn icons_to_list_without_a_chain_starts_with_nothing_expanded() {
    let mut browser = list_browser();
    browser.view_mode = BrowserViewMode::Icons;
    let switch = browser
        .select_browser_view_mode(BrowserViewMode::List, None, &Vec::new())
        .unwrap();
    assert_eq!(
        switch,
        ViewSwitch {
            transition: None,
            schedule_list_summaries: true,
            cancelled_loads: vec![path("/w/a"), path("/w/a/b")],
        }
    );
    assert!(browser.expanded_directories.is_empty());
    assert!(browser.list_expansion_follow.is_none());
}

#[test]
fn columns_and_list_hand_over_their_open_directories() {
    let mut browser = list_browser();
    browser.view_mode = BrowserViewMode::Columns;
    let switch = browser
        .select_browser_view_mode(BrowserViewMode::List, None, &vec![path("/w"), path("/w/a")])
        .unwrap();
    assert_eq!(switch.transition, None);
    assert_eq!(switch.cancelled_loads, vec![path("/w/a/b")]);
    assert_eq!(browser.expanded_directories.len(), 1);
    assert_eq!(browser.expanded_directories[0].path, path("/w/a"));

    browser.selected = Some(path("/w/a/x.txt"));
    browser.selected_paths = vec![path("/w/a/x.txt")];
    let switch = browser
        .select_browser_view_mode(BrowserViewMode::Columns, None, &Vec::new())
        .unwrap();
    assert_eq!(switch.transition, Some(ViewSwitchTransition::OpenSelectedColumn));
    // Leaving the list for the columns keeps the whole selection.
    assert_eq!(browser.selected, Some(path("/w/a/x.txt")));

    browser.view_mode = BrowserViewMode::Icons;
    let switch = browser
        .select_browser_view_mode(BrowserViewMode::Columns, None, &Vec::new())
        .unwrap();
    assert_eq!(switch.transition, None);
}

#[test]
fn keeping_direct_entries_drops_the_rest_of_the_selection() {
    let mut browser = list_browser();
    browser.selected = Some(path("/w/readme"));
    browser.selected_paths = vec![path("/w/a/x.txt"), path("/w/readme"), path("/w/a")];
    browser.retain_direct_entry_selection();
    assert_eq!(browser.selected, Some(path("/w/readme")));
    assert_eq!(browser.selected_paths, vec![path("/w/readme"), path("/w/a")]);
}

#[test]
fn visible_column_count_selection_normalizes_to_configured_range() {
    let mut browser = FileBrowser::new(path("/w"), path("/trash"));

    drop(browser.select_visible_column_count(2));
    assert_eq!(browser.user_config.visible_column_count, 3);

    drop(browser.select_visible_column_count(99));
    assert_eq!(browser.user_config.visible_column_count, 5);

    drop(browser.select_visible_column_count(4));
    assert_eq!(browser.user_config.visible_column_count, 4);
}

#[test]
fn column_count_changes_are_reported_once() {
    let mut browser = FileBrowser::new(path("/w"), path("/trash"));
    assert!(!browser.select_visible_column_count(3));
    assert!(browser.select_visible_column_count(5));
    assert!(!browser.select_visible_column_count(7));
}

#[test]
fn a_view_switch_remembers_the_mode_in_the_preferences() {
    let mut browser = list_browser();
    browser.select_browser_view_mode(BrowserViewMode::Columns, None, &Vec::new()).unwrap();
    assert_eq!(browser.user_config.browser_view_mode, BrowserViewMode::Columns);
}

#[test]
fn selection_metadata_is_rescheduled_only_when_a_selection_changes() {
    let mut browser = FileBrowser::new(path("/w"), path("/trash"));
    browser.directory_discovery = Some(Vec::new());
    browser.entries = vec![
        DirectoryEntry { path: path("/w/a"), kind: FileKind::File, discovery_index: Some(0) },
        DirectoryEntry { path: path("/w/b"), kind: FileKind::File, discovery_index: Some(1) },
    ];
    browser.panes = vec![pane(0, "/w", Vec::new()), pane(1, "/x", Vec::new())];
    browser.selected_paths = vec![path("/w/a"), path("/w/b")];

    let scheduled = browser.schedule_selected_metadata_if_selection_changed();
    assert_eq!(scheduled.len(), 2);
    assert_eq!(scheduled[0].0, BrowserPaneId { id: 0 });
    assert_eq!(scheduled[0].1.len(), 1);
    assert_eq!(scheduled[0].1[0].targets, vec![0, 1]);
    assert_eq!(scheduled[1].0, BrowserPaneId { id: 1 });

    assert!(browser.schedule_selected_metadata_if_selection_changed().is_empty());
    browser.selected_paths = vec![path("/w/b"), path("/w/a")];
    assert!(browser.schedule_selected_metadata_if_selection_changed().is_empty());

    browser.panes[1].selected_paths = vec![path("/x/z")];
    assert_eq!(browser.schedule_selected_metadata_if_selection_changed().len(), 2);
    assert!(browser.schedule_selected_metadata_if_selection_changed().is_empty());
}

#[test]
fn keys_that_drop_a_follow_plan_hand_back_its_load() {
    let mut browser = FileBrowser::new(path("/w"), path("/trash"));
    browser.view_mode = BrowserViewMode::List;
    browser.entries = vec![entry("/w/a", FileKind::Directory)];
    browser.start_list_expansion_follow(vec![path("/w/a")], path("/w/a/f")).1.unwrap();
    browser.selected = Some(path("/w/a"));
    let (cancelled, _) = browser.collapse_selected_list_directory_or_select_parent();
    assert_eq!(cancelled, Some(path("/w/a")));
    assert!(browser.list_expansion_follow.is_none());

    browser.start_list_expansion_follow(vec![path("/w/a")], path("/w/a/f")).1.unwrap();
    let (cancelled, _) = browser.expand_selected_list_directory();
    assert_eq!(cancelled, Some(path("/w/a")));
    assert_eq!(browser.cancel_expansion_follow_plans(), None);
}
