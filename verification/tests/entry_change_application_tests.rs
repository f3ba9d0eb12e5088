use app_ui::browser::{DirectoryEntry, FileBrowser, FileKind};
use app_ui::config::{SortDirection, SortField};
use app_ui::entry_change_application::display_entries_in_discovery_order;
use app_ui::entry_changes::{DiscoveredEntry, ResolvedEntryChange};
use app_ui::panes::{
    BrowserPane, BrowserPaneId, DirectoryOrderPhase, ExpandedDirectory, ExpandedDirectoryStatus,
};
use app_ui::paths::FsPath;

fn path(text: &str) -> FsPath {
    FsPath::new(
        text.starts_with('/'),
        text.split('/')
            .filter(|part| !part.is_empty())
            .map(str::to_owned)
            .collect(),
    )
}

fn file(text: &str) -> DiscoveredEntry {
    let hidden = text.rsplit('/').next().unwrap_or("").starts_with('.');
    DiscoveredEntry { path: path(text), kind: FileKind::File, hidden }
}

fn added(text: &str) -> ResolvedEntryChange {
    ResolvedEntryChange::Added(file(text))
}

/// Orders a discovery's entries by name, as a name sort does.
fn by_name(entries: &Vec<DiscoveredEntry>) -> Vec<usize> {
    let mut order: Vec<usize> = (0..entries.len()).collect();
    order.sort_by(|a, b| entries[*a].path.file_name().cmp(&entries[*b].path.file_name()));
    order
}

fn names(entries: &[DirectoryEntry]) -> Vec<String> {
    entries
        .iter()
        .map(|entry| entry.path.file_name().unwrap_or_default())
        .collect()
}

fn browser_showing(dir: &str, files: &[&str]) -> FileBrowser {
    let mut browser = FileBrowser::new(path(dir), path("/trash"));
    let discovery: Vec<DiscoveredEntry> = files.iter().map(|name| file(&format!("{dir}/{name}"))).collect();
    browser.entries = display_entries_in_discovery_order(&discovery, &by_name(&discovery));
    browser.directory_discovery = Some(discovery);
    browser
}

fn ready() -> DirectoryOrderPhase {
    DirectoryOrderPhase::Ready { field: SortField::Name, direction: SortDirection::Ascending }
}

fn expanded_loaded(dir: &str, files: &[&str]) -> ExpandedDirectory {
    let discovery: Vec<DiscoveredEntry> = files.iter().map(|name| file(&format!("{dir}/{name}"))).collect();
    ExpandedDirectory {
        path: path(dir),
        entries: display_entries_in_discovery_order(&discovery, &by_name(&discovery)),
        status: ExpandedDirectoryStatus::Loaded,
        is_expanded: true,
        is_collapsing: false,
        animation_progress: 1000,
        load_generation: 0,
        directory_discovery: Some(discovery),
        load_in_flight: false,
        directory_order_phase: ready(),
    }
}

fn inactive_pane(id: u64, dir: &str, files: &[&str]) -> BrowserPane {
    let discovery: Vec<DiscoveredEntry> = files.iter().map(|name| file(&format!("{dir}/{name}"))).collect();
    BrowserPane {
        id: BrowserPaneId { id },
        is_trash_view: false,
        current_dir: path(dir),
        entries: display_entries_in_discovery_order(&discovery, &by_name(&discovery)),
        selected: None,
        selected_paths: Vec::new(),
        expanded_directories: Vec::new(),
        directory_load_generation: 1,
        directory_discovery: Some(discovery),
        directory_order_phase: ready(),
    }
}

/// The active pane shows `active_dir`, the inactive pane 1 shows `inactive_dir`.
fn split_browser(active_dir: &str, active_files: &[&str], inactive_dir: &str, inactive_files: &[&str]) -> FileBrowser {
    let mut browser = browser_showing(active_dir, active_files);
    let mut stale = inactive_pane(0, active_dir, active_files);
    stale.entries = Vec::new();
    browser.panes = vec![stale, inactive_pane(1, inactive_dir, inactive_files)];
    browser
}

#[test]
fn rescan_required_or_missing_targets_fall_back_to_full_reload() {
    let mut browser = FileBrowser::new(path("/tmp/somewhere"), path("/trash"));

    let current_dir = browser.current_dir.clone();
    assert!(browser
        .apply_entry_changes(&current_dir, &vec![ResolvedEntryChange::RescanRequired], by_name)
        .is_none());
    assert!(browser
        .apply_entry_changes(
            &path("/tmp/unrelated"),
            &vec![ResolvedEntryChange::Removed { path: path("/tmp/unrelated/x") }],
            by_name,
        )
        .is_none());
}

#[test]
fn added_entries_land_in_sorted_position() {
    let mut browser = browser_showing("/w", &["a.txt", "c.txt"]);

    let effects = browser.apply_entry_changes(&path("/w"), &vec![added("/w/b.txt")], by_name);

    assert_eq!(names(&browser.entries), vec!["a.txt", "b.txt", "c.txt"]);
    let discovery = browser.directory_discovery.as_ref().unwrap();
    assert_eq!(discovery.len(), 3);
    let order = by_name(discovery);
    assert!(browser
        .entries
        .iter()
        .enumerate()
        .all(|(position, entry)| entry.discovery_index == Some(order[position])));
    let effects = effects.unwrap();
    assert_eq!(effects.direct_child_count, Some(3));
    assert_eq!(effects.thumbnail_panes, vec![BrowserPaneId { id: 0 }]);
}

#[test]
fn removed_entries_drop_out_and_clear_selection() {
    let mut browser = browser_showing("/w", &["a.txt", "b.txt"]);
    browser.selected = Some(path("/w/a.txt"));
    browser.selected_paths = vec![path("/w/a.txt")];

    let effects = browser.apply_entry_changes(
        &path("/w"),
        &vec![ResolvedEntryChange::Removed { path: path("/w/a.txt") }],
        by_name,
    );

    assert!(effects.is_some());
    assert_eq!(names(&browser.entries), vec!["b.txt"]);
    assert!(!browser.selected_paths.contains(&path("/w/a.txt")));
    assert_eq!(browser.selected, None);
}

#[test]
fn same_directory_rename_moves_entry_in_place() {
    let mut browser = browser_showing("/w", &["old.txt"]);

    let change = ResolvedEntryChange::Renamed { from: path("/w/old.txt"), to: file("/w/new.txt") };
    assert!(browser.apply_entry_changes(&path("/w"), &vec![change], by_name).is_some());

    assert_eq!(names(&browser.entries), vec!["new.txt"]);
    assert!(browser.find_discovered_entry(&path("/w/new.txt")).is_some());
    assert!(browser.find_discovered_entry(&path("/w/old.txt")).is_none());
}

#[test]
fn cross_directory_move_updates_both_expanded_lists_without_trespass() {
    let mut browser = FileBrowser::new(path("/w"), path("/trash"));
    browser.expanded_directories = vec![expanded_loaded("/w/src", &["moved.txt"]), expanded_loaded("/w/dst", &[])];

    assert!(browser
        .apply_entry_changes(
            &path("/w/src"),
            &vec![ResolvedEntryChange::Removed { path: path("/w/src/moved.txt") }],
            by_name,
        )
        .is_some());
    assert!(browser.apply_entry_changes(&path("/w/dst"), &vec![added("/w/dst/moved.txt")], by_name).is_some());

    let source_entries = &browser.expanded_directories[0].entries;
    let target_entries = &browser.expanded_directories[1].entries;
    assert!(source_entries.iter().all(|entry| entry.path != path("/w/src/moved.txt")));
    assert!(target_entries.iter().any(|entry| entry.path == path("/w/dst/moved.txt")));
    assert!(source_entries.iter().all(|entry| entry.path.starts_with(&path("/w/src"))));
    assert!(browser.transfers_are_reflected_in_visible_directories(&vec![(
        path("/w/src/moved.txt"),
        path("/w/dst/moved.txt"),
    )]));
}

#[test]
fn hidden_additions_are_ignored_when_hidden_files_are_excluded() {
    let mut browser = browser_showing("/w", &["a.txt"]);

    let effects = browser.apply_entry_changes(&path("/w"), &vec![added("/w/.hidden")], by_name);

    assert_eq!(names(&browser.entries), vec!["a.txt"]);
    assert!(effects.is_none());
}

#[test]
fn changes_reach_every_pane_displaying_the_same_directory() {
    let mut browser = split_browser("/w/shared", &["a.txt"], "/w/shared", &["a.txt"]);

    let effects = browser.apply_entry_changes(&path("/w/shared"), &vec![added("/w/shared/fresh.txt")], by_name);

    let effects = effects.unwrap();
    assert!(names(&browser.entries).contains(&"fresh.txt".to_string()));
    assert!(names(&browser.panes[1].entries).contains(&"fresh.txt".to_string()));
    assert_eq!(effects.thumbnail_panes, vec![BrowserPaneId { id: 0 }, BrowserPaneId { id: 1 }]);
    assert_eq!(effects.direct_child_count, Some(2));
    // The active pane's stale copy among the panes is left alone.
    assert!(browser.panes[0].entries.is_empty());
}

#[test]
fn watcher_event_updates_directory_displayed_only_by_inactive_pane() {
    let mut browser = split_browser("/w/active", &[], "/w/inactive", &[]);

    let effects =
        browser.apply_entry_changes(&path("/w/inactive"), &vec![added("/w/inactive/external.txt")], by_name);

    assert!(effects.is_some());
    assert!(browser.entries.is_empty());
    assert_eq!(names(&browser.panes[1].entries), vec!["external.txt"]);
    assert_eq!(effects.unwrap().thumbnail_panes, vec![BrowserPaneId { id: 1 }]);
}

#[test]
fn cross_pane_move_clears_the_inactive_source_selection() {
    let mut browser = split_browser("/w/dst", &[], "/w/src", &["moved.txt"]);
    browser.panes[1].selected = Some(path("/w/src/moved.txt"));
    browser.panes[1].selected_paths = vec![path("/w/src/moved.txt")];

    assert!(browser
        .apply_entry_changes(
            &path("/w/src"),
            &vec![ResolvedEntryChange::Removed { path: path("/w/src/moved.txt") }],
            by_name,
        )
        .is_some());
    assert!(browser.apply_entry_changes(&path("/w/dst"), &vec![added("/w/dst/moved.txt")], by_name).is_some());

    assert_eq!(names(&browser.entries), vec!["moved.txt"]);
    let pane = &browser.panes[1];
    assert!(pane.entries.iter().all(|entry| entry.path != path("/w/src/moved.txt")));
    assert_eq!(pane.selected, None);
    assert!(pane.selected_paths.is_empty());
}

#[test]
fn an_empty_batch_changes_nothing_and_leaves_nothing_to_do() {
    let mut browser = browser_showing("/w", &["a.txt"]);
    browser.selected = Some(path("/w/a.txt"));
    let discovery_before = browser.directory_discovery.clone();
    let entries_before = browser.entries.clone();

    let effects = browser.apply_entry_changes(&path("/w"), &Vec::new(), by_name).unwrap();

    assert_eq!(effects.direct_child_count, None);
    assert!(effects.thumbnail_panes.is_empty());
    assert_eq!(browser.directory_discovery, discovery_before);
    assert_eq!(browser.entries, entries_before);
    assert_eq!(browser.selected, Some(path("/w/a.txt")));
}

#[test]
fn the_trash_view_takes_no_incremental_changes() {
    let mut browser = browser_showing("/w", &["a.txt"]);
    browser.is_trash_view = true;

    assert!(browser.apply_entry_changes(&path("/w"), &vec![added("/w/b.txt")], by_name).is_none());
    assert_eq!(names(&browser.entries), vec!["a.txt"]);
}

#[test]
fn a_place_past_the_end_of_the_discovery_shows_nothing() {
    let discovery = vec![file("/w/a"), file("/w/b")];
    let shown = display_entries_in_discovery_order(&discovery, &vec![1, 5, 0]);
    assert_eq!(names(&shown), vec!["b", "a"]);
    assert_eq!(shown[0].discovery_index, Some(1));
    assert_eq!(shown[1].discovery_index, Some(0));
}

#[test]
fn a_drag_over_another_pane_drops_into_its_directory() {
    let mut browser = split_browser("/w/active", &[], "/w/other", &[]);
    assert_eq!(browser.file_drag_drop_directory_at_cursor(Some(BrowserPaneId { id: 1 })), Some(path("/w/other")));
    assert_eq!(browser.file_drag_drop_directory_at_cursor(Some(BrowserPaneId { id: 0 })), None);
    assert_eq!(browser.file_drag_drop_directory_at_cursor(None), None);
    assert_eq!(browser.file_drag_drop_directory_at_cursor(Some(BrowserPaneId { id: 7 })), None);
    browser.panes[1].is_trash_view = true;
    assert_eq!(browser.file_drag_drop_directory_at_cursor(Some(BrowserPaneId { id: 1 })), None);
}

#[test]
fn discovered_entries_are_found_in_inactive_panes_too() {
    let mut browser = split_browser("/w/dst", &["here.txt"], "/w/src", &["moved.txt"]);
    browser.expanded_directories = vec![expanded_loaded("/w/dst/sub", &["inner.txt"])];
    assert_eq!(browser.find_discovered_entry(&path("/w/dst/here.txt")), Some(file("/w/dst/here.txt")));
    assert_eq!(browser.find_discovered_entry(&path("/w/dst/sub/inner.txt")), Some(file("/w/dst/sub/inner.txt")));
    assert_eq!(browser.find_discovered_entry(&path("/w/src/moved.txt")), Some(file("/w/src/moved.txt")));
    assert_eq!(browser.find_discovered_entry(&path("/w/src/absent.txt")), None);
}
