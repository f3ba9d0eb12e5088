use app_ui::app_config::{
    app_config_document, config_file_path, config_preserving_probe_cache, default_app_config,
    app_config_from_document, document_from_entries, matugen_theme_file_path, parse_toml_app_config, read_document,
    renderer_probe_cache_from_fields, renderer_probe_cache_in_text, toml_app_config_content, AppConfig,
    AppConfigDocument, RendererProbeCacheFields, RendererProbeCacheRecord,
};
use app_ui::browser::{DirectoryEntry, FileBrowser, FileKind};
use app_ui::config::{RenderingGpuPreference, SortDirection, SortField};
use app_ui::entry_changes::{
    apply_changes_to_discovery, changes_require_rescan, entry_change_removed_paths, DiscoveredEntry,
    ResolvedEntryChange,
};
use app_ui::metadata_demand::{DirectoryMetadataLoadContext, DirectoryMetadataRequirement};
use app_ui::panes::{BrowserPaneId, DirectoryOrderPhase};
use app_ui::paths::FsPath;
use app_ui::toml_file::{TomlEntry, TomlScalar};

fn path(text: &str) -> FsPath {
    FsPath::new(
        text.starts_with('/'),
        text.split('/')
            .filter(|part| !part.is_empty())
            .map(str::to_owned)
            .collect(),
    )
}

fn discovered(text: &str, hidden: bool) -> DiscoveredEntry {
    DiscoveredEntry { path: path(text), kind: FileKind::File, hidden }
}

#[test]
fn changes_upsert_rename_and_remove_entries_in_order() {
    let mut entries = vec![discovered("/w/a", false), discovered("/w/b", false)];
    let changes = vec![
        ResolvedEntryChange::Added(discovered("/w/c", false)),
        ResolvedEntryChange::ContentChanged(DiscoveredEntry { path: path("/w/a"), kind: FileKind::Directory, hidden: false }),
        ResolvedEntryChange::Renamed { from: path("/w/b"), to: discovered("/w/b2", false) },
        ResolvedEntryChange::Removed { path: path("/w/zzz") },
    ];
    assert!(apply_changes_to_discovery(&mut entries, &changes));
    assert_eq!(
        entries,
        vec![
            DiscoveredEntry { path: path("/w/a"), kind: FileKind::Directory, hidden: false },
            discovered("/w/c", false),
            discovered("/w/b2", false),
        ]
    );
}

#[test]
fn hidden_entries_and_unknown_removals_change_nothing() {
    let mut entries = vec![discovered("/w/a", false)];
    let changes = vec![
        ResolvedEntryChange::Added(discovered("/w/.secret", true)),
        ResolvedEntryChange::Removed { path: path("/w/missing") },
        ResolvedEntryChange::RescanRequired,
    ];
    assert!(!apply_changes_to_discovery(&mut entries, &changes));
    assert_eq!(entries, vec![discovered("/w/a", false)]);
    assert!(changes_require_rescan(&changes));
    assert!(!changes_require_rescan(&changes[..2].to_vec()));
}

#[test]
fn removed_and_renamed_paths_leave_the_selection() {
    let changes = vec![
        ResolvedEntryChange::Removed { path: path("/w/a") },
        ResolvedEntryChange::Added(discovered("/w/new", false)),
        ResolvedEntryChange::Renamed { from: path("/w/b"), to: discovered("/w/b2", false) },
    ];
    let removed = entry_change_removed_paths(&changes);
    assert_eq!(removed, vec![path("/w/a"), path("/w/b")]);

    let mut browser = FileBrowser::new(path("/w"), path("/trash"));
    browser.selected_paths = vec![path("/w/a"), path("/w/c"), path("/w/b")];
    browser.selected = Some(path("/w/b"));
    browser.forget_removed_selection(&removed);
    assert_eq!(browser.selected_paths, vec![path("/w/c")]);
    assert_eq!(browser.selected, None);

    browser.selected = Some(path("/w/c"));
    browser.forget_removed_selection(&removed);
    assert_eq!(browser.selected, Some(path("/w/c")));
}

fn entry(text: &str, index: Option<usize>) -> DirectoryEntry {
    DirectoryEntry { path: path(text), kind: FileKind::File, discovery_index: index }
}

#[test]
fn selected_entries_are_grouped_by_listing_and_scheduled_once() {
    let mut browser = FileBrowser::new(path("/w"), path("/trash"));
    browser.directory_discovery = Some(Vec::new());
    browser.directory_load_generation = 2;
    browser.sort_field = SortField::Size;
    browser.entries = vec![entry("/w/a", Some(0)), entry("/w/b", Some(1)), entry("/w/c", None)];
    assert!(browser.schedule_selected_directory_metadata(BrowserPaneId { id: 0 }).is_empty());

    browser.selected_paths = vec![path("/w/b"), path("/w/c"), path("/w/a")];
    let groups = browser.schedule_selected_directory_metadata(BrowserPaneId { id: 0 });
    assert_eq!(groups.len(), 1);
    assert_eq!(groups[0].targets, vec![0, 1]);
    assert!(matches!(
        &groups[0].context,
        DirectoryMetadataLoadContext::Root { collection_generation: 2, .. }
    ));
    assert!(browser.schedule_selected_directory_metadata(BrowserPaneId { id: 9 }).is_empty());

    let pending = vec![true, true, false];
    let request = browser
        .schedule_directory_metadata_requirement(
            groups[0].context.clone(),
            &pending,
            DirectoryMetadataRequirement::Filesystem,
            vec![1, 0, 1, 2, 7],
        )
        .unwrap();
    assert_eq!(request.targets, vec![0, 1]);
    assert_eq!(request.request_generation, 0);
    assert_eq!(browser.next_directory_metadata_request_generation, 1);
    assert_eq!(browser.directory_metadata_in_flight.len(), 2);
    assert_eq!(
        browser.directory_order_phase,
        DirectoryOrderPhase::WaitingForMetadata { request_generation: 0, field: SortField::Size, direction: SortDirection::Ascending }
    );

    let again = browser.schedule_directory_metadata_requirement(
        groups[0].context.clone(),
        &pending,
        DirectoryMetadataRequirement::Filesystem,
        vec![0, 1],
    );
    assert!(again.is_none());
    assert_eq!(browser.next_directory_metadata_request_generation, 1);

    let names = browser
        .schedule_directory_metadata_requirement(
            groups[0].context.clone(),
            &pending,
            DirectoryMetadataRequirement::IdentityNames,
            vec![0],
        )
        .unwrap();
    assert_eq!(names.request_generation, 1);
    assert_eq!(
        browser.directory_order_phase,
        DirectoryOrderPhase::WaitingForMetadata { request_generation: 0, field: SortField::Size, direction: SortDirection::Ascending }
    );
}

fn record() -> RendererProbeCacheRecord {
    RendererProbeCacheRecord {
        version: 3,
        backend: "wgpu".to_owned(),
        rendering_gpu_preference: "display".to_owned(),
        wgpu_power_preference: None,
        mesa_vulkan_device_select: Some("1002:73ff".to_owned()),
        vulkan_loader_driver_select: None,
        display_gpu_device_select: None,
    }
}

#[test]
fn defaults_put_thumbnails_in_the_cache_directory() {
    let config = default_app_config(Some(path("/home/u/.cache")), Some(path("/home/u")));
    assert_eq!(config.thumbnail_cache_dir, "/home/u/.cache/thumbnails");
    assert_eq!(config.rendering_gpu_preference, RenderingGpuPreference::DisplayGpu);
    assert!(config.search_content_indexing_enabled);
    assert_eq!(config.search_max_extract_bytes, 8 * 1024 * 1024);
    assert_eq!(default_app_config(None, Some(path("/home/u"))).thumbnail_cache_dir, "/home/u/thumbnails");
    assert_eq!(default_app_config(None, None).thumbnail_cache_dir, "./thumbnails");
}

#[test]
fn document_values_replace_defaults_only_when_usable() {
    let default = default_app_config(Some(path("/c")), None);
    let document = AppConfigDocument {
        thumbnail_cache_dir: Some(String::new()),
        rendering_backend: Some("gpu".to_owned()),
        search_content_indexing_enabled: Some(false),
        search_max_extract_bytes: Some(0),
        renderer_probe_cache: Some(RendererProbeCacheFields {
            version: Some(1),
            backend: None,
            rendering_gpu_preference: Some("display".to_owned()),
            wgpu_power_preference: None,
            mesa_vulkan_device_select: None,
            vulkan_loader_driver_select: None,
            display_gpu_device_select: None,
        }),
    };
    let config = app_config_from_document(Some(document), default.clone());
    assert_eq!(config.thumbnail_cache_dir, "/c/thumbnails");
    assert_eq!(config.rendering_gpu_preference, RenderingGpuPreference::HighPerformanceGpu);
    assert!(!config.search_content_indexing_enabled);
    assert_eq!(config.search_max_extract_bytes, 1);
    assert_eq!(config.renderer_probe_cache, None);

    let negative = AppConfigDocument {
        thumbnail_cache_dir: None,
        rendering_backend: Some("bogus".to_owned()),
        search_content_indexing_enabled: None,
        search_max_extract_bytes: Some(-5),
        renderer_probe_cache: None,
    };
    assert_eq!(app_config_from_document(Some(negative), default.clone()), default);
    assert_eq!(app_config_from_document(None, default.clone()), default);
}

#[test]
fn written_configuration_reads_back_unchanged() {
    let config = AppConfig {
        thumbnail_cache_dir: "/var/cache/thumbs".to_owned(),
        rendering_gpu_preference: RenderingGpuPreference::HighPerformanceGpu,
        search_content_indexing_enabled: false,
        search_max_extract_bytes: 4096,
        renderer_probe_cache: Some(record()),
    };
    let document = app_config_document(&config);
    assert_eq!(document.rendering_backend.as_deref(), Some("gpu"));
    let read_back = app_config_from_document(Some(document), default_app_config(None, None));
    assert_eq!(read_back, config);
    assert_eq!(
        renderer_probe_cache_from_fields(app_config_document(&config).renderer_probe_cache),
        Some(record())
    );
}

#[test]
fn saving_settings_keeps_the_probe_cache_on_disk() {
    let mut config = default_app_config(None, None);
    let kept = config_preserving_probe_cache(config.clone(), Some(record()));
    assert_eq!(kept.renderer_probe_cache, Some(record()));
    config.renderer_probe_cache = Some(RendererProbeCacheRecord { version: 9, ..record() });
    let newer = config_preserving_probe_cache(config.clone(), Some(record()));
    assert_eq!(newer.renderer_probe_cache.unwrap().version, 9);
}

#[test]
fn configuration_files_live_in_the_application_directory() {
    assert_eq!(config_file_path(Some(path("/home/u/.config"))), Some(path("/home/u/.config/bennu/config.toml")));
    assert_eq!(matugen_theme_file_path(Some(path("/home/u/.config"))), Some(path("/home/u/.config/bennu/matugen.toml")));
    assert_eq!(config_file_path(None), None);
    assert_eq!(matugen_theme_file_path(None), None);
}

#[test]
fn configuration_text_is_read_over_the_defaults() {
    let default = default_app_config(None, None);
    let text = "thumbnail_cache_dir = \"/cache/thumbs\"\n\
                rendering_backend = \"gpu\"\n\
                search_content_indexing_enabled = false\n\
                search_max_extract_bytes = 0\n\
                [renderer_probe_cache]\n\
                version = 3\n\
                backend = \"vulkan\"\n\
                rendering_gpu_preference = \"display\"\n";
    let config = parse_toml_app_config(text, default.clone());
    assert_eq!(config.thumbnail_cache_dir, "/cache/thumbs");
    assert_eq!(config.rendering_gpu_preference, RenderingGpuPreference::HighPerformanceGpu);
    assert!(!config.search_content_indexing_enabled);
    assert_eq!(config.search_max_extract_bytes, 1);
    let record = config.renderer_probe_cache.unwrap();
    assert_eq!(record.version, 3);
    assert_eq!(record.backend, "vulkan");
    assert_eq!(record.wgpu_power_preference, None);

    // Wrong types and empty texts leave the defaults; so does text that is
    // not TOML at all.
    let odd = "thumbnail_cache_dir = \"\"\nsearch_content_indexing_enabled = \"no\"\nsearch_max_extract_bytes = -4\n";
    assert_eq!(parse_toml_app_config(odd, default.clone()), default);
    assert_eq!(parse_toml_app_config("this is = = not toml", default.clone()), default);
    assert!(read_document("[[").is_none());
}

#[test]
fn written_configuration_text_reads_back() {
    let mut config = default_app_config(None, None);
    config.thumbnail_cache_dir = "/var/cache/bennu".to_owned();
    config.search_max_extract_bytes = 4096;
    config.renderer_probe_cache = Some(RendererProbeCacheRecord {
        version: 2,
        backend: "gl".to_owned(),
        rendering_gpu_preference: "display".to_owned(),
        wgpu_power_preference: Some("low".to_owned()),
        mesa_vulkan_device_select: None,
        vulkan_loader_driver_select: None,
        display_gpu_device_select: None,
    });
    let content = toml_app_config_content(&config).unwrap();
    assert!(content.starts_with("# Bennu application configuration\n"));
    assert!(content.contains("thumbnail_cache_dir = \"/var/cache/bennu\""));
    assert!(!content.contains("mesa_vulkan_device_select"));
    assert_eq!(parse_toml_app_config(&content, default_app_config(None, None)), config);
    assert_eq!(renderer_probe_cache_in_text(&content), config.renderer_probe_cache);
    assert_eq!(renderer_probe_cache_in_text("version = 1"), None);
}

#[test]
fn document_from_entries_reads_known_keys_and_the_probe_section() {
    let entries = vec![
        TomlEntry::Value("thumbnail_cache_dir".to_owned(), TomlScalar::Text("/cache".to_owned())),
        TomlEntry::Value("rendering_backend".to_owned(), TomlScalar::Integer(3)),
        TomlEntry::Value("search_content_indexing_enabled".to_owned(), TomlScalar::Boolean(false)),
        TomlEntry::Value("search_max_extract_bytes".to_owned(), TomlScalar::Integer(4096)),
        TomlEntry::Section(
            "renderer_probe_cache".to_owned(),
            vec![
                ("version".to_owned(), TomlScalar::Integer(2)),
                ("backend".to_owned(), TomlScalar::Text("vulkan".to_owned())),
            ],
        ),
    ];
    let document = document_from_entries(&entries);
    assert_eq!(document.thumbnail_cache_dir, Some("/cache".to_owned()));
    // A value of the wrong type is not taken.
    assert_eq!(document.rendering_backend, None);
    assert_eq!(document.search_content_indexing_enabled, Some(false));
    assert_eq!(document.search_max_extract_bytes, Some(4096));
    let probe = document.renderer_probe_cache.unwrap();
    assert_eq!(probe.version, Some(2));
    assert_eq!(probe.backend, Some("vulkan".to_owned()));
    assert_eq!(probe.rendering_gpu_preference, None);

    let empty = document_from_entries(&Vec::new());
    assert_eq!(empty.thumbnail_cache_dir, None);
    assert_eq!(empty.renderer_probe_cache, None);
}
