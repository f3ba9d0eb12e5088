//! The application configuration file: its defaults, how the values found
//! in the file replace them, what is written back, and where the file and
//! the generated theme live.

use vstd::prelude::*;
use crate::config::{RenderingGpuPreference, rendering_gpu_preference_from_text, rendering_gpu_preference_text};
use crate::paths::{FsPath, PathModel, join_spec, path_text};
use crate::toml_file::{
    TomlEntry, TomlEntryModel, TomlField, TomlScalar, TomlScalarModel, TomlWriteEntry, as_boolean,
    as_integer, as_text, entries_model, field_under, fields_model, find_toml_entry, find_toml_field,
    parse_toml_document, scalar_model, section_under, toml_document, toml_pretty, toml_pretty_text,
    value_under, write_entries_model,
};

verus! {

/// Bytes of text extracted from one file for the search index (8 MiB).
pub const DEFAULT_SEARCH_MAX_EXTRACT_BYTES: u64 = 8388608;

/// What the renderer probe found at the last start, stored verbatim.
#[derive(Debug, Clone, PartialEq, Eq)]
pub struct RendererProbeCacheRecord {
    pub version: i64,
    pub backend: String,
    pub rendering_gpu_preference: String,
    pub wgpu_power_preference: Option<String>,
    pub mesa_vulkan_device_select: Option<String>,
    pub vulkan_loader_driver_select: Option<String>,
    pub display_gpu_device_select: Option<String>,
}

#[derive(Debug, Clone, PartialEq, Eq)]
pub struct AppConfig {
    /// The thumbnail cache directory, as path text.
    pub thumbnail_cache_dir: String,
    pub rendering_gpu_preference: RenderingGpuPreference,
    pub search_content_indexing_enabled: bool,
    pub search_max_extract_bytes: u64,
    pub renderer_probe_cache: Option<RendererProbeCacheRecord>,
}

/// The values found under the keys of the probe-cache section, each when
/// it holds a value of the expected type.
#[derive(Debug, Clone, PartialEq, Eq)]
pub struct RendererProbeCacheFields {
    pub version: Option<i64>,
    pub backend: Option<String>,
    pub rendering_gpu_preference: Option<String>,
    pub wgpu_power_preference: Option<String>,
    pub mesa_vulkan_device_select: Option<String>,
    pub vulkan_loader_driver_select: Option<String>,
    pub display_gpu_device_select: Option<String>,
}

/// The values found under the keys of the configuration file, each when it
/// holds a value of the expected type (text, boolean, integer, table).
#[derive(Debug, Clone, PartialEq, Eq)]
pub struct AppConfigDocument {
    pub thumbnail_cache_dir: Option<String>,
    pub rendering_backend: Option<String>,
    pub search_content_indexing_enabled: Option<bool>,
    pub search_max_extract_bytes: Option<i64>,
    pub renderer_probe_cache: Option<RendererProbeCacheFields>,
}

pub open spec fn text_option(value: Option<String>) -> Option<Seq<char>> {
    match value {
        Some(text) => Some(text@),
        None => None,
    }
}

/// The abstract value of a probe-cache record.
pub struct ProbeCacheModel {
    pub version: i64,
    pub backend: Seq<char>,
    pub rendering_gpu_preference: Seq<char>,
    pub wgpu_power_preference: Option<Seq<char>>,
    pub mesa_vulkan_device_select: Option<Seq<char>>,
    pub vulkan_loader_driver_select: Option<Seq<char>>,
    pub display_gpu_device_select: Option<Seq<char>>,
}

impl View for RendererProbeCacheRecord {
    type V = ProbeCacheModel;

    open spec fn view(&self) -> ProbeCacheModel {
        ProbeCacheModel {
            version: self.version,
            backend: self.backend@,
            rendering_gpu_preference: self.rendering_gpu_preference@,
            wgpu_power_preference: text_option(self.wgpu_power_preference),
            mesa_vulkan_device_select: text_option(self.mesa_vulkan_device_select),
            vulkan_loader_driver_select: text_option(self.vulkan_loader_driver_select),
            display_gpu_device_select: text_option(self.display_gpu_device_select),
        }
    }
}

/// The abstract value of the probe-cache section's fields.
pub struct ProbeFieldsModel {
    pub version: Option<i64>,
    pub backend: Option<Seq<char>>,
    pub rendering_gpu_preference: Option<Seq<char>>,
    pub wgpu_power_preference: Option<Seq<char>>,
    pub mesa_vulkan_device_select: Option<Seq<char>>,
    pub vulkan_loader_driver_select: Option<Seq<char>>,
    pub display_gpu_device_select: Option<Seq<char>>,
}

impl View for RendererProbeCacheFields {
    type V = ProbeFieldsModel;

    open spec fn view(&self) -> ProbeFieldsModel {
        ProbeFieldsModel {
            version: self.version,
            backend: text_option(self.backend),
            rendering_gpu_preference: text_option(self.rendering_gpu_preference),
            wgpu_power_preference: text_option(self.wgpu_power_preference),
            mesa_vulkan_device_select: text_option(self.mesa_vulkan_device_select),
            vulkan_loader_driver_select: text_option(self.vulkan_loader_driver_select),
            display_gpu_device_select: text_option(self.display_gpu_device_select),
        }
    }
}

/// The abstract value of a configuration.
pub struct AppConfigModel {
    pub thumbnail_cache_dir: Seq<char>,
    pub rendering_gpu_preference: RenderingGpuPreference,
    pub search_content_indexing_enabled: bool,
    pub search_max_extract_bytes: u64,
    pub renderer_probe_cache: Option<ProbeCacheModel>,
}

impl View for AppConfig {
    type V = AppConfigModel;

    open spec fn view(&self) -> AppConfigModel {
        AppConfigModel {
            thumbnail_cache_dir: self.thumbnail_cache_dir@,
            rendering_gpu_preference: self.rendering_gpu_preference,
            search_content_indexing_enabled: self.search_content_indexing_enabled,
            search_max_extract_bytes: self.search_max_extract_bytes,
            renderer_probe_cache: match self.renderer_probe_cache {
                Some(record) => Some(record@),
                None => None,
            },
        }
    }
}

/// The abstract value of a configuration document.
pub struct DocumentModel {
    pub thumbnail_cache_dir: Option<Seq<char>>,
    pub rendering_backend: Option<Seq<char>>,
    pub search_content_indexing_enabled: Option<bool>,
    pub search_max_extract_bytes: Option<i64>,
    pub renderer_probe_cache: Option<ProbeFieldsModel>,
}

impl View for AppConfigDocument {
    type V = DocumentModel;

    open spec fn view(&self) -> DocumentModel {
        DocumentModel {
            thumbnail_cache_dir: text_option(self.thumbnail_cache_dir),
            rendering_backend: text_option(self.rendering_backend),
            search_content_indexing_enabled: self.search_content_indexing_enabled,
            search_max_extract_bytes: self.search_max_extract_bytes,
            renderer_probe_cache: match self.renderer_probe_cache {
                Some(fields) => Some(fields@),
                None => None,
            },
        }
    }
}

/// Where thumbnails are cached by default: `thumbnails` in the user's
/// cache directory, else in the home directory, else in the working
/// directory.
pub open spec fn default_thumbnail_dir(cache_dir: Option<PathModel>, home_dir: Option<PathModel>) -> Seq<char> {
    let base = match cache_dir {
        Some(dir) => dir,
        None => match home_dir {
            Some(dir) => dir,
            None => PathModel { absolute: false, components: seq!["."@] },
        },
    };
    path_text(join_spec(base, "thumbnails"@))
}

pub open spec fn option_path_model(path: Option<FsPath>) -> Option<PathModel> {
    match path {
        Some(p) => Some(p@),
        None => None,
    }
}

/// `default_app_config`: the defaults of the user configuration; the
/// directories are the user's cache and home directories, when known.
pub fn default_app_config(cache_dir: Option<FsPath>, home_dir: Option<FsPath>) -> (config: AppConfig)
    ensures
        config.thumbnail_cache_dir@ == default_thumbnail_dir(option_path_model(cache_dir), option_path_model(home_dir)),
        config.rendering_gpu_preference == RenderingGpuPreference::DisplayGpu,
        config.search_content_indexing_enabled,
        config.search_max_extract_bytes == DEFAULT_SEARCH_MAX_EXTRACT_BYTES,
        config.renderer_probe_cache is None,
{
    let base = match cache_dir {
        Some(dir) => dir,
        None => match home_dir {
            Some(dir) => dir,
            None => {
                let mut components: Vec<String> = Vec::new();
                components.push(String::from_str("."));
                let here = FsPath::new(false, components);
                assert(here@.components =~= seq!["."@]);
                here
            },
        },
    };
    let thumbnails = base.join_name("thumbnails");
    AppConfig {
        thumbnail_cache_dir: thumbnails.to_text(),
        rendering_gpu_preference: RenderingGpuPreference::DisplayGpu,
        search_content_indexing_enabled: true,
        search_max_extract_bytes: DEFAULT_SEARCH_MAX_EXTRACT_BYTES,
        renderer_probe_cache: None,
    }
}

/// The renderer probe cache read from its section: the record, when the
/// section has a numeric version and text backend and preference; the optional keys are taken
/// when they hold text.
pub open spec fn probe_cache_from_fields(fields: Option<ProbeFieldsModel>) -> Option<ProbeCacheModel> {
    match fields {
        Some(f) => if f.version is Some && f.backend is Some && f.rendering_gpu_preference is Some {
            Some(
                ProbeCacheModel {
                    version: f.version->0,
                    backend: f.backend->0,
                    rendering_gpu_preference: f.rendering_gpu_preference->0,
                    wgpu_power_preference: f.wgpu_power_preference,
                    mesa_vulkan_device_select: f.mesa_vulkan_device_select,
                    vulkan_loader_driver_select: f.vulkan_loader_driver_select,
                    display_gpu_device_select: f.display_gpu_device_select,
                },
            )
        } else {
            None
        },
        None => None,
    }
}

pub fn renderer_probe_cache_from_fields(fields: Option<RendererProbeCacheFields>) -> (record: Option<RendererProbeCacheRecord>)
    ensures
        match record {
            Some(r) => Some(r@),
            None => None,
        } == probe_cache_from_fields(
            match fields {
                Some(f) => Some(f@),
                None => None,
            },
        ),
{
    let fields = match fields {
        Some(fields) => fields,
        None => return None,
    };
    match (fields.version, fields.backend, fields.rendering_gpu_preference) {
        (Some(version), Some(backend), Some(rendering_gpu_preference)) => Some(
            RendererProbeCacheRecord {
                version,
                backend,
                rendering_gpu_preference,
                wgpu_power_preference: fields.wgpu_power_preference,
                mesa_vulkan_device_select: fields.mesa_vulkan_device_select,
                vulkan_loader_driver_select: fields.vulkan_loader_driver_select,
                display_gpu_device_select: fields.display_gpu_device_select,
            },
        ),
        _ => None,
    }
}

/// `parse_toml_app_config`: with no readable document the defaults stand;
/// otherwise each value found replaces its default: a non-empty cache
/// directory, a known backend name, the indexing switch, a non-negative
/// extraction limit (at least 1). The probe cache is the document's.
pub open spec fn parsed_app_config(document: Option<DocumentModel>, default: AppConfigModel) -> AppConfigModel {
    match document {
        None => default,
        Some(doc) => AppConfigModel {
            thumbnail_cache_dir: match doc.thumbnail_cache_dir {
                Some(text) => if text.len() > 0 {
                    text
                } else {
                    default.thumbnail_cache_dir
                },
                None => default.thumbnail_cache_dir,
            },
            rendering_gpu_preference: match doc.rendering_backend {
                Some(text) => if text.len() > 0 {
                    match rendering_gpu_preference_from_text(text) {
                        Some(preference) => preference,
                        None => default.rendering_gpu_preference,
                    }
                } else {
                    default.rendering_gpu_preference
                },
                None => default.rendering_gpu_preference,
            },
            search_content_indexing_enabled: match doc.search_content_indexing_enabled {
                Some(enabled) => enabled,
                None => default.search_content_indexing_enabled,
            },
            search_max_extract_bytes: match doc.search_max_extract_bytes {
                Some(bytes) => if bytes >= 1 {
                    bytes as u64
                } else if bytes == 0 {
                    1
                } else {
                    default.search_max_extract_bytes
                },
                None => default.search_max_extract_bytes,
            },
            renderer_probe_cache: probe_cache_from_fields(doc.renderer_probe_cache),
        },
    }
}

/// The configuration that a read `document` gives over `default`.
pub fn app_config_from_document(document: Option<AppConfigDocument>, default: AppConfig) -> (config: AppConfig)
    ensures
        config@ == parsed_app_config(
            match document {
                Some(d) => Some(d@),
                None => None,
            },
            default@,
        ),
{
    let document = match document {
        Some(document) => document,
        None => return default,
    };
    let mut config = default;
    match document.thumbnail_cache_dir {
        Some(text) => {
            if text.as_str().unicode_len() > 0 {
                config.thumbnail_cache_dir = text;
            }
        },
        None => {},
    }
    match document.rendering_backend {
        Some(text) => {
            if text.as_str().unicode_len() > 0 {
                match RenderingGpuPreference::from_config_value(text.as_str()) {
                    Some(preference) => config.rendering_gpu_preference = preference,
                    None => {},
                }
            }
        },
        None => {},
    }
    match document.search_content_indexing_enabled {
        Some(enabled) => config.search_content_indexing_enabled = enabled,
        None => {},
    }
    match document.search_max_extract_bytes {
        Some(bytes) => {
            if bytes >= 1 {
                config.search_max_extract_bytes = bytes as u64;
            } else if bytes == 0 {
                config.search_max_extract_bytes = 1;
            }
        },
        None => {},
    }
    config.renderer_probe_cache = renderer_probe_cache_from_fields(document.renderer_probe_cache);
    config
}

/// What `toml_app_config_content` writes: the cache directory, the backend
/// name, the indexing switch, the extraction limit as a (signed) integer,
/// and the probe cache when there is one, its optional keys left out when
/// they have no value so that they read back as absent.
pub open spec fn written_document(config: AppConfigModel) -> DocumentModel {
    DocumentModel {
        thumbnail_cache_dir: Some(config.thumbnail_cache_dir),
        rendering_backend: Some(rendering_gpu_preference_text(config.rendering_gpu_preference)),
        search_content_indexing_enabled: Some(config.search_content_indexing_enabled),
        search_max_extract_bytes: Some(config.search_max_extract_bytes as i64),
        renderer_probe_cache: match config.renderer_probe_cache {
            Some(record) => Some(
                ProbeFieldsModel {
                    version: Some(record.version),
                    backend: Some(record.backend),
                    rendering_gpu_preference: Some(record.rendering_gpu_preference),
                    wgpu_power_preference: record.wgpu_power_preference,
                    mesa_vulkan_device_select: record.mesa_vulkan_device_select,
                    vulkan_loader_driver_select: record.vulkan_loader_driver_select,
                    display_gpu_device_select: record.display_gpu_device_select,
                },
            ),
            None => None,
        },
    }
}

/// The document written for `config`.
pub fn app_config_document(config: &AppConfig) -> (document: AppConfigDocument)
    ensures
        document@ == written_document(config@),
{
    let renderer_probe_cache = match &config.renderer_probe_cache {
        Some(record) => Some(
            RendererProbeCacheFields {
                version: Some(record.version),
                backend: Some(record.backend.clone()),
                rendering_gpu_preference: Some(record.rendering_gpu_preference.clone()),
                wgpu_power_preference: record.wgpu_power_preference.clone(),
                mesa_vulkan_device_select: record.mesa_vulkan_device_select.clone(),
                vulkan_loader_driver_select: record.vulkan_loader_driver_select.clone(),
                display_gpu_device_select: record.display_gpu_device_select.clone(),
            },
        ),
        None => None,
    };
    AppConfigDocument {
        thumbnail_cache_dir: Some(config.thumbnail_cache_dir.clone()),
        rendering_backend: Some(String::from_str(config.rendering_gpu_preference.config_value())),
        search_content_indexing_enabled: Some(config.search_content_indexing_enabled),
        search_max_extract_bytes: Some(config.search_max_extract_bytes as i64),
        renderer_probe_cache,
    }
}

/// The configuration to write when settings are saved: one built from
/// the user's settings carries no probe cache, so the one already in the
/// file (`on_disk`) is kept.
pub fn config_preserving_probe_cache(config: AppConfig, on_disk: Option<RendererProbeCacheRecord>) -> (saved: AppConfig)
    ensures
        saved == (AppConfig {
            renderer_probe_cache: match config.renderer_probe_cache {
                Some(record) => Some(record),
                None => on_disk,
            },
            ..config
        }),
{
    let mut saved = config;
    if saved.renderer_probe_cache.is_none() {
        saved.renderer_probe_cache = on_disk;
    }
    saved
}

/// `app_config_dir_path`: the application's directory in the user's
/// configuration directory `config_dir`, when that is known.
pub fn app_config_dir_path(config_dir: Option<FsPath>) -> (dir: Option<FsPath>)
    ensures
        match config_dir {
            Some(base) => dir matches Some(d) && d@ == join_spec(base@, "bennu"@),
            None => dir is None,
        },
{
    match config_dir {
        Some(base) => Some(base.join_name("bennu")),
        None => None,
    }
}

/// `config_file_path`.
pub fn config_file_path(config_dir: Option<FsPath>) -> (file: Option<FsPath>)
    ensures
        match config_dir {
            Some(base) => file matches Some(f) && f@ == join_spec(
                join_spec(base@, "bennu"@),
                "config.toml"@,
            ),
            None => file is None,
        },
{
    match app_config_dir_path(config_dir) {
        Some(dir) => Some(dir.join_name("config.toml")),
        None => None,
    }
}

/// `matugen_theme_file_path`.
pub fn matugen_theme_file_path(config_dir: Option<FsPath>) -> (file: Option<FsPath>)
    ensures
        match config_dir {
            Some(base) => file matches Some(f) && f@ == join_spec(
                join_spec(base@, "bennu"@),
                "matugen.toml"@,
            ),
            None => file is None,
        },
{
    match app_config_dir_path(config_dir) {
        Some(dir) => Some(dir.join_name("matugen.toml")),
        None => None,
    }
}

/// Saving and loading gives the configuration back: the document written
/// for `config`, read over any defaults, is `config` again, as long as the
/// cache directory is not empty and the extraction limit is between 1 and
/// the largest signed integer the file can hold.
pub proof fn lemma_saved_config_loads_back(config: AppConfigModel, default: AppConfigModel)
    requires
        config.thumbnail_cache_dir.len() > 0,
        1 <= config.search_max_extract_bytes <= i64::MAX,
    ensures
        parsed_app_config(Some(written_document(config)), default) == config,
{
    crate::config::lemma_config_values_round_trip(
        crate::config::UiLanguageSetting::System,
        config.rendering_gpu_preference,
        crate::config::FileOperationVerification::BasicMetadata,
        crate::config::BrowserViewMode::Columns,
        crate::config::SortField::Name,
        crate::config::SortDirection::Ascending,
        crate::config::ColumnWidthAdjustMode::PerColumn,
    );
    reveal_strlit("display");
    reveal_strlit("gpu");
    assert(rendering_gpu_preference_text(config.rendering_gpu_preference).len() > 0);
    assert((config.search_max_extract_bytes as i64) as u64 == config.search_max_extract_bytes);
}

// ---------------------------------------------------------------------------
// The file's text
// ---------------------------------------------------------------------------

/// The values of the probe-cache section's fields, each when it has the
/// expected type.
pub open spec fn probe_fields_from_toml(fields: Seq<(Seq<char>, TomlScalarModel)>) -> ProbeFieldsModel {
    ProbeFieldsModel {
        version: as_integer(field_under(fields, "version"@, 0)),
        backend: as_text(field_under(fields, "backend"@, 0)),
        rendering_gpu_preference: as_text(field_under(fields, "rendering_gpu_preference"@, 0)),
        wgpu_power_preference: as_text(field_under(fields, "wgpu_power_preference"@, 0)),
        mesa_vulkan_device_select: as_text(field_under(fields, "mesa_vulkan_device_select"@, 0)),
        vulkan_loader_driver_select: as_text(field_under(fields, "vulkan_loader_driver_select"@, 0)),
        display_gpu_device_select: as_text(field_under(fields, "display_gpu_device_select"@, 0)),
    }
}

/// The configuration values of a TOML document: the cache directory and
/// backend name as text, the indexing switch as a boolean, the extraction
/// limit as an integer, and the probe-cache section.
pub open spec fn document_from_toml(entries: Seq<TomlEntryModel>) -> DocumentModel {
    DocumentModel {
        thumbnail_cache_dir: as_text(value_under(entries, "thumbnail_cache_dir"@)),
        rendering_backend: as_text(value_under(entries, "rendering_backend"@)),
        search_content_indexing_enabled: as_boolean(value_under(entries, "search_content_indexing_enabled"@)),
        search_max_extract_bytes: as_integer(value_under(entries, "search_max_extract_bytes"@)),
        renderer_probe_cache: match section_under(entries, "renderer_probe_cache"@) {
            Some(fields) => Some(probe_fields_from_toml(fields)),
            None => None,
        },
    }
}

/// The configuration values of a file's text, when `toml` reads it.
pub open spec fn text_document(text: Seq<char>) -> Option<DocumentModel> {
    match toml_document(text) {
        Some(entries) => Some(document_from_toml(entries)),
        None => None,
    }
}

pub open spec fn document_option(document: Option<AppConfigDocument>) -> Option<DocumentModel> {
    match document {
        Some(d) => Some(d@),
        None => None,
    }
}

fn entry_value<'a>(entries: &'a Vec<TomlEntry>, key: &str) -> (value: Option<&'a TomlScalar>)
    ensures
        match value {
            Some(v) => value_under(entries_model(entries@), key@) == Some(scalar_model(*v)),
            None => value_under(entries_model(entries@), key@) is None,
        },
{
    match find_toml_entry(entries, key) {
        Some(TomlEntry::Value(_, value)) => Some(value),
        _ => None,
    }
}

fn scalar_text(value: Option<&TomlScalar>) -> (text: Option<String>)
    ensures
        text_option(text) == as_text(
            match value {
                Some(v) => Some(scalar_model(*v)),
                None => None,
            },
        ),
{
    match value {
        Some(TomlScalar::Text(text)) => Some(text.clone()),
        _ => None,
    }
}

fn scalar_integer(value: Option<&TomlScalar>) -> (number: Option<i64>)
    ensures
        number == as_integer(
            match value {
                Some(v) => Some(scalar_model(*v)),
                None => None,
            },
        ),
{
    match value {
        Some(TomlScalar::Integer(number)) => Some(*number),
        _ => None,
    }
}

fn scalar_boolean(value: Option<&TomlScalar>) -> (flag: Option<bool>)
    ensures
        flag == as_boolean(
            match value {
                Some(v) => Some(scalar_model(*v)),
                None => None,
            },
        ),
{
    match value {
        Some(TomlScalar::Boolean(flag)) => Some(*flag),
        _ => None,
    }
}

fn probe_fields_of(fields: &Vec<(String, TomlScalar)>) -> (probe: RendererProbeCacheFields)
    ensures
        probe@ == probe_fields_from_toml(fields_model(fields@)),
{
    RendererProbeCacheFields {
        version: scalar_integer(find_toml_field(fields, "version")),
        backend: scalar_text(find_toml_field(fields, "backend")),
        rendering_gpu_preference: scalar_text(find_toml_field(fields, "rendering_gpu_preference")),
        wgpu_power_preference: scalar_text(find_toml_field(fields, "wgpu_power_preference")),
        mesa_vulkan_device_select: scalar_text(find_toml_field(fields, "mesa_vulkan_device_select")),
        vulkan_loader_driver_select: scalar_text(find_toml_field(fields, "vulkan_loader_driver_select")),
        display_gpu_device_select: scalar_text(find_toml_field(fields, "display_gpu_device_select")),
    }
}

/// The configuration values found in a file's `content`, or `None` when
/// it is not TOML.
pub fn read_document(content: &str) -> (document: Option<AppConfigDocument>)
    ensures
        document_option(document) == text_document(content@),
{
    match parse_toml_document(content) {
        Some(entries) => Some(document_from_entries(&entries)),
        None => None,
    }
}

/// The configuration values of a TOML document's `entries`: each key read
/// with the type the configuration expects.
pub fn document_from_entries(entries: &Vec<TomlEntry>) -> (document: AppConfigDocument)
    ensures
        document@ == document_from_toml(entries_model(entries@)),
{
    let renderer_probe_cache = match find_toml_entry(entries, "renderer_probe_cache") {
        Some(TomlEntry::Section(_, fields)) => Some(probe_fields_of(fields)),
        _ => None,
    };
    AppConfigDocument {
        thumbnail_cache_dir: scalar_text(entry_value(entries, "thumbnail_cache_dir")),
        rendering_backend: scalar_text(entry_value(entries, "rendering_backend")),
        search_content_indexing_enabled: scalar_boolean(entry_value(entries, "search_content_indexing_enabled")),
        search_max_extract_bytes: scalar_integer(entry_value(entries, "search_max_extract_bytes")),
        renderer_probe_cache,
    }
}

/// `parse_toml_app_config`: the configuration in a file's `content`, over
/// `default` (which stands whole when the content is not TOML).
pub fn parse_toml_app_config(content: &str, default: AppConfig) -> (config: AppConfig)
    ensures
        config@ == parsed_app_config(text_document(content@), default@),
{
    app_config_from_document(read_document(content), default)
}

/// The probe cache recorded in a file's `content` (see the saving that
/// keeps it).
pub fn renderer_probe_cache_in_text(content: &str) -> (record: Option<RendererProbeCacheRecord>)
    ensures
        match record {
            Some(r) => Some(r@),
            None => None,
        } == match text_document(content@) {
            Some(document) => probe_cache_from_fields(document.renderer_probe_cache),
            None => None,
        },
{
    match read_document(content) {
        Some(document) => renderer_probe_cache_from_fields(document.renderer_probe_cache),
        None => None,
    }
}

/// The first line of the written file.
pub open spec fn config_header() -> Seq<char> {
    "# Bennu application configuration\n"@
}

pub open spec fn optional_text_field(key: Seq<char>, value: Option<Seq<char>>) -> Seq<(Seq<char>, TomlScalarModel)> {
    match value {
        Some(text) => seq![(key, TomlScalarModel::Text(text))],
        None => Seq::empty(),
    }
}

/// The fields written for a probe-cache record: the optional ones only
/// when they have a value, so that they read back as absent.
pub open spec fn written_probe_fields(record: ProbeCacheModel) -> Seq<(Seq<char>, TomlScalarModel)> {
    seq![
        ("version"@, TomlScalarModel::Integer(record.version)),
        ("backend"@, TomlScalarModel::Text(record.backend)),
        ("rendering_gpu_preference"@, TomlScalarModel::Text(record.rendering_gpu_preference)),
    ] + optional_text_field("wgpu_power_preference"@, record.wgpu_power_preference)
        + optional_text_field("mesa_vulkan_device_select"@, record.mesa_vulkan_device_select)
        + optional_text_field("vulkan_loader_driver_select"@, record.vulkan_loader_driver_select)
        + optional_text_field("display_gpu_device_select"@, record.display_gpu_device_select)
}

/// The entries written for `config` (see `written_document`).
pub open spec fn written_entries(config: AppConfigModel) -> Seq<TomlEntryModel> {
    seq![
        TomlEntryModel::Value("thumbnail_cache_dir"@, TomlScalarModel::Text(config.thumbnail_cache_dir)),
        TomlEntryModel::Value(
            "rendering_backend"@,
            TomlScalarModel::Text(rendering_gpu_preference_text(config.rendering_gpu_preference)),
        ),
        TomlEntryModel::Value(
            "search_content_indexing_enabled"@,
            TomlScalarModel::Boolean(config.search_content_indexing_enabled),
        ),
        TomlEntryModel::Value(
            "search_max_extract_bytes"@,
            TomlScalarModel::Integer(config.search_max_extract_bytes as i64),
        ),
    ] + match config.renderer_probe_cache {
        Some(record) => seq![TomlEntryModel::Section("renderer_probe_cache"@, written_probe_fields(record))],
        None => Seq::empty(),
    }
}

fn push_optional_text(fields: &mut Vec<(String, TomlField)>, key: &str, value: &Option<String>)
    ensures
        fields_written(final(fields)@) == fields_written(old(fields)@) + optional_text_field(key@, text_option(*value)),
{
    match value {
        Some(text) => {
            let ghost before = fields_written(fields@);
            fields.push((String::from_str(key), TomlField::Text(text.clone())));
            assert(fields_written(fields@) =~= before + optional_text_field(key@, text_option(*value)));
        },
        None => {
            assert(fields_written(fields@) =~= fields_written(fields@) + optional_text_field(key@, text_option(*value)));
        },
    }
}

pub open spec fn fields_written(fields: Seq<(String, TomlField)>) -> Seq<(Seq<char>, TomlScalarModel)> {
    fields.map_values(|field: (String, TomlField)| (field.0@, crate::toml_file::field_model(field.1)))
}

/// The entries written for `config`, in the order they are printed.
pub fn config_toml_entries(config: &AppConfig) -> (entries: Vec<TomlWriteEntry>)
    ensures
        write_entries_model(entries@) == written_entries(config@),
{
    let mut entries: Vec<TomlWriteEntry> = Vec::new();
    entries.push(
        TomlWriteEntry::Value(
            String::from_str("thumbnail_cache_dir"),
            TomlField::Text(config.thumbnail_cache_dir.clone()),
        ),
    );
    entries.push(
        TomlWriteEntry::Value(
            String::from_str("rendering_backend"),
            TomlField::Text(String::from_str(config.rendering_gpu_preference.config_value())),
        ),
    );
    entries.push(
        TomlWriteEntry::Value(
            String::from_str("search_content_indexing_enabled"),
            TomlField::Boolean(config.search_content_indexing_enabled),
        ),
    );
    entries.push(
        TomlWriteEntry::Value(
            String::from_str("search_max_extract_bytes"),
            TomlField::Integer(config.search_max_extract_bytes as i64),
        ),
    );
    let ghost head = write_entries_model(entries@);
    match &config.renderer_probe_cache {
        Some(record) => {
            let mut fields: Vec<(String, TomlField)> = Vec::new();
            fields.push((String::from_str("version"), TomlField::Integer(record.version)));
            fields.push((String::from_str("backend"), TomlField::Text(record.backend.clone())));
            fields.push(
                (
                    String::from_str("rendering_gpu_preference"),
                    TomlField::Text(record.rendering_gpu_preference.clone()),
                ),
            );
            let ghost first = fields_written(fields@);
            push_optional_text(&mut fields, "wgpu_power_preference", &record.wgpu_power_preference);
            push_optional_text(&mut fields, "mesa_vulkan_device_select", &record.mesa_vulkan_device_select);
            push_optional_text(&mut fields, "vulkan_loader_driver_select", &record.vulkan_loader_driver_select);
            push_optional_text(&mut fields, "display_gpu_device_select", &record.display_gpu_device_select);
            assert(first =~= seq![
                ("version"@, TomlScalarModel::Integer(record.version)),
                ("backend"@, TomlScalarModel::Text(record.backend@)),
                ("rendering_gpu_preference"@, TomlScalarModel::Text(record.rendering_gpu_preference@)),
            ]);
            assert(fields_written(fields@) =~= written_probe_fields(record@));
            entries.push(TomlWriteEntry::Section(String::from_str("renderer_probe_cache"), fields));
            assert(write_entries_model(entries@) =~= head + seq![
                TomlEntryModel::Section("renderer_probe_cache"@, written_probe_fields(record@)),
            ]);
        },
        None => {},
    }
    assert(write_entries_model(entries@) =~= written_entries(config@));
    entries
}

/// `toml_app_config_content`: the file text written for `config`, the
/// header line and the printed table of its entries; `None` when the
/// printer reports an error.
pub fn toml_app_config_content(config: &AppConfig) -> (content: Option<String>)
    ensures
        match toml_pretty(written_entries(config@)) {
            Some(text) => content matches Some(c) && c@ == config_header() + text,
            None => content is None,
        },
{
    let entries = config_toml_entries(config);
    match toml_pretty_text(&entries) {
        Some(text) => {
            let mut content = String::from_str("# Bennu application configuration\n");
            content.append(text.as_str());
            Some(content)
        },
        None => None,
    }
}

} // verus!
