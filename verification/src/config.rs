//! Persisted configuration values: the textual names stored in the
//! configuration file, the icon-grid density levels and the integer
//! normalisations applied when a stored value is read back.

use vstd::prelude::*;
use crate::text::text_eq;

verus! {

pub const MIN_VISIBLE_COLUMN_COUNT: usize = 3;
pub const DEFAULT_VISIBLE_COLUMN_COUNT: usize = 3;
pub const MAX_VISIBLE_COLUMN_COUNT: usize = 5;
pub const DEFAULT_ICON_GRID_SIZE: u32 = 96;
pub const MIN_ICON_GRID_SIZE: u32 = 64;
pub const MAX_ICON_GRID_SIZE: u32 = 192;
pub const ICON_GRID_SIZE_STEP: u32 = 16;
/// Highest density index: `(MAX_ICON_GRID_SIZE - MIN_ICON_GRID_SIZE) / ICON_GRID_SIZE_STEP`.
pub const VIEW_DENSITY_MAX_INDEX: u8 = 8;
/// Index of the default density: `(DEFAULT_ICON_GRID_SIZE - MIN_ICON_GRID_SIZE) / ICON_GRID_SIZE_STEP`.
pub const VIEW_DENSITY_DEFAULT_INDEX: u8 = 2;

// ---------------------------------------------------------------------------
// Integer clamps
// ---------------------------------------------------------------------------

pub open spec fn clamp_spec(value: int, low: int, high: int) -> int {
    if value < low {
        low
    } else if value > high {
        high
    } else {
        value
    }
}

/// Clamps a stored icon-grid edge into `[MIN_ICON_GRID_SIZE, MAX_ICON_GRID_SIZE]`.
pub fn normalize_icon_grid_size(size: u32) -> (normalized: u32)
    ensures
        normalized == clamp_spec(size as int, MIN_ICON_GRID_SIZE as int, MAX_ICON_GRID_SIZE as int),
{
    if size < MIN_ICON_GRID_SIZE {
        MIN_ICON_GRID_SIZE
    } else if size > MAX_ICON_GRID_SIZE {
        MAX_ICON_GRID_SIZE
    } else {
        size
    }
}

/// Clamps a stored column count into `[MIN_VISIBLE_COLUMN_COUNT, MAX_VISIBLE_COLUMN_COUNT]`.
pub fn normalize_visible_column_count(count: usize) -> (normalized: usize)
    ensures
        normalized == clamp_spec(
            count as int,
            MIN_VISIBLE_COLUMN_COUNT as int,
            MAX_VISIBLE_COLUMN_COUNT as int,
        ),
{
    if count < MIN_VISIBLE_COLUMN_COUNT {
        MIN_VISIBLE_COLUMN_COUNT
    } else if count > MAX_VISIBLE_COLUMN_COUNT {
        MAX_VISIBLE_COLUMN_COUNT
    } else {
        count
    }
}

/// Normalising twice is the same as normalising once, and a value already in
/// range is kept.
pub proof fn lemma_clamp_idempotent(value: int, low: int, high: int)
    requires
        low <= high,
    ensures
        clamp_spec(clamp_spec(value, low, high), low, high) == clamp_spec(value, low, high),
        low <= clamp_spec(value, low, high) <= high,
        low <= value <= high ==> clamp_spec(value, low, high) == value,
{
}

// ---------------------------------------------------------------------------
// View density
// ---------------------------------------------------------------------------

#[derive(Debug, Clone, Copy, PartialEq, Eq, Structural)]
pub enum ViewDensityStep {
    Increase,
    Decrease,
}

/// One of the nine icon-grid density levels; level `i` shows icons with an
/// edge of `MIN_ICON_GRID_SIZE + i * ICON_GRID_SIZE_STEP`.
#[derive(Debug, Clone, Copy, PartialEq, Eq, Structural)]
pub struct ViewDensityLevel(u8);

/// Icon edge shown at density index `index`.
pub open spec fn density_edge(index: int) -> int {
    MIN_ICON_GRID_SIZE as int + index * ICON_GRID_SIZE_STEP as int
}

/// Density index chosen for an icon edge: the clamped edge rounded to the
/// nearest level (halves round up).
pub open spec fn density_index_for_edge(size: int) -> int {
    let clamped = clamp_spec(size, MIN_ICON_GRID_SIZE as int, MAX_ICON_GRID_SIZE as int);
    let index = (clamped - MIN_ICON_GRID_SIZE as int + ICON_GRID_SIZE_STEP as int / 2)
        / ICON_GRID_SIZE_STEP as int;
    if index > VIEW_DENSITY_MAX_INDEX as int {
        VIEW_DENSITY_MAX_INDEX as int
    } else {
        index
    }
}

/// Index reached from `index` by one step in direction `step`.
pub open spec fn density_step_index(index: int, step: ViewDensityStep) -> int {
    match step {
        ViewDensityStep::Increase => if index + 1 > VIEW_DENSITY_MAX_INDEX as int {
            VIEW_DENSITY_MAX_INDEX as int
        } else {
            index + 1
        },
        ViewDensityStep::Decrease => if index == 0 {
            0
        } else {
            index - 1
        },
    }
}

impl ViewDensityLevel {
    #[verifier::type_invariant]
    spec fn in_range(self) -> bool {
        self.0 <= VIEW_DENSITY_MAX_INDEX
    }

    /// The level's index, `0..=VIEW_DENSITY_MAX_INDEX`.
    pub closed spec fn level(self) -> int {
        self.0 as int
    }

    /// The level with index `index`, clamped to the highest level.
    pub fn from_index(index: u8) -> (level: Self)
        ensures
            level.level() == clamp_spec(index as int, 0, VIEW_DENSITY_MAX_INDEX as int),
    {
        if index > VIEW_DENSITY_MAX_INDEX {
            ViewDensityLevel(VIEW_DENSITY_MAX_INDEX)
        } else {
            ViewDensityLevel(index)
        }
    }

    /// The default level (icon edge `DEFAULT_ICON_GRID_SIZE`).
    pub fn default_level() -> (level: Self)
        ensures
            level.level() == VIEW_DENSITY_DEFAULT_INDEX as int,
            density_edge(level.level()) == DEFAULT_ICON_GRID_SIZE as int,
    {
        ViewDensityLevel(VIEW_DENSITY_DEFAULT_INDEX)
    }

    pub fn index(self) -> (index: u8)
        ensures
            index as int == self.level(),
            index <= VIEW_DENSITY_MAX_INDEX,
    {
        proof {
            use_type_invariant(self);
        }
        self.0
    }

    pub fn icon_grid_size(self) -> (size: u32)
        ensures
            size as int == density_edge(self.level()),
            MIN_ICON_GRID_SIZE <= size <= MAX_ICON_GRID_SIZE,
    {
        proof {
            use_type_invariant(self);
        }
        MIN_ICON_GRID_SIZE + (self.0 as u32) * ICON_GRID_SIZE_STEP
    }

    pub fn from_icon_grid_size(size: u32) -> (level: Self)
        ensures
            level.level() == density_index_for_edge(size as int),
    {
        let size = normalize_icon_grid_size(size);
        let index = (size - MIN_ICON_GRID_SIZE + ICON_GRID_SIZE_STEP / 2) / ICON_GRID_SIZE_STEP;
        assert(index <= 8);
        Self::from_index(index as u8)
    }

    pub fn step(self, step: ViewDensityStep) -> (next: Self)
        ensures
            next.level() == density_step_index(self.level(), step),
    {
        proof {
            use_type_invariant(self);
        }
        match step {
            ViewDensityStep::Increase => Self::from_index(self.0.saturating_add(1)),
            ViewDensityStep::Decrease => ViewDensityLevel(self.0.saturating_sub(1)),
        }
    }
}

impl Default for ViewDensityLevel {
    fn default() -> (level: Self)
        ensures
            level.level() == VIEW_DENSITY_DEFAULT_INDEX as int,
    {
        ViewDensityLevel(VIEW_DENSITY_DEFAULT_INDEX)
    }
}

/// Converting a level to its icon edge and back gives the same level.
pub proof fn lemma_density_edge_round_trip(index: int)
    requires
        0 <= index <= VIEW_DENSITY_MAX_INDEX as int,
    ensures
        density_index_for_edge(density_edge(index)) == index,
{
}

/// Every level's edge lies within the icon-grid range, and higher levels show
/// strictly larger icons.
pub proof fn lemma_density_edge_monotone(i: int, j: int)
    requires
        0 <= i < j <= VIEW_DENSITY_MAX_INDEX as int,
    ensures
        MIN_ICON_GRID_SIZE as int <= density_edge(i) < density_edge(j) <= MAX_ICON_GRID_SIZE as int,
{
}

/// Stepping stays within the levels; a decrease undoes an increase below the
/// top level, and an increase undoes a decrease above the bottom level.
pub proof fn lemma_density_step_inverse(index: int)
    requires
        0 <= index <= VIEW_DENSITY_MAX_INDEX as int,
    ensures
        0 <= density_step_index(index, ViewDensityStep::Increase) <= VIEW_DENSITY_MAX_INDEX as int,
        0 <= density_step_index(index, ViewDensityStep::Decrease) <= VIEW_DENSITY_MAX_INDEX as int,
        index < VIEW_DENSITY_MAX_INDEX as int ==> density_step_index(
            density_step_index(index, ViewDensityStep::Increase),
            ViewDensityStep::Decrease,
        ) == index,
        index > 0 ==> density_step_index(
            density_step_index(index, ViewDensityStep::Decrease),
            ViewDensityStep::Increase,
        ) == index,
        index == VIEW_DENSITY_MAX_INDEX as int ==> density_step_index(
            index,
            ViewDensityStep::Increase,
        ) == index,
        index == 0 ==> density_step_index(index, ViewDensityStep::Decrease) == index,
{
}


/// The three views' density levels as the preferences hold them, with the
/// icon edge that mirrors the icon view's level for older readers.
#[derive(Debug, Clone, Copy, PartialEq, Eq)]
pub struct ViewDensityPreferences {
    pub columns_view_density: ViewDensityLevel,
    pub list_view_density: ViewDensityLevel,
    pub icons_view_density: ViewDensityLevel,
    pub icon_grid_size: u32,
}

/// The densities as the preferences file stores them: a level index per
/// view (missing in files written before the levels existed) and the icon
/// edge.
#[derive(Debug, Clone, Copy, PartialEq, Eq)]
pub struct StoredViewDensity {
    pub columns_view_density: Option<u8>,
    pub list_view_density: Option<u8>,
    pub icons_view_density: Option<u8>,
    pub icon_grid_size: u32,
}

/// The icon view's level taken from a configuration: a configuration still
/// at the default level but with a non-default icon edge was written by a
/// caller that only knew the edge, so the edge decides.
pub open spec fn migrated_icons_level(icons_level: int, icon_grid_size: int) -> int {
    let legacy = density_index_for_edge(icon_grid_size);
    if icons_level == VIEW_DENSITY_DEFAULT_INDEX as int && legacy != VIEW_DENSITY_DEFAULT_INDEX as int {
        legacy
    } else {
        icons_level
    }
}

/// The level read back from a stored index, or `fallback` when none is
/// stored.
pub open spec fn stored_level(index: Option<u8>, fallback: int) -> int {
    match index {
        Some(i) => clamp_spec(i as int, 0, VIEW_DENSITY_MAX_INDEX as int),
        None => fallback,
    }
}

/// Every level is one of the density levels (as every level a program
/// holds is).
pub open spec fn levels_valid(preferences: ViewDensityPreferences) -> bool {
    &&& 0 <= preferences.columns_view_density.level() <= VIEW_DENSITY_MAX_INDEX as int
    &&& 0 <= preferences.list_view_density.level() <= VIEW_DENSITY_MAX_INDEX as int
    &&& 0 <= preferences.icons_view_density.level() <= VIEW_DENSITY_MAX_INDEX as int
}

/// The icon edge mirrors the icon view's level.
pub open spec fn mirrors_icon_level(preferences: ViewDensityPreferences) -> bool {
    preferences.icon_grid_size as int == density_edge(preferences.icons_view_density.level())
}

fn level_from_stored(index: Option<u8>, fallback: ViewDensityLevel) -> (level: ViewDensityLevel)
    ensures
        level.level() == stored_level(index, fallback.level()),
{
    match index {
        Some(i) => ViewDensityLevel::from_index(i),
        None => fallback,
    }
}

impl ViewDensityPreferences {
    /// The density part of `UserPreferences::from_user_config`.
    pub fn from_user_config(
        columns_view_density: ViewDensityLevel,
        list_view_density: ViewDensityLevel,
        icons_view_density: ViewDensityLevel,
        icon_grid_size: u32,
    ) -> (preferences: Self)
        ensures
            preferences.columns_view_density == columns_view_density,
            preferences.list_view_density == list_view_density,
            preferences.icons_view_density.level() == migrated_icons_level(
                icons_view_density.level(),
                icon_grid_size as int,
            ),
            mirrors_icon_level(preferences),
            levels_valid(preferences),
    {
        proof {
            use_type_invariant(columns_view_density);
            use_type_invariant(list_view_density);
            use_type_invariant(icons_view_density);
        }
        let legacy = ViewDensityLevel::from_icon_grid_size(icon_grid_size);
        let icons = if icons_view_density.index() == VIEW_DENSITY_DEFAULT_INDEX && legacy.index()
            != VIEW_DENSITY_DEFAULT_INDEX {
            legacy
        } else {
            icons_view_density
        };
        ViewDensityPreferences {
            columns_view_density,
            list_view_density,
            icons_view_density: icons,
            icon_grid_size: icons.icon_grid_size(),
        }
    }

    /// `icons_icon_edge`: the icon edge of the icon view's level.
    pub fn icons_icon_edge(&self) -> (edge: u32)
        ensures
            edge as int == density_edge(self.icons_view_density.level()),
    {
        self.icons_view_density.icon_grid_size()
    }

    /// `set_icons_view_density`: the icon view takes `level`, and the icon
    /// edge follows it.
    pub fn set_icons_view_density(&mut self, level: ViewDensityLevel)
        ensures
            final(self).icons_view_density == level,
            mirrors_icon_level(*final(self)),
            final(self).columns_view_density == old(self).columns_view_density,
            final(self).list_view_density == old(self).list_view_density,
    {
        self.icons_view_density = level;
        self.icon_grid_size = level.icon_grid_size();
    }

    /// The density part of `UserPreferences::to_stored`: every level by its
    /// index, and the icon edge of the icon view's level.
    pub fn to_stored(&self) -> (stored: StoredViewDensity)
        ensures
            stored.columns_view_density == Some(self.columns_view_density.level() as u8),
            stored.list_view_density == Some(self.list_view_density.level() as u8),
            stored.icons_view_density == Some(self.icons_view_density.level() as u8),
            stored.icon_grid_size as int == density_edge(self.icons_view_density.level()),
    {
        StoredViewDensity {
            columns_view_density: Some(self.columns_view_density.index()),
            list_view_density: Some(self.list_view_density.index()),
            icons_view_density: Some(self.icons_view_density.index()),
            icon_grid_size: self.icons_view_density.icon_grid_size(),
        }
    }

    /// The density part of `UserPreferences::from_stored`: stored indexes
    /// are clamped to the levels; missing ones fall back to `defaults`, and
    /// the icon view's to the level of the stored icon edge.
    pub fn from_stored(stored: StoredViewDensity, defaults: &ViewDensityPreferences) -> (preferences: Self)
        ensures
            preferences.columns_view_density.level() == stored_level(
                stored.columns_view_density,
                defaults.columns_view_density.level(),
            ),
            preferences.list_view_density.level() == stored_level(
                stored.list_view_density,
                defaults.list_view_density.level(),
            ),
            preferences.icons_view_density.level() == stored_level(
                stored.icons_view_density,
                density_index_for_edge(stored.icon_grid_size as int),
            ),
            mirrors_icon_level(preferences),
            levels_valid(preferences),
    {
        proof {
            use_type_invariant(defaults.columns_view_density);
            use_type_invariant(defaults.list_view_density);
        }
        let icons = match stored.icons_view_density {
            Some(i) => ViewDensityLevel::from_index(i),
            None => ViewDensityLevel::from_icon_grid_size(stored.icon_grid_size),
        };
        ViewDensityPreferences {
            columns_view_density: level_from_stored(stored.columns_view_density, defaults.columns_view_density),
            list_view_density: level_from_stored(stored.list_view_density, defaults.list_view_density),
            icons_view_density: icons,
            icon_grid_size: icons.icon_grid_size(),
        }
    }
}

/// Storing the densities and reading them back gives every view its level
/// again, whatever the defaults, with the icon edge mirroring the icon
/// view's level.
pub proof fn lemma_view_density_round_trip(
    preferences: ViewDensityPreferences,
    stored: StoredViewDensity,
    defaults: ViewDensityPreferences,
    restored: ViewDensityPreferences,
)
    requires
        levels_valid(preferences),
        stored.columns_view_density == Some(preferences.columns_view_density.level() as u8),
        stored.list_view_density == Some(preferences.list_view_density.level() as u8),
        stored.icons_view_density == Some(preferences.icons_view_density.level() as u8),
        restored.columns_view_density.level() == stored_level(
            stored.columns_view_density,
            defaults.columns_view_density.level(),
        ),
        restored.list_view_density.level() == stored_level(
            stored.list_view_density,
            defaults.list_view_density.level(),
        ),
        restored.icons_view_density.level() == stored_level(
            stored.icons_view_density,
            density_index_for_edge(stored.icon_grid_size as int),
        ),
        mirrors_icon_level(restored),
    ensures
        restored.columns_view_density.level() == preferences.columns_view_density.level(),
        restored.list_view_density.level() == preferences.list_view_density.level(),
        restored.icons_view_density.level() == preferences.icons_view_density.level(),
        restored.icon_grid_size as int == density_edge(preferences.icons_view_density.level()),
{
}


// ---------------------------------------------------------------------------
// Stored names
// ---------------------------------------------------------------------------

#[derive(Debug, Clone, Copy, PartialEq, Eq, Structural)]
pub enum UiLanguage {
    English,
    Chinese,
}

#[derive(Debug, Clone, Copy, PartialEq, Eq, Structural)]
pub enum UiLanguageSetting {
    System,
    English,
    Chinese,
}

pub open spec fn ui_language_setting_text(setting: UiLanguageSetting) -> Seq<char> {
    match setting {
        UiLanguageSetting::System => "system"@,
        UiLanguageSetting::English => "english"@,
        UiLanguageSetting::Chinese => "chinese"@,
    }
}

pub open spec fn ui_language_setting_from_text(value: Seq<char>) -> Option<UiLanguageSetting> {
    if value == "system"@ {
        Some(UiLanguageSetting::System)
    } else if value == "english"@ {
        Some(UiLanguageSetting::English)
    } else if value == "chinese"@ {
        Some(UiLanguageSetting::Chinese)
    } else {
        None
    }
}

impl UiLanguageSetting {
    pub fn from_config_value(value: &str) -> (setting: Option<Self>)
        ensures
            setting == ui_language_setting_from_text(value@),
    {
        if text_eq(value, "system") {
            Some(UiLanguageSetting::System)
        } else if text_eq(value, "english") {
            Some(UiLanguageSetting::English)
        } else if text_eq(value, "chinese") {
            Some(UiLanguageSetting::Chinese)
        } else {
            None
        }
    }

    pub fn config_value(self) -> (value: &'static str)
        ensures
            value@ == ui_language_setting_text(self),
    {
        match self {
            UiLanguageSetting::System => "system",
            UiLanguageSetting::English => "english",
            UiLanguageSetting::Chinese => "chinese",
        }
    }

    /// The language shown: the system language for `System`, otherwise the
    /// chosen one.
    pub fn resolve(self, system_language: UiLanguage) -> (language: UiLanguage)
        ensures
            language == match self {
                UiLanguageSetting::System => system_language,
                UiLanguageSetting::English => UiLanguage::English,
                UiLanguageSetting::Chinese => UiLanguage::Chinese,
            },
    {
        match self {
            UiLanguageSetting::System => system_language,
            UiLanguageSetting::English => UiLanguage::English,
            UiLanguageSetting::Chinese => UiLanguage::Chinese,
        }
    }
}

#[derive(Debug, Clone, Copy, PartialEq, Eq, Structural)]
pub enum RenderingGpuPreference {
    DisplayGpu,
    HighPerformanceGpu,
}

pub open spec fn rendering_gpu_preference_text(preference: RenderingGpuPreference) -> Seq<char> {
    match preference {
        RenderingGpuPreference::DisplayGpu => "display"@,
        RenderingGpuPreference::HighPerformanceGpu => "gpu"@,
    }
}

pub open spec fn rendering_gpu_preference_from_text(value: Seq<char>) -> Option<
    RenderingGpuPreference,
> {
    if value == "display"@ {
        Some(RenderingGpuPreference::DisplayGpu)
    } else if value == "gpu"@ {
        Some(RenderingGpuPreference::HighPerformanceGpu)
    } else {
        None
    }
}

impl RenderingGpuPreference {
    pub fn from_config_value(value: &str) -> (preference: Option<Self>)
        ensures
            preference == rendering_gpu_preference_from_text(value@),
    {
        if text_eq(value, "display") {
            Some(RenderingGpuPreference::DisplayGpu)
        } else if text_eq(value, "gpu") {
            Some(RenderingGpuPreference::HighPerformanceGpu)
        } else {
            None
        }
    }

    pub fn config_value(self) -> (value: &'static str)
        ensures
            value@ == rendering_gpu_preference_text(self),
    {
        match self {
            RenderingGpuPreference::DisplayGpu => "display",
            RenderingGpuPreference::HighPerformanceGpu => "gpu",
        }
    }

    /// Renderer backends tried, in order; the same list for both preferences.
    pub fn iced_backend_candidates(self) -> (candidates: &'static str)
        ensures
            candidates@ == "wgpu,tiny-skia"@,
    {
        match self {
            RenderingGpuPreference::DisplayGpu | RenderingGpuPreference::HighPerformanceGpu => {
                "wgpu,tiny-skia"
            },
        }
    }
}

#[derive(Debug, Clone, Copy, PartialEq, Eq, Structural)]
pub enum FileOperationVerification {
    BasicMetadata,
    Strong,
}

pub open spec fn file_operation_verification_text(verification: FileOperationVerification) -> Seq<
    char,
> {
    match verification {
        FileOperationVerification::BasicMetadata => "basic_metadata"@,
        FileOperationVerification::Strong => "strong"@,
    }
}

pub open spec fn file_operation_verification_from_text(value: Seq<char>) -> Option<
    FileOperationVerification,
> {
    if value == "basic_metadata"@ {
        Some(FileOperationVerification::BasicMetadata)
    } else if value == "strong"@ {
        Some(FileOperationVerification::Strong)
    } else {
        None
    }
}

pub fn file_operation_verification_from_config_value(value: &str) -> (verification: Option<FileOperationVerification>)
    ensures
        verification == file_operation_verification_from_text(value@),
{
    if text_eq(value, "basic_metadata") {
        Some(FileOperationVerification::BasicMetadata)
    } else if text_eq(value, "strong") {
        Some(FileOperationVerification::Strong)
    } else {
        None
    }
}

pub fn file_operation_verification_config_value(verification: FileOperationVerification) -> (value:
    &'static str)
    ensures
        value@ == file_operation_verification_text(verification),
{
    match verification {
        FileOperationVerification::BasicMetadata => "basic_metadata",
        FileOperationVerification::Strong => "strong",
    }
}

#[derive(Debug, Clone, Copy, PartialEq, Eq, Structural)]
pub enum BrowserViewMode {
    Columns,
    List,
    Icons,
}

pub open spec fn browser_view_mode_text(view_mode: BrowserViewMode) -> Seq<char> {
    match view_mode {
        BrowserViewMode::Columns => "columns"@,
        BrowserViewMode::List => "list"@,
        BrowserViewMode::Icons => "icons"@,
    }
}

pub open spec fn browser_view_mode_from_text(value: Seq<char>) -> Option<BrowserViewMode> {
    if value == "columns"@ {
        Some(BrowserViewMode::Columns)
    } else if value == "list"@ {
        Some(BrowserViewMode::List)
    } else if value == "icons"@ {
        Some(BrowserViewMode::Icons)
    } else {
        None
    }
}

pub fn browser_view_mode_from_config_value(value: &str) -> (view_mode: Option<BrowserViewMode>)
    ensures
        view_mode == browser_view_mode_from_text(value@),
{
    if text_eq(value, "columns") {
        Some(BrowserViewMode::Columns)
    } else if text_eq(value, "list") {
        Some(BrowserViewMode::List)
    } else if text_eq(value, "icons") {
        Some(BrowserViewMode::Icons)
    } else {
        None
    }
}

pub fn browser_view_mode_config_value(view_mode: BrowserViewMode) -> (value: &'static str)
    ensures
        value@ == browser_view_mode_text(view_mode),
{
    match view_mode {
        BrowserViewMode::Columns => "columns",
        BrowserViewMode::List => "list",
        BrowserViewMode::Icons => "icons",
    }
}

#[derive(Debug, Clone, Copy, PartialEq, Eq, Structural)]
pub enum SortField {
    Name,
    Modified,
    Size,
    Kind,
}

pub open spec fn sort_field_text(field: SortField) -> Seq<char> {
    match field {
        SortField::Name => "name"@,
        SortField::Modified => "modified"@,
        SortField::Size => "size"@,
        SortField::Kind => "kind"@,
    }
}

pub open spec fn sort_field_from_text(value: Seq<char>) -> Option<SortField> {
    if value == "name"@ {
        Some(SortField::Name)
    } else if value == "modified"@ {
        Some(SortField::Modified)
    } else if value == "size"@ {
        Some(SortField::Size)
    } else if value == "kind"@ {
        Some(SortField::Kind)
    } else {
        None
    }
}

pub fn sort_field_from_config_value(value: &str) -> (field: Option<SortField>)
    ensures
        field == sort_field_from_text(value@),
{
    if text_eq(value, "name") {
        Some(SortField::Name)
    } else if text_eq(value, "modified") {
        Some(SortField::Modified)
    } else if text_eq(value, "size") {
        Some(SortField::Size)
    } else if text_eq(value, "kind") {
        Some(SortField::Kind)
    } else {
        None
    }
}

pub fn sort_field_config_value(field: SortField) -> (value: &'static str)
    ensures
        value@ == sort_field_text(field),
{
    match field {
        SortField::Name => "name",
        SortField::Modified => "modified",
        SortField::Size => "size",
        SortField::Kind => "kind",
    }
}

#[derive(Debug, Clone, Copy, PartialEq, Eq, Structural)]
pub enum SortDirection {
    Ascending,
    Descending,
}

pub open spec fn sort_direction_text(direction: SortDirection) -> Seq<char> {
    match direction {
        SortDirection::Ascending => "ascending"@,
        SortDirection::Descending => "descending"@,
    }
}

pub open spec fn sort_direction_from_text(value: Seq<char>) -> Option<SortDirection> {
    if value == "ascending"@ {
        Some(SortDirection::Ascending)
    } else if value == "descending"@ {
        Some(SortDirection::Descending)
    } else {
        None
    }
}

pub fn sort_direction_from_config_value(value: &str) -> (direction: Option<SortDirection>)
    ensures
        direction == sort_direction_from_text(value@),
{
    if text_eq(value, "ascending") {
        Some(SortDirection::Ascending)
    } else if text_eq(value, "descending") {
        Some(SortDirection::Descending)
    } else {
        None
    }
}

pub fn sort_direction_config_value(direction: SortDirection) -> (value: &'static str)
    ensures
        value@ == sort_direction_text(direction),
{
    match direction {
        SortDirection::Ascending => "ascending",
        SortDirection::Descending => "descending",
    }
}

/// How dragging a column divider resizes the columns view.
#[derive(Debug, Clone, Copy, PartialEq, Eq, Structural)]
pub enum ColumnWidthAdjustMode {
    /// Every column keeps its own width.
    PerColumn,
    /// All columns always share one width.
    Uniform,
}

pub const DEFAULT_COLUMN_WIDTH_ADJUST_MODE: ColumnWidthAdjustMode =
    ColumnWidthAdjustMode::PerColumn;

pub open spec fn column_width_adjust_mode_text(mode: ColumnWidthAdjustMode) -> Seq<char> {
    match mode {
        ColumnWidthAdjustMode::PerColumn => "per_column"@,
        ColumnWidthAdjustMode::Uniform => "uniform"@,
    }
}

pub open spec fn column_width_adjust_mode_from_text(value: Seq<char>) -> Option<
    ColumnWidthAdjustMode,
> {
    if value == "per_column"@ {
        Some(ColumnWidthAdjustMode::PerColumn)
    } else if value == "uniform"@ {
        Some(ColumnWidthAdjustMode::Uniform)
    } else {
        None
    }
}

impl ColumnWidthAdjustMode {
    pub fn from_config_value(value: &str) -> (mode: Option<Self>)
        ensures
            mode == column_width_adjust_mode_from_text(value@),
    {
        if text_eq(value, "per_column") {
            Some(ColumnWidthAdjustMode::PerColumn)
        } else if text_eq(value, "uniform") {
            Some(ColumnWidthAdjustMode::Uniform)
        } else {
            None
        }
    }

    pub fn config_value(self) -> (value: &'static str)
        ensures
            value@ == column_width_adjust_mode_text(self),
    {
        match self {
            ColumnWidthAdjustMode::PerColumn => "per_column",
            ColumnWidthAdjustMode::Uniform => "uniform",
        }
    }
}

/// Every stored name reads back as the value it was written from.
pub proof fn lemma_config_values_round_trip(
    language: UiLanguageSetting,
    preference: RenderingGpuPreference,
    verification: FileOperationVerification,
    view_mode: BrowserViewMode,
    field: SortField,
    direction: SortDirection,
    adjust: ColumnWidthAdjustMode,
)
    ensures
        ui_language_setting_from_text(ui_language_setting_text(language)) == Some(language),
        rendering_gpu_preference_from_text(rendering_gpu_preference_text(preference)) == Some(
            preference,
        ),
        file_operation_verification_from_text(file_operation_verification_text(verification))
            == Some(verification),
        browser_view_mode_from_text(browser_view_mode_text(view_mode)) == Some(view_mode),
        sort_field_from_text(sort_field_text(field)) == Some(field),
        sort_direction_from_text(sort_direction_text(direction)) == Some(direction),
        column_width_adjust_mode_from_text(column_width_adjust_mode_text(adjust)) == Some(adjust),
{
    reveal_strlit("system");
    reveal_strlit("english");
    reveal_strlit("chinese");
    reveal_strlit("display");
    reveal_strlit("gpu");
    reveal_strlit("basic_metadata");
    reveal_strlit("strong");
    reveal_strlit("columns");
    reveal_strlit("list");
    reveal_strlit("icons");
    reveal_strlit("name");
    reveal_strlit("modified");
    reveal_strlit("size");
    reveal_strlit("kind");
    reveal_strlit("ascending");
    reveal_strlit("descending");
    reveal_strlit("per_column");
    reveal_strlit("uniform");
    assert("system"@.len() != "english"@.len());
    assert("system"@.len() != "chinese"@.len());
    assert("english"@[0] != "chinese"@[0]);
    assert("display"@.len() != "gpu"@.len());
    assert("basic_metadata"@.len() != "strong"@.len());
    assert("columns"@.len() != "list"@.len());
    assert("columns"@.len() != "icons"@.len());
    assert("list"@.len() != "icons"@.len());
    assert("name"@.len() != "modified"@.len());
    assert("name"@[0] != "size"@[0]);
    assert("name"@[0] != "kind"@[0]);
    assert("modified"@.len() != "size"@.len());
    assert("modified"@.len() != "kind"@.len());
    assert("size"@[0] != "kind"@[0]);
    assert("ascending"@.len() != "descending"@.len());
    assert("per_column"@.len() != "uniform"@.len());
}

/// A value that reads back as some setting is exactly that setting's stored
/// name: no other text is accepted for it.
pub proof fn lemma_config_values_only_accept_stored_names(value: Seq<char>)
    ensures
        ui_language_setting_from_text(value) matches Some(s) ==> value == ui_language_setting_text(s),
        rendering_gpu_preference_from_text(value) matches Some(p) ==> value
            == rendering_gpu_preference_text(p),
        file_operation_verification_from_text(value) matches Some(v) ==> value
            == file_operation_verification_text(v),
        browser_view_mode_from_text(value) matches Some(m) ==> value == browser_view_mode_text(m),
        sort_field_from_text(value) matches Some(f) ==> value == sort_field_text(f),
        sort_direction_from_text(value) matches Some(d) ==> value == sort_direction_text(d),
        column_width_adjust_mode_from_text(value) matches Some(a) ==> value
            == column_width_adjust_mode_text(a),
{
}

} // verus!
