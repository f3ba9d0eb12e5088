use app_ui::config::{
    browser_view_mode_config_value, browser_view_mode_from_config_value,
    normalize_icon_grid_size, normalize_visible_column_count, sort_direction_config_value,
    sort_direction_from_config_value, sort_field_config_value, sort_field_from_config_value,
    BrowserViewMode, ColumnWidthAdjustMode, RenderingGpuPreference, SortDirection, SortField,
    UiLanguage, UiLanguageSetting, ViewDensityLevel, ViewDensityPreferences, ViewDensityStep,
    DEFAULT_ICON_GRID_SIZE, MAX_ICON_GRID_SIZE, MIN_ICON_GRID_SIZE,
};

#[test]
fn levels_map_all_sizes_and_clamp_inputs() {
    for (index, size) in [64, 80, 96, 112, 128, 144, 160, 176, 192]
        .into_iter()
        .enumerate()
    {
        let level = ViewDensityLevel::from_index(index as u8);
        assert_eq!((level.index(), level.icon_grid_size()), (index as u8, size));
    }

    assert_eq!(ViewDensityLevel::default_level().index(), 2);
    assert_eq!(ViewDensityLevel::from_index(u8::MAX).index(), 8);
    assert_eq!(ViewDensityLevel::from_icon_grid_size(0).index(), 0);
    assert_eq!(ViewDensityLevel::from_icon_grid_size(71).index(), 0);
    assert_eq!(ViewDensityLevel::from_icon_grid_size(72).index(), 1);
    assert_eq!(ViewDensityLevel::from_icon_grid_size(u32::MAX).index(), 8);
}

#[test]
fn stepping_uses_direction_and_stops_at_boundaries() {
    assert_eq!(
        ViewDensityLevel::from_index(0)
            .step(ViewDensityStep::Decrease)
            .index(),
        0
    );
    assert_eq!(
        ViewDensityLevel::from_index(0)
            .step(ViewDensityStep::Increase)
            .index(),
        1
    );
    assert_eq!(
        ViewDensityLevel::from_index(8)
            .step(ViewDensityStep::Increase)
            .index(),
        8
    );
    assert_eq!(
        ViewDensityLevel::from_index(8)
            .step(ViewDensityStep::Decrease)
            .index(),
        7
    );
}

#[test]
fn zoom_steps_and_clamp_at_limits() {
    assert_eq!(ViewDensityLevel::default_level().icon_grid_size(), 96);
    assert_eq!(
        ViewDensityLevel::from_index(8)
            .step(ViewDensityStep::Increase)
            .icon_grid_size(),
        MAX_ICON_GRID_SIZE
    );
    assert_eq!(
        ViewDensityLevel::from_index(0)
            .step(ViewDensityStep::Decrease)
            .icon_grid_size(),
        MIN_ICON_GRID_SIZE
    );
}

#[test]
fn density_edge_round_trips_through_every_level() {
    for index in 0..=8u8 {
        let level = ViewDensityLevel::from_index(index);
        assert_eq!(ViewDensityLevel::from_icon_grid_size(level.icon_grid_size()), level);
    }
    assert_eq!(ViewDensityLevel::default(), ViewDensityLevel::default_level());
}

#[test]
fn config_values_round_trip() {
    for mode in [ColumnWidthAdjustMode::PerColumn, ColumnWidthAdjustMode::Uniform] {
        assert_eq!(
            ColumnWidthAdjustMode::from_config_value(mode.config_value()),
            Some(mode)
        );
    }
}

#[test]
fn unknown_config_value_falls_back_through_none() {
    assert_eq!(ColumnWidthAdjustMode::from_config_value("nonsense"), None);
}

#[test]
fn stored_names_round_trip_for_every_setting() {
    for setting in [
        UiLanguageSetting::System,
        UiLanguageSetting::English,
        UiLanguageSetting::Chinese,
    ] {
        assert_eq!(
            UiLanguageSetting::from_config_value(setting.config_value()),
            Some(setting)
        );
    }
    for preference in [
        RenderingGpuPreference::DisplayGpu,
        RenderingGpuPreference::HighPerformanceGpu,
    ] {
        assert_eq!(
            RenderingGpuPreference::from_config_value(preference.config_value()),
            Some(preference)
        );
    }
    for mode in [BrowserViewMode::Columns, BrowserViewMode::List, BrowserViewMode::Icons] {
        assert_eq!(
            browser_view_mode_from_config_value(browser_view_mode_config_value(mode)),
            Some(mode)
        );
    }
    for field in [SortField::Name, SortField::Modified, SortField::Size, SortField::Kind] {
        assert_eq!(sort_field_from_config_value(sort_field_config_value(field)), Some(field));
    }
    for direction in [SortDirection::Ascending, SortDirection::Descending] {
        assert_eq!(
            sort_direction_from_config_value(sort_direction_config_value(direction)),
            Some(direction)
        );
    }
}

#[test]
fn stored_names_are_the_documented_strings() {
    assert_eq!(UiLanguageSetting::Chinese.config_value(), "chinese");
    assert_eq!(RenderingGpuPreference::HighPerformanceGpu.config_value(), "gpu");
    assert_eq!(RenderingGpuPreference::DisplayGpu.iced_backend_candidates(), "wgpu,tiny-skia");
    assert_eq!(browser_view_mode_from_config_value("icons"), Some(BrowserViewMode::Icons));
    assert_eq!(browser_view_mode_from_config_value("Icons"), None);
    assert_eq!(UiLanguageSetting::from_config_value(""), None);
}

#[test]
fn language_setting_resolves_system_choice() {
    assert_eq!(UiLanguageSetting::System.resolve(UiLanguage::Chinese), UiLanguage::Chinese);
    assert_eq!(UiLanguageSetting::English.resolve(UiLanguage::Chinese), UiLanguage::English);
}

#[test]
fn integer_normalisations_clamp_into_range() {
    assert_eq!(normalize_icon_grid_size(10), 64);
    assert_eq!(normalize_icon_grid_size(100), 100);
    assert_eq!(normalize_icon_grid_size(500), 192);
    assert_eq!(normalize_visible_column_count(0), 3);
    assert_eq!(normalize_visible_column_count(4), 4);
    assert_eq!(normalize_visible_column_count(9), 5);
}

fn default_densities() -> ViewDensityPreferences {
    ViewDensityPreferences::from_user_config(
        ViewDensityLevel::default_level(),
        ViewDensityLevel::default_level(),
        ViewDensityLevel::default_level(),
        DEFAULT_ICON_GRID_SIZE,
    )
}

#[test]
fn density_levels_roundtrip_independently_with_icon_mirror() {
    let default = default_densities();
    let icons_view_density = ViewDensityLevel::from_index(6);
    let config = ViewDensityPreferences::from_user_config(
        ViewDensityLevel::from_index(1),
        ViewDensityLevel::from_index(4),
        icons_view_density,
        icons_view_density.icon_grid_size(),
    );

    let stored = config.to_stored();
    assert_eq!(
        (
            stored.columns_view_density,
            stored.list_view_density,
            stored.icons_view_density,
            stored.icon_grid_size,
        ),
        (Some(1), Some(4), Some(6), 160)
    );

    let restored = ViewDensityPreferences::from_stored(stored, &default);
    assert_eq!(restored.columns_view_density.index(), 1);
    assert_eq!(restored.list_view_density.index(), 4);
    assert_eq!(restored.icons_view_density.index(), 6);
    assert_eq!(restored.icon_grid_size, 160);
}

#[test]
fn density_boundary_migrates_legacy_values_and_clamps_new_indexes() {
    let default = default_densities();
    let legacy_config = ViewDensityPreferences::from_user_config(
        ViewDensityLevel::default_level(),
        ViewDensityLevel::default_level(),
        ViewDensityLevel::default_level(),
        160,
    );
    assert_eq!(legacy_config.icons_view_density.index(), 6);

    let mut stored = default.to_stored();
    stored.columns_view_density = None;
    stored.list_view_density = None;
    stored.icons_view_density = None;
    stored.icon_grid_size = 120;
    let migrated = ViewDensityPreferences::from_stored(stored, &default);
    assert_eq!(migrated.columns_view_density, ViewDensityLevel::default_level());
    assert_eq!(migrated.list_view_density, ViewDensityLevel::default_level());
    assert_eq!(migrated.icons_view_density.index(), 4);
    assert_eq!(migrated.icon_grid_size, 128);

    let mut stored = migrated.to_stored();
    stored.columns_view_density = Some(u8::MAX);
    stored.list_view_density = Some(0);
    stored.icons_view_density = Some(u8::MAX);
    stored.icon_grid_size = 64;
    let normalized = ViewDensityPreferences::from_stored(stored, &default);
    assert_eq!(normalized.columns_view_density.index(), 8);
    assert_eq!(normalized.list_view_density.index(), 0);
    assert_eq!(normalized.icons_view_density.index(), 8);
    assert_eq!(normalized.to_stored().icon_grid_size, 192);

    let mut stored = normalized.to_stored();
    stored.icons_view_density = Some(1);
    stored.icon_grid_size = 192;
    let preferred = ViewDensityPreferences::from_stored(stored, &default);
    assert_eq!(preferred.icons_view_density.index(), 1);
    assert_eq!(preferred.icon_grid_size, 80);
}

#[test]
fn a_chosen_icon_level_is_not_overridden_by_the_legacy_edge() {
    let config = ViewDensityPreferences::from_user_config(
        ViewDensityLevel::default_level(),
        ViewDensityLevel::default_level(),
        ViewDensityLevel::from_index(7),
        64,
    );
    assert_eq!(config.icons_view_density.index(), 7);
    assert_eq!(config.icon_grid_size, 176);
}
