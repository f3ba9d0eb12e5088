//! Verified core of a desktop file browser: configuration values and view
//! density, path arithmetic and naming rules, the browser's panes and
//! selection, clipboard and drag-and-drop, transfer conflicts, dialogs,
//! view switching and the list view's expanded directories, metadata
//! requests, window focus and the local network transfer session.

pub mod text;
pub mod toml_file;
pub mod config;
pub mod paths;
pub mod naming;
pub mod operations;
pub mod browser;
pub mod archive_member_password;
pub mod selection;
pub mod clipboard;
pub mod conflict;
pub mod panes;
pub mod advanced_new_folder;
pub mod view_modes;
pub mod metadata_demand;
pub mod transfer;
pub mod entry_changes;
pub mod entry_change_application;
pub mod app_config;
pub mod windows;
pub mod view_switch;
pub mod archive_extraction;
pub mod floating_input;
