pub mod rect;
pub mod text;
pub mod widgets;
pub mod header;
pub mod format;
pub mod investigation_profiles;
pub mod open_files;
pub mod recording_dialog;
pub mod process_environment;
pub mod process_modules;
pub mod details_panel;
pub mod layout;
pub mod process_table;
pub mod theme;
pub mod cpu_panel;
pub mod system_panel;
pub mod help;
pub mod column_picker;
pub mod cpu_core_dialog;
pub mod graph_reorder;
pub mod main_menu;
pub mod network;
pub mod process_info_dialog;
pub mod file_users;
pub mod scheduling;
pub mod styled;
pub mod graph_slot;
