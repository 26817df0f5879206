pub mod command_log;
pub mod receipt_viewer;
pub mod save_status_panel;
pub mod app;
pub mod settings_panel;
