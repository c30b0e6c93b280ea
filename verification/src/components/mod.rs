pub mod identify;
pub mod list_item;
pub mod sidebar;
pub mod content;
pub mod seat_dialog;
pub mod app;
