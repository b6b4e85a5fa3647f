//! Viewport and navigation engine of a terminal pager for a small
//! line-oriented markup: parsing, word wrapping, a bounded scrolling
//! cursor, modal dialogs and a stack of tabs.

pub mod layout;
pub mod tag;
pub mod text;
pub mod viewport;
pub mod selector;
pub mod dialog;
pub mod tabs;
pub mod ui;
