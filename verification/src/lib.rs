//! Verified core of a task-list application: the task list model, the
//! content pane's state machine, listing (sorting, searching, filtering),
//! the title edit-mode machine, the application-level message handling,
//! the menus and the start-up plan.

pub mod model;
pub mod edit;
pub mod slots;
pub mod text;
pub mod listing;
pub mod content;
pub mod actions;
pub mod app;
pub mod menu;
pub mod startup;
pub mod export;
pub mod migrations;
pub mod laws;
