//! Terminal user interface logic for a process monitor: geometry of modal
//! dialogs, scrolling state, text fitting and value formatting.

pub mod ui;
