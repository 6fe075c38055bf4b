//! Core of a modal terminal application: a two-mode input model (normal
//! mode and command-entry mode), a single-line command widget, a command
//! dispatcher, and the layout rules of the page renderer.

pub mod command_line;
pub mod dispatch;
pub mod input;
pub mod layout;
pub mod model;
pub mod ui;
