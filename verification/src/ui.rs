//! The widgets that the controllers are built from.

pub mod checkbox;
pub mod help;
pub mod input;
pub mod layout;
pub mod pane;
pub mod popup;
pub mod select_list;
