//! A keyboard-driven dashboard engine: widgets, forms, resource controllers
//! and the router that dispatches each key to exactly one of them.

pub mod action;
pub mod app;
pub mod bookmark;
pub mod google;
pub mod key;
pub mod request;
pub mod schedule;
pub mod task;
pub mod text;
pub mod ui;
pub mod virtualbox;
