//! What a controller asks its caller to do after a key.

use vstd::prelude::*;
use crate::request::{Request, RequestView};

verus! {

/// The work that a key leaves for the caller. The controllers change their
/// own state themselves; whatever touches a file, a process or the network
/// is handed out as one of these.
#[derive(Debug)]
pub enum Action {
    /// Nothing is left to do.
    Idle,
    /// Esc arrived with no overlay open: the controller is left.
    Leave,
    /// The event loop ends.
    Quit,
    /// Open the address in the browser.
    Browse(String),
    /// Write the bookmark list to the store.
    Store,
    /// Start the virtual machine of this name.
    Start(String),
    /// Send the request to the calendar service, whatever comes of it, then
    /// read the schedules again and hand them to the schedule controller.
    Calendar(Request),
    /// Send the request to the task service, whatever comes of it, then read
    /// the tasks again and hand them to the task controller.
    Tasks(Request),
}

/// An [`Action`] as mathematical values.
pub enum ActionView {
    Idle,
    Leave,
    Quit,
    Browse(Seq<char>),
    Store,
    Start(Seq<char>),
    Calendar(RequestView),
    Tasks(RequestView),
}

impl View for Action {
    type V = ActionView;

    open spec fn view(&self) -> ActionView {
        match self {
            Action::Idle => ActionView::Idle,
            Action::Leave => ActionView::Leave,
            Action::Quit => ActionView::Quit,
            Action::Browse(url) => ActionView::Browse(url@),
            Action::Store => ActionView::Store,
            Action::Start(name) => ActionView::Start(name@),
            Action::Calendar(request) => ActionView::Calendar(request@),
            Action::Tasks(request) => ActionView::Tasks(request@),
        }
    }
}

} // verus!
