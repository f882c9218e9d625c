//! A bordered container that shows whether it has the focus.

use vstd::prelude::*;
use crate::text::{owned, pad, padded};
use crate::ui::layout::{bordered_inner, Area};

verus! {

/// A bordered region with a title; its border is highlighted while it is
/// active.
#[derive(Debug)]
pub struct Pane {
    pub title: String,
    pub active: bool,
}

/// What a [`Pane`] holds, as mathematical values.
pub struct PaneView {
    pub title: Seq<char>,
    pub active: bool,
}

impl PaneView {
    /// The same pane with the focus set to `active`.
    pub open spec fn focused(self, active: bool) -> PaneView {
        PaneView { active, ..self }
    }
}

impl View for Pane {
    type V = PaneView;

    open spec fn view(&self) -> PaneView {
        PaneView { title: self.title@, active: self.active }
    }
}

impl Pane {
    /// An inactive pane with the given title.
    pub fn new(title: &str) -> (r: Self)
        ensures
            r@ == (PaneView { title: title@, active: false }),
    {
        Self { title: owned(title), active: false }
    }

    /// The title as it is drawn into the border.
    pub fn label(&self) -> (r: String)
        ensures
            r@ == padded(self@.title),
    {
        pad(self.title.as_str())
    }

    /// The region inside the pane's border when the pane is drawn into
    /// `area`: what the pane's children render into.
    pub fn render(&self, area: Area) -> (inner: Area)
        ensures
            inner == area.within_border(),
    {
        let label = self.label();
        bordered_inner(label.as_str(), area)
    }
}

} // verus!
