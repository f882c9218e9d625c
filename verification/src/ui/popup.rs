//! A modal surface drawn over the rest of the frame.

use vstd::prelude::*;
use crate::text::{owned, pad, padded};
use crate::ui::layout::{margin_inner, Area, Constraint, Direction, Flex, Layout, LayoutView};

verus! {

/// How many hundredths of the frame an overlay takes, across and down.
pub const PERCENT: u16 = 80;

/// A bordered overlay with a title. While `active` it is open: it is drawn,
/// and it owns the keyboard.
#[derive(Debug)]
pub struct Popup {
    pub title: String,
    pub active: bool,
}

/// What a [`Popup`] holds, as mathematical values.
pub struct PopupView {
    pub title: Seq<char>,
    pub active: bool,
}

impl PopupView {
    /// The same overlay, open or closed as `active` says.
    pub open spec fn opened(self, active: bool) -> PopupView {
        PopupView { active, ..self }
    }
}

impl View for Popup {
    type V = PopupView;

    open spec fn view(&self) -> PopupView {
        PopupView { title: self.title@, active: self.active }
    }
}

impl Popup {
    /// A closed overlay with the given title.
    pub fn new(title: &str) -> (r: Self)
        ensures
            r@ == (PopupView { title: title@, active: false }),
    {
        Self { title: owned(title), active: false }
    }

    /// The title as it is drawn into the border.
    pub fn label(&self) -> (r: String)
        ensures
            r@ == padded(self@.title),
    {
        pad(self.title.as_str())
    }

    /// How an overlay is cut out of a frame along `direction`: one part of
    /// `percent` hundredths of the frame, in its middle.
    pub fn layout(direction: Direction, percent: u16) -> (r: Layout)
        ensures
            r@ == (LayoutView {
                direction,
                flex: Flex::Center,
                constraints: seq![Constraint::Percentage(percent)],
            }),
    {
        let r = Layout::new(direction, Flex::Center).with(Constraint::Percentage(percent));
        assert(r@.constraints =~= seq![Constraint::Percentage(percent)]);
        r
    }

    /// The region of the overlay in `frame`: `percent[0]` hundredths of the
    /// frame's columns and `percent[1]` hundredths of its rows, in the middle
    /// of the frame. The layout solver sizes and places it; what is certain
    /// is that it lies within the frame.
    pub fn render(&self, frame: Area, percent: [u16; 2]) -> (area: Area)
        ensures
            area.inside(frame),
    {
        let columns = Self::layout(Direction::Horizontal, percent[0]).split(frame);
        let rows = Self::layout(Direction::Vertical, percent[1]).split(columns[0]);
        rows[0]
    }

    /// Where lines of text go inside an overlay drawn at `area`: two columns
    /// and one row in from every side.
    pub fn text(&self, area: Area) -> (inner: Area)
        ensures
            inner == area.within_margin(2, 1),
    {
        margin_inner(area, 2, 1)
    }
}

} // verus!
