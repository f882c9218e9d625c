//! A read-only overlay that lists key bindings.

use vstd::prelude::*;
use crate::ui::layout::Area;
use crate::ui::popup::{Popup, PopupView, PERCENT};

verus! {

/// Where an open help screen is drawn: the overlay, and inside it the lines
/// of the text.
#[derive(Clone, Copy, Debug, PartialEq, Eq, Structural)]
pub struct Placement {
    pub popup: Area,
    pub text: Area,
}

impl Placement {
    /// The placement is one in `frame`: the overlay lies within the frame,
    /// and the text stands two columns and one row in from its sides.
    pub open spec fn fits(self, frame: Area) -> bool {
        &&& self.popup.inside(frame)
        &&& self.text == self.popup.within_margin(2, 1)
    }
}

/// The help screen of one controller. It handles no keys itself: the
/// controller that owns it opens and closes it.
#[derive(Debug)]
pub struct Help {
    pub popup: Popup,
}

impl View for Help {
    type V = PopupView;

    open spec fn view(&self) -> PopupView {
        self.popup@
    }
}

impl Help {
    /// A closed help screen with the given title.
    pub fn new(title: &str) -> (r: Self)
        ensures
            r@ == (PopupView { title: title@, active: false }),
    {
        Self { popup: Popup::new(title) }
    }

    /// Where the help screen goes in `frame`: the region of the overlay and,
    /// inside it, the region of the text. Nothing while the help screen is
    /// closed.
    pub fn render(&self, frame: Area) -> (placed: Option<Placement>)
        ensures
            placed is Some <==> self@.active,
            placed matches Some(p) ==> p.fits(frame),
    {
        if self.popup.active {
            let popup = self.popup.render(frame, [PERCENT, PERCENT]);
            Some(Placement { popup, text: self.popup.text(popup) })
        } else {
            None
        }
    }
}

} // verus!
