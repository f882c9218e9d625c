//! Rectangles of terminal cells and the sub-regions that widgets derive
//! from them.

use vstd::prelude::*;
use ratatui::layout as tui;
use ratatui::layout::{Layout as Solver, Margin, Rect};
use ratatui::widgets::Block;

verus! {

/// A rectangle of terminal cells: its top-left corner and its size.
#[derive(Clone, Copy, Debug, PartialEq, Eq, Structural)]
pub struct Area {
    pub x: u16,
    pub y: u16,
    pub width: u16,
    pub height: u16,
}

/// A cell of the terminal.
#[derive(Clone, Copy, Debug, PartialEq, Eq, Structural)]
pub struct Position {
    pub x: u16,
    pub y: u16,
}

/// Along which axis a region is divided.
#[derive(Clone, Copy, Debug, PartialEq, Eq, Structural)]
pub enum Direction {
    Horizontal,
    Vertical,
}

/// Where the parts go when they do not fill the region.
#[derive(Clone, Copy, Debug, PartialEq, Eq, Structural)]
pub enum Flex {
    Start,
    Center,
}

/// What is asked of one part of a divided region.
#[derive(Clone, Copy, Debug, PartialEq, Eq, Structural)]
pub enum Constraint {
    /// At least so many cells.
    Min(u16),
    /// Exactly so many cells.
    Length(u16),
    /// So many hundredths of the region.
    Percentage(u16),
}

/// How a region is to be divided: the direction in which the parts follow
/// one another, where they go when they do not fill the region, and what is
/// asked of each part.
#[derive(Debug)]
pub struct Layout {
    pub direction: Direction,
    pub flex: Flex,
    pub constraints: Vec<Constraint>,
}

/// A [`Layout`] as mathematical values.
pub struct LayoutView {
    pub direction: Direction,
    pub flex: Flex,
    pub constraints: Seq<Constraint>,
}

impl View for Layout {
    type V = LayoutView;

    open spec fn view(&self) -> LayoutView {
        LayoutView { direction: self.direction, flex: self.flex, constraints: self.constraints@ }
    }
}

/// `a + b`, held at the largest coordinate.
pub open spec fn add_sat(a: int, b: int) -> int {
    if a + b > u16::MAX { u16::MAX as int } else { a + b }
}

/// `a - b`, held at zero.
pub open spec fn sub_sat(a: int, b: int) -> int {
    if a < b { 0 } else { a - b }
}

impl Area {
    /// The first column right of the area.
    pub open spec fn right(self) -> int {
        add_sat(self.x as int, self.width as int)
    }

    /// The first row below the area.
    pub open spec fn bottom(self) -> int {
        add_sat(self.y as int, self.height as int)
    }

    /// The area reaches across `whole` at right angles to `direction`: a
    /// part of a horizontal division has the rows of the whole, a part of a
    /// vertical division its columns.
    pub open spec fn spans(self, whole: Area, direction: Direction) -> bool {
        match direction {
            Direction::Horizontal => self.y == whole.y && self.height == whole.height,
            Direction::Vertical => self.x == whole.x && self.width == whole.width,
        }
    }

    /// The area lies within `whole`: it begins no earlier and ends no later,
    /// in the columns and in the rows.
    pub open spec fn inside(self, whole: Area) -> bool {
        &&& whole.x <= self.x
        &&& self.x + self.width <= whole.x + whole.width
        &&& whole.y <= self.y
        &&& self.y + self.height <= whole.y + whole.height
    }

    /// What a border of one cell on every side leaves of the area.
    pub open spec fn within_border(self) -> Area {
        Area {
            x: vstd::math::min(add_sat(self.x as int, 1), self.right()) as u16,
            y: vstd::math::min(add_sat(self.y as int, 1), self.bottom()) as u16,
            width: sub_sat(self.width as int, 2) as u16,
            height: sub_sat(self.height as int, 2) as u16,
        }
    }

    /// The area without a margin of `horizontal` columns left and right and
    /// of `vertical` rows above and below; the empty area at the origin
    /// where the margins do not fit.
    pub open spec fn within_margin(self, horizontal: u16, vertical: u16) -> Area {
        let columns = vstd::math::min(2 * horizontal, u16::MAX as int);
        let rows = vstd::math::min(2 * vertical, u16::MAX as int);
        if self.width < columns || self.height < rows {
            Area { x: 0, y: 0, width: 0, height: 0 }
        } else {
            Area {
                x: add_sat(self.x as int, horizontal as int) as u16,
                y: add_sat(self.y as int, vertical as int) as u16,
                width: (self.width - columns) as u16,
                height: (self.height - rows) as u16,
            }
        }
    }
}

/// `Block::inner` of a block with all four borders and `title` in its top
/// border: the area loses one cell on every side, the title takes no further
/// row, and the corner never leaves the area.
#[verifier::external_body]
pub(crate) fn bordered_inner(title: &str, area: Area) -> (inner: Area)
    ensures
        inner == area.within_border(),
{
    let rect = Rect { x: area.x, y: area.y, width: area.width, height: area.height };
    let inner = Block::bordered().title(title).inner(rect);
    Area { x: inner.x, y: inner.y, width: inner.width, height: inner.height }
}

/// `Rect::inner` with a margin of `horizontal` columns and `vertical` rows:
/// the doubled margins are taken off the size, and an area too small for
/// them becomes the empty area at the origin.
#[verifier::external_body]
pub(crate) fn margin_inner(area: Area, horizontal: u16, vertical: u16) -> (inner: Area)
    ensures
        inner == area.within_margin(horizontal, vertical),
{
    let rect = Rect { x: area.x, y: area.y, width: area.width, height: area.height };
    let inner = rect.inner(Margin { horizontal, vertical });
    Area { x: inner.x, y: inner.y, width: inner.width, height: inner.height }
}

/// `Layout::split` of a layout without margin or spacing: one part for each
/// constraint, in their order. Each part reaches across the area at right
/// angles to the direction, and along the direction it lies within the area:
/// the layout solver is given both ends of the area as bounds that every part
/// must keep. Where within the area the parts lie, and how long they are, is
/// the solver's choice, and nothing is said of it.
#[verifier::external_body]
fn split(
    direction: Direction,
    flex: Flex,
    constraints: &Vec<Constraint>,
    area: Area,
) -> (parts: Vec<Area>)
    ensures
        parts.len() == constraints.len(),
        forall|i: int| 0 <= i < parts.len() ==> (#[trigger] parts[i]).spans(area, direction),
        forall|i: int| 0 <= i < parts.len() ==> (#[trigger] parts[i]).inside(area),
{
    let list = constraints.iter().map(|c| match *c {
        Constraint::Min(n) => tui::Constraint::Min(n),
        Constraint::Length(n) => tui::Constraint::Length(n),
        Constraint::Percentage(n) => tui::Constraint::Percentage(n),
    });
    let layout = match direction {
        Direction::Horizontal => Solver::horizontal(list),
        Direction::Vertical => Solver::vertical(list),
    };
    let layout = if flex == Flex::Center { layout.flex(tui::Flex::Center) } else { layout };
    layout
        .split(Rect { x: area.x, y: area.y, width: area.width, height: area.height })
        .iter()
        .map(|r| Area { x: r.x, y: r.y, width: r.width, height: r.height })
        .collect()
}

impl Layout {
    /// A layout that asks for nothing yet.
    pub fn new(direction: Direction, flex: Flex) -> (r: Self)
        ensures
            r@ == (LayoutView { direction, flex, constraints: Seq::empty() }),
    {
        Self { direction, flex, constraints: Vec::new() }
    }

    /// The layout with one more part, of which `constraint` is asked.
    pub fn with(self, constraint: Constraint) -> (r: Self)
        ensures
            r@ == (LayoutView { constraints: self@.constraints.push(constraint), ..self@ }),
    {
        let mut r = self;
        r.constraints.push(constraint);
        r
    }

    /// Divides `area`: one part for each constraint, in their order, each
    /// reaching across the area at right angles to the direction and lying
    /// within it. The layout solver sizes and places the parts along the
    /// direction.
    pub fn split(&self, area: Area) -> (parts: Vec<Area>)
        ensures
            parts.len() == self@.constraints.len(),
            forall|i: int|
                0 <= i < parts.len() ==> (#[trigger] parts[i]).spans(area, self@.direction),
            forall|i: int| 0 <= i < parts.len() ==> (#[trigger] parts[i]).inside(area),
    {
        split(self.direction, self.flex, &self.constraints, area)
    }
}

} // verus!
