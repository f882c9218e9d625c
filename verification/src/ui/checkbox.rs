//! A row or column of check boxes of which one is checked.

use vstd::prelude::*;
use crate::key::Key;
use crate::text::owned;
use crate::ui::layout::{Area, Constraint, Direction, Flex, Layout, LayoutView};
use crate::ui::select_list::last_index;

verus! {

/// A label with a box in front that is checked or not.
#[derive(Debug)]
pub struct CheckBox {
    pub check: bool,
    pub label: String,
}

/// A [`CheckBox`] as mathematical values.
pub struct CheckBoxView {
    pub check: bool,
    pub label: Seq<char>,
}

impl View for CheckBox {
    type V = CheckBoxView;

    open spec fn view(&self) -> CheckBoxView {
        CheckBoxView { check: self.check, label: self.label@ }
    }
}

impl DeepView for CheckBox {
    type V = CheckBoxView;

    open spec fn deep_view(&self) -> CheckBoxView {
        self@
    }
}

/// The boxes that were last drawn and the index of the checked one.
#[derive(Debug)]
pub struct CheckBoxes {
    pub index: usize,
    pub checkboxes: Vec<CheckBox>,
}

/// What a [`CheckBoxes`] holds, as mathematical values.
pub struct CheckBoxesView {
    pub index: nat,
    pub checkboxes: Seq<CheckBoxView>,
}

/// How many cells each of `n` boxes is given along the row or column: an
/// equal share of a hundred, and none where there are more boxes than that.
pub open spec fn share(n: nat) -> u16 {
    if 0 < n <= 100 { (100int / n as int) as u16 } else { 0 }
}

/// The direction in which the boxes follow one another.
pub open spec fn direction(vertical: bool) -> Direction {
    if vertical { Direction::Vertical } else { Direction::Horizontal }
}

/// The boxes for `labels` with the one at `index` checked.
pub open spec fn boxes(labels: Seq<Seq<char>>, index: nat) -> Seq<CheckBoxView> {
    Seq::new(labels.len(), |i: int| CheckBoxView { check: i == index, label: labels[i] })
}

impl CheckBoxesView {
    /// The index one lower, at least 0 and at most on the last box.
    pub open spec fn up(self) -> CheckBoxesView {
        let back: nat = if self.index > 0 { (self.index - 1) as nat } else { 0 };
        let last = last_index(self.checkboxes.len());
        CheckBoxesView { index: if back < last { back } else { last }, ..self }
    }

    /// The index one higher, at most on the last box.
    pub open spec fn down(self) -> CheckBoxesView {
        let last = last_index(self.checkboxes.len());
        CheckBoxesView { index: if self.index < last { self.index + 1 } else { last }, ..self }
    }

    /// The index back at the first box.
    pub open spec fn clear(self) -> CheckBoxesView {
        CheckBoxesView { index: 0, ..self }
    }

    /// The boxes after one key: up and left move up, down and right move
    /// down, any other key is ignored.
    pub open spec fn key_binding(self, key: Key) -> CheckBoxesView {
        match key {
            Key::Up => self.up(),
            Key::Right => self.down(),
            Key::Down => self.down(),
            Key::Left => self.up(),
            _ => self,
        }
    }

    /// The boxes made anew for `labels`; the index stays.
    pub open spec fn render(self, labels: Seq<Seq<char>>) -> CheckBoxesView {
        CheckBoxesView { index: self.index, checkboxes: boxes(labels, self.index) }
    }
}

impl View for CheckBoxes {
    type V = CheckBoxesView;

    open spec fn view(&self) -> CheckBoxesView {
        CheckBoxesView { index: self.index as nat, checkboxes: self.checkboxes.deep_view() }
    }
}

impl CheckBox {
    /// An unchecked box with the given label.
    pub fn new(label: &str) -> (r: Self)
        ensures
            r@ == (CheckBoxView { check: false, label: label@ }),
    {
        Self { check: false, label: owned(label) }
    }

    /// Checks the box.
    pub fn checked(&mut self)
        ensures
            final(self)@ == (CheckBoxView { check: true, label: old(self)@.label }),
    {
        self.check = true;
    }

    /// How a box is divided: three columns for the sign, the rest for the
    /// label.
    pub fn layout() -> (r: Layout)
        ensures
            r@ == (LayoutView {
                direction: Direction::Horizontal,
                flex: Flex::Start,
                constraints: seq![Constraint::Length(3), Constraint::Min(0)],
            }),
    {
        let r = Layout::new(Direction::Horizontal, Flex::Start)
            .with(Constraint::Length(3))
            .with(Constraint::Min(0));
        assert(r@.constraints =~= seq![Constraint::Length(3), Constraint::Min(0)]);
        r
    }

    /// Where the box goes in `area`: the sign in the first three columns,
    /// the label in the rest, both over all rows of the area.
    pub fn render(&self, area: Area) -> (placed: (Area, Area))
        ensures
            placed.0.spans(area, Direction::Horizontal),
            placed.1.spans(area, Direction::Horizontal),
            placed.0.inside(area),
            placed.1.inside(area),
    {
        let parts = Self::layout().split(area);
        (parts[0], parts[1])
    }

    /// The sign that stands for the box: a ballot box, with a check in it
    /// where the box is checked.
    pub fn sign(&self) -> (c: char)
        ensures
            c == (if self.check { '\u{2611}' } else { '\u{2610}' }),
    {
        if self.check { '\u{2611}' } else { '\u{2610}' }
    }
}

impl CheckBoxes {
    /// No boxes, the index at 0.
    pub fn new() -> (r: Self)
        ensures
            r@ == (CheckBoxesView { index: 0, checkboxes: Seq::empty() }),
    {
        let r = Self { index: 0, checkboxes: Vec::new() };
        assert(r.checkboxes.deep_view() =~= Seq::<CheckBoxView>::empty());
        r
    }

    /// How a region is divided among `n` boxes: each is given an equal
    /// share of a hundred cells, below one another if `vertical`, else side
    /// by side.
    pub fn layout(n: usize, vertical: bool) -> (r: Layout)
        ensures
            r@ == (LayoutView {
                direction: direction(vertical),
                flex: Flex::Start,
                constraints: Seq::new(n as nat, |i: int| Constraint::Length(share(n as nat))),
            }),
    {
        let each: u16 = if 0 < n && n <= 100 { (100 / n) as u16 } else { 0 };
        let mut r = Layout::new(
            if vertical { Direction::Vertical } else { Direction::Horizontal },
            Flex::Start,
        );
        let mut i: usize = 0;
        assert(r@.constraints =~= Seq::new(0, |k: int| Constraint::Length(share(n as nat))));
        while i < n
            invariant
                i <= n,
                each == share(n as nat),
                r@.direction == direction(vertical),
                r@.flex == Flex::Start,
                r@.constraints == Seq::new(i as nat, |k: int| Constraint::Length(share(n as nat))),
            decreases n - i,
        {
            r = r.with(Constraint::Length(each));
            i = i + 1;
            assert(r@.constraints =~= Seq::new(
                i as nat,
                |k: int| Constraint::Length(share(n as nat)),
            ));
        }
        r
    }

    /// Makes the boxes for `list`, checks the one at the index, and says
    /// where each box goes in `area`.
    pub fn render(&mut self, area: Area, list: Vec<String>, vertical: bool) -> (placed: Vec<Area>)
        ensures
            final(self)@ == old(self)@.render(list.deep_view()),
            placed.len() == list.len(),
            forall|i: int|
                0 <= i < placed.len() ==> (#[trigger] placed[i]).spans(area, direction(vertical)),
            forall|i: int| 0 <= i < placed.len() ==> (#[trigger] placed[i]).inside(area),
    {
        let mut made: Vec<CheckBox> = Vec::new();
        let mut i: usize = 0;
        while i < list.len()
            invariant
                i <= list.len(),
                made.len() == i,
                forall|k: int| 0 <= k < i ==> #[trigger] made[k]@ == boxes(
                    list.deep_view(),
                    self.index as nat,
                )[k],
            decreases list.len() - i,
        {
            let mut checkbox = CheckBox::new(list[i].as_str());
            if self.index == i {
                checkbox.checked();
            }
            made.push(checkbox);
            i = i + 1;
        }
        self.checkboxes = made;
        assert(self.checkboxes.deep_view() =~= boxes(list.deep_view(), self.index as nat));
        Self::layout(list.len(), vertical).split(area)
    }

    /// Moves the index one box up.
    pub fn up(&mut self)
        ensures
            final(self)@ == old(self)@.up(),
            final(self).checkboxes == old(self).checkboxes,
    {
        let back = if self.index > 0 { self.index - 1 } else { 0 };
        let last = if self.checkboxes.len() > 0 { self.checkboxes.len() - 1 } else { 0 };
        self.index = if back < last { back } else { last };
    }

    /// Moves the index as [`CheckBoxes::down`] does.
    pub fn right(&mut self)
        ensures
            final(self)@ == old(self)@.down(),
            final(self).checkboxes == old(self).checkboxes,
    {
        self.down();
    }

    /// Moves the index one box down.
    pub fn down(&mut self)
        ensures
            final(self)@ == old(self)@.down(),
            final(self).checkboxes == old(self).checkboxes,
    {
        let last = if self.checkboxes.len() > 0 { self.checkboxes.len() - 1 } else { 0 };
        self.index = if self.index < last { self.index + 1 } else { last };
    }

    /// Moves the index as [`CheckBoxes::up`] does.
    pub fn left(&mut self)
        ensures
            final(self)@ == old(self)@.up(),
            final(self).checkboxes == old(self).checkboxes,
    {
        self.up();
    }

    /// Puts the index back on the first box.
    pub fn clear(&mut self)
        ensures
            final(self)@ == old(self)@.clear(),
            final(self).checkboxes == old(self).checkboxes,
    {
        self.index = 0;
    }

    /// Hands one key to the boxes.
    pub fn key_binding(&mut self, key: Key)
        ensures
            final(self)@ == old(self)@.key_binding(key),
            final(self).checkboxes == old(self).checkboxes,
    {
        match key {
            Key::Up => self.up(),
            Key::Right => self.right(),
            Key::Down => self.down(),
            Key::Left => self.left(),
            _ => {},
        }
    }
}

} // verus!
