//! Index-based navigation over a list of rows.

use vstd::prelude::*;
use crate::key::Key;
use crate::text::join;

verus! {

/// The rows that were last drawn and the index of the selected one.
#[derive(Debug)]
pub struct SelectList {
    pub index: usize,
    pub list: Vec<String>,
}

/// What a [`SelectList`] holds, as mathematical values.
pub struct SelectListView {
    pub index: nat,
    pub rows: Seq<Seq<char>>,
}

/// What is written in front of the selected row.
pub open spec fn marker() -> Seq<char> {
    seq!['>', ' ']
}

/// The largest index into a list of `n` rows; 0 for the empty list.
pub open spec fn last_index(n: nat) -> nat {
    if n == 0 { 0 } else { (n - 1) as nat }
}

/// `index`, or the last index of `n` rows where `index` lies behind it.
pub open spec fn clamped(index: nat, n: nat) -> nat {
    if index <= last_index(n) { index } else { last_index(n) }
}

/// The rows that show `items` with `index` selected: the selected item has
/// the marker in front, every other item stands as it is.
pub open spec fn marked(items: Seq<Seq<char>>, index: nat) -> Seq<Seq<char>> {
    Seq::new(items.len(), |i: int| if i == index { marker() + items[i] } else { items[i] })
}

impl SelectListView {
    /// The index selects a row, or is 0 where there is none.
    pub open spec fn wf(self) -> bool {
        self.index <= last_index(self.rows.len())
    }

    /// The selection one row further up, at most at the first row.
    pub open spec fn up(self) -> SelectListView {
        SelectListView { index: if self.index > 0 { (self.index - 1) as nat } else { 0 }, ..self }
    }

    /// The selection one row further down, at most at the last row.
    pub open spec fn down(self) -> SelectListView {
        SelectListView {
            index: if self.rows.len() > 0 && self.index < self.rows.len() - 1 {
                self.index + 1
            } else {
                self.index
            },
            ..self
        }
    }

    /// The list after one key: up and left move up, down and right move
    /// down, any other key is ignored.
    pub open spec fn key_binding(self, key: Key) -> SelectListView {
        match key {
            Key::Up => self.up(),
            Key::Right => self.down(),
            Key::Down => self.down(),
            Key::Left => self.up(),
            _ => self,
        }
    }

    /// The list after the keys of `keys`, first to last.
    pub open spec fn key_bindings(self, keys: Seq<Key>) -> SelectListView
        decreases keys.len(),
    {
        if keys.len() == 0 {
            self
        } else {
            self.key_binding(keys[0]).key_bindings(keys.drop_first())
        }
    }

    /// The list showing `items`: the index is brought back into range
    /// first, then the rows are marked.
    pub open spec fn render(self, items: Seq<Seq<char>>) -> SelectListView {
        let index = clamped(self.index, items.len());
        SelectListView { index, rows: marked(items, index) }
    }
}

impl View for SelectList {
    type V = SelectListView;

    open spec fn view(&self) -> SelectListView {
        SelectListView { index: self.index as nat, rows: self.list.deep_view() }
    }
}

/// Whatever keys are pressed, the selection stays on a row of the list (at 0
/// where the list is empty), and the rows stay as they are.
pub proof fn lemma_keys_keep_selection_in_range(list: SelectListView, keys: Seq<Key>)
    requires
        list.wf(),
    ensures
        list.key_bindings(keys).wf(),
        list.key_bindings(keys).rows == list.rows,
        list.key_bindings(keys).index <= last_index(list.rows.len()),
    decreases keys.len(),
{
    if keys.len() > 0 {
        lemma_keys_keep_selection_in_range(list.key_binding(keys[0]), keys.drop_first());
    }
}

/// After the list has shrunk to `n` rows and was drawn again, the selection
/// is on one of them: a selection that stood on a removed last row has moved
/// up to the new last row.
pub proof fn lemma_render_keeps_selection_in_range(list: SelectListView, items: Seq<Seq<char>>)
    ensures
        list.render(items).wf(),
        list.render(items).rows.len() == items.len(),
        items.len() > 0 ==> list.render(items).index < items.len(),
        list.index < items.len() ==> list.render(items).index == list.index,
        list.index >= items.len() > 0 ==> list.render(items).index == items.len() - 1,
{
}

impl SelectList {
    /// A list without rows, the index at 0.
    pub fn new() -> (r: Self)
        ensures
            r@ == (SelectListView { index: 0, rows: Seq::empty() }),
            r@.wf(),
    {
        let r = Self { index: 0, list: Vec::new() };
        assert(r.list.deep_view() =~= Seq::<Seq<char>>::empty());
        r
    }

    /// Brings the index back into a list of `n` items.
    pub fn clamp(&mut self, n: usize)
        ensures
            final(self).index == clamped(old(self).index as nat, n as nat),
            final(self).list == old(self).list,
    {
        if n == 0 {
            self.index = 0;
        } else if self.index > n - 1 {
            self.index = n - 1;
        }
    }

    /// Takes the items to show and makes the rows for them: the row at the
    /// index gets the selection marker. An index behind the last item moves
    /// to the last item first.
    pub fn render(&mut self, list: Vec<String>)
        ensures
            final(self)@ == old(self)@.render(list.deep_view()),
            final(self)@.wf(),
    {
        proof {
            reveal_strlit("> ");
        }
        assert("> "@ =~= marker());
        self.clamp(list.len());
        let mut rows: Vec<String> = Vec::new();
        let mut i: usize = 0;
        while i < list.len()
            invariant
                i <= list.len(),
                rows.len() == i,
                "> "@ == marker(),
                forall|k: int| 0 <= k < i ==> #[trigger] rows[k]@ == marked(
                    list.deep_view(),
                    self.index as nat,
                )[k],
            decreases list.len() - i,
        {
            let row = if i == self.index {
                join("> ", list[i].as_str())
            } else {
                list[i].clone()
            };
            rows.push(row);
            i = i + 1;
        }
        self.list = rows;
        assert(self.list.deep_view() =~= marked(list.deep_view(), self.index as nat));
    }

    /// Moves the selection one row up; at the first row it stays.
    pub fn up(&mut self)
        ensures
            final(self)@ == old(self)@.up(),
            final(self).list == old(self).list,
            old(self)@.wf() ==> final(self)@.wf(),
    {
        if self.index > 0 {
            self.index -= 1;
        }
    }

    /// Moves the selection as [`SelectList::down`] does.
    pub fn right(&mut self)
        ensures
            final(self)@ == old(self)@.down(),
            final(self).list == old(self).list,
            old(self)@.wf() ==> final(self)@.wf(),
    {
        self.down();
    }

    /// Moves the selection one row down; at the last row, and in an empty
    /// list, it stays.
    pub fn down(&mut self)
        ensures
            final(self)@ == old(self)@.down(),
            final(self).list == old(self).list,
            old(self)@.wf() ==> final(self)@.wf(),
    {
        if self.list.len() > 0 {
            if self.index < self.list.len() - 1 {
                self.index += 1;
            }
        }
    }

    /// Moves the selection as [`SelectList::up`] does.
    pub fn left(&mut self)
        ensures
            final(self)@ == old(self)@.up(),
            final(self).list == old(self).list,
            old(self)@.wf() ==> final(self)@.wf(),
    {
        self.up();
    }

    /// Hands one key to the list.
    pub fn key_binding(&mut self, key: Key)
        ensures
            final(self)@ == old(self)@.key_binding(key),
            final(self).list == old(self).list,
            old(self)@.wf() ==> final(self)@.wf(),
    {
        match key {
            Key::Up => self.up(),
            Key::Right => self.right(),
            Key::Down => self.down(),
            Key::Left => self.left(),
            _ => {},
        }
    }
}

} // verus!
