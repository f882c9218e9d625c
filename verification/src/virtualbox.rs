//! The virtual machines and their controller.

use vstd::prelude::*;
use crate::action::{Action, ActionView};
use crate::key::Key;
use crate::text::{chars, collect, find, lemma_first_index};
use crate::ui::help::Help;
use crate::ui::layout::Area;
use crate::ui::pane::{Pane, PaneView};
use crate::ui::popup::PopupView;
use crate::ui::select_list::{SelectList, SelectListView};

verus! {

/// The first line of `s`: what stands before its first line feed, or all of
/// it.
pub open spec fn first_line(s: Seq<char>) -> Seq<char> {
    match s.index_of_first('\n') {
        Some(end) => s.take(end),
        None => s,
    }
}

/// What follows the first line of `s` and its line feed.
pub open spec fn after_first_line(s: Seq<char>) -> Seq<char> {
    match s.index_of_first('\n') {
        Some(end) => s.skip(end + 1),
        None => Seq::empty(),
    }
}

/// What stands between the first double quote of `line` and the next one;
/// none where the line has fewer than two.
pub open spec fn quoted(line: Seq<char>) -> Option<Seq<char>> {
    match line.index_of_first('"') {
        Some(start) => match line.skip(start + 1).index_of_first('"') {
            Some(len) => Some(line.subrange(start + 1, start + 1 + len)),
            None => None,
        },
        None => None,
    }
}

/// The names of the machines in the manager's list `output`: of each line
/// that has one, the first quoted text, in the order of the lines.
pub open spec fn machines(output: Seq<char>) -> Seq<Seq<char>>
    decreases output.len(),
{
    if output.len() == 0 {
        Seq::empty()
    } else {
        proof {
            output.index_of_first_ensures('\n');
        }
        (match quoted(first_line(output)) {
            Some(name) => seq![name],
            None => Seq::empty(),
        }) + machines(after_first_line(output))
    }
}

/// The virtual machine controller: the names of the machines, the selection
/// among them, the help screen and the pane around them. The list is read
/// once, when the controller is made.
#[derive(Debug)]
pub struct VirtualBox {
    pub pane: Pane,
    pub machines: Vec<String>,
    pub select_list: SelectList,
    pub help: Help,
}

/// What a [`VirtualBox`] holds, as mathematical values.
pub struct VirtualBoxView {
    pub pane: PaneView,
    pub machines: Seq<Seq<char>>,
    pub select_list: SelectListView,
    pub help: PopupView,
}

impl VirtualBoxView {
    /// The controller as it starts with `machines`: the help screen closed,
    /// the first machine selected.
    pub open spec fn new(machines: Seq<Seq<char>>) -> VirtualBoxView {
        VirtualBoxView {
            pane: PaneView { title: "VirtualBox"@, active: false },
            machines,
            select_list: SelectListView { index: 0, rows: Seq::empty() },
            help: PopupView { title: "Help VirtualBox"@, active: false },
        }.render()
    }

    /// The list has a row for every machine, and the selection is on one of
    /// them.
    pub open spec fn wf(self) -> bool {
        &&& self.select_list.rows.len() == self.machines.len()
        &&& self.select_list.wf()
    }

    /// The list drawn again from the machines.
    pub open spec fn render(self) -> VirtualBoxView {
        VirtualBoxView { select_list: self.select_list.render(self.machines), ..self }
    }

    /// What opening the selected machine asks for: that it be started, or
    /// nothing where there is no machine.
    pub open spec fn open(self) -> ActionView {
        if self.select_list.index < self.machines.len() {
            ActionView::Start(self.machines[self.select_list.index as int])
        } else {
            ActionView::Idle
        }
    }

    /// The controller after one key. While the help screen is open only Esc
    /// does anything: it closes the help screen. Else F1 opens the help
    /// screen and the arrows move the selection.
    pub open spec fn key_binding(self, key: Key) -> VirtualBoxView {
        if self.help.active {
            match key {
                Key::Esc => VirtualBoxView { help: self.help.opened(false), ..self },
                _ => self,
            }
        } else {
            match key {
                Key::F(1) => VirtualBoxView { help: self.help.opened(true), ..self },
                _ => VirtualBoxView { select_list: self.select_list.key_binding(key), ..self },
            }
        }
    }

    /// What one key leaves for the caller to do.
    pub open spec fn action(self, key: Key) -> ActionView {
        if self.help.active {
            ActionView::Idle
        } else {
            match key {
                Key::Enter => self.open(),
                Key::Esc => ActionView::Leave,
                _ => ActionView::Idle,
            }
        }
    }
}

/// While the help screen is open it owns the keyboard: every key but Esc
/// leaves the controller as it is, Esc closes the help screen and changes
/// nothing else, and no key asks the caller for anything.
pub proof fn lemma_help_owns_the_keyboard(controller: VirtualBoxView, key: Key)
    requires
        controller.help.active,
    ensures
        key != Key::Esc ==> controller.key_binding(key) == controller,
        controller.key_binding(Key::Esc) == (VirtualBoxView {
            help: controller.help.opened(false),
            ..controller
        }),
        controller.action(key) == ActionView::Idle,
{
}

impl View for VirtualBox {
    type V = VirtualBoxView;

    open spec fn view(&self) -> VirtualBoxView {
        VirtualBoxView {
            pane: self.pane@,
            machines: self.machines.deep_view(),
            select_list: self.select_list@,
            help: self.help@,
        }
    }
}

impl VirtualBox {
    /// The controller over the machines that the manager listed.
    pub fn new(machines: Vec<String>) -> (r: Self)
        ensures
            r@ == VirtualBoxView::new(machines.deep_view()),
            r@.wf(),
    {
        let mut r = Self {
            pane: Pane::new("VirtualBox"),
            machines,
            select_list: SelectList::new(),
            help: Help::new("Help VirtualBox"),
        };
        r.sync();
        r
    }

    /// The names of the machines in the manager's list `output`.
    pub fn read(output: &str) -> (names: Vec<String>)
        ensures
            names.deep_view() == machines(output@),
    {
        let all = chars(output);
        let n = all.len();
        let mut names: Vec<String> = Vec::new();
        let mut pos: usize = 0;
        assert(all@.skip(0) =~= all@);
        assert(names.deep_view() =~= Seq::<Seq<char>>::empty());
        while pos < n
            invariant
                pos <= n,
                n == all.len(),
                machines(all@) == names.deep_view() + machines(all@.skip(pos as int)),
            decreases n - pos,
        {
            let ghost rest = all@.skip(pos as int);
            let ghost before = names.deep_view();
            let end = find(&all, '\n', pos, n);
            let start = find(&all, '"', pos, end);
            proof {
                lemma_first_index(rest, '\n', end - pos);
                assert(first_line(rest) =~= all@.subrange(pos as int, end as int));
                lemma_first_index(first_line(rest), '"', start - pos);
            }
            if start < end {
                let stop = find(&all, '"', start + 1, end);
                proof {
                    let inner = first_line(rest).skip(start - pos + 1);
                    lemma_first_index(inner, '"', stop - start - 1);
                }
                if stop < end {
                    let name = collect(&all, start + 1, stop);
                    assert(name@ =~= first_line(rest).subrange(start - pos + 1, stop - pos));
                    names.push(name);
                    assert(names.deep_view() =~= before + seq![quoted(first_line(rest))->0]);
                }
            }
            pos = if end < n { end + 1 } else { n };
            assert(after_first_line(rest) =~= all@.skip(pos as int));
            assert(machines(all@) =~= names.deep_view() + machines(all@.skip(pos as int)));
        }
        assert(machines(all@.skip(n as int)) =~= Seq::<Seq<char>>::empty());
        names
    }

    /// Makes the rows of the list from the machines.
    fn sync(&mut self)
        ensures
            final(self)@ == old(self)@.render(),
            final(self)@.wf(),
    {
        let mut lines: Vec<String> = Vec::new();
        let mut i: usize = 0;
        while i < self.machines.len()
            invariant
                i <= self.machines.len(),
                lines.len() == i,
                forall|k: int| 0 <= k < i ==> #[trigger] lines[k]@ == self.machines[k]@,
            decreases self.machines.len() - i,
        {
            lines.push(self.machines[i].clone());
            i = i + 1;
        }
        assert(lines.deep_view() =~= self.machines.deep_view());
        self.select_list.render(lines);
    }

    /// Draws the controller into `area`: the rows of the list are made from
    /// the machines, and the region inside the pane's border, where the rows
    /// go, is returned.
    pub fn render(&mut self, area: Area) -> (inner: Area)
        ensures
            final(self)@ == old(self)@.render(),
            inner == area.within_border(),
    {
        let inner = self.pane.render(area);
        self.sync();
        inner
    }

    /// Asks for the selected machine to be started.
    pub fn open(&self) -> (action: Action)
        ensures
            action@ == self@.open(),
    {
        if self.select_list.index < self.machines.len() {
            Action::Start(self.machines[self.select_list.index].clone())
        } else {
            Action::Idle
        }
    }

    /// Handles one key and says what is left for the caller to do.
    pub fn key_binding(&mut self, key: Key) -> (action: Action)
        ensures
            final(self)@ == old(self)@.key_binding(key),
            action@ == old(self)@.action(key),
            old(self)@.wf() ==> final(self)@.wf(),
            old(self)@.help.active && key != Key::Esc ==> *final(self) == *old(self),
    {
        if self.help.popup.active {
            match key {
                Key::Esc => {
                    self.help.popup.active = false;
                },
                _ => {},
            }
            Action::Idle
        } else {
            match key {
                Key::F(1) => {
                    self.help.popup.active = true;
                    Action::Idle
                },
                Key::Enter => self.open(),
                Key::Esc => Action::Leave,
                _ => {
                    self.select_list.key_binding(key);
                    Action::Idle
                },
            }
        }
    }
}

} // verus!
