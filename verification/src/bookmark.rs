//! The bookmark list and its controller.

pub mod form;

use vstd::prelude::*;
use crate::action::{Action, ActionView};
use crate::bookmark::form::{Form, FormView, Mode};
use crate::key::Key;
use crate::ui::help::Help;
use crate::ui::layout::Area;
use crate::ui::pane::{Pane, PaneView};
use crate::ui::popup::PopupView;
use crate::ui::select_list::{last_index, SelectList, SelectListView};

verus! {

/// A named address.
#[derive(Debug)]
pub struct Bookmark {
    pub title: String,
    pub url: String,
}

/// A [`Bookmark`] as mathematical values.
pub struct BookmarkView {
    pub title: Seq<char>,
    pub url: Seq<char>,
}

impl View for Bookmark {
    type V = BookmarkView;

    open spec fn view(&self) -> BookmarkView {
        BookmarkView { title: self.title@, url: self.url@ }
    }
}

impl DeepView for Bookmark {
    type V = BookmarkView;

    open spec fn deep_view(&self) -> BookmarkView {
        self@
    }
}

impl Bookmark {
    /// The line that stands for the bookmark in the list: its title.
    pub fn value(&self) -> (r: String)
        ensures
            r@ == self@.title,
    {
        self.title.clone()
    }
}

/// The lines that stand for `items` in the list.
pub open spec fn values(items: Seq<BookmarkView>) -> Seq<Seq<char>> {
    Seq::new(items.len(), |i: int| items[i].title)
}

/// The bookmark controller: the list, the selection in it, the form that
/// adds and edits, the help screen and the pane around them.
#[derive(Debug)]
pub struct Bookmarks {
    pub pane: Pane,
    pub bookmarks: Vec<Bookmark>,
    pub list: SelectList,
    pub form: Form,
    pub help: Help,
}

/// What a [`Bookmarks`] holds, as mathematical values.
pub struct BookmarksView {
    pub pane: PaneView,
    pub bookmarks: Seq<BookmarkView>,
    pub list: SelectListView,
    pub form: FormView,
    pub help: PopupView,
}

impl BookmarksView {
    /// The controller as it starts with `items`: nothing open, the first
    /// bookmark selected.
    pub open spec fn new(items: Seq<BookmarkView>) -> BookmarksView {
        BookmarksView {
            pane: PaneView { title: "Bookmark"@, active: false },
            bookmarks: items,
            list: SelectListView { index: 0, rows: Seq::empty() },
            form: FormView::new(),
            help: PopupView { title: "Help Bookmark"@, active: false },
        }.render()
    }

    /// The form is well formed, at most one overlay is open, the list has a
    /// row for every bookmark, and the selection is on one of them.
    pub open spec fn wf(self) -> bool {
        &&& self.form.wf()
        &&& !(self.help.active && self.form.popup.active)
        &&& self.list.rows.len() == self.bookmarks.len()
        &&& self.list.wf()
    }

    /// Neither the help screen nor the form is open.
    pub open spec fn closed(self) -> bool {
        !self.help.active && !self.form.popup.active
    }

    /// The list drawn again from the bookmarks.
    pub open spec fn render(self) -> BookmarksView {
        BookmarksView { list: self.list.render(values(self.bookmarks)), ..self }
    }

    /// The bookmark that the form describes.
    pub open spec fn entered(self) -> BookmarkView {
        BookmarkView { title: self.form.title.text, url: self.form.url.text }
    }

    /// What opening the selected bookmark asks for: its address in the
    /// browser, or nothing where the list is empty.
    pub open spec fn open(self) -> ActionView {
        if self.list.index < self.bookmarks.len() {
            ActionView::Browse(self.bookmarks[self.list.index as int].url)
        } else {
            ActionView::Idle
        }
    }

    /// The form's bookmark appended, the form closed and emptied.
    pub open spec fn add(self) -> BookmarksView {
        BookmarksView {
            bookmarks: self.bookmarks.push(self.entered()),
            form: self.form.close().all_clear(),
            ..self
        }.render()
    }

    /// The selected bookmark replaced by the form's, the form closed and
    /// emptied. Without a selected bookmark only the form changes.
    pub open spec fn edit(self) -> BookmarksView {
        BookmarksView {
            bookmarks: if self.list.index < self.bookmarks.len() {
                self.bookmarks.update(self.list.index as int, self.entered())
            } else {
                self.bookmarks
            },
            form: self.form.close().all_clear(),
            ..self
        }.render()
    }

    /// The selected bookmark removed; a selection that stood on the last
    /// bookmark moves up to the new last one. Nothing at all where the list
    /// is empty.
    pub open spec fn delete(self) -> BookmarksView {
        if self.list.index < self.bookmarks.len() {
            BookmarksView {
                bookmarks: self.bookmarks.remove(self.list.index as int),
                ..self
            }.render()
        } else {
            self
        }
    }

    /// Whether a change of the list has to be written to the store.
    pub open spec fn stored(self) -> ActionView {
        if self.list.index < self.bookmarks.len() {
            ActionView::Store
        } else {
            ActionView::Idle
        }
    }

    /// The form opened to edit the selected bookmark, filled with its texts.
    /// Nothing where the list is empty.
    pub open spec fn begin_edit(self) -> BookmarksView {
        if self.list.index < self.bookmarks.len() {
            let item = self.bookmarks[self.list.index as int];
            BookmarksView { form: self.form.open(Mode::Edit).fill(item.title, item.url), ..self }
        } else {
            self
        }
    }

    /// The controller after one key.
    ///
    /// While the help screen is open only Esc does anything: it closes the
    /// help screen. While the form is open Tab moves the focus, Esc closes
    /// the form, F12 submits it, and every other key goes to the form. With
    /// both closed the arrows move the selection, F1 opens the help screen,
    /// F2 the form for a new bookmark, F3 the form for the selected one, and
    /// `D` deletes the selected bookmark.
    pub open spec fn key_binding(self, key: Key) -> BookmarksView {
        if self.help.active {
            match key {
                Key::Esc => BookmarksView { help: self.help.opened(false), ..self },
                _ => self,
            }
        } else if self.form.popup.active {
            match key {
                Key::Tab => BookmarksView { form: self.form.advance_focus(), ..self },
                Key::Esc => BookmarksView { form: self.form.close(), ..self },
                Key::F(12) => match self.form.mode {
                    Mode::New => self.add(),
                    Mode::Edit => self.edit(),
                },
                _ => BookmarksView { form: self.form.key_binding(key), ..self },
            }
        } else {
            match key {
                Key::F(1) => BookmarksView { help: self.help.opened(true), ..self },
                Key::F(2) => BookmarksView { form: self.form.open(Mode::New), ..self },
                Key::F(3) => self.begin_edit(),
                Key::Char('D') => self.delete(),
                _ => BookmarksView { list: self.list.key_binding(key), ..self },
            }
        }
    }

    /// What one key leaves for the caller to do.
    pub open spec fn action(self, key: Key) -> ActionView {
        if self.help.active {
            ActionView::Idle
        } else if self.form.popup.active {
            match key {
                Key::F(12) => match self.form.mode {
                    Mode::New => ActionView::Store,
                    Mode::Edit => self.stored(),
                },
                _ => ActionView::Idle,
            }
        } else {
            match key {
                Key::Enter => self.open(),
                Key::Char('D') => self.stored(),
                Key::Esc => ActionView::Leave,
                _ => ActionView::Idle,
            }
        }
    }
}

/// While the help screen is open it owns the keyboard: every key but Esc
/// leaves the controller as it is, Esc closes the help screen and changes
/// nothing else, and no key asks the caller for anything.
pub proof fn lemma_help_owns_the_keyboard(controller: BookmarksView, key: Key)
    requires
        controller.help.active,
    ensures
        key != Key::Esc ==> controller.key_binding(key) == controller,
        controller.key_binding(Key::Esc) == (BookmarksView {
            help: controller.help.opened(false),
            ..controller
        }),
        controller.action(key) == ActionView::Idle,
{
}

/// While an overlay is open the list is out of reach: no key moves the
/// selection, and at most one overlay is open after the key as before it.
pub proof fn lemma_overlays_shield_the_list(controller: BookmarksView, key: Key)
    requires
        controller.wf(),
        !controller.closed(),
    ensures
        controller.key_binding(key).list.index == controller.list.index,
        controller.key_binding(key).wf(),
{
}

impl View for Bookmarks {
    type V = BookmarksView;

    open spec fn view(&self) -> BookmarksView {
        BookmarksView {
            pane: self.pane@,
            bookmarks: self.bookmarks.deep_view(),
            list: self.list@,
            form: self.form@,
            help: self.help@,
        }
    }
}

impl Bookmarks {
    /// The controller over the bookmarks that were loaded.
    pub fn new(bookmarks: Vec<Bookmark>) -> (r: Self)
        ensures
            r@ == BookmarksView::new(bookmarks.deep_view()),
            r@.wf(),
    {
        let mut r = Self {
            pane: Pane::new("Bookmark"),
            bookmarks,
            list: SelectList::new(),
            form: Form::new(),
            help: Help::new("Help Bookmark"),
        };
        r.sync();
        r
    }

    /// The list to start with, given what reading the store gave: the
    /// bookmarks that were read, or none where the store was missing or
    /// unreadable.
    pub fn read(data: Option<Vec<Bookmark>>) -> (r: Vec<Bookmark>)
        ensures
            match data {
                Some(items) => r == items,
                None => r@ == Seq::<Bookmark>::empty(),
            },
    {
        match data {
            Some(items) => items,
            None => Vec::new(),
        }
    }

    /// Makes the rows of the list from the bookmarks.
    fn sync(&mut self)
        ensures
            final(self)@ == old(self)@.render(),
            final(self)@.list.wf(),
            final(self)@.list.rows.len() == final(self)@.bookmarks.len(),
    {
        let mut lines: Vec<String> = Vec::new();
        let mut i: usize = 0;
        while i < self.bookmarks.len()
            invariant
                i <= self.bookmarks.len(),
                lines.len() == i,
                forall|k: int| 0 <= k < i ==> #[trigger] lines[k]@ == self.bookmarks[k]@.title,
            decreases self.bookmarks.len() - i,
        {
            lines.push(self.bookmarks[i].value());
            i = i + 1;
        }
        assert(lines.deep_view() =~= values(self.bookmarks.deep_view()));
        self.list.render(lines);
    }

    /// Draws the controller into `area`: the rows of the list are made from
    /// the bookmarks, and the region inside the pane's border, where the rows
    /// go, is returned.
    pub fn render(&mut self, area: Area) -> (inner: Area)
        ensures
            final(self)@ == old(self)@.render(),
            inner == area.within_border(),
    {
        let inner = self.pane.render(area);
        self.sync();
        inner
    }

    /// Asks for the selected bookmark to be opened in the browser.
    pub fn open(&self) -> (action: Action)
        ensures
            action@ == self@.open(),
    {
        if self.list.index < self.bookmarks.len() {
            Action::Browse(self.bookmarks[self.list.index].url.clone())
        } else {
            Action::Idle
        }
    }

    /// Appends the bookmark that the form describes, closes and empties the
    /// form, and asks for the list to be stored.
    pub fn add(&mut self) -> (action: Action)
        ensures
            final(self)@ == old(self)@.add(),
            action@ == ActionView::Store,
            !old(self)@.help.active ==> final(self)@.wf(),
    {
        let bookmark = Bookmark {
            title: self.form.title.text.clone(),
            url: self.form.url.text.clone(),
        };
        self.bookmarks.push(bookmark);
        assert(self.bookmarks.deep_view() =~= old(self)@.bookmarks.push(old(self)@.entered()));
        self.form.close();
        self.form.all_clear();
        self.sync();
        Action::Store
    }

    /// Overwrites the selected bookmark with what the form describes, closes
    /// and empties the form, and asks for the list to be stored.
    pub fn edit(&mut self) -> (action: Action)
        ensures
            final(self)@ == old(self)@.edit(),
            action@ == old(self)@.stored(),
            !old(self)@.help.active ==> final(self)@.wf(),
    {
        let selected = self.list.index < self.bookmarks.len();
        if selected {
            let bookmark = Bookmark {
                title: self.form.title.text.clone(),
                url: self.form.url.text.clone(),
            };
            self.bookmarks.set(self.list.index, bookmark);
            assert(self.bookmarks.deep_view() =~= old(self)@.bookmarks.update(
                old(self)@.list.index as int,
                old(self)@.entered(),
            ));
        }
        self.form.close();
        self.form.all_clear();
        self.sync();
        if selected { Action::Store } else { Action::Idle }
    }

    /// Removes the selected bookmark, brings the selection back into the
    /// list, and asks for the list to be stored.
    pub fn delete(&mut self) -> (action: Action)
        ensures
            final(self)@ == old(self)@.delete(),
            action@ == old(self)@.stored(),
            old(self)@.wf() ==> final(self)@.wf(),
            old(self)@.list.index < old(self)@.bookmarks.len() ==> final(self)@.list.index
                <= last_index(final(self)@.bookmarks.len()),
    {
        if self.list.index < self.bookmarks.len() {
            self.bookmarks.remove(self.list.index);
            assert(self.bookmarks.deep_view() =~= old(self)@.bookmarks.remove(
                old(self)@.list.index as int,
            ));
            self.sync();
            Action::Store
        } else {
            Action::Idle
        }
    }

    /// Opens the form to edit the selected bookmark.
    fn begin_edit(&mut self)
        ensures
            final(self)@ == old(self)@.begin_edit(),
            old(self)@.wf() && old(self)@.closed() ==> final(self)@.wf(),
    {
        if self.list.index < self.bookmarks.len() {
            self.form.open(Mode::Edit);
            let item = &self.bookmarks[self.list.index];
            self.form.fill(item.title.as_str(), item.url.as_str());
        }
    }

    /// Handles one key and says what is left for the caller to do.
    pub fn key_binding(&mut self, key: Key) -> (action: Action)
        ensures
            final(self)@ == old(self)@.key_binding(key),
            action@ == old(self)@.action(key),
            old(self)@.wf() ==> final(self)@.wf(),
            old(self)@.help.active && key != Key::Esc ==> *final(self) == *old(self),
    {
        if self.help.popup.active {
            match key {
                Key::Esc => {
                    self.help.popup.active = false;
                },
                _ => {},
            }
            Action::Idle
        } else if self.form.popup.active {
            match key {
                Key::Tab => {
                    self.form.advance_focus();
                    Action::Idle
                },
                Key::Esc => {
                    self.form.close();
                    Action::Idle
                },
                Key::F(12) => match self.form.mode {
                    Mode::New => self.add(),
                    Mode::Edit => self.edit(),
                },
                _ => {
                    self.form.key_binding(key);
                    Action::Idle
                },
            }
        } else {
            match key {
                Key::F(1) => {
                    self.help.popup.active = true;
                    Action::Idle
                },
                Key::F(2) => {
                    self.form.open(Mode::New);
                    Action::Idle
                },
                Key::F(3) => {
                    self.begin_edit();
                    Action::Idle
                },
                Key::Enter => self.open(),
                Key::Char('D') => self.delete(),
                Key::Esc => Action::Leave,
                _ => {
                    self.list.key_binding(key);
                    Action::Idle
                },
            }
        }
    }
}

} // verus!
