//! The form that adds or edits a bookmark.

use vstd::prelude::*;
use crate::key::Key;
use crate::text::owned;
use crate::ui::input::{Input, InputView};
use crate::ui::layout::{Area, Constraint, Direction, Flex, Layout, LayoutView, Position};
use crate::ui::pane::{Pane, PaneView};
use crate::ui::popup::{Popup, PopupView, PERCENT};

verus! {

/// What a submitted form does: add a new item, or change the selected one.
#[derive(Clone, Copy, Debug, PartialEq, Eq, Structural)]
pub enum Mode {
    New,
    Edit,
}

/// The fields of the form, in the order in which the focus visits them.
#[derive(Clone, Copy, Debug, PartialEq, Eq, Structural)]
pub enum Field {
    Title,
    Url,
}

/// An overlay with two text fields, each in a pane that carries its label.
#[derive(Debug)]
pub struct Form {
    pub mode: Mode,
    pub popup: Popup,
    pub title_pane: Pane,
    pub title: Input,
    pub url_pane: Pane,
    pub url: Input,
}

/// What a [`Form`] holds, as mathematical values.
pub struct FormView {
    pub mode: Mode,
    pub popup: PopupView,
    pub title_pane: PaneView,
    pub title: InputView,
    pub url_pane: PaneView,
    pub url: InputView,
}

/// Where an open form is drawn: the overlay, each field's pane, and inside
/// each pane the line that holds the field's text; and where the terminal's
/// cursor goes.
#[derive(Clone, Copy, Debug, PartialEq, Eq, Structural)]
pub struct Placement {
    pub popup: Area,
    pub title_pane: Area,
    pub title: Area,
    pub url_pane: Area,
    pub url: Area,
    pub cursor: Option<Position>,
}

impl Placement {
    /// Every field's line is what its pane's border leaves, the panes lie
    /// within the overlay, and they stand in one column: they begin at the
    /// same cell and are equally wide.
    pub open spec fn aligned(self) -> bool {
        &&& self.title_pane.inside(self.popup)
        &&& self.url_pane.inside(self.popup)
        &&& self.title == self.title_pane.within_border()
        &&& self.url == self.url_pane.within_border()
        &&& self.url_pane.x == self.title_pane.x
        &&& self.url_pane.width == self.title_pane.width
    }

    /// The placement is one of `form` in `frame`: the overlay lies within the
    /// frame, the fields are aligned in it, and the cursor is where the form
    /// wants it.
    pub open spec fn fits(self, frame: Area, form: FormView) -> bool {
        &&& self.popup.inside(frame)
        &&& self.aligned()
        &&& self.cursor == form.cursor(self.title, self.url)
    }
}

/// The overlay's title for each mode.
pub open spec fn heading(mode: Mode) -> Seq<char> {
    match mode {
        Mode::New => "Add Bookmark"@,
        Mode::Edit => "Edit Bookmark"@,
    }
}

impl FormView {
    /// The closed form that a controller starts with: made for a new bookmark,
    /// the fields labelled and empty, none of them active.
    pub open spec fn new() -> FormView {
        FormView {
            mode: Mode::New,
            popup: PopupView { title: ""@, active: false },
            title_pane: PaneView { title: "Title"@, active: false },
            title: InputView { index: 0, text: Seq::empty(), active: false },
            url_pane: PaneView { title: "URL"@, active: false },
            url: InputView { index: 0, text: Seq::empty(), active: false },
        }
    }

    /// The field that has the focus: the first active one in field order.
    pub open spec fn focus(self) -> Option<Field> {
        if self.title.active {
            Some(Field::Title)
        } else if self.url.active {
            Some(Field::Url)
        } else {
            None
        }
    }

    /// How many fields are active.
    pub open spec fn active_fields(self) -> nat {
        (if self.title.active { 1nat } else { 0nat })
            + (if self.url.active { 1nat } else { 0nat })
    }

    /// Every cursor is inside its text, every pane is highlighted exactly
    /// when its field is active, and exactly one field is active while the
    /// form is open, none while it is closed.
    pub open spec fn wf(self) -> bool {
        &&& self.title.wf()
        &&& self.url.wf()
        &&& self.title_pane.active == self.title.active
        &&& self.url_pane.active == self.url.active
        &&& self.active_fields() == (if self.popup.active { 1nat } else { 0nat })
    }

    /// The form with the focus on `focus`, or on no field.
    pub open spec fn focused(self, focus: Option<Field>) -> FormView {
        FormView {
            title_pane: self.title_pane.focused(focus == Some(Field::Title)),
            title: self.title.focused(focus == Some(Field::Title)),
            url_pane: self.url_pane.focused(focus == Some(Field::Url)),
            url: self.url.focused(focus == Some(Field::Url)),
            ..self
        }
    }

    /// Every field emptied.
    pub open spec fn all_clear(self) -> FormView {
        FormView {
            title: self.title.clear(),
            url: self.url.clear(),
            ..self
        }
    }

    /// The focus on the field of the title, and on no other.
    pub open spec fn active_title(self) -> FormView {
        self.focused(Some(Field::Title))
    }

    /// The focus on the field of the address, and on no other.
    pub open spec fn active_url(self) -> FormView {
        self.focused(Some(Field::Url))
    }

    /// The field after `field` in the focus cycle.
    pub open spec fn next(field: Field) -> Field {
        match field {
            Field::Title => Field::Url,
            Field::Url => Field::Title,
        }
    }

    /// The focus moved to the next field, from the last back to the first.
    /// Without a focus nothing changes.
    pub open spec fn advance_focus(self) -> FormView {
        match self.focus() {
            Some(field) => self.focused(Some(Self::next(field))),
            None => self,
        }
    }

    /// The key handed to the field that has the focus; the other fields do
    /// not see it.
    pub open spec fn key_binding(self, key: Key) -> FormView {
        match self.focus() {
            Some(Field::Title) => FormView { title: self.title.key_binding(key), ..self },
            Some(Field::Url) => FormView { url: self.url.key_binding(key), ..self },
            None => self,
        }
    }

    /// The form opened for `mode`: titled for the mode, every field empty,
    /// the focus on the first field.
    pub open spec fn open(self, mode: Mode) -> FormView {
        FormView {
            mode,
            popup: PopupView { title: heading(mode), active: true },
            ..self.all_clear().active_title()
        }
    }

    /// The fields holding the texts of the item to edit; the cursors stay
    /// where they are.
    pub open spec fn fill(self, title: Seq<char>, url: Seq<char>) -> FormView {
        FormView {
            title: self.title.filled(title),
            url: self.url.filled(url),
            ..self
        }
    }

    /// Where the terminal's cursor goes when the fields are drawn into the
    /// given lines: to the cursor of the active field, of the last one in field
    /// order should several be active.
    pub open spec fn cursor(self, title: Area, url: Area) -> Option<Position> {
        if self.url.active {
            self.url.cursor(url)
        } else if self.title.active {
            self.title.cursor(title)
        } else {
            None
        }
    }

    /// The form closed: no field has the focus, the texts stay.
    pub open spec fn close(self) -> FormView {
        FormView { popup: self.popup.opened(false), ..self.focused(None) }
    }
}

impl View for Form {
    type V = FormView;

    open spec fn view(&self) -> FormView {
        FormView {
            mode: self.mode,
            popup: self.popup@,
            title_pane: self.title_pane@,
            title: self.title@,
            url_pane: self.url_pane@,
            url: self.url@,
        }
    }
}

/// In an open form, moving the focus on once for each field brings it back
/// to where it was, and no sooner.
pub proof fn lemma_focus_cycle(form: FormView)
    requires
        form.wf(),
        form.popup.active,
    ensures
        form.advance_focus().wf(),
        form.advance_focus().popup.active,
        form.advance_focus().advance_focus() == form,
        form.advance_focus().focus() != form.focus(),
{
}

impl Form {
    /// A closed form for a new bookmark: empty fields, none of them active.
    pub fn new() -> (r: Self)
        ensures
            r@ == FormView::new(),
            r@.wf(),
    {
        Self {
            mode: Mode::New,
            popup: Popup::new(""),
            title_pane: Pane::new("Title"),
            title: Input::new(),
            url_pane: Pane::new("URL"),
            url: Input::new(),
        }
    }

    /// How the overlay is divided across: one column of margin on either
    /// side of the fields.
    pub fn columns() -> (r: Layout)
        ensures
            r@ == (LayoutView {
                direction: Direction::Horizontal,
                flex: Flex::Start,
                constraints: seq![Constraint::Length(1), Constraint::Min(0), Constraint::Length(1)],
            }),
    {
        let r = Layout::new(Direction::Horizontal, Flex::Start)
            .with(Constraint::Length(1))
            .with(Constraint::Min(0))
            .with(Constraint::Length(1));
        assert(r@.constraints =~= seq![Constraint::Length(1), Constraint::Min(0), Constraint::Length(1)]);
        r
    }

    /// How the overlay is divided downwards: one row of margin, the panes
    /// of the fields, and one row of margin.
    pub fn rows() -> (r: Layout)
        ensures
            r@ == (LayoutView {
                direction: Direction::Vertical,
                flex: Flex::Start,
                constraints: seq![
                    Constraint::Length(1),
                    Constraint::Length(3),
                    Constraint::Length(3),
                    Constraint::Length(1),
                ],
            }),
    {
        let r = Layout::new(Direction::Vertical, Flex::Start)
            .with(Constraint::Length(1))
            .with(Constraint::Length(3))
            .with(Constraint::Length(3))
            .with(Constraint::Length(1));
        assert(r@.constraints =~= seq![
            Constraint::Length(1),
            Constraint::Length(3),
            Constraint::Length(3),
            Constraint::Length(1),
        ]);
        r
    }

    /// Where the form goes in `frame`; nothing while the form is closed. The
    /// fields stand below one another inside the overlay, one column in from
    /// its sides.
    pub fn render(&self, frame: Area) -> (placed: Option<Placement>)
        ensures
            placed is Some <==> self@.popup.active,
            placed matches Some(p) ==> p.fits(frame, self@),
    {
        if !self.popup.active {
            return None;
        }
        let popup = self.popup.render(frame, [PERCENT, PERCENT]);
        let columns = Self::columns().split(popup);
        let rows = Self::rows().split(columns[1]);
        let title_pane = rows[1];
        let title = self.title_pane.render(title_pane);
        let url_pane = rows[2];
        let url = self.url_pane.render(url_pane);
        let mut cursor: Option<Position> = None;
        if self.title.active {
            cursor = self.title.render(title);
        }
        if self.url.active {
            cursor = self.url.render(url);
        }
        Some(Placement { popup, title_pane, title, url_pane, url, cursor })
    }

    /// Empties every field.
    pub fn all_clear(&mut self)
        ensures
            final(self)@ == old(self)@.all_clear(),
    {
        self.title.clear();
        self.url.clear();
    }

    /// Gives the focus to the field labelled "Title".
    pub fn active_title(&mut self)
        ensures
            final(self)@ == old(self)@.active_title(),
    {
        self.title_pane.active = true;
        self.title.active = true;
        self.url_pane.active = false;
        self.url.active = false;
    }

    /// Gives the focus to the field labelled "URL".
    pub fn active_url(&mut self)
        ensures
            final(self)@ == old(self)@.active_url(),
    {
        self.title_pane.active = false;
        self.title.active = false;
        self.url_pane.active = true;
        self.url.active = true;
    }

    /// Moves the focus to the next field, from the last back to the first.
    pub fn advance_focus(&mut self)
        ensures
            final(self)@ == old(self)@.advance_focus(),
            old(self)@.wf() ==> final(self)@.wf(),
    {
        if self.title.active {
            self.active_url();
        } else if self.url.active {
            self.active_title();
        }
    }

    /// Hands one key to the field that has the focus.
    pub fn key_binding(&mut self, key: Key)
        ensures
            final(self)@ == old(self)@.key_binding(key),
            old(self)@.wf() ==> final(self)@.wf(),
    {
        if self.title.active {
            self.title.key_binding(key);
        } else if self.url.active {
            self.url.key_binding(key);
        }
    }

    /// Opens the form for `mode` with empty fields and the focus on the
    /// first one.
    pub fn open(&mut self, mode: Mode)
        ensures
            final(self)@ == old(self)@.open(mode),
            final(self)@.wf(),
    {
        self.popup.title = match mode {
            Mode::New => owned("Add Bookmark"),
            Mode::Edit => owned("Edit Bookmark"),
        };
        self.mode = mode;
        self.popup.active = true;
        self.all_clear();
        self.active_title();
    }

    /// Puts the texts of the bookmark to edit into the fields.
    pub fn fill(&mut self, title: &str, url: &str)
        ensures
            final(self)@ == old(self)@.fill(title@, url@),
    {
        self.title.text = owned(title);
        self.url.text = owned(url);
    }

    /// Closes the form and takes the focus from its fields. The texts stay.
    pub fn close(&mut self)
        ensures
            final(self)@ == old(self)@.close(),
            old(self)@.title.wf() && old(self)@.url.wf()
                ==> final(self)@.wf(),
    {
        self.popup.active = false;
        self.title_pane.active = false;
        self.title.active = false;
        self.url_pane.active = false;
        self.url.active = false;
    }
}

} // verus!
