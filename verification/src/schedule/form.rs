//! The form that adds or edits a schedule.

use vstd::prelude::*;
use crate::key::Key;
use crate::text::owned;
use crate::ui::input::{Input, InputView};
use crate::ui::layout::{Area, Constraint, Direction, Flex, Layout, LayoutView, Position};
use crate::ui::pane::{Pane, PaneView};
use crate::ui::popup::{Popup, PopupView, PERCENT};

verus! {

/// What a submitted form does: add a new item, or change the selected one.
#[derive(Clone, Copy, Debug, PartialEq, Eq, Structural)]
pub enum Mode {
    New,
    Edit,
}

/// The fields of the form, in the order in which the focus visits them.
#[derive(Clone, Copy, Debug, PartialEq, Eq, Structural)]
pub enum Field {
    Summary,
    Start,
    End,
    Description,
}

/// An overlay with four text fields, each in a pane that carries its label.
#[derive(Debug)]
pub struct Form {
    pub mode: Mode,
    pub popup: Popup,
    pub summary_pane: Pane,
    pub summary: Input,
    pub start_pane: Pane,
    pub start: Input,
    pub end_pane: Pane,
    pub end: Input,
    pub description_pane: Pane,
    pub description: Input,
}

/// What a [`Form`] holds, as mathematical values.
pub struct FormView {
    pub mode: Mode,
    pub popup: PopupView,
    pub summary_pane: PaneView,
    pub summary: InputView,
    pub start_pane: PaneView,
    pub start: InputView,
    pub end_pane: PaneView,
    pub end: InputView,
    pub description_pane: PaneView,
    pub description: InputView,
}

/// Where an open form is drawn: the overlay, each field's pane, and inside
/// each pane the line that holds the field's text; and where the terminal's
/// cursor goes.
#[derive(Clone, Copy, Debug, PartialEq, Eq, Structural)]
pub struct Placement {
    pub popup: Area,
    pub summary_pane: Area,
    pub summary: Area,
    pub start_pane: Area,
    pub start: Area,
    pub end_pane: Area,
    pub end: Area,
    pub description_pane: Area,
    pub description: Area,
    pub cursor: Option<Position>,
}

impl Placement {
    /// Every field's line is what its pane's border leaves, the panes lie
    /// within the overlay, and they stand in one column: they begin at the
    /// same cell and are equally wide.
    pub open spec fn aligned(self) -> bool {
        &&& self.summary_pane.inside(self.popup)
        &&& self.start_pane.inside(self.popup)
        &&& self.end_pane.inside(self.popup)
        &&& self.description_pane.inside(self.popup)
        &&& self.summary == self.summary_pane.within_border()
        &&& self.start == self.start_pane.within_border()
        &&& self.end == self.end_pane.within_border()
        &&& self.description == self.description_pane.within_border()
        &&& self.start_pane.x == self.summary_pane.x
        &&& self.start_pane.width == self.summary_pane.width
        &&& self.end_pane.x == self.summary_pane.x
        &&& self.end_pane.width == self.summary_pane.width
        &&& self.description_pane.x == self.summary_pane.x
        &&& self.description_pane.width == self.summary_pane.width
    }

    /// The placement is one of `form` in `frame`: the overlay lies within the
    /// frame, the fields are aligned in it, and the cursor is where the form
    /// wants it.
    pub open spec fn fits(self, frame: Area, form: FormView) -> bool {
        &&& self.popup.inside(frame)
        &&& self.aligned()
        &&& self.cursor == form.cursor(self.summary, self.start, self.end, self.description)
    }
}

/// The overlay's title for each mode.
pub open spec fn heading(mode: Mode) -> Seq<char> {
    match mode {
        Mode::New => "Add Schedule"@,
        Mode::Edit => "Edit Schedule"@,
    }
}

impl FormView {
    /// The closed form that a controller starts with: made for a new schedule,
    /// the fields labelled and empty, none of them active.
    pub open spec fn new() -> FormView {
        FormView {
            mode: Mode::New,
            popup: PopupView { title: "Add Schedule"@, active: false },
            summary_pane: PaneView { title: "Summary"@, active: false },
            summary: InputView { index: 0, text: Seq::empty(), active: false },
            start_pane: PaneView { title: "Start"@, active: false },
            start: InputView { index: 0, text: Seq::empty(), active: false },
            end_pane: PaneView { title: "End"@, active: false },
            end: InputView { index: 0, text: Seq::empty(), active: false },
            description_pane: PaneView { title: "Description"@, active: false },
            description: InputView { index: 0, text: Seq::empty(), active: false },
        }
    }

    /// The field that has the focus: the first active one in field order.
    pub open spec fn focus(self) -> Option<Field> {
        if self.summary.active {
            Some(Field::Summary)
        } else if self.start.active {
            Some(Field::Start)
        } else if self.end.active {
            Some(Field::End)
        } else if self.description.active {
            Some(Field::Description)
        } else {
            None
        }
    }

    /// How many fields are active.
    pub open spec fn active_fields(self) -> nat {
        (if self.summary.active { 1nat } else { 0nat })
            + (if self.start.active { 1nat } else { 0nat })
            + (if self.end.active { 1nat } else { 0nat })
            + (if self.description.active { 1nat } else { 0nat })
    }

    /// Every cursor is inside its text, every pane is highlighted exactly
    /// when its field is active, and exactly one field is active while the
    /// form is open, none while it is closed.
    pub open spec fn wf(self) -> bool {
        &&& self.summary.wf()
        &&& self.start.wf()
        &&& self.end.wf()
        &&& self.description.wf()
        &&& self.summary_pane.active == self.summary.active
        &&& self.start_pane.active == self.start.active
        &&& self.end_pane.active == self.end.active
        &&& self.description_pane.active == self.description.active
        &&& self.active_fields() == (if self.popup.active { 1nat } else { 0nat })
    }

    /// The form with the focus on `focus`, or on no field.
    pub open spec fn focused(self, focus: Option<Field>) -> FormView {
        FormView {
            summary_pane: self.summary_pane.focused(focus == Some(Field::Summary)),
            summary: self.summary.focused(focus == Some(Field::Summary)),
            start_pane: self.start_pane.focused(focus == Some(Field::Start)),
            start: self.start.focused(focus == Some(Field::Start)),
            end_pane: self.end_pane.focused(focus == Some(Field::End)),
            end: self.end.focused(focus == Some(Field::End)),
            description_pane: self.description_pane.focused(focus == Some(Field::Description)),
            description: self.description.focused(focus == Some(Field::Description)),
            ..self
        }
    }

    /// Every field emptied.
    pub open spec fn all_clear(self) -> FormView {
        FormView {
            summary: self.summary.clear(),
            start: self.start.clear(),
            end: self.end.clear(),
            description: self.description.clear(),
            ..self
        }
    }

    /// The focus on the field of the summary, and on no other.
    pub open spec fn active_summary(self) -> FormView {
        self.focused(Some(Field::Summary))
    }

    /// The focus on the field of the start, and on no other.
    pub open spec fn active_start(self) -> FormView {
        self.focused(Some(Field::Start))
    }

    /// The focus on the field of the end, and on no other.
    pub open spec fn active_end(self) -> FormView {
        self.focused(Some(Field::End))
    }

    /// The focus on the field of the description, and on no other.
    pub open spec fn active_description(self) -> FormView {
        self.focused(Some(Field::Description))
    }

    /// The field after `field` in the focus cycle.
    pub open spec fn next(field: Field) -> Field {
        match field {
            Field::Summary => Field::Start,
            Field::Start => Field::End,
            Field::End => Field::Description,
            Field::Description => Field::Summary,
        }
    }

    /// The focus moved to the next field, from the last back to the first.
    /// Without a focus nothing changes.
    pub open spec fn advance_focus(self) -> FormView {
        match self.focus() {
            Some(field) => self.focused(Some(Self::next(field))),
            None => self,
        }
    }

    /// The key handed to the field that has the focus; the other fields do
    /// not see it.
    pub open spec fn key_binding(self, key: Key) -> FormView {
        match self.focus() {
            Some(Field::Summary) => FormView { summary: self.summary.key_binding(key), ..self },
            Some(Field::Start) => FormView { start: self.start.key_binding(key), ..self },
            Some(Field::End) => FormView { end: self.end.key_binding(key), ..self },
            Some(Field::Description) => FormView {
                description: self.description.key_binding(key),
                ..self
            },
            None => self,
        }
    }

    /// The form opened for `mode`: titled for the mode, every field empty,
    /// the focus on the first field.
    pub open spec fn open(self, mode: Mode) -> FormView {
        FormView {
            mode,
            popup: PopupView { title: heading(mode), active: true },
            ..self.all_clear().active_summary()
        }
    }

    /// The fields holding the texts of the item to edit; the cursors stay
    /// where they are.
    pub open spec fn fill(
        self,
        summary: Seq<char>,
        start: Seq<char>,
        end: Seq<char>,
        description: Seq<char>,
    ) -> FormView {
        FormView {
            summary: self.summary.filled(summary),
            start: self.start.filled(start),
            end: self.end.filled(end),
            description: self.description.filled(description),
            ..self
        }
    }

    /// Where the terminal's cursor goes when the fields are drawn into the
    /// given lines: to the cursor of the active field, of the last one in field
    /// order should several be active.
    pub open spec fn cursor(self, summary: Area, start: Area, end: Area, description: Area) -> Option<
        Position,
    > {
        if self.description.active {
            self.description.cursor(description)
        } else if self.end.active {
            self.end.cursor(end)
        } else if self.start.active {
            self.start.cursor(start)
        } else if self.summary.active {
            self.summary.cursor(summary)
        } else {
            None
        }
    }

    /// The form closed: no field has the focus, the texts stay.
    pub open spec fn close(self) -> FormView {
        FormView { popup: self.popup.opened(false), ..self.focused(None) }
    }
}

impl View for Form {
    type V = FormView;

    open spec fn view(&self) -> FormView {
        FormView {
            mode: self.mode,
            popup: self.popup@,
            summary_pane: self.summary_pane@,
            summary: self.summary@,
            start_pane: self.start_pane@,
            start: self.start@,
            end_pane: self.end_pane@,
            end: self.end@,
            description_pane: self.description_pane@,
            description: self.description@,
        }
    }
}

/// In an open form, moving the focus on once for each field brings it back
/// to where it was, and no sooner.
pub proof fn lemma_focus_cycle(form: FormView)
    requires
        form.wf(),
        form.popup.active,
    ensures
        form.advance_focus().wf(),
        form.advance_focus().popup.active,
        form.advance_focus().advance_focus().advance_focus().advance_focus() == form,
        form.advance_focus().focus() != form.focus(),
        form.advance_focus().advance_focus().focus() != form.focus(),
        form.advance_focus().advance_focus().advance_focus().focus() != form.focus(),
{
}

impl Form {
    /// A closed form for a new schedule: empty fields, none of them active.
    pub fn new() -> (r: Self)
        ensures
            r@ == FormView::new(),
            r@.wf(),
    {
        Self {
            mode: Mode::New,
            popup: Popup::new("Add Schedule"),
            summary_pane: Pane::new("Summary"),
            summary: Input::new(),
            start_pane: Pane::new("Start"),
            start: Input::new(),
            end_pane: Pane::new("End"),
            end: Input::new(),
            description_pane: Pane::new("Description"),
            description: Input::new(),
        }
    }

    /// How the overlay is divided across: one column of margin on either
    /// side of the fields.
    pub fn columns() -> (r: Layout)
        ensures
            r@ == (LayoutView {
                direction: Direction::Horizontal,
                flex: Flex::Start,
                constraints: seq![Constraint::Length(1), Constraint::Min(0), Constraint::Length(1)],
            }),
    {
        let r = Layout::new(Direction::Horizontal, Flex::Start)
            .with(Constraint::Length(1))
            .with(Constraint::Min(0))
            .with(Constraint::Length(1));
        assert(r@.constraints =~= seq![Constraint::Length(1), Constraint::Min(0), Constraint::Length(1)]);
        r
    }

    /// How the overlay is divided downwards: one row of margin, the panes
    /// of the fields, and one row of margin.
    pub fn rows() -> (r: Layout)
        ensures
            r@ == (LayoutView {
                direction: Direction::Vertical,
                flex: Flex::Start,
                constraints: seq![
                    Constraint::Length(1),
                    Constraint::Length(3),
                    Constraint::Length(3),
                    Constraint::Length(3),
                    Constraint::Min(0),
                    Constraint::Length(1),
                ],
            }),
    {
        let r = Layout::new(Direction::Vertical, Flex::Start)
            .with(Constraint::Length(1))
            .with(Constraint::Length(3))
            .with(Constraint::Length(3))
            .with(Constraint::Length(3))
            .with(Constraint::Min(0))
            .with(Constraint::Length(1));
        assert(r@.constraints =~= seq![
            Constraint::Length(1),
            Constraint::Length(3),
            Constraint::Length(3),
            Constraint::Length(3),
            Constraint::Min(0),
            Constraint::Length(1),
        ]);
        r
    }

    /// Where the form goes in `frame`; nothing while the form is closed. The
    /// fields stand below one another inside the overlay, one column in from
    /// its sides.
    pub fn render(&self, frame: Area) -> (placed: Option<Placement>)
        ensures
            placed is Some <==> self@.popup.active,
            placed matches Some(p) ==> p.fits(frame, self@),
    {
        if !self.popup.active {
            return None;
        }
        let popup = self.popup.render(frame, [PERCENT, PERCENT]);
        let columns = Self::columns().split(popup);
        let rows = Self::rows().split(columns[1]);
        let summary_pane = rows[1];
        let summary = self.summary_pane.render(summary_pane);
        let start_pane = rows[2];
        let start = self.start_pane.render(start_pane);
        let end_pane = rows[3];
        let end = self.end_pane.render(end_pane);
        let description_pane = rows[4];
        let description = self.description_pane.render(description_pane);
        let mut cursor: Option<Position> = None;
        if self.summary.active {
            cursor = self.summary.render(summary);
        }
        if self.start.active {
            cursor = self.start.render(start);
        }
        if self.end.active {
            cursor = self.end.render(end);
        }
        if self.description.active {
            cursor = self.description.render(description);
        }
        Some(
            Placement {
                popup,
                summary_pane,
                summary,
                start_pane,
                start,
                end_pane,
                end,
                description_pane,
                description,
                cursor,
            },
        )
    }

    /// Empties every field.
    pub fn all_clear(&mut self)
        ensures
            final(self)@ == old(self)@.all_clear(),
    {
        self.summary.clear();
        self.start.clear();
        self.end.clear();
        self.description.clear();
    }

    /// Gives the focus to the field labelled "Summary".
    pub fn active_summary(&mut self)
        ensures
            final(self)@ == old(self)@.active_summary(),
    {
        self.summary_pane.active = true;
        self.summary.active = true;
        self.start_pane.active = false;
        self.start.active = false;
        self.end_pane.active = false;
        self.end.active = false;
        self.description_pane.active = false;
        self.description.active = false;
    }

    /// Gives the focus to the field labelled "Start".
    pub fn active_start(&mut self)
        ensures
            final(self)@ == old(self)@.active_start(),
    {
        self.summary_pane.active = false;
        self.summary.active = false;
        self.start_pane.active = true;
        self.start.active = true;
        self.end_pane.active = false;
        self.end.active = false;
        self.description_pane.active = false;
        self.description.active = false;
    }

    /// Gives the focus to the field labelled "End".
    pub fn active_end(&mut self)
        ensures
            final(self)@ == old(self)@.active_end(),
    {
        self.summary_pane.active = false;
        self.summary.active = false;
        self.start_pane.active = false;
        self.start.active = false;
        self.end_pane.active = true;
        self.end.active = true;
        self.description_pane.active = false;
        self.description.active = false;
    }

    /// Gives the focus to the field labelled "Description".
    pub fn active_description(&mut self)
        ensures
            final(self)@ == old(self)@.active_description(),
    {
        self.summary_pane.active = false;
        self.summary.active = false;
        self.start_pane.active = false;
        self.start.active = false;
        self.end_pane.active = false;
        self.end.active = false;
        self.description_pane.active = true;
        self.description.active = true;
    }

    /// Moves the focus to the next field, from the last back to the first.
    pub fn advance_focus(&mut self)
        ensures
            final(self)@ == old(self)@.advance_focus(),
            old(self)@.wf() ==> final(self)@.wf(),
    {
        if self.summary.active {
            self.active_start();
        } else if self.start.active {
            self.active_end();
        } else if self.end.active {
            self.active_description();
        } else if self.description.active {
            self.active_summary();
        }
    }

    /// Hands one key to the field that has the focus.
    pub fn key_binding(&mut self, key: Key)
        ensures
            final(self)@ == old(self)@.key_binding(key),
            old(self)@.wf() ==> final(self)@.wf(),
    {
        if self.summary.active {
            self.summary.key_binding(key);
        } else if self.start.active {
            self.start.key_binding(key);
        } else if self.end.active {
            self.end.key_binding(key);
        } else if self.description.active {
            self.description.key_binding(key);
        }
    }

    /// Opens the form for `mode` with empty fields and the focus on the
    /// first one.
    pub fn open(&mut self, mode: Mode)
        ensures
            final(self)@ == old(self)@.open(mode),
            final(self)@.wf(),
    {
        self.popup.title = match mode {
            Mode::New => owned("Add Schedule"),
            Mode::Edit => owned("Edit Schedule"),
        };
        self.mode = mode;
        self.popup.active = true;
        self.all_clear();
        self.active_summary();
    }

    /// Puts the texts of the schedule to edit into the fields.
    pub fn fill(&mut self, summary: &str, start: &str, end: &str, description: &str)
        ensures
            final(self)@ == old(self)@.fill(summary@, start@, end@, description@),
    {
        self.summary.text = owned(summary);
        self.start.text = owned(start);
        self.end.text = owned(end);
        self.description.text = owned(description);
    }

    /// Closes the form and takes the focus from its fields. The texts stay.
    pub fn close(&mut self)
        ensures
            final(self)@ == old(self)@.close(),
            old(self)@.summary.wf() && old(self)@.start.wf() && old(self)@.end.wf()
                && old(self)@.description.wf()
                ==> final(self)@.wf(),
    {
        self.popup.active = false;
        self.summary_pane.active = false;
        self.summary.active = false;
        self.start_pane.active = false;
        self.start.active = false;
        self.end_pane.active = false;
        self.end.active = false;
        self.description_pane.active = false;
        self.description.active = false;
    }
}

} // verus!
