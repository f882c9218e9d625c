//! The calendar's schedules and their controller.

pub mod form;
pub mod window;

use vstd::prelude::*;
use crate::action::{Action, ActionView};
use crate::key::Key;
use crate::request::{item_url, Body, BodyView, Method, Request, RequestView};
use crate::schedule::form::{Form, FormView, Mode};
use crate::text::{join, or_text, owned, unquoted, without_quotes};
use crate::ui::help::Help;
use crate::ui::layout::Area;
use crate::ui::pane::{Pane, PaneView};
use crate::ui::popup::PopupView;
use crate::ui::select_list::{last_index, SelectList, SelectListView};

verus! {

/// Where the calendar service keeps the events.
pub const BASE_API: &'static str =
    "https://www.googleapis.com/calendar/v3/calendars/primary/events";

/// The time zone that new and changed events are given.
pub const TIME_ZONE: &'static str = "Asia/Tokyo";

/// An event of the calendar as the list shows it. The id is the service's
/// and means nothing here.
#[derive(Debug)]
pub struct Schedule {
    pub id: String,
    pub summary: String,
    pub start: String,
    pub end: String,
    pub link: String,
    pub description: String,
}

/// A [`Schedule`] as mathematical values.
pub struct ScheduleView {
    pub id: Seq<char>,
    pub summary: Seq<char>,
    pub start: Seq<char>,
    pub end: Seq<char>,
    pub link: Seq<char>,
    pub description: Seq<char>,
}

impl ScheduleView {
    /// The lines that stand for the schedule in the list: the summary, and
    /// below it, indented, from when to when.
    pub open spec fn value(self) -> Seq<char> {
        self.summary + seq!['\n', ' ', ' '] + self.start + seq![' ', '-', ' '] + self.end
    }
}

impl View for Schedule {
    type V = ScheduleView;

    open spec fn view(&self) -> ScheduleView {
        ScheduleView {
            id: self.id@,
            summary: self.summary@,
            start: self.start@,
            end: self.end@,
            link: self.link@,
            description: self.description@,
        }
    }
}

impl DeepView for Schedule {
    type V = ScheduleView;

    open spec fn deep_view(&self) -> ScheduleView {
        self@
    }
}

/// One entry of the service's answer, as far as it is read: the id and the
/// link as the JSON text of their values, the other members as the strings
/// they hold, where they hold one.
#[derive(Debug)]
pub struct Item {
    pub id: String,
    pub summary: Option<String>,
    pub description: Option<String>,
    pub start_date_time: Option<String>,
    pub start_date: Option<String>,
    pub end_date_time: Option<String>,
    pub end_date: Option<String>,
    pub html_link: String,
}

/// An [`Item`] as mathematical values.
pub struct ItemView {
    pub id: Seq<char>,
    pub summary: Option<Seq<char>>,
    pub description: Option<Seq<char>>,
    pub start_date_time: Option<Seq<char>>,
    pub start_date: Option<Seq<char>>,
    pub end_date_time: Option<Seq<char>>,
    pub end_date: Option<Seq<char>>,
    pub html_link: Seq<char>,
}

/// `found`, or `fallback` where there is none.
pub open spec fn or_else(found: Option<Seq<char>>, fallback: Seq<char>) -> Seq<char> {
    match found {
        Some(text) => text,
        None => fallback,
    }
}

/// `first` where there is one, else `second`.
pub open spec fn first_of(first: Option<Seq<char>>, second: Option<Seq<char>>) -> Option<
    Seq<char>,
> {
    match first {
        Some(_) => first,
        None => second,
    }
}

impl ItemView {
    /// The schedule that the entry describes. The id and the link lose
    /// their quotes; a missing summary or description is replaced by a
    /// notice; the start and the end are the time of day where the entry has
    /// one, else the day, else a notice.
    pub open spec fn schedule(self) -> ScheduleView {
        ScheduleView {
            id: unquoted(self.id),
            summary: or_else(self.summary, "No summary"@),
            start: or_else(first_of(self.start_date_time, self.start_date), "No start time"@),
            end: or_else(first_of(self.end_date_time, self.end_date), "No end time"@),
            link: unquoted(self.html_link),
            description: or_else(self.description, "No discription"@),
        }
    }
}

impl View for Item {
    type V = ItemView;

    open spec fn view(&self) -> ItemView {
        ItemView {
            id: self.id@,
            summary: self.summary.deep_view(),
            description: self.description.deep_view(),
            start_date_time: self.start_date_time.deep_view(),
            start_date: self.start_date.deep_view(),
            end_date_time: self.end_date_time.deep_view(),
            end_date: self.end_date.deep_view(),
            html_link: self.html_link@,
        }
    }
}

impl DeepView for Item {
    type V = ItemView;

    open spec fn deep_view(&self) -> ItemView {
        self@
    }
}

/// A point in time in an event that is sent to the service.
#[derive(Debug)]
pub struct DateTime {
    pub date_time: String,
    pub time_zone: String,
}

/// A [`DateTime`] as mathematical values.
pub struct DateTimeView {
    pub date_time: Seq<char>,
    pub time_zone: Seq<char>,
}

impl View for DateTime {
    type V = DateTimeView;

    open spec fn view(&self) -> DateTimeView {
        DateTimeView { date_time: self.date_time@, time_zone: self.time_zone@ }
    }
}

/// An event as it is sent to the service.
#[derive(Debug)]
pub struct Event {
    pub summary: String,
    pub description: String,
    pub start: DateTime,
    pub end: DateTime,
}

/// An [`Event`] as mathematical values.
pub struct EventView {
    pub summary: Seq<char>,
    pub description: Seq<char>,
    pub start: DateTimeView,
    pub end: DateTimeView,
}

impl View for Event {
    type V = EventView;

    open spec fn view(&self) -> EventView {
        EventView {
            summary: self.summary@,
            description: self.description@,
            start: self.start@,
            end: self.end@,
        }
    }
}

/// A copy of the text in `found`.
fn copied(found: &Option<String>) -> (r: Option<String>)
    ensures
        r.deep_view() == found.deep_view(),
{
    match found {
        Some(text) => Some(text.clone()),
        None => None,
    }
}

impl Schedule {
    /// The lines that stand for the schedule in the list.
    pub fn value(&self) -> (r: String)
        ensures
            r@ == self@.value(),
    {
        proof {
            reveal_strlit("\n  ");
            reveal_strlit(" - ");
        }
        let mut r = join(self.summary.as_str(), "\n  ");
        r.append(self.start.as_str());
        r.append(" - ");
        r.append(self.end.as_str());
        assert("\n  "@ =~= seq!['\n', ' ', ' ']);
        assert(" - "@ =~= seq![' ', '-', ' ']);
        r
    }

    /// The schedule that an entry of the service's answer describes.
    pub fn from_item(item: &Item) -> (r: Self)
        ensures
            r@ == item@.schedule(),
    {
        let start = match copied(&item.start_date_time) {
            Some(text) => Some(text),
            None => copied(&item.start_date),
        };
        let end = match copied(&item.end_date_time) {
            Some(text) => Some(text),
            None => copied(&item.end_date),
        };
        Self {
            id: without_quotes(item.id.as_str()),
            summary: or_text(copied(&item.summary), "No summary"),
            start: or_text(start, "No start time"),
            end: or_text(end, "No end time"),
            link: without_quotes(item.html_link.as_str()),
            description: or_text(copied(&item.description), "No discription"),
        }
    }
}

/// The request that reads the schedules between `time_min` and `time_max`:
/// every occurrence of a repeated event by itself, in the order of their
/// starts.
pub open spec fn listing(time_min: Seq<char>, time_max: Seq<char>) -> RequestView {
    RequestView {
        method: Method::Get,
        url: BASE_API@,
        query: seq![
            ("orderBy"@, "startTime"@),
            ("singleEvents"@, "true"@),
            ("timeMin"@, time_min),
            ("timeMax"@, time_max),
        ],
        body: BodyView::Empty,
    }
}

/// The lines that stand for `items` in the list.
pub open spec fn values(items: Seq<ScheduleView>) -> Seq<Seq<char>> {
    Seq::new(items.len(), |i: int| items[i].value())
}

/// The schedules that the service's answer describes, in its order; none
/// where there was no answer to read.
pub open spec fn read(response: Option<Seq<ItemView>>) -> Seq<ScheduleView> {
    match response {
        Some(items) => Seq::new(items.len(), |i: int| items[i].schedule()),
        None => Seq::empty(),
    }
}

/// What is written behind the times of a new event: the offset of the
/// calendar's time zone.
pub open spec fn offset() -> Seq<char> {
    "+09:00"@
}

/// The schedule controller: the list, the selection in it, the form that
/// adds and edits, the help screen and the pane around them.
#[derive(Debug)]
pub struct Schedules {
    pub pane: Pane,
    pub schedules: Vec<Schedule>,
    pub list: SelectList,
    pub form: Form,
    pub help: Help,
}

/// What a [`Schedules`] holds, as mathematical values.
pub struct SchedulesView {
    pub pane: PaneView,
    pub schedules: Seq<ScheduleView>,
    pub list: SelectListView,
    pub form: FormView,
    pub help: PopupView,
}

impl SchedulesView {
    /// The controller as it starts with `items`: nothing open, the first
    /// schedule selected.
    pub open spec fn new(items: Seq<ScheduleView>) -> SchedulesView {
        SchedulesView {
            pane: PaneView { title: "Schedule"@, active: false },
            schedules: items,
            list: SelectListView { index: 0, rows: Seq::empty() },
            form: FormView::new(),
            help: PopupView { title: "Help Schedule"@, active: false },
        }.render()
    }

    /// The form is well formed, at most one overlay is open, the list has a
    /// row for every schedule, and the selection is on one of them.
    pub open spec fn wf(self) -> bool {
        &&& self.form.wf()
        &&& !(self.help.active && self.form.popup.active)
        &&& self.list.rows.len() == self.schedules.len()
        &&& self.list.wf()
    }

    /// Neither the help screen nor the form is open.
    pub open spec fn closed(self) -> bool {
        !self.help.active && !self.form.popup.active
    }

    /// Whether the selection is on a schedule: it is unless the list is
    /// empty.
    pub open spec fn selected(self) -> bool {
        self.list.index < self.schedules.len()
    }

    /// The list drawn again from the schedules.
    pub open spec fn render(self) -> SchedulesView {
        SchedulesView { list: self.list.render(values(self.schedules)), ..self }
    }

    /// The list replaced by what the service holds now; a selection behind
    /// the new last schedule moves up to it.
    pub open spec fn reload(self, items: Seq<ScheduleView>) -> SchedulesView {
        SchedulesView { schedules: items, ..self }.render()
    }

    /// What opening the selected schedule asks for: its page in the
    /// browser, or nothing where the list is empty.
    pub open spec fn open(self) -> ActionView {
        if self.selected() {
            ActionView::Browse(self.schedules[self.list.index as int].link)
        } else {
            ActionView::Idle
        }
    }

    /// The event that the form describes, with `suffix` behind its two
    /// times.
    pub open spec fn event(self, suffix: Seq<char>) -> EventView {
        EventView {
            summary: self.form.summary.text,
            description: self.form.description.text,
            start: DateTimeView { date_time: self.form.start.text + suffix, time_zone: TIME_ZONE@ },
            end: DateTimeView { date_time: self.form.end.text + suffix, time_zone: TIME_ZONE@ },
        }
    }

    /// The address of the selected schedule at the service.
    pub open spec fn url(self) -> Seq<char> {
        item_url(BASE_API@, self.schedules[self.list.index as int].id)
    }

    /// With the form closed and emptied.
    pub open spec fn submitted(self) -> SchedulesView {
        SchedulesView { form: self.form.close().all_clear(), ..self }
    }

    /// What adding asks for: the form's event, its times in the calendar's
    /// offset, posted to the service.
    pub open spec fn add(self) -> ActionView {
        ActionView::Calendar(
            RequestView {
                method: Method::Post,
                url: BASE_API@,
                query: Seq::empty(),
                body: BodyView::Event(self.event(offset())),
            },
        )
    }

    /// What editing asks for: the form's event, its times as they were
    /// typed, put in place of the selected schedule; nothing where the list is
    /// empty.
    pub open spec fn edit(self) -> ActionView {
        if self.selected() {
            ActionView::Calendar(
                RequestView {
                    method: Method::Put,
                    url: self.url(),
                    query: Seq::empty(),
                    body: BodyView::Event(self.event(Seq::empty())),
                },
            )
        } else {
            ActionView::Idle
        }
    }

    /// What deleting asks for: the selected schedule deleted at the service;
    /// nothing where the list is empty.
    pub open spec fn delete(self) -> ActionView {
        if self.selected() {
            ActionView::Calendar(
                RequestView {
                    method: Method::Delete,
                    url: self.url(),
                    query: Seq::empty(),
                    body: BodyView::Empty,
                },
            )
        } else {
            ActionView::Idle
        }
    }

    /// The form opened to edit the selected schedule, filled with its texts.
    /// Nothing where the list is empty.
    pub open spec fn begin_edit(self) -> SchedulesView {
        if self.selected() {
            let item = self.schedules[self.list.index as int];
            SchedulesView {
                form: self.form.open(Mode::Edit).fill(
                    item.summary,
                    item.start,
                    item.end,
                    item.description,
                ),
                ..self
            }
        } else {
            self
        }
    }

    /// The controller after one key.
    ///
    /// While the help screen is open only Esc does anything: it closes the
    /// help screen. While the form is open Tab moves the focus, Esc closes
    /// the form, F12 submits it, and every other key goes to the form. With
    /// both closed the arrows move the selection, F1 opens the help screen,
    /// F2 the form for a new schedule and F3 the form for the selected one.
    /// Deleting changes nothing here: the list changes when it is read again.
    pub open spec fn key_binding(self, key: Key) -> SchedulesView {
        if self.help.active {
            match key {
                Key::Esc => SchedulesView { help: self.help.opened(false), ..self },
                _ => self,
            }
        } else if self.form.popup.active {
            match key {
                Key::Tab => SchedulesView { form: self.form.advance_focus(), ..self },
                Key::Esc => SchedulesView { form: self.form.close(), ..self },
                Key::F(12) => self.submitted(),
                _ => SchedulesView { form: self.form.key_binding(key), ..self },
            }
        } else {
            match key {
                Key::F(1) => SchedulesView { help: self.help.opened(true), ..self },
                Key::F(2) => SchedulesView { form: self.form.open(Mode::New), ..self },
                Key::F(3) => self.begin_edit(),
                _ => SchedulesView { list: self.list.key_binding(key), ..self },
            }
        }
    }

    /// What one key leaves for the caller to do.
    pub open spec fn action(self, key: Key) -> ActionView {
        if self.help.active {
            ActionView::Idle
        } else if self.form.popup.active {
            match key {
                Key::F(12) => match self.form.mode {
                    Mode::New => self.add(),
                    Mode::Edit => self.edit(),
                },
                _ => ActionView::Idle,
            }
        } else {
            match key {
                Key::Enter => self.open(),
                Key::Char('D') => self.delete(),
                Key::Esc => ActionView::Leave,
                _ => ActionView::Idle,
            }
        }
    }
}

/// While the help screen is open it owns the keyboard: every key but Esc
/// leaves the controller as it is, Esc closes the help screen and changes
/// nothing else, and no key asks the caller for anything.
pub proof fn lemma_help_owns_the_keyboard(controller: SchedulesView, key: Key)
    requires
        controller.help.active,
    ensures
        key != Key::Esc ==> controller.key_binding(key) == controller,
        controller.key_binding(Key::Esc) == (SchedulesView {
            help: controller.help.opened(false),
            ..controller
        }),
        controller.action(key) == ActionView::Idle,
{
}

/// While an overlay is open the list is out of reach: no key moves the
/// selection, and at most one overlay is open after the key as before it.
pub proof fn lemma_overlays_shield_the_list(controller: SchedulesView, key: Key)
    requires
        controller.wf(),
        !controller.closed(),
    ensures
        controller.key_binding(key).list.index == controller.list.index,
        controller.key_binding(key).wf(),
{
}

impl View for Schedules {
    type V = SchedulesView;

    open spec fn view(&self) -> SchedulesView {
        SchedulesView {
            pane: self.pane@,
            schedules: self.schedules.deep_view(),
            list: self.list@,
            form: self.form@,
            help: self.help@,
        }
    }
}

impl Schedules {
    /// The controller over the schedules that were read.
    pub fn new(schedules: Vec<Schedule>) -> (r: Self)
        ensures
            r@ == SchedulesView::new(schedules.deep_view()),
            r@.wf(),
    {
        let mut r = Self {
            pane: Pane::new("Schedule"),
            schedules,
            list: SelectList::new(),
            form: Form::new(),
            help: Help::new("Help Schedule"),
        };
        r.sync();
        r
    }

    /// The schedules in the service's answer, given the entries that were
    /// read from it; none where the request failed or the answer held no
    /// entries.
    pub fn read(response: Option<Vec<Item>>) -> (r: Vec<Schedule>)
        ensures
            r.deep_view() == read(response.deep_view()),
    {
        let mut schedules: Vec<Schedule> = Vec::new();
        match response {
            Some(items) => {
                let mut i: usize = 0;
                while i < items.len()
                    invariant
                        i <= items.len(),
                        schedules.len() == i,
                        forall|k: int|
                            0 <= k < i ==> #[trigger] schedules[k]@ == items[k]@.schedule(),
                    decreases items.len() - i,
                {
                    schedules.push(Schedule::from_item(&items[i]));
                    i = i + 1;
                }
                assert(schedules.deep_view() =~= read(Some(items.deep_view())));
            },
            None => {
                assert(schedules.deep_view() =~= Seq::empty());
            },
        }
        schedules
    }

    /// The request that reads the schedules between `time_min` and
    /// `time_max`.
    pub fn listing(time_min: &str, time_max: &str) -> (request: Request)
        ensures
            request@ == listing(time_min@, time_max@),
    {
        let mut query: Vec<(String, String)> = Vec::new();
        query.push((owned("orderBy"), owned("startTime")));
        query.push((owned("singleEvents"), owned("true")));
        query.push((owned("timeMin"), owned(time_min)));
        query.push((owned("timeMax"), owned(time_max)));
        assert(query.deep_view() =~= listing(time_min@, time_max@).query);
        Request { method: Method::Get, url: owned(BASE_API), query, body: Body::Empty }
    }

    /// Puts what the service holds now in place of the list and brings the
    /// selection back into it.
    pub fn reload(&mut self, schedules: Vec<Schedule>)
        ensures
            final(self)@ == old(self)@.reload(schedules.deep_view()),
            final(self)@.list.index <= last_index(schedules.len() as nat),
            old(self)@.form.wf() && !(old(self)@.help.active && old(self)@.form.popup.active)
                ==> final(self)@.wf(),
    {
        self.schedules = schedules;
        self.sync();
    }

    /// Makes the rows of the list from the schedules.
    fn sync(&mut self)
        ensures
            final(self)@ == old(self)@.render(),
            final(self)@.list.wf(),
            final(self)@.list.rows.len() == final(self)@.schedules.len(),
    {
        let mut lines: Vec<String> = Vec::new();
        let mut i: usize = 0;
        while i < self.schedules.len()
            invariant
                i <= self.schedules.len(),
                lines.len() == i,
                forall|k: int| 0 <= k < i ==> #[trigger] lines[k]@ == self.schedules[k]@.value(),
            decreases self.schedules.len() - i,
        {
            lines.push(self.schedules[i].value());
            i = i + 1;
        }
        assert(lines.deep_view() =~= values(self.schedules.deep_view()));
        self.list.render(lines);
    }

    /// Draws the controller into `area`: the rows of the list are made from
    /// the schedules, and the region inside the pane's border, where the rows
    /// go, is returned.
    pub fn render(&mut self, area: Area) -> (inner: Area)
        ensures
            final(self)@ == old(self)@.render(),
            inner == area.within_border(),
    {
        let inner = self.pane.render(area);
        self.sync();
        inner
    }

    /// Asks for the selected schedule's page to be opened in the browser.
    pub fn open(&self) -> (action: Action)
        ensures
            action@ == self@.open(),
    {
        if self.list.index < self.schedules.len() {
            Action::Browse(self.schedules[self.list.index].link.clone())
        } else {
            Action::Idle
        }
    }

    /// The event that the form describes, with `suffix` behind its two
    /// times.
    fn event(&self, suffix: &str) -> (event: Event)
        ensures
            event@ == self@.event(suffix@),
    {
        Event {
            summary: self.form.summary.text.clone(),
            description: self.form.description.text.clone(),
            start: DateTime {
                date_time: join(self.form.start.text.as_str(), suffix),
                time_zone: owned(TIME_ZONE),
            },
            end: DateTime {
                date_time: join(self.form.end.text.as_str(), suffix),
                time_zone: owned(TIME_ZONE),
            },
        }
    }

    /// Asks for the event that the form describes to be created, and closes
    /// and empties the form.
    pub fn add(&mut self) -> (action: Action)
        ensures
            final(self)@ == old(self)@.submitted(),
            action@ == old(self)@.add(),
    {
        let event = self.event("+09:00");
        self.form.close();
        self.form.all_clear();
        Action::Calendar(Request::new(Method::Post, owned(BASE_API), Body::Event(event)))
    }

    /// Asks for the selected schedule to be replaced by the event that the
    /// form describes, and closes and empties the form.
    pub fn edit(&mut self) -> (action: Action)
        ensures
            final(self)@ == old(self)@.submitted(),
            action@ == old(self)@.edit(),
    {
        proof {
            reveal_strlit("");
        }
        let action = if self.list.index < self.schedules.len() {
            let event = self.event("");
            assert(""@ =~= Seq::<char>::empty());
            assert(self@.event(""@) == self@.event(Seq::empty()));
            let url = Request::item(BASE_API, self.schedules[self.list.index].id.as_str());
            Action::Calendar(Request::new(Method::Put, url, Body::Event(event)))
        } else {
            Action::Idle
        };
        self.form.close();
        self.form.all_clear();
        action
    }

    /// Asks for the selected schedule to be deleted. The list stays as it is
    /// until it is read again.
    pub fn delete(&self) -> (action: Action)
        ensures
            action@ == self@.delete(),
    {
        if self.list.index < self.schedules.len() {
            let url = Request::item(BASE_API, self.schedules[self.list.index].id.as_str());
            Action::Calendar(Request::new(Method::Delete, url, Body::Empty))
        } else {
            Action::Idle
        }
    }

    /// Opens the form to edit the selected schedule.
    fn begin_edit(&mut self)
        ensures
            final(self)@ == old(self)@.begin_edit(),
            old(self)@.wf() && old(self)@.closed() ==> final(self)@.wf(),
    {
        if self.list.index < self.schedules.len() {
            self.form.open(Mode::Edit);
            let item = &self.schedules[self.list.index];
            self.form.fill(
                item.summary.as_str(),
                item.start.as_str(),
                item.end.as_str(),
                item.description.as_str(),
            );
        }
    }

    /// Handles one key and says what is left for the caller to do.
    pub fn key_binding(&mut self, key: Key) -> (action: Action)
        ensures
            final(self)@ == old(self)@.key_binding(key),
            action@ == old(self)@.action(key),
            old(self)@.wf() ==> final(self)@.wf(),
            old(self)@.help.active && key != Key::Esc ==> *final(self) == *old(self),
    {
        if self.help.popup.active {
            match key {
                Key::Esc => {
                    self.help.popup.active = false;
                },
                _ => {},
            }
            Action::Idle
        } else if self.form.popup.active {
            match key {
                Key::Tab => {
                    self.form.advance_focus();
                    Action::Idle
                },
                Key::Esc => {
                    self.form.close();
                    Action::Idle
                },
                Key::F(12) => match self.form.mode {
                    Mode::New => self.add(),
                    Mode::Edit => self.edit(),
                },
                _ => {
                    self.form.key_binding(key);
                    Action::Idle
                },
            }
        } else {
            match key {
                Key::F(1) => {
                    self.help.popup.active = true;
                    Action::Idle
                },
                Key::F(2) => {
                    self.form.open(Mode::New);
                    Action::Idle
                },
                Key::F(3) => {
                    self.begin_edit();
                    Action::Idle
                },
                Key::Enter => self.open(),
                Key::Char('D') => self.delete(),
                Key::Esc => Action::Leave,
                _ => {
                    self.list.key_binding(key);
                    Action::Idle
                },
            }
        }
    }
}

} // verus!
