//! The task list and its controller.

pub mod form;

use vstd::prelude::*;
use crate::action::{Action, ActionView};
use crate::key::Key;
use crate::request::{item_url, Body, BodyView, Method, Request, RequestView};
use crate::task::form::{Form, FormView, Mode};
use crate::text::{join, owned, unquoted, without_quotes};
use crate::ui::help::Help;
use crate::ui::layout::Area;
use crate::ui::pane::{Pane, PaneView};
use crate::ui::popup::PopupView;
use crate::ui::select_list::{last_index, SelectList, SelectListView};

verus! {

/// Where the task service keeps the tasks.
pub const BASE_API: &'static str = "https://tasks.googleapis.com/tasks/v1/lists/@default/tasks";

/// The page that shows the tasks in the browser.
pub const TASKS_PAGE: &'static str = "https://calendar.google.com/calendar/u/0/r/tasks";

/// The status of a task that is done.
pub const COMPLETED: &'static str = "completed";

/// A task as the list shows it. The id is the service's and means nothing
/// here.
#[derive(Debug)]
pub struct Task {
    pub id: String,
    pub title: String,
    pub notes: String,
    pub due: String,
    pub status: String,
}

/// A [`Task`] as mathematical values.
pub struct TaskView {
    pub id: Seq<char>,
    pub title: Seq<char>,
    pub notes: Seq<char>,
    pub due: Seq<char>,
    pub status: Seq<char>,
}

impl TaskView {
    /// The lines that stand for the task in the list: the title, and below
    /// it, indented, the notes and the day it is due.
    pub open spec fn value(self) -> Seq<char> {
        self.title + seq!['\n', ' ', ' '] + self.notes + seq!['\n', ' ', ' '] + self.due
    }
}

impl View for Task {
    type V = TaskView;

    open spec fn view(&self) -> TaskView {
        TaskView {
            id: self.id@,
            title: self.title@,
            notes: self.notes@,
            due: self.due@,
            status: self.status@,
        }
    }
}

impl DeepView for Task {
    type V = TaskView;

    open spec fn deep_view(&self) -> TaskView {
        self@
    }
}

/// One entry of the service's answer: each member as the JSON text of its
/// value.
#[derive(Debug)]
pub struct Item {
    pub id: String,
    pub title: String,
    pub notes: String,
    pub due: String,
    pub status: String,
}

/// An [`Item`] as mathematical values.
pub struct ItemView {
    pub id: Seq<char>,
    pub title: Seq<char>,
    pub notes: Seq<char>,
    pub due: Seq<char>,
    pub status: Seq<char>,
}

impl ItemView {
    /// The task that the entry describes: every member without its quotes.
    pub open spec fn task(self) -> TaskView {
        TaskView {
            id: unquoted(self.id),
            title: unquoted(self.title),
            notes: unquoted(self.notes),
            due: unquoted(self.due),
            status: unquoted(self.status),
        }
    }
}

impl View for Item {
    type V = ItemView;

    open spec fn view(&self) -> ItemView {
        ItemView {
            id: self.id@,
            title: self.title@,
            notes: self.notes@,
            due: self.due@,
            status: self.status@,
        }
    }
}

impl DeepView for Item {
    type V = ItemView;

    open spec fn deep_view(&self) -> ItemView {
        self@
    }
}

/// A task that is sent to the service to be created.
#[derive(Debug)]
pub struct Draft {
    pub title: String,
    pub notes: String,
    pub due: String,
}

/// A [`Draft`] as mathematical values.
pub struct DraftView {
    pub title: Seq<char>,
    pub notes: Seq<char>,
    pub due: Seq<char>,
}

impl View for Draft {
    type V = DraftView;

    open spec fn view(&self) -> DraftView {
        DraftView { title: self.title@, notes: self.notes@, due: self.due@ }
    }
}

impl Task {
    /// The lines that stand for the task in the list.
    pub fn value(&self) -> (r: String)
        ensures
            r@ == self@.value(),
    {
        proof {
            reveal_strlit("\n  ");
        }
        let mut r = join(self.title.as_str(), "\n  ");
        r.append(self.notes.as_str());
        r.append("\n  ");
        r.append(self.due.as_str());
        assert("\n  "@ =~= seq!['\n', ' ', ' ']);
        r
    }

    /// The task that an entry of the service's answer describes.
    pub fn from_item(item: &Item) -> (r: Self)
        ensures
            r@ == item@.task(),
    {
        Self {
            id: without_quotes(item.id.as_str()),
            title: without_quotes(item.title.as_str()),
            notes: without_quotes(item.notes.as_str()),
            due: without_quotes(item.due.as_str()),
            status: without_quotes(item.status.as_str()),
        }
    }

    /// A copy of the task.
    pub fn copy(&self) -> (r: Self)
        ensures
            r@ == self@,
    {
        Self {
            id: self.id.clone(),
            title: self.title.clone(),
            notes: self.notes.clone(),
            due: self.due.clone(),
            status: self.status.clone(),
        }
    }
}

/// The request that reads the tasks that are not done.
pub open spec fn listing() -> RequestView {
    RequestView {
        method: Method::Get,
        url: BASE_API@,
        query: seq![("showCompleted"@, "false"@)],
        body: BodyView::Empty,
    }
}

/// The lines that stand for `items` in the list.
pub open spec fn values(items: Seq<TaskView>) -> Seq<Seq<char>> {
    Seq::new(items.len(), |i: int| items[i].value())
}

/// The tasks that the service's answer describes, in its order; none where
/// there was no answer to read.
pub open spec fn read(response: Option<Seq<ItemView>>) -> Seq<TaskView> {
    match response {
        Some(items) => Seq::new(items.len(), |i: int| items[i].task()),
        None => Seq::empty(),
    }
}

/// What is written behind the day of a new task to make it a point in time.
pub open spec fn midnight() -> Seq<char> {
    ".000Z"@
}

/// The task controller: the list, the selection in it, the form that adds
/// and edits, the help screen and the pane around them.
#[derive(Debug)]
pub struct Tasks {
    pub pane: Pane,
    pub tasks: Vec<Task>,
    pub list: SelectList,
    pub form: Form,
    pub help: Help,
}

/// What a [`Tasks`] holds, as mathematical values.
pub struct TasksView {
    pub pane: PaneView,
    pub tasks: Seq<TaskView>,
    pub list: SelectListView,
    pub form: FormView,
    pub help: PopupView,
}

impl TasksView {
    /// The controller as it starts with `items`: nothing open, the first
    /// task selected.
    pub open spec fn new(items: Seq<TaskView>) -> TasksView {
        TasksView {
            pane: PaneView { title: "Task"@, active: false },
            tasks: items,
            list: SelectListView { index: 0, rows: Seq::empty() },
            form: FormView::new(),
            help: PopupView { title: "Help Schedule"@, active: false },
        }.render()
    }

    /// The form is well formed, at most one overlay is open, the list has a
    /// row for every task, and the selection is on one of them.
    pub open spec fn wf(self) -> bool {
        &&& self.form.wf()
        &&& !(self.help.active && self.form.popup.active)
        &&& self.list.rows.len() == self.tasks.len()
        &&& self.list.wf()
    }

    /// Neither the help screen nor the form is open.
    pub open spec fn closed(self) -> bool {
        !self.help.active && !self.form.popup.active
    }

    /// Whether the selection is on a task: it is unless the list is empty.
    pub open spec fn selected(self) -> bool {
        self.list.index < self.tasks.len()
    }

    /// The list drawn again from the tasks.
    pub open spec fn render(self) -> TasksView {
        TasksView { list: self.list.render(values(self.tasks)), ..self }
    }

    /// The list replaced by what the service holds now; a selection behind
    /// the new last task moves up to it.
    pub open spec fn reload(self, items: Seq<TaskView>) -> TasksView {
        TasksView { tasks: items, ..self }.render()
    }

    /// What opening a task asks for: the page of the tasks in the browser,
    /// or nothing where the list is empty.
    pub open spec fn open(self) -> ActionView {
        if self.selected() {
            ActionView::Browse(TASKS_PAGE@)
        } else {
            ActionView::Idle
        }
    }

    /// The address of the selected task at the service.
    pub open spec fn url(self) -> Seq<char> {
        item_url(BASE_API@, self.tasks[self.list.index as int].id)
    }

    /// The selected task with the form's texts in place of its own.
    pub open spec fn edited(self) -> TaskView {
        TaskView {
            title: self.form.title.text,
            notes: self.form.notes.text,
            due: self.form.due.text,
            ..self.tasks[self.list.index as int]
        }
    }

    /// The selected task, done.
    pub open spec fn completed(self) -> TaskView {
        TaskView { status: COMPLETED@, ..self.tasks[self.list.index as int] }
    }

    /// The request that puts `task` in place of the selected one.
    pub open spec fn put(self, task: TaskView) -> ActionView {
        ActionView::Tasks(
            RequestView {
                method: Method::Put,
                url: self.url(),
                query: Seq::empty(),
                body: BodyView::Task(task),
            },
        )
    }

    /// With `task` in place of the selected one, where there is one, and
    /// the form closed and emptied.
    pub open spec fn replaced(self, task: TaskView) -> TasksView {
        TasksView {
            tasks: if self.selected() {
                self.tasks.update(self.list.index as int, task)
            } else {
                self.tasks
            },
            form: self.form.close().all_clear(),
            ..self
        }
    }

    /// With the form closed and emptied.
    pub open spec fn submitted(self) -> TasksView {
        TasksView { form: self.form.close().all_clear(), ..self }
    }

    /// What adding asks for: the form's task, its day made a point in time,
    /// posted to the service.
    pub open spec fn add(self) -> ActionView {
        ActionView::Tasks(
            RequestView {
                method: Method::Post,
                url: BASE_API@,
                query: Seq::empty(),
                body: BodyView::Draft(
                    DraftView {
                        title: self.form.title.text,
                        notes: self.form.notes.text,
                        due: self.form.due.text + midnight(),
                    },
                ),
            },
        )
    }

    /// What editing asks for: the selected task with the form's texts, put
    /// in place of itself; nothing where the list is empty.
    pub open spec fn edit(self) -> ActionView {
        if self.selected() {
            self.put(self.edited())
        } else {
            ActionView::Idle
        }
    }

    /// What completing asks for: the selected task, done, put in place of
    /// itself; nothing where the list is empty.
    pub open spec fn complete(self) -> ActionView {
        if self.selected() {
            self.put(self.completed())
        } else {
            ActionView::Idle
        }
    }

    /// What deleting asks for: the selected task deleted at the service;
    /// nothing where the list is empty.
    pub open spec fn delete(self) -> ActionView {
        if self.selected() {
            ActionView::Tasks(
                RequestView {
                    method: Method::Delete,
                    url: self.url(),
                    query: Seq::empty(),
                    body: BodyView::Empty,
                },
            )
        } else {
            ActionView::Idle
        }
    }

    /// The form opened to edit the selected task, filled with its texts.
    /// Nothing where the list is empty.
    pub open spec fn begin_edit(self) -> TasksView {
        if self.selected() {
            let item = self.tasks[self.list.index as int];
            TasksView {
                form: self.form.open(Mode::Edit).fill(item.title, item.notes, item.due),
                ..self
            }
        } else {
            self
        }
    }

    /// The controller after one key.
    ///
    /// While the help screen is open only Esc does anything: it closes the
    /// help screen. While the form is open Tab moves the focus, Esc closes
    /// the form, F12 submits it, and every other key goes to the form. With
    /// both closed the arrows move the selection, F1 opens the help screen,
    /// F2 the form for a new task, F3 the form for the selected one, and `C`
    /// marks the selected task as done. Deleting changes nothing here: the
    /// list changes when it is read again.
    pub open spec fn key_binding(self, key: Key) -> TasksView {
        if self.help.active {
            match key {
                Key::Esc => TasksView { help: self.help.opened(false), ..self },
                _ => self,
            }
        } else if self.form.popup.active {
            match key {
                Key::Tab => TasksView { form: self.form.advance_focus(), ..self },
                Key::Esc => TasksView { form: self.form.close(), ..self },
                Key::F(12) => match self.form.mode {
                    Mode::New => self.submitted(),
                    Mode::Edit => self.replaced(self.edited()),
                },
                _ => TasksView { form: self.form.key_binding(key), ..self },
            }
        } else {
            match key {
                Key::F(1) => TasksView { help: self.help.opened(true), ..self },
                Key::F(2) => TasksView { form: self.form.open(Mode::New), ..self },
                Key::F(3) => self.begin_edit(),
                Key::Char('C') => self.replaced(self.completed()),
                _ => TasksView { list: self.list.key_binding(key), ..self },
            }
        }
    }

    /// What one key leaves for the caller to do.
    pub open spec fn action(self, key: Key) -> ActionView {
        if self.help.active {
            ActionView::Idle
        } else if self.form.popup.active {
            match key {
                Key::F(12) => match self.form.mode {
                    Mode::New => self.add(),
                    Mode::Edit => self.edit(),
                },
                _ => ActionView::Idle,
            }
        } else {
            match key {
                Key::Enter => self.open(),
                Key::Char('C') => self.complete(),
                Key::Char('D') => self.delete(),
                Key::Esc => ActionView::Leave,
                _ => ActionView::Idle,
            }
        }
    }
}

/// While the help screen is open it owns the keyboard: every key but Esc
/// leaves the controller as it is, Esc closes the help screen and changes
/// nothing else, and no key asks the caller for anything.
pub proof fn lemma_help_owns_the_keyboard(controller: TasksView, key: Key)
    requires
        controller.help.active,
    ensures
        key != Key::Esc ==> controller.key_binding(key) == controller,
        controller.key_binding(Key::Esc) == (TasksView {
            help: controller.help.opened(false),
            ..controller
        }),
        controller.action(key) == ActionView::Idle,
{
}

/// While an overlay is open the list is out of reach: no key moves the
/// selection, and at most one overlay is open after the key as before it.
pub proof fn lemma_overlays_shield_the_list(controller: TasksView, key: Key)
    requires
        controller.wf(),
        !controller.closed(),
    ensures
        controller.key_binding(key).list.index == controller.list.index,
        controller.key_binding(key).wf(),
{
}

impl View for Tasks {
    type V = TasksView;

    open spec fn view(&self) -> TasksView {
        TasksView {
            pane: self.pane@,
            tasks: self.tasks.deep_view(),
            list: self.list@,
            form: self.form@,
            help: self.help@,
        }
    }
}

impl Tasks {
    /// The controller over the tasks that were read.
    pub fn new(tasks: Vec<Task>) -> (r: Self)
        ensures
            r@ == TasksView::new(tasks.deep_view()),
            r@.wf(),
    {
        let mut r = Self {
            pane: Pane::new("Task"),
            tasks,
            list: SelectList::new(),
            form: Form::new(),
            help: Help::new("Help Schedule"),
        };
        r.sync();
        r
    }

    /// The tasks in the service's answer, given the entries that were read
    /// from it; none where the request failed or the answer held no entries.
    pub fn read(response: Option<Vec<Item>>) -> (r: Vec<Task>)
        ensures
            r.deep_view() == read(response.deep_view()),
    {
        let mut tasks: Vec<Task> = Vec::new();
        match response {
            Some(items) => {
                let mut i: usize = 0;
                while i < items.len()
                    invariant
                        i <= items.len(),
                        tasks.len() == i,
                        forall|k: int| 0 <= k < i ==> #[trigger] tasks[k]@ == items[k]@.task(),
                    decreases items.len() - i,
                {
                    tasks.push(Task::from_item(&items[i]));
                    i = i + 1;
                }
                assert(tasks.deep_view() =~= read(Some(items.deep_view())));
            },
            None => {
                assert(tasks.deep_view() =~= Seq::empty());
            },
        }
        tasks
    }

    /// The request that reads the tasks that are not done.
    pub fn listing() -> (request: Request)
        ensures
            request@ == listing(),
    {
        let mut query: Vec<(String, String)> = Vec::new();
        query.push((owned("showCompleted"), owned("false")));
        assert(query.deep_view() =~= listing().query);
        Request { method: Method::Get, url: owned(BASE_API), query, body: Body::Empty }
    }

    /// Puts what the service holds now in place of the list and brings the
    /// selection back into it.
    pub fn reload(&mut self, tasks: Vec<Task>)
        ensures
            final(self)@ == old(self)@.reload(tasks.deep_view()),
            final(self)@.list.index <= last_index(tasks.len() as nat),
            old(self)@.form.wf() && !(old(self)@.help.active && old(self)@.form.popup.active)
                ==> final(self)@.wf(),
    {
        self.tasks = tasks;
        self.sync();
    }

    /// Makes the rows of the list from the tasks.
    fn sync(&mut self)
        ensures
            final(self)@ == old(self)@.render(),
            final(self)@.list.wf(),
            final(self)@.list.rows.len() == final(self)@.tasks.len(),
    {
        let mut lines: Vec<String> = Vec::new();
        let mut i: usize = 0;
        while i < self.tasks.len()
            invariant
                i <= self.tasks.len(),
                lines.len() == i,
                forall|k: int| 0 <= k < i ==> #[trigger] lines[k]@ == self.tasks[k]@.value(),
            decreases self.tasks.len() - i,
        {
            lines.push(self.tasks[i].value());
            i = i + 1;
        }
        assert(lines.deep_view() =~= values(self.tasks.deep_view()));
        self.list.render(lines);
    }

    /// Draws the controller into `area`: the rows of the list are made from
    /// the tasks, and the region inside the pane's border, where the rows go,
    /// is returned.
    pub fn render(&mut self, area: Area) -> (inner: Area)
        ensures
            final(self)@ == old(self)@.render(),
            inner == area.within_border(),
    {
        let inner = self.pane.render(area);
        self.sync();
        inner
    }

    /// Asks for the page of the tasks to be opened in the browser.
    pub fn open(&self) -> (action: Action)
        ensures
            action@ == self@.open(),
    {
        if self.list.index < self.tasks.len() {
            Action::Browse(owned(TASKS_PAGE))
        } else {
            Action::Idle
        }
    }

    /// Asks for the task that the form describes to be created, and closes
    /// and empties the form.
    pub fn add(&mut self) -> (action: Action)
        ensures
            final(self)@ == old(self)@.submitted(),
            action@ == old(self)@.add(),
    {
        let draft = Draft {
            title: self.form.title.text.clone(),
            notes: self.form.notes.text.clone(),
            due: join(self.form.due.text.as_str(), ".000Z"),
        };
        self.form.close();
        self.form.all_clear();
        Action::Tasks(Request::new(Method::Post, owned(BASE_API), Body::Draft(draft)))
    }

    /// Puts `task` in place of the selected one, here and, by the request
    /// that is returned, at the service; closes and empties the form.
    fn replace(&mut self, task: Task) -> (action: Action)
        requires
            old(self)@.selected(),
        ensures
            final(self)@ == old(self)@.replaced(task@),
            action@ == old(self)@.put(task@),
    {
        let url = Request::item(BASE_API, self.tasks[self.list.index].id.as_str());
        self.tasks.set(self.list.index, task.copy());
        assert(self.tasks.deep_view() =~= old(self)@.tasks.update(
            old(self)@.list.index as int,
            task@,
        ));
        self.form.close();
        self.form.all_clear();
        Action::Tasks(Request::new(Method::Put, url, Body::Task(task)))
    }

    /// Overwrites the selected task with the form's texts, asks for the
    /// service to do the same, and closes and empties the form.
    pub fn edit(&mut self) -> (action: Action)
        ensures
            final(self)@ == old(self)@.replaced(old(self)@.edited()),
            action@ == old(self)@.edit(),
    {
        if self.list.index < self.tasks.len() {
            let mut task = self.tasks[self.list.index].copy();
            task.title = self.form.title.text.clone();
            task.notes = self.form.notes.text.clone();
            task.due = self.form.due.text.clone();
            self.replace(task)
        } else {
            self.form.close();
            self.form.all_clear();
            Action::Idle
        }
    }

    /// Marks the selected task as done, asks for the service to do the same,
    /// and closes and empties the form.
    pub fn complete(&mut self) -> (action: Action)
        ensures
            final(self)@ == old(self)@.replaced(old(self)@.completed()),
            action@ == old(self)@.complete(),
    {
        if self.list.index < self.tasks.len() {
            let mut task = self.tasks[self.list.index].copy();
            task.status = owned(COMPLETED);
            self.replace(task)
        } else {
            self.form.close();
            self.form.all_clear();
            Action::Idle
        }
    }

    /// Asks for the selected task to be deleted. The list stays as it is
    /// until it is read again.
    pub fn delete(&self) -> (action: Action)
        ensures
            action@ == self@.delete(),
    {
        if self.list.index < self.tasks.len() {
            let url = Request::item(BASE_API, self.tasks[self.list.index].id.as_str());
            Action::Tasks(Request::new(Method::Delete, url, Body::Empty))
        } else {
            Action::Idle
        }
    }

    /// Opens the form to edit the selected task.
    fn begin_edit(&mut self)
        ensures
            final(self)@ == old(self)@.begin_edit(),
            old(self)@.wf() && old(self)@.closed() ==> final(self)@.wf(),
    {
        if self.list.index < self.tasks.len() {
            self.form.open(Mode::Edit);
            let item = &self.tasks[self.list.index];
            self.form.fill(item.title.as_str(), item.notes.as_str(), item.due.as_str());
        }
    }

    /// Handles one key and says what is left for the caller to do.
    pub fn key_binding(&mut self, key: Key) -> (action: Action)
        ensures
            final(self)@ == old(self)@.key_binding(key),
            action@ == old(self)@.action(key),
            old(self)@.wf() ==> final(self)@.wf(),
            old(self)@.help.active && key != Key::Esc ==> *final(self) == *old(self),
    {
        if self.help.popup.active {
            match key {
                Key::Esc => {
                    self.help.popup.active = false;
                },
                _ => {},
            }
            Action::Idle
        } else if self.form.popup.active {
            match key {
                Key::Tab => {
                    self.form.advance_focus();
                    Action::Idle
                },
                Key::Esc => {
                    self.form.close();
                    Action::Idle
                },
                Key::F(12) => match self.form.mode {
                    Mode::New => self.add(),
                    Mode::Edit => self.edit(),
                },
                _ => {
                    self.form.key_binding(key);
                    Action::Idle
                },
            }
        } else {
            match key {
                Key::F(1) => {
                    self.help.popup.active = true;
                    Action::Idle
                },
                Key::F(2) => {
                    self.form.open(Mode::New);
                    Action::Idle
                },
                Key::F(3) => {
                    self.begin_edit();
                    Action::Idle
                },
                Key::Enter => self.open(),
                Key::Char('C') => self.complete(),
                Key::Char('D') => self.delete(),
                Key::Esc => Action::Leave,
                _ => {
                    self.list.key_binding(key);
                    Action::Idle
                },
            }
        }
    }
}

} // verus!
