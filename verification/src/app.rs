//! The router: which controller owns the keyboard, and how a key moves that
//! ownership.

use vstd::prelude::*;
use crate::action::{Action, ActionView};
use crate::bookmark::form::Placement as BookmarkForm;
use crate::bookmark::{Bookmark, Bookmarks, BookmarksView};
use crate::google::authentication::{TokenInfo, TokenInfoView};
use crate::key::Key;
use crate::schedule::form::Placement as ScheduleForm;
use crate::schedule::{Schedule, Schedules, SchedulesView};
use crate::task::form::Placement as TaskForm;
use crate::task::{Task, Tasks, TasksView};
use crate::text::owned;
use crate::ui::help::Placement as Help;
use crate::ui::layout::{Area, Constraint, Direction, Flex, Layout, LayoutView};
use crate::virtualbox::{VirtualBox, VirtualBoxView};

verus! {

/// The line at the bottom of the screen: the keys of the router.
pub const FOOTER: &'static str =
    "  Quit: Esc, Open/Close Help APP: F1, Bookmark: F5, Tab APP: F6, Move Tab APP: Tab";

/// Which side of the screen has the keyboard: the bookmarks on the left, or
/// the tabs on the right.
#[derive(Clone, Copy, Debug, PartialEq, Eq, Structural)]
pub enum WindowMode {
    Bookmark,
    Tab,
}

/// Which tab is shown on the right.
#[derive(Clone, Copy, Debug, PartialEq, Eq, Structural)]
pub enum TabMode {
    Schedule,
    Tasks,
    VirtualBox,
}

/// The four controllers.
#[derive(Clone, Copy, Debug, PartialEq, Eq, Structural)]
pub enum Controller {
    Bookmarks,
    Schedules,
    Tasks,
    VirtualBox,
}

/// The controller that owns the keyboard in a given state of the router.
pub open spec fn active(window_mode: WindowMode, tab: TabMode) -> Controller {
    match window_mode {
        WindowMode::Bookmark => Controller::Bookmarks,
        WindowMode::Tab => match tab {
            TabMode::Schedule => Controller::Schedules,
            TabMode::Tasks => Controller::Tasks,
            TabMode::VirtualBox => Controller::VirtualBox,
        },
    }
}

impl TabMode {
    /// The place of the tab in the row of tabs, from the left.
    pub open spec fn position(self) -> usize {
        match self {
            TabMode::Schedule => 0,
            TabMode::Tasks => 1,
            TabMode::VirtualBox => 2,
        }
    }

    /// The tab that the Tab key moves on to: the next to the right, and the
    /// first after the last.
    pub open spec fn following(self) -> TabMode {
        match self {
            TabMode::Schedule => TabMode::Tasks,
            TabMode::Tasks => TabMode::VirtualBox,
            TabMode::VirtualBox => TabMode::Schedule,
        }
    }

    /// The tab that the Tab key moves on to.
    pub fn next(self) -> (r: TabMode)
        ensures
            r == self.following(),
    {
        match self {
            TabMode::Schedule => TabMode::Tasks,
            TabMode::Tasks => TabMode::VirtualBox,
            TabMode::VirtualBox => TabMode::Schedule,
        }
    }
}

impl From<TabMode> for Option<usize> {
    /// The index of the tab to highlight.
    fn from(tab: TabMode) -> (r: Self) {
        match tab {
            TabMode::Schedule => Some(0),
            TabMode::Tasks => Some(1),
            TabMode::VirtualBox => Some(2),
        }
    }
}

impl vstd::std_specs::convert::FromSpecImpl<TabMode> for Option<usize> {
    open spec fn obeys_from_spec() -> bool {
        true
    }

    open spec fn from_spec(tab: TabMode) -> Option<usize> {
        Some(tab.position())
    }
}

/// The Tab key visits every tab once and is back where it began after three
/// presses.
pub proof fn lemma_tab_cycle(tab: TabMode)
    ensures
        tab.following() != tab,
        tab.following().following() != tab,
        tab.following().following().following() == tab,
        tab.following().position() == (tab.position() + 1) % 3,
{
}

/// Where the parts of the dashboard go in a frame.
#[derive(Clone, Copy, Debug, PartialEq, Eq, Structural)]
pub struct Screen {
    /// The line at the bottom that names the keys.
    pub footer: Area,
    /// The pane of the bookmarks, and the rows of the list inside it.
    pub bookmarks: Area,
    pub bookmark_rows: Area,
    /// The row of tabs.
    pub tabs: Area,
    /// The pane of the selected tab's controller, and the rows of its list
    /// inside it.
    pub tab: Area,
    pub tab_rows: Area,
}

/// Where the overlays go in a frame, in the order in which they are drawn;
/// of each only while it is open.
#[derive(Clone, Copy, Debug, PartialEq, Eq, Structural)]
pub struct Overlays {
    pub bookmark_help: Option<Help>,
    pub bookmark_form: Option<BookmarkForm>,
    pub schedule_help: Option<Help>,
    pub schedule_form: Option<ScheduleForm>,
    pub task_help: Option<Help>,
    pub task_form: Option<TaskForm>,
    pub virtualbox_help: Option<Help>,
}

/// The dashboard: the router's two modes and the four controllers. Each
/// controller owns its own list, selection and overlays; the router only
/// hands keys on and reads back whether an overlay is open.
#[derive(Debug)]
pub struct App {
    pub window_mode: WindowMode,
    pub selected_tab: TabMode,
    pub tab_labels: Vec<String>,
    pub bookmarks: Bookmarks,
    pub schedules: Schedules,
    pub tasks: Tasks,
    pub virtualbox: VirtualBox,
    pub token_info: TokenInfo,
}

/// What an [`App`] holds, as mathematical values.
pub struct AppView {
    pub window_mode: WindowMode,
    pub selected_tab: TabMode,
    pub tab_labels: Seq<Seq<char>>,
    pub bookmarks: BookmarksView,
    pub schedules: SchedulesView,
    pub tasks: TasksView,
    pub virtualbox: VirtualBoxView,
    pub token_info: TokenInfoView,
}

impl AppView {
    /// The controller that owns the keyboard.
    pub open spec fn active(self) -> Controller {
        active(self.window_mode, self.selected_tab)
    }

    /// Exactly the pane of the controller that owns the keyboard is active.
    pub open spec fn panes_synced(self) -> bool {
        &&& self.bookmarks.pane.active == (self.active() == Controller::Bookmarks)
        &&& self.schedules.pane.active == (self.active() == Controller::Schedules)
        &&& self.tasks.pane.active == (self.active() == Controller::Tasks)
        &&& self.virtualbox.pane.active == (self.active() == Controller::VirtualBox)
    }

    /// How many panes are active.
    pub open spec fn active_panes(self) -> nat {
        (if self.bookmarks.pane.active { 1nat } else { 0nat })
            + (if self.schedules.pane.active { 1nat } else { 0nat })
            + (if self.tasks.pane.active { 1nat } else { 0nat })
            + (if self.virtualbox.pane.active { 1nat } else { 0nat })
    }

    /// Every controller is well formed.
    pub open spec fn controllers_wf(self) -> bool {
        &&& self.bookmarks.wf()
        &&& self.schedules.wf()
        &&& self.tasks.wf()
        &&& self.virtualbox.wf()
    }

    /// Every controller is well formed and the panes show who owns the
    /// keyboard.
    pub open spec fn wf(self) -> bool {
        &&& self.controllers_wf()
        &&& self.panes_synced()
    }

    /// The dashboard drawn: the rows of the bookmarks and of the selected
    /// tab's controller are made anew.
    pub open spec fn draw(self) -> AppView {
        AppView { bookmarks: self.bookmarks.render(), ..self }.tab()
    }

    /// The selected tab's controller drawn.
    pub open spec fn tab(self) -> AppView {
        match self.selected_tab {
            TabMode::Schedule => AppView { schedules: self.schedules.render(), ..self },
            TabMode::Tasks => AppView { tasks: self.tasks.render(), ..self },
            TabMode::VirtualBox => AppView { virtualbox: self.virtualbox.render(), ..self },
        }
    }

    /// The window mode after `key`: F5 gives the keyboard to the bookmarks,
    /// F6 to the tabs, any other key leaves it where it is.
    pub open spec fn change_mode(self, key: Key) -> AppView {
        match key {
            Key::F(5) => AppView { window_mode: WindowMode::Bookmark, ..self },
            Key::F(6) => AppView { window_mode: WindowMode::Tab, ..self },
            _ => self,
        }
    }

    /// The panes set from the router's state, whatever they were.
    pub open spec fn active_pane(self) -> AppView {
        AppView {
            bookmarks: BookmarksView {
                pane: self.bookmarks.pane.focused(self.active() == Controller::Bookmarks),
                ..self.bookmarks
            },
            schedules: SchedulesView {
                pane: self.schedules.pane.focused(self.active() == Controller::Schedules),
                ..self.schedules
            },
            tasks: TasksView {
                pane: self.tasks.pane.focused(self.active() == Controller::Tasks),
                ..self.tasks
            },
            virtualbox: VirtualBoxView {
                pane: self.virtualbox.pane.focused(self.active() == Controller::VirtualBox),
                ..self.virtualbox
            },
            ..self
        }
    }

    /// Whether no overlay is open in the controller of the selected tab.
    pub open spec fn tab_closed(self) -> bool {
        match self.selected_tab {
            TabMode::Schedule => self.schedules.closed(),
            TabMode::Tasks => self.tasks.closed(),
            TabMode::VirtualBox => !self.virtualbox.help.active,
        }
    }

    /// Whether the help screen is open in the controller that owns the
    /// keyboard.
    pub open spec fn help_open(self) -> bool {
        match self.active() {
            Controller::Bookmarks => self.bookmarks.help.active,
            Controller::Schedules => self.schedules.help.active,
            Controller::Tasks => self.tasks.help.active,
            Controller::VirtualBox => self.virtualbox.help.active,
        }
    }

    /// Whether `key` moves on to the next tab: the Tab key does, while the
    /// tabs have the keyboard and no overlay is open in the selected one.
    pub open spec fn switches_tab(self, key: Key) -> bool {
        key == Key::Tab && self.window_mode == WindowMode::Tab && self.tab_closed()
    }

    /// The key handed to the controller that owns the keyboard. The other
    /// three do not see it.
    #[verifier::opaque]
    pub open spec fn forward(self, key: Key) -> AppView {
        match self.active() {
            Controller::Bookmarks => AppView { bookmarks: self.bookmarks.key_binding(key), ..self },
            Controller::Schedules => AppView { schedules: self.schedules.key_binding(key), ..self },
            Controller::Tasks => AppView { tasks: self.tasks.key_binding(key), ..self },
            Controller::VirtualBox => AppView {
                virtualbox: self.virtualbox.key_binding(key),
                ..self
            },
        }
    }

    /// What the controller that owns the keyboard asks for after `key`.
    #[verifier::opaque]
    pub open spec fn asked(self, key: Key) -> ActionView {
        match self.active() {
            Controller::Bookmarks => self.bookmarks.action(key),
            Controller::Schedules => self.schedules.action(key),
            Controller::Tasks => self.tasks.action(key),
            Controller::VirtualBox => self.virtualbox.action(key),
        }
    }

    /// The dashboard after one key: first the window mode follows the key,
    /// then the key either moves on to the next tab or goes to the controller
    /// that owns the keyboard, and last the panes are set anew.
    pub open spec fn run(self, key: Key) -> AppView {
        let moved = self.change_mode(key);
        if moved.switches_tab(key) {
            AppView { selected_tab: moved.selected_tab.following(), ..moved }.active_pane()
        } else {
            moved.forward(key).active_pane()
        }
    }

    /// What one key leaves for the caller to do: what the controller asked
    /// for, and to end the loop where the controller was left.
    pub open spec fn action(self, key: Key) -> ActionView {
        let moved = self.change_mode(key);
        if moved.switches_tab(key) {
            ActionView::Idle
        } else {
            match moved.asked(key) {
                ActionView::Leave => ActionView::Quit,
                asked => asked,
            }
        }
    }
}

impl View for App {
    type V = AppView;

    open spec fn view(&self) -> AppView {
        AppView {
            window_mode: self.window_mode,
            selected_tab: self.selected_tab,
            tab_labels: self.tab_labels.deep_view(),
            bookmarks: self.bookmarks@,
            schedules: self.schedules@,
            tasks: self.tasks@,
            virtualbox: self.virtualbox@,
            token_info: self.token_info@,
        }
    }
}

/// Whatever the state and the key, after the key exactly one pane is active:
/// that of the controller that owns the keyboard.
pub proof fn lemma_one_pane_active(app: AppView, key: Key)
    ensures
        app.run(key).panes_synced(),
        app.run(key).active_panes() == 1,
{
    reveal(AppView::forward);
}

/// A key changes at most the controller that owns the keyboard once the
/// window mode has followed the key: of the other three only the panes can
/// change.
pub proof fn lemma_one_controller_sees_the_key(app: AppView, key: Key)
    ensures
        ({
            let owner = app.change_mode(key).active();
            let after = app.run(key);
            &&& owner != Controller::Bookmarks ==> after.bookmarks == (BookmarksView {
                pane: after.bookmarks.pane,
                ..app.bookmarks
            })
            &&& owner != Controller::Schedules ==> after.schedules == (SchedulesView {
                pane: after.schedules.pane,
                ..app.schedules
            })
            &&& owner != Controller::Tasks ==> after.tasks == (TasksView {
                pane: after.tasks.pane,
                ..app.tasks
            })
            &&& owner != Controller::VirtualBox ==> after.virtualbox == (VirtualBoxView {
                pane: after.virtualbox.pane,
                ..app.virtualbox
            })
        }),
{
    reveal(AppView::forward);
}

/// While the help screen of the controller that owns the keyboard is open,
/// a key other than Esc changes no list, no selection and no form anywhere:
/// at most the window mode follows the key, and the panes with it.
pub proof fn lemma_help_shields_the_dashboard(app: AppView, key: Key)
    requires
        app.change_mode(key).help_open(),
        key != Key::Esc,
    ensures
        app.run(key) == app.change_mode(key).active_pane(),
        app.action(key) == ActionView::Idle,
{
    reveal(AppView::forward);
    reveal(AppView::asked);
}

/// The Tab key moves on to the next tab exactly when the tabs have the
/// keyboard and no overlay is open in the selected one; no other key, and no
/// Tab key at another time, changes the selected tab.
pub proof fn lemma_tab_switch(app: AppView, key: Key)
    ensures
        app.run(key).selected_tab == (if app.change_mode(key).switches_tab(key) {
            app.selected_tab.following()
        } else {
            app.selected_tab
        }),
{
    reveal(AppView::forward);
}

impl App {
    /// The dashboard over what was loaded: the tabs have the keyboard, the
    /// schedules are shown.
    pub fn new(
        token_info: TokenInfo,
        bookmarks: Vec<Bookmark>,
        schedules: Vec<Schedule>,
        tasks: Vec<Task>,
        machines: Vec<String>,
    ) -> (r: Self)
        ensures
            r@.window_mode == WindowMode::Tab,
            r@.selected_tab == TabMode::Schedule,
            r@.tab_labels == seq!["Schedule"@, "Task"@, "VirtualBox"@],
            r@.bookmarks == BookmarksView::new(bookmarks.deep_view()),
            r@.schedules == (SchedulesView {
                pane: SchedulesView::new(schedules.deep_view()).pane.focused(true),
                ..SchedulesView::new(schedules.deep_view())
            }),
            r@.tasks == TasksView::new(tasks.deep_view()),
            r@.virtualbox == VirtualBoxView::new(machines.deep_view()),
            r@.token_info == token_info@,
            r@.wf(),
    {
        let mut tab_labels: Vec<String> = Vec::new();
        tab_labels.push(owned("Schedule"));
        tab_labels.push(owned("Task"));
        tab_labels.push(owned("VirtualBox"));
        assert(tab_labels.deep_view() =~= seq!["Schedule"@, "Task"@, "VirtualBox"@]);
        let mut r = Self {
            window_mode: WindowMode::Tab,
            selected_tab: TabMode::Schedule,
            tab_labels,
            bookmarks: Bookmarks::new(bookmarks),
            schedules: Schedules::new(schedules),
            tasks: Tasks::new(tasks),
            virtualbox: VirtualBox::new(machines),
            token_info,
        };
        r.active_pane();
        r
    }

    /// How a frame is divided downwards: one line for the footer below all
    /// the rest.
    pub fn rows() -> (r: Layout)
        ensures
            r@ == (LayoutView {
                direction: Direction::Vertical,
                flex: Flex::Start,
                constraints: seq![Constraint::Min(0), Constraint::Length(1)],
            }),
    {
        let r = Layout::new(Direction::Vertical, Flex::Start)
            .with(Constraint::Min(0))
            .with(Constraint::Length(1));
        assert(r@.constraints =~= seq![Constraint::Min(0), Constraint::Length(1)]);
        r
    }

    /// How the frame above the footer is divided across: a fifth for the
    /// bookmarks, four fifths for the tabs.
    pub fn columns() -> (r: Layout)
        ensures
            r@ == (LayoutView {
                direction: Direction::Horizontal,
                flex: Flex::Start,
                constraints: seq![Constraint::Percentage(20), Constraint::Percentage(80)],
            }),
    {
        let r = Layout::new(Direction::Horizontal, Flex::Start)
            .with(Constraint::Percentage(20))
            .with(Constraint::Percentage(80));
        assert(r@.constraints =~= seq![Constraint::Percentage(20), Constraint::Percentage(80)]);
        r
    }

    /// How the side of the tabs is divided downwards: three lines for the
    /// row of tabs above the selected tab's controller.
    pub fn tab_rows() -> (r: Layout)
        ensures
            r@ == (LayoutView {
                direction: Direction::Vertical,
                flex: Flex::Start,
                constraints: seq![Constraint::Length(3), Constraint::Min(0)],
            }),
    {
        let r = Layout::new(Direction::Vertical, Flex::Start)
            .with(Constraint::Length(3))
            .with(Constraint::Min(0));
        assert(r@.constraints =~= seq![Constraint::Length(3), Constraint::Min(0)]);
        r
    }

    /// The three regions of a frame: the footer, and above it the bookmarks
    /// on the left and the tabs on the right.
    pub fn layout(frame: Area) -> (r: [Area; 3])
        ensures
            r[0].spans(frame, Direction::Vertical),
            r[1].y == r[2].y,
            r[1].height == r[2].height,
            r[0].inside(frame),
            r[1].inside(frame),
            r[2].inside(frame),
    {
        let rows = Self::rows().split(frame);
        let columns = Self::columns().split(rows[0]);
        [rows[1], columns[0], columns[1]]
    }

    /// Draws the tabs into `area`: the row of tabs above the controller of
    /// the selected tab, whose rows are made anew. Returns the region of the
    /// row of tabs, that of the controller's pane, and inside it that of the
    /// controller's rows.
    pub fn tab(&mut self, area: Area) -> (r: (Area, Area, Area))
        ensures
            final(self)@ == old(self)@.tab(),
            r.0.spans(area, Direction::Vertical),
            r.1.spans(area, Direction::Vertical),
            r.0.inside(area),
            r.1.inside(area),
            r.2 == r.1.within_border(),
    {
        let rows = Self::tab_rows().split(area);
        let inner = match self.selected_tab {
            TabMode::Schedule => self.schedules.render(rows[1]),
            TabMode::Tasks => self.tasks.render(rows[1]),
            TabMode::VirtualBox => self.virtualbox.render(rows[1]),
        };
        (rows[0], rows[1], inner)
    }

    /// Draws the dashboard into `frame`: the rows of the bookmarks and of
    /// the selected tab's controller are made anew, and every part is given
    /// its region.
    pub fn draw(&mut self, frame: Area) -> (screen: Screen)
        ensures
            final(self)@ == old(self)@.draw(),
            screen.footer.spans(frame, Direction::Vertical),
            screen.footer.inside(frame),
            screen.bookmarks.inside(frame),
            screen.tabs.inside(frame),
            screen.tab.inside(frame),
            screen.tabs.x == screen.tab.x,
            screen.tabs.width == screen.tab.width,
            screen.bookmark_rows == screen.bookmarks.within_border(),
            screen.tab_rows == screen.tab.within_border(),
    {
        let regions = Self::layout(frame);
        let bookmark_rows = self.bookmarks.render(regions[1]);
        let (tabs, tab, tab_rows) = self.tab(regions[2]);
        Screen { footer: regions[0], bookmarks: regions[1], bookmark_rows, tabs, tab, tab_rows }
    }

    /// The line of the footer.
    pub fn footer() -> (line: String)
        ensures
            line@ == FOOTER@,
    {
        owned(FOOTER)
    }

    /// Where the overlays go in `frame`: of every controller the help screen
    /// and the form, each only while it is open.
    pub fn popup(&self, frame: Area) -> (o: Overlays)
        ensures
            o.bookmark_help is Some <==> self@.bookmarks.help.active,
            o.bookmark_form is Some <==> self@.bookmarks.form.popup.active,
            o.schedule_help is Some <==> self@.schedules.help.active,
            o.schedule_form is Some <==> self@.schedules.form.popup.active,
            o.task_help is Some <==> self@.tasks.help.active,
            o.task_form is Some <==> self@.tasks.form.popup.active,
            o.virtualbox_help is Some <==> self@.virtualbox.help.active,
            o.bookmark_help matches Some(p) ==> p.fits(frame),
            o.bookmark_form matches Some(p) ==> p.fits(frame, self@.bookmarks.form),
            o.schedule_help matches Some(p) ==> p.fits(frame),
            o.schedule_form matches Some(p) ==> p.fits(frame, self@.schedules.form),
            o.task_help matches Some(p) ==> p.fits(frame),
            o.task_form matches Some(p) ==> p.fits(frame, self@.tasks.form),
            o.virtualbox_help matches Some(p) ==> p.fits(frame),
    {
        Overlays {
            bookmark_help: self.bookmarks.help.render(frame),
            bookmark_form: self.bookmarks.form.render(frame),
            schedule_help: self.schedules.help.render(frame),
            schedule_form: self.schedules.form.render(frame),
            task_help: self.tasks.help.render(frame),
            task_form: self.tasks.form.render(frame),
            virtualbox_help: self.virtualbox.help.render(frame),
        }
    }

    /// Lets the window mode follow the key.
    pub fn change_mode(&mut self, key: Key)
        ensures
            final(self)@ == old(self)@.change_mode(key),
    {
        match key {
            Key::F(5) => {
                self.window_mode = WindowMode::Bookmark;
            },
            Key::F(6) => {
                self.window_mode = WindowMode::Tab;
            },
            _ => {},
        }
    }

    /// Sets the four panes from the router's state: the pane of the
    /// controller that owns the keyboard is active, the others are not.
    pub fn active_pane(&mut self)
        ensures
            final(self)@ == old(self)@.active_pane(),
            final(self)@.panes_synced(),
    {
        match self.window_mode {
            WindowMode::Bookmark => {
                self.bookmarks.pane.active = true;
                self.schedules.pane.active = false;
                self.tasks.pane.active = false;
                self.virtualbox.pane.active = false;
            },
            WindowMode::Tab => match self.selected_tab {
                TabMode::Schedule => {
                    self.bookmarks.pane.active = false;
                    self.schedules.pane.active = true;
                    self.tasks.pane.active = false;
                    self.virtualbox.pane.active = false;
                },
                TabMode::Tasks => {
                    self.bookmarks.pane.active = false;
                    self.schedules.pane.active = false;
                    self.tasks.pane.active = true;
                    self.virtualbox.pane.active = false;
                },
                TabMode::VirtualBox => {
                    self.bookmarks.pane.active = false;
                    self.schedules.pane.active = false;
                    self.tasks.pane.active = false;
                    self.virtualbox.pane.active = true;
                },
            },
        }
    }

    /// Whether no overlay is open in the controller of the selected tab.
    fn tab_closed(&self) -> (r: bool)
        ensures
            r == self@.tab_closed(),
    {
        match self.selected_tab {
            TabMode::Schedule => {
                !self.schedules.help.popup.active && !self.schedules.form.popup.active
            },
            TabMode::Tasks => !self.tasks.help.popup.active && !self.tasks.form.popup.active,
            TabMode::VirtualBox => !self.virtualbox.help.popup.active,
        }
    }

    /// Hands the key to the controller that owns the keyboard.
    fn forward(&mut self, key: Key) -> (action: Action)
        ensures
            final(self)@ == old(self)@.forward(key),
            action@ == old(self)@.asked(key),
            old(self)@.controllers_wf() ==> final(self)@.controllers_wf(),
    {
        reveal(AppView::forward);
        reveal(AppView::asked);
        match self.window_mode {
            WindowMode::Bookmark => self.bookmarks.key_binding(key),
            WindowMode::Tab => match self.selected_tab {
                TabMode::Schedule => self.schedules.key_binding(key),
                TabMode::Tasks => self.tasks.key_binding(key),
                TabMode::VirtualBox => self.virtualbox.key_binding(key),
            },
        }
    }

    /// Whether `key` moves on to the next tab.
    fn switches_tab(&self, key: Key) -> (r: bool)
        ensures
            r == self@.switches_tab(key),
    {
        match (key, self.window_mode) {
            (Key::Tab, WindowMode::Tab) => self.tab_closed(),
            _ => false,
        }
    }

    /// Takes one key through the router and says what is left for the
    /// caller to do; `Action::Quit` ends the loop.
    pub fn run(&mut self, key: Key) -> (action: Action)
        ensures
            final(self)@ == old(self)@.run(key),
            action@ == old(self)@.action(key),
            final(self)@.panes_synced(),
            old(self)@.wf() ==> final(self)@.wf(),
    {
        self.change_mode(key);
        let action = if self.switches_tab(key) {
            self.selected_tab = self.selected_tab.next();
            Action::Idle
        } else {
            self.forward(key)
        };
        self.active_pane();
        match action {
            Action::Leave => Action::Quit,
            asked => asked,
        }
    }
}

} // verus!
