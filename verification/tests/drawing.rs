use dashboard::app::{App, TabMode};
use dashboard::bookmark::form::{Form as BookmarkForm, Mode as BookmarkMode};
use dashboard::bookmark::Bookmark;
use dashboard::google::authentication::TokenInfo;
use dashboard::key::Key;
use dashboard::schedule::form::{Form as ScheduleForm, Mode as ScheduleMode};
use dashboard::task::form::{Form as TaskForm, Mode as TaskMode};
use dashboard::ui::checkbox::{CheckBox, CheckBoxes};
use dashboard::ui::help::Help;
use dashboard::ui::layout::{Area, Constraint, Direction, Flex, Layout, Position};
use dashboard::ui::popup::{Popup, PERCENT};

fn area(x: u16, y: u16, width: u16, height: u16) -> Area {
    Area { x, y, width, height }
}

fn app() -> App {
    let token = TokenInfo { access_token: "a".to_string(), refresh_token: "r".to_string() };
    let bookmarks = vec![
        Bookmark { title: "a".to_string(), url: "http://a".to_string() },
        Bookmark { title: "b".to_string(), url: "http://b".to_string() },
    ];
    App::new(token, bookmarks, Vec::new(), Vec::new(), vec!["vm1".to_string()])
}

#[test]
fn popup_takes_four_fifths_of_the_frame_in_its_middle() {
    let popup = Popup::new("Help");
    assert_eq!(popup.render(area(0, 0, 100, 50), [80, 80]), area(10, 5, 80, 40));
    assert_eq!(popup.render(area(0, 0, 100, 50), [50, 20]), area(25, 20, 50, 10));
}

#[test]
fn help_is_placed_only_while_it_is_open() {
    let mut help = Help::new("Help");
    assert_eq!(help.render(area(0, 0, 100, 50)), None);
    help.popup.active = true;
    let placed = help.render(area(0, 0, 100, 50)).unwrap();
    assert_eq!(placed.popup, area(10, 5, 80, 40));
    assert_eq!(placed.text, area(12, 6, 76, 38));
}

#[test]
fn bookmark_form_places_its_fields_below_one_another() {
    let mut form = BookmarkForm::new();
    assert_eq!(form.render(area(0, 0, 100, 50)), None);
    form.open(BookmarkMode::New);
    form.key_binding(Key::Char('a'));
    form.key_binding(Key::Char('b'));
    let placed = form.render(area(0, 0, 100, 50)).unwrap();
    assert_eq!(placed.popup, area(10, 5, 80, 40));
    assert_eq!(placed.title_pane, area(11, 6, 78, 3));
    assert_eq!(placed.title, area(12, 7, 76, 1));
    assert_eq!(placed.url_pane, area(11, 9, 78, 3));
    assert_eq!(placed.url, area(12, 10, 76, 1));
    assert_eq!(placed.cursor, Some(Position { x: 14, y: 7 }));
    form.advance_focus();
    let placed = form.render(area(0, 0, 100, 50)).unwrap();
    assert_eq!(placed.cursor, Some(Position { x: 12, y: 10 }));
}

#[test]
fn schedule_form_gives_the_description_the_rest() {
    let mut form = ScheduleForm::new();
    form.open(ScheduleMode::New);
    let placed = form.render(area(0, 0, 100, 50)).unwrap();
    assert_eq!(placed.summary_pane, area(11, 6, 78, 3));
    assert_eq!(placed.start_pane, area(11, 9, 78, 3));
    assert_eq!(placed.end_pane, area(11, 12, 78, 3));
    assert_eq!(placed.description_pane, area(11, 15, 78, 29));
    assert_eq!(placed.description, area(12, 16, 76, 27));
    assert_eq!(placed.cursor, Some(Position { x: 12, y: 7 }));
}

#[test]
fn task_form_gives_the_notes_the_rest() {
    let mut form = TaskForm::new();
    form.open(TaskMode::New);
    form.advance_focus();
    form.advance_focus();
    let placed = form.render(area(0, 0, 100, 50)).unwrap();
    assert_eq!(placed.title_pane, area(11, 6, 78, 3));
    assert_eq!(placed.notes_pane, area(11, 9, 78, 32));
    assert_eq!(placed.due_pane, area(11, 41, 78, 3));
    assert_eq!(placed.due, area(12, 42, 76, 1));
    assert_eq!(placed.cursor, Some(Position { x: 12, y: 42 }));
}

#[test]
fn layout_gives_the_footer_the_last_line() {
    let regions = App::layout(area(0, 0, 100, 50));
    assert_eq!(regions[0], area(0, 49, 100, 1));
    assert_eq!(regions[1], area(0, 0, 20, 49));
    assert_eq!(regions[2], area(20, 0, 80, 49));
}

#[test]
fn draw_places_every_part_and_redraws_the_rows() {
    let mut app = app();
    app.run(Key::F(5));
    app.run(Key::Down);
    let screen = app.draw(area(0, 0, 100, 50));
    assert_eq!(screen.footer, area(0, 49, 100, 1));
    assert_eq!(screen.bookmarks, area(0, 0, 20, 49));
    assert_eq!(screen.bookmark_rows, area(1, 1, 18, 47));
    assert_eq!(screen.tabs, area(20, 0, 80, 3));
    assert_eq!(screen.tab, area(20, 3, 80, 46));
    assert_eq!(screen.tab_rows, area(21, 4, 78, 44));
    assert_eq!(app.bookmarks.list.list, vec!["a".to_string(), "> b".to_string()]);
}

#[test]
fn tab_draws_the_selected_controller_only() {
    let mut app = app();
    app.selected_tab = TabMode::VirtualBox;
    app.virtualbox.machines.push("vm2".to_string());
    let (tabs, tab, rows) = app.tab(area(20, 0, 80, 49));
    assert_eq!(tabs, area(20, 0, 80, 3));
    assert_eq!(tab, area(20, 3, 80, 46));
    assert_eq!(rows, area(21, 4, 78, 44));
    assert_eq!(app.virtualbox.select_list.list, vec!["> vm1".to_string(), "vm2".to_string()]);
}

#[test]
fn footer_names_the_keys() {
    assert_eq!(
        App::footer(),
        "  Quit: Esc, Open/Close Help APP: F1, Bookmark: F5, Tab APP: F6, Move Tab APP: Tab"
    );
}

#[test]
fn popup_places_only_what_is_open() {
    let mut app = app();
    let overlays = app.popup(area(0, 0, 100, 50));
    assert_eq!(overlays.bookmark_help, None);
    assert_eq!(overlays.bookmark_form, None);
    assert_eq!(overlays.schedule_help, None);
    assert_eq!(overlays.schedule_form, None);
    assert_eq!(overlays.task_help, None);
    assert_eq!(overlays.task_form, None);
    assert_eq!(overlays.virtualbox_help, None);
    app.run(Key::F(2));
    app.run(Key::F(5));
    app.run(Key::F(1));
    let overlays = app.popup(area(0, 0, 100, 50));
    assert_eq!(overlays.bookmark_help.unwrap().popup, area(10, 5, 80, 40));
    assert_eq!(overlays.bookmark_form, None);
    assert_eq!(overlays.schedule_form.unwrap().summary_pane, area(11, 6, 78, 3));
    assert_eq!(overlays.task_form, None);
}

#[test]
fn checkbox_has_its_sign_in_front_of_the_label() {
    let mut checkbox = CheckBox::new("one");
    assert_eq!(checkbox.label, "one");
    assert!(!checkbox.check);
    assert_eq!(checkbox.sign(), '☐');
    checkbox.checked();
    assert!(checkbox.check);
    assert_eq!(checkbox.sign(), '☑');
    let (sign, label) = checkbox.render(area(2, 3, 20, 1));
    assert_eq!(sign, area(2, 3, 3, 1));
    assert_eq!(label, area(5, 3, 17, 1));
}

#[test]
fn checkboxes_check_the_box_at_the_index() {
    let mut boxes = CheckBoxes::new();
    assert_eq!(boxes.index, 0);
    assert!(boxes.checkboxes.is_empty());
    let labels = vec!["a".to_string(), "b".to_string(), "c".to_string(), "d".to_string()];
    let placed = boxes.render(area(0, 0, 100, 10), labels.clone(), false);
    assert_eq!(
        placed,
        vec![area(0, 0, 25, 10), area(25, 0, 25, 10), area(50, 0, 25, 10), area(75, 0, 25, 10)]
    );
    let checks: Vec<bool> = boxes.checkboxes.iter().map(|c| c.check).collect();
    assert_eq!(checks, vec![true, false, false, false]);
    boxes.down();
    boxes.right();
    let placed = boxes.render(area(0, 0, 10, 100), labels, true);
    assert_eq!(placed[2], area(0, 50, 10, 25));
    let checks: Vec<bool> = boxes.checkboxes.iter().map(|c| c.check).collect();
    assert_eq!(checks, vec![false, false, true, false]);
    let labels: Vec<&str> = boxes.checkboxes.iter().map(|c| c.label.as_str()).collect();
    assert_eq!(labels, vec!["a", "b", "c", "d"]);
}

#[test]
fn checkboxes_without_boxes_keep_the_index_at_zero() {
    let mut boxes = CheckBoxes::new();
    assert!(boxes.render(area(0, 0, 10, 10), Vec::new(), true).is_empty());
    boxes.down();
    assert_eq!(boxes.index, 0);
    boxes.up();
    assert_eq!(boxes.index, 0);
    boxes.index = 4;
    boxes.up();
    assert_eq!(boxes.index, 0);
}

#[test]
fn checkboxes_move_inside_the_boxes() {
    let mut boxes = CheckBoxes::new();
    boxes.render(area(0, 0, 10, 10), vec!["a".to_string(), "b".to_string(), "c".to_string()], true);
    boxes.up();
    assert_eq!(boxes.index, 0);
    boxes.key_binding(Key::Down);
    boxes.key_binding(Key::Right);
    assert_eq!(boxes.index, 2);
    boxes.key_binding(Key::Down);
    assert_eq!(boxes.index, 2);
    boxes.key_binding(Key::Left);
    assert_eq!(boxes.index, 1);
    boxes.key_binding(Key::Up);
    assert_eq!(boxes.index, 0);
    boxes.key_binding(Key::Enter);
    assert_eq!(boxes.index, 0);
    boxes.index = 9;
    boxes.left();
    assert_eq!(boxes.index, 2);
    boxes.clear();
    assert_eq!(boxes.index, 0);
}

#[test]
fn layouts_say_what_is_asked_of_the_layout_engine() {
    let overlay = Popup::layout(Direction::Vertical, 80);
    assert_eq!(overlay.direction, Direction::Vertical);
    assert_eq!(overlay.flex, Flex::Center);
    assert_eq!(overlay.constraints, vec![Constraint::Percentage(80)]);
    assert_eq!(PERCENT, 80);

    let rows = App::rows();
    assert_eq!(rows.direction, Direction::Vertical);
    assert_eq!(rows.flex, Flex::Start);
    assert_eq!(rows.constraints, vec![Constraint::Min(0), Constraint::Length(1)]);
    let columns = App::columns();
    assert_eq!(columns.direction, Direction::Horizontal);
    assert_eq!(columns.constraints, vec![Constraint::Percentage(20), Constraint::Percentage(80)]);
    let tab_rows = App::tab_rows();
    assert_eq!(tab_rows.direction, Direction::Vertical);
    assert_eq!(tab_rows.constraints, vec![Constraint::Length(3), Constraint::Min(0)]);

    let margins = vec![Constraint::Length(1), Constraint::Min(0), Constraint::Length(1)];
    assert_eq!(BookmarkForm::columns().constraints, margins);
    assert_eq!(ScheduleForm::columns().constraints, margins);
    assert_eq!(TaskForm::columns().constraints, margins);
    assert_eq!(BookmarkForm::columns().direction, Direction::Horizontal);
    assert_eq!(
        BookmarkForm::rows().constraints,
        vec![
            Constraint::Length(1),
            Constraint::Length(3),
            Constraint::Length(3),
            Constraint::Length(1),
        ]
    );
    assert_eq!(
        ScheduleForm::rows().constraints,
        vec![
            Constraint::Length(1),
            Constraint::Length(3),
            Constraint::Length(3),
            Constraint::Length(3),
            Constraint::Min(0),
            Constraint::Length(1),
        ]
    );
    assert_eq!(
        TaskForm::rows().constraints,
        vec![
            Constraint::Length(1),
            Constraint::Length(3),
            Constraint::Min(0),
            Constraint::Length(3),
            Constraint::Length(1),
        ]
    );
    assert_eq!(TaskForm::rows().direction, Direction::Vertical);

    assert_eq!(CheckBox::layout().constraints, vec![Constraint::Length(3), Constraint::Min(0)]);
    assert_eq!(CheckBoxes::layout(3, true).constraints, vec![Constraint::Length(33); 3]);
    assert_eq!(CheckBoxes::layout(3, true).direction, Direction::Vertical);
    assert_eq!(CheckBoxes::layout(4, false).constraints, vec![Constraint::Length(25); 4]);
    assert_eq!(CheckBoxes::layout(4, false).direction, Direction::Horizontal);
    assert_eq!(CheckBoxes::layout(100, false).constraints, vec![Constraint::Length(1); 100]);
    assert_eq!(CheckBoxes::layout(101, false).constraints, vec![Constraint::Length(0); 101]);
    assert!(CheckBoxes::layout(0, false).constraints.is_empty());
}

#[test]
fn a_layout_divides_an_area_into_one_part_for_each_constraint() {
    let layout = Layout::new(Direction::Horizontal, Flex::Start);
    assert!(layout.constraints.is_empty());
    assert!(layout.split(area(0, 0, 10, 10)).is_empty());
    let layout = layout.with(Constraint::Length(4)).with(Constraint::Min(0));
    assert_eq!(layout.split(area(2, 3, 10, 5)), vec![area(2, 3, 4, 5), area(6, 3, 6, 5)]);
    let layout = Layout::new(Direction::Vertical, Flex::Center).with(Constraint::Length(2));
    assert_eq!(layout.split(area(2, 3, 10, 6)), vec![area(2, 5, 10, 2)]);
    let layout = Layout::new(Direction::Vertical, Flex::Start).with(Constraint::Length(2));
    assert_eq!(layout.split(area(2, 3, 10, 6)), vec![area(2, 3, 10, 2)]);
}
