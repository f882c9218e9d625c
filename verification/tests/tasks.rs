use dashboard::action::Action;
use dashboard::key::Key;
use dashboard::request::{Body, Method, Request};
use dashboard::task::form::Mode;
use dashboard::task::{Item, Task, Tasks, BASE_API, COMPLETED, TASKS_PAGE};

fn task(id: &str, title: &str) -> Task {
    Task {
        id: id.to_string(),
        title: title.to_string(),
        notes: format!("notes of {}", title),
        due: "2024-05-03T00:00:00.000Z".to_string(),
        status: "needsAction".to_string(),
    }
}

fn three() -> Tasks {
    Tasks::new(vec![task("t1", "one"), task("t2", "two"), task("t3", "three")])
}

fn request(action: Action) -> Request {
    match action {
        Action::Tasks(request) => request,
        other => panic!("unexpected action {:?}", other),
    }
}

fn press(tasks: &mut Tasks, text: &str) {
    for c in text.chars() {
        assert!(matches!(tasks.key_binding(Key::Char(c)), Action::Idle));
    }
}

#[test]
fn tasks_completing_the_selected_task_marks_it_before_the_reload() {
    let mut tasks = three();
    tasks.key_binding(Key::Down);
    let sent = request(tasks.key_binding(Key::Char('C')));
    assert_eq!(tasks.tasks[1].status, "completed");
    assert_eq!(tasks.tasks[0].status, "needsAction");
    assert_eq!(tasks.tasks[2].status, "needsAction");
    assert_eq!(sent.method, Method::Put);
    assert_eq!(sent.url, format!("{}/t2", BASE_API));
    match sent.body {
        Body::Task(body) => {
            assert_eq!(body.id, "t2");
            assert_eq!(body.title, "two");
            assert_eq!(body.notes, "notes of two");
            assert_eq!(body.due, "2024-05-03T00:00:00.000Z");
            assert_eq!(body.status, "completed");
        },
        other => panic!("unexpected body {:?}", other),
    }
    let incomplete: Vec<Task> = tasks
        .tasks
        .iter()
        .filter(|t| t.status != COMPLETED)
        .map(|t| t.copy())
        .collect();
    tasks.reload(incomplete);
    assert_eq!(tasks.tasks.len(), 2);
    assert!(tasks.tasks.iter().all(|t| t.id != "t2"));
    assert!(tasks.tasks.iter().all(|t| t.status != "completed"));
    assert_eq!(tasks.list.index, 1);
}

#[test]
fn tasks_constants_name_the_default_task_list() {
    assert_eq!(BASE_API, "https://tasks.googleapis.com/tasks/v1/lists/@default/tasks");
    assert_eq!(TASKS_PAGE, "https://calendar.google.com/calendar/u/0/r/tasks");
    assert_eq!(COMPLETED, "completed");
}

#[test]
fn tasks_value_shows_title_notes_and_due() {
    assert_eq!(task("t1", "one").value(), "one\n  notes of one\n  2024-05-03T00:00:00.000Z");
}

#[test]
fn tasks_new_controller_has_nothing_open() {
    let tasks = three();
    assert_eq!(tasks.pane.title, "Task");
    assert_eq!(tasks.help.popup.title, "Help Schedule");
    assert!(!tasks.help.popup.active);
    assert!(!tasks.form.popup.active);
    assert_eq!(tasks.list.list.len(), 3);
}

#[test]
fn tasks_from_item_takes_the_quotes_off_every_member() {
    let item = Item {
        id: "\"t9\"".to_string(),
        title: "\"say \\\"hi\\\"\"".to_string(),
        notes: "null".to_string(),
        due: "\"2024-05-03T00:00:00.000Z\"".to_string(),
        status: "\"needsAction\"".to_string(),
    };
    let t = Task::from_item(&item);
    assert_eq!(t.id, "t9");
    assert_eq!(t.title, "say \\hi\\");
    assert_eq!(t.notes, "null");
    assert_eq!(t.due, "2024-05-03T00:00:00.000Z");
    assert_eq!(t.status, "needsAction");
}

#[test]
fn tasks_read_keeps_the_order_and_degrades_to_an_empty_list() {
    assert!(Tasks::read(None).is_empty());
    let items = vec![
        Item {
            id: "\"a\"".to_string(),
            title: "\"A\"".to_string(),
            notes: "\"\"".to_string(),
            due: "null".to_string(),
            status: "\"needsAction\"".to_string(),
        },
        Item {
            id: "\"b\"".to_string(),
            title: "\"B\"".to_string(),
            notes: "\"n\"".to_string(),
            due: "null".to_string(),
            status: "\"needsAction\"".to_string(),
        },
    ];
    let read = Tasks::read(Some(items));
    assert_eq!(read.len(), 2);
    assert_eq!(read[0].id, "a");
    assert_eq!(read[0].notes, "");
    assert_eq!(read[1].id, "b");
    assert_eq!(read[1].title, "B");
}

#[test]
fn tasks_add_posts_the_draft_of_the_form() {
    let mut tasks = three();
    tasks.key_binding(Key::F(2));
    assert_eq!(tasks.form.mode, Mode::New);
    assert_eq!(tasks.form.popup.title, "Add Task");
    press(&mut tasks, "buy milk");
    tasks.key_binding(Key::Tab);
    press(&mut tasks, "2 litres");
    tasks.key_binding(Key::Tab);
    press(&mut tasks, "2024-05-04T00:00:00");
    let sent = request(tasks.key_binding(Key::F(12)));
    assert_eq!(sent.method, Method::Post);
    assert_eq!(sent.url, BASE_API);
    match sent.body {
        Body::Draft(draft) => {
            assert_eq!(draft.title, "buy milk");
            assert_eq!(draft.notes, "2 litres");
            assert_eq!(draft.due, "2024-05-04T00:00:00.000Z");
        },
        other => panic!("unexpected body {:?}", other),
    }
    assert!(!tasks.form.popup.active);
    assert_eq!(tasks.form.title.text, "");
    assert_eq!(tasks.tasks.len(), 3);
}

#[test]
fn tasks_edit_overwrites_the_selected_task_and_puts_it() {
    let mut tasks = three();
    tasks.key_binding(Key::Down);
    tasks.key_binding(Key::Down);
    tasks.key_binding(Key::F(3));
    assert_eq!(tasks.form.mode, Mode::Edit);
    assert_eq!(tasks.form.popup.title, "Edit Task");
    assert_eq!(tasks.form.title.text, "three");
    assert_eq!(tasks.form.notes.text, "notes of three");
    assert_eq!(tasks.form.due.text, "2024-05-03T00:00:00.000Z");
    press(&mut tasks, "3 ");
    let sent = request(tasks.key_binding(Key::F(12)));
    assert_eq!(sent.method, Method::Put);
    assert_eq!(sent.url, format!("{}/t3", BASE_API));
    match sent.body {
        Body::Task(body) => {
            assert_eq!(body.id, "t3");
            assert_eq!(body.title, "3 three");
            assert_eq!(body.notes, "notes of three");
            assert_eq!(body.due, "2024-05-03T00:00:00.000Z");
            assert_eq!(body.status, "needsAction");
        },
        other => panic!("unexpected body {:?}", other),
    }
    assert_eq!(tasks.tasks[2].title, "3 three");
    assert!(!tasks.form.popup.active);
}

#[test]
fn tasks_delete_asks_for_the_selected_task_to_be_deleted() {
    let mut tasks = three();
    let sent = request(tasks.key_binding(Key::Char('D')));
    assert_eq!(sent.method, Method::Delete);
    assert_eq!(sent.url, format!("{}/t1", BASE_API));
    assert!(matches!(sent.body, Body::Empty));
    assert_eq!(tasks.tasks.len(), 3);
}

#[test]
fn tasks_enter_opens_the_page_of_the_tasks() {
    let mut tasks = three();
    match tasks.key_binding(Key::Enter) {
        Action::Browse(url) => assert_eq!(url, TASKS_PAGE),
        other => panic!("unexpected action {:?}", other),
    }
}

#[test]
fn tasks_an_empty_list_asks_for_nothing() {
    let mut tasks = Tasks::new(Vec::new());
    for key in [Key::Enter, Key::Char('C'), Key::Char('D'), Key::F(3), Key::Down] {
        assert!(matches!(tasks.key_binding(key), Action::Idle));
        assert!(!tasks.form.popup.active);
        assert_eq!(tasks.list.index, 0);
    }
}

#[test]
fn tasks_help_takes_every_key_but_esc() {
    let mut tasks = three();
    tasks.key_binding(Key::F(1));
    for key in [Key::Char('C'), Key::Char('D'), Key::Down, Key::Enter, Key::F(2), Key::F(12)] {
        assert!(matches!(tasks.key_binding(key), Action::Idle));
        assert!(tasks.help.popup.active);
        assert_eq!(tasks.list.index, 0);
        assert_eq!(tasks.tasks[0].status, "needsAction");
    }
    assert!(matches!(tasks.key_binding(Key::Esc), Action::Idle));
    assert!(!tasks.help.popup.active);
}

#[test]
fn tasks_the_form_takes_the_complete_key_as_a_character() {
    let mut tasks = three();
    tasks.key_binding(Key::F(2));
    assert!(matches!(tasks.key_binding(Key::Char('C')), Action::Idle));
    assert_eq!(tasks.form.title.text, "C");
    assert_eq!(tasks.tasks[0].status, "needsAction");
}

#[test]
fn tasks_listing_asks_for_the_tasks_that_are_not_done() {
    let request = Tasks::listing();
    assert_eq!(request.method, Method::Get);
    assert_eq!(request.url, BASE_API);
    let query: Vec<(&str, &str)> =
        request.query.iter().map(|(k, v)| (k.as_str(), v.as_str())).collect();
    assert_eq!(query, vec![("showCompleted", "false")]);
    assert!(matches!(request.body, Body::Empty));
}
