use dashboard::action::Action;
use dashboard::key::Key;
use dashboard::request::{Body, Method, Request};
use dashboard::schedule::form::Mode;
use dashboard::schedule::window::bounds;
use dashboard::schedule::{Item, Schedule, Schedules, BASE_API, TIME_ZONE};

fn schedule(id: &str, summary: &str) -> Schedule {
    Schedule {
        id: id.to_string(),
        summary: summary.to_string(),
        start: "2024-05-01T10:00:00+09:00".to_string(),
        end: "2024-05-01T11:00:00+09:00".to_string(),
        link: format!("https://calendar.example/{}", id),
        description: format!("about {}", summary),
    }
}

fn three() -> Schedules {
    Schedules::new(vec![schedule("id1", "one"), schedule("id2", "two"), schedule("id3", "three")])
}

fn ids(schedules: &Schedules) -> Vec<String> {
    schedules.schedules.iter().map(|s| s.id.clone()).collect()
}

fn request(action: Action) -> Request {
    match action {
        Action::Calendar(request) => request,
        other => panic!("unexpected action {:?}", other),
    }
}

fn press(schedules: &mut Schedules, text: &str) {
    for c in text.chars() {
        assert!(matches!(schedules.key_binding(Key::Char(c)), Action::Idle));
    }
}

fn item(id: &str) -> Item {
    Item {
        id: format!("\"{}\"", id),
        summary: Some("standup".to_string()),
        description: Some("daily".to_string()),
        start_date_time: Some("2024-05-01T10:00:00+09:00".to_string()),
        start_date: None,
        end_date_time: Some("2024-05-01T10:15:00+09:00".to_string()),
        end_date: None,
        html_link: format!("\"https://calendar.example/{}\"", id),
    }
}

#[test]
fn schedules_delete_of_the_first_of_three_keeps_the_selection() {
    let mut schedules = three();
    assert_eq!(schedules.list.index, 0);
    let sent = request(schedules.key_binding(Key::Char('D')));
    assert_eq!(sent.method, Method::Delete);
    assert_eq!(sent.url, format!("{}/id1", BASE_API));
    assert!(sent.url.ends_with("/id1"));
    assert!(sent.query.is_empty());
    assert!(matches!(sent.body, Body::Empty));
    assert_eq!(schedules.schedules.len(), 3);
    schedules.reload(vec![schedule("id2", "two"), schedule("id3", "three")]);
    assert_eq!(schedules.schedules.len(), 2);
    assert_eq!(ids(&schedules), vec!["id2".to_string(), "id3".to_string()]);
    assert_eq!(schedules.list.index, 0);
}

#[test]
fn schedules_reload_brings_the_selection_back_into_a_shorter_list() {
    let mut schedules = three();
    schedules.key_binding(Key::Down);
    schedules.key_binding(Key::Down);
    assert_eq!(schedules.list.index, 2);
    request(schedules.key_binding(Key::Char('D')));
    schedules.reload(vec![schedule("id1", "one"), schedule("id2", "two")]);
    assert_eq!(schedules.list.index, 1);
    schedules.reload(Vec::new());
    assert_eq!(schedules.list.index, 0);
    assert!(matches!(schedules.key_binding(Key::Char('D')), Action::Idle));
    assert!(matches!(schedules.key_binding(Key::Enter), Action::Idle));
}

#[test]
fn schedules_base_api_is_the_primary_calendar() {
    assert_eq!(BASE_API, "https://www.googleapis.com/calendar/v3/calendars/primary/events");
    assert_eq!(TIME_ZONE, "Asia/Tokyo");
}

#[test]
fn schedules_value_shows_the_summary_and_the_times() {
    let s = schedule("id1", "one");
    assert_eq!(s.value(), "one\n  2024-05-01T10:00:00+09:00 - 2024-05-01T11:00:00+09:00");
}

#[test]
fn schedules_new_controller_draws_its_rows() {
    let schedules = three();
    assert_eq!(schedules.pane.title, "Schedule");
    assert_eq!(schedules.help.popup.title, "Help Schedule");
    assert_eq!(schedules.list.list.len(), 3);
    assert_eq!(
        schedules.list.list[0],
        "> one\n  2024-05-01T10:00:00+09:00 - 2024-05-01T11:00:00+09:00"
    );
    assert_eq!(
        schedules.list.list[1],
        "two\n  2024-05-01T10:00:00+09:00 - 2024-05-01T11:00:00+09:00"
    );
}

#[test]
fn schedules_from_item_takes_the_quotes_off_the_id_and_the_link() {
    let s = Schedule::from_item(&item("abc"));
    assert_eq!(s.id, "abc");
    assert_eq!(s.link, "https://calendar.example/abc");
    assert_eq!(s.summary, "standup");
    assert_eq!(s.description, "daily");
    assert_eq!(s.start, "2024-05-01T10:00:00+09:00");
    assert_eq!(s.end, "2024-05-01T10:15:00+09:00");
}

#[test]
fn schedules_from_item_falls_back_to_the_day_and_to_notices() {
    let whole_day = Item {
        id: "null".to_string(),
        summary: None,
        description: None,
        start_date_time: None,
        start_date: Some("2024-05-01".to_string()),
        end_date_time: None,
        end_date: Some("2024-05-02".to_string()),
        html_link: "null".to_string(),
    };
    let s = Schedule::from_item(&whole_day);
    assert_eq!(s.id, "null");
    assert_eq!(s.link, "null");
    assert_eq!(s.summary, "No summary");
    assert_eq!(s.description, "No discription");
    assert_eq!(s.start, "2024-05-01");
    assert_eq!(s.end, "2024-05-02");
    let bare = Item {
        id: "\"x\"".to_string(),
        summary: None,
        description: None,
        start_date_time: None,
        start_date: None,
        end_date_time: None,
        end_date: None,
        html_link: "\"l\"".to_string(),
    };
    let s = Schedule::from_item(&bare);
    assert_eq!(s.start, "No start time");
    assert_eq!(s.end, "No end time");
}

#[test]
fn schedules_from_item_prefers_the_time_of_day_over_the_day() {
    let mut both = item("abc");
    both.start_date = Some("2024-05-01".to_string());
    both.end_date = Some("2024-05-01".to_string());
    let s = Schedule::from_item(&both);
    assert_eq!(s.start, "2024-05-01T10:00:00+09:00");
    assert_eq!(s.end, "2024-05-01T10:15:00+09:00");
}

#[test]
fn schedules_read_keeps_the_order_and_degrades_to_an_empty_list() {
    assert!(Schedules::read(None).is_empty());
    assert!(Schedules::read(Some(Vec::new())).is_empty());
    let read = Schedules::read(Some(vec![item("a"), item("b"), item("c")]));
    let ids: Vec<&str> = read.iter().map(|s| s.id.as_str()).collect();
    assert_eq!(ids, vec!["a", "b", "c"]);
}

#[test]
fn schedules_add_posts_the_event_of_the_form_with_the_offset() {
    let mut schedules = three();
    schedules.key_binding(Key::F(2));
    assert_eq!(schedules.form.mode, Mode::New);
    assert_eq!(schedules.form.popup.title, "Add Schedule");
    press(&mut schedules, "lunch");
    schedules.key_binding(Key::Tab);
    press(&mut schedules, "2024-05-01T12:00:00");
    schedules.key_binding(Key::Tab);
    press(&mut schedules, "2024-05-01T13:00:00");
    schedules.key_binding(Key::Tab);
    press(&mut schedules, "with D");
    let sent = request(schedules.key_binding(Key::F(12)));
    assert_eq!(sent.method, Method::Post);
    assert_eq!(sent.url, BASE_API);
    match sent.body {
        Body::Event(event) => {
            assert_eq!(event.summary, "lunch");
            assert_eq!(event.description, "with D");
            assert_eq!(event.start.date_time, "2024-05-01T12:00:00+09:00");
            assert_eq!(event.start.time_zone, "Asia/Tokyo");
            assert_eq!(event.end.date_time, "2024-05-01T13:00:00+09:00");
            assert_eq!(event.end.time_zone, "Asia/Tokyo");
        },
        other => panic!("unexpected body {:?}", other),
    }
    assert!(!schedules.form.popup.active);
    assert_eq!(schedules.form.summary.text, "");
    assert_eq!(schedules.schedules.len(), 3);
}

#[test]
fn schedules_edit_puts_the_event_of_the_form_at_the_selected_schedule() {
    let mut schedules = three();
    schedules.key_binding(Key::Down);
    schedules.key_binding(Key::F(3));
    assert_eq!(schedules.form.mode, Mode::Edit);
    assert_eq!(schedules.form.popup.title, "Edit Schedule");
    assert_eq!(schedules.form.summary.text, "two");
    assert_eq!(schedules.form.start.text, "2024-05-01T10:00:00+09:00");
    assert_eq!(schedules.form.end.text, "2024-05-01T11:00:00+09:00");
    assert_eq!(schedules.form.description.text, "about two");
    press(&mut schedules, "2");
    let sent = request(schedules.key_binding(Key::F(12)));
    assert_eq!(sent.method, Method::Put);
    assert_eq!(sent.url, format!("{}/id2", BASE_API));
    match sent.body {
        Body::Event(event) => {
            assert_eq!(event.summary, "2two");
            assert_eq!(event.description, "about two");
            assert_eq!(event.start.date_time, "2024-05-01T10:00:00+09:00");
            assert_eq!(event.end.date_time, "2024-05-01T11:00:00+09:00");
            assert_eq!(event.start.time_zone, "Asia/Tokyo");
        },
        other => panic!("unexpected body {:?}", other),
    }
    assert!(!schedules.form.popup.active);
}

#[test]
fn schedules_edit_key_on_an_empty_list_does_nothing() {
    let mut schedules = Schedules::new(Vec::new());
    assert!(matches!(schedules.key_binding(Key::F(3)), Action::Idle));
    assert!(!schedules.form.popup.active);
    assert!(matches!(schedules.edit(), Action::Idle));
}

#[test]
fn schedules_enter_opens_the_page_of_the_selected_schedule() {
    let mut schedules = three();
    schedules.key_binding(Key::Down);
    match schedules.key_binding(Key::Enter) {
        Action::Browse(url) => assert_eq!(url, "https://calendar.example/id2"),
        other => panic!("unexpected action {:?}", other),
    }
}

#[test]
fn schedules_help_takes_every_key_but_esc() {
    let mut schedules = three();
    schedules.key_binding(Key::F(1));
    assert!(schedules.help.popup.active);
    for key in [Key::Char('D'), Key::Down, Key::Enter, Key::F(2), Key::F(3), Key::F(12), Key::Tab] {
        assert!(matches!(schedules.key_binding(key), Action::Idle));
        assert!(schedules.help.popup.active);
        assert!(!schedules.form.popup.active);
        assert_eq!(schedules.list.index, 0);
    }
    assert!(matches!(schedules.key_binding(Key::Esc), Action::Idle));
    assert!(!schedules.help.popup.active);
    assert!(matches!(schedules.key_binding(Key::Esc), Action::Leave));
}

#[test]
fn schedules_the_form_takes_the_delete_key_as_a_character() {
    let mut schedules = three();
    schedules.key_binding(Key::F(2));
    assert!(matches!(schedules.key_binding(Key::Char('D')), Action::Idle));
    assert_eq!(schedules.form.summary.text, "D");
    assert!(matches!(schedules.key_binding(Key::Esc), Action::Idle));
    assert!(!schedules.form.popup.active);
}

#[test]
fn schedules_item_addresses_join_base_and_id_with_a_slash() {
    assert_eq!(Request::item("https://host/events", "abc"), "https://host/events/abc");
    assert_eq!(Request::item("", ""), "/");
}

#[test]
fn schedules_window_runs_from_today_to_the_end_of_tomorrow() {
    // 2024-05-01T00:00:00Z, nine in the morning in the calendar's zone.
    let bounds = Schedules::time_min_max(1_714_521_600);
    assert_eq!(bounds[0], "2024-05-01T00:00:00+09:00");
    assert_eq!(bounds[1], "2024-05-02T23:59:59+09:00");
    // Half past eleven at night UTC is already the next day there.
    let bounds = Schedules::time_min_max(1_714_521_600 + 23 * 3600 + 1800);
    assert_eq!(bounds[0], "2024-05-02T00:00:00+09:00");
    assert_eq!(bounds[1], "2024-05-03T23:59:59+09:00");
    // One second before midnight there.
    let bounds = Schedules::time_min_max(1_714_521_600 + 15 * 3600 - 1);
    assert_eq!(bounds[0], "2024-05-01T00:00:00+09:00");
    let bounds = Schedules::time_min_max(1_714_521_600 + 15 * 3600);
    assert_eq!(bounds[0], "2024-05-02T00:00:00+09:00");
}

#[test]
fn schedules_window_before_1970_is_computed_alike() {
    let bounds = Schedules::time_min_max(-1);
    assert_eq!(bounds[0], "1970-01-01T00:00:00+09:00");
    assert_eq!(bounds[1], "1970-01-02T23:59:59+09:00");
    let bounds = Schedules::time_min_max(-9 * 3600 - 1);
    assert_eq!(bounds[0], "1969-12-31T00:00:00+09:00");
    assert_eq!(bounds[1], "1970-01-01T23:59:59+09:00");
}

#[test]
fn schedules_window_out_of_reach_is_empty() {
    assert_eq!(Schedules::time_min_max(i64::MAX), [String::new(), String::new()]);
    assert_eq!(Schedules::time_min_max(i64::MIN), [String::new(), String::new()]);
    assert_eq!(Schedules::time_min_max(i64::MAX / 2), [String::new(), String::new()]);
}

#[test]
fn schedules_bounds_are_both_or_none() {
    assert_eq!(bounds(Some("a".to_string()), Some("b".to_string())), ["a".to_string(), "b".to_string()]);
    assert_eq!(bounds(Some("a".to_string()), None), [String::new(), String::new()]);
    assert_eq!(bounds(None, Some("b".to_string())), [String::new(), String::new()]);
    assert_eq!(bounds(None, None), [String::new(), String::new()]);
}

#[test]
fn schedules_listing_asks_for_the_window_in_order_of_start() {
    let request = Schedules::listing("2024-05-01T00:00:00+09:00", "2024-05-02T23:59:59+09:00");
    assert_eq!(request.method, Method::Get);
    assert_eq!(request.url, BASE_API);
    let query: Vec<(&str, &str)> =
        request.query.iter().map(|(k, v)| (k.as_str(), v.as_str())).collect();
    assert_eq!(
        query,
        vec![
            ("orderBy", "startTime"),
            ("singleEvents", "true"),
            ("timeMin", "2024-05-01T00:00:00+09:00"),
            ("timeMax", "2024-05-02T23:59:59+09:00"),
        ]
    );
    assert!(matches!(request.body, Body::Empty));
}

#[test]
fn schedules_window_has_texts_from_1970_to_9999() {
    let bounds = Schedules::time_min_max(86_400);
    assert_eq!(bounds[0], "1970-01-02T00:00:00+09:00");
    assert_eq!(bounds[1], "1970-01-03T23:59:59+09:00");
    let bounds = Schedules::time_min_max(253_402_300_799 - 2 * 86_400);
    assert_eq!(bounds[0], "9999-12-30T00:00:00+09:00");
    assert_eq!(bounds[1], "9999-12-31T23:59:59+09:00");
}
