use dashboard::key::Key;
use dashboard::ui::select_list::SelectList;

fn rows(items: &[&str]) -> Vec<String> {
    items.iter().map(|s| s.to_string()).collect()
}

#[test]
fn down_on_an_empty_list_stays_at_zero() {
    let mut list = SelectList::new();
    list.render(Vec::new());
    list.down();
    assert_eq!(list.index, 0);
    list.key_binding(Key::Down);
    assert_eq!(list.index, 0);
    list.up();
    assert_eq!(list.index, 0);
}

#[test]
fn render_marks_the_selected_row() {
    let mut list = SelectList::new();
    list.render(rows(&["a", "b", "c"]));
    assert_eq!(list.list, rows(&["> a", "b", "c"]));
    list.down();
    list.render(rows(&["a", "b", "c"]));
    assert_eq!(list.list, rows(&["a", "> b", "c"]));
}

#[test]
fn up_and_down_stay_inside_the_list() {
    let mut list = SelectList::new();
    list.render(rows(&["a", "b", "c"]));
    list.up();
    assert_eq!(list.index, 0);
    list.down();
    list.down();
    assert_eq!(list.index, 2);
    list.down();
    assert_eq!(list.index, 2);
    list.up();
    assert_eq!(list.index, 1);
}

#[test]
fn left_and_right_move_like_up_and_down() {
    let mut list = SelectList::new();
    list.render(rows(&["a", "b"]));
    list.right();
    assert_eq!(list.index, 1);
    list.right();
    assert_eq!(list.index, 1);
    list.left();
    assert_eq!(list.index, 0);
    list.left();
    assert_eq!(list.index, 0);
}

#[test]
fn any_sequence_of_keys_keeps_the_index_in_range() {
    let keys = [
        Key::Down, Key::Down, Key::Right, Key::Down, Key::Up, Key::Left, Key::Left, Key::Left,
        Key::Left, Key::Right, Key::Enter, Key::Char('x'), Key::Down, Key::Down, Key::Down,
    ];
    for n in 0..4usize {
        let mut list = SelectList::new();
        list.render((0..n).map(|i| i.to_string()).collect());
        for key in keys {
            list.key_binding(key);
            assert!(list.index <= n.saturating_sub(1));
        }
    }
}

#[test]
fn render_brings_the_index_back_when_the_list_shrinks() {
    let mut list = SelectList::new();
    list.render(rows(&["a", "b", "c"]));
    list.down();
    list.down();
    assert_eq!(list.index, 2);
    list.render(rows(&["a", "b"]));
    assert_eq!(list.index, 1);
    assert_eq!(list.list, rows(&["a", "> b"]));
    list.render(Vec::new());
    assert_eq!(list.index, 0);
    assert!(list.list.is_empty());
}

#[test]
fn clamp_keeps_an_index_that_is_in_range() {
    let mut list = SelectList::new();
    list.index = 1;
    list.clamp(3);
    assert_eq!(list.index, 1);
    list.index = 5;
    list.clamp(3);
    assert_eq!(list.index, 2);
    list.clamp(0);
    assert_eq!(list.index, 0);
}
