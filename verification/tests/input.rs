use dashboard::key::Key;
use dashboard::ui::input::Input;
use dashboard::ui::layout::{Area, Position};

fn typed(text: &str) -> Input {
    let mut input = Input::new();
    for c in text.chars() {
        input.input(c);
    }
    input
}

#[test]
fn new_input_is_empty_and_inactive() {
    let input = Input::new();
    assert_eq!(input.index, 0);
    assert_eq!(input.text, "");
    assert!(!input.active);
}

#[test]
fn input_inserts_at_the_cursor_and_advances() {
    let mut input = typed("ac");
    assert_eq!(input.index, 2);
    input.left();
    assert_eq!(input.index, 1);
    input.input('b');
    assert_eq!(input.text, "abc");
    assert_eq!(input.index, 2);
}

#[test]
fn input_counts_characters_not_bytes() {
    let mut input = typed("日本");
    assert_eq!(input.index, 2);
    input.left();
    input.input('の');
    assert_eq!(input.text, "日の本");
    assert_eq!(input.index, 2);
    input.delete();
    assert_eq!(input.text, "日本");
    assert_eq!(input.index, 1);
}

#[test]
fn input_with_the_cursor_past_the_end_appends() {
    let mut input = typed("ab");
    input.index = 7;
    input.input('c');
    assert_eq!(input.text, "abc");
    assert_eq!(input.index, 3);
}

#[test]
fn right_stops_at_the_end() {
    let mut input = typed("ab");
    input.right();
    assert_eq!(input.index, 2);
    input.index = 0;
    input.right();
    assert_eq!(input.index, 1);
    input.index = usize::MAX;
    input.right();
    assert_eq!(input.index, 2);
}

#[test]
fn left_stops_at_the_start() {
    let mut input = typed("ab");
    input.left();
    input.left();
    assert_eq!(input.index, 0);
    input.left();
    assert_eq!(input.index, 0);
    input.index = 9;
    input.left();
    assert_eq!(input.index, 2);
}

#[test]
fn delete_removes_the_character_left_of_the_cursor() {
    let mut input = typed("abc");
    input.left();
    input.delete();
    assert_eq!(input.text, "ac");
    assert_eq!(input.index, 1);
    input.delete();
    assert_eq!(input.text, "c");
    assert_eq!(input.index, 0);
}

#[test]
fn delete_at_the_start_does_nothing() {
    let mut input = typed("abc");
    input.index = 0;
    input.delete();
    assert_eq!(input.text, "abc");
    assert_eq!(input.index, 0);
}

#[test]
fn delete_with_the_cursor_past_the_end_keeps_the_text() {
    let mut input = typed("abc");
    input.index = 5;
    input.delete();
    assert_eq!(input.text, "abc");
    assert_eq!(input.index, 3);
    input.index = 4;
    input.delete();
    assert_eq!(input.text, "abc");
    assert_eq!(input.index, 3);
}

#[test]
fn clear_empties_the_field_and_keeps_the_focus() {
    let mut input = typed("abc");
    input.active = true;
    input.clear();
    assert_eq!(input.text, "");
    assert_eq!(input.index, 0);
    assert!(input.active);
}

#[test]
fn key_binding_maps_keys_to_operations() {
    let mut input = Input::new();
    input.key_binding(Key::Char('a'));
    input.key_binding(Key::Char('b'));
    assert_eq!(input.text, "ab");
    input.key_binding(Key::Left);
    assert_eq!(input.index, 1);
    input.key_binding(Key::Right);
    assert_eq!(input.index, 2);
    input.key_binding(Key::Backspace);
    assert_eq!(input.text, "a");
    assert_eq!(input.index, 1);
}

#[test]
fn key_binding_ignores_other_keys() {
    let mut input = typed("ab");
    for key in [Key::Up, Key::Down, Key::Enter, Key::Esc, Key::Tab, Key::F(2), Key::Other] {
        input.key_binding(key);
        assert_eq!(input.text, "ab");
        assert_eq!(input.index, 2);
        assert!(!input.active);
    }
}

#[test]
fn render_places_the_cursor_of_an_active_field() {
    let mut input = typed("abc");
    let area = Area { x: 10, y: 4, width: 20, height: 1 };
    assert_eq!(input.render(area), None);
    input.active = true;
    assert_eq!(input.render(area), Some(Position { x: 13, y: 4 }));
}

#[test]
fn render_holds_the_cursor_at_the_last_column() {
    let mut input = Input::new();
    input.active = true;
    input.index = 70000;
    let area = Area { x: 10, y: 4, width: 20, height: 1 };
    assert_eq!(input.render(area), Some(Position { x: u16::MAX, y: 4 }));
    input.index = 65525;
    assert_eq!(input.render(area), Some(Position { x: 65535, y: 4 }));
    input.index = 65524;
    assert_eq!(input.render(area), Some(Position { x: 65534, y: 4 }));
}

/// The operations written out with the standard library's own string
/// functions, to hold the field against.
struct Plain {
    index: usize,
    text: String,
}

impl Plain {
    fn input(&mut self, c: char) {
        let at = self.text.char_indices().map(|(i, _)| i).nth(self.index).unwrap_or(self.text.len());
        self.text.insert(at, c);
        self.right();
    }

    fn right(&mut self) {
        self.index = self.index.saturating_add(1).clamp(0, self.text.chars().count());
    }

    fn left(&mut self) {
        self.index = self.index.saturating_sub(1).clamp(0, self.text.chars().count());
    }

    fn delete(&mut self) {
        if self.index != 0 {
            let before = self.text.chars().take(self.index - 1);
            let after = self.text.chars().skip(self.index);
            self.text = before.chain(after).collect();
            self.left();
        }
    }
}

#[test]
fn every_operation_agrees_with_the_standard_string_functions() {
    let texts = ["", "a", "ab", "abc", "日本語", "aé漢🦀z", "  ", "\"q\""];
    let keys = [Key::Char('x'), Key::Char('語'), Key::Left, Key::Right, Key::Backspace, Key::Enter];
    for text in texts {
        let count = text.chars().count();
        for index in (0..=count + 2).chain([usize::MAX - 1, usize::MAX]) {
            for key in keys {
                let mut input = Input::new();
                input.text = text.to_string();
                input.index = index;
                input.active = true;
                let mut plain = Plain { index, text: text.to_string() };
                input.key_binding(key);
                match key {
                    Key::Char(c) => plain.input(c),
                    Key::Left => plain.left(),
                    Key::Right => plain.right(),
                    Key::Backspace => plain.delete(),
                    _ => {}
                }
                assert_eq!(input.text, plain.text, "{:?} at {} after {:?}", text, index, key);
                assert_eq!(input.index, plain.index, "{:?} at {} after {:?}", text, index, key);
                assert!(input.active);
            }
        }
    }
}
