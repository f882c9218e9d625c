use dashboard::text::{join, pad, without_quotes};
use dashboard::ui::help::Help;
use dashboard::ui::layout::Area;
use dashboard::ui::pane::Pane;
use dashboard::ui::popup::Popup;

#[test]
fn pane_starts_inactive_with_its_title() {
    let pane = Pane::new("Bookmark");
    assert_eq!(pane.title, "Bookmark");
    assert!(!pane.active);
    assert_eq!(pane.label(), "  Bookmark  ");
}

#[test]
fn pane_render_gives_the_area_inside_the_border() {
    let pane = Pane::new("Bookmark");
    let inner = pane.render(Area { x: 3, y: 5, width: 10, height: 8 });
    assert_eq!(inner, Area { x: 4, y: 6, width: 8, height: 6 });
}

#[test]
fn pane_render_of_a_tiny_area_is_empty() {
    let pane = Pane::new("T");
    assert_eq!(
        pane.render(Area { x: 3, y: 5, width: 1, height: 0 }),
        Area { x: 4, y: 5, width: 0, height: 0 }
    );
    assert_eq!(
        pane.render(Area { x: 0, y: 0, width: 2, height: 2 }),
        Area { x: 1, y: 1, width: 0, height: 0 }
    );
}

#[test]
fn pane_render_at_the_edge_of_the_coordinates() {
    let pane = Pane::new("T");
    assert_eq!(
        pane.render(Area { x: u16::MAX, y: u16::MAX, width: 5, height: 5 }),
        Area { x: u16::MAX, y: u16::MAX, width: 3, height: 3 }
    );
}

#[test]
fn popup_starts_closed_with_its_title() {
    let popup = Popup::new("Help Bookmark");
    assert_eq!(popup.title, "Help Bookmark");
    assert!(!popup.active);
    assert_eq!(popup.label(), "  Help Bookmark  ");
}

#[test]
fn popup_text_is_two_columns_and_one_row_in() {
    let popup = Popup::new("Help");
    let inner = popup.text(Area { x: 10, y: 20, width: 30, height: 12 });
    assert_eq!(inner, Area { x: 12, y: 21, width: 26, height: 10 });
}

#[test]
fn popup_text_of_a_small_area_is_the_empty_area_at_the_origin() {
    let popup = Popup::new("Help");
    assert_eq!(
        popup.text(Area { x: 10, y: 20, width: 3, height: 12 }),
        Area { x: 0, y: 0, width: 0, height: 0 }
    );
    assert_eq!(
        popup.text(Area { x: 10, y: 20, width: 30, height: 1 }),
        Area { x: 0, y: 0, width: 0, height: 0 }
    );
    assert_eq!(
        popup.text(Area { x: 10, y: 20, width: 4, height: 2 }),
        Area { x: 12, y: 21, width: 0, height: 0 }
    );
}

#[test]
fn help_starts_closed() {
    let help = Help::new("Help Task");
    assert_eq!(help.popup.title, "Help Task");
    assert!(!help.popup.active);
}

#[test]
fn without_quotes_takes_every_quote_out() {
    assert_eq!(without_quotes("\"abc\""), "abc");
    assert_eq!(without_quotes("a\"b\"c"), "abc");
    assert_eq!(without_quotes("null"), "null");
    assert_eq!(without_quotes("\"\""), "");
    assert_eq!(without_quotes("\"a\\\"b\""), "a\\b");
    assert_eq!(without_quotes(""), "");
}

#[test]
fn join_and_pad_put_texts_together() {
    assert_eq!(join("ab", "cd"), "abcd");
    assert_eq!(join("", "x"), "x");
    assert_eq!(pad(""), "    ");
    assert_eq!(pad("URL"), "  URL  ");
}
