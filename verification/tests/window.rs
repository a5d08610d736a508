use xi_term::cursor::Cursor;
use xi_term::window::Window;

fn window(start: u64, size: u16) -> Window {
    let mut w = Window::new();
    w.resize(size, start, u64::MAX);
    w.set_cursor(&Cursor { line: start, column: 0 });
    if size > 0 {
        w.set_cursor(&Cursor { line: start + u64::from(size) - 1, column: 0 });
    }
    assert_eq!(w.start(), if size > 0 { start } else { start + 1 });
    assert_eq!(w.size(), size);
    w
}

#[test]
fn new_window_is_empty_and_dirty() {
    let w = Window::new();
    assert_eq!(w.start(), 0);
    assert_eq!(w.size(), 0);
    assert_eq!(w.end(), 0);
    assert!(w.is_dirty());
}

#[test]
fn mark_clean_clears_the_flag() {
    let mut w = Window::new();
    w.mark_clean();
    assert!(!w.is_dirty());
    assert_eq!(w.start(), 0);
}

#[test]
fn cursor_below_scrolls_down_exactly() {
    let mut w = window(0, 2);
    w.mark_clean();
    w.set_cursor(&Cursor { line: 5, column: 0 });
    assert_eq!(w.start(), 4);
    assert_eq!(w.end(), 6);
    assert!(w.is_dirty());
    assert!(w.is_within_window(5));
}

#[test]
fn cursor_above_scrolls_up_exactly() {
    let mut w = window(10, 5);
    w.set_cursor(&Cursor { line: 3, column: 7 });
    assert_eq!(w.start(), 3);
    assert_eq!(w.size(), 5);
}

#[test]
fn cursor_inside_does_not_scroll() {
    let mut w = window(10, 5);
    w.mark_clean();
    w.set_cursor(&Cursor { line: 14, column: 0 });
    assert_eq!(w.start(), 10);
    assert!(!w.is_dirty());
    w.set_cursor(&Cursor { line: 10, column: 0 });
    assert_eq!(w.start(), 10);
    assert!(!w.is_dirty());
}

#[test]
fn cursor_on_the_line_after_the_window_scrolls_by_one() {
    let mut w = window(10, 5);
    w.set_cursor(&Cursor { line: 15, column: 0 });
    assert_eq!(w.start(), 11);
}

#[test]
fn resize_keeps_the_middle() {
    let mut w = window(10, 10);
    w.resize(4, 15, 100);
    assert_eq!(w.start(), 13);
    assert_eq!(w.size(), 4);
    assert!(w.is_within_window(15));

    let mut w = window(10, 10);
    w.resize(20, 15, 100);
    assert_eq!(w.start(), 5);
    assert_eq!(w.end(), 25);
}

#[test]
fn resize_to_the_same_height_changes_nothing() {
    let mut w = window(10, 10);
    w.mark_clean();
    w.resize(10, 50, 100);
    assert_eq!(w.start(), 10);
    assert_eq!(w.size(), 10);
    assert!(!w.is_dirty());
}

#[test]
fn resize_clamps_at_the_top() {
    let mut w = window(1, 2);
    w.resize(30, 2, 100);
    assert_eq!(w.start(), 0);
    assert_eq!(w.size(), 30);
}

#[test]
fn resize_aligns_with_the_last_line() {
    let mut w = window(90, 10);
    w.resize(30, 95, 100);
    assert_eq!(w.start(), 70);
    assert_eq!(w.end(), 100);

    let mut w = window(2, 4);
    w.resize(30, 3, 12);
    assert_eq!(w.start(), 0);
}

#[test]
fn resize_puts_the_cursor_on_the_nearer_edge() {
    let mut w = window(10, 20);
    w.resize(4, 10, 100);
    assert_eq!(w.start(), 10);
    assert!(w.is_within_window(10));

    let mut w = window(10, 20);
    w.resize(4, 29, 100);
    assert_eq!(w.start(), 26);
    assert!(w.is_within_window(29));
    assert!(!w.is_within_window(30));
}

#[test]
fn update_fits_without_changing_the_height() {
    let mut w = window(50, 10);
    w.update(55, 40);
    assert_eq!(w.size(), 10);
    assert_eq!(w.start(), 46);
    assert!(w.is_within_window(55));

    let mut w = window(50, 10);
    w.update(35, 40);
    assert_eq!(w.start(), 30);
}

#[test]
fn set_height_keeps_the_start() {
    let mut w = window(7, 3);
    w.set_height(9);
    assert_eq!(w.start(), 7);
    assert_eq!(w.size(), 9);
}

#[test]
fn offset_is_the_row_on_screen() {
    let w = window(10, 5);
    assert_eq!(w.offset(9), None);
    assert_eq!(w.offset(10), Some(0));
    assert_eq!(w.offset(14), Some(4));
    assert_eq!(w.offset(15), None);
    assert!(!w.is_within_window(9));
    assert!(w.is_within_window(12));
}

#[test]
fn cursor_update_replaces_the_position() {
    let mut c = Cursor::new();
    assert_eq!(c, Cursor { line: 0, column: 0 });
    c.update((3, 4));
    assert_eq!(c, Cursor { line: 3, column: 4 });
    c.update((3, 4));
    assert_eq!(c, Cursor::from((3, 4)));
    assert_eq!(Cursor::default(), Cursor::new());
}
