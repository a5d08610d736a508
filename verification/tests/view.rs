use std::collections::HashMap;
use xi_term::cache::{CacheError, LineCache};
use xi_term::cursor::Cursor;
use xi_term::event::{Event, Key, MouseButton, MouseEvent, Request};
use xi_term::line::{Line, StyleRange};
use xi_term::operation::{Operation, OperationType, Update};
use xi_term::style::Style;
use xi_term::view::{View, ViewConfig};

fn line(text: &str) -> Line {
    Line { text: text.to_owned(), cursor: vec![], styles: vec![] }
}

fn insert(texts: &[&str]) -> Operation {
    Operation {
        operation_type: OperationType::Insert,
        nb_lines: texts.len() as u64,
        lines: texts.iter().map(|text| line(text)).collect(),
    }
}

fn op(operation_type: OperationType, nb_lines: u64) -> Operation {
    Operation { operation_type, nb_lines, lines: vec![] }
}

fn update(operations: Vec<Operation>) -> Update {
    Update { rev: None, operations, pristine: false }
}

fn view_with(texts: &[&str], height: u16) -> View {
    let mut view = View::new(Some("file.txt".to_owned()));
    assert_eq!(view.update_cache(update(vec![insert(texts)])), Ok(()));
    view.resize(height);
    view
}

#[test]
fn new_view_is_empty() {
    let view = View::new(None);
    assert_eq!(view.cache, LineCache::new());
    assert_eq!(view.cursor, Cursor::new());
    assert_eq!(view.window.start(), 0);
    assert_eq!(view.window.size(), 0);
    assert_eq!(view.file, None);
    assert_eq!(view.cfg, ViewConfig { display_gutter: true, gutter_size: 0, tab_size: 4 });
    assert_eq!(view.cfg, ViewConfig::default());
}

#[test]
fn cursor_beyond_the_cache_is_followed_through_the_unknown_lines() {
    let mut view = view_with(&["a", "b", "c"], 2);
    assert_eq!(view.window.start(), 0);
    assert_eq!(view.window.size(), 2);
    let script = update(vec![op(OperationType::Invalidate, 3), op(OperationType::Copy_, 3)]);
    assert_eq!(view.update_cache(script), Ok(()));
    assert_eq!(view.cache.invalid_before, 3);
    assert_eq!(view.window.start(), 0);
    view.set_cursor(5, 0);
    assert_eq!(view.cursor, Cursor { line: 5, column: 0 });
    assert_eq!(view.window.start(), 1);
    assert_eq!(view.cache.invalid_before + view.window.start(), 5 - 2 + 1);
}

#[test]
fn cursor_among_the_unknown_lines_leaves_the_window() {
    let mut view = view_with(&["a", "b", "c", "d"], 2);
    view.set_cursor(3, 0);
    assert_eq!(view.window.start(), 2);
    let script = update(vec![op(OperationType::Invalidate, 10), op(OperationType::Copy_, 4)]);
    assert_eq!(view.update_cache(script), Ok(()));
    view.set_cursor(4, 1);
    assert_eq!(view.cursor, Cursor { line: 4, column: 1 });
    assert_eq!(view.window.start(), 2);
}

#[test]
fn failed_update_leaves_the_view() {
    let mut view = view_with(&["a", "b"], 2);
    let result = view.update_cache(update(vec![op(OperationType::Copy_, 3)]));
    assert_eq!(result, Err(CacheError::IndexOverrun));
    assert_eq!(view.cache.lines, vec![line("a"), line("b")]);
}

#[test]
fn resize_reports_the_visible_lines() {
    let mut view = view_with(&["a", "b", "c", "d", "e", "f"], 0);
    view.set_cursor(4, 0);
    let request = view.resize(3);
    assert_eq!(view.window.size(), 3);
    assert!(view.window.is_within_window(4));
    assert_eq!(
        request,
        Request::Scroll(view.window.start(), view.window.start() + 3)
    );
    assert_eq!(view.cfg.gutter_size, 1);
}

#[test]
fn gutter_is_as_wide_as_the_line_count() {
    let mut view = View::new(None);
    let script = update(vec![insert(&["a"]), op(OperationType::Invalidate, 1233)]);
    assert_eq!(view.update_cache(script), Ok(()));
    view.update_window();
    assert_eq!(view.cfg.gutter_size, 4);
}

#[test]
fn tab_size_follows_the_back_end() {
    let mut view = View::new(None);
    view.config_changed(Some(8));
    assert_eq!(view.cfg.tab_size, 8);
    view.config_changed(None);
    assert_eq!(view.cfg.tab_size, 8);
    view.config_changed(Some(0));
    assert_eq!(view.cfg.tab_size, 8);
    view.config_changed(Some(70000));
    assert_eq!(view.cfg.tab_size, 8);
    view.toggle_line_numbers();
    assert!(!view.cfg.display_gutter);
}

#[test]
fn click_is_mapped_to_the_document() {
    let mut view = view_with(&["zero", "one", "\ttwo", "three", "four"], 2);
    let script = update(vec![op(OperationType::Invalidate, 7), op(OperationType::Copy_, 5)]);
    assert_eq!(view.update_cache(script), Ok(()));
    view.set_cursor(10, 0);
    assert_eq!(view.window.start(), 2);
    view.update_window();
    assert_eq!(view.cfg.gutter_size, 2);
    assert_eq!(view.get_click_location(0, 0), (9, 0));
    assert_eq!(view.get_click_location(0, 2), (9, 0));
    assert_eq!(view.get_click_location(0, 3), (9, 1));
    assert_eq!(view.get_click_location(0, 6), (9, 1));
    assert_eq!(view.get_click_location(0, 7), (9, 2));
    assert_eq!(view.get_click_location(1, 4), (10, 2));
    assert_eq!(view.get_click_location(1, 40), (10, 6));
    assert_eq!(view.get_click_location(3, 4), (3, 4));
    assert_eq!(view.click(1, 4), Request::Click(10, 2));
    assert_eq!(view.drag(0, 7), Request::Drag(9, 2));
    view.toggle_line_numbers();
    assert_eq!(view.get_click_location(1, 4), (10, 2));
    view.cursor = Cursor { line: 10, column: 2 };
    assert_eq!(view.render_cursor(), "\x1b[2;5H");
}

#[test]
fn keys_become_requests() {
    let view = view_with(&["a"], 1);
    assert_eq!(view.handle_input(Event::Key(Key::Char('x'))), Some(Request::Insert('x')));
    assert_eq!(view.handle_input(Event::Key(Key::Char('\n'))), Some(Request::InsertNewline));
    assert_eq!(view.handle_input(Event::Key(Key::Char('\t'))), Some(Request::InsertTab));
    assert_eq!(
        view.handle_input(Event::Key(Key::Ctrl('w'))),
        Some(Request::Save("file.txt".to_owned()))
    );
    assert_eq!(view.handle_input(Event::Key(Key::Ctrl('h'))), Some(Request::Backspace));
    assert_eq!(view.handle_input(Event::Key(Key::Ctrl('q'))), None);
    assert_eq!(view.handle_input(Event::Key(Key::Backspace)), Some(Request::Backspace));
    assert_eq!(view.handle_input(Event::Key(Key::Delete)), Some(Request::Delete));
    assert_eq!(view.handle_input(Event::Key(Key::Left)), Some(Request::Left));
    assert_eq!(view.handle_input(Event::Key(Key::Right)), Some(Request::Right));
    assert_eq!(view.handle_input(Event::Key(Key::Up)), Some(Request::Up));
    assert_eq!(view.handle_input(Event::Key(Key::Down)), Some(Request::Down));
    assert_eq!(view.handle_input(Event::Key(Key::Home)), Some(Request::Home));
    assert_eq!(view.handle_input(Event::Key(Key::End)), Some(Request::End));
    assert_eq!(view.handle_input(Event::Key(Key::PageUp)), Some(Request::PageUp));
    assert_eq!(view.handle_input(Event::Key(Key::PageDown)), Some(Request::PageDown));
    assert_eq!(view.handle_input(Event::Key(Key::F(1))), None);
    assert_eq!(view.handle_input(Event::Unsupported(vec![27, 91])), None);
    let unnamed = View::new(None);
    assert_eq!(unnamed.handle_input(Event::Key(Key::Ctrl('w'))), None);
}

#[test]
fn mouse_becomes_requests() {
    let mut view = view_with(&["hello", "world"], 2);
    view.update_window();
    assert_eq!(view.cfg.gutter_size, 1);
    let press = |button, column, row| Event::Mouse(MouseEvent::Press(button, column, row));
    assert_eq!(view.handle_input(press(MouseButton::Left, 4, 2)), Some(Request::Click(1, 2)));
    assert_eq!(view.handle_input(press(MouseButton::Left, 1, 1)), Some(Request::Click(0, 0)));
    assert_eq!(view.handle_input(press(MouseButton::Left, 0, 1)), None);
    assert_eq!(view.handle_input(press(MouseButton::WheelUp, 1, 1)), Some(Request::Up));
    assert_eq!(view.handle_input(press(MouseButton::WheelDown, 1, 1)), Some(Request::Down));
    assert_eq!(view.handle_input(press(MouseButton::Right, 1, 1)), None);
    assert_eq!(view.handle_input(Event::Mouse(MouseEvent::Release(1, 1))), None);
    assert_eq!(
        view.handle_input(Event::Mouse(MouseEvent::Hold(3, 1))),
        Some(Request::Drag(0, 1))
    );
    assert_eq!(view.handle_mouse_event(MouseEvent::Hold(3, 0)), None);
}

#[test]
fn lines_are_drawn_with_their_numbers() {
    let mut styles = HashMap::new();
    styles.insert(
        0,
        Style { id: 0, fg_color: None, bg_color: 0, weight: 0, italic: false, underline: false },
    );
    let mut view = View::new(None);
    let styled = Line {
        text: "b\tc".to_owned(),
        cursor: vec![],
        styles: vec![StyleRange { offset: 0, length: 1, style_id: 0 }],
    };
    let script = update(vec![Operation {
        operation_type: OperationType::Insert,
        nb_lines: 2,
        lines: vec![line("a"), styled],
    }]);
    assert_eq!(view.update_cache(script), Ok(()));
    view.resize(3);
    view.set_cursor(1, 2);
    let frame = view.render(&styles);
    assert_eq!(
        frame,
        "\x1b[1;1H\x1b[2K1\x1b[1;2Ha\
         \x1b[2;1H\x1b[2K2\x1b[2;2H\x1b[7mb\x1b[0m   c\
         \x1b[3;2H\x1b[2K\
         \x1b[2;6H"
    );
    assert_eq!(view.render_cursor(), "\x1b[2;6H");
    view.toggle_line_numbers();
    assert_eq!(
        view.render_lines(&styles),
        "\x1b[1;0H\x1b[2Ka\x1b[2;0H\x1b[2K\x1b[7mb\x1b[0m   c\x1b[3;2H\x1b[2K"
    );
}

#[test]
fn cursor_of_an_empty_view_is_in_the_corner() {
    let view = View::new(None);
    assert_eq!(view.render_cursor(), "\x1b[1;1H");
    assert_eq!(view.render_cursor(), format!("{}", termion::cursor::Goto(1, 1)));
    assert_eq!(view.render_lines(&HashMap::new()), "");
}

#[test]
fn cursor_outside_the_held_lines_is_not_drawn() {
    let mut view = view_with(&["a", "b", "c"], 2);
    view.cursor = Cursor { line: 7, column: 0 };
    assert_eq!(view.render_cursor(), "");
    view.set_cursor(2, 0);
    assert_eq!(view.window.start(), 1);
    view.cursor = Cursor { line: 0, column: 0 };
    assert_eq!(view.render_cursor(), "");
}

#[test]
fn simple_requests() {
    let view = View::new(Some("f".to_owned()));
    assert_eq!(view.save(), Request::Save("f".to_owned()));
    assert_eq!(view.insert('q'), Request::Insert('q'));
    assert_eq!(view.insert_newline(), Request::InsertNewline);
    assert_eq!(view.insert_tab(), Request::InsertTab);
    assert_eq!(view.back(), Request::Backspace);
    assert_eq!(view.delete(), Request::Delete);
    assert_eq!(view.page_down(), Request::PageDown);
    assert_eq!(view.page_up(), Request::PageUp);
    assert_eq!(view.move_left(), Request::Left);
    assert_eq!(view.move_right(), Request::Right);
    assert_eq!(view.move_up(), Request::Up);
    assert_eq!(view.move_down(), Request::Down);
}
