//! One open document: its line cache, cursor and window, and how they are
//! drawn.

use std::collections::HashMap;
use vstd::prelude::*;
use vstd::view::View as _;
use vstd::string::StringExecFns;
use crate::cache::{updated, CacheError, LineCache};
use crate::cmd::{AbsoluteMovePoint, Command, RelativeMoveDistance};
use crate::column::{click_column, clicked_column, column_for, cursor_column, saturated};
use crate::compose::{escape_control_and_add_styles, escaped, styled};
use crate::cursor::Cursor;
use crate::event::{Event, Key, MouseButton, MouseEvent, Request};
use crate::line::Line;
use crate::operation::{operation_views, OperationView, Update};
use crate::screen::{clear_line, clear_line_sequence, coordinate, goto, goto_sequence};
use crate::style::Style;
use crate::text::{decimal, decimal_length, push_decimal};
use crate::window::{fitted_start, followed_start, resized_start, Window};

verus! {

broadcast use vstd::string::group_string_axioms;

/// How a view is drawn.
#[derive(Clone, Copy, Debug, PartialEq, Eq)]
pub struct ViewConfig {
    /// Whether line numbers are shown at the left of the text.
    pub display_gutter: bool,
    /// The number of columns that the line numbers take.
    pub gutter_size: u16,
    /// The distance between tab stops.
    pub tab_size: u16,
}

impl Default for ViewConfig {
    fn default() -> (cfg: Self)
        ensures
            cfg == (ViewConfig { display_gutter: true, gutter_size: 0, tab_size: 4 }),
    {
        ViewConfig { display_gutter: true, gutter_size: 0, tab_size: 4 }
    }
}

/// The state of one open document.
///
/// The window counts lines from the first line that the cache holds; the
/// cursor counts them from the first line of the document.
#[derive(Debug)]
pub struct View {
    pub cache: LineCache,
    pub cursor: Cursor,
    pub window: Window,
    pub file: Option<String>,
    pub cfg: ViewConfig,
}

/// What is drawn for one row of the screen: the line number, if the row has
/// one and line numbers are shown, and the text after the gutter.
pub open spec fn line_frame(cfg: ViewConfig, text: Seq<char>, lineno: Option<u64>, row: u16) -> Seq<
    char,
> {
    match lineno {
        Some(number) => {
            if cfg.display_gutter {
                goto_sequence(1, (row + 1) as u16) + clear_line_sequence() + decimal(
                    (number + 1) as nat,
                ) + goto_sequence((cfg.gutter_size + 1) as u16, (row + 1) as u16) + text
            } else {
                goto_sequence(0, (row + 1) as u16) + clear_line_sequence() + text
            }
        },
        None => {
            goto_sequence((cfg.gutter_size + 1) as u16, (row + 1) as u16) + clear_line_sequence()
                + text
        },
    }
}

impl View {
    /// The cache and the window are in order, tab stops are apart, and the
    /// gutter is no wider than a line number.
    pub open spec fn wf(&self) -> bool {
        &&& self.cache.wf()
        &&& self.window.wf()
        &&& self.cfg.tab_size > 0
        &&& self.cfg.gutter_size <= 20
    }

    /// The cursor's line, counted from the first line that the cache holds;
    /// `None` while the cursor stands among the unknown lines before them.
    pub open spec fn cursor_row(&self) -> Option<u64> {
        if self.cursor.line >= self.cache.invalid_before && self.cursor.line
            - self.cache.invalid_before < u64::MAX {
            Some((self.cursor.line - self.cache.invalid_before) as u64)
        } else {
            None
        }
    }

    /// The screen column at which the text starts: the columns that the
    /// gutter takes. The cursor is placed and a click is read with the same
    /// offset.
    pub open spec fn text_offset(&self) -> nat {
        self.cfg.gutter_size as nat
    }

    /// Whether `next` is this view after its window was fitted to the cache
    /// and the cursor: the gutter is as wide as the largest line number, the
    /// window lies inside the lines held and shows the cursor's line. While
    /// the cursor stands among the unknown lines before the cache, nothing
    /// changes.
    pub open spec fn fitted(&self, next: View) -> bool {
        &&& next.cache == self.cache
        &&& next.cursor == self.cursor
        &&& next.file == self.file
        &&& next.cfg.display_gutter == self.cfg.display_gutter
        &&& next.cfg.tab_size == self.cfg.tab_size
        &&& next.window.spec_size() == self.window.spec_size()
        &&& match self.cursor_row() {
            Some(row) => {
                &&& next.cfg.gutter_size == decimal(self.cache@.height()).len()
                &&& next.window.spec_start() == fitted_start(
                    self.window.spec_start(),
                    self.window.spec_size(),
                    row as int,
                    self.cache@.lines.len() as int,
                )
                &&& next.window.spec_size() > 0 ==> next.window.contains(row as int)
            },
            None => next.cfg == self.cfg && next.window == self.window,
        }
    }

    /// Whether `next` is this view after an update script: the cache is what
    /// the script makes of it, or, when the script is refused, what it was.
    /// Nothing else changes.
    pub open spec fn cache_updated(
        &self,
        next: View,
        operations: Seq<OperationView>,
        result: Result<(), CacheError>,
    ) -> bool {
        &&& next.cursor == self.cursor
        &&& next.window == self.window
        &&& next.file == self.file
        &&& next.cfg == self.cfg
        &&& match updated(self.cache@, operations) {
            Ok(cache) => result is Ok && next.cache@ == cache,
            Err(error) => result == Err::<(), CacheError>(error) && next.cache == self.cache,
        }
    }

    /// Whether `next` is this view after the cursor moved to `line` and
    /// `column`: the window has followed the cursor's line by the least
    /// amount, unless the line lies among the unknown lines before the cache.
    pub open spec fn cursor_set(&self, next: View, line: u64, column: u64) -> bool {
        &&& next.cursor == (Cursor { line, column })
        &&& next.cache == self.cache
        &&& next.file == self.file
        &&& next.cfg == self.cfg
        &&& next.window.spec_size() == self.window.spec_size()
        &&& match next.cursor_row() {
            Some(row) => {
                &&& next.window.spec_start() == followed_start(
                    self.window.spec_start(),
                    self.window.spec_size(),
                    row as int,
                )
                &&& next.window.spec_size() > 0 ==> next.window.contains(row as int)
            },
            None => next.window == self.window,
        }
    }

    /// Whether `next` is this view after the back-end announced the tab size
    /// `tab_size`: a size from one to the width of the widest screen is
    /// taken over, any other is passed over.
    pub open spec fn config_set(&self, next: View, tab_size: Option<u64>) -> bool {
        &&& next.cache == self.cache
        &&& next.cursor == self.cursor
        &&& next.window == self.window
        &&& next.file == self.file
        &&& next.cfg.display_gutter == self.cfg.display_gutter
        &&& next.cfg.gutter_size == self.cfg.gutter_size
        &&& next.cfg.tab_size == (match tab_size {
            Some(size) => if 0 < size <= u16::MAX {
                size as u16
            } else {
                self.cfg.tab_size
            },
            None => self.cfg.tab_size,
        })
    }

    /// Whether `next` is this view after it was given the height `height`,
    /// and `request` says which lines of the document it then shows.
    ///
    /// The window keeps its middle if its height changed, is fitted to the
    /// lines held and shows the cursor's line. While the cursor stands among
    /// the unknown lines before the cache, only the height changes.
    pub open spec fn resized(&self, next: View, height: u16, request: Request) -> bool {
        &&& next.cache == self.cache
        &&& next.cursor == self.cursor
        &&& next.file == self.file
        &&& next.cfg.display_gutter == self.cfg.display_gutter
        &&& next.cfg.tab_size == self.cfg.tab_size
        &&& next.window.spec_size() == height
        &&& match self.cursor_row() {
            Some(row) => {
                &&& next.cfg.gutter_size == decimal(self.cache@.height()).len()
                &&& next.window.spec_start() == fitted_start(
                    if height == self.window.spec_size() {
                        self.window.spec_start()
                    } else {
                        resized_start(
                            self.window.spec_start(),
                            self.window.spec_size(),
                            height as int,
                            row as int,
                            self.cache@.lines.len() as int,
                        )
                    },
                    height as int,
                    row as int,
                    self.cache@.lines.len() as int,
                )
                &&& height > 0 ==> next.window.contains(row as int)
            },
            None => {
                &&& next.cfg == self.cfg
                &&& next.window.spec_start() == (if self.window.spec_start() + height
                    > u64::MAX {
                    u64::MAX - height
                } else {
                    self.window.spec_start()
                })
            },
        }
        &&& request == Request::Scroll(
            saturated((next.cache.invalid_before + next.window.spec_start()) as nat),
            saturated((next.cache.invalid_before + next.window.spec_end()) as nat),
        )
    }

    /// The line of the document and the column in it of a click on the row
    /// `x` and the column `y` of the screen, both counted from zero. A click
    /// on a row that shows no line gives `(x, y)` back.
    pub open spec fn click_location(&self, x: u64, y: u64) -> (u64, u64) {
        let index = self.window.spec_start() + x;
        if index < self.cache.lines@.len() {
            let column = if y > self.text_offset() {
                (y - self.text_offset()) as nat
            } else {
                0
            };
            (
                (self.cache.invalid_before + index) as u64,
                saturated(
                    click_column(self.cache.lines@[index].text@, column, self.cfg.tab_size as nat),
                ),
            )
        } else {
            (x, y)
        }
    }

    /// What is drawn on the row `row` of the screen: the line that the window
    /// shows there, or an empty row below the last line.
    pub open spec fn row_frame(&self, styles: Map<u64, Style>, row: u16) -> Seq<char> {
        let index = self.window.spec_start() + row;
        if index < self.cache.lines@.len() {
            let line = self.cache.lines@[index]@;
            line_frame(
                self.cfg,
                styled(escaped(line.text, self.cfg.tab_size as nat), styles, line.styles),
                Some((self.cache.invalid_before + index) as u64),
                row,
            )
        } else {
            line_frame(self.cfg, Seq::empty(), None, row)
        }
    }

    /// What is drawn on the first `rows` rows of the screen.
    pub open spec fn rows_frame(&self, styles: Map<u64, Style>, rows: u16) -> Seq<char>
        decreases rows,
    {
        if rows == 0 {
            Seq::empty()
        } else {
            self.rows_frame(styles, (rows - 1) as u16) + self.row_frame(styles, (rows - 1) as u16)
        }
    }

    /// The sequence that puts the terminal's cursor where the document's
    /// cursor is: the top left corner while the cache holds no line; nothing
    /// when the cursor's line is not held or lies above the window.
    pub open spec fn cursor_frame(&self) -> Seq<char> {
        if self.cache.lines@.len() == 0 {
            goto_sequence(1, 1)
        } else if self.cursor.line < self.cache.invalid_before {
            Seq::empty()
        } else {
            let index = self.cursor.line - self.cache.invalid_before;
            if index >= self.cache.lines@.len() || index < self.window.spec_start() {
                Seq::empty()
            } else {
                let column = column_for(
                    self.cache.lines@[index].text@,
                    self.cursor.column as nat,
                    self.cfg.tab_size as nat,
                );
                goto_sequence(
                    coordinate(self.text_offset() + column + 1),
                    coordinate((index - self.window.spec_start() + 1) as nat),
                )
            }
        }
    }

    /// Whether this is a view of a document that the back-end has not
    /// described yet: no lines, the cursor at the start, a window without
    /// height, line numbers shown, a tab stop every four columns.
    pub open spec fn is_new(&self, file: Option<String>) -> bool {
        &&& self.cache@.height() == 0
        &&& self.cursor == (Cursor { line: 0, column: 0 })
        &&& self.window.spec_start() == 0
        &&& self.window.spec_size() == 0
        &&& self.file == file
        &&& self.cfg == (ViewConfig { display_gutter: true, gutter_size: 0, tab_size: 4 })
    }

    /// A view of a document that the back-end has not described yet.
    pub fn new(file: Option<String>) -> (view: View)
        ensures
            view.wf(),
            view.is_new(file),
    {
        View {
            cache: LineCache::new(),
            cursor: Cursor::new(),
            window: Window::new(),
            file,
            cfg: ViewConfig { display_gutter: true, gutter_size: 0, tab_size: 4 },
        }
    }

    /// Applies an update to the cache. The window is left alone until the
    /// view is drawn again or the cursor moves.
    pub fn update_cache(&mut self, update: Update) -> (result: Result<(), CacheError>)
        requires
            old(self).wf(),
        ensures
            final(self).wf(),
            old(self).cache_updated(*final(self), operation_views(update.operations@), result),
    {
        self.cache.update(update)
    }

    /// Moves the cursor to where the back-end says it is, and scrolls the
    /// window by the least amount that shows its line.
    pub fn set_cursor(&mut self, line: u64, column: u64)
        requires
            old(self).wf(),
        ensures
            final(self).wf(),
            old(self).cursor_set(*final(self), line, column),
    {
        self.cursor = Cursor { line, column };
        if line >= self.cache.invalid_before && line - self.cache.invalid_before < u64::MAX {
            let row = Cursor { line: line - self.cache.invalid_before, column };
            self.window.set_cursor(&row);
        }
    }

    /// Takes over the tab size that the back-end announces, if it announces
    /// one that a screen can show.
    pub fn config_changed(&mut self, tab_size: Option<u64>)
        requires
            old(self).wf(),
        ensures
            final(self).wf(),
            old(self).config_set(*final(self), tab_size),
    {
        if let Some(size) = tab_size {
            if 0 < size && size <= u16::MAX as u64 {
                self.cfg.tab_size = size as u16;
            }
        }
    }

    /// Shows or hides the line numbers.
    pub fn toggle_line_numbers(&mut self)
        ensures
            final(self).cfg.display_gutter == !old(self).cfg.display_gutter,
            final(self).cfg.gutter_size == old(self).cfg.gutter_size,
            final(self).cfg.tab_size == old(self).cfg.tab_size,
            final(self).cache == old(self).cache,
            final(self).cursor == old(self).cursor,
            final(self).window == old(self).window,
            final(self).file == old(self).file,
    {
        self.cfg.display_gutter = !self.cfg.display_gutter;
    }

    /// Fits the window to the cache and the cursor, and the gutter to the
    /// largest line number.
    pub fn update_window(&mut self)
        requires
            old(self).wf(),
        ensures
            final(self).wf(),
            old(self).fitted(*final(self)),
    {
        if self.cursor.line < self.cache.invalid_before {
            return;
        }
        let row = self.cursor.line - self.cache.invalid_before;
        if row == u64::MAX {
            return;
        }
        let nb_lines = self.cache.lines.len() as u64;
        self.cfg.gutter_size = decimal_length(self.cache.height());
        self.window.update(row, nb_lines);
    }

    /// Gives the view the height `height`, fits its window, and says which
    /// lines of the document are now on screen.
    pub fn resize(&mut self, height: u16) -> (request: Request)
        requires
            old(self).wf(),
        ensures
            final(self).wf(),
            old(self).resized(*final(self), height, request),
    {
        if self.cursor.line >= self.cache.invalid_before && self.cursor.line
            - self.cache.invalid_before < u64::MAX {
            let row = self.cursor.line - self.cache.invalid_before;
            self.window.resize(height, row, self.cache.lines.len() as u64);
            self.update_window();
        } else {
            self.window.set_height(height);
        }
        let top = self.cache.invalid_before as u128 + self.window.start() as u128;
        let bottom = self.cache.invalid_before as u128 + self.window.end() as u128;
        Request::Scroll(Self::clamp(top), Self::clamp(bottom))
    }

    /// `value` as a line number, or the largest line number when it does not fit.
    fn clamp(value: u128) -> (clamped: u64)
        ensures
            clamped == saturated(value as nat),
    {
        if value > u64::MAX as u128 {
            u64::MAX
        } else {
            value as u64
        }
    }

    /// The line of the document and the column in it of a click on the row
    /// `x` and the column `y` of the screen, both counted from zero.
    pub fn get_click_location(&self, x: u64, y: u64) -> (location: (u64, u64))
        requires
            self.wf(),
        ensures
            location == self.click_location(x, y),
    {
        let start = self.window.start();
        if x >= u64::MAX - start || start + x >= self.cache.lines.len() as u64 {
            return (x, y);
        }
        let index = (start + x) as usize;
        let offset = self.cfg.gutter_size as u64;
        let column = if y > offset {
            y - offset
        } else {
            0
        };
        (
            self.cache.invalid_before + (start + x),
            clicked_column(self.cache.lines[index].text.as_str(), column, self.cfg.tab_size),
        )
    }

    /// The request that a click on the row `x` and the column `y` of the
    /// screen makes.
    pub fn click(&self, x: u64, y: u64) -> (request: Request)
        requires
            self.wf(),
        ensures
            request == Request::Click(self.click_location(x, y).0, self.click_location(x, y).1),
    {
        let (line, column) = self.get_click_location(x, y);
        Request::Click(line, column)
    }

    /// The request that a drag to the row `x` and the column `y` of the
    /// screen makes.
    pub fn drag(&self, x: u64, y: u64) -> (request: Request)
        requires
            self.wf(),
        ensures
            request == Request::Drag(self.click_location(x, y).0, self.click_location(x, y).1),
    {
        let (line, column) = self.get_click_location(x, y);
        Request::Drag(line, column)
    }

    /// The request that saving the document makes: the back-end is to write
    /// it to the view's file.
    pub fn save(&self) -> (request: Request)
        requires
            self.file is Some,
        ensures
            request == Request::Save(self.file->0),
    {
        match &self.file {
            Some(file) => Request::Save(file.clone()),
            None => Request::Save(String::new()),
        }
    }

    /// The request that typing the character `c` makes.
    pub fn insert(&self, c: char) -> (request: Request)
        ensures
            request == Request::Insert(c),
    {
        Request::Insert(c)
    }

    /// The request that the return key makes.
    pub fn insert_newline(&self) -> (request: Request)
        ensures
            request == Request::InsertNewline,
    {
        Request::InsertNewline
    }

    /// The request that the tab key makes.
    pub fn insert_tab(&self) -> (request: Request)
        ensures
            request == Request::InsertTab,
    {
        Request::InsertTab
    }

    /// The request that the backspace key makes.
    pub fn back(&self) -> (request: Request)
        ensures
            request == Request::Backspace,
    {
        Request::Backspace
    }

    /// The request that the delete key makes.
    pub fn delete(&self) -> (request: Request)
        ensures
            request == Request::Delete,
    {
        Request::Delete
    }

    /// The request that moves the cursor down by a page.
    pub fn page_down(&self) -> (request: Request)
        ensures
            request == Request::PageDown,
    {
        Request::PageDown
    }

    /// The request that moves the cursor up by a page.
    pub fn page_up(&self) -> (request: Request)
        ensures
            request == Request::PageUp,
    {
        Request::PageUp
    }

    /// The request that moves the cursor to the left.
    pub fn move_left(&self) -> (request: Request)
        ensures
            request == Request::Left,
    {
        Request::Left
    }

    /// The request that moves the cursor to the right.
    pub fn move_right(&self) -> (request: Request)
        ensures
            request == Request::Right,
    {
        Request::Right
    }

    /// The request that moves the cursor up.
    pub fn move_up(&self) -> (request: Request)
        ensures
            request == Request::Up,
    {
        Request::Up
    }

    /// The request that moves the cursor down.
    pub fn move_down(&self) -> (request: Request)
        ensures
            request == Request::Down,
    {
        Request::Down
    }

    /// What a key asks of the back-end, if anything.
    pub open spec fn key_request(&self, key: Key) -> Option<Request> {
        match key {
            Key::Char(c) => Some(
                if c == '\n' {
                    Request::InsertNewline
                } else if c == '\t' {
                    Request::InsertTab
                } else {
                    Request::Insert(c)
                },
            ),
            Key::Ctrl(c) => if c == 'w' {
                match self.file {
                    Some(file) => Some(Request::Save(file)),
                    None => None,
                }
            } else if c == 'h' {
                Some(Request::Backspace)
            } else {
                None
            },
            Key::Backspace => Some(Request::Backspace),
            Key::Delete => Some(Request::Delete),
            Key::Left => Some(Request::Left),
            Key::Right => Some(Request::Right),
            Key::Up => Some(Request::Up),
            Key::Down => Some(Request::Down),
            Key::Home => Some(Request::Home),
            Key::End => Some(Request::End),
            Key::PageUp => Some(Request::PageUp),
            Key::PageDown => Some(Request::PageDown),
            _ => None,
        }
    }

    /// What the mouse asks of the back-end, if anything. The terminal counts
    /// columns and rows from one; an event with a zero in it is passed over.
    pub open spec fn mouse_request(&self, event: MouseEvent) -> Option<Request> {
        match event {
            MouseEvent::Press(button, column, row) => match button {
                MouseButton::Left => if column > 0 && row > 0 {
                    let location = self.click_location((row - 1) as u64, (column - 1) as u64);
                    Some(Request::Click(location.0, location.1))
                } else {
                    None
                },
                MouseButton::WheelUp => Some(Request::Up),
                MouseButton::WheelDown => Some(Request::Down),
                _ => None,
            },
            MouseEvent::Release(_, _) => None,
            MouseEvent::Hold(column, row) => if column > 0 && row > 0 {
                let location = self.click_location((row - 1) as u64, (column - 1) as u64);
                Some(Request::Drag(location.0, location.1))
            } else {
                None
            },
        }
    }

    /// What an event of the terminal asks of the back-end, if anything.
    pub open spec fn input_request(&self, event: Event) -> Option<Request> {
        match event {
            Event::Key(key) => self.key_request(key),
            Event::Mouse(mouse_event) => self.mouse_request(mouse_event),
            Event::Unsupported(_) => None,
        }
    }

    /// Turns a mouse event into the request that it stands for.
    pub fn handle_mouse_event(&self, event: MouseEvent) -> (request: Option<Request>)
        requires
            self.wf(),
        ensures
            request == self.mouse_request(event),
    {
        match event {
            MouseEvent::Press(button, column, row) => match button {
                MouseButton::Left => {
                    if column > 0 && row > 0 {
                        Some(self.click((row - 1) as u64, (column - 1) as u64))
                    } else {
                        None
                    }
                },
                MouseButton::WheelUp => Some(Request::Up),
                MouseButton::WheelDown => Some(Request::Down),
                _ => None,
            },
            MouseEvent::Release(_, _) => None,
            MouseEvent::Hold(column, row) => {
                if column > 0 && row > 0 {
                    Some(self.drag((row - 1) as u64, (column - 1) as u64))
                } else {
                    None
                }
            },
        }
    }

    /// Turns an event of the terminal into the request that it stands for.
    pub fn handle_input(&self, event: Event) -> (request: Option<Request>)
        requires
            self.wf(),
        ensures
            request == self.input_request(event),
    {
        match event {
            Event::Key(key) => match key {
                Key::Char(c) => {
                    if c == '\n' {
                        Some(self.insert_newline())
                    } else if c == '\t' {
                        Some(self.insert_tab())
                    } else {
                        Some(self.insert(c))
                    }
                },
                Key::Ctrl(c) => {
                    if c == 'w' {
                        if self.file.is_some() {
                            Some(self.save())
                        } else {
                            None
                        }
                    } else if c == 'h' {
                        Some(self.back())
                    } else {
                        None
                    }
                },
                Key::Backspace => Some(self.back()),
                Key::Delete => Some(self.delete()),
                Key::Left => Some(self.move_left()),
                Key::Right => Some(self.move_right()),
                Key::Up => Some(self.move_up()),
                Key::Down => Some(self.move_down()),
                Key::Home => Some(Request::Home),
                Key::End => Some(Request::End),
                Key::PageUp => Some(self.page_up()),
                Key::PageDown => Some(self.page_down()),
                _ => None,
            },
            Event::Mouse(mouse_event) => self.handle_mouse_event(mouse_event),
            Event::Unsupported(_) => None,
        }
    }

    /// What a command asks of the back-end for this view, if anything. A move
    /// that takes the selection along, or that goes by words, has no request
    /// that stands for it.
    pub open spec fn command_request(&self, command: Command) -> Option<Request> {
        match command {
            Command::Back => Some(Request::Backspace),
            Command::Delete => Some(Request::Delete),
            Command::Insert(c) => Some(Request::Insert(c)),
            Command::Undo => Some(Request::Undo),
            Command::Redo => Some(Request::Redo),
            Command::SelectAll => Some(Request::SelectAll),
            Command::RelativeMove(relative_move) => if relative_move.extend {
                None
            } else {
                match relative_move.by {
                    RelativeMoveDistance::Characters => Some(
                        if relative_move.forward {
                            Request::Right
                        } else {
                            Request::Left
                        },
                    ),
                    RelativeMoveDistance::Lines => Some(
                        if relative_move.forward {
                            Request::Down
                        } else {
                            Request::Up
                        },
                    ),
                    RelativeMoveDistance::Pages => Some(
                        if relative_move.forward {
                            Request::PageDown
                        } else {
                            Request::PageUp
                        },
                    ),
                    _ => None,
                }
            },
            Command::AbsoluteMove(absolute_move) => if absolute_move.extend {
                None
            } else {
                match absolute_move.to {
                    AbsoluteMovePoint::BOL => Some(Request::Home),
                    AbsoluteMovePoint::EOL => Some(Request::End),
                    _ => None,
                }
            },
            _ => None,
        }
    }

    /// Carries out a command on this view: line numbers are shown or hidden
    /// here, any other command becomes the request that stands for it.
    pub fn handle_command(&mut self, command: Command) -> (request: Option<Request>)
        requires
            old(self).wf(),
        ensures
            final(self).wf(),
            request == old(self).command_request(command),
            final(self).cache == old(self).cache,
            final(self).cursor == old(self).cursor,
            final(self).window == old(self).window,
            final(self).file == old(self).file,
            final(self).cfg.gutter_size == old(self).cfg.gutter_size,
            final(self).cfg.tab_size == old(self).cfg.tab_size,
            final(self).cfg.display_gutter == (if command is ToggleLineNumbers {
                !old(self).cfg.display_gutter
            } else {
                old(self).cfg.display_gutter
            }),
    {
        match command {
            Command::ToggleLineNumbers => {
                self.toggle_line_numbers();
                None
            },
            Command::Back => Some(self.back()),
            Command::Delete => Some(self.delete()),
            Command::Insert(c) => Some(self.insert(c)),
            Command::Undo => Some(Request::Undo),
            Command::Redo => Some(Request::Redo),
            Command::SelectAll => Some(Request::SelectAll),
            Command::RelativeMove(relative_move) => {
                if relative_move.extend {
                    None
                } else {
                    match relative_move.by {
                        RelativeMoveDistance::Characters => {
                            if relative_move.forward {
                                Some(self.move_right())
                            } else {
                                Some(self.move_left())
                            }
                        },
                        RelativeMoveDistance::Lines => {
                            if relative_move.forward {
                                Some(self.move_down())
                            } else {
                                Some(self.move_up())
                            }
                        },
                        RelativeMoveDistance::Pages => {
                            if relative_move.forward {
                                Some(self.page_down())
                            } else {
                                Some(self.page_up())
                            }
                        },
                        _ => None,
                    }
                }
            },
            Command::AbsoluteMove(absolute_move) => {
                if absolute_move.extend {
                    None
                } else {
                    match absolute_move.to {
                        AbsoluteMovePoint::BOL => Some(Request::Home),
                        AbsoluteMovePoint::EOL => Some(Request::End),
                        _ => None,
                    }
                }
            },
            _ => None,
        }
    }

    /// What is drawn for `line` on the row `row` of the screen, counted from
    /// zero; `lineno` is the line's number in the document, counted from
    /// zero, for a row that shows a line of the document.
    pub fn render_line_str(
        &self,
        line: &Line,
        lineno: Option<u64>,
        row: u16,
        styles: &HashMap<u64, Style>,
    ) -> (frame: String)
        requires
            self.wf(),
            row < u16::MAX,
            lineno is Some ==> lineno->0 < u64::MAX,
        ensures
            frame@ == line_frame(
                self.cfg,
                styled(escaped(line@.text, self.cfg.tab_size as nat), styles@, line@.styles),
                lineno,
                row,
            ),
    {
        let text = escape_control_and_add_styles(styles, line, self.cfg.tab_size);
        let mut frame = String::new();
        match lineno {
            Some(number) => {
                if self.cfg.display_gutter {
                    frame.append(goto(1, row + 1).as_str());
                    frame.append(clear_line().as_str());
                    push_decimal(&mut frame, number + 1);
                    frame.append(goto(self.cfg.gutter_size + 1, row + 1).as_str());
                } else {
                    frame.append(goto(0, row + 1).as_str());
                    frame.append(clear_line().as_str());
                }
            },
            None => {
                frame.append(goto(self.cfg.gutter_size + 1, row + 1).as_str());
                frame.append(clear_line().as_str());
            },
        }
        frame.append(text.as_str());
        frame
    }

    /// What is drawn for the rows of the window: the lines that it shows,
    /// and empty rows below the last line.
    pub fn render_lines(&self, styles: &HashMap<u64, Style>) -> (frame: String)
        requires
            self.wf(),
        ensures
            frame@ == self.rows_frame(styles@, self.window.spec_size() as u16),
    {
        let mut frame = String::new();
        let blank = Line { text: String::new(), cursor: Vec::new(), styles: Vec::new() };
        let start = self.window.start();
        let size = self.window.size();
        let mut row: u16 = 0;
        while row < size
            invariant
                self.wf(),
                row <= size,
                start == self.window.spec_start(),
                size == self.window.spec_size(),
                blank@.text == Seq::<char>::empty(),
                blank@.styles == Seq::<crate::line::StyleRange>::empty(),
                frame@ == self.rows_frame(styles@, row),
            decreases size - row,
        {
            let index = start + row as u64;
            let drawn = if index < self.cache.lines.len() as u64 {
                self.render_line_str(
                    &self.cache.lines[index as usize],
                    Some(self.cache.invalid_before + index),
                    row,
                    styles,
                )
            } else {
                proof {
                    lemma_blank_line(styles@, self.cfg.tab_size as nat);
                }
                self.render_line_str(&blank, None, row, styles)
            };
            frame.append(drawn.as_str());
            row = row + 1;
        }
        frame
    }

    /// The sequence that puts the terminal's cursor where the document's
    /// cursor is.
    pub fn render_cursor(&self) -> (frame: String)
        requires
            self.wf(),
        ensures
            frame@ == self.cursor_frame(),
    {
        if self.cache.is_empty() {
            return goto(1, 1);
        }
        if self.cursor.line < self.cache.invalid_before {
            return String::new();
        }
        let index = self.cursor.line - self.cache.invalid_before;
        if index >= self.cache.lines.len() as u64 || index < self.window.start() {
            return String::new();
        }
        let column = cursor_column(
            self.cache.lines[index as usize].text.as_str(),
            self.cursor.column,
            self.cfg.tab_size,
        );
        let across = self.cfg.gutter_size as u128 + column as u128 + 1;
        let down = (index - self.window.start()) as u128 + 1;
        goto(Self::clamp_coordinate(across), Self::clamp_coordinate(down))
    }

    /// `value` as a screen coordinate, or the largest coordinate when it does not
    /// fit.
    fn clamp_coordinate(value: u128) -> (clamped: u16)
        ensures
            clamped == coordinate(value as nat),
    {
        if value > u16::MAX as u128 {
            u16::MAX
        } else {
            value as u16
        }
    }

    /// Fits the window, then draws the lines that it shows and places the
    /// cursor.
    pub fn render(&mut self, styles: &HashMap<u64, Style>) -> (frame: String)
        requires
            old(self).wf(),
        ensures
            final(self).wf(),
            old(self).fitted(*final(self)),
            frame@ == final(self).rows_frame(styles@, final(self).window.spec_size() as u16)
                + final(self).cursor_frame(),
    {
        self.update_window();
        let mut frame = self.render_lines(styles);
        frame.append(self.render_cursor().as_str());
        frame
    }
}

/// An empty line is drawn as nothing.
pub proof fn lemma_blank_line(styles: Map<u64, Style>, tab_width: nat)
    ensures
        styled(escaped(Seq::empty(), tab_width), styles, Seq::empty()) == Seq::<char>::empty(),
{
}

} // verus!
