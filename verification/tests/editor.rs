use xi_term::cache::CacheError;
use xi_term::cmd::{
    AbsoluteMove, AbsoluteMovePoint, Command, CommandPromptMode, RelativeMove,
    RelativeMoveDistance,
};
use xi_term::cmd::RelativeMoveDistance::{Characters, Lines, Pages, Words};
use xi_term::config::{parse_keys, KeybindingConfig};
use xi_term::cursor::Cursor;
use xi_term::editor::{Editor, ViewError};
use xi_term::event::{Action, CoreEvent, Event, Key, MouseButton, MouseEvent, Request};
use xi_term::line::Line;
use xi_term::operation::{Operation, OperationType, Update};
use xi_term::style::Style;
use xi_term::tui::{Lifecycle, Phase, Polled, Step, TerminalEvent, Tui};

fn line(text: &str) -> Line {
    Line { text: text.to_owned(), cursor: vec![], styles: vec![] }
}

fn insert(texts: &[&str]) -> Update {
    Update {
        rev: None,
        operations: vec![Operation {
            operation_type: OperationType::Insert,
            nb_lines: texts.len() as u64,
            lines: texts.iter().map(|text| line(text)).collect(),
        }],
        pristine: true,
    }
}

fn overrun() -> Update {
    Update {
        rev: None,
        operations: vec![Operation {
            operation_type: OperationType::Copy_,
            nb_lines: 1000,
            lines: vec![],
        }],
        pristine: true,
    }
}

fn update(view_id: usize, texts: &[&str]) -> CoreEvent {
    CoreEvent::Update { view_id, update: insert(texts) }
}

fn texts(editor: &Editor, view_id: usize) -> Vec<String> {
    editor.views[&view_id].cache.lines.iter().map(|line| line.text.clone()).collect()
}

fn selection() -> Style {
    Style { id: 0, fg_color: None, bg_color: 0, weight: 0, italic: false, underline: false }
}

#[test]
fn new_editor_knows_the_selection_style() {
    let editor = Editor::new(KeybindingConfig::new(String::new()));
    assert!(editor.views.is_empty());
    assert!(editor.delayed_events.is_empty());
    assert_eq!(editor.current_view, 0);
    assert_eq!(editor.size, (0, 0));
    assert_eq!(editor.styles.len(), 1);
    assert_eq!(editor.styles[&0], selection());
    assert_eq!(Style::default(), selection());
}

#[test]
fn notifications_wait_for_their_view() {
    let mut editor = Editor::new(KeybindingConfig::new(String::new()));
    assert_eq!(editor.handle_core_event(update(7, &["a", "b"])), Ok(()));
    editor.scroll_to(7, 1, 0);
    editor.config_changed(7, Some(8));
    assert_eq!(editor.handle_core_event(update(9, &["z"])), Ok(()));
    assert_eq!(editor.delayed_events.len(), 4);
    assert_eq!(editor.process_delayed_events(), vec![]);
    assert_eq!(
        editor.delayed_events,
        vec![
            update(7, &["a", "b"]),
            CoreEvent::ScrollTo { view_id: 7, line: 1, column: 0 },
            CoreEvent::ConfigChanged { view_id: 7, tab_size: Some(8) },
            update(9, &["z"]),
        ]
    );

    editor.size = (80, 24);
    let action = editor.open_view(7, Some("seven.txt".to_owned()));
    assert_eq!(action, Action::Request(7, Request::Scroll(0, 24)));
    assert_eq!(editor.current_view, 7);
    assert_eq!(editor.views[&7].window.size(), 24);
    assert_eq!(editor.process_delayed_events(), vec![]);
    assert_eq!(editor.delayed_events, vec![update(9, &["z"])]);
    assert_eq!(texts(&editor, 7), vec!["a", "b"]);
    assert_eq!(editor.views[&7].cursor, Cursor { line: 1, column: 0 });
    assert_eq!(editor.views[&7].cfg.tab_size, 8);
    assert_eq!(editor.views[&7].file, Some("seven.txt".to_owned()));
}

#[test]
fn delayed_events_keep_their_order() {
    let mut editor = Editor::new(KeybindingConfig::new(String::new()));
    assert_eq!(editor.update(3, insert(&["first"])), Ok(()));
    assert_eq!(
        editor.update(
            3,
            Update {
                rev: None,
                operations: vec![
                    Operation { operation_type: OperationType::Copy_, nb_lines: 1, lines: vec![] },
                    Operation {
                        operation_type: OperationType::Insert,
                        nb_lines: 1,
                        lines: vec![line("second")],
                    },
                ],
                pristine: true,
            }
        ),
        Ok(())
    );
    editor.open_view(3, None);
    assert_eq!(editor.process_delayed_events(), vec![]);
    assert_eq!(texts(&editor, 3), vec!["first", "second"]);
    assert!(editor.delayed_events.is_empty());
}

#[test]
fn refused_update_is_reported_and_leaves_the_view() {
    let mut editor = Editor::new(KeybindingConfig::new(String::new()));
    editor.open_view(1, None);
    assert_eq!(editor.update(1, insert(&["a"])), Ok(()));
    assert_eq!(
        editor.update(1, overrun()),
        Err(ViewError { view_id: 1, error: CacheError::IndexOverrun })
    );
    assert_eq!(texts(&editor, 1), vec!["a"]);
    assert_eq!(
        editor.handle_core_event(CoreEvent::Update { view_id: 1, update: overrun() }),
        Err(ViewError { view_id: 1, error: CacheError::IndexOverrun })
    );
    editor.delayed_events.push(CoreEvent::Update { view_id: 1, update: overrun() });
    editor.delayed_events.push(update(1, &["b"]));
    assert_eq!(
        editor.process_delayed_events(),
        vec![ViewError { view_id: 1, error: CacheError::IndexOverrun }]
    );
    assert_eq!(texts(&editor, 1), vec!["b"]);
}

#[test]
fn styles_are_defined_and_redefined() {
    let mut editor = Editor::new(KeybindingConfig::new(String::new()));
    let red = Style { id: 4, fg_color: Some(0xffff_0000), ..selection() };
    assert_eq!(editor.handle_core_event(CoreEvent::DefStyle(red)), Ok(()));
    assert_eq!(editor.styles.len(), 2);
    assert_eq!(editor.styles[&4], red);
    let green = Style { id: 4, fg_color: Some(0xff00_ff00), ..selection() };
    editor.def_style(green);
    assert_eq!(editor.styles.len(), 2);
    assert_eq!(editor.styles[&4], green);
}

#[test]
fn buffers_cycle_in_the_order_of_opening() {
    let mut editor = Editor::new(KeybindingConfig::new(String::new()));
    editor.next_buffer();
    assert_eq!(editor.current_view, 0);
    editor.open_view(10, None);
    editor.open_view(20, None);
    editor.open_view(30, None);
    assert_eq!(editor.current_view, 30);
    editor.next_buffer();
    assert_eq!(editor.current_view, 10);
    editor.next_buffer();
    assert_eq!(editor.current_view, 20);
    editor.prev_buffer();
    assert_eq!(editor.current_view, 10);
    editor.prev_buffer();
    assert_eq!(editor.current_view, 30);
    editor.prev_buffer();
    assert_eq!(editor.current_view, 20);
    editor.current_view = 99;
    editor.next_buffer();
    assert_eq!(editor.current_view, 99);
    editor.prev_buffer();
    assert_eq!(editor.current_view, 99);
    editor.current_view = 20;
    editor.open_view(10, Some("again".to_owned()));
    assert_eq!(editor.views.len(), 3);
    assert_eq!(editor.current_view, 10);
    editor.next_buffer();
    assert_eq!(editor.current_view, 20);
}

#[test]
fn input_goes_to_the_current_view() {
    let mut editor = Editor::new(KeybindingConfig::new(String::new()));
    assert_eq!(editor.handle_input(Event::Key(Key::Char('a'))), None);
    editor.open_view(5, Some("f".to_owned()));
    editor.open_view(6, None);
    assert_eq!(
        editor.handle_input(Event::Key(Key::Char('a'))),
        Some(Action::Request(6, Request::Insert('a')))
    );
    assert_eq!(editor.handle_input(Event::Key(Key::Ctrl('w'))), None);
    editor.prev_buffer();
    assert_eq!(
        editor.handle_input(Event::Key(Key::Ctrl('w'))),
        Some(Action::Request(5, Request::Save("f".to_owned())))
    );
    assert_eq!(editor.handle_input(Event::Key(Key::Esc)), None);
    assert_eq!(editor.save(None), Some(Action::Request(5, Request::Save("f".to_owned()))));
    assert_eq!(editor.save(Some(6)), None);
    assert_eq!(editor.save(Some(77)), None);
}

#[test]
fn resize_reaches_the_current_view() {
    let mut editor = Editor::new(KeybindingConfig::new(String::new()));
    assert_eq!(editor.handle_resize((80, 24)), None);
    assert_eq!(editor.size, (80, 24));
    editor.open_view(1, None);
    assert_eq!(editor.update(1, insert(&["a", "b", "c", "d", "e", "f", "g", "h"])), Ok(()));
    editor.scroll_to(1, 6, 0);
    assert_eq!(editor.handle_resize((80, 4)), Some(Action::Request(1, Request::Scroll(4, 8))));
    assert_eq!(editor.views[&1].window.size(), 4);
    assert_eq!(editor.views[&1].window.start(), 4);
}

#[test]
fn commands_of_the_editor() {
    let mut editor = Editor::new(KeybindingConfig::new(String::new()));
    editor.open_view(1, Some("one".to_owned()));
    editor.open_view(2, None);
    assert_eq!(
        editor.handle_command(Command::SetTheme("InspiredGitHub".to_owned())),
        Some(Action::SetTheme("InspiredGitHub".to_owned()))
    );
    assert_eq!(editor.set_theme("base16"), Action::SetTheme("base16".to_owned()));
    assert_eq!(
        editor.handle_command(Command::Open(Some("x".to_owned()))),
        Some(Action::NewView(Some("x".to_owned())))
    );
    assert_eq!(editor.new_view(None), Action::NewView(None));
    assert_eq!(editor.handle_command(Command::NextBuffer), None);
    assert_eq!(editor.current_view, 1);
    assert_eq!(
        editor.handle_command(Command::Save(None)),
        Some(Action::Request(1, Request::Save("one".to_owned())))
    );
    assert_eq!(editor.handle_command(Command::PrevBuffer), None);
    assert_eq!(editor.current_view, 2);
    assert_eq!(editor.handle_command(Command::Save(None)), None);
    assert_eq!(
        editor.handle_command(Command::Save(Some(1))),
        Some(Action::Request(1, Request::Save("one".to_owned())))
    );
    let request = |request| Some(Action::Request(2, request));
    assert_eq!(editor.handle_command(Command::Back), request(Request::Backspace));
    assert_eq!(editor.handle_command(Command::Delete), request(Request::Delete));
    assert_eq!(editor.handle_command(Command::Insert('x')), request(Request::Insert('x')));
    assert_eq!(editor.handle_command(Command::Undo), request(Request::Undo));
    assert_eq!(editor.handle_command(Command::Redo), request(Request::Redo));
    assert_eq!(editor.handle_command(Command::SelectAll), request(Request::SelectAll));
    let relative = |by, forward, extend| Command::RelativeMove(RelativeMove { by, forward, extend });
    assert_eq!(editor.handle_command(relative(Characters, true, false)), request(Request::Right));
    assert_eq!(editor.handle_command(relative(Characters, false, false)), request(Request::Left));
    assert_eq!(editor.handle_command(relative(Lines, true, false)), request(Request::Down));
    assert_eq!(editor.handle_command(relative(Lines, false, false)), request(Request::Up));
    assert_eq!(editor.handle_command(relative(Pages, true, false)), request(Request::PageDown));
    assert_eq!(editor.handle_command(relative(Pages, false, false)), request(Request::PageUp));
    assert_eq!(editor.handle_command(relative(Words, true, false)), None);
    assert_eq!(editor.handle_command(relative(Lines, true, true)), None);
    let absolute = |to, extend| Command::AbsoluteMove(AbsoluteMove { to, extend });
    assert_eq!(editor.handle_command(absolute(AbsoluteMovePoint::BOL, false)), request(Request::Home));
    assert_eq!(editor.handle_command(absolute(AbsoluteMovePoint::EOL, false)), request(Request::End));
    assert_eq!(editor.handle_command(absolute(AbsoluteMovePoint::BOF, false)), None);
    assert_eq!(editor.handle_command(absolute(AbsoluteMovePoint::EOL, true)), None);
    assert!(editor.views[&2].cfg.display_gutter);
    assert_eq!(editor.handle_command(Command::ToggleLineNumbers), None);
    assert!(!editor.views[&2].cfg.display_gutter);
    assert!(editor.views[&1].cfg.display_gutter);
    assert_eq!(editor.handle_command(Command::FindNext), None);
}

#[test]
fn current_view_is_drawn() {
    let mut editor = Editor::new(KeybindingConfig::new(String::new()));
    assert_eq!(editor.render(), None);
    editor.handle_resize((80, 2));
    editor.open_view(1, None);
    assert_eq!(editor.update(1, insert(&["hi"])), Ok(()));
    assert_eq!(
        editor.render(),
        Some("\x1b[1;1H\x1b[2K1\x1b[1;2Hhi\x1b[2;2H\x1b[2K\x1b[1;2H".to_owned())
    );
}

fn running(tui: &mut Tui, until: Step) {
    loop {
        let step = tui.next_step();
        if step == until {
            return;
        }
        match step {
            Step::RouteDelayedEvents => {
                tui.process_delayed_events();
            }
            Step::PollOpenResponses => {
                tui.process_open_requests(Polled::NotReady);
            }
            Step::PollTerminal => {
                tui.process_terminal_events(Polled::NotReady);
            }
            Step::PollNotifications => {
                assert_eq!(tui.process_core_events(Polled::NotReady), Ok(()));
            }
            Step::Render => {
                tui.render();
            }
            Step::Exit => panic!("the loop stopped"),
        }
    }
}

#[test]
fn cycle_goes_through_its_steps_in_order() {
    let mut tui = Tui::new(KeybindingConfig::new(String::new()));
    assert_eq!(tui.state, Lifecycle::Initial);
    assert_eq!(tui.next_step(), Step::RouteDelayedEvents);
    assert_eq!(tui.process_delayed_events(), vec![]);
    assert_eq!(tui.state, Lifecycle::Running);
    assert_eq!(tui.next_step(), Step::PollOpenResponses);
    assert_eq!(
        tui.process_open_requests(Polled::Ready((4, Some("f".to_owned())))),
        Some(Action::Request(4, Request::Scroll(1, 1)))
    );
    assert_eq!(tui.next_step(), Step::PollOpenResponses);
    assert_eq!(tui.process_open_requests(Polled::NotReady), None);
    assert_eq!(tui.next_step(), Step::PollTerminal);
    assert_eq!(
        tui.process_terminal_events(Polled::Ready(TerminalEvent::Resize(80, 3))),
        Some(Action::Request(4, Request::Scroll(0, 3)))
    );
    assert_eq!(tui.term_size, (80, 3));
    assert_eq!(
        tui.process_terminal_events(Polled::Ready(TerminalEvent::Input(Event::Key(Key::Char('x'))))),
        Some(Action::Request(4, Request::Insert('x')))
    );
    assert_eq!(tui.next_step(), Step::PollTerminal);
    assert_eq!(tui.process_terminal_events(Polled::NotReady), None);
    assert_eq!(tui.next_step(), Step::PollNotifications);
    assert_eq!(tui.process_core_events(Polled::Ready(update(4, &["x"]))), Ok(()));
    assert_eq!(tui.process_core_events(Polled::Ready(update(8, &["later"]))), Ok(()));
    assert_eq!(tui.next_step(), Step::PollNotifications);
    assert_eq!(tui.process_core_events(Polled::NotReady), Ok(()));
    assert_eq!(tui.next_step(), Step::Render);
    assert_eq!(
        tui.render(),
        Some(
            "\x1b[1;1H\x1b[2K1\x1b[1;2Hx\x1b[2;2H\x1b[2K\x1b[3;2H\x1b[2K\x1b[1;2H".to_owned()
        )
    );
    assert_eq!(tui.phase, Phase::DelayedEvents);
    assert_eq!(tui.next_step(), Step::RouteDelayedEvents);
    assert_eq!(tui.editor.delayed_events, vec![update(8, &["later"])]);
}

#[test]
fn refused_update_skips_one_render() {
    let mut tui = Tui::new(KeybindingConfig::new(String::new()));
    running(&mut tui, Step::PollOpenResponses);
    tui.process_open_requests(Polled::Ready((1, None)));
    tui.process_open_requests(Polled::Ready((2, None)));
    running(&mut tui, Step::PollNotifications);
    assert_eq!(
        tui.process_core_events(Polled::Ready(CoreEvent::Update { view_id: 1, update: overrun() })),
        Err(ViewError { view_id: 1, error: CacheError::IndexOverrun })
    );
    assert!(!tui.skip_render);
    assert_eq!(
        tui.handle_core_event(CoreEvent::Update { view_id: 2, update: overrun() }),
        Err(ViewError { view_id: 2, error: CacheError::IndexOverrun })
    );
    assert!(tui.skip_render);
    running(&mut tui, Step::Render);
    assert_eq!(tui.render(), None);
    assert!(!tui.skip_render);
    running(&mut tui, Step::Render);
    assert_eq!(tui.render(), Some("\x1b[1;1H".to_owned()));
}

#[test]
fn loop_shuts_down() {
    let mut tui = Tui::new(KeybindingConfig::new(String::new()));
    running(&mut tui, Step::PollTerminal);
    assert_eq!(
        tui.process_terminal_events(Polled::Ready(TerminalEvent::Input(Event::Key(Key::Ctrl('c'))))),
        None
    );
    assert_eq!(tui.state, Lifecycle::ShuttingDown);
    assert_eq!(tui.next_step(), Step::Exit);

    let mut tui = Tui::new(KeybindingConfig::new(String::new()));
    running(&mut tui, Step::PollNotifications);
    assert_eq!(tui.process_core_events(Polled::Closed), Ok(()));
    assert_eq!(tui.next_step(), Step::Exit);

    let mut tui = Tui::new(KeybindingConfig::new(String::new()));
    running(&mut tui, Step::PollTerminal);
    assert_eq!(tui.process_terminal_events(Polled::Failed), None);
    assert_eq!(tui.next_step(), Step::Exit);

    let mut tui = Tui::new(KeybindingConfig::new(String::new()));
    running(&mut tui, Step::PollOpenResponses);
    assert_eq!(tui.process_open_requests(Polled::Failed), None);
    assert_eq!(tui.next_step(), Step::Exit);

    let mut tui = Tui::new(KeybindingConfig::new(String::new()));
    assert_eq!(tui.run_command(Command::Quit), None);
    assert_eq!(tui.next_step(), Step::Exit);
}

#[test]
fn prompt_takes_the_keys_while_it_is_open() {
    let mut tui = Tui::new(KeybindingConfig::new(String::new()));
    tui.handle_resize((80, 24));
    tui.editor.open_view(1, None);
    assert_eq!(tui.handle_input(Event::Key(Key::Alt('x'))), None);
    assert!(tui.prompt.is_some());
    assert_eq!(tui.prompt.as_ref().map(|prompt| prompt.mode), Some(CommandPromptMode::Command));
    for c in "move down".chars() {
        assert_eq!(tui.handle_input(Event::Key(Key::Char(c))), None);
    }
    assert_eq!(tui.handle_input(Event::Key(Key::Alt('x'))), None);
    assert_eq!(
        tui.prompt.as_ref().map(|prompt| prompt.chars.iter().collect::<String>()),
        Some("move down".to_owned())
    );
    assert_eq!(
        tui.handle_input(Event::Mouse(MouseEvent::Press(MouseButton::Left, 1, 1))),
        None
    );
    assert_eq!(
        tui.handle_input(Event::Key(Key::Char('\n'))),
        Some(Action::Request(1, Request::Down))
    );
    assert!(tui.prompt.is_none());

    assert_eq!(tui.run_command(Command::OpenPrompt(CommandPromptMode::Find)), None);
    assert_eq!(tui.prompt.as_ref().map(|prompt| prompt.mode), Some(CommandPromptMode::Find));
    assert_eq!(tui.handle_input(Event::Key(Key::Backspace)), None);
    assert!(tui.prompt.is_none());

    tui.handle_input(Event::Key(Key::Alt('x')));
    for c in "bogus".chars() {
        tui.handle_input(Event::Key(Key::Char(c)));
    }
    assert_eq!(tui.handle_input(Event::Key(Key::Char('\n'))), None);
    assert!(tui.prompt.is_none());
    assert_eq!(tui.state, Lifecycle::Initial);

    tui.handle_input(Event::Key(Key::Alt('x')));
    for c in "exit".chars() {
        tui.handle_input(Event::Key(Key::Char(c)));
    }
    tui.phase = Phase::Render;
    assert_eq!(
        tui.render(),
        Some("\x1b[23;1H\x1b[2K-> exit   <>\x1b[24;1H\x1b[2K:exit\x1b[24;6H".to_owned())
    );
    assert_eq!(tui.handle_input(Event::Key(Key::Char('\n'))), None);
    assert_eq!(tui.state, Lifecycle::ShuttingDown);
    assert_eq!(tui.run_command(Command::Cancel), None);
}

#[test]
fn bound_keys_become_commands() {
    let mut bindings = KeybindingConfig::new("keys.json5".to_owned());
    let mut found = vec![];
    bindings.add_binding(&mut found, &vec!["ctrl+q".to_owned()], Command::Quit);
    bindings.add_binding(&mut found, &vec!["pagedown".to_owned()], Command::NextBuffer);
    bindings.add_binding(&mut found, &vec!["f2".to_owned()], Command::ToggleLineNumbers);
    bindings.add_binding(
        &mut found,
        &vec!["alt+t".to_owned()],
        Command::SetTheme("base16".to_owned()),
    );
    let mut tui = Tui::new(bindings);
    tui.editor.open_view(1, None);
    tui.editor.open_view(2, None);
    assert_eq!(tui.handle_input(Event::Key(Key::PageDown)), None);
    assert_eq!(tui.editor.current_view, 1);
    assert_eq!(
        tui.handle_input(Event::Key(Key::PageUp)),
        Some(Action::Request(1, Request::PageUp))
    );
    assert_eq!(tui.handle_input(Event::Key(Key::F(2))), None);
    assert!(!tui.editor.views[&1].cfg.display_gutter);
    assert_eq!(
        tui.handle_input(Event::Key(Key::Alt('t'))),
        Some(Action::SetTheme("base16".to_owned()))
    );
    assert_eq!(tui.handle_input(Event::Key(Key::Ctrl('q'))), None);
    assert_eq!(tui.editor.current_view, 1);
    assert_eq!(tui.state, Lifecycle::Initial);
    assert_eq!(tui.editor.handle_input(Event::Key(Key::Ctrl('q'))), None);
    assert_eq!(parse_keys(&vec!["ctrl+q".to_owned()]), Some(Event::Key(Key::Ctrl('q'))));
}

#[test]
fn shortcuts_of_the_loop() {
    let mut tui = Tui::new(KeybindingConfig::new(String::new()));
    assert_eq!(tui.save(), None);
    assert_eq!(tui.click(0, 0), None);
    assert_eq!(tui.drag(0, 0), None);
    assert_eq!(tui.open("notes.txt"), Action::NewView(Some("notes.txt".to_owned())));
    assert_eq!(tui.handle_update(3, insert(&["early"])), Ok(()));
    tui.handle_scroll_to(3, 0, 2);
    assert_eq!(tui.editor.delayed_events.len(), 2);
    tui.handle_resize((80, 5));
    tui.editor.open_view(3, Some("notes.txt".to_owned()));
    assert_eq!(tui.process_delayed_events(), vec![]);
    assert_eq!(tui.handle_update(3, overrun()), Err(ViewError { view_id: 3, error: CacheError::IndexOverrun }));
    assert!(tui.skip_render);
    assert_eq!(texts(&tui.editor, 3), vec!["early"]);
    assert_eq!(tui.editor.views[&3].cursor, Cursor { line: 0, column: 2 });
    assert_eq!(tui.insert('x'), Action::Request(3, Request::Insert('x')));
    assert_eq!(tui.save(), Some(Action::Request(3, Request::Save("notes.txt".to_owned()))));
    assert_eq!(tui.click(0, 3), Some(Action::Request(3, Request::Click(0, 2))));
    assert_eq!(tui.drag(0, 30), Some(Action::Request(3, Request::Drag(0, 6))));
    assert_eq!(tui.editor.click(7, 7), Some(Action::Request(3, Request::Click(7, 7))));
    let bold = Style { id: 9, weight: 700, ..selection() };
    tui.handle_set_style(bold);
    assert_eq!(tui.editor.styles[&9], bold);
    tui.exit();
    assert_eq!(tui.state, Lifecycle::ShuttingDown);
    assert_eq!(tui.next_step(), Step::Exit);
}
