use xi_term::cmd::{
    command_names, from_prompt, is_expandable, open_from_prompt, opened, subcommands,
    AbsoluteMove,
    AbsoluteMovePoint, Command, CommandPromptMode, ExpandLinesDirection, FindConfig, FromPrompt,
    ParseCommandError, RelativeMove, RelativeMoveDistance,
};
use xi_term::command_prompt::CommandPrompt;
use xi_term::event::{Event, Key};
use xi_term::cmd::AbsoluteMovePoint::{Line, BOF, BOL, EOF, EOL};
use xi_term::cmd::RelativeMoveDistance::{Characters, Lines, Pages};
use xi_term::text::{parse_number, same_text, split, split_once};

fn relative(by: RelativeMoveDistance, forward: bool, extend: bool) -> Command {
    Command::RelativeMove(RelativeMove { by, forward, extend })
}

fn absolute(to: AbsoluteMovePoint, extend: bool) -> Command {
    Command::AbsoluteMove(AbsoluteMove { to, extend })
}

fn expected(cmd: &str) -> ParseCommandError {
    ParseCommandError::ExpectedArgument { cmd: cmd.to_owned() }
}

fn find(term: &str, case_sensitive: bool, regex: bool, whole_words: bool) -> Command {
    Command::Find(FindConfig { search_term: term.to_owned(), case_sensitive, regex, whole_words })
}

#[test]
fn split_gives_every_piece() {
    assert_eq!(split("a b  c", ' '), vec!["a", "b", "", "c"]);
    assert_eq!(split("", ' '), vec![""]);
    assert_eq!(split(" ", ' '), vec!["", ""]);
    assert_eq!(split("abc", ' '), vec!["abc"]);
    assert_eq!(split("é x", ' '), vec!["é", "x"]);
    assert_eq!(split_once("a b c", ' '), ("a".to_owned(), Some("b c".to_owned())));
    assert_eq!(split_once("abc", ' '), ("abc".to_owned(), None));
    assert_eq!(split_once(" x", ' '), ("".to_owned(), Some("x".to_owned())));
    assert_eq!(split_once("x ", ' '), ("x".to_owned(), Some("".to_owned())));
    assert!(same_text("abc", "abc"));
    assert!(!same_text("abc", "abd"));
    assert!(!same_text("abc", "ab"));
}

#[test]
fn numbers_are_read_like_the_standard_library() {
    for text in ["0", "7", "+7", "007", "18446744073709551615", "18446744073709551616", "", "+",
        "-1", "1 ", "12a", "a", "++1", "255", "256", "99999999999999999999999"]
    {
        assert_eq!(parse_number(text, u64::MAX), text.parse::<u64>().ok(), "{:?}", text);
        assert_eq!(
            parse_number(text, 255),
            text.parse::<u8>().ok().map(u64::from),
            "{:?}",
            text
        );
    }
}

#[test]
fn relative_moves() {
    assert_eq!(RelativeMove::from_prompt(Some("d")), Ok(relative(Lines, true, false)));
    assert_eq!(RelativeMove::from_prompt(Some("down x")), Ok(relative(Lines, true, true)));
    assert_eq!(RelativeMove::from_prompt(Some("u")), Ok(relative(Lines, false, false)));
    assert_eq!(RelativeMove::from_prompt(Some("up")), Ok(relative(Lines, false, false)));
    assert_eq!(RelativeMove::from_prompt(Some("r")), Ok(relative(Characters, true, false)));
    assert_eq!(RelativeMove::from_prompt(Some("right")), Ok(relative(Characters, true, false)));
    assert_eq!(RelativeMove::from_prompt(Some("l e")), Ok(relative(Characters, false, true)));
    assert_eq!(RelativeMove::from_prompt(Some("left")), Ok(relative(Characters, false, false)));
    assert_eq!(RelativeMove::from_prompt(Some("pd")), Ok(relative(Pages, true, false)));
    assert_eq!(RelativeMove::from_prompt(Some("page-down")), Ok(relative(Pages, true, false)));
    assert_eq!(RelativeMove::from_prompt(Some("pu")), Ok(relative(Pages, false, false)));
    assert_eq!(RelativeMove::from_prompt(Some("page-up ")), Ok(relative(Pages, false, true)));
    assert_eq!(RelativeMove::from_prompt(None), Err(expected("move")));
    assert_eq!(
        RelativeMove::from_prompt(Some("a b c")),
        Err(ParseCommandError::TooManyArguments { cmd: "move".to_owned(), expected: 2, found: 3 })
    );
    assert_eq!(
        RelativeMove::from_prompt(Some("sideways")),
        Err(ParseCommandError::UnknownCommand("sideways".to_owned()))
    );
    assert_eq!(
        RelativeMove::from_prompt(Some("")),
        Err(ParseCommandError::UnknownCommand("".to_owned()))
    );
}

#[test]
fn absolute_moves() {
    assert_eq!(AbsoluteMove::from_prompt(Some("bof")), Ok(absolute(BOF, false)));
    assert_eq!(AbsoluteMove::from_prompt(Some("beginning-of-file s")), Ok(absolute(BOF, true)));
    assert_eq!(AbsoluteMove::from_prompt(Some("eof")), Ok(absolute(EOF, false)));
    assert_eq!(AbsoluteMove::from_prompt(Some("end-of-file")), Ok(absolute(EOF, false)));
    assert_eq!(AbsoluteMove::from_prompt(Some("bol")), Ok(absolute(BOL, false)));
    assert_eq!(AbsoluteMove::from_prompt(Some("beginning-of-line")), Ok(absolute(BOL, false)));
    assert_eq!(AbsoluteMove::from_prompt(Some("eol x")), Ok(absolute(EOL, true)));
    assert_eq!(AbsoluteMove::from_prompt(Some("end-of-line")), Ok(absolute(EOL, false)));
    assert_eq!(AbsoluteMove::from_prompt(Some("42")), Ok(absolute(Line(42), false)));
    assert_eq!(AbsoluteMove::from_prompt(Some("42 x")), Ok(absolute(Line(42), false)));
    assert_eq!(
        AbsoluteMove::from_prompt(Some("18446744073709551615")),
        Ok(absolute(Line(u64::MAX), false))
    );
    assert_eq!(
        AbsoluteMove::from_prompt(Some("18446744073709551616")),
        Err(ParseCommandError::UnknownCommand("18446744073709551616".to_owned()))
    );
    assert_eq!(
        AbsoluteMove::from_prompt(Some("brackets")),
        Err(ParseCommandError::UnknownCommand("brackets".to_owned()))
    );
    assert_eq!(AbsoluteMove::from_prompt(None), Err(expected("move_to")));
    assert_eq!(
        AbsoluteMove::from_prompt(Some("1 2 3")),
        Err(ParseCommandError::TooManyArguments {
            cmd: "move_to".to_owned(),
            expected: 2,
            found: 3
        })
    );
}

#[test]
fn expand_lines() {
    let expand = |forward| Command::CursorExpandLines(ExpandLinesDirection { forward });
    assert_eq!(ExpandLinesDirection::from_prompt(Some("a")), Ok(expand(false)));
    assert_eq!(ExpandLinesDirection::from_prompt(Some("above")), Ok(expand(false)));
    assert_eq!(ExpandLinesDirection::from_prompt(Some("b")), Ok(expand(true)));
    assert_eq!(ExpandLinesDirection::from_prompt(Some("below")), Ok(expand(true)));
    assert_eq!(
        ExpandLinesDirection::from_prompt(Some("below x")),
        Err(ParseCommandError::UnknownCommand("below x".to_owned()))
    );
    assert_eq!(ExpandLinesDirection::from_prompt(None), Err(expected("select_lines")));
}

#[test]
fn find_takes_control_letters() {
    assert_eq!(FindConfig::from_prompt(Some("needle")), Ok(find("needle", false, false, false)));
    assert_eq!(FindConfig::from_prompt(Some("cw Needle")), Ok(find("Needle", true, false, true)));
    assert_eq!(FindConfig::from_prompt(Some("r a b")), Ok(find("a b", false, true, false)));
    assert_eq!(FindConfig::from_prompt(Some("crw x")), Ok(find("x", true, true, true)));
    assert_eq!(FindConfig::from_prompt(Some("ccc x")), Ok(find("x", true, false, false)));
    assert_eq!(FindConfig::from_prompt(Some("crwc x")), Ok(find("crwc x", false, false, false)));
    assert_eq!(FindConfig::from_prompt(Some("cx y")), Ok(find("cx y", false, false, false)));
    assert_eq!(FindConfig::from_prompt(Some(" y")), Ok(find("y", false, false, false)));
    assert_eq!(FindConfig::from_prompt(Some("c ")), Ok(find("", true, false, false)));
    assert_eq!(FindConfig::from_prompt(Some("")), Err(expected("find")));
    assert_eq!(FindConfig::from_prompt(None), Err(expected("find")));
}

#[test]
fn commands_by_name() {
    assert_eq!(from_prompt("select_all", None), Some(Ok(Command::SelectAll)));
    assert_eq!(from_prompt("close", Some("x")), Some(Ok(Command::CloseCurrentView)));
    assert_eq!(from_prompt("copy", None), Some(Ok(Command::CopySelection)));
    assert_eq!(from_prompt("cut", None), Some(Ok(Command::CutSelection)));
    assert_eq!(from_prompt("paste", None), Some(Ok(Command::Paste)));
    assert_eq!(from_prompt("find_under_expand", None), Some(Ok(Command::FindUnderExpand)));
    assert_eq!(from_prompt("find_next", None), Some(Ok(Command::FindNext)));
    assert_eq!(from_prompt("find_prev", None), Some(Ok(Command::FindPrev)));
    assert_eq!(from_prompt("hide_overlay", None), Some(Ok(Command::Cancel)));
    assert_eq!(from_prompt("save", None), Some(Ok(Command::Save(None))));
    assert_eq!(from_prompt("exit", None), Some(Ok(Command::Quit)));
    assert_eq!(from_prompt("left_delete", None), Some(Ok(Command::Back)));
    assert_eq!(from_prompt("right_delete", None), Some(Ok(Command::Delete)));
    assert_eq!(from_prompt("next_view", None), Some(Ok(Command::NextBuffer)));
    assert_eq!(from_prompt("prev_view", None), Some(Ok(Command::PrevBuffer)));
    assert_eq!(from_prompt("undo", None), Some(Ok(Command::Undo)));
    assert_eq!(from_prompt("redo", None), Some(Ok(Command::Redo)));
    assert_eq!(from_prompt("line-numbers", None), Some(Ok(Command::ToggleLineNumbers)));
    assert_eq!(
        from_prompt("open-prompt", None),
        Some(Ok(Command::OpenPrompt(CommandPromptMode::Command)))
    );
    assert_eq!(
        from_prompt("move", Some("up")),
        Some(Ok(relative(Lines, false, false)))
    );
    assert_eq!(
        from_prompt("move_to", Some("eol")),
        Some(Ok(absolute(EOL, false)))
    );
    assert_eq!(
        from_prompt("select_lines", Some("b")),
        Some(Ok(Command::CursorExpandLines(ExpandLinesDirection { forward: true })))
    );
    assert_eq!(
        from_prompt("theme", Some("Solarized (dark)")),
        Some(Ok(Command::SetTheme("Solarized (dark)".to_owned())))
    );
    assert_eq!(from_prompt("theme", None), Some(Err(expected("theme"))));
    assert_eq!(from_prompt("find", Some("w x")), Some(Ok(find("x", false, false, true))));
    assert_eq!(from_prompt("find", None), Some(Err(expected("find"))));
    assert_eq!(
        from_prompt("show_overlay", None),
        Some(Err(ParseCommandError::UnexpectedArgument))
    );
    assert_eq!(from_prompt("show_panel", None), Some(Err(ParseCommandError::UnexpectedArgument)));
    assert_eq!(from_prompt("open", None), Some(Ok(Command::Open(None))));
    assert_eq!(
        from_prompt("open", Some("plain.txt")),
        Some(Ok(Command::Open(Some("plain.txt".to_owned()))))
    );
    assert_eq!(from_prompt("nonsense", None), None);
    assert_eq!(from_prompt("", None), None);
}

#[test]
fn open_with_and_without_expansion() {
    assert_eq!(opened(None, None), Ok(Command::Open(None)));
    assert_eq!(
        opened(Some("~/x"), Some("/home/u/x".to_owned())),
        Ok(Command::Open(Some("/home/u/x".to_owned())))
    );
    assert_eq!(
        opened(Some("$NOPE/x"), None),
        Err(ParseCommandError::UnknownCommand("$NOPE/x".to_owned()))
    );
    assert_eq!(open_from_prompt(None), Ok(Command::Open(None)));
    assert_eq!(
        open_from_prompt(Some("$THIS_VARIABLE_IS_SET_NOWHERE_4711/x")),
        Err(ParseCommandError::UnknownCommand("$THIS_VARIABLE_IS_SET_NOWHERE_4711/x".to_owned()))
    );
    for name in ["$é", "a/$ñ/b", "${A}$€", "$$é"] {
        assert!(!is_expandable(name));
        assert_eq!(
            open_from_prompt(Some(name)),
            Err(ParseCommandError::UnknownCommand(name.to_owned()))
        );
        assert_eq!(
            from_prompt("open", Some(name)),
            Some(Err(ParseCommandError::UnknownCommand(name.to_owned())))
        );
    }
    for name in ["", "$", "é$", "é.txt", "$a", "a$", "${é}x", "~/é"] {
        assert!(is_expandable(name), "{:?}", name);
    }
    assert_eq!(
        open_from_prompt(Some("é$.txt")),
        Ok(Command::Open(Some("é$.txt".to_owned())))
    );
    assert_eq!(
        open_from_prompt(Some("a b.txt")),
        Ok(Command::Open(Some("a b.txt".to_owned())))
    );
}

#[test]
fn names_and_arguments() {
    let names = command_names();
    assert_eq!(names.len(), 27);
    assert_eq!(names[0], "select_all");
    assert_eq!(names[26], "show_panel");
    for name in &names {
        assert!(from_prompt(name, None).is_some(), "{}", name);
    }
    assert_eq!(subcommands("select_lines"), vec!["above", "below"]);
    assert_eq!(subcommands("move").len(), 14);
    assert_eq!(subcommands("move_to").len(), 6);
    assert_eq!(subcommands("theme"), vec!["<themename>"]);
    assert_eq!(subcommands("find"), vec!["<needle>"]);
    assert_eq!(subcommands("open"), vec!["<needle>"]);
    assert!(subcommands("undo").is_empty());
}

fn type_text(prompt: &mut CommandPrompt, text: &str) {
    for c in text.chars() {
        assert_eq!(prompt.handle_input(&Event::Key(Key::Char(c))), Ok(None));
    }
}

#[test]
fn prompt_offers_every_command() {
    let prompt = CommandPrompt::new(CommandPromptMode::Command);
    assert_eq!(prompt.prompt_texts.len(), 19 + 14 + 6 + 2 + 1 + 1 + 1 + 2);
    assert_eq!(prompt.prompt_texts[0], "select_all   <>");
    assert_eq!(prompt.prompt_texts[19], "move left   <>");
    assert_eq!(prompt.prompt_texts[33], "move_to bof   <>");
    assert_eq!(prompt.prompt_texts[45], "show_panel   <>");
    assert!(prompt.is_active());
    assert_eq!(prompt.dex, 0);
    assert!(prompt.chars.is_empty());
}

#[test]
fn prompt_edits_its_text() {
    let mut prompt = CommandPrompt::new(CommandPromptMode::Command);
    type_text(&mut prompt, "abc");
    assert_eq!(prompt.chars, vec!['a', 'b', 'c']);
    assert_eq!(prompt.dex, 3);
    assert_eq!(prompt.handle_input(&Event::Key(Key::Left)), Ok(None));
    assert_eq!(prompt.dex, 2);
    type_text(&mut prompt, "X");
    assert_eq!(prompt.chars, vec!['a', 'b', 'X', 'c']);
    assert_eq!(prompt.dex, 3);
    assert_eq!(prompt.handle_input(&Event::Key(Key::Delete)), Ok(None));
    assert_eq!(prompt.chars, vec!['a', 'b', 'X']);
    assert_eq!(prompt.handle_input(&Event::Key(Key::Delete)), Ok(None));
    assert_eq!(prompt.chars, vec!['a', 'b', 'X']);
    assert_eq!(prompt.handle_input(&Event::Key(Key::Right)), Ok(None));
    assert_eq!(prompt.dex, 3);
    assert_eq!(prompt.handle_input(&Event::Key(Key::Backspace)), Ok(None));
    assert_eq!(prompt.chars, vec!['a', 'b']);
    assert_eq!(prompt.dex, 2);
    assert_eq!(prompt.handle_input(&Event::Key(Key::Ctrl('h'))), Ok(None));
    assert_eq!(prompt.chars, vec!['a']);
    assert_eq!(prompt.left(), None);
    assert_eq!(prompt.left(), None);
    assert_eq!(prompt.dex, 0);
    assert_eq!(prompt.back(), None);
    assert_eq!(prompt.chars, vec!['a']);
    assert_eq!(prompt.handle_input(&Event::Key(Key::F(3))), Ok(None));
    assert_eq!(prompt.handle_input(&Event::Unsupported(vec![1])), Ok(None));
    assert_eq!(prompt.delete(), None);
    assert!(prompt.chars.is_empty());
    assert_eq!(prompt.back(), Some(Command::Cancel));
    assert_eq!(prompt.handle_input(&Event::Key(Key::Backspace)), Ok(Some(Command::Cancel)));
}

#[test]
fn prompt_reads_commands() {
    let mut prompt = CommandPrompt::new(CommandPromptMode::Command);
    type_text(&mut prompt, "move down x");
    assert_eq!(
        prompt.handle_input(&Event::Key(Key::Char('\n'))),
        Ok(Some(relative(Lines, true, true)))
    );
    assert!(!prompt.is_active());

    let mut prompt = CommandPrompt::new(CommandPromptMode::Command);
    type_text(&mut prompt, "open my file.txt");
    assert_eq!(prompt.finalize(), Ok(Some(Command::Open(Some("my file.txt".to_owned())))));

    let mut prompt = CommandPrompt::new(CommandPromptMode::Command);
    type_text(&mut prompt, "frobnicate");
    assert_eq!(prompt.finalize(), Err(ParseCommandError::UnexpectedArgument));
    assert_eq!(prompt.mode, CommandPromptMode::Inactive);
    assert_eq!(prompt.finalize(), Err(ParseCommandError::UnexpectedArgument));

    let mut prompt = CommandPrompt::new(CommandPromptMode::Find);
    type_text(&mut prompt, "c Foo");
    assert_eq!(prompt.finalize(), Ok(Some(find("Foo", true, false, false))));

    let mut prompt = CommandPrompt::new(CommandPromptMode::Inactive);
    prompt.set_mode(CommandPromptMode::Find);
    assert_eq!(prompt.finalize(), Err(expected("find")));
}

#[test]
fn prompt_is_drawn() {
    let mut prompt = CommandPrompt::new(CommandPromptMode::Inactive);
    assert_eq!(prompt.render(10), "");
    prompt.set_mode(CommandPromptMode::Command);
    assert_eq!(prompt.render(10), "\x1b[10;1H\x1b[2K:\x1b[10;2H");
    type_text(&mut prompt, "mo");
    assert_eq!(
        prompt.render(10),
        "\x1b[9;1H\x1b[2K-> move left   <>\
         \x1b[8;1H\x1b[2K-> move right   <>\
         \x1b[7;1H\x1b[2K-> move down   <>\
         \x1b[6;1H\x1b[2K-> move up   <>\
         \x1b[10;1H\x1b[2K:mo\x1b[10;4H"
    );
    assert_eq!(
        prompt.render(3),
        "\x1b[2;1H\x1b[2K-> move left   <>\
         \x1b[1;1H\x1b[2K-> move right   <>\
         \x1b[3;1H\x1b[2K:mo\x1b[3;4H"
    );
    assert_eq!(
        prompt.render_suggestions(2),
        "\x1b[1;1H\x1b[2K-> move left   <>"
    );
    let mut prompt = CommandPrompt::new(CommandPromptMode::Command);
    type_text(&mut prompt, "sel");
    assert_eq!(
        prompt.render_suggestions(9),
        "\x1b[8;1H\x1b[2K-> select_all   <>\
         \x1b[7;1H\x1b[2K-> select_lines above   <>\
         \x1b[6;1H\x1b[2K-> select_lines below   <>"
    );
    let mut prompt = CommandPrompt::new(CommandPromptMode::Find);
    type_text(&mut prompt, "ab");
    prompt.left();
    assert_eq!(
        prompt.render(5),
        "\x1b[4;1H\x1b[2KPrefix your search with r, c and/or w to configure search to be \
         (r)egex, (c)ase_sensitive, (w)hole_words. All false by default. Example: \"cw Needle\"\
         \x1b[5;1H\x1b[2Kfind:ab\x1b[5;7H"
    );
}
