use xi_term::cmd::{same_command, Command, CommandPromptMode, FindConfig};
use xi_term::config::{parse_keys, to_lower, to_upper, KeybindingConfig, Keymap};
use xi_term::event::{same_event, Event, Key, MouseButton, MouseEvent};

fn key(name: &str) -> Option<Event> {
    parse_keys(&vec![name.to_owned()])
}

#[test]
fn keys_with_a_name() {
    assert_eq!(key("enter"), Some(Event::Key(Key::Char('\n'))));
    assert_eq!(key("tab"), Some(Event::Key(Key::Char('\t'))));
    assert_eq!(key("backspace"), Some(Event::Key(Key::Backspace)));
    assert_eq!(key("left"), Some(Event::Key(Key::Left)));
    assert_eq!(key("right"), Some(Event::Key(Key::Right)));
    assert_eq!(key("up"), Some(Event::Key(Key::Up)));
    assert_eq!(key("down"), Some(Event::Key(Key::Down)));
    assert_eq!(key("home"), Some(Event::Key(Key::Home)));
    assert_eq!(key("end"), Some(Event::Key(Key::End)));
    assert_eq!(key("pageup"), Some(Event::Key(Key::PageUp)));
    assert_eq!(key("pagedown"), Some(Event::Key(Key::PageDown)));
    assert_eq!(key("delete"), Some(Event::Key(Key::Delete)));
    assert_eq!(key("insert"), Some(Event::Key(Key::Insert)));
    assert_eq!(key("escape"), Some(Event::Key(Key::Esc)));
}

#[test]
fn keys_with_modifiers_that_have_a_name() {
    let raw = |bytes: [u8; 6]| Some(Event::Unsupported(bytes.to_vec()));
    assert_eq!(key("ctrl+right"), raw([27, 91, 49, 59, 53, 67]));
    assert_eq!(key("ctrl+left"), raw([27, 91, 49, 59, 53, 68]));
    assert_eq!(key("ctrl+home"), raw([27, 91, 49, 59, 53, 72]));
    assert_eq!(key("ctrl+end"), raw([27, 91, 49, 59, 53, 70]));
    assert_eq!(key("ctrl+shift+right"), raw([27, 91, 49, 59, 54, 67]));
    assert_eq!(key("ctrl+shift+left"), raw([27, 91, 49, 59, 54, 68]));
    assert_eq!(key("ctrl+shift+up"), raw([27, 91, 49, 59, 54, 65]));
    assert_eq!(key("ctrl+shift+down"), raw([27, 91, 49, 59, 54, 66]));
    assert_eq!(key("ctrl+shift+home"), raw([27, 91, 49, 59, 54, 72]));
    assert_eq!(key("ctrl+shift+end"), raw([27, 91, 49, 59, 54, 70]));
    assert_eq!(key("alt+shift+up"), raw([27, 91, 49, 59, 52, 65]));
    assert_eq!(key("alt+shift+down"), raw([27, 91, 49, 59, 52, 66]));
    assert_eq!(key("shift+up"), raw([27, 91, 49, 59, 50, 65]));
    assert_eq!(key("shift+down"), raw([27, 91, 49, 59, 50, 66]));
    assert_eq!(key("shift+right"), raw([27, 91, 49, 59, 50, 67]));
    assert_eq!(key("shift+left"), raw([27, 91, 49, 59, 50, 68]));
    assert_eq!(key("shift+pageup"), raw([27, 91, 53, 59, 50, 126]));
    assert_eq!(key("shift+pagedown"), raw([27, 91, 54, 59, 50, 126]));
    assert_eq!(key("shift+end"), raw([27, 91, 49, 59, 50, 70]));
    assert_eq!(key("shift+home"), raw([27, 91, 49, 59, 50, 72]));
}

#[test]
fn function_keys() {
    assert_eq!(key("f1"), Some(Event::Key(Key::F(1))));
    assert_eq!(key("f12"), Some(Event::Key(Key::F(12))));
    assert_eq!(key("f255"), Some(Event::Key(Key::F(255))));
    assert_eq!(key("f+3"), Some(Event::Key(Key::F(3))));
    assert_eq!(key("f256"), None);
    assert_eq!(key("f"), None);
    assert_eq!(key("foo"), None);
    assert_eq!(key("f-1"), None);
}

#[test]
fn modified_characters() {
    assert_eq!(key("ctrl+a"), Some(Event::Key(Key::Ctrl('a'))));
    assert_eq!(key("ctrl+A"), Some(Event::Key(Key::Ctrl('a'))));
    assert_eq!(key("ctrl+shift+a"), Some(Event::Key(Key::Ctrl('A'))));
    assert_eq!(key("ctrl+1234567"), Some(Event::Key(Key::Ctrl('7'))));
    assert_eq!(key("alt+x"), Some(Event::Key(Key::Alt('x'))));
    assert_eq!(key("alt+shift+x"), Some(Event::Key(Key::Alt('X'))));
    assert_eq!(key("alt+/"), Some(Event::Key(Key::Alt('/'))));
    assert_eq!(key("ctrl+"), None);
    assert_eq!(key("ctrl+ab"), None);
    assert_eq!(key("ctrl+é"), None);
    assert_eq!(key("alt+"), None);
    assert_eq!(key("shift+a"), None);
    assert_eq!(key(""), None);
    assert_eq!(key("Enter"), None);
    assert_eq!(parse_keys(&vec![]), None);
    assert_eq!(parse_keys(&vec!["left".to_owned(), "right".to_owned()]), None);
}

#[test]
fn letters_change_case() {
    assert_eq!(to_upper('a'), 'A');
    assert_eq!(to_upper('z'), 'Z');
    assert_eq!(to_upper('A'), 'A');
    assert_eq!(to_upper('1'), '1');
    assert_eq!(to_upper('é'), 'é');
    assert_eq!(to_lower('A'), 'a');
    assert_eq!(to_lower('Z'), 'z');
    assert_eq!(to_lower('q'), 'q');
    assert_eq!(to_lower('['), '[');
    for c in ['a', 'm', 'Z', '{', '@', '`', 'ß'] {
        assert_eq!(to_upper(c), c.to_ascii_uppercase());
        assert_eq!(to_lower(c), c.to_ascii_lowercase());
    }
}

#[test]
fn events_and_commands_compare_by_what_they_hold() {
    assert!(same_event(&Event::Key(Key::Left), &Event::Key(Key::Left)));
    assert!(!same_event(&Event::Key(Key::Left), &Event::Key(Key::Right)));
    assert!(same_event(&Event::Unsupported(vec![1, 2]), &Event::Unsupported(vec![1, 2])));
    assert!(!same_event(&Event::Unsupported(vec![1, 2]), &Event::Unsupported(vec![1, 3])));
    assert!(!same_event(&Event::Unsupported(vec![1, 2]), &Event::Unsupported(vec![1])));
    let press = Event::Mouse(MouseEvent::Press(MouseButton::Left, 1, 2));
    assert!(same_event(&press, &press.clone()));
    assert!(!same_event(&press, &Event::Mouse(MouseEvent::Hold(1, 2))));
    assert!(!same_event(&press, &Event::Key(Key::Null)));

    let find = |term: &str, regex| {
        Command::Find(FindConfig {
            search_term: term.to_owned(),
            case_sensitive: false,
            regex,
            whole_words: true,
        })
    };
    assert!(same_command(&find("a", true), &find("a", true).clone()));
    assert!(!same_command(&find("a", true), &find("b", true)));
    assert!(!same_command(&find("a", true), &find("a", false)));
    assert!(same_command(&Command::Open(None), &Command::Open(None)));
    assert!(!same_command(&Command::Open(None), &Command::Open(Some("x".to_owned()))));
    assert!(same_command(&Command::Save(Some(3)), &Command::Save(Some(3))));
    assert!(!same_command(&Command::Save(Some(3)), &Command::Save(None)));
    assert!(!same_command(&Command::Undo, &Command::Redo));
    assert!(same_command(
        &Command::OpenPrompt(CommandPromptMode::Find),
        &Command::OpenPrompt(CommandPromptMode::Find)
    ));
    assert_eq!(Command::SetTheme("t".to_owned()).clone(), Command::SetTheme("t".to_owned()));
}

#[test]
fn keymap_binds_each_event_once() {
    let mut keymap = Keymap::new();
    assert_eq!(keymap.get(&Event::Key(Key::Up)), None);
    keymap.insert(Event::Key(Key::Up), Command::Undo);
    keymap.insert(Event::Key(Key::Down), Command::Redo);
    keymap.insert(Event::Key(Key::Up), Command::Quit);
    assert_eq!(keymap.bindings.len(), 2);
    assert_eq!(keymap.get(&Event::Key(Key::Up)), Some(Command::Quit));
    assert_eq!(keymap.get(&Event::Key(Key::Down)), Some(Command::Redo));
    assert_eq!(keymap.get(&Event::Key(Key::Left)), None);
}

#[test]
fn a_command_is_bound_once() {
    let mut config = KeybindingConfig::new("path".to_owned());
    let mut found = vec![];
    config.add_binding(&mut found, &vec!["ctrl+z".to_owned()], Command::Undo);
    config.add_binding(&mut found, &vec!["ctrl+y".to_owned()], Command::Undo);
    config.add_binding(&mut found, &vec!["no such key".to_owned()], Command::Redo);
    config.add_binding(&mut found, &vec!["ctrl+z".to_owned()], Command::Redo);
    assert_eq!(config.config_path, "path");
    assert_eq!(found, vec![Command::Undo, Command::Redo]);
    assert_eq!(config.keymap.bindings, vec![(Event::Key(Key::Ctrl('z')), Command::Redo)]);
}
