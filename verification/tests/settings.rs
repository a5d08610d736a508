use xi_term::settings::{Layer, PreSettings, Settings};
use xi_term::event::{Event, Key, MouseEvent};

fn layer(name: &str, bindings: &[(&str, &str)]) -> Layer {
    Layer {
        name: name.to_owned(),
        bindings: bindings
            .iter()
            .map(|(key, command)| (key.to_string(), command.to_string()))
            .collect(),
    }
}

fn settings(active: &str, keymaps: Vec<Layer>) -> Settings {
    let mut settings =
        Settings::new(PreSettings { success: Some(true), this: None, keymaps: Some(keymaps) });
    assert_eq!(settings.layer, "base");
    settings.layer = active.to_owned();
    settings
}

#[test]
fn settings_without_keymaps_bind_nothing() {
    let empty = Settings::new(PreSettings { success: None, this: None, keymaps: None });
    assert_eq!(empty.layer, "base");
    assert!(empty.keymaps.is_empty());
    assert_eq!(empty.get_command_string("a"), "");
}

#[test]
fn override_comes_first() {
    let s = settings(
        "edit",
        vec![
            layer("base", &[("a", "base-a"), ("b", "base-b"), ("c", "base-c")]),
            layer("edit", &[("a", "edit-a"), ("b", "edit-b")]),
            layer("override", &[("a", "over-a")]),
        ],
    );
    assert_eq!(s.get_command_string("a"), "over-a");
    assert_eq!(s.get_command_string("b"), "edit-b");
    assert_eq!(s.get_command_string("c"), "base-c");
    assert_eq!(s.get_command_string("d"), "");
}

#[test]
fn blank_layer_does_not_fall_back() {
    let blank = settings(
        "modal",
        vec![
            layer("base", &[("a", "base-a")]),
            layer("modal", &[("blank", "true"), ("x", "modal-x")]),
        ],
    );
    assert_eq!(blank.get_command_string("a"), "");
    assert_eq!(blank.get_command_string("x"), "modal-x");
    let open = settings(
        "modal",
        vec![layer("base", &[("a", "base-a")]), layer("modal", &[("blank", "false")])],
    );
    assert_eq!(open.get_command_string("a"), "base-a");
    assert_eq!(open.get_command_string("blank"), "false");
    let generous = settings(
        "modal",
        vec![layer("base", &[("a", "base-a")]), layer("modal", &[("blank", "not")])],
    );
    assert_eq!(generous.get_command_string("a"), "");
}

#[test]
fn first_layer_and_first_binding_win() {
    let s = settings(
        "base",
        vec![
            layer("base", &[("a", "one"), ("a", "two")]),
            layer("base", &[("a", "three"), ("b", "four")]),
        ],
    );
    assert_eq!(s.get_command_string("a"), "one");
    assert_eq!(s.get_command_string("b"), "");
}

#[test]
fn events_have_names() {
    let name = |key| Settings::key_name(&Event::Key(key));
    assert_eq!(name(Key::Ctrl('c')), "ctrl-c");
    assert_eq!(name(Key::Alt('x')), "alt-x");
    assert_eq!(name(Key::Char('q')), "q");
    assert_eq!(name(Key::Backspace), "backspace");
    assert_eq!(name(Key::Delete), "delete");
    assert_eq!(name(Key::Left), "left");
    assert_eq!(name(Key::Right), "right");
    assert_eq!(name(Key::Up), "up");
    assert_eq!(name(Key::Down), "down");
    assert_eq!(name(Key::Home), "home");
    assert_eq!(name(Key::End), "end");
    assert_eq!(name(Key::PageUp), "pageup");
    assert_eq!(name(Key::PageDown), "pagedown");
    assert_eq!(name(Key::Esc), "");
    assert_eq!(Settings::key_name(&Event::Mouse(MouseEvent::Release(1, 1))), "");
    let s = settings(
        "base",
        vec![layer("base", &[("ctrl-s", "save"), ("", "noop"), ("pageup", "move pu")])],
    );
    assert_eq!(s.get_command(&Event::Key(Key::Ctrl('s'))), "save");
    assert_eq!(s.get_command(&Event::Key(Key::PageUp)), "move pu");
    assert_eq!(s.get_command(&Event::Key(Key::F(1))), "noop");
    assert_eq!(s.get_command(&Event::Key(Key::Char('z'))), "");
}

#[test]
fn default_settings_hold_the_modifier_layers() {
    let defaults = Settings::default_settings();
    assert_eq!(
        defaults,
        PreSettings {
            success: None,
            this: None,
            keymaps: Some(vec![
                layer("ctrl", &[("hold", "true")]),
                layer("alt", &[("hold", "true")]),
            ]),
        }
    );
}
