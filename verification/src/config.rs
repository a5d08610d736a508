//! Key bindings: the names of keys, and the commands that keys stand for.

use vstd::prelude::*;
use vstd::utf8::encode_utf8;
use crate::cmd::{same_command, Command, CommandView};
use crate::event::{same_event, Event, EventView, Key};
use crate::text::{chars_of, number, parse_number, same_text, starts_with, text_of, has_prefix};

verus! {

broadcast use vstd::string::group_string_axioms;

/// The event of a key that has a name of its own, if `name` is such a name.
pub open spec fn plain_key(name: Seq<char>) -> Option<Key> {
    if name == "enter"@ {
        Some(Key::Char('\n'))
    } else if name == "tab"@ {
        Some(Key::Char('\t'))
    } else if name == "backspace"@ {
        Some(Key::Backspace)
    } else if name == "left"@ {
        Some(Key::Left)
    } else if name == "right"@ {
        Some(Key::Right)
    } else if name == "up"@ {
        Some(Key::Up)
    } else if name == "down"@ {
        Some(Key::Down)
    } else if name == "home"@ {
        Some(Key::Home)
    } else if name == "end"@ {
        Some(Key::End)
    } else if name == "pageup"@ {
        Some(Key::PageUp)
    } else if name == "pagedown"@ {
        Some(Key::PageDown)
    } else if name == "delete"@ {
        Some(Key::Delete)
    } else if name == "insert"@ {
        Some(Key::Insert)
    } else if name == "escape"@ {
        Some(Key::Esc)
    } else {
        None
    }
}

/// The bytes that a terminal sends for a key with modifiers that has a name
/// of its own, if `name` is such a name.
pub open spec fn raw_key(name: Seq<char>) -> Option<Seq<u8>> {
    if name == "ctrl+right"@ {
        Some(seq![27u8, 91u8, 49u8, 59u8, 53u8, 67u8])
    } else if name == "ctrl+left"@ {
        Some(seq![27u8, 91u8, 49u8, 59u8, 53u8, 68u8])
    } else if name == "ctrl+home"@ {
        Some(seq![27u8, 91u8, 49u8, 59u8, 53u8, 72u8])
    } else if name == "ctrl+end"@ {
        Some(seq![27u8, 91u8, 49u8, 59u8, 53u8, 70u8])
    } else if name == "ctrl+shift+right"@ {
        Some(seq![27u8, 91u8, 49u8, 59u8, 54u8, 67u8])
    } else if name == "ctrl+shift+left"@ {
        Some(seq![27u8, 91u8, 49u8, 59u8, 54u8, 68u8])
    } else if name == "ctrl+shift+up"@ {
        Some(seq![27u8, 91u8, 49u8, 59u8, 54u8, 65u8])
    } else if name == "ctrl+shift+down"@ {
        Some(seq![27u8, 91u8, 49u8, 59u8, 54u8, 66u8])
    } else if name == "ctrl+shift+home"@ {
        Some(seq![27u8, 91u8, 49u8, 59u8, 54u8, 72u8])
    } else if name == "ctrl+shift+end"@ {
        Some(seq![27u8, 91u8, 49u8, 59u8, 54u8, 70u8])
    } else if name == "alt+shift+up"@ {
        Some(seq![27u8, 91u8, 49u8, 59u8, 52u8, 65u8])
    } else if name == "alt+shift+down"@ {
        Some(seq![27u8, 91u8, 49u8, 59u8, 52u8, 66u8])
    } else if name == "shift+up"@ {
        Some(seq![27u8, 91u8, 49u8, 59u8, 50u8, 65u8])
    } else if name == "shift+down"@ {
        Some(seq![27u8, 91u8, 49u8, 59u8, 50u8, 66u8])
    } else if name == "shift+right"@ {
        Some(seq![27u8, 91u8, 49u8, 59u8, 50u8, 67u8])
    } else if name == "shift+left"@ {
        Some(seq![27u8, 91u8, 49u8, 59u8, 50u8, 68u8])
    } else if name == "shift+pageup"@ {
        Some(seq![27u8, 91u8, 53u8, 59u8, 50u8, 126u8])
    } else if name == "shift+pagedown"@ {
        Some(seq![27u8, 91u8, 54u8, 59u8, 50u8, 126u8])
    } else if name == "shift+end"@ {
        Some(seq![27u8, 91u8, 49u8, 59u8, 50u8, 70u8])
    } else if name == "shift+home"@ {
        Some(seq![27u8, 91u8, 49u8, 59u8, 50u8, 72u8])
    } else {
        None
    }
}

/// The capital letter of `c`, or `c` where it has none.
pub open spec fn upper(c: char) -> char {
    if 'a' <= c <= 'z' {
        ((c as u8) - 32) as u8 as char
    } else {
        c
    }
}

/// The small letter of `c`, or `c` where it has none.
pub open spec fn lower(c: char) -> char {
    if 'A' <= c <= 'Z' {
        ((c as u8) + 32) as u8 as char
    } else {
        c
    }
}

/// The length of `text` in bytes.
pub open spec fn byte_length(text: Seq<char>) -> usize {
    encode_utf8(text).len() as usize
}

/// The event of a name that starts with `ctrl+` or `alt+`: the modifier,
/// and the last character of the name. The name must be as long, in bytes, as
/// the modifier and one character, or as the modifier, `shift+` and one
/// character; with the longer name the character is a capital letter.
pub open spec fn modified_key(name: Seq<char>) -> Option<Key> {
    let is_alt = starts_with(name, "alt+"@);
    let start: int = if is_alt {
        4
    } else {
        5
    };
    let length = byte_length(name);
    if length != start + 7 && length != start + 1 {
        None
    } else {
        let character = if length == start + 7 {
            upper(name.last())
        } else {
            lower(name.last())
        };
        if is_alt {
            Some(Key::Alt(character))
        } else {
            Some(Key::Ctrl(character))
        }
    }
}

/// The event that the key of the name `name` makes, if the name is known:
/// a key with a name of its own; `f` and the number of a function key; or
/// `ctrl+` or `alt+` and a character.
pub open spec fn key_event(name: Seq<char>) -> Option<EventView> {
    if plain_key(name) is Some {
        Some(EventView::Key(plain_key(name)->0))
    } else if raw_key(name) is Some {
        Some(EventView::Unsupported(raw_key(name)->0))
    } else if starts_with(name, "f"@) {
        match number(name.skip(1)) {
            Some(value) => if value <= u8::MAX {
                Some(EventView::Key(Key::F(value as u8)))
            } else {
                None
            },
            None => None,
        }
    } else if starts_with(name, "ctrl+"@) || starts_with(name, "alt+"@) {
        match modified_key(name) {
            Some(key) => Some(EventView::Key(key)),
            None => None,
        }
    } else {
        None
    }
}

/// The event of a binding: that of its key, for a binding of one key; none
/// for a binding of several keys or of none.
pub open spec fn keys_event(keys: Seq<Seq<char>>) -> Option<EventView> {
    if keys.len() != 1 {
        None
    } else {
        key_event(keys[0])
    }
}

/// What `event` holds, if there is one.
pub open spec fn event_view(event: Option<Event>) -> Option<EventView> {
    match event {
        Some(event) => Some(event@),
        None => None,
    }
}

/// The key that has the name `name` for its own, if there is one.
fn plain_key_of(name: &str) -> (key: Option<Key>)
    ensures
        key == plain_key(name@),
{
    if same_text(name, "enter") {
        Some(Key::Char('\n'))
    } else if same_text(name, "tab") {
        Some(Key::Char('\t'))
    } else if same_text(name, "backspace") {
        Some(Key::Backspace)
    } else if same_text(name, "left") {
        Some(Key::Left)
    } else if same_text(name, "right") {
        Some(Key::Right)
    } else if same_text(name, "up") {
        Some(Key::Up)
    } else if same_text(name, "down") {
        Some(Key::Down)
    } else if same_text(name, "home") {
        Some(Key::Home)
    } else if same_text(name, "end") {
        Some(Key::End)
    } else if same_text(name, "pageup") {
        Some(Key::PageUp)
    } else if same_text(name, "pagedown") {
        Some(Key::PageDown)
    } else if same_text(name, "delete") {
        Some(Key::Delete)
    } else if same_text(name, "insert") {
        Some(Key::Insert)
    } else if same_text(name, "escape") {
        Some(Key::Esc)
    } else {
        None
    }
}

/// The bytes that a terminal sends for the key with modifiers of the name
/// `name`, if the name is known.
fn raw_key_of(name: &str) -> (bytes: Option<Vec<u8>>)
    ensures
        match raw_key(name@) {
            Some(raw) => bytes is Some && bytes->0@ == raw,
            None => bytes is None,
        },
{
    if same_text(name, "ctrl+right") {
        let bytes: Vec<u8> = vec![27, 91, 49, 59, 53, 67];
        assert(bytes@ =~= raw_key(name@)->0);
        Some(bytes)
    } else if same_text(name, "ctrl+left") {
        let bytes: Vec<u8> = vec![27, 91, 49, 59, 53, 68];
        assert(bytes@ =~= raw_key(name@)->0);
        Some(bytes)
    } else if same_text(name, "ctrl+home") {
        let bytes: Vec<u8> = vec![27, 91, 49, 59, 53, 72];
        assert(bytes@ =~= raw_key(name@)->0);
        Some(bytes)
    } else if same_text(name, "ctrl+end") {
        let bytes: Vec<u8> = vec![27, 91, 49, 59, 53, 70];
        assert(bytes@ =~= raw_key(name@)->0);
        Some(bytes)
    } else if same_text(name, "ctrl+shift+right") {
        let bytes: Vec<u8> = vec![27, 91, 49, 59, 54, 67];
        assert(bytes@ =~= raw_key(name@)->0);
        Some(bytes)
    } else if same_text(name, "ctrl+shift+left") {
        let bytes: Vec<u8> = vec![27, 91, 49, 59, 54, 68];
        assert(bytes@ =~= raw_key(name@)->0);
        Some(bytes)
    } else if same_text(name, "ctrl+shift+up") {
        let bytes: Vec<u8> = vec![27, 91, 49, 59, 54, 65];
        assert(bytes@ =~= raw_key(name@)->0);
        Some(bytes)
    } else if same_text(name, "ctrl+shift+down") {
        let bytes: Vec<u8> = vec![27, 91, 49, 59, 54, 66];
        assert(bytes@ =~= raw_key(name@)->0);
        Some(bytes)
    } else if same_text(name, "ctrl+shift+home") {
        let bytes: Vec<u8> = vec![27, 91, 49, 59, 54, 72];
        assert(bytes@ =~= raw_key(name@)->0);
        Some(bytes)
    } else if same_text(name, "ctrl+shift+end") {
        let bytes: Vec<u8> = vec![27, 91, 49, 59, 54, 70];
        assert(bytes@ =~= raw_key(name@)->0);
        Some(bytes)
    } else if same_text(name, "alt+shift+up") {
        let bytes: Vec<u8> = vec![27, 91, 49, 59, 52, 65];
        assert(bytes@ =~= raw_key(name@)->0);
        Some(bytes)
    } else if same_text(name, "alt+shift+down") {
        let bytes: Vec<u8> = vec![27, 91, 49, 59, 52, 66];
        assert(bytes@ =~= raw_key(name@)->0);
        Some(bytes)
    } else if same_text(name, "shift+up") {
        let bytes: Vec<u8> = vec![27, 91, 49, 59, 50, 65];
        assert(bytes@ =~= raw_key(name@)->0);
        Some(bytes)
    } else if same_text(name, "shift+down") {
        let bytes: Vec<u8> = vec![27, 91, 49, 59, 50, 66];
        assert(bytes@ =~= raw_key(name@)->0);
        Some(bytes)
    } else if same_text(name, "shift+right") {
        let bytes: Vec<u8> = vec![27, 91, 49, 59, 50, 67];
        assert(bytes@ =~= raw_key(name@)->0);
        Some(bytes)
    } else if same_text(name, "shift+left") {
        let bytes: Vec<u8> = vec![27, 91, 49, 59, 50, 68];
        assert(bytes@ =~= raw_key(name@)->0);
        Some(bytes)
    } else if same_text(name, "shift+pageup") {
        let bytes: Vec<u8> = vec![27, 91, 53, 59, 50, 126];
        assert(bytes@ =~= raw_key(name@)->0);
        Some(bytes)
    } else if same_text(name, "shift+pagedown") {
        let bytes: Vec<u8> = vec![27, 91, 54, 59, 50, 126];
        assert(bytes@ =~= raw_key(name@)->0);
        Some(bytes)
    } else if same_text(name, "shift+end") {
        let bytes: Vec<u8> = vec![27, 91, 49, 59, 50, 70];
        assert(bytes@ =~= raw_key(name@)->0);
        Some(bytes)
    } else if same_text(name, "shift+home") {
        let bytes: Vec<u8> = vec![27, 91, 49, 59, 50, 72];
        assert(bytes@ =~= raw_key(name@)->0);
        Some(bytes)
    } else {
        None
    }
}

/// The capital letter of `c`, or `c` where it has none.
pub fn to_upper(c: char) -> (letter: char)
    ensures
        letter == upper(c),
{
    if c >= 'a' && c <= 'z' {
        ((c as u8) - 32) as char
    } else {
        c
    }
}

/// The small letter of `c`, or `c` where it has none.
pub fn to_lower(c: char) -> (letter: char)
    ensures
        letter == lower(c),
{
    if c >= 'A' && c <= 'Z' {
        ((c as u8) + 32) as char
    } else {
        c
    }
}

/// The event that the keys of a binding make, if they are one key of a known
/// name.
pub fn parse_keys(keys: &Vec<String>) -> (event: Option<Event>)
    ensures
        event_view(event) == keys_event(crate::text::text_views(keys@)),
{
    if keys.len() != 1 {
        return None;
    }
    let key = keys[0].as_str();
    assert(key@ == crate::text::text_views(keys@)[0]);
    if let Some(plain) = plain_key_of(key) {
        return Some(Event::Key(plain));
    }
    if let Some(bytes) = raw_key_of(key) {
        return Some(Event::Unsupported(bytes));
    }
    let chars = chars_of(key);
    if has_prefix(key, "f") {
        proof {
            reveal_strlit("f");
        }
        let rest = text_of(&chars, 1, chars.len());
        assert(rest@ =~= key@.skip(1));
        return match parse_number(rest.as_str(), 255) {
            Some(value) => Some(Event::Key(Key::F(value as u8))),
            None => None,
        };
    }
    let is_alt = has_prefix(key, "alt+");
    if has_prefix(key, "ctrl+") || is_alt {
        proof {
            reveal_strlit("ctrl+");
            reveal_strlit("alt+");
        }
        let start: usize = if is_alt {
            4
        } else {
            5
        };
        let length = key.len();
        if length != start + 7 && length != start + 1 {
            return None;
        }
        let last = chars[chars.len() - 1];
        let character = if length == start + 7 {
            to_upper(last)
        } else {
            to_lower(last)
        };
        return if is_alt {
            Some(Event::Key(Key::Alt(character)))
        } else {
            Some(Event::Key(Key::Ctrl(character)))
        };
    }
    None
}

/// The commands that keys stand for. No event is bound twice.
#[derive(Debug)]
pub struct Keymap {
    pub bindings: Vec<(Event, Command)>,
}

/// What `bindings` hold.
pub open spec fn binding_views(bindings: Seq<(Event, Command)>) -> Seq<(EventView, CommandView)> {
    bindings.map_values(|binding: (Event, Command)| (binding.0@, binding.1@))
}

/// The index of the first of `bindings` from `from` on that is of `event`.
pub open spec fn bound_from(bindings: Seq<(EventView, CommandView)>, event: EventView, from: int)
    -> Option<int>
    decreases bindings.len() - from,
{
    if from < 0 || from >= bindings.len() {
        None
    } else if bindings[from].0 == event {
        Some(from)
    } else {
        bound_from(bindings, event, from + 1)
    }
}

/// The command that `event` stands for in `bindings`, if it stands for one.
pub open spec fn bound(bindings: Seq<(EventView, CommandView)>, event: EventView) -> Option<
    CommandView,
> {
    match bound_from(bindings, event, 0) {
        Some(index) => Some(bindings[index].1),
        None => None,
    }
}

/// `bindings` with `event` bound to `command`: in the place of the binding
/// that `event` had, or at the end.
pub open spec fn rebound(
    bindings: Seq<(EventView, CommandView)>,
    event: EventView,
    command: CommandView,
) -> Seq<(EventView, CommandView)> {
    match bound_from(bindings, event, 0) {
        Some(index) => bindings.update(index, (event, command)),
        None => bindings.push((event, command)),
    }
}

/// What `bound_from` finds is a binding of the event; it finds none only
/// where there is none.
pub proof fn lemma_bound_from(bindings: Seq<(EventView, CommandView)>, event: EventView, from: int)
    requires
        0 <= from,
    ensures
        match bound_from(bindings, event, from) {
            Some(index) => from <= index < bindings.len() && bindings[index].0 == event,
            None => forall|i: int| from <= i < bindings.len() ==> bindings[i].0 != event,
        },
    decreases bindings.len() - from,
{
    if from < bindings.len() && bindings[from].0 != event {
        lemma_bound_from(bindings, event, from + 1);
    }
}

impl View for Keymap {
    type V = Seq<(EventView, CommandView)>;

    open spec fn view(&self) -> Seq<(EventView, CommandView)> {
        binding_views(self.bindings@)
    }
}

impl Keymap {
    /// A keymap without bindings.
    pub fn new() -> (keymap: Keymap)
        ensures
            keymap@.len() == 0,
    {
        Keymap { bindings: Vec::new() }
    }

    /// The index of the binding of `event`, if it has one.
    fn find(&self, event: &Event) -> (index: Option<usize>)
        ensures
            match index {
                Some(found) => found < self.bindings.len() && bound_from(self@, event@, 0) == Some(
                    found as int,
                ),
                None => bound_from(self@, event@, 0) is None,
            },
    {
        let mut i: usize = 0;
        while i < self.bindings.len()
            invariant
                i <= self.bindings.len(),
                bound_from(self@, event@, 0) == bound_from(self@, event@, i as int),
            decreases self.bindings.len() - i,
        {
            assert(self@[i as int].0 == self.bindings[i as int].0@);
            if same_event(&self.bindings[i].0, event) {
                return Some(i);
            }
            i = i + 1;
        }
        None
    }

    /// The command that `event` stands for, if it stands for one.
    pub fn get(&self, event: &Event) -> (command: Option<Command>)
        ensures
            match bound(self@, event@) {
                Some(view) => command is Some && command->0@ == view,
                None => command is None,
            },
    {
        match self.find(event) {
            Some(index) => {
                assert(self@[index as int].1 == self.bindings[index as int].1@);
                Some(self.bindings[index].1.clone())
            },
            None => None,
        }
    }

    /// Binds `event` to `command`. A binding that the event had is replaced.
    pub fn insert(&mut self, event: Event, command: Command)
        ensures
            final(self)@ == rebound(old(self)@, event@, command@),
    {
        match self.find(&event) {
            Some(index) => {
                self.bindings[index] = (event, command);
                assert(self@ =~= old(self)@.update(index as int, (event@, command@)));
            },
            None => {
                self.bindings.push((event, command));
                assert(self@ =~= old(self)@.push((event@, command@)));
            },
        }
    }
}

/// Whether one of `commands` is `command`.
pub open spec fn holds_command(commands: Seq<Command>, command: CommandView) -> bool {
    exists|i: int| 0 <= i < commands.len() && (#[trigger] commands[i])@ == command
}

/// The key bindings of the editor, and the file that they were read from.
#[derive(Debug)]
pub struct KeybindingConfig {
    pub keymap: Keymap,
    pub config_path: String,
}

impl KeybindingConfig {
    /// A configuration without bindings.
    pub fn new(config_path: String) -> (config: KeybindingConfig)
        ensures
            config.keymap@.len() == 0,
            config.config_path == config_path,
    {
        KeybindingConfig { keymap: Keymap::new(), config_path }
    }

    /// Takes in one binding of the configuration: the keys `keys` for the
    /// command `command`. A command is bound once: `found` holds the commands
    /// that have their binding, and a later binding of one of them is passed
    /// over. So is a binding whose keys are not one key of a known name.
    pub fn add_binding(&mut self, found: &mut Vec<Command>, keys: &Vec<String>, command: Command)
        ensures
            final(self).config_path == old(self).config_path,
            if !holds_command(old(found)@, command@) && keys_event(crate::text::text_views(keys@))
                is Some {
                &&& final(self).keymap@ == rebound(
                    old(self).keymap@,
                    keys_event(crate::text::text_views(keys@))->0,
                    command@,
                )
                &&& final(found)@.len() == old(found)@.len() + 1
                &&& final(found)@.drop_last() == old(found)@
                &&& final(found)@.last()@ == command@
            } else {
                final(self).keymap@ == old(self).keymap@ && final(found)@ == old(found)@
            },
    {
        let mut i: usize = 0;
        while i < found.len()
            invariant
                i <= found.len(),
                found@ == old(found)@,
                forall|j: int| 0 <= j < i ==> (#[trigger] found[j])@ != command@,
            decreases found.len() - i,
        {
            if same_command(&found[i], &command) {
                return;
            }
            i = i + 1;
        }
        if let Some(event) = parse_keys(keys) {
            let copy = command.clone();
            self.keymap.insert(event, copy);
            found.push(command);
            assert(found@.drop_last() =~= old(found)@);
        }
    }
}

} // verus!
