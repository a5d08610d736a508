//! Layered key maps: for each layer the commands, as text, that the names
//! of keys stand for.
//!
//! The layer `override` is asked first, then the layer that is active, then
//! the layer `base`, unless the active layer is marked `blank`.

use vstd::prelude::*;
use crate::event::{Event, Key};
use crate::text::{contains_char, push_char, same_text};

verus! {

broadcast use vstd::string::group_string_axioms;

/// One layer of key maps: its name and, for each key that it binds, the name
/// of the key and the command as text.
#[derive(Debug, PartialEq, Eq)]
pub struct Layer {
    pub name: String,
    pub bindings: Vec<(String, String)>,
}

/// What a `Layer` holds.
pub struct LayerView {
    pub name: Seq<char>,
    pub bindings: Seq<(Seq<char>, Seq<char>)>,
}

impl View for Layer {
    type V = LayerView;

    open spec fn view(&self) -> LayerView {
        LayerView {
            name: self.name@,
            bindings: self.bindings@.map_values(
                |binding: (String, String)| (binding.0@, binding.1@),
            ),
        }
    }
}

/// What `layers` hold.
pub open spec fn layer_views(layers: Seq<Layer>) -> Seq<LayerView> {
    layers.map_values(|layer: Layer| layer@)
}

/// The settings as they are read from a file.
#[derive(Debug, PartialEq, Eq)]
pub struct PreSettings {
    pub success: Option<bool>,
    pub this: Option<String>,
    pub keymaps: Option<Vec<Layer>>,
}

/// The key maps and the layer that is active.
#[derive(Debug, PartialEq, Eq)]
pub struct Settings {
    pub layer: String,
    pub keymaps: Vec<Layer>,
}

/// The text that `key` stands for in `bindings`, from the binding `from` on:
/// that of the first binding of the key.
pub open spec fn binding_from(bindings: Seq<(Seq<char>, Seq<char>)>, key: Seq<char>, from: int)
    -> Option<Seq<char>>
    decreases bindings.len() - from,
{
    if from < 0 || from >= bindings.len() {
        None
    } else if bindings[from].0 == key {
        Some(bindings[from].1)
    } else {
        binding_from(bindings, key, from + 1)
    }
}

/// The text that `key` stands for in the layer `name` of `layers`, from the
/// layer `from` on: that of the first layer of the name. A layer that is
/// missing binds no key.
pub open spec fn layer_binding(layers: Seq<LayerView>, name: Seq<char>, key: Seq<char>, from: int)
    -> Option<Seq<char>>
    decreases layers.len() - from,
{
    if from < 0 || from >= layers.len() {
        None
    } else if layers[from].name == name {
        binding_from(layers[from].bindings, key, 0)
    } else {
        layer_binding(layers, name, key, from + 1)
    }
}

/// The command, as text, that the key of the name `key` stands for while the
/// layer `layer` is active: what the layer `override` says; else what the
/// active layer says; else nothing if the active layer is blank, which it is
/// when its key `blank` stands for a text with a `t` in it; else what the
/// layer `base` says; else nothing.
pub open spec fn command_string(layers: Seq<LayerView>, layer: Seq<char>, key: Seq<char>) -> Seq<
    char,
> {
    let overridden = layer_binding(layers, "override"@, key, 0);
    let active = layer_binding(layers, layer, key, 0);
    let blank = layer_binding(layers, layer, "blank"@, 0);
    let base = layer_binding(layers, "base"@, key, 0);
    if overridden is Some {
        overridden->0
    } else if active is Some {
        active->0
    } else if blank is Some && blank->0.contains('t') {
        Seq::empty()
    } else if base is Some {
        base->0
    } else {
        Seq::empty()
    }
}

/// The name under which the key maps know an event: `ctrl-` or `alt-` and
/// the character for a key with a modifier, the character itself for a key
/// without, the name of the key for the keys that edit and move, and the
/// empty name for every other event.
pub open spec fn key_name(event: Event) -> Seq<char> {
    match event {
        Event::Key(key) => match key {
            Key::Ctrl(c) => "ctrl-"@.push(c),
            Key::Alt(c) => "alt-"@.push(c),
            Key::Char(c) => seq![c],
            Key::Backspace => "backspace"@,
            Key::Delete => "delete"@,
            Key::Left => "left"@,
            Key::Right => "right"@,
            Key::Up => "up"@,
            Key::Down => "down"@,
            Key::Home => "home"@,
            Key::End => "end"@,
            Key::PageUp => "pageup"@,
            Key::PageDown => "pagedown"@,
            _ => Seq::empty(),
        },
        _ => Seq::empty(),
    }
}

/// The text that `key` stands for in `bindings`, if it stands for one.
fn lookup(bindings: &Vec<(String, String)>, key: &str) -> (command: Option<String>)
    ensures
        match binding_from(
            bindings@.map_values(|binding: (String, String)| (binding.0@, binding.1@)),
            key@,
            0,
        ) {
            Some(text) => command is Some && command->0@ == text,
            None => command is None,
        },
{
    let ghost views = bindings@.map_values(|binding: (String, String)| (binding.0@, binding.1@));
    let mut i: usize = 0;
    while i < bindings.len()
        invariant
            i <= bindings.len(),
            views == bindings@.map_values(|binding: (String, String)| (binding.0@, binding.1@)),
            binding_from(views, key@, 0) == binding_from(views, key@, i as int),
        decreases bindings.len() - i,
    {
        assert(views[i as int] == (bindings[i as int].0@, bindings[i as int].1@));
        if same_text(bindings[i].0.as_str(), key) {
            return Some(bindings[i].1.clone());
        }
        i = i + 1;
    }
    None
}

impl Settings {
    /// The settings that were read, with the layer `base` active. Settings
    /// without key maps have none.
    pub fn new(settings: PreSettings) -> (result: Settings)
        ensures
            result.layer@ == "base"@,
            match settings.keymaps {
                Some(keymaps) => result.keymaps == keymaps,
                None => result.keymaps@.len() == 0,
            },
    {
        let keymaps = match settings.keymaps {
            Some(keymaps) => keymaps,
            None => Vec::new(),
        };
        Settings { layer: "base".to_owned(), keymaps }
    }

    /// The text that `key` stands for in the layer `name`, if it stands for one.
    fn layer_command(&self, name: &str, key: &str) -> (command: Option<String>)
        ensures
            match layer_binding(layer_views(self.keymaps@), name@, key@, 0) {
                Some(text) => command is Some && command->0@ == text,
                None => command is None,
            },
    {
        let ghost layers = layer_views(self.keymaps@);
        let mut i: usize = 0;
        while i < self.keymaps.len()
            invariant
                i <= self.keymaps.len(),
                layers == layer_views(self.keymaps@),
                layer_binding(layers, name@, key@, 0) == layer_binding(
                    layers,
                    name@,
                    key@,
                    i as int,
                ),
            decreases self.keymaps.len() - i,
        {
            assert(layers[i as int] == self.keymaps[i as int]@);
            if same_text(self.keymaps[i].name.as_str(), name) {
                return lookup(&self.keymaps[i].bindings, key);
            }
            i = i + 1;
        }
        None
    }

    /// The command, as text, that the key of the name `key` stands for.
    pub fn get_command_string(&self, key: &str) -> (command: String)
        ensures
            command@ == command_string(layer_views(self.keymaps@), self.layer@, key@),
    {
        if let Some(command) = self.layer_command("override", key) {
            return command;
        }
        if let Some(command) = self.layer_command(self.layer.as_str(), key) {
            return command;
        }
        if let Some(blank) = self.layer_command(self.layer.as_str(), "blank") {
            if contains_char(blank.as_str(), 't') {
                return String::new();
            }
        }
        match self.layer_command("base", key) {
            Some(command) => command,
            None => String::new(),
        }
    }

    /// The name under which the key maps know an event.
    pub fn key_name(event: &Event) -> (name: String)
        ensures
            name@ == key_name(*event),
    {
        match event {
            Event::Key(key) => match key {
                Key::Ctrl(c) => {
                    let mut name = "ctrl-".to_owned();
                    push_char(&mut name, *c);
                    name
                },
                Key::Alt(c) => {
                    let mut name = "alt-".to_owned();
                    push_char(&mut name, *c);
                    name
                },
                Key::Char(c) => {
                    let mut name = String::new();
                    push_char(&mut name, *c);
                    assert(name@ =~= seq![*c]);
                    name
                },
                Key::Backspace => "backspace".to_owned(),
                Key::Delete => "delete".to_owned(),
                Key::Left => "left".to_owned(),
                Key::Right => "right".to_owned(),
                Key::Up => "up".to_owned(),
                Key::Down => "down".to_owned(),
                Key::Home => "home".to_owned(),
                Key::End => "end".to_owned(),
                Key::PageUp => "pageup".to_owned(),
                Key::PageDown => "pagedown".to_owned(),
                _ => String::new(),
            },
            _ => String::new(),
        }
    }

    /// The command, as text, that an event stands for.
    pub fn get_command(&self, event: &Event) -> (command: String)
        ensures
            command@ == command_string(layer_views(self.keymaps@), self.layer@, key_name(*event)),
    {
        let name = Self::key_name(event);
        self.get_command_string(name.as_str())
    }

    /// The settings that every layer falls back on: the layers `ctrl` and
    /// `alt`, each of which is held.
    pub fn default_settings() -> (settings: PreSettings)
        ensures
            settings.success is None,
            settings.this is None,
            settings.keymaps is Some,
            layer_views(settings.keymaps->0@) == seq![
                LayerView { name: "ctrl"@, bindings: seq![("hold"@, "true"@)] },
                LayerView { name: "alt"@, bindings: seq![("hold"@, "true"@)] },
            ],
    {
        let mut ctrl: Vec<(String, String)> = Vec::new();
        let mut alt: Vec<(String, String)> = Vec::new();
        ctrl.push(("hold".to_owned(), "true".to_owned()));
        alt.push(("hold".to_owned(), "true".to_owned()));
        let ctrl_layer = Layer { name: "ctrl".to_owned(), bindings: ctrl };
        let alt_layer = Layer { name: "alt".to_owned(), bindings: alt };
        assert(ctrl_layer@.bindings =~= seq![("hold"@, "true"@)]);
        assert(alt_layer@.bindings =~= seq![("hold"@, "true"@)]);
        let mut maps: Vec<Layer> = Vec::new();
        maps.push(ctrl_layer);
        maps.push(alt_layer);
        assert(layer_views(maps@) =~= seq![ctrl_layer@, alt_layer@]);
        PreSettings { success: None, this: None, keymaps: Some(maps) }
    }
}

} // verus!
