//! The state of a terminal front-end for a text-editing back-end that runs
//! as a process of its own.
//!
//! The back-end owns the documents. The front-end holds, for each open
//! document, the lines that the back-end has sent (`cache`), the cursor
//! (`cursor`) and the lines that are on screen (`window`), and draws them
//! (`view`, `compose`, `column`, `style`, `screen`). The editor routes the
//! notifications of the back-end to the views (`editor`, `registry`), reads
//! commands (`cmd`, `command_prompt`) and keys (`config`, `settings`), and
//! says what the event loop does next (`tui`). Reading the terminal, talking
//! to the back-end and writing to the screen are left to the program around
//! the library: the library takes events and gives back requests and frames.

pub mod cache;
pub mod cmd;
pub mod column;
pub mod command_prompt;
pub mod compose;
pub mod config;
pub mod cursor;
pub mod editor;
pub mod event;
pub mod line;
pub mod operation;
pub mod registry;
pub mod screen;
pub mod settings;
pub mod strip;
pub mod style;
pub mod text;
pub mod tui;
pub mod view;
pub mod window;
