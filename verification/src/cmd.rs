//! Commands: what the user can ask of the editor, and how the text typed at
//! the command prompt is read as a command.

use vstd::prelude::*;
use vstd::string::StrSliceExecFns;
use crate::text::{
    chars_of, halves, number, parse_number, pieces, same_text, split, split_once,
};

verus! {

broadcast use vstd::string::group_string_axioms;

/// What the command prompt is open for.
#[derive(Clone, Copy, Debug, PartialEq, Eq, Structural)]
pub enum CommandPromptMode {
    /// The prompt is not shown.
    Inactive,
    /// What is typed is read as a command.
    Command,
    /// What is typed is searched for.
    Find,
}

/// The unit of a relative move.
#[derive(Clone, Copy, Debug, PartialEq, Eq, Structural)]
pub enum RelativeMoveDistance {
    /// One character.
    Characters,
    /// One line.
    Lines,
    /// To the next word.
    Words,
    /// To the end of the word.
    WordEnds,
    /// To the next subword.
    Subwords,
    /// To the end of the subword.
    SubwordEnds,
    /// One page.
    Pages,
}

/// A move from where the cursor is. With `extend` the selection goes along.
#[derive(Clone, Copy, Debug, PartialEq, Eq, Structural)]
pub struct RelativeMove {
    pub by: RelativeMoveDistance,
    pub forward: bool,
    pub extend: bool,
}

/// The target of an absolute move.
#[derive(Clone, Copy, Debug, PartialEq, Eq, Structural)]
pub enum AbsoluteMovePoint {
    /// The beginning of the file.
    BOF,
    /// The end of the file.
    EOF,
    /// The beginning of the line.
    BOL,
    /// The end of the line.
    EOL,
    /// The brackets around the cursor.
    Brackets,
    /// The line of this number.
    Line(u64),
}

/// A move to a place in the document. With `extend` the selection goes along.
#[derive(Clone, Copy, Debug, PartialEq, Eq, Structural)]
pub struct AbsoluteMove {
    pub to: AbsoluteMovePoint,
    pub extend: bool,
}

/// Another cursor on the line below (`forward`) or above.
#[derive(Clone, Copy, Debug, PartialEq, Eq, Structural)]
pub struct ExpandLinesDirection {
    pub forward: bool,
}

/// What to search for, and how.
#[derive(Debug, PartialEq, Eq)]
pub struct FindConfig {
    pub search_term: String,
    pub case_sensitive: bool,
    pub regex: bool,
    pub whole_words: bool,
}

/// What a `FindConfig` holds.
pub struct FindConfigView {
    pub search_term: Seq<char>,
    pub case_sensitive: bool,
    pub regex: bool,
    pub whole_words: bool,
}

impl View for FindConfig {
    type V = FindConfigView;

    open spec fn view(&self) -> FindConfigView {
        FindConfigView {
            search_term: self.search_term@,
            case_sensitive: self.case_sensitive,
            regex: self.regex,
            whole_words: self.whole_words,
        }
    }
}

/// What the user can ask of the editor.
#[derive(Debug, PartialEq, Eq)]
pub enum Command {
    /// Close the command prompt.
    Cancel,
    /// Leave the editor.
    Quit,
    /// Save the view of this id, or the view that is shown.
    Save(Option<usize>),
    /// Delete the character before the cursor.
    Back,
    /// Delete the character under the cursor.
    Delete,
    /// Open the file of this name, or an empty view.
    Open(Option<String>),
    /// Show the next view.
    NextBuffer,
    /// Show the view before this one.
    PrevBuffer,
    /// Move from where the cursor is.
    RelativeMove(RelativeMove),
    /// Move to a place in the document.
    AbsoluteMove(AbsoluteMove),
    /// Use the color theme of this name.
    SetTheme(String),
    /// Show or hide the line numbers.
    ToggleLineNumbers,
    /// Open the command prompt.
    OpenPrompt(CommandPromptMode),
    /// Insert a character.
    Insert(char),
    /// Undo the last change.
    Undo,
    /// Redo the change that was undone last.
    Redo,
    /// Search.
    Find(FindConfig),
    /// Go to the next match of the search.
    FindNext,
    /// Go to the match of the search before this one.
    FindPrev,
    /// Find the word under the cursor and put another cursor there.
    FindUnderExpand,
    /// Put another cursor on the line above or below.
    CursorExpandLines(ExpandLinesDirection),
    /// Copy the selection.
    CopySelection,
    /// Insert what was copied or cut last.
    Paste,
    /// Cut the selection.
    CutSelection,
    /// Close the view that is shown.
    CloseCurrentView,
    /// Select the whole text.
    SelectAll,
}

/// What a `Command` holds.
pub enum CommandView {
    Cancel,
    Quit,
    Save(Option<usize>),
    Back,
    Delete,
    Open(Option<Seq<char>>),
    NextBuffer,
    PrevBuffer,
    RelativeMove(RelativeMove),
    AbsoluteMove(AbsoluteMove),
    SetTheme(Seq<char>),
    ToggleLineNumbers,
    OpenPrompt(CommandPromptMode),
    Insert(char),
    Undo,
    Redo,
    Find(FindConfigView),
    FindNext,
    FindPrev,
    FindUnderExpand,
    CursorExpandLines(ExpandLinesDirection),
    CopySelection,
    Paste,
    CutSelection,
    CloseCurrentView,
    SelectAll,
}

impl View for Command {
    type V = CommandView;

    open spec fn view(&self) -> CommandView {
        match *self {
            Command::Cancel => CommandView::Cancel,
            Command::Quit => CommandView::Quit,
            Command::Back => CommandView::Back,
            Command::Delete => CommandView::Delete,
            Command::NextBuffer => CommandView::NextBuffer,
            Command::PrevBuffer => CommandView::PrevBuffer,
            Command::ToggleLineNumbers => CommandView::ToggleLineNumbers,
            Command::Undo => CommandView::Undo,
            Command::Redo => CommandView::Redo,
            Command::FindNext => CommandView::FindNext,
            Command::FindPrev => CommandView::FindPrev,
            Command::FindUnderExpand => CommandView::FindUnderExpand,
            Command::CopySelection => CommandView::CopySelection,
            Command::Paste => CommandView::Paste,
            Command::CutSelection => CommandView::CutSelection,
            Command::CloseCurrentView => CommandView::CloseCurrentView,
            Command::SelectAll => CommandView::SelectAll,
            Command::Save(view_id) => CommandView::Save(view_id),
            Command::Open(file) => CommandView::Open(
                match file {
                    Some(name) => Some(name@),
                    None => None,
                },
            ),
            Command::RelativeMove(relative_move) => CommandView::RelativeMove(relative_move),
            Command::AbsoluteMove(absolute_move) => CommandView::AbsoluteMove(absolute_move),
            Command::SetTheme(theme) => CommandView::SetTheme(theme@),
            Command::OpenPrompt(mode) => CommandView::OpenPrompt(mode),
            Command::Insert(c) => CommandView::Insert(c),
            Command::Find(config) => CommandView::Find(config@),
            Command::CursorExpandLines(direction) => CommandView::CursorExpandLines(direction),
        }
    }
}

impl Clone for FindConfig {
    fn clone(&self) -> (config: Self)
        ensures
            config@ == self@,
    {
        FindConfig {
            search_term: self.search_term.clone(),
            case_sensitive: self.case_sensitive,
            regex: self.regex,
            whole_words: self.whole_words,
        }
    }
}

impl Clone for Command {
    fn clone(&self) -> (command: Self)
        ensures
            command@ == self@,
    {
        match self {
            Command::Cancel => Command::Cancel,
            Command::Quit => Command::Quit,
            Command::Back => Command::Back,
            Command::Delete => Command::Delete,
            Command::NextBuffer => Command::NextBuffer,
            Command::PrevBuffer => Command::PrevBuffer,
            Command::ToggleLineNumbers => Command::ToggleLineNumbers,
            Command::Undo => Command::Undo,
            Command::Redo => Command::Redo,
            Command::FindNext => Command::FindNext,
            Command::FindPrev => Command::FindPrev,
            Command::FindUnderExpand => Command::FindUnderExpand,
            Command::CopySelection => Command::CopySelection,
            Command::Paste => Command::Paste,
            Command::CutSelection => Command::CutSelection,
            Command::CloseCurrentView => Command::CloseCurrentView,
            Command::SelectAll => Command::SelectAll,
            Command::Save(view_id) => Command::Save(*view_id),
            Command::Open(file) => Command::Open(
                match file {
                    Some(name) => Some(name.clone()),
                    None => None,
                },
            ),
            Command::RelativeMove(relative_move) => Command::RelativeMove(*relative_move),
            Command::AbsoluteMove(absolute_move) => Command::AbsoluteMove(*absolute_move),
            Command::SetTheme(theme) => Command::SetTheme(theme.clone()),
            Command::OpenPrompt(mode) => Command::OpenPrompt(*mode),
            Command::Insert(c) => Command::Insert(*c),
            Command::Find(config) => Command::Find(config.clone()),
            Command::CursorExpandLines(direction) => Command::CursorExpandLines(*direction),
        }
    }
}

/// Whether two commands are the same.
pub fn same_command(command: &Command, other: &Command) -> (same: bool)
    ensures
        same == (command@ == other@),
{
    match (command, other) {
        (Command::Cancel, Command::Cancel) => true,
        (Command::Quit, Command::Quit) => true,
        (Command::Back, Command::Back) => true,
        (Command::Delete, Command::Delete) => true,
        (Command::NextBuffer, Command::NextBuffer) => true,
        (Command::PrevBuffer, Command::PrevBuffer) => true,
        (Command::ToggleLineNumbers, Command::ToggleLineNumbers) => true,
        (Command::Undo, Command::Undo) => true,
        (Command::Redo, Command::Redo) => true,
        (Command::FindNext, Command::FindNext) => true,
        (Command::FindPrev, Command::FindPrev) => true,
        (Command::FindUnderExpand, Command::FindUnderExpand) => true,
        (Command::CopySelection, Command::CopySelection) => true,
        (Command::Paste, Command::Paste) => true,
        (Command::CutSelection, Command::CutSelection) => true,
        (Command::CloseCurrentView, Command::CloseCurrentView) => true,
        (Command::SelectAll, Command::SelectAll) => true,
        (Command::Save(view_id), Command::Save(other_id)) => match (view_id, other_id) {
            (Some(id), Some(other)) => *id == *other,
            (None, None) => true,
            _ => false,
        },
        (Command::Open(file), Command::Open(other_file)) => match (file, other_file) {
            (Some(name), Some(other_name)) => same_text(name.as_str(), other_name.as_str()),
            (None, None) => true,
            _ => false,
        },
        (Command::RelativeMove(relative_move), Command::RelativeMove(other_move)) => {
            *relative_move == *other_move
        },
        (Command::AbsoluteMove(absolute_move), Command::AbsoluteMove(other_move)) => {
            *absolute_move == *other_move
        },
        (Command::SetTheme(theme), Command::SetTheme(other_theme)) => same_text(
            theme.as_str(),
            other_theme.as_str(),
        ),
        (Command::OpenPrompt(mode), Command::OpenPrompt(other_mode)) => *mode == *other_mode,
        (Command::Insert(c), Command::Insert(other_c)) => *c == *other_c,
        (Command::Find(config), Command::Find(other_config)) => {
            same_text(config.search_term.as_str(), other_config.search_term.as_str())
                && config.case_sensitive == other_config.case_sensitive && config.regex
                == other_config.regex && config.whole_words == other_config.whole_words
        },
        (
            Command::CursorExpandLines(direction),
            Command::CursorExpandLines(other_direction),
        ) => *direction == *other_direction,
        _ => false,
    }
}

/// Why a text was not read as a command.
#[derive(Clone, Debug, PartialEq, Eq)]
pub enum ParseCommandError {
    /// The command takes no argument, or not this one.
    UnexpectedArgument,
    /// The command needs an argument.
    ExpectedArgument { cmd: String },
    /// The command was given more arguments than it takes.
    TooManyArguments { cmd: String, expected: usize, found: usize },
    /// No command or argument of this name is known.
    UnknownCommand(String),
}

/// What a `ParseCommandError` holds.
pub enum ParseCommandErrorView {
    UnexpectedArgument,
    ExpectedArgument { cmd: Seq<char> },
    TooManyArguments { cmd: Seq<char>, expected: nat, found: nat },
    UnknownCommand(Seq<char>),
}

impl View for ParseCommandError {
    type V = ParseCommandErrorView;

    open spec fn view(&self) -> ParseCommandErrorView {
        match *self {
            ParseCommandError::UnexpectedArgument => ParseCommandErrorView::UnexpectedArgument,
            ParseCommandError::ExpectedArgument { cmd } => ParseCommandErrorView::ExpectedArgument {
                cmd: cmd@,
            },
            ParseCommandError::TooManyArguments {
                cmd,
                expected,
                found,
            } => ParseCommandErrorView::TooManyArguments {
                cmd: cmd@,
                expected: expected as nat,
                found: found as nat,
            },
            ParseCommandError::UnknownCommand(name) => ParseCommandErrorView::UnknownCommand(name@),
        }
    }
}

/// What reading a command gives: the command, or why there is none.
pub type Parsed = Result<CommandView, ParseCommandErrorView>;

/// What `result` holds.
pub open spec fn parsed(result: Result<Command, ParseCommandError>) -> Parsed {
    match result {
        Ok(command) => Ok(command@),
        Err(error) => Err(error@),
    }
}

/// What `text` holds, if there is one.
pub open spec fn argument(text: Option<&str>) -> Option<Seq<char>> {
    match text {
        Some(text) => Some(text@),
        None => None,
    }
}

/// Reads the text typed after a command's name as the command.
pub trait FromPrompt {
    fn from_prompt(vals: Option<&str>) -> Result<Command, ParseCommandError>;
}

/// The error of a command that was given no argument.
pub open spec fn expected_argument(cmd: Seq<char>) -> Parsed {
    Err(ParseCommandErrorView::ExpectedArgument { cmd })
}

/// The command `move` with the arguments `args`: a direction, and after it
/// any word to say that the selection goes along.
pub open spec fn relative_move_command(args: Option<Seq<char>>) -> Parsed {
    match args {
        None => expected_argument("move"@),
        Some(text) => {
            let vals = pieces(text, ' ');
            let extend = vals.len() == 2;
            let word = vals[0];
            if vals.len() > 2 {
                Err(
                    ParseCommandErrorView::TooManyArguments {
                        cmd: "move"@,
                        expected: 2,
                        found: vals.len(),
                    },
                )
            } else if word == "d"@ || word == "down"@ {
                Ok(
                    CommandView::RelativeMove(
                        RelativeMove { by: RelativeMoveDistance::Lines, forward: true, extend },
                    ),
                )
            } else if word == "u"@ || word == "up"@ {
                Ok(
                    CommandView::RelativeMove(
                        RelativeMove { by: RelativeMoveDistance::Lines, forward: false, extend },
                    ),
                )
            } else if word == "r"@ || word == "right"@ {
                Ok(
                    CommandView::RelativeMove(
                        RelativeMove { by: RelativeMoveDistance::Characters, forward: true, extend },
                    ),
                )
            } else if word == "l"@ || word == "left"@ {
                Ok(
                    CommandView::RelativeMove(
                        RelativeMove { by: RelativeMoveDistance::Characters, forward: false, extend },
                    ),
                )
            } else if word == "pd"@ || word == "page-down"@ {
                Ok(
                    CommandView::RelativeMove(
                        RelativeMove { by: RelativeMoveDistance::Pages, forward: true, extend },
                    ),
                )
            } else if word == "pu"@ || word == "page-up"@ {
                Ok(
                    CommandView::RelativeMove(
                        RelativeMove { by: RelativeMoveDistance::Pages, forward: false, extend },
                    ),
                )
            } else {
                Err(ParseCommandErrorView::UnknownCommand(word))
            }
        },
    }
}

/// The command `move_to` with the arguments `args`: a place, and after it
/// any word to say that the selection goes along; or a line number.
pub open spec fn absolute_move_command(args: Option<Seq<char>>) -> Parsed {
    match args {
        None => expected_argument("move_to"@),
        Some(text) => {
            let vals = pieces(text, ' ');
            let extend = vals.len() == 2;
            let word = vals[0];
            if vals.len() > 2 {
                Err(
                    ParseCommandErrorView::TooManyArguments {
                        cmd: "move_to"@,
                        expected: 2,
                        found: vals.len(),
                    },
                )
            } else if word == "bof"@ || word == "beginning-of-file"@ {
                Ok(CommandView::AbsoluteMove(AbsoluteMove { to: AbsoluteMovePoint::BOF, extend }))
            } else if word == "eof"@ || word == "end-of-file"@ {
                Ok(CommandView::AbsoluteMove(AbsoluteMove { to: AbsoluteMovePoint::EOF, extend }))
            } else if word == "bol"@ || word == "beginning-of-line"@ {
                Ok(CommandView::AbsoluteMove(AbsoluteMove { to: AbsoluteMovePoint::BOL, extend }))
            } else if word == "eol"@ || word == "end-of-line"@ {
                Ok(CommandView::AbsoluteMove(AbsoluteMove { to: AbsoluteMovePoint::EOL, extend }))
            } else {
                match number(word) {
                    Some(line) => if line <= u64::MAX {
                        Ok(
                            CommandView::AbsoluteMove(
                                AbsoluteMove {
                                    to: AbsoluteMovePoint::Line(line as u64),
                                    extend: false,
                                },
                            ),
                        )
                    } else {
                        Err(ParseCommandErrorView::UnknownCommand(word))
                    },
                    None => Err(ParseCommandErrorView::UnknownCommand(word)),
                }
            }
        },
    }
}

/// The command `select_lines` with the argument `args`.
pub open spec fn expand_lines_command(args: Option<Seq<char>>) -> Parsed {
    match args {
        None => expected_argument("select_lines"@),
        Some(word) => {
            if word == "a"@ || word == "above"@ {
                Ok(CommandView::CursorExpandLines(ExpandLinesDirection { forward: false }))
            } else if word == "b"@ || word == "below"@ {
                Ok(CommandView::CursorExpandLines(ExpandLinesDirection { forward: true }))
            } else {
                Err(ParseCommandErrorView::UnknownCommand(word))
            }
        },
    }
}

/// Whether `word` is made of the letters that configure a search: `c` for
/// case sensitive, `r` for a regular expression, `w` for whole words.
pub open spec fn is_search_control(word: Seq<char>) -> bool {
    &&& word.len() <= 3
    &&& forall|i: int| 0 <= i < word.len() ==> word[i] == 'c' || word[i] == 'r' || word[i] == 'w'
}

/// The command `find` with the arguments `args`: what to search for, after
/// the letters that configure the search if the text starts with such a word.
pub open spec fn find_command(args: Option<Seq<char>>) -> Parsed {
    match args {
        None => expected_argument("find"@),
        Some(text) => {
            if text.len() == 0 {
                expected_argument("find"@)
            } else {
                let parts = halves(text, ' ');
                if parts.1 is Some && is_search_control(parts.0) {
                    Ok(
                        CommandView::Find(
                            FindConfigView {
                                search_term: parts.1->0,
                                case_sensitive: parts.0.contains('c'),
                                regex: parts.0.contains('r'),
                                whole_words: parts.0.contains('w'),
                            },
                        ),
                    )
                } else {
                    Ok(
                        CommandView::Find(
                            FindConfigView {
                                search_term: text,
                                case_sensitive: false,
                                regex: false,
                                whole_words: false,
                            },
                        ),
                    )
                }
            }
        },
    }
}

/// The command `theme` with the argument `args`.
pub open spec fn theme_command(args: Option<Seq<char>>) -> Parsed {
    match args {
        None => expected_argument("theme"@),
        Some(theme) => Ok(CommandView::SetTheme(theme)),
    }
}

/// The command `open` with the argument `args`, when `expanded` is the file
/// name with the home directory and the variables of the environment filled
/// in, or `None` when that failed.
pub open spec fn open_command(args: Option<Seq<char>>, expanded: Option<Seq<char>>) -> Parsed {
    match args {
        None => Ok(CommandView::Open(None)),
        Some(name) => match expanded {
            Some(path) => Ok(CommandView::Open(Some(path))),
            None => Err(ParseCommandErrorView::UnknownCommand(name)),
        },
    }
}

/// Whether the environment can be filled into `name`: no dollar sign in it
/// stands before a character that takes more than one byte.
pub open spec fn expandable(name: Seq<char>) -> bool {
    forall|i: int|
        0 <= i && i + 1 < name.len() && #[trigger] name[i] == '$' ==> (name[i + 1] as u32) < 0x80
}

/// The command `open` with the argument `args`, when the environment makes
/// `expanded` of a file name that it can be filled into. A file name that it
/// cannot be filled into is an unknown command.
pub open spec fn open_outcome(args: Option<Seq<char>>, expanded: Option<Seq<char>>) -> Parsed {
    match args {
        Some(name) => if expandable(name) {
            open_command(args, expanded)
        } else {
            open_command(args, None)
        },
        None => open_command(args, expanded),
    }
}

/// The command of the name `name` that takes no argument, if there is one.
pub open spec fn simple_command(name: Seq<char>) -> Option<CommandView> {
    if name == "select_all"@ {
        Some(CommandView::SelectAll)
    } else if name == "close"@ {
        Some(CommandView::CloseCurrentView)
    } else if name == "copy"@ {
        Some(CommandView::CopySelection)
    } else if name == "cut"@ {
        Some(CommandView::CutSelection)
    } else if name == "paste"@ {
        Some(CommandView::Paste)
    } else if name == "find_under_expand"@ {
        Some(CommandView::FindUnderExpand)
    } else if name == "find_next"@ {
        Some(CommandView::FindNext)
    } else if name == "find_prev"@ {
        Some(CommandView::FindPrev)
    } else if name == "hide_overlay"@ {
        Some(CommandView::Cancel)
    } else if name == "save"@ {
        Some(CommandView::Save(None))
    } else if name == "exit"@ {
        Some(CommandView::Quit)
    } else if name == "left_delete"@ {
        Some(CommandView::Back)
    } else if name == "right_delete"@ {
        Some(CommandView::Delete)
    } else if name == "next_view"@ {
        Some(CommandView::NextBuffer)
    } else if name == "prev_view"@ {
        Some(CommandView::PrevBuffer)
    } else if name == "undo"@ {
        Some(CommandView::Undo)
    } else if name == "redo"@ {
        Some(CommandView::Redo)
    } else if name == "line-numbers"@ {
        Some(CommandView::ToggleLineNumbers)
    } else if name == "open-prompt"@ {
        Some(CommandView::OpenPrompt(CommandPromptMode::Command))
    } else {
        None
    }
}

/// What the command prompt makes of the command `name` with the arguments
/// `args`; `None` for a name that it does not know. The command `open` is
/// left out: what it gives depends on the environment.
pub open spec fn prompt_command(name: Seq<char>, args: Option<Seq<char>>) -> Option<Parsed> {
    if simple_command(name) is Some {
        Some(Ok(simple_command(name)->0))
    } else if name == "move"@ {
        Some(relative_move_command(args))
    } else if name == "move_to"@ {
        Some(absolute_move_command(args))
    } else if name == "select_lines"@ {
        Some(expand_lines_command(args))
    } else if name == "theme"@ {
        Some(theme_command(args))
    } else if name == "find"@ {
        Some(find_command(args))
    } else if name == "show_overlay"@ || name == "show_panel"@ {
        Some(Err(ParseCommandErrorView::UnexpectedArgument))
    } else {
        None
    }
}

/// The error of the command `cmd` that was given `found` arguments and takes
/// two.
fn too_many_arguments(cmd: &str, found: usize) -> (error: ParseCommandError)
    ensures
        error@ == (ParseCommandErrorView::TooManyArguments {
            cmd: cmd@,
            expected: 2,
            found: found as nat,
        }),
{
    ParseCommandError::TooManyArguments { cmd: cmd.to_owned(), expected: 2, found }
}

/// The error of the command `cmd` that was given no argument.
fn missing_argument(cmd: &str) -> (error: ParseCommandError)
    ensures
        Err::<CommandView, ParseCommandErrorView>(error@) == expected_argument(cmd@),
{
    ParseCommandError::ExpectedArgument { cmd: cmd.to_owned() }
}

/// The error of a name that no command or argument has.
fn unknown_command(name: &str) -> (error: ParseCommandError)
    ensures
        error@ == ParseCommandErrorView::UnknownCommand(name@),
{
    ParseCommandError::UnknownCommand(name.to_owned())
}

impl FromPrompt for RelativeMove {
    fn from_prompt(args: Option<&str>) -> (result: Result<Command, ParseCommandError>)
        ensures
            parsed(result) == relative_move_command(argument(args)),
    {
        let text = match args {
            Some(text) => text,
            None => {
                return Err(missing_argument("move"));
            },
        };
        let vals = split(text, ' ');
        if vals.len() > 2 {
            return Err(too_many_arguments("move", vals.len()));
        }
        let extend = vals.len() == 2;
        let word = vals[0].as_str();
        assert(word@ == pieces(text@, ' ')[0]);
        if same_text(word, "d") || same_text(word, "down") {
            Ok(
                Command::RelativeMove(
                    RelativeMove { by: RelativeMoveDistance::Lines, forward: true, extend },
                ),
            )
        } else if same_text(word, "u") || same_text(word, "up") {
            Ok(
                Command::RelativeMove(
                    RelativeMove { by: RelativeMoveDistance::Lines, forward: false, extend },
                ),
            )
        } else if same_text(word, "r") || same_text(word, "right") {
            Ok(
                Command::RelativeMove(
                    RelativeMove { by: RelativeMoveDistance::Characters, forward: true, extend },
                ),
            )
        } else if same_text(word, "l") || same_text(word, "left") {
            Ok(
                Command::RelativeMove(
                    RelativeMove { by: RelativeMoveDistance::Characters, forward: false, extend },
                ),
            )
        } else if same_text(word, "pd") || same_text(word, "page-down") {
            Ok(
                Command::RelativeMove(
                    RelativeMove { by: RelativeMoveDistance::Pages, forward: true, extend },
                ),
            )
        } else if same_text(word, "pu") || same_text(word, "page-up") {
            Ok(
                Command::RelativeMove(
                    RelativeMove { by: RelativeMoveDistance::Pages, forward: false, extend },
                ),
            )
        } else {
            Err(unknown_command(word))
        }
    }
}

impl FromPrompt for AbsoluteMove {
    fn from_prompt(args: Option<&str>) -> (result: Result<Command, ParseCommandError>)
        ensures
            parsed(result) == absolute_move_command(argument(args)),
    {
        let text = match args {
            Some(text) => text,
            None => {
                return Err(missing_argument("move_to"));
            },
        };
        let vals = split(text, ' ');
        if vals.len() > 2 {
            return Err(too_many_arguments("move_to", vals.len()));
        }
        let extend = vals.len() == 2;
        let word = vals[0].as_str();
        assert(word@ == pieces(text@, ' ')[0]);
        if same_text(word, "bof") || same_text(word, "beginning-of-file") {
            Ok(Command::AbsoluteMove(AbsoluteMove { to: AbsoluteMovePoint::BOF, extend }))
        } else if same_text(word, "eof") || same_text(word, "end-of-file") {
            Ok(Command::AbsoluteMove(AbsoluteMove { to: AbsoluteMovePoint::EOF, extend }))
        } else if same_text(word, "bol") || same_text(word, "beginning-of-line") {
            Ok(Command::AbsoluteMove(AbsoluteMove { to: AbsoluteMovePoint::BOL, extend }))
        } else if same_text(word, "eol") || same_text(word, "end-of-line") {
            Ok(Command::AbsoluteMove(AbsoluteMove { to: AbsoluteMovePoint::EOL, extend }))
        } else {
            match parse_number(word, u64::MAX) {
                Some(line) => Ok(
                    Command::AbsoluteMove(
                        AbsoluteMove { to: AbsoluteMovePoint::Line(line), extend: false },
                    ),
                ),
                None => Err(unknown_command(word)),
            }
        }
    }
}

impl FromPrompt for ExpandLinesDirection {
    fn from_prompt(args: Option<&str>) -> (result: Result<Command, ParseCommandError>)
        ensures
            parsed(result) == expand_lines_command(argument(args)),
    {
        let word = match args {
            Some(word) => word,
            None => {
                return Err(missing_argument("select_lines"));
            },
        };
        if same_text(word, "a") || same_text(word, "above") {
            Ok(Command::CursorExpandLines(ExpandLinesDirection { forward: false }))
        } else if same_text(word, "b") || same_text(word, "below") {
            Ok(Command::CursorExpandLines(ExpandLinesDirection { forward: true }))
        } else {
            Err(unknown_command(word))
        }
    }
}

impl FromPrompt for FindConfig {
    fn from_prompt(args: Option<&str>) -> (result: Result<Command, ParseCommandError>)
        ensures
            parsed(result) == find_command(argument(args)),
    {
        let text = match args {
            Some(text) => text,
            None => {
                return Err(missing_argument("find"));
            },
        };
        if text.unicode_len() == 0 {
            return Err(missing_argument("find"));
        }
        let (first, rest) = split_once(text, ' ');
        let mut search_term = text.to_owned();
        let mut case_sensitive = false;
        let mut regex = false;
        let mut whole_words = false;
        if let Some(needle) = rest {
            let control = chars_of(first.as_str());
            if control.len() <= 3 {
                let mut shadows = [false, false, false];
                let mut failed = false;
                let mut i: usize = 0;
                while i < control.len()
                    invariant
                        i <= control.len(),
                        !failed ==> forall|j: int|
                            0 <= j < i ==> control[j] == 'c' || control[j] == 'r' || control[j]
                                == 'w',
                        failed ==> !is_search_control(control@),
                        shadows[0] == control@.take(i as int).contains('c'),
                        shadows[1] == control@.take(i as int).contains('r'),
                        shadows[2] == control@.take(i as int).contains('w'),
                    decreases control.len() - i,
                {
                    let ghost seen = control@.take(i as int);
                    let ghost next = control@.take(i + 1);
                    assert(next =~= seen.push(control[i as int]));
                    assert forall|c: char| next.contains(c) == (seen.contains(c) || c
                        == control[i as int]) by {
                        if seen.contains(c) {
                            let j = choose|j: int| 0 <= j < seen.len() && seen[j] == c;
                            assert(next[j] == c);
                        }
                        if c == control[i as int] {
                            assert(next[i as int] == c);
                        }
                    }
                    let cc = control[i];
                    if cc == 'c' {
                        shadows[0] = true;
                    } else if cc == 'r' {
                        shadows[1] = true;
                    } else if cc == 'w' {
                        shadows[2] = true;
                    } else {
                        failed = true;
                    }
                    i = i + 1;
                }
                assert(control@.take(control.len() as int) =~= control@);
                if !failed {
                    search_term = needle;
                    case_sensitive = shadows[0];
                    regex = shadows[1];
                    whole_words = shadows[2];
                }
            }
        }
        Ok(Command::Find(FindConfig { search_term, case_sensitive, regex, whole_words }))
    }
}

/// `shellexpand::full`: the text with a leading tilde and the variables of
/// the environment filled in, or `None` when a variable is unknown. What
/// comes back depends on the environment, so nothing is said of it. A dollar
/// sign before a character of more than one byte is left out: the function
/// cuts the text two bytes after such a dollar sign, which is inside the
/// character.
#[verifier::external_body]
fn expand(name: &str) -> (expanded: Option<String>)
    requires
        expandable(name@),
{
    shellexpand::full(name).ok().map(|path| path.to_string())
}

/// Whether the environment can be filled into `name`.
pub fn is_expandable(name: &str) -> (able: bool)
    ensures
        able == expandable(name@),
{
    let chars = chars_of(name);
    let mut i: usize = 0;
    while i < chars.len()
        invariant
            i <= chars.len(),
            chars@ == name@,
            forall|j: int|
                0 <= j < i && j + 1 < name@.len() && #[trigger] name@[j] == '$' ==> (name@[j
                    + 1] as u32) < 0x80,
        decreases chars.len() - i,
    {
        if chars[i] == '$' && i + 1 < chars.len() {
            if chars[i + 1] as u32 >= 0x80 {
                assert(name@[i as int] == '$');
                return false;
            }
        }
        i = i + 1;
    }
    true
}

/// What `expanded` holds, if there is one.
pub open spec fn expansion(expanded: Option<String>) -> Option<Seq<char>> {
    match expanded {
        Some(path) => Some(path@),
        None => None,
    }
}

/// The command `open` for the file name `args`, when filling in the
/// environment gave `expanded`.
pub fn opened(args: Option<&str>, expanded: Option<String>) -> (result: Result<
    Command,
    ParseCommandError,
>)
    ensures
        parsed(result) == open_command(argument(args), expansion(expanded)),
{
    match args {
        None => Ok(Command::Open(None)),
        Some(name) => match expanded {
            Some(path) => Ok(Command::Open(Some(path))),
            None => Err(unknown_command(name)),
        },
    }
}

/// The command `open` for the file name `args`, with the home directory and
/// the variables of the environment filled in.
pub fn open_from_prompt(args: Option<&str>) -> (result: Result<Command, ParseCommandError>)
    ensures
        exists|expanded: Option<Seq<char>>| parsed(result) == open_outcome(argument(args), expanded),
{
    let expanded = match args {
        Some(name) => {
            if is_expandable(name) {
                expand(name)
            } else {
                None
            }
        },
        None => None,
    };
    let ghost view = expansion(expanded);
    let result = opened(args, expanded);
    assert(parsed(result) == open_outcome(argument(args), view));
    result
}

/// The command of the name `name` that takes no argument, if there is one.
fn simple_from_prompt(name: &str) -> (command: Option<Command>)
    ensures
        match simple_command(name@) {
            Some(view) => command is Some && command->0@ == view,
            None => command is None,
        },
{
    if same_text(name, "select_all") {
        Some(Command::SelectAll)
    } else if same_text(name, "close") {
        Some(Command::CloseCurrentView)
    } else if same_text(name, "copy") {
        Some(Command::CopySelection)
    } else if same_text(name, "cut") {
        Some(Command::CutSelection)
    } else if same_text(name, "paste") {
        Some(Command::Paste)
    } else if same_text(name, "find_under_expand") {
        Some(Command::FindUnderExpand)
    } else if same_text(name, "find_next") {
        Some(Command::FindNext)
    } else if same_text(name, "find_prev") {
        Some(Command::FindPrev)
    } else if same_text(name, "hide_overlay") {
        Some(Command::Cancel)
    } else if same_text(name, "save") {
        Some(Command::Save(None))
    } else if same_text(name, "exit") {
        Some(Command::Quit)
    } else if same_text(name, "left_delete") {
        Some(Command::Back)
    } else if same_text(name, "right_delete") {
        Some(Command::Delete)
    } else if same_text(name, "next_view") {
        Some(Command::NextBuffer)
    } else if same_text(name, "prev_view") {
        Some(Command::PrevBuffer)
    } else if same_text(name, "undo") {
        Some(Command::Undo)
    } else if same_text(name, "redo") {
        Some(Command::Redo)
    } else if same_text(name, "line-numbers") {
        Some(Command::ToggleLineNumbers)
    } else if same_text(name, "open-prompt") {
        Some(Command::OpenPrompt(CommandPromptMode::Command))
    } else {
        None
    }
}

/// Reads the command `name` with the arguments `args`, as the command prompt
/// does; `None` for a name that the prompt does not know.
pub fn from_prompt(name: &str, args: Option<&str>) -> (result: Option<
    Result<Command, ParseCommandError>,
>)
    ensures
        name@ != "open"@ ==> match prompt_command(name@, argument(args)) {
            Some(command) => result is Some && parsed(result->0) == command,
            None => result is None,
        },
        name@ == "open"@ ==> result is Some && exists|expanded: Option<Seq<char>>|
            parsed(result->0) == open_outcome(argument(args), expanded),
{
    if same_text(name, "open") {
        return Some(open_from_prompt(args));
    }
    match simple_from_prompt(name) {
        Some(command) => {
            return Some(Ok(command));
        },
        None => {},
    }
    if same_text(name, "move") {
        Some(RelativeMove::from_prompt(args))
    } else if same_text(name, "move_to") {
        Some(AbsoluteMove::from_prompt(args))
    } else if same_text(name, "select_lines") {
        Some(ExpandLinesDirection::from_prompt(args))
    } else if same_text(name, "theme") {
        match args {
            Some(theme) => Some(Ok(Command::SetTheme(theme.to_owned()))),
            None => Some(Err(missing_argument("theme"))),
        }
    } else if same_text(name, "find") {
        Some(FindConfig::from_prompt(args))
    } else if same_text(name, "show_overlay") || same_text(name, "show_panel") {
        Some(Err(ParseCommandError::UnexpectedArgument))
    } else {
        None
    }
}

/// The names of the commands that the prompt knows, in the order in which it
/// offers them.
pub open spec fn command_list() -> Seq<Seq<char>> {
    seq![
        "select_all"@,
        "close"@,
        "copy"@,
        "cut"@,
        "paste"@,
        "find_under_expand"@,
        "find_next"@,
        "find_prev"@,
        "hide_overlay"@,
        "save"@,
        "exit"@,
        "left_delete"@,
        "right_delete"@,
        "next_view"@,
        "prev_view"@,
        "undo"@,
        "redo"@,
        "line-numbers"@,
        "open-prompt"@,
        "move"@,
        "move_to"@,
        "select_lines"@,
        "theme"@,
        "find"@,
        "open"@,
        "show_overlay"@,
        "show_panel"@,
    ]
}

/// The arguments that the prompt offers for the command `name`.
pub open spec fn subcommand_list(name: Seq<char>) -> Seq<Seq<char>> {
    if name == "move"@ {
        seq!["left"@, "right"@, "down"@, "up"@, "wordleft"@, "wordright"@, "wendleft"@, "wendright"@, "subwordleft"@, "subwordright"@, "subwendleft"@, "subwendright"@, "page-down"@, "page-up"@]
    } else if name == "move_to"@ {
        seq!["bof"@, "eof"@, "bol"@, "eol"@, "brackets"@, "<linenumber>"@]
    } else if name == "select_lines"@ {
        seq!["above"@, "below"@]
    } else if name == "theme"@ {
        seq!["<themename>"@]
    } else if name == "find"@ {
        seq!["<needle>"@]
    } else if name == "open"@ {
        seq!["<needle>"@]
    } else {
        Seq::empty()
    }
}

/// What `names` hold.
pub open spec fn name_views(names: Seq<&'static str>) -> Seq<Seq<char>> {
    names.map_values(|name: &'static str| name@)
}

/// The names of the commands that the prompt knows, in the order in which it
/// offers them.
pub fn command_names() -> (names: Vec<&'static str>)
    ensures
        name_views(names@) == command_list(),
{
    let names = vec![
        "select_all",
        "close",
        "copy",
        "cut",
        "paste",
        "find_under_expand",
        "find_next",
        "find_prev",
        "hide_overlay",
        "save",
        "exit",
        "left_delete",
        "right_delete",
        "next_view",
        "prev_view",
        "undo",
        "redo",
        "line-numbers",
        "open-prompt",
        "move",
        "move_to",
        "select_lines",
        "theme",
        "find",
        "open",
        "show_overlay",
        "show_panel",
    ];
    assert(name_views(names@) =~= command_list());
    names
}

/// The arguments that the prompt offers for the command `name`.
pub fn subcommands(name: &str) -> (arguments: Vec<&'static str>)
    ensures
        name_views(arguments@) == subcommand_list(name@),
{
    if same_text(name, "move") {
        let arguments = vec!["left", "right", "down", "up", "wordleft", "wordright", "wendleft", "wendright", "subwordleft", "subwordright", "subwendleft", "subwendright", "page-down", "page-up"];
        assert(name_views(arguments@) =~= subcommand_list(name@));
        arguments
    } else if same_text(name, "move_to") {
        let arguments = vec!["bof", "eof", "bol", "eol", "brackets", "<linenumber>"];
        assert(name_views(arguments@) =~= subcommand_list(name@));
        arguments
    } else if same_text(name, "select_lines") {
        let arguments = vec!["above", "below"];
        assert(name_views(arguments@) =~= subcommand_list(name@));
        arguments
    } else if same_text(name, "theme") {
        let arguments = vec!["<themename>"];
        assert(name_views(arguments@) =~= subcommand_list(name@));
        arguments
    } else if same_text(name, "find") {
        let arguments = vec!["<needle>"];
        assert(name_views(arguments@) =~= subcommand_list(name@));
        arguments
    } else if same_text(name, "open") {
        let arguments = vec!["<needle>"];
        assert(name_views(arguments@) =~= subcommand_list(name@));
        arguments
    } else {
        let arguments: Vec<&'static str> = Vec::new();
        assert(name_views(arguments@) =~= subcommand_list(name@));
        arguments
    }
}

} // verus!
