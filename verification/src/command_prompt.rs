//! The command prompt: a line of text that the user edits, and that is read
//! as a command when the user ends it.

use vstd::prelude::*;
use vstd::string::StringExecFns;
use crate::cmd::{
    command_list, command_names, find_command, from_prompt, open_outcome, prompt_command,
    subcommand_list, subcommands, name_views, Command, CommandPromptMode, CommandView, FindConfig,
    FromPrompt, ParseCommandError, ParseCommandErrorView, Parsed,
};
use crate::event::{Event, Key};
use crate::screen::{clear_line, clear_line_sequence, coordinate, goto, goto_sequence};
use crate::text::{
    halves, has_char_prefix, split_once, starts_with, text_of, text_views,
};

verus! {

broadcast use vstd::string::group_string_axioms;

/// The prompt: what it is open for, the text typed so far, where in the text
/// the cursor stands, and the texts that it offers to complete a command.
#[derive(Debug)]
pub struct CommandPrompt {
    pub mode: CommandPromptMode,
    pub dex: usize,
    pub chars: Vec<char>,
    pub prompt_texts: Vec<String>,
}

/// What the prompt offers for the command `name`: the name alone for a
/// command without arguments, else the name with each of its arguments; each
/// time followed by the key that is bound to the command, of which there is
/// none.
pub open spec fn offers(name: Seq<char>) -> Seq<Seq<char>> {
    let arguments = subcommand_list(name);
    if arguments.len() == 0 {
        seq![name + "   <>"@]
    } else {
        arguments.map_values(|argument: Seq<char>| name + seq![' '] + argument + "   <>"@)
    }
}

/// What the prompt offers for the first `count` commands.
pub open spec fn offers_upto(count: nat) -> Seq<Seq<char>>
    decreases count,
{
    if count == 0 {
        Seq::empty()
    } else {
        offers_upto((count - 1) as nat) + offers(command_list()[count - 1])
    }
}

/// The first `limit` of `texts` that start with `prefix`.
pub open spec fn first_matches(texts: Seq<Seq<char>>, prefix: Seq<char>, limit: nat) -> Seq<
    Seq<char>,
>
    decreases texts.len(),
{
    if texts.len() == 0 || limit == 0 {
        Seq::empty()
    } else if starts_with(texts[0], prefix) {
        seq![texts[0]] + first_matches(texts.drop_first(), prefix, (limit - 1) as nat)
    } else {
        first_matches(texts.drop_first(), prefix, limit)
    }
}

/// What the prompt makes of the text typed, once the user ends it: in find
/// mode a search for the text; in command mode the command whose name is the
/// first word, with the rest of the text as its arguments. `expanded` is what
/// the environment makes of the file name, for the command `open`.
pub open spec fn finalized(mode: CommandPromptMode, text: Seq<char>, expanded: Option<Seq<char>>)
    -> Result<Option<CommandView>, ParseCommandErrorView> {
    let parsed: Parsed = match mode {
        CommandPromptMode::Find => find_command(Some(text)),
        CommandPromptMode::Command => {
            let parts = halves(text, ' ');
            if parts.0 == "open"@ {
                open_outcome(parts.1, expanded)
            } else {
                match prompt_command(parts.0, parts.1) {
                    Some(command) => command,
                    None => Err(ParseCommandErrorView::UnexpectedArgument),
                }
            }
        },
        CommandPromptMode::Inactive => Err(ParseCommandErrorView::UnexpectedArgument),
    };
    match parsed {
        Ok(command) => Ok(Some(command)),
        Err(error) => Err(error),
    }
}

/// What `result` holds.
pub open spec fn outcome(result: Result<Option<Command>, ParseCommandError>) -> Result<
    Option<CommandView>,
    ParseCommandErrorView,
> {
    match result {
        Ok(Some(command)) => Ok(Some(command@)),
        Ok(None) => Ok(None),
        Err(error) => Err(error@),
    }
}

/// The line that explains the letters that configure a search.
pub open spec fn find_help() -> Seq<char> {
    "Prefix your search with r, c and/or w to configure search to be (r)egex, (c)ase_sensitive, (w)hole_words. All false by default. Example: \"cw Needle\""@
}

/// What is drawn for the texts `offered`, one row each, upwards from the row
/// above the prompt on the row `row`. A text for which the screen has no row
/// is left out.
pub open spec fn offers_frame(offered: Seq<Seq<char>>, row: u16) -> Seq<char>
    decreases offered.len(),
{
    if offered.len() == 0 {
        Seq::empty()
    } else {
        let index = offered.len() - 1;
        let last = if row >= index + 2 {
            goto_sequence(1, (row - 1 - index) as u16) + clear_line_sequence() + "-> "@
                + offered.last()
        } else {
            Seq::empty()
        };
        offers_frame(offered.drop_last(), row) + last
    }
}

impl CommandPrompt {
    /// The cursor stands in the text or at its end.
    pub open spec fn wf(&self) -> bool {
        self.dex <= self.chars.len()
    }

    /// The word that the prompt shows before the text.
    pub open spec fn indicator(&self) -> Seq<char> {
        match self.mode {
            CommandPromptMode::Find => "find"@,
            _ => Seq::empty(),
        }
    }

    /// What is drawn above the prompt: in find mode the line that explains a
    /// search; in command mode up to four of the texts offered that start
    /// with what is typed, once something is typed.
    pub open spec fn help_frame(&self, row: u16) -> Seq<char> {
        match self.mode {
            CommandPromptMode::Find => if row >= 1 {
                goto_sequence(1, (row - 1) as u16) + clear_line_sequence() + find_help()
            } else {
                Seq::empty()
            },
            CommandPromptMode::Command => if self.chars@.len() == 0 {
                Seq::empty()
            } else {
                offers_frame(first_matches(text_views(self.prompt_texts@), self.chars@, 4), row)
            },
            CommandPromptMode::Inactive => Seq::empty(),
        }
    }

    /// What is drawn for the prompt on the row `row`: nothing while it is
    /// inactive; else what stands above it, the text typed after a colon,
    /// and the cursor in it.
    pub open spec fn frame(&self, row: u16) -> Seq<char> {
        if self.mode == CommandPromptMode::Inactive {
            Seq::empty()
        } else {
            self.help_frame(row) + goto_sequence(1, row) + clear_line_sequence()
                + self.indicator() + seq![':'] + self.chars@ + goto_sequence(
                coordinate((self.dex + 2 + self.indicator().len()) as nat),
                row,
            )
        }
    }

    /// A prompt with nothing typed.
    pub fn new(mode: CommandPromptMode) -> (prompt: CommandPrompt)
        ensures
            prompt.wf(),
            prompt.mode == mode,
            prompt.dex == 0,
            prompt.chars@.len() == 0,
            text_views(prompt.prompt_texts@) == offers_upto(command_list().len()),
    {
        let names = command_names();
        let mut prompt_texts: Vec<String> = Vec::new();
        assert(text_views(prompt_texts@) =~= offers_upto(0));
        let mut i: usize = 0;
        while i < names.len()
            invariant
                i <= names.len(),
                name_views(names@) == command_list(),
                text_views(prompt_texts@) == offers_upto(i as nat),
            decreases names.len() - i,
        {
            let name = names[i];
            assert(name@ == command_list()[i as int]);
            let arguments = subcommands(name);
            let ghost before = text_views(prompt_texts@);
            if arguments.len() == 0 {
                let mut text = name.to_owned();
                text.append("   <>");
                prompt_texts.push(text);
                assert(text_views(prompt_texts@) =~= before + offers(name@));
            } else {
                let mut j: usize = 0;
                while j < arguments.len()
                    invariant
                        j <= arguments.len(),
                        arguments.len() > 0,
                        name_views(arguments@) == subcommand_list(name@),
                        text_views(prompt_texts@) == before + offers(name@).take(j as int),
                    decreases arguments.len() - j,
                {
                    let ghost so_far = text_views(prompt_texts@);
                    let mut text = name.to_owned();
                    text.append(" ");
                    text.append(arguments[j]);
                    text.append("   <>");
                    proof {
                        reveal_strlit(" ");
                        assert(" "@ =~= seq![' ']);
                        assert(arguments[j as int]@ == subcommand_list(name@)[j as int]);
                        assert(text@ =~= offers(name@)[j as int]);
                    }
                    prompt_texts.push(text);
                    assert(text_views(prompt_texts@) =~= so_far + seq![text@]);
                    assert(so_far + seq![text@] =~= before + offers(name@).take(j + 1));
                    j = j + 1;
                }
                assert(offers(name@).take(arguments.len() as int) =~= offers(name@));
            }
            i = i + 1;
        }
        CommandPrompt { mode, dex: 0, chars: Vec::new(), prompt_texts }
    }

    /// Whether the prompt is shown.
    pub fn is_active(&self) -> (active: bool)
        ensures
            active == (self.mode != CommandPromptMode::Inactive),
    {
        match self.mode {
            CommandPromptMode::Inactive => false,
            _ => true,
        }
    }

    /// Opens the prompt for something else, or closes it. The text stays.
    pub fn set_mode(&mut self, mode: CommandPromptMode)
        ensures
            final(self).mode == mode,
            final(self).dex == old(self).dex,
            final(self).chars == old(self).chars,
            final(self).prompt_texts == old(self).prompt_texts,
    {
        self.mode = mode;
    }

    /// Moves the cursor one character to the left, if it is not at the start.
    pub fn left(&mut self) -> (command: Option<Command>)
        requires
            old(self).wf(),
        ensures
            final(self).wf(),
            command is None,
            final(self).dex == (if old(self).dex > 0 {
                old(self).dex - 1
            } else {
                0
            }),
            final(self).chars == old(self).chars,
            final(self).mode == old(self).mode,
            final(self).prompt_texts == old(self).prompt_texts,
    {
        if self.dex > 0 {
            self.dex = self.dex - 1;
        }
        None
    }

    /// Moves the cursor one character to the right, if it is not at the end.
    pub fn right(&mut self) -> (command: Option<Command>)
        requires
            old(self).wf(),
        ensures
            final(self).wf(),
            command is None,
            final(self).dex == (if old(self).dex < old(self).chars.len() {
                old(self).dex + 1
            } else {
                old(self).dex as int
            }),
            final(self).chars == old(self).chars,
            final(self).mode == old(self).mode,
            final(self).prompt_texts == old(self).prompt_texts,
    {
        if self.dex < self.chars.len() {
            self.dex = self.dex + 1;
        }
        None
    }

    /// Deletes the character under the cursor, if there is one.
    pub fn delete(&mut self) -> (command: Option<Command>)
        requires
            old(self).wf(),
        ensures
            final(self).wf(),
            command is None,
            final(self).dex == old(self).dex,
            final(self).chars@ == (if old(self).dex < old(self).chars.len() {
                old(self).chars@.remove(old(self).dex as int)
            } else {
                old(self).chars@
            }),
            final(self).mode == old(self).mode,
            final(self).prompt_texts == old(self).prompt_texts,
    {
        if self.dex < self.chars.len() {
            self.chars.remove(self.dex);
        }
        None
    }

    /// Deletes the character before the cursor, if there is one. In an empty
    /// prompt this closes the prompt.
    pub fn back(&mut self) -> (command: Option<Command>)
        requires
            old(self).wf(),
        ensures
            final(self).wf(),
            final(self).mode == old(self).mode,
            final(self).prompt_texts == old(self).prompt_texts,
            old(self).chars.len() == 0 ==> command is Some && command->0@ == CommandView::Cancel
                && final(self).dex == old(self).dex && final(self).chars == old(self).chars,
            old(self).chars.len() > 0 ==> command is None,
            old(self).chars.len() > 0 && old(self).dex > 0 ==> final(self).dex == old(self).dex - 1
                && final(self).chars@ == old(self).chars@.remove(old(self).dex - 1),
            old(self).chars.len() > 0 && old(self).dex == 0 ==> final(self).dex == 0 && final(self).chars == old(self).chars,
    {
        if self.chars.len() > 0 {
            if self.dex > 0 {
                self.dex = self.dex - 1;
                self.chars.remove(self.dex);
            }
            None
        } else {
            Some(Command::Cancel)
        }
    }

    /// Puts the character `chr` in at the cursor and moves the cursor behind
    /// it.
    pub fn new_key(&mut self, chr: char) -> (command: Option<Command>)
        requires
            old(self).wf(),
            old(self).chars.len() < usize::MAX,
        ensures
            final(self).wf(),
            command is None,
            final(self).dex == old(self).dex + 1,
            final(self).chars@ == old(self).chars@.insert(old(self).dex as int, chr),
            final(self).mode == old(self).mode,
            final(self).prompt_texts == old(self).prompt_texts,
    {
        self.chars.insert(self.dex, chr);
        self.dex = self.dex + 1;
        None
    }

    /// Reads the text typed as a command and closes the prompt.
    pub fn finalize(&mut self) -> (result: Result<Option<Command>, ParseCommandError>)
        ensures
            exists|expanded: Option<Seq<char>>|
                outcome(result) == finalized(old(self).mode, old(self).chars@, expanded),
            final(self).mode == CommandPromptMode::Inactive,
            final(self).dex == old(self).dex,
            final(self).chars == old(self).chars,
            final(self).prompt_texts == old(self).prompt_texts,
    {
        let text = text_of(&self.chars, 0, self.chars.len());
        assert(text@ =~= self.chars@);
        let mode = self.mode;
        self.mode = CommandPromptMode::Inactive;
        let parsed = match mode {
            CommandPromptMode::Find => {
                let parsed = FindConfig::from_prompt(Some(text.as_str()));
                assert(outcome(Self::lift(parsed)) == finalized(mode, text@, None)) by {
                    Self::lemma_lift(parsed);
                }
                parsed
            },
            CommandPromptMode::Command => {
                let (name, rest) = split_once(text.as_str(), ' ');
                let parsed = match &rest {
                    Some(arguments) => from_prompt(name.as_str(), Some(arguments.as_str())),
                    None => from_prompt(name.as_str(), None),
                };
                match parsed {
                    Some(parsed) => {
                        proof {
                            Self::lemma_lift(parsed);
                            if name@ != "open"@ {
                                assert(outcome(Self::lift(parsed)) == finalized(mode, text@, None));
                            } else {
                                let expanded = choose|expanded: Option<Seq<char>>|
                                    crate::cmd::parsed(parsed) == open_outcome(
                                        halves(text@, ' ').1,
                                        expanded,
                                    );
                                assert(outcome(Self::lift(parsed)) == finalized(
                                    mode,
                                    text@,
                                    expanded,
                                ));
                            }
                        }
                        parsed
                    },
                    None => {
                        let parsed = Err(ParseCommandError::UnexpectedArgument);
                        assert(outcome(Self::lift(parsed)) == finalized(mode, text@, None));
                        parsed
                    },
                }
            },
            CommandPromptMode::Inactive => {
                let parsed = Err(ParseCommandError::UnexpectedArgument);
                assert(outcome(Self::lift(parsed)) == finalized(mode, text@, None));
                parsed
            },
        };
        match parsed {
            Ok(command) => Ok(Some(command)),
            Err(error) => Err(error),
        }
    }

    /// `parsed` as the result of a key: the command, if there is one.
    pub open spec fn lift(parsed: Result<Command, ParseCommandError>) -> Result<
        Option<Command>,
        ParseCommandError,
    > {
        match parsed {
            Ok(command) => Ok(Some(command)),
            Err(error) => Err(error),
        }
    }

    /// What `lift` gives holds what `parsed` holds.
    proof fn lemma_lift(parsed: Result<Command, ParseCommandError>)
        ensures
            outcome(Self::lift(parsed)) == (match crate::cmd::parsed(parsed) {
                Ok(command) => Ok::<Option<CommandView>, ParseCommandErrorView>(Some(command)),
                Err(error) => Err(error),
            }),
    {
    }

    /// Whether `next` is this prompt after the event `input`, and `result` is
    /// what the event gave: the return key ends the text, which is then read
    /// as a command; backspace, delete and the arrows edit the text; any
    /// other character is typed into it; other events are passed over.
    pub open spec fn after_input(
        &self,
        next: CommandPrompt,
        input: Event,
        result: Result<Option<Command>, ParseCommandError>,
    ) -> bool {
        &&& next.prompt_texts == self.prompt_texts
        &&& match input {
            Event::Key(Key::Char(c)) => if c == '\n' {
                &&& exists|expanded: Option<Seq<char>>|
                    outcome(result) == finalized(self.mode, self.chars@, expanded)
                &&& next.mode == CommandPromptMode::Inactive
                &&& next.dex == self.dex
                &&& next.chars == self.chars
            } else {
                &&& result is Ok && result->Ok_0 is None
                &&& next.mode == self.mode
                &&& next.dex == self.dex + 1
                &&& next.chars@ == self.chars@.insert(self.dex as int, c)
            },
            Event::Key(Key::Backspace) | Event::Key(Key::Ctrl('h')) => {
                &&& next.mode == self.mode
                &&& result is Ok
                &&& if self.chars.len() == 0 {
                    &&& result->Ok_0 is Some && result->Ok_0->0@ == CommandView::Cancel
                    &&& next.dex == self.dex
                    &&& next.chars == self.chars
                } else if self.dex > 0 {
                    &&& result->Ok_0 is None
                    &&& next.dex == self.dex - 1
                    &&& next.chars@ == self.chars@.remove(self.dex - 1)
                } else {
                    &&& result->Ok_0 is None
                    &&& next.dex == 0
                    &&& next.chars == self.chars
                }
            },
            Event::Key(Key::Delete) => {
                &&& result is Ok && result->Ok_0 is None
                &&& next.mode == self.mode
                &&& next.dex == self.dex
                &&& next.chars@ == (if self.dex < self.chars.len() {
                    self.chars@.remove(self.dex as int)
                } else {
                    self.chars@
                })
            },
            Event::Key(Key::Left) => {
                &&& result is Ok && result->Ok_0 is None
                &&& next.mode == self.mode
                &&& next.chars == self.chars
                &&& next.dex == (if self.dex > 0 {
                    self.dex - 1
                } else {
                    0
                })
            },
            Event::Key(Key::Right) => {
                &&& result is Ok && result->Ok_0 is None
                &&& next.mode == self.mode
                &&& next.chars == self.chars
                &&& next.dex == (if self.dex < self.chars.len() {
                    self.dex + 1
                } else {
                    self.dex as int
                })
            },
            _ => {
                &&& result is Ok && result->Ok_0 is None
                &&& next.mode == self.mode
                &&& next.dex == self.dex
                &&& next.chars == self.chars
            },
        }
    }

    /// Lets a key of the terminal act on the prompt: the return key ends the
    /// text, backspace, delete and the arrows edit it, any other character is
    /// typed into it. Other events are passed over.
    pub fn handle_input(&mut self, input: &Event) -> (result: Result<
        Option<Command>,
        ParseCommandError,
    >)
        requires
            old(self).wf(),
            old(self).chars.len() < usize::MAX,
        ensures
            final(self).wf(),
            old(self).after_input(*final(self), *input, result),
    {
        match input {
            Event::Key(key) => match key {
                Key::Char(c) => {
                    if *c == '\n' {
                        self.finalize()
                    } else {
                        Ok(self.new_key(*c))
                    }
                },
                Key::Backspace => Ok(self.back()),
                Key::Ctrl(c) => {
                    if *c == 'h' {
                        Ok(self.back())
                    } else {
                        Ok(None)
                    }
                },
                Key::Delete => Ok(self.delete()),
                Key::Left => Ok(self.left()),
                Key::Right => Ok(self.right()),
                _ => Ok(None),
            },
            _ => Ok(None),
        }
    }

    /// What is drawn above the prompt in command mode: up to four of the
    /// texts offered that start with what is typed.
    pub fn render_suggestions(&self, row: u16) -> (frame: String)
        ensures
            frame@ == (if self.chars@.len() == 0 {
                Seq::<char>::empty()
            } else {
                offers_frame(first_matches(text_views(self.prompt_texts@), self.chars@, 4), row)
            }),
    {
        let mut frame = String::new();
        if self.chars.len() == 0 {
            return frame;
        }
        let ghost all = text_views(self.prompt_texts@);
        let ghost mut found: Seq<Seq<char>> = Seq::empty();
        let mut count: u16 = 0;
        let mut i: usize = 0;
        assert(all.skip(0) =~= all);
        while i < self.prompt_texts.len() && count < 4
            invariant
                i <= self.prompt_texts.len(),
                count <= 4,
                count == found.len(),
                all == text_views(self.prompt_texts@),
                first_matches(all, self.chars@, 4) == found + first_matches(
                    all.skip(i as int),
                    self.chars@,
                    (4 - count) as nat,
                ),
                frame@ == offers_frame(found, row),
            decreases self.prompt_texts.len() - i,
        {
            let ghost rest = all.skip(i as int);
            assert(rest[0] == self.prompt_texts[i as int]@);
            assert(rest.drop_first() =~= all.skip(i + 1));
            let text = self.prompt_texts[i].as_str();
            if has_char_prefix(text, &self.chars) {
                let ghost before = found;
                proof {
                    found = found.push(text@);
                    assert(found.drop_last() =~= before);
                    assert(before + (seq![text@] + first_matches(
                        rest.drop_first(),
                        self.chars@,
                        (4 - count - 1) as nat,
                    )) =~= found + first_matches(
                        all.skip(i + 1),
                        self.chars@,
                        (4 - count - 1) as nat,
                    ));
                }
                if row >= count + 2 {
                    frame.append(goto(1, row - 1 - count).as_str());
                    frame.append(clear_line().as_str());
                    frame.append("-> ");
                    frame.append(text);
                }
                count = count + 1;
            }
            i = i + 1;
        }
        assert(first_matches(all.skip(i as int), self.chars@, (4 - count) as nat).len() == 0);
        assert(found + Seq::<Seq<char>>::empty() =~= found);
        frame
    }

    /// What is drawn for the prompt on the row `row` of the screen.
    pub fn render(&self, row: u16) -> (frame: String)
        requires
            self.wf(),
        ensures
            frame@ == self.frame(row),
    {
        let mut frame = String::new();
        let mode_indicator = match self.mode {
            CommandPromptMode::Inactive => {
                return frame;
            },
            CommandPromptMode::Find => {
                if row >= 1 {
                    frame.append(goto(1, row - 1).as_str());
                    frame.append(clear_line().as_str());
                    frame.append(
                        "Prefix your search with r, c and/or w to configure search to be (r)egex, (c)ase_sensitive, (w)hole_words. All false by default. Example: \"cw Needle\"",
                    );
                }
                "find"
            },
            CommandPromptMode::Command => {
                frame.append(self.render_suggestions(row).as_str());
                ""
            },
        };
        proof {
            reveal_strlit("find");
            reveal_strlit("");
            reveal_strlit(":");
            assert(":"@ =~= seq![':']);
            assert(""@ =~= Seq::<char>::empty());
        }
        let indicator_length: u128 = match self.mode {
            CommandPromptMode::Find => 4,
            _ => 0,
        };
        let across = self.dex as u128 + 2 + indicator_length;
        let cursor_start: u16 = if across > u16::MAX as u128 {
            u16::MAX
        } else {
            across as u16
        };
        let text = text_of(&self.chars, 0, self.chars.len());
        assert(text@ =~= self.chars@);
        frame.append(goto(1, row).as_str());
        frame.append(clear_line().as_str());
        frame.append(mode_indicator);
        frame.append(":");
        frame.append(text.as_str());
        frame.append(goto(cursor_start, row).as_str());
        frame
    }
}

} // verus!
