//! The event loop, seen from inside: what each step of a cycle does to the
//! state, and which step comes next.
//!
//! A cycle has five steps, always in this order: the notifications that
//! waited for their view are routed; the views that the back-end opened are
//! taken in; the events of the terminal are handled; the notifications of
//! the back-end are routed; the view that is shown is drawn, once. The queues
//! of the second, third and fourth step are polled until they have nothing
//! ready. The loop that polls them and writes what is drawn is outside this
//! library; it asks `next_step` what to do and hands in what it got.

use vstd::prelude::*;
use crate::cmd::{Command, CommandPromptMode, ParseCommandError};
use crate::command_prompt::CommandPrompt;
use crate::config::KeybindingConfig;
use crate::editor::{Editor, ViewError};
use crate::event::{Action, CoreEvent, Event, Key, Request};
use crate::operation::Update;
use crate::style::Style;

verus! {

/// What the terminal reports.
#[derive(Clone, Debug, PartialEq, Eq)]
pub enum TerminalEvent {
    /// The terminal has a new width and height.
    Resize(u16, u16),
    /// A key or the mouse.
    Input(Event),
}

/// What polling a queue gave.
#[derive(Debug, PartialEq, Eq)]
pub enum Polled<T> {
    /// The next item of the queue.
    Ready(T),
    /// Nothing for now.
    NotReady,
    /// The other end of the queue is gone.
    Closed,
    /// The queue failed.
    Failed,
}

/// Where the loop stands in its cycle.
#[derive(Clone, Copy, Debug, PartialEq, Eq, Structural)]
pub enum Phase {
    /// Next the waiting notifications are routed.
    DelayedEvents,
    /// Next the views that the back-end opened are taken in.
    OpenResponses,
    /// Next the events of the terminal are handled.
    Terminal,
    /// Next the notifications of the back-end are routed.
    Notifications,
    /// Next the view that is shown is drawn.
    Render,
}

/// Whether the loop runs.
#[derive(Clone, Copy, Debug, PartialEq, Eq, Structural)]
pub enum Lifecycle {
    Initial,
    Running,
    ShuttingDown,
}

/// What the loop has to do next.
#[derive(Clone, Copy, Debug, PartialEq, Eq, Structural)]
pub enum Step {
    /// Call `process_delayed_events`.
    RouteDelayedEvents,
    /// Poll the answers to the requests for a new view, and hand the result
    /// to `process_open_requests`.
    PollOpenResponses,
    /// Poll the terminal, and hand the result to `process_terminal_events`.
    PollTerminal,
    /// Poll the notifications of the back-end, and hand the result to
    /// `process_core_events`.
    PollNotifications,
    /// Call `render` and write what it gives.
    Render,
    /// Stop.
    Exit,
}

/// The state of the event loop.
pub struct Tui {
    /// The open views.
    pub editor: Editor,
    /// The command prompt, while it is open.
    pub prompt: Option<CommandPrompt>,
    /// The width and the height of the terminal.
    pub term_size: (u16, u16),
    /// Whether the loop runs.
    pub state: Lifecycle,
    /// Where the loop stands in its cycle.
    pub phase: Phase,
    /// Whether the view that is shown refused an update in this cycle, so
    /// that it is not drawn at the end of it.
    pub skip_render: bool,
}

impl Tui {
    /// The editor and the prompt are in order.
    pub open spec fn wf(&self) -> bool {
        &&& self.editor.wf()
        &&& match self.prompt {
            Some(prompt) => prompt.wf(),
            None => true,
        }
    }

    /// The step that comes next: none once the loop shuts down, else the
    /// step of the phase.
    pub open spec fn spec_next_step(&self) -> Step {
        if self.state == Lifecycle::ShuttingDown {
            Step::Exit
        } else {
            match self.phase {
                Phase::DelayedEvents => Step::RouteDelayedEvents,
                Phase::OpenResponses => Step::PollOpenResponses,
                Phase::Terminal => Step::PollTerminal,
                Phase::Notifications => Step::PollNotifications,
                Phase::Render => Step::Render,
            }
        }
    }

    /// Whether `next` has the editor, prompt and size of this state.
    pub open spec fn same_content(&self, next: Tui) -> bool {
        &&& next.editor == self.editor
        &&& next.prompt == self.prompt
        &&& next.term_size == self.term_size
    }

    /// A loop that has not started, around an editor without views.
    pub fn new(keybindings: KeybindingConfig) -> (tui: Tui)
        ensures
            tui.wf(),
            tui.editor.keybindings == keybindings,
            tui.editor.entries().len() == 0,
            tui.editor.delayed_events@.len() == 0,
            tui.prompt is None,
            tui.term_size == (0u16, 0u16),
            tui.state == Lifecycle::Initial,
            tui.phase == Phase::DelayedEvents,
            !tui.skip_render,
    {
        Tui {
            editor: Editor::new(keybindings),
            prompt: None,
            term_size: (0, 0),
            state: Lifecycle::Initial,
            phase: Phase::DelayedEvents,
            skip_render: false,
        }
    }

    /// What the loop has to do next.
    pub fn next_step(&self) -> (step: Step)
        ensures
            step == self.spec_next_step(),
    {
        match self.state {
            Lifecycle::ShuttingDown => Step::Exit,
            _ => match self.phase {
                Phase::DelayedEvents => Step::RouteDelayedEvents,
                Phase::OpenResponses => Step::PollOpenResponses,
                Phase::Terminal => Step::PollTerminal,
                Phase::Notifications => Step::PollNotifications,
                Phase::Render => Step::Render,
            },
        }
    }

    /// Whether one of `errors` is of the view of the id `view_id`.
    pub open spec fn names_view(errors: Seq<ViewError>, view_id: usize) -> bool {
        exists|i: int| 0 <= i < errors.len() && errors[i].view_id == view_id
    }

    /// Whether one of `errors` is of the view of the id `view_id`.
    fn any_of_view(errors: &Vec<ViewError>, view_id: usize) -> (found: bool)
        ensures
            found == Self::names_view(errors@, view_id),
    {
        let mut i: usize = 0;
        while i < errors.len()
            invariant
                i <= errors.len(),
                forall|j: int| 0 <= j < i ==> errors[j].view_id != view_id,
            decreases errors.len() - i,
        {
            if errors[i].view_id == view_id {
                return true;
            }
            i = i + 1;
        }
        false
    }

    /// The first step of a cycle: the notifications that waited for their
    /// view are routed, in the order in which they came, before any new
    /// notification is looked at. The loop runs from here on. Returns the
    /// updates that a view refused.
    pub fn process_delayed_events(&mut self) -> (errors: Vec<ViewError>)
        requires
            old(self).wf(),
            old(self).spec_next_step() == Step::RouteDelayedEvents,
        ensures
            final(self).wf(),
            final(self).state == Lifecycle::Running,
            final(self).phase == Phase::OpenResponses,
            final(self).prompt == old(self).prompt,
            final(self).term_size == old(self).term_size,
            final(self).skip_render == (old(self).skip_render || Self::names_view(
                errors@,
                final(self).editor.current_view,
            )),
            exists|start: Editor|
                {
                    &&& #[trigger] old(self).editor.delayed_cleared(start)
                    &&& Editor::after_events(
                        start,
                        final(self).editor,
                        old(self).editor.delayed_events@,
                        errors@,
                    )
                },
    {
        self.state = Lifecycle::Running;
        self.phase = Phase::OpenResponses;
        let errors = self.editor.process_delayed_events();
        if Self::any_of_view(&errors, self.editor.current_view) {
            self.skip_render = true;
        }
        errors
    }

    /// The second step of a cycle, once for each result of polling the
    /// answers of the back-end to the requests for a new view: a view that
    /// the back-end opened is taken in and shown; when nothing is ready the
    /// cycle goes on to the terminal; when the queue is gone or has failed
    /// the loop shuts down.
    pub fn process_open_requests(&mut self, polled: Polled<(usize, Option<String>)>) -> (action:
        Option<Action>)
        requires
            old(self).wf(),
            old(self).spec_next_step() == Step::PollOpenResponses,
        ensures
            final(self).wf(),
            final(self).prompt == old(self).prompt,
            final(self).term_size == old(self).term_size,
            final(self).skip_render == old(self).skip_render,
            match polled {
                Polled::Ready((view_id, file)) => {
                    &&& final(self).state == old(self).state
                    &&& final(self).phase == Phase::OpenResponses
                    &&& action is Some
                    &&& old(self).editor.after_open(final(self).editor, view_id, file, action->0)
                },
                Polled::NotReady => {
                    &&& final(self).state == old(self).state
                    &&& final(self).phase == Phase::Terminal
                    &&& action is None
                    &&& final(self).editor == old(self).editor
                },
                _ => {
                    &&& final(self).state == Lifecycle::ShuttingDown
                    &&& final(self).phase == old(self).phase
                    &&& action is None
                    &&& final(self).editor == old(self).editor
                },
            },
    {
        match polled {
            Polled::Ready((view_id, file)) => Some(self.editor.open_view(view_id, file)),
            Polled::NotReady => {
                self.phase = Phase::Terminal;
                None
            },
            _ => {
                self.state = Lifecycle::ShuttingDown;
                None
            },
        }
    }

    /// Takes over the new size of the terminal.
    pub fn handle_resize(&mut self, size: (u16, u16)) -> (action: Option<Action>)
        requires
            old(self).wf(),
        ensures
            final(self).wf(),
            final(self).term_size == size,
            final(self).prompt == old(self).prompt,
            final(self).state == old(self).state,
            final(self).phase == old(self).phase,
            final(self).skip_render == old(self).skip_render,
            old(self).editor.after_resize(final(self).editor, size, action),
    {
        self.term_size = size;
        self.editor.handle_resize(size)
    }

    /// Whether `next` is this state after the command `command`, and
    /// `action` is what the command asks of the outside world.
    ///
    /// Closing and opening the prompt and leaving the editor happen here;
    /// any other command goes to the editor.
    pub open spec fn after_command(&self, next: Tui, command: Command, action: Option<Action>)
        -> bool {
        &&& next.term_size == self.term_size
        &&& next.phase == self.phase
        &&& next.skip_render == self.skip_render
        &&& match command {
            Command::Cancel => {
                &&& next.prompt is None
                &&& next.editor == self.editor
                &&& next.state == self.state
                &&& action is None
            },
            Command::Quit => {
                &&& next.prompt == self.prompt
                &&& next.editor == self.editor
                &&& next.state == Lifecycle::ShuttingDown
                &&& action is None
            },
            Command::OpenPrompt(mode) => {
                &&& next.prompt is Some
                &&& next.prompt->0.mode == mode
                &&& next.prompt->0.dex == 0
                &&& next.prompt->0.chars@.len() == 0
                &&& next.editor == self.editor
                &&& next.state == self.state
                &&& action is None
            },
            _ => {
                &&& next.prompt == self.prompt
                &&& next.state == self.state
                &&& self.editor.after_command(next.editor, command, action)
            },
        }
    }

    /// Carries out a command.
    pub fn run_command(&mut self, command: Command) -> (action: Option<Action>)
        requires
            old(self).wf(),
        ensures
            final(self).wf(),
            old(self).after_command(*final(self), command, action),
    {
        match command {
            Command::Cancel => {
                self.prompt = None;
                None
            },
            Command::Quit => {
                self.state = Lifecycle::ShuttingDown;
                None
            },
            Command::OpenPrompt(mode) => {
                self.prompt = Some(CommandPrompt::new(mode));
                None
            },
            other => self.editor.handle_command(other),
        }
    }

    /// Whether `other` is this state with the prompt closed.
    pub open spec fn without_prompt(&self, other: Tui) -> bool {
        &&& other.prompt is None
        &&& other.editor == self.editor
        &&& other.term_size == self.term_size
        &&& other.state == self.state
        &&& other.phase == self.phase
        &&& other.skip_render == self.skip_render
    }

    /// Whether `next` is this state after the event `event` went to the open
    /// prompt `prompt`, and `action` is what the event asks of the outside
    /// world: the prompt stays open until the text is ended; then it is
    /// closed, and the command that the text stands for is carried out, if it
    /// stands for one.
    pub open spec fn after_prompt_input(
        &self,
        next: Tui,
        prompt: CommandPrompt,
        event: Event,
        action: Option<Action>,
    ) -> bool {
        if prompt.chars.len() == usize::MAX {
            next == *self && action is None
        } else {
            exists|edited: CommandPrompt, result: Result<Option<Command>, ParseCommandError>|
                {
                    &&& #[trigger] prompt.after_input(edited, event, result)
                    &&& edited.wf()
                    &&& match result {
                        Ok(None) => {
                            &&& next.prompt == Some(edited)
                            &&& next.editor == self.editor
                            &&& next.term_size == self.term_size
                            &&& next.state == self.state
                            &&& next.phase == self.phase
                            &&& next.skip_render == self.skip_render
                            &&& action is None
                        },
                        Ok(Some(command)) => exists|closed: Tui|
                            {
                                &&& self.without_prompt(closed)
                                &&& #[trigger] closed.after_command(next, command, action)
                            },
                        Err(_) => self.without_prompt(next) && action is None,
                    }
                }
        }
    }

    /// Whether `next` is this state after the event `event` of the terminal,
    /// and `action` is what the event asks of the outside world.
    ///
    /// Control-C leaves the editor. Alt-X opens the command prompt, unless it
    /// is open. While the prompt is open every other event goes to it. While
    /// no prompt is open the event goes to the view that is shown.
    pub open spec fn after_input(&self, next: Tui, event: Event, action: Option<Action>) -> bool {
        if event == Event::Key(Key::Ctrl('c')) {
            &&& next.state == Lifecycle::ShuttingDown
            &&& next.phase == self.phase
            &&& next.skip_render == self.skip_render
            &&& self.same_content(next)
            &&& action is None
        } else if event == Event::Key(Key::Alt('x')) {
            &&& next.state == self.state
            &&& next.phase == self.phase
            &&& next.skip_render == self.skip_render
            &&& next.editor == self.editor
            &&& next.term_size == self.term_size
            &&& action is None
            &&& match self.prompt {
                Some(prompt) => next.prompt == self.prompt,
                None => {
                    &&& next.prompt is Some
                    &&& next.prompt->0.mode == CommandPromptMode::Command
                    &&& next.prompt->0.dex == 0
                    &&& next.prompt->0.chars@.len() == 0
                },
            }
        } else {
            match self.prompt {
                Some(prompt) => self.after_prompt_input(next, prompt, event, action),
                None => {
                    &&& next.prompt is None
                    &&& next.term_size == self.term_size
                    &&& next.state == self.state
                    &&& next.phase == self.phase
                    &&& next.skip_render == self.skip_render
                    &&& self.editor.after_input(next.editor, event, action)
                },
            }
        }
    }

    /// Handles a key or the mouse.
    pub fn handle_input(&mut self, event: Event) -> (action: Option<Action>)
        requires
            old(self).wf(),
        ensures
            final(self).wf(),
            old(self).after_input(*final(self), event, action),
    {
        match event {
            Event::Key(Key::Ctrl('c')) => {
                self.state = Lifecycle::ShuttingDown;
                None
            },
            Event::Key(Key::Alt('x')) => {
                if self.prompt.is_none() {
                    self.prompt = Some(CommandPrompt::new(CommandPromptMode::Command));
                }
                None
            },
            event => {
                let mut prompt = match self.prompt.take() {
                    Some(prompt) => prompt,
                    None => {
                        return self.editor.handle_input(event);
                    },
                };
                let ghost opened = prompt;
                if prompt.chars.len() == usize::MAX {
                    self.prompt = Some(prompt);
                    return None;
                }
                let result = prompt.handle_input(&event);
                let ghost closed = *self;
                assert(old(self).without_prompt(closed));
                assert(opened.after_input(prompt, event, result));
                match result {
                    Ok(None) => {
                        self.prompt = Some(prompt);
                        None
                    },
                    Ok(Some(command)) => {
                        let action = self.run_command(command);
                        assert(closed.after_command(*self, command, action));
                        action
                    },
                    Err(_) => None,
                }
            },
        }
    }

    /// The third step of a cycle, once for each result of polling the
    /// terminal: an event is handled; when nothing is ready the cycle goes on
    /// to the notifications; when the terminal is gone or has failed the loop
    /// shuts down.
    pub fn process_terminal_events(&mut self, polled: Polled<TerminalEvent>) -> (action: Option<
        Action,
    >)
        requires
            old(self).wf(),
            old(self).spec_next_step() == Step::PollTerminal,
        ensures
            final(self).wf(),
            final(self).skip_render == old(self).skip_render,
            match polled {
                Polled::Ready(TerminalEvent::Resize(width, height)) => {
                    &&& final(self).state == old(self).state
                    &&& final(self).phase == Phase::Terminal
                    &&& final(self).term_size == (width, height)
                    &&& final(self).prompt == old(self).prompt
                    &&& old(self).editor.after_resize(final(self).editor, (width, height), action)
                },
                Polled::Ready(TerminalEvent::Input(event)) => old(self).after_input(
                    *final(self),
                    event,
                    action,
                ),
                Polled::NotReady => {
                    &&& final(self).state == old(self).state
                    &&& final(self).phase == Phase::Notifications
                    &&& action is None
                    &&& old(self).same_content(*final(self))
                },
                _ => {
                    &&& final(self).state == Lifecycle::ShuttingDown
                    &&& final(self).phase == old(self).phase
                    &&& action is None
                    &&& old(self).same_content(*final(self))
                },
            },
    {
        match polled {
            Polled::Ready(TerminalEvent::Resize(width, height)) => self.handle_resize(
                (width, height),
            ),
            Polled::Ready(TerminalEvent::Input(event)) => self.handle_input(event),
            Polled::NotReady => {
                self.phase = Phase::Notifications;
                None
            },
            _ => {
                self.state = Lifecycle::ShuttingDown;
                None
            },
        }
    }

    /// Leaves the editor: the loop stops at its next step.
    pub fn exit(&mut self)
        ensures
            final(self).state == Lifecycle::ShuttingDown,
            final(self).phase == old(self).phase,
            final(self).skip_render == old(self).skip_render,
            old(self).same_content(*final(self)),
    {
        self.state = Lifecycle::ShuttingDown;
    }

    /// The action that opens the file of the name `file_path`.
    pub fn open(&self, file_path: &str) -> (action: Action)
        ensures
            action matches Action::NewView(Some(name)) && name@ == file_path@,
    {
        self.editor.new_view(Some(file_path.to_owned()))
    }

    /// The request that saves the view that is shown; none when no view is
    /// shown or the view has no file.
    pub fn save(&self) -> (action: Option<Action>)
        requires
            self.wf(),
        ensures
            action == (match self.editor.index_of(self.editor.current_view) {
                Some(index) => match self.editor.entries()[index].1.file {
                    Some(file) => Some(
                        Action::Request(self.editor.current_view, Request::Save(file)),
                    ),
                    None => None,
                },
                None => None,
            }),
    {
        self.editor.save(None)
    }

    /// The request that typing the character `character` into the view that
    /// is shown makes.
    pub fn insert(&self, character: char) -> (action: Action)
        ensures
            action == Action::Request(self.editor.current_view, Request::Insert(character)),
    {
        Action::Request(self.editor.current_view, Request::Insert(character))
    }

    /// The request that a click on the row `x` and the column `y` of the
    /// screen makes, both counted from zero; none when no view is shown.
    pub fn click(&self, x: u64, y: u64) -> (action: Option<Action>)
        requires
            self.wf(),
        ensures
            action == (match self.editor.index_of(self.editor.current_view) {
                Some(index) => {
                    let location = self.editor.entries()[index].1.click_location(x, y);
                    Some(
                        Action::Request(
                            self.editor.current_view,
                            Request::Click(location.0, location.1),
                        ),
                    )
                },
                None => None,
            }),
    {
        self.editor.click(x, y)
    }

    /// The request that a drag to the row `x` and the column `y` of the
    /// screen makes, both counted from zero; none when no view is shown.
    pub fn drag(&self, x: u64, y: u64) -> (action: Option<Action>)
        requires
            self.wf(),
        ensures
            action == (match self.editor.index_of(self.editor.current_view) {
                Some(index) => {
                    let location = self.editor.entries()[index].1.click_location(x, y);
                    Some(
                        Action::Request(
                            self.editor.current_view,
                            Request::Drag(location.0, location.1),
                        ),
                    )
                },
                None => None,
            }),
    {
        self.editor.drag(x, y)
    }

    /// Routes an update to the view that it names.
    pub fn handle_update(&mut self, view_id: usize, update: Update) -> (result: Result<
        (),
        ViewError,
    >)
        requires
            old(self).wf(),
        ensures
            final(self).wf(),
            final(self).prompt == old(self).prompt,
            final(self).term_size == old(self).term_size,
            final(self).state == old(self).state,
            final(self).phase == old(self).phase,
            old(self).editor.after_update(final(self).editor, view_id, update, result),
            final(self).skip_render == (old(self).skip_render || (result is Err
                && result->Err_0.view_id == final(self).editor.current_view)),
    {
        self.handle_core_event(CoreEvent::Update { view_id, update })
    }

    /// Routes a move of the cursor to the view that it names.
    pub fn handle_scroll_to(&mut self, view_id: usize, line: u64, column: u64)
        requires
            old(self).wf(),
        ensures
            final(self).wf(),
            final(self).prompt == old(self).prompt,
            final(self).term_size == old(self).term_size,
            final(self).state == old(self).state,
            final(self).phase == old(self).phase,
            final(self).skip_render == old(self).skip_render,
            old(self).editor.after_scroll_to(final(self).editor, view_id, line, column),
    {
        self.editor.scroll_to(view_id, line, column);
    }

    /// Defines a style, or defines it anew.
    pub fn handle_set_style(&mut self, style: Style)
        requires
            old(self).wf(),
        ensures
            final(self).wf(),
            final(self).prompt == old(self).prompt,
            final(self).term_size == old(self).term_size,
            final(self).state == old(self).state,
            final(self).phase == old(self).phase,
            final(self).skip_render == old(self).skip_render,
            old(self).editor.after_def_style(final(self).editor, style),
    {
        self.editor.def_style(style);
    }

    /// Routes a notification of the back-end. A view that refuses an update
    /// while it is shown is not drawn at the end of this cycle.
    pub fn handle_core_event(&mut self, event: CoreEvent) -> (result: Result<(), ViewError>)
        requires
            old(self).wf(),
        ensures
            final(self).wf(),
            final(self).prompt == old(self).prompt,
            final(self).term_size == old(self).term_size,
            final(self).state == old(self).state,
            final(self).phase == old(self).phase,
            old(self).editor.after_event(final(self).editor, event, result),
            final(self).skip_render == (old(self).skip_render || (result is Err
                && result->Err_0.view_id == final(self).editor.current_view)),
    {
        let result = self.editor.handle_core_event(event);
        if let Err(error) = result {
            if error.view_id == self.editor.current_view {
                self.skip_render = true;
            }
        }
        result
    }

    /// The fourth step of a cycle, once for each result of polling the
    /// notifications of the back-end: a notification is routed to its view,
    /// or waits for it; when nothing is ready the cycle goes on to drawing;
    /// when the back-end is gone or the queue has failed the loop shuts down.
    pub fn process_core_events(&mut self, polled: Polled<CoreEvent>) -> (result: Result<
        (),
        ViewError,
    >)
        requires
            old(self).wf(),
            old(self).spec_next_step() == Step::PollNotifications,
        ensures
            final(self).wf(),
            final(self).prompt == old(self).prompt,
            final(self).term_size == old(self).term_size,
            match polled {
                Polled::Ready(event) => {
                    &&& final(self).state == old(self).state
                    &&& final(self).phase == Phase::Notifications
                    &&& old(self).editor.after_event(final(self).editor, event, result)
                    &&& final(self).skip_render == (old(self).skip_render || (result is Err
                        && result->Err_0.view_id == final(self).editor.current_view))
                },
                Polled::NotReady => {
                    &&& final(self).state == old(self).state
                    &&& final(self).phase == Phase::Render
                    &&& result is Ok
                    &&& final(self).editor == old(self).editor
                    &&& final(self).skip_render == old(self).skip_render
                },
                _ => {
                    &&& final(self).state == Lifecycle::ShuttingDown
                    &&& final(self).phase == old(self).phase
                    &&& result is Ok
                    &&& final(self).editor == old(self).editor
                    &&& final(self).skip_render == old(self).skip_render
                },
            },
    {
        match polled {
            Polled::Ready(event) => self.handle_core_event(event),
            Polled::NotReady => {
                self.phase = Phase::Render;
                Ok(())
            },
            _ => {
                self.state = Lifecycle::ShuttingDown;
                Ok(())
            },
        }
    }

    /// The last step of a cycle: what is to be written to the terminal, if
    /// anything. The prompt is drawn while it is open, else the view that is
    /// shown, unless it refused an update in this cycle. The next cycle
    /// starts from here.
    pub fn render(&mut self) -> (frame: Option<String>)
        requires
            old(self).wf(),
            old(self).spec_next_step() == Step::Render,
        ensures
            final(self).wf(),
            final(self).state == old(self).state,
            final(self).phase == Phase::DelayedEvents,
            !final(self).skip_render,
            final(self).prompt == old(self).prompt,
            final(self).term_size == old(self).term_size,
            match old(self).prompt {
                Some(prompt) => {
                    &&& final(self).editor == old(self).editor
                    &&& frame is Some
                    &&& frame->0@ == prompt.frame(old(self).term_size.1)
                },
                None => if old(self).skip_render {
                    frame is None && final(self).editor == old(self).editor
                } else {
                    old(self).editor.after_render(final(self).editor, frame)
                },
            },
    {
        self.phase = Phase::DelayedEvents;
        let skip = self.skip_render;
        self.skip_render = false;
        match &self.prompt {
            Some(prompt) => Some(prompt.render(self.term_size.1)),
            None => {
                if skip {
                    None
                } else {
                    self.editor.render()
                }
            },
        }
    }
}

} // verus!
