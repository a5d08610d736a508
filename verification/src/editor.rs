//! The editor: the open views, which of them is shown, the styles, and the
//! notifications that wait for their view.

use indexmap::IndexMap;
use std::collections::HashMap;
use vstd::prelude::*;
use vstd::view::View as _;
use crate::cache::CacheError;
use crate::cmd::Command;
use crate::config::{bound, KeybindingConfig};
use crate::event::{Action, CoreEvent, Event, Request};
use crate::operation::{operation_views, Update};
use crate::registry::{
    distinct_ids, lemma_position_by_ids, lemma_position_from, position, registry_entries,
    registry_get, registry_id_at, registry_index_of, registry_insert, registry_len, registry_new,
};
use crate::style::Style;
use crate::view::View;

verus! {

broadcast use vstd::std_specs::hash::group_hash_axioms;

/// An update that a view refused.
#[derive(Clone, Copy, Debug, PartialEq, Eq)]
pub struct ViewError {
    pub view_id: usize,
    pub error: CacheError,
}

/// The state of the editor.
pub struct Editor {
    /// The notifications that came for a view that is not open yet, in the
    /// order in which they came.
    pub delayed_events: Vec<CoreEvent>,
    /// The open views, in the order in which they were opened.
    pub views: IndexMap<usize, View>,
    /// The id of the view that is shown.
    pub current_view: usize,
    /// The width and the height of the terminal.
    pub size: (u16, u16),
    /// The styles that the back-end has defined, by their id.
    pub styles: HashMap<u64, Style>,
    /// The commands that keys stand for.
    pub keybindings: KeybindingConfig,
}

impl Editor {
    /// The open views with their ids, in the order in which they were opened.
    pub open spec fn entries(&self) -> Seq<(usize, View)> {
        registry_entries(self.views)
    }

    /// Every view is in order, and no two views have the same id.
    pub open spec fn wf(&self) -> bool {
        &&& distinct_ids(self.entries())
        &&& forall|i: int| 0 <= i < self.entries().len() ==> (#[trigger] self.entries()[i]).1.wf()
    }

    /// Where the view of the id `id` stands among the open views.
    pub open spec fn index_of(&self, id: usize) -> Option<int> {
        position(self.entries(), id)
    }

    /// Whether `next` is this editor with nothing changed but the view at
    /// `index`.
    pub open spec fn only_view_changed(&self, next: Editor, index: int) -> bool {
        &&& 0 <= index < self.entries().len()
        &&& next.entries() == self.entries().update(
            index,
            (self.entries()[index].0, next.entries()[index].1),
        )
        &&& next.delayed_events == self.delayed_events
        &&& next.current_view == self.current_view
        &&& next.size == self.size
        &&& next.styles == self.styles
        &&& next.keybindings == self.keybindings
    }

    /// Whether `next` is this editor with nothing changed but one more
    /// notification waiting.
    pub open spec fn only_delayed(&self, next: Editor, event: CoreEvent) -> bool {
        &&& next.views == self.views
        &&& next.delayed_events@ == self.delayed_events@.push(event)
        &&& next.current_view == self.current_view
        &&& next.size == self.size
        &&& next.styles == self.styles
        &&& next.keybindings == self.keybindings
    }

    /// An editor without views. The style of the selection is defined.
    pub fn new(keybindings: KeybindingConfig) -> (editor: Editor)
        ensures
            editor.wf(),
            editor.keybindings == keybindings,
            editor.entries().len() == 0,
            editor.delayed_events@.len() == 0,
            editor.current_view == 0,
            editor.size == (0u16, 0u16),
            editor.styles@ == Map::<u64, Style>::empty().insert(
                0,
                Style {
                    id: 0,
                    fg_color: None,
                    bg_color: 0,
                    weight: 0,
                    italic: false,
                    underline: false,
                },
            ),
    {
        let mut styles = HashMap::new();
        styles.insert(
            0,
            Style { id: 0, fg_color: None, bg_color: 0, weight: 0, italic: false, underline: false },
        );
        Editor {
            delayed_events: Vec::new(),
            views: registry_new(),
            current_view: 0,
            size: (0, 0),
            styles,
            keybindings,
        }
    }

    /// Takes the view of the id `id` out of the editor for a change, and
    /// leaves an empty view in its place.
    fn take_view(&mut self, id: usize) -> (view: Option<View>)
        requires
            old(self).wf(),
        ensures
            final(self).delayed_events == old(self).delayed_events,
            final(self).current_view == old(self).current_view,
            final(self).size == old(self).size,
            final(self).styles == old(self).styles,
            final(self).keybindings == old(self).keybindings,
            match old(self).index_of(id) {
                Some(index) => {
                    &&& 0 <= index < old(self).entries().len()
                    &&& old(self).entries()[index].0 == id
                    &&& view == Some(old(self).entries()[index].1)
                    &&& view->0.wf()
                    &&& final(self).index_of(id) == Some(index)
                    &&& final(self).entries().len() == old(self).entries().len()
                    &&& forall|i: int|
                        0 <= i < old(self).entries().len() && i != index ==> final(self).entries()[i] == old(self).entries()[i]
                    &&& final(self).entries()[index].0 == id
                    &&& final(self).wf()
                },
                None => view is None && final(self).views == old(self).views,
            },
    {
        proof {
            lemma_position_from(self.entries(), id, 0);
        }
        if registry_index_of(&self.views, id).is_none() {
            return None;
        }
        let ghost before = self.entries();
        let view = registry_insert(&mut self.views, id, View::new(None));
        proof {
            lemma_position_by_ids(before, self.entries(), id, 0);
        }
        view
    }

    /// Puts a view back in the place of the id `id`.
    fn put_view(&mut self, id: usize, view: View)
        requires
            old(self).wf(),
            old(self).index_of(id) is Some,
            view.wf(),
        ensures
            final(self).wf(),
            final(self).delayed_events == old(self).delayed_events,
            final(self).current_view == old(self).current_view,
            final(self).size == old(self).size,
            final(self).styles == old(self).styles,
            final(self).keybindings == old(self).keybindings,
            final(self).entries() == old(self).entries().update(
                old(self).index_of(id)->0,
                (id, view),
            ),
            final(self).index_of(id) == old(self).index_of(id),
    {
        proof {
            lemma_position_from(self.entries(), id, 0);
        }
        let ghost before = self.entries();
        let _ = registry_insert(&mut self.views, id, view);
        proof {
            lemma_position_by_ids(before, self.entries(), id, 0);
        }
    }

    /// Whether `next` is this editor after an update for the view of the id
    /// `view_id`, and `result` says how the view took it: the view's cache
    /// is updated, or, while the view is not open, the update waits for it.
    pub open spec fn after_update(
        &self,
        next: Editor,
        view_id: usize,
        update: Update,
        result: Result<(), ViewError>,
    ) -> bool {
        match self.index_of(view_id) {
            Some(index) => {
                &&& self.only_view_changed(next, index)
                &&& exists|outcome: Result<(), CacheError>|
                    {
                        &&& #[trigger] self.entries()[index].1.cache_updated(
                            next.entries()[index].1,
                            operation_views(update.operations@),
                            outcome,
                        )
                        &&& result == (match outcome {
                            Ok(()) => Ok::<(), ViewError>(()),
                            Err(error) => Err(ViewError { view_id, error }),
                        })
                    }
            },
            None => result is Ok && self.only_delayed(next, CoreEvent::Update { view_id, update }),
        }
    }

    /// Whether `next` is this editor after the cursor of the view of the id
    /// `view_id` moved: the view has its new cursor, or, while the view is
    /// not open, the notification waits for it.
    pub open spec fn after_scroll_to(&self, next: Editor, view_id: usize, line: u64, column: u64)
        -> bool {
        match self.index_of(view_id) {
            Some(index) => {
                &&& self.only_view_changed(next, index)
                &&& self.entries()[index].1.cursor_set(next.entries()[index].1, line, column)
            },
            None => self.only_delayed(next, CoreEvent::ScrollTo { view_id, line, column }),
        }
    }

    /// Whether `next` is this editor after `style` was defined.
    pub open spec fn after_def_style(&self, next: Editor, style: Style) -> bool {
        &&& next.styles@ == self.styles@.insert(style.id, style)
        &&& next.keybindings == self.keybindings
        &&& next.views == self.views
        &&& next.delayed_events == self.delayed_events
        &&& next.current_view == self.current_view
        &&& next.size == self.size
    }

    /// Whether `next` is this editor after the settings of the view of the
    /// id `view_id` changed: the view has taken them over, or, while the view
    /// is not open, the notification waits for it.
    pub open spec fn after_config_changed(
        &self,
        next: Editor,
        view_id: usize,
        tab_size: Option<u64>,
    ) -> bool {
        match self.index_of(view_id) {
            Some(index) => {
                &&& self.only_view_changed(next, index)
                &&& self.entries()[index].1.config_set(next.entries()[index].1, tab_size)
            },
            None => self.only_delayed(next, CoreEvent::ConfigChanged { view_id, tab_size }),
        }
    }

    /// Whether `next` is this editor after the notification `event`, and
    /// `result` says whether a view refused it.
    pub open spec fn after_event(
        &self,
        next: Editor,
        event: CoreEvent,
        result: Result<(), ViewError>,
    ) -> bool {
        match event {
            CoreEvent::Update { view_id, update } => self.after_update(
                next,
                view_id,
                update,
                result,
            ),
            CoreEvent::ScrollTo { view_id, line, column } => result is Ok && self.after_scroll_to(
                next,
                view_id,
                line,
                column,
            ),
            CoreEvent::DefStyle(style) => result is Ok && self.after_def_style(next, style),
            CoreEvent::ConfigChanged { view_id, tab_size } => result is Ok
                && self.after_config_changed(next, view_id, tab_size),
        }
    }

    /// Applies an update to the view that it names. An update for a view
    /// that is not open waits for the view.
    pub fn update(&mut self, view_id: usize, update: Update) -> (result: Result<(), ViewError>)
        requires
            old(self).wf(),
        ensures
            final(self).wf(),
            old(self).after_update(*final(self), view_id, update, result),
    {
        let ghost before = self.entries();
        match self.take_view(view_id) {
            Some(mut view) => {
                let ghost operations = operation_views(update.operations@);
                let ghost taken = view;
                let outcome = view.update_cache(update);
                self.put_view(view_id, view);
                assert(self.entries() =~= before.update(
                    old(self).index_of(view_id)->0,
                    (view_id, view),
                ));
                assert(taken.cache_updated(view, operations, outcome));
                match outcome {
                    Ok(()) => Ok(()),
                    Err(error) => Err(ViewError { view_id, error }),
                }
            },
            None => {
                self.delayed_events.push(CoreEvent::Update { view_id, update });
                Ok(())
            },
        }
    }

    /// Moves the cursor of the view that the notification names. A
    /// notification for a view that is not open waits for the view.
    pub fn scroll_to(&mut self, view_id: usize, line: u64, column: u64)
        requires
            old(self).wf(),
        ensures
            final(self).wf(),
            old(self).after_scroll_to(*final(self), view_id, line, column),
    {
        let ghost before = self.entries();
        match self.take_view(view_id) {
            Some(mut view) => {
                view.set_cursor(line, column);
                self.put_view(view_id, view);
                assert(self.entries() =~= before.update(
                    old(self).index_of(view_id)->0,
                    (view_id, view),
                ));
            },
            None => {
                self.delayed_events.push(CoreEvent::ScrollTo { view_id, line, column });
            },
        }
    }

    /// Defines a style, or defines it anew.
    pub fn def_style(&mut self, style: Style)
        ensures
            old(self).after_def_style(*final(self), style),
    {
        self.styles.insert(style.id, style);
    }

    /// Lets the view that the notification names take over its new settings.
    /// A notification for a view that is not open waits for the view.
    pub fn config_changed(&mut self, view_id: usize, tab_size: Option<u64>)
        requires
            old(self).wf(),
        ensures
            final(self).wf(),
            old(self).after_config_changed(*final(self), view_id, tab_size),
    {
        let ghost before = self.entries();
        match self.take_view(view_id) {
            Some(mut view) => {
                view.config_changed(tab_size);
                self.put_view(view_id, view);
                assert(self.entries() =~= before.update(
                    old(self).index_of(view_id)->0,
                    (view_id, view),
                ));
            },
            None => {
                self.delayed_events.push(CoreEvent::ConfigChanged { view_id, tab_size });
            },
        }
    }

    /// Routes a notification of the back-end to the view that it names. A
    /// notification for a view that is not open waits for the view.
    pub fn handle_core_event(&mut self, event: CoreEvent) -> (result: Result<(), ViewError>)
        requires
            old(self).wf(),
        ensures
            final(self).wf(),
            old(self).after_event(*final(self), event, result),
    {
        match event {
            CoreEvent::Update { view_id, update } => self.update(view_id, update),
            CoreEvent::ScrollTo { view_id, line, column } => {
                self.scroll_to(view_id, line, column);
                Ok(())
            },
            CoreEvent::DefStyle(style) => {
                self.def_style(style);
                Ok(())
            },
            CoreEvent::ConfigChanged { view_id, tab_size } => {
                self.config_changed(view_id, tab_size);
                Ok(())
            },
        }
    }

    /// Whether `start` is this editor with no notification waiting.
    pub open spec fn delayed_cleared(&self, start: Editor) -> bool {
        &&& start.views == self.views
        &&& start.delayed_events@.len() == 0
        &&& start.current_view == self.current_view
        &&& start.size == self.size
        &&& start.styles == self.styles
        &&& start.keybindings == self.keybindings
    }

    /// Whether `last` is the editor `first` after the notifications `events`
    /// were routed one after the other, in their order, and `errors` are the
    /// updates that a view refused, in the same order.
    pub open spec fn after_events(
        first: Editor,
        last: Editor,
        events: Seq<CoreEvent>,
        errors: Seq<ViewError>,
    ) -> bool
        decreases events.len(),
    {
        if events.len() == 0 {
            last == first && errors.len() == 0
        } else {
            exists|middle: Editor, result: Result<(), ViewError>|
                {
                    &&& #[trigger] middle.after_event(last, events.last(), result)
                    &&& match result {
                        Ok(()) => Self::after_events(first, middle, events.drop_last(), errors),
                        Err(error) => {
                            &&& errors.len() > 0
                            &&& errors.last() == error
                            &&& Self::after_events(
                                first,
                                middle,
                                events.drop_last(),
                                errors.drop_last(),
                            )
                        },
                    }
                }
        }
    }

    /// Routes the notifications that waited for their view, in the order in
    /// which they came. Those whose view is still not open wait on, in the
    /// same order. Returns the updates that a view refused.
    pub fn process_delayed_events(&mut self) -> (errors: Vec<ViewError>)
        requires
            old(self).wf(),
        ensures
            final(self).wf(),
            exists|start: Editor|
                {
                    &&& #[trigger] old(self).delayed_cleared(start)
                    &&& Self::after_events(
                        start,
                        *final(self),
                        old(self).delayed_events@,
                        errors@,
                    )
                },
    {
        let mut pending: Vec<CoreEvent> = Vec::new();
        std::mem::swap(&mut self.delayed_events, &mut pending);
        let ghost start = *self;
        let ghost all = pending@;
        let mut errors: Vec<ViewError> = Vec::new();
        let ghost mut done: int = 0;
        assert(all.take(0) =~= Seq::empty());
        assert(all.skip(0) =~= all);
        while pending.len() > 0
            invariant
                self.wf(),
                0 <= done <= all.len(),
                pending@ == all.skip(done),
                Self::after_events(start, *self, all.take(done), errors@),
            decreases pending.len(),
        {
            let ghost middle = *self;
            let ghost before = errors@;
            let event = pending.remove(0);
            assert(event == all[done]);
            assert(pending@ =~= all.skip(done + 1));
            let result = self.handle_core_event(event);
            if let Err(error) = result {
                errors.push(error);
            }
            proof {
                let events = all.take(done + 1);
                assert(events.drop_last() =~= all.take(done));
                assert(events.last() == event);
                if result is Err {
                    assert(errors@.drop_last() =~= before);
                }
                assert(middle.after_event(*self, events.last(), result));
                done = done + 1;
            }
        }
        assert(all.take(done) =~= all);
        assert(old(self).delayed_cleared(start));
        errors
    }

    /// Whether `next` is this editor after the back-end opened a view under
    /// the id `view_id`: the view is new, has the height of the terminal, and
    /// is shown; `action` tells the back-end which lines it shows. A view
    /// that was open under the same id is replaced.
    pub open spec fn after_open(
        &self,
        next: Editor,
        view_id: usize,
        file: Option<String>,
        action: Action,
    ) -> bool {
        let index = match self.index_of(view_id) {
            Some(index) => index,
            None => self.entries().len() as int,
        };
        &&& next.current_view == view_id
        &&& next.delayed_events == self.delayed_events
        &&& next.size == self.size
        &&& next.styles == self.styles
        &&& next.keybindings == self.keybindings
        &&& 0 <= index < next.entries().len()
        &&& next.entries() == (match self.index_of(view_id) {
            Some(index) => self.entries().update(index, next.entries()[index]),
            None => self.entries().push(next.entries()[index]),
        })
        &&& next.entries()[index].0 == view_id
        &&& exists|fresh: View, shown: View, request: Request|
            {
                &&& fresh.is_new(file)
                &&& shown == next.entries()[index].1
                &&& #[trigger] fresh.resized(shown, self.size.1, request)
                &&& action == Action::Request(view_id, request)
            }
    }

    /// Opens the view that the back-end made under the id `view_id`, gives it
    /// the height of the terminal and shows it.
    pub fn open_view(&mut self, view_id: usize, file: Option<String>) -> (action: Action)
        requires
            old(self).wf(),
        ensures
            final(self).wf(),
            old(self).after_open(*final(self), view_id, file, action),
    {
        proof {
            lemma_position_from(self.entries(), view_id, 0);
        }
        let mut view = View::new(file);
        let ghost fresh = view;
        let request = view.resize(self.size.1);
        let ghost before = self.entries();
        let _ = registry_insert(&mut self.views, view_id, view);
        self.current_view = view_id;
        let action = Action::Request(view_id, request);
        proof {
            let index = match position(before, view_id) {
                Some(index) => index,
                None => before.len() as int,
            };
            assert(self.entries()[index] == (view_id, view));
            assert(fresh.resized(view, self.size.1, request));
            assert(old(self).index_of(view_id) == position(before, view_id));
            if position(before, view_id) is Some {
                assert(self.entries() =~= before.update(index, self.entries()[index]));
            } else {
                assert(self.entries() =~= before.push(self.entries()[index]));
            }
            assert(fresh.is_new(file));
            assert(action == Action::Request(view_id, request));
            assert(old(self).after_open(*self, view_id, file, action));
            assert forall|i: int| 0 <= i < self.entries().len() implies (
            #[trigger] self.entries()[i]).1.wf() by {
                if i != index {
                    assert(self.entries()[i] == before[i]);
                }
            }
        }
        action
    }

    /// What an event of the terminal asks of the back-end for the view that
    /// is shown, if anything.
    pub open spec fn view_action(&self, event: Event) -> Option<Action> {
        match self.index_of(self.current_view) {
            Some(index) => match self.entries()[index].1.input_request(event) {
                Some(request) => Some(Action::Request(self.current_view, request)),
                None => None,
            },
            None => None,
        }
    }

    /// Whether `next` is this editor after the event `event` of the
    /// terminal, and `action` is what the event asks of the outside world: a
    /// key that is bound to a command has the command carried out; any other
    /// event goes to the view that is shown.
    pub open spec fn after_input(&self, next: Editor, event: Event, action: Option<Action>) -> bool {
        if event is Key && bound(self.keybindings.keymap@, event@) is Some {
            exists|command: Command|
                {
                    &&& command@ == bound(self.keybindings.keymap@, event@)->0
                    &&& #[trigger] self.after_command(next, command, action)
                }
        } else {
            next == *self && action == self.view_action(event)
        }
    }

    /// Handles an event of the terminal.
    pub fn handle_input(&mut self, event: Event) -> (action: Option<Action>)
        requires
            old(self).wf(),
        ensures
            final(self).wf(),
            old(self).after_input(*final(self), event, action),
    {
        if let Event::Key(_) = &event {
            if let Some(command) = self.keybindings.keymap.get(&event) {
                let action = self.handle_command(command);
                assert(old(self).after_command(*self, command, action));
                return action;
            }
        }
        proof {
            lemma_position_from(self.entries(), self.current_view, 0);
        }
        match registry_get(&self.views, self.current_view) {
            Some(view) => match view.handle_input(event) {
                Some(request) => Some(Action::Request(self.current_view, request)),
                None => None,
            },
            None => None,
        }
    }

    /// Whether `next` is this editor after the terminal took the size
    /// `size`: the view that is shown has the new height, and `action` tells
    /// the back-end which lines it shows now.
    pub open spec fn after_resize(&self, next: Editor, size: (u16, u16), action: Option<Action>)
        -> bool {
        &&& next.size == size
        &&& next.delayed_events == self.delayed_events
        &&& next.current_view == self.current_view
        &&& next.styles == self.styles
        &&& next.keybindings == self.keybindings
        &&& match self.index_of(self.current_view) {
            Some(index) => {
                &&& 0 <= index < self.entries().len()
                &&& next.entries() == self.entries().update(
                    index,
                    (self.current_view, next.entries()[index].1),
                )
                &&& exists|request: Request|
                    {
                        &&& #[trigger] self.entries()[index].1.resized(
                            next.entries()[index].1,
                            size.1,
                            request,
                        )
                        &&& action == Some(Action::Request(self.current_view, request))
                    }
            },
            None => action is None && next.views == self.views,
        }
    }

    /// Takes over the new size of the terminal.
    pub fn handle_resize(&mut self, size: (u16, u16)) -> (action: Option<Action>)
        requires
            old(self).wf(),
        ensures
            final(self).wf(),
            old(self).after_resize(*final(self), size, action),
    {
        self.size = size;
        let ghost before = self.entries();
        let current = self.current_view;
        match self.take_view(current) {
            Some(mut view) => {
                let ghost taken = view;
                let request = view.resize(size.1);
                self.put_view(current, view);
                assert(self.entries() =~= before.update(
                    old(self).index_of(current)->0,
                    (current, view),
                ));
                assert(taken.resized(view, size.1, request));
                Some(Action::Request(current, request))
            },
            None => None,
        }
    }

    /// The action that opens a file, or an empty view.
    pub fn new_view(&self, file_path: Option<String>) -> (action: Action)
        ensures
            action == Action::NewView(file_path),
    {
        Action::NewView(file_path)
    }

    /// The action that changes the color theme.
    pub fn set_theme(&self, theme: &str) -> (action: Action)
        ensures
            action matches Action::SetTheme(name) && name@ == theme@,
    {
        Action::SetTheme(theme.to_owned())
    }

    /// The request that saves the view of the id `view_id`, or the view that
    /// is shown; none when that view is not open or has no file.
    pub fn save(&self, view_id: Option<usize>) -> (action: Option<Action>)
        requires
            self.wf(),
        ensures
            action == ({
                let id = match view_id {
                    Some(id) => id,
                    None => self.current_view,
                };
                match self.index_of(id) {
                    Some(index) => match self.entries()[index].1.file {
                        Some(file) => Some(Action::Request(id, Request::Save(file))),
                        None => None,
                    },
                    None => None,
                }
            }),
    {
        let id = match view_id {
            Some(id) => id,
            None => self.current_view,
        };
        proof {
            lemma_position_from(self.entries(), id, 0);
        }
        match registry_get(&self.views, id) {
            Some(view) => {
                if view.file.is_some() {
                    Some(Action::Request(id, view.save()))
                } else {
                    None
                }
            },
            None => None,
        }
    }

    /// The request that a click on the row `x` and the column `y` of the
    /// screen makes for the view that is shown; none when no view is shown.
    pub fn click(&self, x: u64, y: u64) -> (action: Option<Action>)
        requires
            self.wf(),
        ensures
            action == (match self.index_of(self.current_view) {
                Some(index) => {
                    let location = self.entries()[index].1.click_location(x, y);
                    Some(
                        Action::Request(self.current_view, Request::Click(location.0, location.1)),
                    )
                },
                None => None,
            }),
    {
        proof {
            lemma_position_from(self.entries(), self.current_view, 0);
        }
        match registry_get(&self.views, self.current_view) {
            Some(view) => Some(Action::Request(self.current_view, view.click(x, y))),
            None => None,
        }
    }

    /// The request that a drag to the row `x` and the column `y` of the
    /// screen makes for the view that is shown; none when no view is shown.
    pub fn drag(&self, x: u64, y: u64) -> (action: Option<Action>)
        requires
            self.wf(),
        ensures
            action == (match self.index_of(self.current_view) {
                Some(index) => {
                    let location = self.entries()[index].1.click_location(x, y);
                    Some(
                        Action::Request(self.current_view, Request::Drag(location.0, location.1)),
                    )
                },
                None => None,
            }),
    {
        proof {
            lemma_position_from(self.entries(), self.current_view, 0);
        }
        match registry_get(&self.views, self.current_view) {
            Some(view) => Some(Action::Request(self.current_view, view.drag(x, y))),
            None => None,
        }
    }

    /// Shows the view that was opened after the one that is shown, or the
    /// first view after the last.
    pub fn next_buffer(&mut self)
        requires
            old(self).wf(),
        ensures
            final(self).views == old(self).views,
            final(self).delayed_events == old(self).delayed_events,
            final(self).size == old(self).size,
            final(self).styles == old(self).styles,
            final(self).keybindings == old(self).keybindings,
            final(self).current_view == (match old(self).index_of(old(self).current_view) {
                Some(index) => if index + 1 == old(self).entries().len() {
                    old(self).entries()[0].0
                } else {
                    old(self).entries()[index + 1].0
                },
                None => old(self).current_view,
            }),
    {
        proof {
            lemma_position_from(self.entries(), self.current_view, 0);
        }
        let count = registry_len(&self.views);
        if let Some(dex) = registry_index_of(&self.views, self.current_view) {
            let next = if dex + 1 == count {
                0
            } else {
                dex + 1
            };
            if let Some(id) = registry_id_at(&self.views, next) {
                self.current_view = id;
            }
        }
    }

    /// Shows the view that was opened before the one that is shown, or the
    /// last view before the first.
    pub fn prev_buffer(&mut self)
        requires
            old(self).wf(),
        ensures
            final(self).views == old(self).views,
            final(self).delayed_events == old(self).delayed_events,
            final(self).size == old(self).size,
            final(self).styles == old(self).styles,
            final(self).keybindings == old(self).keybindings,
            final(self).current_view == (match old(self).index_of(old(self).current_view) {
                Some(index) => if index == 0 {
                    old(self).entries()[old(self).entries().len() - 1].0
                } else {
                    old(self).entries()[index - 1].0
                },
                None => old(self).current_view,
            }),
    {
        proof {
            lemma_position_from(self.entries(), self.current_view, 0);
        }
        let count = registry_len(&self.views);
        if let Some(dex) = registry_index_of(&self.views, self.current_view) {
            let previous = if dex == 0 {
                count - 1
            } else {
                dex - 1
            };
            if let Some(id) = registry_id_at(&self.views, previous) {
                self.current_view = id;
            }
        }
    }

    /// Whether `next` is this editor after the view that is shown was drawn,
    /// and `frame` is what was drawn: the view's window is fitted first; with
    /// no view to show, nothing is drawn and nothing changes.
    pub open spec fn after_render(&self, next: Editor, frame: Option<String>) -> bool {
        match self.index_of(self.current_view) {
            Some(index) => {
                &&& self.only_view_changed(next, index)
                &&& self.entries()[index].1.fitted(next.entries()[index].1)
                &&& frame is Some
                &&& frame->0@ == next.entries()[index].1.rows_frame(
                    self.styles@,
                    next.entries()[index].1.window.spec_size() as u16,
                ) + next.entries()[index].1.cursor_frame()
            },
            None => frame is None && next.views == self.views && next.delayed_events
                == self.delayed_events && next.current_view == self.current_view && next.size
                == self.size && next.styles == self.styles && next.keybindings == self.keybindings,
        }
    }

    /// Draws the view that is shown.
    pub fn render(&mut self) -> (frame: Option<String>)
        requires
            old(self).wf(),
        ensures
            final(self).wf(),
            old(self).after_render(*final(self), frame),
    {
        let ghost before = self.entries();
        let current = self.current_view;
        match self.take_view(current) {
            Some(mut view) => {
                let ghost taken = view;
                let frame = view.render(&self.styles);
                self.put_view(current, view);
                assert(self.entries() =~= before.update(
                    old(self).index_of(current)->0,
                    (current, view),
                ));
                assert(taken.fitted(view));
                Some(frame)
            },
            None => None,
        }
    }

    /// Whether `next` is this editor after the command `command`, and
    /// `action` is what the command asks of the outside world.
    ///
    /// The editor itself changes the theme, switches between views, saves and
    /// opens; any other command goes to the view that is shown.
    pub open spec fn after_command(&self, next: Editor, command: Command, action: Option<Action>)
        -> bool {
        match command {
            Command::SetTheme(theme) => {
                &&& next == *self
                &&& action matches Some(Action::SetTheme(name)) && name@ == theme@
            },
            Command::NextBuffer => {
                &&& action is None
                &&& next.views == self.views
                &&& next.delayed_events == self.delayed_events
                &&& next.size == self.size
                &&& next.styles == self.styles
        &&& next.keybindings == self.keybindings
                &&& next.current_view == (match self.index_of(self.current_view) {
                    Some(index) => if index + 1 == self.entries().len() {
                        self.entries()[0].0
                    } else {
                        self.entries()[index + 1].0
                    },
                    None => self.current_view,
                })
            },
            Command::PrevBuffer => {
                &&& action is None
                &&& next.views == self.views
                &&& next.delayed_events == self.delayed_events
                &&& next.size == self.size
                &&& next.styles == self.styles
        &&& next.keybindings == self.keybindings
                &&& next.current_view == (match self.index_of(self.current_view) {
                    Some(index) => if index == 0 {
                        self.entries()[self.entries().len() - 1].0
                    } else {
                        self.entries()[index - 1].0
                    },
                    None => self.current_view,
                })
            },
            Command::Save(view_id) => {
                let id = match view_id {
                    Some(id) => id,
                    None => self.current_view,
                };
                &&& next == *self
                &&& action == (match self.index_of(id) {
                    Some(index) => match self.entries()[index].1.file {
                        Some(file) => Some(Action::Request(id, Request::Save(file))),
                        None => None,
                    },
                    None => None,
                })
            },
            Command::Open(file) => next == *self && action == Some(Action::NewView(file)),
            _ => match self.index_of(self.current_view) {
                Some(index) => {
                    &&& self.only_view_changed(next, index)
                    &&& action == (match self.entries()[index].1.command_request(command) {
                        Some(request) => Some(Action::Request(self.current_view, request)),
                        None => None,
                    })
                    &&& next.entries()[index].1.cache == self.entries()[index].1.cache
                    &&& next.entries()[index].1.cursor == self.entries()[index].1.cursor
                    &&& next.entries()[index].1.window == self.entries()[index].1.window
                    &&& next.entries()[index].1.file == self.entries()[index].1.file
                    &&& next.entries()[index].1.cfg.gutter_size
                        == self.entries()[index].1.cfg.gutter_size
                    &&& next.entries()[index].1.cfg.tab_size == self.entries()[index].1.cfg.tab_size
                    &&& next.entries()[index].1.cfg.display_gutter == (
                    if command is ToggleLineNumbers {
                        !self.entries()[index].1.cfg.display_gutter
                    } else {
                        self.entries()[index].1.cfg.display_gutter
                    })
                },
                None => action is None && next.views == self.views && next.delayed_events
                    == self.delayed_events && next.current_view == self.current_view && next.size
                    == self.size && next.styles == self.styles && next.keybindings == self.keybindings,
            },
        }
    }

    /// Carries out a command.
    pub fn handle_command(&mut self, command: Command) -> (action: Option<Action>)
        requires
            old(self).wf(),
        ensures
            final(self).wf(),
            old(self).after_command(*final(self), command, action),
    {
        match command {
            Command::SetTheme(theme) => Some(self.set_theme(theme.as_str())),
            Command::NextBuffer => {
                self.next_buffer();
                None
            },
            Command::PrevBuffer => {
                self.prev_buffer();
                None
            },
            Command::Save(view_id) => self.save(view_id),
            Command::Open(file) => Some(self.new_view(file)),
            view_command => {
                let ghost before = self.entries();
                let current = self.current_view;
                match self.take_view(current) {
                    Some(mut view) => {
                        let request = view.handle_command(view_command);
                        self.put_view(current, view);
                        assert(self.entries() =~= before.update(
                            old(self).index_of(current)->0,
                            (current, view),
                        ));
                        match request {
                            Some(request) => Some(Action::Request(current, request)),
                            None => None,
                        }
                    },
                    None => None,
                }
            },
        }
    }
}

} // verus!
