//! The panel as a whole: the selection, the tuned parameters and the
//! orchestration, moved by the operator's commands.

use vstd::prelude::*;
use ratatui::widgets::ListState;
use crate::catalog::{effect_defaults, EFFECT_COUNT};
use crate::input::{command_for, command_of_event, Command, Key, KeyKind};
use crate::orchestrator::{
    OrchestratorView, Outcome, PlaybackHandle, ProcessOrchestrator, Request,
};
use crate::parameter::{lowered, raised, vector_of, ParameterVector, PARAMETER_COUNT};
use crate::selection::{SelectionState, SelectionView};
use crate::status::{
    environment_status, reset_status, stopped_status, StatusMessage, StatusView,
};
use crate::store::{initial_store, ParameterStore};
use crate::widget::highlighted_row;

verus! {

/// What a look at the two directories found.
#[derive(Clone, Copy, Debug, PartialEq, Eq, Structural)]
pub struct Surroundings {
    pub converter_in_parent: bool,
    pub converter_in_current: bool,
    pub input_in_parent: bool,
    pub input_in_current: bool,
}

impl Surroundings {
    /// The converter is in one of the two directories.
    pub open spec fn has_converter(self) -> bool {
        self.converter_in_parent || self.converter_in_current
    }

    /// The raw input is in one of the two directories.
    pub open spec fn has_input(self) -> bool {
        self.input_in_parent || self.input_in_current
    }

    /// The status that these surroundings give.
    pub open spec fn status(self) -> StatusView {
        environment_status(self.has_converter(), self.has_input())
    }
}

/// The panel as plain values.
pub struct AppView {
    pub selection: SelectionView,
    pub store: Seq<Seq<int>>,
    pub machine: OrchestratorView,
    pub running: bool,
}

impl AppView {
    /// One effect and one parameter are current, there is a vector for each
    /// effect, and the orchestration is valid.
    pub open spec fn valid(self) -> bool {
        &&& self.selection.valid()
        &&& self.store.len() == EFFECT_COUNT
        &&& self.machine.valid()
    }

    /// The parameters of the current effect.
    pub open spec fn current_parameters(self) -> Seq<int> {
        self.store[self.selection.effect]
    }

    /// The status line.
    pub open spec fn status(self) -> StatusView {
        self.machine.status
    }

    /// The panel with the status given.
    pub open spec fn reporting(self, status: StatusView) -> AppView {
        AppView { machine: OrchestratorView { status, ..self.machine }, ..self }
    }

    /// The panel with the current parameter set to the value given.
    pub open spec fn with_current_value(self, value: int) -> AppView {
        AppView {
            store: self.store.update(
                self.selection.effect,
                self.current_parameters().update(self.selection.cursor, value),
            ),
            ..self
        }
    }

    /// The panel after a move to the next effect.
    pub open spec fn next_effect(self) -> AppView {
        AppView { selection: self.selection.next_effect(), ..self }
    }

    /// The panel after a move to the previous effect.
    pub open spec fn prev_effect(self) -> AppView {
        AppView { selection: self.selection.prev_effect(), ..self }
    }

    /// The panel after a move to the next parameter.
    pub open spec fn next_pot(self) -> AppView {
        AppView { selection: self.selection.next_parameter(), ..self }
    }

    /// The panel with the current parameter one step up.
    pub open spec fn increase_pot(self) -> AppView {
        self.with_current_value(raised(self.current_parameters()[self.selection.cursor]))
    }

    /// The panel with the current parameter one step down.
    pub open spec fn decrease_pot(self) -> AppView {
        self.with_current_value(lowered(self.current_parameters()[self.selection.cursor]))
    }

    /// The panel with the current effect back at its defaults, and the
    /// status saying so.
    pub open spec fn reset_pots(self) -> AppView {
        AppView {
            store: self.store.update(self.selection.effect, effect_defaults(self.selection.effect)),
            ..self
        }.reporting(reset_status(self.selection.effect))
    }

    /// The panel after it let go of the playback.
    pub open spec fn stop_audio(self) -> AppView {
        AppView { machine: self.machine.stopped(), ..self }
    }

    /// The panel after a run was asked for on the current effect with its
    /// parameters as they stand.
    pub open spec fn process_and_play(self) -> AppView {
        AppView {
            machine: self.machine.started(
                self.selection.effect as usize,
                vector_of(self.current_parameters()),
            ),
            ..self
        }
    }

    /// The panel after an outcome was reported to the orchestration.
    pub open spec fn advance(self, outcome: Outcome) -> AppView {
        AppView { machine: self.machine.step(outcome), ..self }
    }

    /// The panel after a command.
    pub open spec fn dispatched(self, command: Command) -> AppView {
        match command {
            Command::PreviousEffect => self.prev_effect(),
            Command::NextEffect => self.next_effect(),
            Command::NextParameter => self.next_pot(),
            Command::Decrease => self.decrease_pot(),
            Command::Increase => self.increase_pot(),
            Command::ProcessAndPlay => self.process_and_play(),
            Command::Reset => self.reset_pots(),
            Command::StopPlayback => self.stop_audio().reporting(stopped_status()),
            Command::Quit => AppView { running: false, ..self.stop_audio() },
        }
    }

    /// What is to be done right after a command: to terminate the playback
    /// that a stop or a quit let go of; else whatever the orchestration is
    /// waiting for.
    pub open spec fn directive(self, command: Command) -> Request {
        match (command, self.machine.player) {
            (Command::StopPlayback, Some(handle)) => Request::Terminate(handle),
            (Command::Quit, Some(handle)) => Request::Terminate(handle),
            _ => self.dispatched(command).machine.pending(),
        }
    }

    /// The panel after a key event: after the command that the event asks
    /// for, or unchanged when it asks for none.
    pub open spec fn keyed(self, key: Key, kind: KeyKind) -> AppView {
        match command_of_event(key, kind) {
            Some(command) => self.dispatched(command),
            None => self,
        }
    }

    /// What is to be done right after a key event.
    pub open spec fn key_directive(self, key: Key, kind: KeyKind) -> Request {
        match command_of_event(key, kind) {
            Some(command) => self.directive(command),
            None => self.machine.pending(),
        }
    }
}

/// The panel.
pub struct App {
    selection: SelectionState,
    store: ParameterStore,
    orchestrator: ProcessOrchestrator,
    running: bool,
}

impl View for App {
    type V = AppView;

    closed spec fn view(&self) -> AppView {
        AppView {
            selection: self.selection@,
            store: self.store@,
            machine: self.orchestrator@,
            running: self.running,
        }
    }
}

impl App {
    /// The list widget's state.
    pub closed spec fn widget(self) -> ListState {
        self.selection.widget()
    }

    /// The row that the list widget highlights.
    pub open spec fn highlighted(self) -> Option<usize> {
        highlighted_row(self.widget())
    }

    /// A fresh panel: the first effect and its first parameter are current,
    /// every effect is at its defaults, nothing runs or plays, and the status
    /// is what the surroundings give.
    pub fn new(surroundings: Surroundings) -> (app: App)
        ensures
            app@.selection == (SelectionView { effect: 0, cursor: 0 }),
            app@.store == initial_store(),
            app@.machine.stage is Idle,
            app@.machine.player is None,
            app@.status() == surroundings.status(),
            app@.running,
            app@.valid(),
            app.highlighted() == Some(0usize),
    {
        let status = StatusMessage::environment(
            surroundings.converter_in_parent || surroundings.converter_in_current,
            surroundings.input_in_parent || surroundings.input_in_current,
        );
        App {
            selection: SelectionState::new(),
            store: ParameterStore::new(),
            orchestrator: ProcessOrchestrator::new(status),
            running: true,
        }
    }

    /// Index of the current effect.
    pub fn effect_index(&self) -> (index: usize)
        ensures
            index == self@.selection.effect,
            index < EFFECT_COUNT,
            self.highlighted() == Some(index),
    {
        self.selection.effect_index()
    }

    /// Index of the current parameter.
    pub fn parameter_cursor(&self) -> (cursor: usize)
        ensures
            cursor == self@.selection.cursor,
            cursor < PARAMETER_COUNT,
    {
        self.selection.parameter_cursor()
    }

    /// The parameters of the effect at `effect`.
    pub fn parameters(&self, effect: usize) -> (vector: &ParameterVector)
        requires
            effect < EFFECT_COUNT,
        ensures
            vector@ == self@.store[effect as int],
    {
        self.store.get(effect)
    }

    /// The parameters of the current effect.
    pub fn current_parameters(&self) -> (vector: &ParameterVector)
        ensures
            vector@ == self@.current_parameters(),
    {
        self.store.get(self.selection.effect_index())
    }

    /// The status line.
    pub fn status(&self) -> (status: &StatusMessage)
        ensures
            status@ == self@.status(),
    {
        self.orchestrator.status()
    }

    /// The playback that is tracked, if any.
    pub fn player(&self) -> (player: Option<PlaybackHandle>)
        ensures
            player == self@.machine.player,
    {
        self.orchestrator.player()
    }

    /// The orchestration.
    pub fn orchestrator(&self) -> (machine: &ProcessOrchestrator)
        ensures
            machine@ == self@.machine,
    {
        &self.orchestrator
    }

    /// The list widget's state, which highlights the current effect.
    pub fn list_state(&self) -> (state: &ListState)
        ensures
            *state == self.widget(),
            self.highlighted() == Some(self@.selection.effect as usize),
    {
        self.selection.list_state()
    }

    /// Takes back the list widget's state after it was drawn with, so that
    /// what the widget noted while drawing is kept. A state that highlights
    /// another row than the current effect is not taken.
    pub fn keep_list_state(&mut self, drawn: ListState)
        ensures
            final(self)@ == old(self)@,
            final(self).widget() == if highlighted_row(drawn) == Some(
                old(self)@.selection.effect as usize,
            ) {
                drawn
            } else {
                old(self).widget()
            },
            final(self).highlighted() == Some(final(self)@.selection.effect as usize),
    {
        self.selection.keep_list_state(drawn);
    }

    /// Whether the operator has not quit yet.
    pub fn is_running(&self) -> (running: bool)
        ensures
            running == self@.running,
    {
        self.running
    }

    /// Sets the status to what the surroundings give.
    pub fn check_environment(&mut self, surroundings: Surroundings)
        ensures
            final(self)@ == old(self)@.reporting(surroundings.status()),
    {
        let status = StatusMessage::environment(
            surroundings.converter_in_parent || surroundings.converter_in_current,
            surroundings.input_in_parent || surroundings.input_in_current,
        );
        self.orchestrator.report(status);
    }

    /// Moves to the next effect and to its first parameter.
    pub fn next_effect(&mut self)
        ensures
            final(self)@ == old(self)@.next_effect(),
            final(self).highlighted() == Some(final(self)@.selection.effect as usize),
    {
        self.selection.next_effect();
    }

    /// Moves to the previous effect and to its first parameter.
    pub fn prev_effect(&mut self)
        ensures
            final(self)@ == old(self)@.prev_effect(),
            final(self).highlighted() == Some(final(self)@.selection.effect as usize),
    {
        self.selection.prev_effect();
    }

    /// Moves to the next parameter of the current effect.
    pub fn next_pot(&mut self)
        ensures
            final(self)@ == old(self)@.next_pot(),
    {
        self.selection.next_parameter();
    }

    /// Moves the current parameter a step up, capped at 1.00.
    pub fn increase_pot(&mut self)
        ensures
            final(self)@ == old(self)@.increase_pot(),
    {
        let effect = self.selection.effect_index();
        let cursor = self.selection.parameter_cursor();
        self.store.increase(effect, cursor);
    }

    /// Moves the current parameter a step down, floored at 0.00.
    pub fn decrease_pot(&mut self)
        ensures
            final(self)@ == old(self)@.decrease_pot(),
    {
        let effect = self.selection.effect_index();
        let cursor = self.selection.parameter_cursor();
        self.store.decrease(effect, cursor);
    }

    /// Puts the current effect back to its defaults and says so in the
    /// status.
    pub fn reset_pots(&mut self)
        ensures
            final(self)@ == old(self)@.reset_pots(),
            final(self)@.current_parameters() == effect_defaults(old(self)@.selection.effect),
    {
        let effect = self.selection.effect_index();
        self.store.reset(effect);
        self.orchestrator.report(StatusMessage::reset(effect));
    }

    /// Lets go of the playback that is tracked and hands it out to be
    /// terminated. With none tracked, nothing changes.
    pub fn stop_audio(&mut self) -> (handle: Option<PlaybackHandle>)
        ensures
            handle == old(self)@.machine.player,
            final(self)@ == old(self)@.stop_audio(),
    {
        self.orchestrator.stop_playback()
    }

    /// Starts a run on the current effect with its parameters as they stand
    /// now, and says what to do first. While a run is under way nothing
    /// changes.
    pub fn process_and_play(&mut self) -> (request: Request)
        ensures
            final(self)@ == old(self)@.process_and_play(),
            request == final(self)@.machine.pending(),
    {
        let effect = self.selection.effect_index();
        let parameters = *self.store.get(effect);
        proof {
            parameters.lemma_vector_of_view();
        }
        self.orchestrator.process_and_play(effect, parameters)
    }

    /// Takes in what happened to the pending request and says what to do
    /// next.
    pub fn advance(&mut self, outcome: Outcome) -> (request: Request)
        ensures
            final(self)@ == old(self)@.advance(outcome),
            request == final(self)@.machine.pending(),
    {
        self.orchestrator.advance(outcome)
    }

    /// Carries out a command and says what to do next.
    pub fn dispatch(&mut self, command: Command) -> (request: Request)
        ensures
            final(self)@ == old(self)@.dispatched(command),
            request == old(self)@.directive(command),
    {
        match command {
            Command::PreviousEffect => self.prev_effect(),
            Command::NextEffect => self.next_effect(),
            Command::NextParameter => self.next_pot(),
            Command::Decrease => self.decrease_pot(),
            Command::Increase => self.increase_pot(),
            Command::ProcessAndPlay => {
                return self.process_and_play();
            },
            Command::Reset => self.reset_pots(),
            Command::StopPlayback => {
                let handle = self.stop_audio();
                self.orchestrator.report(StatusMessage::stopped());
                if let Some(playback) = handle {
                    return Request::Terminate(playback);
                }
            },
            Command::Quit => {
                let handle = self.stop_audio();
                self.running = false;
                if let Some(playback) = handle {
                    return Request::Terminate(playback);
                }
            },
        }
        self.orchestrator.pending()
    }

    /// Carries out the command that a key event asks for, if any, and says
    /// what to do next.
    pub fn handle_key(&mut self, key: Key, kind: KeyKind) -> (request: Request)
        ensures
            final(self)@ == old(self)@.keyed(key, kind),
            request == old(self)@.key_directive(key, kind),
    {
        match command_for(key, kind) {
            Some(command) => self.dispatch(command),
            None => self.orchestrator.pending(),
        }
    }
}

/// A reset makes the parameters of the current effect exactly its defaults,
/// whatever they were, and touches no other effect.
pub proof fn law_reset_restores_defaults(app: AppView)
    requires
        app.valid(),
    ensures
        app.reset_pots().current_parameters() == effect_defaults(app.selection.effect),
        forall|other: int|
            0 <= other < EFFECT_COUNT && other != app.selection.effect
                ==> #[trigger] app.reset_pots().store[other] == app.store[other],
{
}

/// Whatever the command, the panel stays valid.
pub proof fn law_commands_keep_panel_valid(app: AppView, command: Command)
    requires
        app.valid(),
    ensures
        app.dispatched(command).valid(),
{
}

/// A command that switches the effect puts the parameter cursor back to the
/// first parameter; no other command moves to another effect.
pub proof fn law_only_effect_switches_reset_cursor(app: AppView, command: Command)
    ensures
        command is NextEffect || command is PreviousEffect ==> app.dispatched(
            command,
        ).selection.cursor == 0,
        !(command is NextEffect || command is PreviousEffect) ==> app.dispatched(
            command,
        ).selection.effect == app.selection.effect,
{
}

/// Only a stop or a quit lets go of the playback at once; no command
/// replaces it.
pub proof fn law_commands_never_replace_playback(app: AppView, command: Command)
    ensures
        app.dispatched(command).machine.player == if command is StopPlayback || command is Quit {
            None
        } else {
            app.machine.player
        },
{
}

} // verus!
