//! The orchestration of the external tools, as a state machine.
//!
//! A run resolves where the converter lives, makes the raw input from the
//! compressed recording when it is missing, converts it, and hands the result
//! to the player. The machine does none of this itself. At each stage it
//! names the one thing it is waiting for (a `Request`); its owner carries
//! that out and reports what happened (an `Outcome`), which moves the
//! machine on. Everything the run decides is decided here.

use vstd::prelude::*;
use crate::catalog::EFFECT_COUNT;
use crate::parameter::ParameterVector;
use crate::status::{
    failure_status, playing_status, processing_status, Failure, StatusMessage, StatusView,
};
use crate::tools::{
    artifact_path, convert_command, convert_invocation, path_of, play_command, play_invocation,
    transcode_command, transcode_invocation, Artifact, Invocation, InvocationView, Location,
};

verus! {

/// The one playback process that may be alive, as its owner knows it.
#[derive(Clone, Copy, Debug, PartialEq, Eq, Structural)]
pub struct PlaybackHandle {
    pub id: u32,
}

/// Where a run stands: what the machine is waiting for.
#[derive(Clone, Copy, Debug, PartialEq, Eq, Structural)]
pub enum Stage {
    /// No run is under way.
    Idle,
    /// Is the converter at this location?
    FindingTool(Location),
    /// Is the raw input beside the converter?
    CheckingInput,
    /// Is the compressed recording at this location?
    FindingSource(Location),
    /// The transcoder runs on the recording found at this location.
    Transcoding(Location),
    /// Is the converter still where it was found?
    ConfirmingTool,
    /// The raw input is being opened.
    OpeningInput,
    /// The raw output is being created.
    CreatingOutput,
    /// The converter runs.
    Converting,
    /// The previous playback is being terminated.
    Terminating(PlaybackHandle),
    /// The player is being launched.
    Launching,
}

/// The stages in the large.
#[derive(Clone, Copy, Debug, PartialEq, Eq, Structural)]
pub enum Phase {
    Idle,
    Resolving,
    Transcoding,
    Converting,
    Playing,
}

/// What the machine asks its owner to do next.
#[derive(Clone, Copy, Debug, PartialEq, Eq)]
pub enum Request {
    /// Say whether the artifact exists at the location.
    Probe(Artifact, Location),
    /// Run the transcoder and wait for it.
    Transcode { source: Location, target: Location },
    /// Open the raw input at the location for reading.
    OpenInput(Location),
    /// Create or truncate the raw output at the location.
    CreateOutput(Location),
    /// Run the converter between the two opened files and wait for it.
    Convert { tool: Location, effect: usize, parameters: ParameterVector },
    /// Terminate this playback; whether that works does not matter.
    Terminate(PlaybackHandle),
    /// Launch the player on the raw output at the location; do not wait.
    Play(Location),
    /// Nothing: the run is over, or none was under way.
    Done,
}

/// What the owner reports back.
#[derive(Debug, PartialEq, Eq)]
pub enum Outcome {
    /// Answer to `Probe`: whether the file exists.
    Exists(bool),
    /// Answer to `Transcode` and `Convert`: whether the tool could be run and
    /// exited with 0.
    Exited(bool),
    /// Answer to `OpenInput` and `CreateOutput`: the file is open.
    Opened,
    /// Answer to `OpenInput` and `CreateOutput`: the system refused, in its
    /// own words.
    OpenFailed(String),
    /// Answer to `Terminate`: the attempt was made.
    Terminated,
    /// Answer to `Play`: the new playback, or none if the launch failed.
    Launched(Option<PlaybackHandle>),
}

/// The machine as plain values.
pub struct OrchestratorView {
    pub stage: Stage,
    pub effect: usize,
    pub parameters: ParameterVector,
    pub location: Location,
    pub player: Option<PlaybackHandle>,
    pub status: StatusView,
}

impl Stage {
    /// The phase that a stage belongs to.
    pub open spec fn phase_of(self) -> Phase {
        match self {
            Stage::Idle => Phase::Idle,
            Stage::FindingTool(_) | Stage::CheckingInput | Stage::FindingSource(_) => {
                Phase::Resolving
            },
            Stage::Transcoding(_) => Phase::Transcoding,
            Stage::ConfirmingTool | Stage::OpeningInput | Stage::CreatingOutput
            | Stage::Converting => Phase::Converting,
            Stage::Terminating(_) | Stage::Launching => Phase::Playing,
        }
    }
}

impl OrchestratorView {
    /// The effect of the run is one of the catalog, and no playback is
    /// tracked while the previous one is being replaced.
    pub open spec fn valid(self) -> bool {
        &&& self.effect < EFFECT_COUNT
        &&& (self.stage is Terminating || self.stage is Launching) ==> self.player is None
    }

    /// What the machine is waiting for.
    pub open spec fn pending(self) -> Request {
        match self.stage {
            Stage::Idle => Request::Done,
            Stage::FindingTool(candidate) => Request::Probe(Artifact::Converter, candidate),
            Stage::CheckingInput => Request::Probe(Artifact::RawInput, self.location),
            Stage::FindingSource(candidate) => Request::Probe(Artifact::Source, candidate),
            Stage::Transcoding(source) => Request::Transcode { source, target: self.location },
            Stage::ConfirmingTool => Request::Probe(Artifact::Converter, self.location),
            Stage::OpeningInput => Request::OpenInput(self.location),
            Stage::CreatingOutput => Request::CreateOutput(self.location),
            Stage::Converting => Request::Convert {
                tool: self.location,
                effect: self.effect,
                parameters: self.parameters,
            },
            Stage::Terminating(handle) => Request::Terminate(handle),
            Stage::Launching => Request::Play(self.location),
        }
    }

    /// The file that the pending request is about, if it is about one file.
    pub open spec fn pending_path(self) -> Option<Seq<char>> {
        match self.pending() {
            Request::Probe(artifact, location) => Some(artifact_path(artifact, location)),
            Request::OpenInput(location) => Some(artifact_path(Artifact::RawInput, location)),
            Request::CreateOutput(location) => Some(artifact_path(Artifact::RawOutput, location)),
            _ => None,
        }
    }

    /// The command line of the pending request, if it runs a tool.
    pub open spec fn pending_invocation(self) -> Option<InvocationView> {
        match self.pending() {
            Request::Transcode { source, target } => Some(transcode_invocation(source, target)),
            Request::Convert { tool, effect, parameters } => Some(
                convert_invocation(tool, effect as int, parameters@),
            ),
            Request::Play(location) => Some(play_invocation(location)),
            _ => None,
        }
    }

    /// The machine at the stage given, all else unchanged.
    pub open spec fn at(self, stage: Stage) -> OrchestratorView {
        OrchestratorView { stage, ..self }
    }

    /// The run ended by a failure: idle again, the failure in the status, the
    /// playback untouched.
    pub open spec fn failed(self, failure: Failure) -> OrchestratorView {
        OrchestratorView { stage: Stage::Idle, status: failure_status(failure), ..self }
    }

    /// The machine after a run was asked for. A run starts only from idle;
    /// while one is under way the request changes nothing.
    pub open spec fn started(self, effect: usize, parameters: ParameterVector) -> OrchestratorView {
        if self.stage is Idle {
            OrchestratorView {
                stage: Stage::FindingTool(Location::Parent),
                effect,
                parameters,
                status: processing_status(effect as int),
                ..self
            }
        } else {
            self
        }
    }

    /// The machine after playback was stopped: no playback is tracked.
    pub open spec fn stopped(self) -> OrchestratorView {
        OrchestratorView { player: None, ..self }
    }

    /// The machine after a run was asked for and went well up to and with
    /// the conversion: the converter and the raw input were found beside the
    /// parent directory, both files were opened, and the converter exited
    /// with 0.
    #[verifier::opaque]
    pub open spec fn converted(self, effect: usize, parameters: ParameterVector) -> OrchestratorView {
        self.started(effect, parameters).step(Outcome::Exists(true)).step(
            Outcome::Exists(true),
        ).step(Outcome::Exists(true)).step(Outcome::Opened).step(Outcome::Opened).step(
            Outcome::Exited(true),
        )
    }

    /// The machine after an outcome was reported. An outcome that does not
    /// answer the pending request changes nothing.
    pub open spec fn step(self, outcome: Outcome) -> OrchestratorView {
        match (self.stage, outcome) {
            (Stage::FindingTool(candidate), Outcome::Exists(true)) => OrchestratorView {
                stage: Stage::CheckingInput,
                location: candidate,
                ..self
            },
            (Stage::FindingTool(Location::Parent), Outcome::Exists(false)) => self.at(
                Stage::FindingTool(Location::Current),
            ),
            (Stage::FindingTool(Location::Current), Outcome::Exists(false)) => self.failed(
                Failure::EnvironmentMissing,
            ),
            (Stage::CheckingInput, Outcome::Exists(true)) => self.at(Stage::ConfirmingTool),
            (Stage::CheckingInput, Outcome::Exists(false)) => self.at(
                Stage::FindingSource(Location::Parent),
            ),
            (Stage::FindingSource(candidate), Outcome::Exists(true)) => self.at(
                Stage::Transcoding(candidate),
            ),
            (Stage::FindingSource(Location::Parent), Outcome::Exists(false)) => self.at(
                Stage::FindingSource(Location::Current),
            ),
            (Stage::FindingSource(Location::Current), Outcome::Exists(false)) => self.failed(
                Failure::InputMissing,
            ),
            (Stage::Transcoding(_), Outcome::Exited(true)) => self.at(Stage::ConfirmingTool),
            (Stage::Transcoding(_), Outcome::Exited(false)) => self.failed(
                Failure::TranscodeFailed,
            ),
            (Stage::ConfirmingTool, Outcome::Exists(true)) => self.at(Stage::OpeningInput),
            (Stage::ConfirmingTool, Outcome::Exists(false)) => self.failed(
                Failure::EnvironmentMissing,
            ),
            (Stage::OpeningInput, Outcome::Opened) => self.at(Stage::CreatingOutput),
            (Stage::OpeningInput, Outcome::OpenFailed(details)) => self.failed(
                Failure::InputUnreadable(details),
            ),
            (Stage::CreatingOutput, Outcome::Opened) => self.at(Stage::Converting),
            (Stage::CreatingOutput, Outcome::OpenFailed(details)) => self.failed(
                Failure::OutputUnwritable(details),
            ),
            (Stage::Converting, Outcome::Exited(true)) => match self.player {
                Some(handle) => OrchestratorView {
                    stage: Stage::Terminating(handle),
                    player: None,
                    ..self
                },
                None => self.at(Stage::Launching),
            },
            (Stage::Converting, Outcome::Exited(false)) => self.failed(Failure::ConversionFailed),
            (Stage::Terminating(_), Outcome::Terminated) => self.at(Stage::Launching),
            (Stage::Launching, Outcome::Launched(handle)) => OrchestratorView {
                stage: Stage::Idle,
                player: handle,
                status: playing_status(self.effect as int, self.parameters@),
                ..self
            },
            _ => self,
        }
    }
}

/// The state machine that sequences transcoding, conversion and playback,
/// with the one playback it tracks and the status of the last operation.
pub struct ProcessOrchestrator {
    stage: Stage,
    effect: usize,
    parameters: ParameterVector,
    location: Location,
    player: Option<PlaybackHandle>,
    status: StatusMessage,
}

impl View for ProcessOrchestrator {
    type V = OrchestratorView;

    closed spec fn view(&self) -> OrchestratorView {
        OrchestratorView {
            stage: self.stage,
            effect: self.effect,
            parameters: self.parameters,
            location: self.location,
            player: self.player,
            status: self.status@,
        }
    }
}

impl ProcessOrchestrator {
    #[verifier::type_invariant]
    spec fn sound(self) -> bool {
        self@.valid()
    }

    /// An idle machine that tracks no playback and shows the status given.
    /// Until a run is asked for, it holds the first effect with all
    /// parameters at zero, and the parent directory.
    pub fn new(status: StatusMessage) -> (machine: ProcessOrchestrator)
        ensures
            machine@.stage is Idle,
            machine@.effect == 0,
            machine@.parameters@ == seq![0int, 0, 0, 0],
            machine@.location is Parent,
            machine@.player is None,
            machine@.status == status@,
            machine@.valid(),
    {
        ProcessOrchestrator {
            stage: Stage::Idle,
            effect: 0,
            parameters: ParameterVector::of(0, 0, 0, 0),
            location: Location::Parent,
            player: None,
            status,
        }
    }

    /// The status of the last operation.
    pub fn status(&self) -> (status: &StatusMessage)
        ensures
            status@ == self@.status,
    {
        &self.status
    }

    /// The playback that is tracked, if any.
    pub fn player(&self) -> (player: Option<PlaybackHandle>)
        ensures
            player == self@.player,
    {
        self.player
    }

    /// Where the run stands.
    pub fn stage(&self) -> (stage: Stage)
        ensures
            stage == self@.stage,
            self@.valid(),
    {
        proof {
            use_type_invariant(self);
        }
        self.stage
    }

    /// Where the run stands, in the large.
    pub fn phase(&self) -> (phase: Phase)
        ensures
            phase == self@.stage.phase_of(),
    {
        match self.stage {
            Stage::Idle => Phase::Idle,
            Stage::FindingTool(_) | Stage::CheckingInput | Stage::FindingSource(_) => {
                Phase::Resolving
            },
            Stage::Transcoding(_) => Phase::Transcoding,
            Stage::ConfirmingTool | Stage::OpeningInput | Stage::CreatingOutput
            | Stage::Converting => Phase::Converting,
            Stage::Terminating(_) | Stage::Launching => Phase::Playing,
        }
    }

    /// Whether no run is under way.
    pub fn is_idle(&self) -> (idle: bool)
        ensures
            idle == (self@.stage is Idle),
    {
        match self.stage {
            Stage::Idle => true,
            _ => false,
        }
    }

    /// What the machine is waiting for.
    pub fn pending(&self) -> (request: Request)
        ensures
            request == self@.pending(),
    {
        match self.stage {
            Stage::Idle => Request::Done,
            Stage::FindingTool(candidate) => Request::Probe(Artifact::Converter, candidate),
            Stage::CheckingInput => Request::Probe(Artifact::RawInput, self.location),
            Stage::FindingSource(candidate) => Request::Probe(Artifact::Source, candidate),
            Stage::Transcoding(source) => Request::Transcode { source, target: self.location },
            Stage::ConfirmingTool => Request::Probe(Artifact::Converter, self.location),
            Stage::OpeningInput => Request::OpenInput(self.location),
            Stage::CreatingOutput => Request::CreateOutput(self.location),
            Stage::Converting => Request::Convert {
                tool: self.location,
                effect: self.effect,
                parameters: self.parameters,
            },
            Stage::Terminating(handle) => Request::Terminate(handle),
            Stage::Launching => Request::Play(self.location),
        }
    }

    /// The path of the file that the pending request is about, if it is
    /// about one file.
    pub fn pending_path(&self) -> (path: Option<String>)
        ensures
            path is Some <==> self@.pending_path() is Some,
            path matches Some(text) ==> Some(text@) == self@.pending_path(),
    {
        match self.pending() {
            Request::Probe(artifact, location) => Some(path_of(artifact, location)),
            Request::OpenInput(location) => Some(path_of(Artifact::RawInput, location)),
            Request::CreateOutput(location) => Some(path_of(Artifact::RawOutput, location)),
            _ => None,
        }
    }

    /// The command line of the pending request, if it runs a tool.
    pub fn pending_invocation(&self) -> (invocation: Option<Invocation>)
        ensures
            invocation is Some <==> self@.pending_invocation() is Some,
            invocation matches Some(command) ==> Some(command@) == self@.pending_invocation(),
    {
        proof {
            use_type_invariant(self);
        }
        match self.stage {
            Stage::Transcoding(source) => Some(transcode_command(source, self.location)),
            Stage::Converting => Some(
                convert_command(self.location, self.effect, &self.parameters),
            ),
            Stage::Launching => Some(play_command(self.location)),
            _ => None,
        }
    }

    /// Replaces the status.
    pub fn report(&mut self, status: StatusMessage)
        ensures
            final(self)@ == (OrchestratorView { status: status@, ..old(self)@ }),
            final(self)@.valid(),
    {
        proof {
            use_type_invariant(&*self);
        }
        self.status = status;
    }

    /// Starts a run on the effect and the parameters given, and says what to
    /// do first. While a run is under way nothing changes, and the answer is
    /// what that run is waiting for.
    pub fn process_and_play(&mut self, effect: usize, parameters: ParameterVector) -> (request:
        Request)
        requires
            effect < EFFECT_COUNT,
        ensures
            final(self)@ == old(self)@.started(effect, parameters),
            request == final(self)@.pending(),
            final(self)@.valid(),
    {
        proof {
            use_type_invariant(&*self);
        }
        if self.is_idle() {
            self.effect = effect;
            self.parameters = parameters;
            self.status = StatusMessage::processing(effect);
            self.stage = Stage::FindingTool(Location::Parent);
        }
        self.pending()
    }

    /// Forgets the playback that is tracked and hands it out, so that its
    /// owner can terminate it. With none tracked, nothing changes.
    pub fn stop_playback(&mut self) -> (handle: Option<PlaybackHandle>)
        ensures
            handle == old(self)@.player,
            final(self)@ == old(self)@.stopped(),
            final(self)@.valid(),
    {
        proof {
            use_type_invariant(&*self);
        }
        let handle = self.player;
        self.player = None;
        handle
    }

    fn fail(&mut self, failure: Failure)
        ensures
            final(self)@ == old(self)@.failed(failure),
    {
        proof {
            use_type_invariant(&*self);
        }
        self.stage = Stage::Idle;
        self.status = StatusMessage::failure(&failure);
    }

    fn enter(&mut self, stage: Stage)
        requires
            !(stage is Terminating),
            !(stage is Launching) || old(self)@.player is None,
        ensures
            final(self)@ == old(self)@.at(stage),
    {
        proof {
            use_type_invariant(&*self);
        }
        self.stage = stage;
    }

    /// Takes in what happened to the pending request, moves the run on, and
    /// says what to do next. An outcome that does not answer the pending
    /// request changes nothing.
    pub fn advance(&mut self, outcome: Outcome) -> (request: Request)
        ensures
            final(self)@ == old(self)@.step(outcome),
            request == final(self)@.pending(),
            final(self)@.valid(),
    {
        proof {
            use_type_invariant(&*self);
        }
        let stage = self.stage;
        match stage {
            Stage::Idle => {},
            Stage::FindingTool(candidate) => {
                if let Outcome::Exists(found) = outcome {
                    if found {
                        self.location = candidate;
                        self.enter(Stage::CheckingInput);
                    } else {
                        match candidate {
                            Location::Parent => self.enter(Stage::FindingTool(Location::Current)),
                            Location::Current => self.fail(Failure::EnvironmentMissing),
                        }
                    }
                }
            },
            Stage::CheckingInput => {
                if let Outcome::Exists(found) = outcome {
                    if found {
                        self.enter(Stage::ConfirmingTool);
                    } else {
                        self.enter(Stage::FindingSource(Location::Parent));
                    }
                }
            },
            Stage::FindingSource(candidate) => {
                if let Outcome::Exists(found) = outcome {
                    if found {
                        self.enter(Stage::Transcoding(candidate));
                    } else {
                        match candidate {
                            Location::Parent => self.enter(
                                Stage::FindingSource(Location::Current),
                            ),
                            Location::Current => self.fail(Failure::InputMissing),
                        }
                    }
                }
            },
            Stage::Transcoding(_) => {
                if let Outcome::Exited(success) = outcome {
                    if success {
                        self.enter(Stage::ConfirmingTool);
                    } else {
                        self.fail(Failure::TranscodeFailed);
                    }
                }
            },
            Stage::ConfirmingTool => {
                if let Outcome::Exists(found) = outcome {
                    if found {
                        self.enter(Stage::OpeningInput);
                    } else {
                        self.fail(Failure::EnvironmentMissing);
                    }
                }
            },
            Stage::OpeningInput => {
                match outcome {
                    Outcome::Opened => self.enter(Stage::CreatingOutput),
                    Outcome::OpenFailed(details) => self.fail(Failure::InputUnreadable(details)),
                    _ => {},
                }
            },
            Stage::CreatingOutput => {
                match outcome {
                    Outcome::Opened => self.enter(Stage::Converting),
                    Outcome::OpenFailed(details) => self.fail(Failure::OutputUnwritable(details)),
                    _ => {},
                }
            },
            Stage::Converting => {
                if let Outcome::Exited(success) = outcome {
                    if success {
                        match self.player {
                            Some(handle) => {
                                self.player = None;
                                self.stage = Stage::Terminating(handle);
                            },
                            None => self.enter(Stage::Launching),
                        }
                    } else {
                        self.fail(Failure::ConversionFailed);
                    }
                }
            },
            Stage::Terminating(_) => {
                if let Outcome::Terminated = outcome {
                    self.enter(Stage::Launching);
                }
            },
            Stage::Launching => {
                if let Outcome::Launched(handle) = outcome {
                    self.stage = Stage::Idle;
                    self.player = handle;
                    self.status = StatusMessage::playing(self.effect, &self.parameters);
                }
            },
        }
        proof {
            use_type_invariant(&*self);
        }
        self.pending()
    }
}

/// Whatever is asked of the machine or reported to it, it stays valid.
pub proof fn law_machine_stays_valid(
    machine: OrchestratorView,
    outcome: Outcome,
    effect: usize,
    parameters: ParameterVector,
)
    requires
        machine.valid(),
        effect < EFFECT_COUNT,
    ensures
        machine.step(outcome).valid(),
        machine.started(effect, parameters).valid(),
        machine.stopped().valid(),
{
}

/// A run that is asked for while another is under way changes nothing.
pub proof fn law_no_second_run(
    machine: OrchestratorView,
    effect: usize,
    parameters: ParameterVector,
)
    requires
        !(machine.stage is Idle),
    ensures
        machine.started(effect, parameters) == machine,
{
}

/// The tracked playback is never overwritten by another. A step changes it
/// in two ways only: a tracked playback is dropped, and the very next request
/// is to terminate it; or a playback is recorded where none was tracked, as
/// the answer to a launch.
pub proof fn law_playback_replaced_only_after_termination(
    machine: OrchestratorView,
    outcome: Outcome,
)
    requires
        machine.valid(),
    ensures
        ({
            let next = machine.step(outcome);
            next.player != machine.player ==> {
                ||| {
                    &&& machine.player matches Some(previous)
                    &&& next.player is None
                    &&& next.pending() == Request::Terminate(previous)
                }
                ||| {
                    &&& machine.player is None
                    &&& machine.stage is Launching
                    &&& outcome == Outcome::Launched(next.player)
                }
            }
        }),
{
}

/// When the conversion succeeds while a playback is tracked, the machine
/// first asks for that playback to be terminated, tracking none meanwhile,
/// then asks for the player to be launched, and ends tracking exactly what
/// the launch gave, with the status of a successful run.
pub proof fn law_successful_run_replaces_playback(
    machine: OrchestratorView,
    previous: PlaybackHandle,
    launched: Option<PlaybackHandle>,
)
    requires
        machine.stage is Converting,
        machine.player == Some(previous),
    ensures
        ({
            let converted = machine.step(Outcome::Exited(true));
            let cleared = converted.step(Outcome::Terminated);
            let played = cleared.step(Outcome::Launched(launched));
            &&& converted.pending() == Request::Terminate(previous)
            &&& converted.player is None
            &&& cleared.pending() == Request::Play(machine.location)
            &&& cleared.player is None
            &&& played.pending() == Request::Done
            &&& played.player == launched
            &&& played.status == playing_status(machine.effect as int, machine.parameters@)
        }),
{
}

/// Where a run that goes well stands once the converter has exited: the
/// files are those beside the parent directory, and the playback that was
/// tracked, if any, is no longer tracked but about to be terminated.
pub proof fn lemma_converted(machine: OrchestratorView, effect: usize, parameters: ParameterVector)
    requires
        machine.stage is Idle,
    ensures
        machine.converted(effect, parameters) == (OrchestratorView {
            stage: match machine.player {
                Some(handle) => Stage::Terminating(handle),
                None => Stage::Launching,
            },
            effect,
            parameters,
            location: Location::Parent,
            player: None,
            status: processing_status(effect as int),
        }),
{
    reveal(OrchestratorView::converted);
    let started = machine.started(effect, parameters);
    assert(started.stage == Stage::FindingTool(Location::Parent));
    let located = started.step(Outcome::Exists(true));
    assert(located == OrchestratorView {
        stage: Stage::CheckingInput,
        location: Location::Parent,
        ..started
    });
    let checked = located.step(Outcome::Exists(true));
    assert(checked == located.at(Stage::ConfirmingTool));
    let confirmed = checked.step(Outcome::Exists(true));
    assert(confirmed == located.at(Stage::OpeningInput));
    let opened = confirmed.step(Outcome::Opened);
    assert(opened == located.at(Stage::CreatingOutput));
    let created = opened.step(Outcome::Opened);
    assert(created == located.at(Stage::Converting));
    assert(machine.converted(effect, parameters) == created.step(Outcome::Exited(true)));
}

/// Two runs in succession that both go well leave exactly one playback
/// tracked, the second; and the second run asks for the first playback to be
/// terminated, and tracks none, before it asks for the player to be launched.
pub proof fn law_second_run_terminates_first_playback(
    machine: OrchestratorView,
    effect: usize,
    parameters: ParameterVector,
    next_effect: usize,
    next_parameters: ParameterVector,
    first: PlaybackHandle,
    second: PlaybackHandle,
)
    requires
        machine.stage is Idle,
        machine.player is None,
    ensures
        ({
            let once = machine.converted(effect, parameters).step(
                Outcome::Launched(Some(first)),
            );
            let again = once.converted(next_effect, next_parameters);
            let cleared = again.step(Outcome::Terminated);
            let twice = cleared.step(Outcome::Launched(Some(second)));
            &&& once.pending() == Request::Done
            &&& once.player == Some(first)
            &&& again.pending() == Request::Terminate(first)
            &&& again.player is None
            &&& cleared.pending() == Request::Play(Location::Parent)
            &&& cleared.player is None
            &&& twice.pending() == Request::Done
            &&& twice.player == Some(second)
            &&& twice.status == playing_status(next_effect as int, next_parameters@)
        }),
{
    lemma_converted(machine, effect, parameters);
    let once = machine.converted(effect, parameters).step(Outcome::Launched(Some(first)));
    assert(once.stage is Idle);
    lemma_converted(once, next_effect, next_parameters);
}

/// When the conversion succeeds while no playback is tracked, the machine
/// asks for the player to be launched at once, and ends tracking exactly
/// what the launch gave. A launch that failed still ends the run as a
/// success.
pub proof fn law_successful_run_starts_playback(
    machine: OrchestratorView,
    launched: Option<PlaybackHandle>,
)
    requires
        machine.stage is Converting,
        machine.player is None,
    ensures
        ({
            let converted = machine.step(Outcome::Exited(true));
            let played = converted.step(Outcome::Launched(launched));
            &&& converted.pending() == Request::Play(machine.location)
            &&& played.pending() == Request::Done
            &&& played.player == launched
            &&& played.status == playing_status(machine.effect as int, machine.parameters@)
            &&& played.status.ok
        }),
{
}

/// A failure of any kind ends the run, shows as not ok, and leaves the
/// tracked playback as it was.
pub proof fn law_failure_keeps_playback(machine: OrchestratorView, failure: Failure)
    ensures
        machine.failed(failure).player == machine.player,
        machine.failed(failure).pending() == Request::Done,
        machine.failed(failure).status == failure_status(failure),
        !machine.failed(failure).status.ok,
{
}

/// When the converter cannot be run or does not exit with 0, the run ends
/// with that failure and the tracked playback is untouched.
pub proof fn law_failed_conversion_keeps_playback(machine: OrchestratorView)
    requires
        machine.stage is Converting,
    ensures
        machine.step(Outcome::Exited(false)) == machine.failed(Failure::ConversionFailed),
        machine.step(Outcome::Exited(false)).player == machine.player,
        !machine.step(Outcome::Exited(false)).status.ok,
{
}

/// Stopping twice is stopping once, and stopping with no playback tracked
/// changes nothing.
pub proof fn law_stop_is_idempotent(machine: OrchestratorView)
    ensures
        machine.stopped().stopped() == machine.stopped(),
        machine.player is None ==> machine.stopped() == machine,
{
}

/// When the converter is in neither directory, the run asks for two looks
/// and nothing else, and ends with the converter reported missing.
pub proof fn law_missing_converter_runs_nothing(
    machine: OrchestratorView,
    effect: usize,
    parameters: ParameterVector,
)
    requires
        machine.stage is Idle,
    ensures
        ({
            let first = machine.started(effect, parameters);
            let second = first.step(Outcome::Exists(false));
            let last = second.step(Outcome::Exists(false));
            &&& first.pending() == Request::Probe(Artifact::Converter, Location::Parent)
            &&& second.pending() == Request::Probe(Artifact::Converter, Location::Current)
            &&& last.pending() == Request::Done
            &&& last.status == failure_status(Failure::EnvironmentMissing)
            &&& last.player == machine.player
        }),
{
}

/// The converter is preferred beside the parent directory, and the raw
/// input and output are taken from the directory where the converter was
/// found.
pub proof fn law_files_follow_the_converter(machine: OrchestratorView)
    requires
        machine.stage == Stage::FindingTool(Location::Parent),
    ensures
        machine.step(Outcome::Exists(true)).pending() == Request::Probe(
            Artifact::RawInput,
            Location::Parent,
        ),
        machine.step(Outcome::Exists(false)).step(Outcome::Exists(true)).pending()
            == Request::Probe(Artifact::RawInput, Location::Current),
{
}

} // verus!
