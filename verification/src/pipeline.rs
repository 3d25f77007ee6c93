//! The proving run as a state machine.
//!
//! A run moves through four phases in a fixed order: it acquires the compiled
//! program and the proving parameters, binds the package's inputs to the
//! program, constructs the proof, and persists it. Any failure ends the run at
//! once. The machine does none of the work itself: each transition names the
//! [`Action`] to perform next, and the [`Event`] that reports its outcome
//! drives the following transition.

use vstd::prelude::*;
use crate::errors::{CLIError, CLIErrorView, ErrorKind};
use crate::package::{Package, PackageView};

verus! {

/// The phases of a run, in the order in which a successful run passes them.
#[derive(Clone, Copy, Debug, PartialEq, Eq, Structural)]
pub enum Phase {
    Start,
    AcquireArtifacts,
    BindInputs,
    ConstructProof,
    PersistArtifact,
    Done,
    Failed,
}

impl Phase {
    /// The phase that a run enters when this one has succeeded; none once the
    /// run has ended.
    pub open spec fn next(self) -> Option<Phase> {
        match self {
            Phase::Start => Some(Phase::AcquireArtifacts),
            Phase::AcquireArtifacts => Some(Phase::BindInputs),
            Phase::BindInputs => Some(Phase::ConstructProof),
            Phase::ConstructProof => Some(Phase::PersistArtifact),
            Phase::PersistArtifact => Some(Phase::Done),
            Phase::Done => None,
            Phase::Failed => None,
        }
    }
}

/// Where a run stands: the step whose outcome it is waiting for.
///
/// Binding the inputs takes three steps (resolving the package, loading the
/// inputs file, parsing its text into the program) and persisting the proof
/// takes two (serializing it, writing the file).
#[derive(Clone, Debug, PartialEq, Eq)]
pub enum Stage {
    /// Nothing has happened yet.
    Start,
    /// Waiting for the setup to hand over program and parameters.
    AcquireArtifacts,
    /// Waiting for the working directory and the name in its manifest.
    ResolvePackage,
    /// Waiting for the text of the inputs file.
    LoadInputs(Package),
    /// Waiting for the inputs to be parsed and bound to the program.
    ParseInputs(Package),
    /// Waiting for the prover.
    ConstructProof(Package),
    /// Waiting for the bytes of the proof.
    SerializeProof(Package),
    /// Waiting for the proof file to be written.
    WriteProof(Package),
    /// The proof file is written.
    Done,
    /// The run was given up for the reason held.
    Failed(CLIError),
}

/// The outcome of the step a run was waiting for.
#[derive(Clone, Debug, PartialEq, Eq)]
pub enum Event {
    /// The command was invoked.
    Invoked,
    /// The setup handed over program and parameters.
    SetupCompleted,
    /// The working directory is `directory` and its manifest names the package `name`.
    PackageResolved { directory: String, name: String },
    /// The inputs file holds `text`.
    InputsLoaded { text: String },
    /// The inputs are bound to the program.
    InputsBound,
    /// The prover returned a proof.
    ProofConstructed,
    /// The proof serializes to `bytes`.
    ProofSerialized { bytes: Vec<u8> },
    /// The proof file is on disk.
    ProofWritten,
    /// The step failed.
    StageFailed(CLIError),
}

/// What a run asks to be done next.
#[derive(Clone, Debug, PartialEq, Eq)]
pub enum Action {
    /// Run the setup.
    RunSetup,
    /// Find the working directory and read the package name from its manifest.
    ResolvePackage,
    /// Read the text of the file at `path`.
    LoadInputs { path: String },
    /// Parse `text`, read from `path`, and bind its values to the program.
    ParseInputs { path: String, text: String },
    /// Run the prover on the program with freshly drawn randomness.
    ConstructProof,
    /// Serialize the proof.
    SerializeProof,
    /// Write `bytes` to the file at `path`, replacing what is there.
    WriteProof { path: String, bytes: Vec<u8> },
    /// Hand program, proof and verifying key to the caller.
    Finish,
    /// Hand the failure to the caller.
    Abort,
}

/// The mathematical content of a [`Stage`].
pub enum StageView {
    Start,
    AcquireArtifacts,
    ResolvePackage,
    LoadInputs(PackageView),
    ParseInputs(PackageView),
    ConstructProof(PackageView),
    SerializeProof(PackageView),
    WriteProof(PackageView),
    Done,
    Failed(CLIErrorView),
}

/// The mathematical content of an [`Event`].
pub enum EventView {
    Invoked,
    SetupCompleted,
    PackageResolved { directory: Seq<char>, name: Seq<char> },
    InputsLoaded { text: Seq<char> },
    InputsBound,
    ProofConstructed,
    ProofSerialized { bytes: Seq<u8> },
    ProofWritten,
    StageFailed(CLIErrorView),
}

/// The mathematical content of an [`Action`].
pub enum ActionView {
    RunSetup,
    ResolvePackage,
    LoadInputs { path: Seq<char> },
    ParseInputs { path: Seq<char>, text: Seq<char> },
    ConstructProof,
    SerializeProof,
    WriteProof { path: Seq<char>, bytes: Seq<u8> },
    Finish,
    Abort,
}

impl View for Stage {
    type V = StageView;

    open spec fn view(&self) -> StageView {
        match self {
            Stage::Start => StageView::Start,
            Stage::AcquireArtifacts => StageView::AcquireArtifacts,
            Stage::ResolvePackage => StageView::ResolvePackage,
            Stage::LoadInputs(package) => StageView::LoadInputs(package@),
            Stage::ParseInputs(package) => StageView::ParseInputs(package@),
            Stage::ConstructProof(package) => StageView::ConstructProof(package@),
            Stage::SerializeProof(package) => StageView::SerializeProof(package@),
            Stage::WriteProof(package) => StageView::WriteProof(package@),
            Stage::Done => StageView::Done,
            Stage::Failed(error) => StageView::Failed(error@),
        }
    }
}

impl View for Event {
    type V = EventView;

    open spec fn view(&self) -> EventView {
        match self {
            Event::Invoked => EventView::Invoked,
            Event::SetupCompleted => EventView::SetupCompleted,
            Event::PackageResolved { directory, name } => EventView::PackageResolved {
                directory: directory@,
                name: name@,
            },
            Event::InputsLoaded { text } => EventView::InputsLoaded { text: text@ },
            Event::InputsBound => EventView::InputsBound,
            Event::ProofConstructed => EventView::ProofConstructed,
            Event::ProofSerialized { bytes } => EventView::ProofSerialized { bytes: bytes@ },
            Event::ProofWritten => EventView::ProofWritten,
            Event::StageFailed(error) => EventView::StageFailed(error@),
        }
    }
}

impl View for Action {
    type V = ActionView;

    open spec fn view(&self) -> ActionView {
        match self {
            Action::RunSetup => ActionView::RunSetup,
            Action::ResolvePackage => ActionView::ResolvePackage,
            Action::LoadInputs { path } => ActionView::LoadInputs { path: path@ },
            Action::ParseInputs { path, text } => ActionView::ParseInputs {
                path: path@,
                text: text@,
            },
            Action::ConstructProof => ActionView::ConstructProof,
            Action::SerializeProof => ActionView::SerializeProof,
            Action::WriteProof { path, bytes } => ActionView::WriteProof {
                path: path@,
                bytes: bytes@,
            },
            Action::Finish => ActionView::Finish,
            Action::Abort => ActionView::Abort,
        }
    }
}

impl StageView {
    /// The phase this step belongs to.
    pub open spec fn phase(self) -> Phase {
        match self {
            StageView::Start => Phase::Start,
            StageView::AcquireArtifacts => Phase::AcquireArtifacts,
            StageView::ResolvePackage => Phase::BindInputs,
            StageView::LoadInputs(_) => Phase::BindInputs,
            StageView::ParseInputs(_) => Phase::BindInputs,
            StageView::ConstructProof(_) => Phase::ConstructProof,
            StageView::SerializeProof(_) => Phase::PersistArtifact,
            StageView::WriteProof(_) => Phase::PersistArtifact,
            StageView::Done => Phase::Done,
            StageView::Failed(_) => Phase::Failed,
        }
    }

    /// Whether the step a run is waiting for here can fail in this way.
    ///
    /// The setup fails as a whole. Resolving the package fails on the working
    /// directory or on the manifest. Reading and writing files fail as I/O,
    /// and so does serializing. Parsing fails on the syntax of the inputs or
    /// on their types. The prover fails as such. A run that has not begun, or
    /// has ended, cannot fail.
    pub open spec fn admits(self, kind: ErrorKind) -> bool {
        match self {
            StageView::Start => false,
            StageView::AcquireArtifacts => kind == ErrorKind::SetupPropagated,
            StageView::ResolvePackage => kind == ErrorKind::Manifest || kind == ErrorKind::IO,
            StageView::LoadInputs(_) => kind == ErrorKind::IO,
            StageView::ParseInputs(_) => kind == ErrorKind::InputParse || kind
                == ErrorKind::TypeMismatch,
            StageView::ConstructProof(_) => kind == ErrorKind::ProofConstruction,
            StageView::SerializeProof(_) => kind == ErrorKind::IO,
            StageView::WriteProof(_) => kind == ErrorKind::IO,
            StageView::Done => false,
            StageView::Failed(_) => false,
        }
    }

    /// What the run has come to: success when it is done, its failure when
    /// it failed, nothing while it is under way.
    pub open spec fn outcome(self) -> Option<Result<(), CLIErrorView>> {
        match self {
            StageView::Done => Some(Ok(())),
            StageView::Failed(error) => Some(Err(error)),
            _ => None,
        }
    }

    /// The transition on `event`: the stage that follows and the action to
    /// perform, or `None` where `event` is not an outcome of the step that the
    /// run is waiting for.
    ///
    /// A success leads to the next step. A failure that the step admits ends
    /// the run with that very failure.
    pub open spec fn advance(self, event: EventView) -> Option<(StageView, ActionView)> {
        match (self, event) {
            (StageView::Start, EventView::Invoked) => Some(
                (StageView::AcquireArtifacts, ActionView::RunSetup),
            ),
            (StageView::AcquireArtifacts, EventView::SetupCompleted) => Some(
                (StageView::ResolvePackage, ActionView::ResolvePackage),
            ),
            (StageView::ResolvePackage, EventView::PackageResolved { directory, name }) => {
                let package = PackageView { directory, name };
                Some(
                    (
                        StageView::LoadInputs(package),
                        ActionView::LoadInputs { path: package.inputs_file_path() },
                    ),
                )
            },
            (StageView::LoadInputs(package), EventView::InputsLoaded { text }) => Some(
                (
                    StageView::ParseInputs(package),
                    ActionView::ParseInputs { path: package.inputs_file_path(), text },
                ),
            ),
            (StageView::ParseInputs(package), EventView::InputsBound) => Some(
                (StageView::ConstructProof(package), ActionView::ConstructProof),
            ),
            (StageView::ConstructProof(package), EventView::ProofConstructed) => Some(
                (StageView::SerializeProof(package), ActionView::SerializeProof),
            ),
            (StageView::SerializeProof(package), EventView::ProofSerialized { bytes }) => Some(
                (
                    StageView::WriteProof(package),
                    ActionView::WriteProof { path: package.proof_file_path(), bytes },
                ),
            ),
            (StageView::WriteProof(_), EventView::ProofWritten) => Some(
                (StageView::Done, ActionView::Finish),
            ),
            (stage, EventView::StageFailed(error)) => if stage.admits(error.kind) {
                Some((StageView::Failed(error), ActionView::Abort))
            } else {
                None
            },
            _ => None,
        }
    }

    /// The run from this stage on the outcomes `events`, taken in order: the
    /// stage it ends in and the actions it asks for, one for each outcome it
    /// takes. An event that is no outcome of the step waited for ends the run:
    /// that event and those behind it are left unread.
    pub open spec fn run(self, events: Seq<EventView>) -> (StageView, Seq<ActionView>)
        decreases events.len(),
    {
        if events.len() == 0 {
            (self, Seq::empty())
        } else {
            match self.advance(events.first()) {
                Some((stage, action)) => {
                    let (last, rest) = stage.run(events.drop_first());
                    (last, seq![action] + rest)
                },
                None => (self, Seq::empty()),
            }
        }
    }
}

/// The mathematical contents of the items of `items`, in their order.
pub open spec fn views<T: View>(items: Seq<T>) -> Seq<T::V> {
    items.map_values(|item: T| item@)
}

impl Stage {
    /// The phase this step belongs to.
    pub fn phase(&self) -> (phase: Phase)
        ensures
            phase == self@.phase(),
    {
        match self {
            Stage::Start => Phase::Start,
            Stage::AcquireArtifacts => Phase::AcquireArtifacts,
            Stage::ResolvePackage => Phase::BindInputs,
            Stage::LoadInputs(_) => Phase::BindInputs,
            Stage::ParseInputs(_) => Phase::BindInputs,
            Stage::ConstructProof(_) => Phase::ConstructProof,
            Stage::SerializeProof(_) => Phase::PersistArtifact,
            Stage::WriteProof(_) => Phase::PersistArtifact,
            Stage::Done => Phase::Done,
            Stage::Failed(_) => Phase::Failed,
        }
    }

    /// Whether the step this run is waiting for can fail in this way.
    pub fn admits(&self, kind: ErrorKind) -> (admitted: bool)
        ensures
            admitted == self@.admits(kind),
    {
        match self {
            Stage::Start => false,
            Stage::AcquireArtifacts => kind == ErrorKind::SetupPropagated,
            Stage::ResolvePackage => kind == ErrorKind::Manifest || kind == ErrorKind::IO,
            Stage::LoadInputs(_) => kind == ErrorKind::IO,
            Stage::ParseInputs(_) => kind == ErrorKind::InputParse || kind
                == ErrorKind::TypeMismatch,
            Stage::ConstructProof(_) => kind == ErrorKind::ProofConstruction,
            Stage::SerializeProof(_) => kind == ErrorKind::IO,
            Stage::WriteProof(_) => kind == ErrorKind::IO,
            Stage::Done => false,
            Stage::Failed(_) => false,
        }
    }

    /// What the run has come to: `Ok` when it is done, its failure when it
    /// failed, `None` while it is under way.
    pub fn outcome(self) -> (outcome: Option<Result<(), CLIError>>)
        ensures
            match self@.outcome() {
                Some(Ok(_)) => outcome == Some(Ok::<(), CLIError>(())),
                Some(Err(error)) => outcome.is_some() && outcome.unwrap().is_err()
                    && outcome.unwrap().unwrap_err()@ == error,
                None => outcome.is_none(),
            },
    {
        match self {
            Stage::Done => Some(Ok(())),
            Stage::Failed(error) => Some(Err(error)),
            _ => None,
        }
    }

    /// Takes the outcome of the step this run was waiting for, moves the run
    /// on and returns what to do next.
    ///
    /// Where `event` is no outcome of that step, nothing is asked for and the
    /// run stays where it was.
    pub fn advance(&mut self, event: Event) -> (action: Option<Action>)
        ensures
            match old(self)@.advance(event@) {
                Some((stage, todo)) => final(self)@ == stage && action.is_some()
                    && action.unwrap()@ == todo,
                None => *final(self) == *old(self) && action.is_none(),
            },
    {
        let mut current = Stage::Start;
        core::mem::swap(self, &mut current);
        let (next, action) = match (current, event) {
            (Stage::Start, Event::Invoked) => (Stage::AcquireArtifacts, Some(Action::RunSetup)),
            (Stage::AcquireArtifacts, Event::SetupCompleted) => (
                Stage::ResolvePackage,
                Some(Action::ResolvePackage),
            ),
            (Stage::ResolvePackage, Event::PackageResolved { directory, name }) => {
                let package = Package { directory, name };
                let path = package.inputs_file_path();
                (Stage::LoadInputs(package), Some(Action::LoadInputs { path }))
            },
            (Stage::LoadInputs(package), Event::InputsLoaded { text }) => {
                let path = package.inputs_file_path();
                (Stage::ParseInputs(package), Some(Action::ParseInputs { path, text }))
            },
            (Stage::ParseInputs(package), Event::InputsBound) => (
                Stage::ConstructProof(package),
                Some(Action::ConstructProof),
            ),
            (Stage::ConstructProof(package), Event::ProofConstructed) => (
                Stage::SerializeProof(package),
                Some(Action::SerializeProof),
            ),
            (Stage::SerializeProof(package), Event::ProofSerialized { bytes }) => {
                let path = package.proof_file_path();
                (Stage::WriteProof(package), Some(Action::WriteProof { path, bytes }))
            },
            (Stage::WriteProof(_), Event::ProofWritten) => (Stage::Done, Some(Action::Finish)),
            (stage, Event::StageFailed(error)) => {
                if stage.admits(error.kind()) {
                    (Stage::Failed(error), Some(Action::Abort))
                } else {
                    (stage, None)
                }
            },
            (stage, _) => (stage, None),
        };
        *self = next;
        action
    }

    /// Replays a run from this stage on the outcomes `events`, taken in order,
    /// and returns the stage it ends in with the actions it asked for.
    ///
    /// The replay ends when the events are used up, or at the first one that
    /// is no outcome of the step waited for.
    pub fn run(self, events: Vec<Event>) -> (outcome: (Stage, Vec<Action>))
        ensures
            outcome.0@ == self@.run(views(events@)).0,
            views(outcome.1@) == self@.run(views(events@)).1,
    {
        let ghost whole = self@.run(views(events@));
        let mut stage = self;
        let mut pending = events;
        let mut actions: Vec<Action> = Vec::new();
        assert(views(actions@) + stage@.run(views(pending@)).1 =~= whole.1);
        while pending.len() > 0
            invariant
                whole == self@.run(views(events@)),
                whole.0 == stage@.run(views(pending@)).0,
                whole.1 == views(actions@) + stage@.run(views(pending@)).1,
            decreases pending.len(),
        {
            let ghost before = pending@;
            let ghost asked = actions@;
            let ghost prior = stage@;
            let event = pending.remove(0);
            assert(views(before).len() > 0);
            assert(views(before).first() == event@);
            assert(views(before).drop_first() =~= views(pending@));
            match stage.advance(event) {
                Some(action) => {
                    actions.push(action);
                    assert(views(actions@) =~= views(asked).push(action@));
                    assert(views(asked) + (seq![action@] + stage@.run(views(pending@)).1)
                        =~= views(actions@) + stage@.run(views(pending@)).1);
                },
                None => {
                    assert(prior.run(views(before)) == (prior, Seq::<ActionView>::empty()));
                    assert(views(actions@) + Seq::<ActionView>::empty() =~= views(actions@));
                    return (stage, actions);
                },
            }
        }
        assert(views(actions@) + Seq::<ActionView>::empty() =~= views(actions@));
        (stage, actions)
    }
}

} // verus!
