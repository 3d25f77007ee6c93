//! What holds of every proving run.
//!
//! The laws speak of [`StageView::run`], the run that [`crate::pipeline::Stage::run`]
//! replays and that a caller of [`crate::pipeline::Stage::advance`] walks step by step:
//! `run(events).0` is the stage the run ends in, `run(events).1` the actions
//! it asks for, and the run takes its event `k` exactly when it asks for more
//! than `k` actions.

use vstd::prelude::*;
use crate::errors::{CLIErrorView, ErrorKind};
use crate::package::{spec_join, PackageView, OUTPUTS_DIRECTORY_NAME};
use crate::pipeline::{ActionView, EventView, Phase, StageView};

verus! {

/// How many steps a run has behind it when it stands at `stage`. A run that
/// has ended, either way, has all eight behind it.
spec fn ordinal(stage: StageView) -> int {
    match stage {
        StageView::Start => 0,
        StageView::AcquireArtifacts => 1,
        StageView::ResolvePackage => 2,
        StageView::LoadInputs(_) => 3,
        StageView::ParseInputs(_) => 4,
        StageView::ConstructProof(_) => 5,
        StageView::SerializeProof(_) => 6,
        StageView::WriteProof(_) => 7,
        StageView::Done => 8,
        StageView::Failed(_) => 8,
    }
}

/// The step whose success `event` reports; none for a failure.
spec fn event_ordinal(event: EventView) -> int {
    match event {
        EventView::Invoked => 0,
        EventView::SetupCompleted => 1,
        EventView::PackageResolved { .. } => 2,
        EventView::InputsLoaded { .. } => 3,
        EventView::InputsBound => 4,
        EventView::ProofConstructed => 5,
        EventView::ProofSerialized { .. } => 6,
        EventView::ProofWritten => 7,
        EventView::StageFailed(_) => -1,
    }
}

/// The failures that the step with `step` steps behind it admits.
spec fn admits_at(step: int, kind: ErrorKind) -> bool {
    if step == 1 {
        kind == ErrorKind::SetupPropagated
    } else if step == 2 {
        kind == ErrorKind::Manifest || kind == ErrorKind::IO
    } else if step == 4 {
        kind == ErrorKind::InputParse || kind == ErrorKind::TypeMismatch
    } else if step == 5 {
        kind == ErrorKind::ProofConstruction
    } else {
        (step == 3 || step == 6 || step == 7) && kind == ErrorKind::IO
    }
}

/// What a run of the package `package` asks for when the step with `step`
/// steps behind it succeeds with `event`.
spec fn due(step: int, package: PackageView, event: EventView) -> ActionView {
    if step == 0 {
        ActionView::RunSetup
    } else if step == 1 {
        ActionView::ResolvePackage
    } else if step == 2 {
        ActionView::LoadInputs { path: package.inputs_file_path() }
    } else if step == 3 {
        ActionView::ParseInputs { path: package.inputs_file_path(), text: event->text }
    } else if step == 4 {
        ActionView::ConstructProof
    } else if step == 5 {
        ActionView::SerializeProof
    } else if step == 6 {
        ActionView::WriteProof { path: package.proof_file_path(), bytes: event->bytes }
    } else {
        ActionView::Finish
    }
}

/// The package that `event` resolves.
pub open spec fn resolved(event: EventView) -> PackageView {
    PackageView { directory: event->directory, name: event->name }
}

/// The package of a run from `stage` on `events`: the one the stage holds,
/// or else the one that the run is yet to resolve, if `events` reaches that far.
spec fn carried(stage: StageView, events: Seq<EventView>) -> PackageView {
    match stage {
        StageView::LoadInputs(package) => package,
        StageView::ParseInputs(package) => package,
        StageView::ConstructProof(package) => package,
        StageView::SerializeProof(package) => package,
        StageView::WriteProof(package) => package,
        _ => if 0 <= 2 - ordinal(stage) < events.len() {
            resolved(events[2 - ordinal(stage)])
        } else {
            PackageView { directory: Seq::empty(), name: Seq::empty() }
        },
    }
}

/// Event and action of one step of a run agree: a failure is admitted, is
/// answered by `Abort`, and is the last thing the run takes; a success is the
/// one of this step, answered by what is due.
spec fn step_fits(
    step: int,
    package: PackageView,
    event: EventView,
    action: ActionView,
    is_last: bool,
    last: StageView,
) -> bool {
    match event {
        EventView::StageFailed(error) => {
            &&& action == ActionView::Abort
            &&& is_last
            &&& last == StageView::Failed(error)
            &&& admits_at(step, error.kind)
        },
        _ => event_ordinal(event) == step && action == due(step, package, event),
    }
}

/// The whole of a run from `stage` on `events` agrees with the order of the steps.
spec fn run_fits(stage: StageView, events: Seq<EventView>) -> bool {
    let (last, asked) = stage.run(events);
    let taken = asked.len() as int;
    let package = carried(stage, events);
    &&& taken <= events.len()
    &&& ordinal(stage) + taken <= 8
    &&& forall|i: int|
        0 <= i < taken ==> step_fits(
            ordinal(stage) + i,
            package,
            events[i],
            #[trigger] asked[i],
            i == taken - 1,
            last,
        )
    &&& taken == 0 ==> last == stage
    &&& taken > 0 && !(events[taken - 1] is StageFailed) ==> {
        &&& ordinal(last) == ordinal(stage) + taken
        &&& !(last is Failed)
    }
}

/// Every run agrees with the order of the steps, from whatever stage it
/// starts: by induction over the events.
proof fn lemma_run_fits(stage: StageView, events: Seq<EventView>)
    ensures
        run_fits(stage, events),
    decreases events.len(),
{
    if events.len() > 0 {
        match stage.advance(events.first()) {
            Some((next, action)) => {
                let rest = events.drop_first();
                lemma_run_fits(next, rest);
                let (last, asked) = stage.run(events);
                let later = next.run(rest).1;
                let taken = asked.len() as int;
                assert(asked == seq![action] + later);
                assert forall|i: int| 0 <= i < taken implies step_fits(
                    ordinal(stage) + i,
                    carried(stage, events),
                    events[i],
                    #[trigger] asked[i],
                    i == taken - 1,
                    last,
                ) by {
                    if i > 0 {
                        assert(asked[i] == later[i - 1]);
                        assert(events[i] == rest[i - 1]);
                        if ordinal(stage) < 2 && 2 - ordinal(stage) < events.len() {
                            assert(events[2 - ordinal(stage)] == rest[2 - ordinal(next)]);
                        }
                        assert(carried(next, rest) == carried(stage, events));
                    }
                }
            },
            None => {},
        }
    }
}

/// A run that has ended stays ended: from `Done` or `Failed` no event is
/// taken and nothing more is asked for. There is no retry and no resuming.
pub proof fn law_ended_run_takes_nothing(stage: StageView, events: Seq<EventView>)
    requires
        stage is Done || stage is Failed,
    ensures
        stage.run(events) == (stage, Seq::<ActionView>::empty()),
{
}

/// The first failure ends the run and is kept as it was reported: whatever
/// events follow a failure that the stage admits, the run ends in `Failed`
/// with that failure, having asked only to abort.
pub proof fn law_first_failure_is_kept(
    stage: StageView,
    error: CLIErrorView,
    later: Seq<EventView>,
)
    requires
        stage.admits(error.kind),
    ensures
        stage.run(seq![EventView::StageFailed(error)] + later) == (
            StageView::Failed(error),
            seq![ActionView::Abort],
        ),
{
    let events = seq![EventView::StageFailed(error)] + later;
    assert(events.first() == EventView::StageFailed(error));
    assert(events.drop_first() =~= later);
    law_ended_run_takes_nothing(StageView::Failed(error), later);
    assert(seq![ActionView::Abort] + Seq::<ActionView>::empty() =~= seq![ActionView::Abort]);
}

/// The outcomes of a run in which every step succeeds, for the package
/// `package`, an inputs file holding `text` and a proof that serializes to
/// `bytes`.
pub open spec fn complete(package: PackageView, text: Seq<char>, bytes: Seq<u8>) -> Seq<
    EventView,
> {
    seq![
        EventView::Invoked,
        EventView::SetupCompleted,
        EventView::PackageResolved { directory: package.directory, name: package.name },
        EventView::InputsLoaded { text },
        EventView::InputsBound,
        EventView::ProofConstructed,
        EventView::ProofSerialized { bytes },
        EventView::ProofWritten,
    ]
}

/// A run in which every step succeeds ends in `Done`, having asked for each
/// step once and in order: the setup, the package, the inputs file at the
/// package's inputs path, the parsing of its text, the proof, its
/// serialization, and one write, of exactly the serialized bytes, to the
/// package's proof path.
pub proof fn law_complete_run_writes_the_proof(
    package: PackageView,
    text: Seq<char>,
    bytes: Seq<u8>,
)
    ensures
        StageView::Start.run(complete(package, text, bytes)) == (
            StageView::Done,
            seq![
                ActionView::RunSetup,
                ActionView::ResolvePackage,
                ActionView::LoadInputs { path: package.inputs_file_path() },
                ActionView::ParseInputs { path: package.inputs_file_path(), text },
                ActionView::ConstructProof,
                ActionView::SerializeProof,
                ActionView::WriteProof { path: package.proof_file_path(), bytes },
                ActionView::Finish,
            ],
        ),
{
    reveal_with_fuel(StageView::run, 9);
    let events = complete(package, text, bytes);
    let asked = StageView::Start.run(events).1;
    assert(asked =~= seq![
        ActionView::RunSetup,
        ActionView::ResolvePackage,
        ActionView::LoadInputs { path: package.inputs_file_path() },
        ActionView::ParseInputs { path: package.inputs_file_path(), text },
        ActionView::ConstructProof,
        ActionView::SerializeProof,
        ActionView::WriteProof { path: package.proof_file_path(), bytes },
        ActionView::Finish,
    ]);
}

/// The prover only ever sees a program whose inputs are bound: wherever a run
/// from `Start` asks for the proof, the event it has just taken reports that
/// the inputs were bound, and the step before that parsed the loaded text.
pub proof fn law_prover_runs_on_bound_inputs(events: Seq<EventView>, i: int)
    requires
        0 <= i < StageView::Start.run(events).1.len(),
        StageView::Start.run(events).1[i] == ActionView::ConstructProof,
    ensures
        1 <= i < events.len(),
        events[i] == EventView::InputsBound,
        events[i - 1] is InputsLoaded,
        StageView::Start.run(events).1[i - 1] is ParseInputs,
{
    lemma_run_fits(StageView::Start, events);
    let asked = StageView::Start.run(events).1;
    assert(asked[i] == ActionView::ConstructProof);
    assert(i == 4);
    assert(asked[3] is ParseInputs);
}

/// The manifest is resolved before any inputs file is read: wherever a run
/// from `Start` asks for the inputs file, the event it has just taken is the
/// resolved package, and the path it asks for is that package's inputs path.
pub proof fn law_inputs_follow_the_manifest(events: Seq<EventView>, i: int)
    requires
        0 <= i < StageView::Start.run(events).1.len(),
        StageView::Start.run(events).1[i] is LoadInputs,
    ensures
        i < events.len(),
        events[i] is PackageResolved,
        StageView::Start.run(events).1[i] == (ActionView::LoadInputs {
            path: resolved(events[i]).inputs_file_path(),
        }),
{
    lemma_run_fits(StageView::Start, events);
    let asked = StageView::Start.run(events).1;
    assert(asked[i] is LoadInputs);
    assert(i == 2);
}

/// A missing or malformed manifest ends the run before any inputs file is
/// read: where a run from `Start` takes an event that reports a
/// `ManifestError`, it ends in `Failed` with that error, and none of its
/// actions loads or parses inputs, or writes a proof.
pub proof fn law_missing_manifest_reads_no_inputs(
    events: Seq<EventView>,
    k: int,
    error: CLIErrorView,
)
    requires
        0 <= k < events.len(),
        k < StageView::Start.run(events).1.len(),
        events[k] == EventView::StageFailed(error),
        error.kind == ErrorKind::Manifest,
    ensures
        StageView::Start.run(events).0 == StageView::Failed(error),
        forall|i: int|
            0 <= i < StageView::Start.run(events).1.len() ==> {
                let action = #[trigger] StageView::Start.run(events).1[i];
                !(action is LoadInputs) && !(action is ParseInputs) && !(action is WriteProof)
            },
{
    lemma_run_fits(StageView::Start, events);
    let asked = StageView::Start.run(events).1;
    assert(asked[k] == ActionView::Abort);
    assert(k == 2);
    assert forall|i: int| 0 <= i < asked.len() implies {
        let action = #[trigger] asked[i];
        !(action is LoadInputs) && !(action is ParseInputs) && !(action is WriteProof)
    } by {
        assert(asked[i] == asked[i]);
    }
}

/// Inputs that do not parse end the run, and no proof file is written: where
/// a run from `Start` takes an event that reports an `InputParseError`, that
/// event answers the parsing of the inputs, the run ends in `Failed` with
/// that error, and none of its actions asks for the proof or writes one.
pub proof fn law_malformed_inputs_write_nothing(
    events: Seq<EventView>,
    k: int,
    error: CLIErrorView,
)
    requires
        0 <= k < events.len(),
        k < StageView::Start.run(events).1.len(),
        events[k] == EventView::StageFailed(error),
        error.kind == ErrorKind::InputParse,
    ensures
        k >= 1,
        StageView::Start.run(events).1[k - 1] is ParseInputs,
        StageView::Start.run(events).0 == StageView::Failed(error),
        forall|i: int|
            0 <= i < StageView::Start.run(events).1.len() ==> {
                let action = #[trigger] StageView::Start.run(events).1[i];
                !(action is ConstructProof) && !(action is WriteProof)
            },
{
    lemma_run_fits(StageView::Start, events);
    let asked = StageView::Start.run(events).1;
    assert(asked[k] == ActionView::Abort);
    assert(k == 4);
    assert(asked[3] is ParseInputs);
}

/// Inputs of the wrong type end the run, and no proof file is written: where
/// a run from `Start` takes an event that reports a `TypeMismatchError`, that
/// event answers the parsing of the inputs, the run ends in `Failed` with
/// that error, and none of its actions asks for the proof or writes one.
pub proof fn law_mistyped_inputs_write_nothing(
    events: Seq<EventView>,
    k: int,
    error: CLIErrorView,
)
    requires
        0 <= k < events.len(),
        k < StageView::Start.run(events).1.len(),
        events[k] == EventView::StageFailed(error),
        error.kind == ErrorKind::TypeMismatch,
    ensures
        k >= 1,
        StageView::Start.run(events).1[k - 1] is ParseInputs,
        StageView::Start.run(events).0 == StageView::Failed(error),
        forall|i: int|
            0 <= i < StageView::Start.run(events).1.len() ==> {
                let action = #[trigger] StageView::Start.run(events).1[i];
                !(action is ConstructProof) && !(action is WriteProof)
            },
{
    lemma_run_fits(StageView::Start, events);
    let asked = StageView::Start.run(events).1;
    assert(asked[k] == ActionView::Abort);
    assert(k == 4);
    assert(asked[3] is ParseInputs);
}

/// A proof file that cannot be written fails the run with an I/O error, after
/// the proof was constructed, and the run does not finish: where a run from
/// `Start` has asked for the write and takes a failure in answer, the failure
/// is an `IOError`, the prover had succeeded two events earlier, the run ends
/// in `Failed` with that error, and none of its actions is `Finish`.
pub proof fn law_unwritable_proof_file_fails_the_run(
    events: Seq<EventView>,
    k: int,
    error: CLIErrorView,
)
    requires
        1 <= k < events.len(),
        k < StageView::Start.run(events).1.len(),
        StageView::Start.run(events).1[k - 1] is WriteProof,
        events[k] == EventView::StageFailed(error),
    ensures
        error.kind == ErrorKind::IO,
        k >= 2,
        events[k - 2] == EventView::ProofConstructed,
        StageView::Start.run(events).0 == StageView::Failed(error),
        forall|i: int|
            0 <= i < StageView::Start.run(events).1.len() ==> !(
            #[trigger] StageView::Start.run(events).1[i] is Finish),
{
    lemma_run_fits(StageView::Start, events);
    let asked = StageView::Start.run(events).1;
    assert(asked[k - 1] is WriteProof);
    assert(k == 7);
    assert(asked[k] == ActionView::Abort);
    assert(asked[5] == ActionView::SerializeProof);
}

/// A run writes at most one proof file, and a run that ends in `Done` writes
/// exactly one, named from its package: all writes of a run from `Start` are
/// one and the same action, which puts the bytes that the serializer gave at
/// the proof path of the package that the run resolved; a run that ends in
/// `Done` has asked for it.
pub proof fn law_one_proof_file_per_run(events: Seq<EventView>)
    ensures
        forall|i: int|
            0 <= i < StageView::Start.run(events).1.len() && (
            #[trigger] StageView::Start.run(events).1[i] is WriteProof) ==> {
                &&& i == 6
                &&& i < events.len()
                &&& events[2] is PackageResolved
                &&& events[6] is ProofSerialized
                &&& StageView::Start.run(events).1[i] == (ActionView::WriteProof {
                    path: resolved(events[2]).proof_file_path(),
                    bytes: events[6]->bytes,
                })
            },
        StageView::Start.run(events).0 is Done ==> {
            &&& StageView::Start.run(events).1.len() == 8
            &&& StageView::Start.run(events).1[6] is WriteProof
        },
{
    lemma_run_fits(StageView::Start, events);
    let (last, asked) = StageView::Start.run(events);
    assert forall|i: int| 0 <= i < asked.len() && (#[trigger] asked[i] is WriteProof) implies {
        &&& i == 6
        &&& i < events.len()
        &&& events[2] is PackageResolved
        &&& events[6] is ProofSerialized
        &&& asked[i] == (ActionView::WriteProof {
            path: resolved(events[2]).proof_file_path(),
            bytes: events[6]->bytes,
        })
    } by {
        assert(i == 6);
        assert(asked[2] is LoadInputs);
    }
    if last is Done {
        let taken = asked.len() as int;
        assert(taken > 0);
        assert(step_fits(
            taken - 1,
            carried(StageView::Start, events),
            events[taken - 1],
            asked[taken - 1],
            true,
            last,
        ));
        assert(!(events[taken - 1] is StageFailed));
        assert(taken == 8);
        assert(asked[6] is WriteProof);
    }
}

/// The run does not look into the proof: two runs in which every step
/// succeeds, and which differ only in the bytes that the proof serialized to,
/// both end in `Done`, ask for the same actions, and each writes its own
/// bytes to the one proof path.
pub proof fn law_any_proof_is_written(
    package: PackageView,
    text: Seq<char>,
    first: Seq<u8>,
    second: Seq<u8>,
)
    ensures
        StageView::Start.run(complete(package, text, first)).0 == StageView::Done,
        StageView::Start.run(complete(package, text, second)).0 == StageView::Done,
        StageView::Start.run(complete(package, text, first)).1.len() == 8,
        StageView::Start.run(complete(package, text, second)).1.len() == 8,
        forall|i: int|
            0 <= i < 8 && i != 6 ==> StageView::Start.run(complete(package, text, first)).1[i]
                == StageView::Start.run(complete(package, text, second)).1[i],
        StageView::Start.run(complete(package, text, first)).1[6] == (ActionView::WriteProof {
            path: package.proof_file_path(),
            bytes: first,
        }),
        StageView::Start.run(complete(package, text, second)).1[6] == (ActionView::WriteProof {
            path: package.proof_file_path(),
            bytes: second,
        }),
{
    law_complete_run_writes_the_proof(package, text, first);
    law_complete_run_writes_the_proof(package, text, second);
}

/// The phases follow each other in their one order: a step that succeeds
/// leaves the run in its phase or takes it to the next one, and a step that
/// fails takes it to `Failed`. No phase is skipped or entered twice.
pub proof fn law_phases_follow_in_order(stage: StageView, event: EventView)
    requires
        stage.advance(event).is_some(),
    ensures
        ({
            let next = stage.advance(event).unwrap().0;
            if event is StageFailed {
                next.phase() == Phase::Failed
            } else {
                next.phase() == stage.phase() || Some(next.phase()) == stage.phase().next()
            }
        }),
{
}

/// The proof file is named from the package: its path ends in the package
/// name followed by `.proof`, and in one directory two packages have the same
/// proof path only if they have the same name.
pub proof fn law_proof_file_is_named_from_the_package(first: PackageView, second: PackageView)
    requires
        first.directory == second.directory,
    ensures
        first.proof_file_path().len() >= first.proof_file_name().len(),
        first.proof_file_path().subrange(
            first.proof_file_path().len() - first.proof_file_name().len(),
            first.proof_file_path().len() as int,
        ) == first.proof_file_name(),
        first.proof_file_path() == second.proof_file_path() ==> first.name == second.name,
{
    let outputs = spec_join(first.directory, OUTPUTS_DIRECTORY_NAME@);
    let lead = if outputs.len() == 0 || outputs.last() == '/' {
        outputs
    } else {
        outputs + seq!['/']
    };
    let one = first.proof_file_name();
    let other = second.proof_file_name();
    assert(first.proof_file_path() =~= lead + one);
    assert(second.proof_file_path() =~= lead + other);
    assert((lead + one).subrange(lead.len() as int, (lead + one).len() as int) =~= one);
    assert((lead + other).subrange(lead.len() as int, (lead + other).len() as int) =~= other);
    if first.proof_file_path() == second.proof_file_path() {
        assert(one == other);
        assert(first.name =~= one.subrange(0, first.name.len() as int));
        assert(second.name =~= other.subrange(0, second.name.len() as int));
        assert(first.name.len() == second.name.len());
    }
}

} // verus!
