//! The build orchestrator: the order of the build steps and the rollback
//! contract, as a state machine that the caller drives.
//!
//! The caller performs each action that the machine asks for and hands back
//! its outcome as the next event, until the machine reaches a terminal phase.
use vstd::prelude::*;
use crate::error::BuildError;

verus! {

/// A build step that mutates the world.
#[derive(Clone, Copy, Debug, PartialEq, Eq, Structural)]
pub enum Step {
    /// Allocate the staging volume.
    CreateVolume,
    /// Look up the volume's mount point and make its staging root.
    PrepareRoot,
    ExtractArchive,
    NormalizeSkeleton,
    InstallTools,
    SnapshotAndCompress,
    WriteManifest,
}

/// How far the build has come. Each non-terminal phase has one action in
/// flight: the step after the last one completed, or the volume's
/// destruction in `ManifestWritten` and `RollingBack`.
#[derive(Clone, Copy, Debug, PartialEq, Eq, Structural)]
pub enum Phase {
    Start,
    Allocated,
    VolumeCreated,
    Staged,
    Customized,
    ToolsInstalled,
    Archived,
    ManifestWritten,
    RollingBack,
    Destroyed,
    Failed,
    Aborted,
}

/// The outcome of the action in flight.
#[derive(Debug, PartialEq, Eq)]
pub enum Event {
    Succeeded,
    /// A build step failed.
    Failed(BuildError),
    /// Destroying the volume failed, with the volume manager's diagnostic.
    DestroyFailed(String),
}

/// What the caller is to do next.
#[derive(Debug, PartialEq, Eq)]
pub enum Action {
    Run(Step),
    DestroyVolume,
    /// The build succeeded; the volume is gone.
    Finish,
    /// The build failed with this error; the volume, if any was created, is
    /// gone.
    Report(BuildError),
    /// The volume could not be destroyed: it is orphaned and needs manual
    /// cleanup. The process must end abnormally.
    Abort(String),
}

pub struct Orchestrator {
    pub phase: Phase,
    /// The error that triggered the rollback in progress.
    pub error: Option<BuildError>,
    /// Whether the staging volume was allocated (whether or not its
    /// preparation then succeeded).
    pub created: bool,
}

pub open spec fn is_terminal(p: Phase) -> bool {
    p == Phase::Destroyed || p == Phase::Failed || p == Phase::Aborted
}

pub open spec fn destroy_in_flight(p: Phase) -> bool {
    p == Phase::ManifestWritten || p == Phase::RollingBack
}

/// The step in flight in a phase that runs one, and the phase it leads to.
pub open spec fn step_of(p: Phase) -> (Step, Phase) {
    match p {
        Phase::Start => (Step::CreateVolume, Phase::Allocated),
        Phase::Allocated => (Step::PrepareRoot, Phase::VolumeCreated),
        Phase::VolumeCreated => (Step::ExtractArchive, Phase::Staged),
        Phase::Staged => (Step::NormalizeSkeleton, Phase::Customized),
        Phase::Customized => (Step::InstallTools, Phase::ToolsInstalled),
        Phase::ToolsInstalled => (Step::SnapshotAndCompress, Phase::Archived),
        _ => (Step::WriteManifest, Phase::ManifestWritten),
    }
}

/// Whether `ev` can be the outcome of the action in flight in phase `p`.
pub open spec fn valid_event(p: Phase, ev: Event) -> bool {
    &&& !is_terminal(p)
    &&& ev is Failed ==> !destroy_in_flight(p)
    &&& ev is DestroyFailed ==> destroy_in_flight(p)
}

/// One transition: the next state and the action it asks for.
pub open spec fn step_spec(o: Orchestrator, ev: Event) -> (Orchestrator, Action) {
    match ev {
        Event::Succeeded => {
            if o.phase == Phase::RollingBack {
                (
                    Orchestrator { phase: Phase::Failed, error: None, created: o.created },
                    Action::Report(o.error->Some_0),
                )
            } else if o.phase == Phase::ManifestWritten {
                (Orchestrator { phase: Phase::Destroyed, ..o }, Action::Finish)
            } else if o.phase == Phase::Archived {
                (Orchestrator { phase: Phase::ManifestWritten, ..o }, Action::DestroyVolume)
            } else {
                let next = step_of(step_of(o.phase).1).0;
                (
                    Orchestrator { phase: step_of(o.phase).1, error: o.error, created: true },
                    Action::Run(next),
                )
            }
        },
        Event::Failed(e) => {
            if o.phase == Phase::Start {
                (Orchestrator { phase: Phase::Failed, ..o }, Action::Report(e))
            } else {
                (
                    Orchestrator { phase: Phase::RollingBack, error: Some(e), created: o.created },
                    Action::DestroyVolume,
                )
            }
        },
        Event::DestroyFailed(d) => (
            Orchestrator { phase: Phase::Aborted, error: None, created: o.created },
            Action::Abort(d),
        ),
    }
}

/// The states consistent with the build's history.
pub open spec fn wf(o: Orchestrator) -> bool {
    &&& o.phase == Phase::Start ==> !o.created
    &&& (o.phase != Phase::Start && o.phase != Phase::Failed) ==> o.created
    &&& o.phase == Phase::RollingBack <==> o.error is Some
}

impl Orchestrator {
    /// A build that has not started: its first action is to create the
    /// volume.
    pub fn new() -> (r: (Orchestrator, Action))
        ensures
            r.0 == initial(),
            r.1 == Action::Run(Step::CreateVolume),
    {
        (Orchestrator { phase: Phase::Start, error: None, created: false }, Action::Run(Step::CreateVolume))
    }

    pub fn is_done(&self) -> (r: bool)
        ensures
            r == is_terminal(self.phase),
    {
        match self.phase {
            Phase::Destroyed | Phase::Failed | Phase::Aborted => true,
            _ => false,
        }
    }

    /// Takes the outcome of the action in flight; returns the next state
    /// and the action it asks for.
    pub fn next(self, ev: Event) -> (r: (Orchestrator, Action))
        requires
            wf(self),
            valid_event(self.phase, ev),
        ensures
            r == step_spec(self, ev),
            wf(r.0),
    {
        let created = self.created;
        match ev {
            Event::Succeeded => {
                match self.phase {
                    Phase::RollingBack => {
                        let e = self.error.unwrap();
                        (Orchestrator { phase: Phase::Failed, error: None, created }, Action::Report(e))
                    },
                    Phase::ManifestWritten => (
                        Orchestrator { phase: Phase::Destroyed, error: self.error, created },
                        Action::Finish,
                    ),
                    Phase::Archived => (
                        Orchestrator { phase: Phase::ManifestWritten, error: self.error, created },
                        Action::DestroyVolume,
                    ),
                    Phase::Start => (
                        Orchestrator { phase: Phase::Allocated, error: self.error, created: true },
                        Action::Run(Step::PrepareRoot),
                    ),
                    Phase::Allocated => (
                        Orchestrator { phase: Phase::VolumeCreated, error: self.error, created: true },
                        Action::Run(Step::ExtractArchive),
                    ),
                    Phase::VolumeCreated => (
                        Orchestrator { phase: Phase::Staged, error: self.error, created: true },
                        Action::Run(Step::NormalizeSkeleton),
                    ),
                    Phase::Staged => (
                        Orchestrator { phase: Phase::Customized, error: self.error, created: true },
                        Action::Run(Step::InstallTools),
                    ),
                    Phase::Customized => (
                        Orchestrator { phase: Phase::ToolsInstalled, error: self.error, created: true },
                        Action::Run(Step::SnapshotAndCompress),
                    ),
                    _ => (
                        Orchestrator { phase: Phase::Archived, error: self.error, created: true },
                        Action::Run(Step::WriteManifest),
                    ),
                }
            },
            Event::Failed(e) => {
                if self.phase == Phase::Start {
                    (Orchestrator { phase: Phase::Failed, error: self.error, created }, Action::Report(e))
                } else {
                    (Orchestrator { phase: Phase::RollingBack, error: Some(e), created }, Action::DestroyVolume)
                }
            },
            Event::DestroyFailed(d) => (
                Orchestrator { phase: Phase::Aborted, error: None, created },
                Action::Abort(d),
            ),
        }
    }
}

pub open spec fn initial() -> Orchestrator {
    Orchestrator { phase: Phase::Start, error: None, created: false }
}

/// Runs the machine on a list of events, stopping at a terminal phase or
/// at an event that cannot occur; returns the last state and the actions
/// asked for on the way.
pub open spec fn run(o: Orchestrator, evs: Seq<Event>) -> (Orchestrator, Seq<Action>)
    decreases evs.len(),
{
    if evs.len() == 0 || !valid_event(o.phase, evs[0]) {
        (o, Seq::empty())
    } else {
        let (o1, a) = step_spec(o, evs[0]);
        let (o2, acts) = run(o1, evs.drop_first());
        (o2, seq![a] + acts)
    }
}

/// How many times the actions ask for the volume to be destroyed.
pub open spec fn count_destroys(acts: Seq<Action>) -> nat
    decreases acts.len(),
{
    if acts.len() == 0 {
        0
    } else {
        (if acts[0] is DestroyVolume { 1nat } else { 0nat }) + count_destroys(acts.drop_first())
    }
}

/// Whether the destruction of the volume has been asked for by the time the
/// machine is in state `o`.
pub open spec fn destroy_issued(o: Orchestrator) -> nat {
    if destroy_in_flight(o.phase) || o.phase == Phase::Destroyed || o.phase == Phase::Aborted
        || (o.phase == Phase::Failed && o.created) {
        1
    } else {
        0
    }
}

proof fn lemma_step_wf(o: Orchestrator, ev: Event)
    requires
        wf(o),
        valid_event(o.phase, ev),
    ensures
        wf(step_spec(o, ev).0),
        destroy_issued(o) + (if step_spec(o, ev).1 is DestroyVolume { 1nat } else { 0nat })
            == destroy_issued(step_spec(o, ev).0),
{
}

proof fn lemma_run_counts(o: Orchestrator, evs: Seq<Event>)
    requires
        wf(o),
    ensures
        wf(run(o, evs).0),
        destroy_issued(o) + count_destroys(run(o, evs).1) == destroy_issued(run(o, evs).0),
    decreases evs.len(),
{
    if evs.len() == 0 || !valid_event(o.phase, evs[0]) {
    } else {
        let (o1, a) = step_spec(o, evs[0]);
        lemma_step_wf(o, evs[0]);
        lemma_run_counts(o1, evs.drop_first());
        let acts = run(o, evs).1;
        assert(acts.drop_first() =~= run(o1, evs.drop_first()).1);
    }
}

/// Whatever the outcomes of the actions, the volume is destroyed at most
/// once; and once the build has ended, exactly once if it was ever allocated
/// and never otherwise.
pub proof fn lemma_destroy_exactly_once(evs: Seq<Event>)
    ensures
        count_destroys(run(initial(), evs).1) <= 1,
        is_terminal(run(initial(), evs).0.phase) ==> count_destroys(run(initial(), evs).1) == (
        if run(initial(), evs).0.created { 1nat } else { 0nat }),
{
    lemma_run_counts(initial(), evs);
}

/// The phase after `i` successful steps, for `i` up to 6.
pub open spec fn phase_at(i: nat) -> Phase {
    if i == 0 {
        Phase::Start
    } else if i == 1 {
        Phase::Allocated
    } else if i == 2 {
        Phase::VolumeCreated
    } else if i == 3 {
        Phase::Staged
    } else if i == 4 {
        Phase::Customized
    } else if i == 5 {
        Phase::ToolsInstalled
    } else {
        Phase::Archived
    }
}

/// `n` successful outcomes in a row.
pub open spec fn successes(n: nat) -> Seq<Event> {
    Seq::new(n, |_i: int| Event::Succeeded)
}

/// A build whose first `k` steps succeed, whose next step fails with `e`,
/// and whose rollback then succeeds.
pub open spec fn failing_at(k: nat, e: BuildError) -> Seq<Event> {
    successes(k) + seq![Event::Failed(e), Event::Succeeded]
}

proof fn lemma_rollback_from(i: nat, k: nat, e: BuildError)
    requires
        1 <= k <= 6,
        i <= k,
    ensures
        ({
            let o = Orchestrator { phase: phase_at(i), error: None, created: i > 0 };
            let r = run(o, successes((k - i) as nat) + seq![Event::Failed(e), Event::Succeeded]);
            &&& r.0.phase == Phase::Failed
            &&& count_destroys(r.1) == 1
            &&& r.1.len() > 0
            &&& r.1.last() == Action::Report(e)
        }),
    decreases k - i,
{
    let o = Orchestrator { phase: phase_at(i), error: None, created: i > 0 };
    let evs = successes((k - i) as nat) + seq![Event::Failed(e), Event::Succeeded];
    if i == k {
        assert(evs =~= seq![Event::Failed(e), Event::Succeeded]);
        let o1 = step_spec(o, evs[0]).0;
        assert(evs.drop_first() =~= seq![Event::Succeeded]);
        assert(evs.drop_first().drop_first() =~= Seq::<Event>::empty());
        let o2 = step_spec(o1, Event::Succeeded).0;
        assert(run(o2, Seq::<Event>::empty()).1 =~= Seq::<Action>::empty());
        let acts2 = run(o1, evs.drop_first()).1;
        assert(acts2 =~= seq![Action::Report(e)]);
        assert(count_destroys(acts2.drop_first()) == 0);
        let acts = run(o, evs).1;
        assert(acts =~= seq![Action::DestroyVolume, Action::Report(e)]);
        assert(acts.drop_first() =~= acts2);
    } else {
        let o1 = Orchestrator { phase: phase_at(i + 1), error: None, created: true };
        assert(evs[0] == Event::Succeeded);
        assert(step_spec(o, evs[0]).0 == o1);
        assert(!(step_spec(o, evs[0]).1 is DestroyVolume));
        assert(evs.drop_first() =~= successes((k - (i + 1)) as nat) + seq![
            Event::Failed(e),
            Event::Succeeded,
        ]);
        lemma_rollback_from(i + 1, k, e);
        let acts = run(o, evs).1;
        assert(acts.drop_first() =~= run(o1, evs.drop_first()).1);
    }
}

/// A failure injected at any step is reported unchanged, after the volume
/// has been destroyed exactly once (provided that destruction succeeds); a
/// failure to allocate the volume is reported with nothing to destroy.
///
/// `k` counts the steps that succeeded before the failing one: 0 when the
/// volume's allocation fails, 1 to 6 when the preparation of its staging
/// root, extraction, normalisation, tool installation, archiving or the
/// manifest fails.
pub proof fn lemma_failure_rolls_back(k: nat, e: BuildError)
    requires
        k <= 6,
    ensures
        ({
            let r = run(initial(), failing_at(k, e));
            &&& r.0.phase == Phase::Failed
            &&& count_destroys(r.1) == (if k == 0 { 0nat } else { 1nat })
            &&& r.1.len() > 0
            &&& r.1.last() == Action::Report(e)
        }),
{
    let evs = failing_at(k, e);
    if k == 0 {
        assert(evs[0] == Event::Failed(e));
        let o1 = step_spec(initial(), evs[0]).0;
        assert(run(o1, evs.drop_first()).1 =~= Seq::<Action>::empty());
        let acts = run(initial(), evs).1;
        assert(acts =~= seq![Action::Report(e)]);
        assert(acts.drop_first() =~= Seq::<Action>::empty());
        assert(count_destroys(acts.drop_first()) == 0);
        assert(count_destroys(acts) == 0);
        assert(o1.phase == Phase::Failed);
        assert(run(initial(), evs).0 == run(o1, evs.drop_first()).0);
    } else {
        assert(initial() == (Orchestrator { phase: phase_at(0), error: None, created: 0nat > 0 }));
        assert(evs =~= successes((k - 0) as nat) + seq![Event::Failed(e), Event::Succeeded]);
        lemma_rollback_from(0, k, e);
    }
}

} // verus!
