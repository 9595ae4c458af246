use crate::probe::AllocationStats;
use vstd::prelude::*;

verus! {

/// Where a rebuild run stands: each phase waits for the outcome of one action.
#[derive(Clone, Copy, Debug, PartialEq, Eq, Structural)]
pub enum Phase {
    Building,
    Mutating,
    Rebuilding,
    Sampling,
    Pausing,
    TearingDown,
    FinalSampling,
    Done,
    Failed,
}

/// What the driver of the loop is asked to do next.
#[derive(Clone, Copy, Debug, PartialEq, Eq, Structural)]
pub enum Action {
    /// First full build from the entry file.
    Build,
    /// Append a marker to the watched file.
    Mutate,
    /// Incremental rebuild with the watched file as the one changed file.
    Rebuild,
    /// Read the allocator and report the delta since the last mark.
    Sample,
    /// Let deferred cleanup settle before the next round.
    Pause,
    /// Release the engine.
    TearDown,
    /// Read the allocator once more after teardown.
    FinalSample,
    /// The run is over; report the results.
    Finish,
    /// A fatal failure ended the run; report the errors gathered so far.
    Abort,
}

/// The outcome of the last action, as the driver observed it.
#[derive(Clone, Copy, Debug, PartialEq, Eq, Structural)]
pub enum Event {
    Built { errors: u64 },
    BuildFailed,
    Mutated,
    MutateFailed,
    Rebuilt { errors: u64 },
    RebuildFailed,
    Sampled { stats: AllocationStats },
    Paused,
    TornDown,
    FinalSampled { stats: AllocationStats },
}

/// The action that a phase is waiting on.
pub open spec fn pending(p: Phase) -> Action {
    match p {
        Phase::Building => Action::Build,
        Phase::Mutating => Action::Mutate,
        Phase::Rebuilding => Action::Rebuild,
        Phase::Sampling => Action::Sample,
        Phase::Pausing => Action::Pause,
        Phase::TearingDown => Action::TearDown,
        Phase::FinalSampling => Action::FinalSample,
        Phase::Done => Action::Finish,
        Phase::Failed => Action::Abort,
    }
}

/// The next phase and action after event `e` in phase `p`, where `completed`
/// rounds of the `bound` asked for are done (counting the one just sampled).
/// An event that does not answer the pending action changes nothing and the
/// action is asked for again.
pub open spec fn transition(p: Phase, completed: nat, bound: nat, e: Event) -> (Phase, Action) {
    match (p, e) {
        (Phase::Building, Event::Built { .. }) => if bound == 0 {
            (Phase::TearingDown, Action::TearDown)
        } else {
            (Phase::Mutating, Action::Mutate)
        },
        (Phase::Building, Event::BuildFailed) => (Phase::Failed, Action::Abort),
        (Phase::Mutating, Event::Mutated) => (Phase::Rebuilding, Action::Rebuild),
        (Phase::Mutating, Event::MutateFailed) => (Phase::Failed, Action::Abort),
        (Phase::Rebuilding, Event::Rebuilt { .. }) => (Phase::Sampling, Action::Sample),
        (Phase::Rebuilding, Event::RebuildFailed) => (Phase::Failed, Action::Abort),
        (Phase::Sampling, Event::Sampled { .. }) => (Phase::Pausing, Action::Pause),
        (Phase::Pausing, Event::Paused) => if completed >= bound {
            (Phase::TearingDown, Action::TearDown)
        } else {
            (Phase::Mutating, Action::Mutate)
        },
        (Phase::TearingDown, Event::TornDown) => (Phase::FinalSampling, Action::FinalSample),
        (Phase::FinalSampling, Event::FinalSampled { .. }) => (Phase::Done, Action::Finish),
        _ => (p, pending(p)),
    }
}

/// Rounds done after event `e` in phase `p`: a sample closes a round.
pub open spec fn advance(p: Phase, completed: nat, e: Event) -> nat {
    if p == Phase::Sampling && e is Sampled {
        completed + 1
    } else {
        completed
    }
}

/// Whether `e` is the successful outcome of the action that `p` waits on.
pub open spec fn succeeds(p: Phase, e: Event) -> bool {
    match (p, e) {
        (Phase::Building, Event::Built { .. }) => true,
        (Phase::Mutating, Event::Mutated) => true,
        (Phase::Rebuilding, Event::Rebuilt { .. }) => true,
        (Phase::Sampling, Event::Sampled { .. }) => true,
        (Phase::Pausing, Event::Paused) => true,
        (Phase::TearingDown, Event::TornDown) => true,
        (Phase::FinalSampling, Event::FinalSampled { .. }) => true,
        _ => false,
    }
}

/// The actions asked for while the events `es` come in, from phase `p` with
/// `completed` rounds done.
pub open spec fn run(p: Phase, completed: nat, bound: nat, es: Seq<Event>) -> Seq<Action>
    decreases es.len(),
{
    if es.len() == 0 {
        Seq::empty()
    } else {
        let (q, a) = transition(p, completed, bound, es[0]);
        seq![a] + run(q, advance(p, completed, es[0]), bound, es.drop_first())
    }
}

/// Whether every event of `es` is the successful outcome of the action it answers.
pub open spec fn all_succeed(p: Phase, completed: nat, bound: nat, es: Seq<Event>) -> bool
    decreases es.len(),
{
    es.len() == 0 || (succeeds(p, es[0]) && all_succeed(
        transition(p, completed, bound, es[0]).0,
        advance(p, completed, es[0]),
        bound,
        es.drop_first(),
    ))
}

/// `k` rounds of mutate, rebuild, sample and pause, one after the other.
pub open spec fn rounds(k: nat) -> Seq<Action>
    decreases k,
{
    if k == 0 {
        Seq::empty()
    } else {
        seq![Action::Mutate, Action::Rebuild, Action::Sample, Action::Pause] + rounds(
            (k - 1) as nat,
        )
    }
}

/// What follows the last round: teardown, the final sample, the end.
pub open spec fn closing() -> Seq<Action> {
    seq![Action::TearDown, Action::FinalSample, Action::Finish]
}

/// The rounds still to come, seen from a run that has just asked for a mutation.
proof fn lemma_rounds_from_mutating(completed: nat, bound: nat, es: Seq<Event>)
    requires
        completed < bound,
        es.len() == 4 * (bound - completed) + 2,
        all_succeed(Phase::Mutating, completed, bound, es),
    ensures
        run(Phase::Mutating, completed, bound, es) == seq![
            Action::Rebuild,
            Action::Sample,
            Action::Pause,
        ] + rounds((bound - completed - 1) as nat) + closing(),
    decreases bound - completed,
{
    let e1 = es.drop_first();
    let e2 = e1.drop_first();
    let e3 = e2.drop_first();
    let e4 = e3.drop_first();
    let c = completed + 1;
    assert(run(Phase::Mutating, completed, bound, es) == seq![Action::Rebuild] + run(
        Phase::Rebuilding,
        completed,
        bound,
        e1,
    ));
    assert(all_succeed(Phase::Rebuilding, completed, bound, e1));
    assert(run(Phase::Rebuilding, completed, bound, e1) == seq![Action::Sample] + run(
        Phase::Sampling,
        completed,
        bound,
        e2,
    ));
    assert(all_succeed(Phase::Sampling, completed, bound, e2));
    assert(run(Phase::Sampling, completed, bound, e2) == seq![Action::Pause] + run(
        Phase::Pausing,
        c,
        bound,
        e3,
    ));
    if c >= bound {
        let e5 = e4.drop_first();
        let e6 = e5.drop_first();
        assert(all_succeed(Phase::Pausing, c, bound, e3));
        assert(run(Phase::Pausing, c, bound, e3) == seq![Action::TearDown] + run(
            Phase::TearingDown,
            c,
            bound,
            e4,
        ));
        assert(all_succeed(Phase::TearingDown, c, bound, e4));
        assert(run(Phase::TearingDown, c, bound, e4) == seq![Action::FinalSample] + run(
            Phase::FinalSampling,
            c,
            bound,
            e5,
        ));
        assert(all_succeed(Phase::FinalSampling, c, bound, e5));
        assert(run(Phase::FinalSampling, c, bound, e5) == seq![Action::Finish] + run(
            Phase::Done,
            c,
            bound,
            e6,
        ));
        assert(e6.len() == 0);
        assert(run(Phase::Done, c, bound, e6) == Seq::<Action>::empty());
        assert(rounds(0) == Seq::<Action>::empty());
        assert(run(Phase::Mutating, completed, bound, es) =~= seq![
            Action::Rebuild,
            Action::Sample,
            Action::Pause,
        ] + rounds((bound - completed - 1) as nat) + closing());
    } else {
        assert(all_succeed(Phase::Pausing, c, bound, e3));
        assert(run(Phase::Pausing, c, bound, e3) == seq![Action::Mutate] + run(
            Phase::Mutating,
            c,
            bound,
            e4,
        ));
        lemma_rounds_from_mutating(c, bound, e4);
        let k = (bound - completed - 1) as nat;
        assert(rounds(k) == seq![Action::Mutate, Action::Rebuild, Action::Sample, Action::Pause]
            + rounds((k - 1) as nat));
        assert(run(Phase::Mutating, completed, bound, es) =~= seq![
            Action::Rebuild,
            Action::Sample,
            Action::Pause,
        ] + rounds(k) + closing());
    }
}

/// With every action succeeding, a run bounded by `n` rounds asks, after the
/// first build, for exactly `n` rounds of mutate, rebuild, sample and pause in
/// strict sequence, then for teardown, the final sample and the end. No
/// rebuild is asked for before the one before it has been answered and sampled.
pub proof fn lemma_rounds_in_order(n: nat, es: Seq<Event>)
    requires
        es.len() == 4 * n + 3,
        all_succeed(Phase::Building, 0, n, es),
    ensures
        run(Phase::Building, 0, n, es) == rounds(n) + closing(),
{
    let e1 = es.drop_first();
    if n == 0 {
        let e2 = e1.drop_first();
        let e3 = e2.drop_first();
        assert(run(Phase::Building, 0, n, es) == seq![Action::TearDown] + run(
            Phase::TearingDown,
            0,
            n,
            e1,
        ));
        assert(all_succeed(Phase::TearingDown, 0, n, e1));
        assert(run(Phase::TearingDown, 0, n, e1) == seq![Action::FinalSample] + run(
            Phase::FinalSampling,
            0,
            n,
            e2,
        ));
        assert(all_succeed(Phase::FinalSampling, 0, n, e2));
        assert(run(Phase::FinalSampling, 0, n, e2) == seq![Action::Finish] + run(
            Phase::Done,
            0,
            n,
            e3,
        ));
        assert(run(Phase::Done, 0, n, e3) == Seq::<Action>::empty());
        assert(rounds(0) == Seq::<Action>::empty());
        assert(run(Phase::Building, 0, n, es) =~= rounds(n) + closing());
    } else {
        assert(run(Phase::Building, 0, n, es) == seq![Action::Mutate] + run(
            Phase::Mutating,
            0,
            n,
            e1,
        ));
        lemma_rounds_from_mutating(0, n, e1);
        assert(rounds(n) == seq![Action::Mutate, Action::Rebuild, Action::Sample, Action::Pause]
            + rounds((n - 1) as nat));
        assert(run(Phase::Building, 0, n, es) =~= rounds(n) + closing());
    }
}

/// `a + b`, or `u64::MAX` when the sum does not fit.
pub open spec fn sat_add(a: u64, b: u64) -> u64 {
    if a + b > u64::MAX {
        u64::MAX
    } else {
        (a + b) as u64
    }
}

/// The transient state of one rebuild run: the phase, the rounds asked for
/// and done, the build errors reported so far, the watched file, and the
/// allocation deltas sampled.
pub struct RebuildSession {
    phase: Phase,
    bound: u64,
    completed: u64,
    errors: u64,
    watched: String,
    samples: Vec<AllocationStats>,
    final_sample: Option<AllocationStats>,
}

impl RebuildSession {
    pub closed spec fn phase_of(&self) -> Phase {
        self.phase
    }

    pub closed spec fn bound_of(&self) -> nat {
        self.bound as nat
    }

    pub closed spec fn completed_of(&self) -> nat {
        self.completed as nat
    }

    pub closed spec fn errors_of(&self) -> u64 {
        self.errors
    }

    pub closed spec fn watched_of(&self) -> Seq<char> {
        self.watched@
    }

    pub closed spec fn samples_of(&self) -> Seq<AllocationStats> {
        self.samples@
    }

    pub closed spec fn final_sample_of(&self) -> Option<AllocationStats> {
        self.final_sample
    }

    /// No more rounds done than asked for, none before the first build, one
    /// sample per round done, and a round under way only while one is owed.
    pub closed spec fn wf(&self) -> bool {
        &&& self.completed <= self.bound
        &&& self.phase == Phase::Building ==> self.completed == 0
        &&& self.samples@.len() == self.completed
        &&& (self.phase == Phase::Mutating || self.phase == Phase::Rebuilding || self.phase
            == Phase::Sampling) ==> self.completed < self.bound
    }

    /// A run of `bound` rounds on the file `watched`; its first action is the
    /// initial build.
    pub fn start(bound: u64, watched: &str) -> (r: (RebuildSession, Action))
        ensures
            r.0.wf(),
            r.1 == Action::Build,
            r.0.phase_of() == Phase::Building,
            r.0.bound_of() == bound,
            r.0.completed_of() == 0,
            r.0.errors_of() == 0,
            r.0.watched_of() == watched@,
            r.0.samples_of() == Seq::<AllocationStats>::empty(),
            r.0.final_sample_of() is None,
    {
        let s = RebuildSession {
            phase: Phase::Building,
            bound,
            completed: 0,
            errors: 0,
            watched: watched.to_owned(),
            samples: Vec::new(),
            final_sample: None,
        };
        (s, Action::Build)
    }

    /// Takes in the outcome of the pending action and returns the next one.
    /// Build errors reported by a successful build or rebuild are added up; a
    /// sample is kept and closes a round; a failed build, mutation or rebuild
    /// ends the run.
    pub fn step(&mut self, e: Event) -> (r: Action)
        requires
            old(self).wf(),
        ensures
            final(self).wf(),
            (final(self).phase_of(), r) == transition(
                old(self).phase_of(),
                old(self).completed_of(),
                old(self).bound_of(),
                e,
            ),
            final(self).completed_of() == advance(old(self).phase_of(), old(self).completed_of(), e),
            final(self).bound_of() == old(self).bound_of(),
            final(self).watched_of() == old(self).watched_of(),
            final(self).samples_of() == match (old(self).phase_of(), e) {
                (Phase::Sampling, Event::Sampled { stats }) => old(self).samples_of().push(stats),
                _ => old(self).samples_of(),
            },
            final(self).errors_of() == match (old(self).phase_of(), e) {
                (Phase::Building, Event::Built { errors }) => sat_add(old(self).errors_of(), errors),
                (Phase::Rebuilding, Event::Rebuilt { errors }) => sat_add(
                    old(self).errors_of(),
                    errors,
                ),
                _ => old(self).errors_of(),
            },
            final(self).final_sample_of() == match (old(self).phase_of(), e) {
                (Phase::FinalSampling, Event::FinalSampled { stats }) => Some(stats),
                _ => old(self).final_sample_of(),
            },
    {
        match (self.phase, e) {
            (Phase::Building, Event::Built { errors }) => {
                self.errors = self.errors.saturating_add(errors);
                if self.bound == 0 {
                    self.phase = Phase::TearingDown;
                    Action::TearDown
                } else {
                    self.phase = Phase::Mutating;
                    Action::Mutate
                }
            },
            (Phase::Building, Event::BuildFailed) => {
                self.phase = Phase::Failed;
                Action::Abort
            },
            (Phase::Mutating, Event::Mutated) => {
                self.phase = Phase::Rebuilding;
                Action::Rebuild
            },
            (Phase::Mutating, Event::MutateFailed) => {
                self.phase = Phase::Failed;
                Action::Abort
            },
            (Phase::Rebuilding, Event::Rebuilt { errors }) => {
                self.errors = self.errors.saturating_add(errors);
                self.phase = Phase::Sampling;
                Action::Sample
            },
            (Phase::Rebuilding, Event::RebuildFailed) => {
                self.phase = Phase::Failed;
                Action::Abort
            },
            (Phase::Sampling, Event::Sampled { stats }) => {
                self.samples.push(stats);
                self.completed = self.completed + 1;
                self.phase = Phase::Pausing;
                Action::Pause
            },
            (Phase::Pausing, Event::Paused) => {
                if self.completed >= self.bound {
                    self.phase = Phase::TearingDown;
                    Action::TearDown
                } else {
                    self.phase = Phase::Mutating;
                    Action::Mutate
                }
            },
            (Phase::TearingDown, Event::TornDown) => {
                self.phase = Phase::FinalSampling;
                Action::FinalSample
            },
            (Phase::FinalSampling, Event::FinalSampled { stats }) => {
                self.final_sample = Some(stats);
                self.phase = Phase::Done;
                Action::Finish
            },
            _ => self.pending_action(),
        }
    }

    /// The action the current phase waits on.
    pub fn pending_action(&self) -> (r: Action)
        ensures
            r == pending(self.phase_of()),
    {
        match self.phase {
            Phase::Building => Action::Build,
            Phase::Mutating => Action::Mutate,
            Phase::Rebuilding => Action::Rebuild,
            Phase::Sampling => Action::Sample,
            Phase::Pausing => Action::Pause,
            Phase::TearingDown => Action::TearDown,
            Phase::FinalSampling => Action::FinalSample,
            Phase::Done => Action::Finish,
            Phase::Failed => Action::Abort,
        }
    }

    /// The files to announce as changed to a rebuild: the watched file alone.
    pub fn changed_files(&self) -> (r: Vec<String>)
        ensures
            r@.len() == 1,
            r@[0]@ == self.watched_of(),
    {
        let mut v: Vec<String> = Vec::new();
        v.push(self.watched.clone());
        v
    }

    pub fn watched(&self) -> (r: &str)
        ensures
            r@ == self.watched_of(),
    {
        self.watched.as_str()
    }

    pub fn phase(&self) -> (r: Phase)
        ensures
            r == self.phase_of(),
    {
        self.phase
    }

    pub fn bound(&self) -> (r: u64)
        ensures
            r == self.bound_of(),
    {
        self.bound
    }

    pub fn completed(&self) -> (r: u64)
        ensures
            r == self.completed_of(),
    {
        self.completed
    }

    /// Build errors reported so far, by the first build and the rebuilds.
    pub fn errors(&self) -> (r: u64)
        ensures
            r == self.errors_of(),
    {
        self.errors
    }

    /// The allocation deltas sampled, one per round done, in order.
    pub fn samples(&self) -> (r: &Vec<AllocationStats>)
        ensures
            r@ == self.samples_of(),
    {
        &self.samples
    }

    /// The delta sampled after teardown, once taken.
    pub fn final_sample(&self) -> (r: Option<AllocationStats>)
        ensures
            r == self.final_sample_of(),
    {
        self.final_sample
    }
}

} // verus!
