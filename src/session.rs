//! The decisions of one verification run, as a state machine. The caller
//! performs each returned action and reports its outcome as the next event.
use vstd::prelude::*;

use crate::types::{BytecodeKind, MatchType, VerificationResult};

verus! {

/// Where a verification run stands.
#[derive(Clone, Copy, Debug, PartialEq, Eq, Structural)]
pub enum Stage {
    /// Looking up how the contract was created.
    ResolvingContext,
    /// Settling the constructor arguments (and, for an ordinary creation, the creation transaction).
    ResolvingArgs,
    /// Comparing the runtime code of a genesis deployment of a predeployed contract.
    PredeployPath,
    /// Comparing creation code.
    CreationCheck,
    /// Comparing the runtime code of a historical replay.
    RuntimeCheck,
    /// Finished; the results are final.
    Done,
}

/// The outcome of the last action, reported by the caller.
#[derive(Clone, Copy, Debug, PartialEq, Eq, Structural)]
pub enum Event {
    /// Creation data was looked up; `found` is false for a predeployed contract.
    CreationContext { found: bool },
    /// The constructor arguments are settled.
    ArgsResolved,
    /// The creation code was compared.
    CreationCompared(MatchType),
    /// The runtime code was compared.
    RuntimeCompared(MatchType),
}

/// What the caller does next.
#[derive(Clone, Copy, Debug, PartialEq, Eq, Structural)]
pub enum Action {
    /// Fetch the creation transaction and its receipt, then settle the arguments.
    FetchCreationTransaction,
    /// Settle the arguments; there is no creation transaction to fetch.
    ResolveArgs,
    /// Deploy the local creation code at genesis and compare the runtime code.
    DeployAtGenesis,
    /// Compare the creation code.
    CompareCreation,
    /// Replay the creation transaction at its block and compare the runtime code.
    ReplayCreation,
    /// Report the results.
    Finish,
    /// The event does not belong to the current stage and changed nothing.
    Ignore,
}

/// The mathematical state of a run.
pub struct SessionView {
    pub stage: Stage,
    pub predeploy: bool,
    pub ignore: Option<BytecodeKind>,
    pub results: Seq<VerificationResult>,
}

/// The state of one verification run.
pub struct Session {
    stage: Stage,
    predeploy: bool,
    ignore: Option<BytecodeKind>,
    results: Vec<VerificationResult>,
}

impl View for Session {
    type V = SessionView;

    closed spec fn view(&self) -> SessionView {
        SessionView {
            stage: self.stage,
            predeploy: self.predeploy,
            ignore: self.ignore,
            results: self.results@,
        }
    }
}

/// A result record.
pub open spec fn result(kind: BytecodeKind, match_type: MatchType) -> VerificationResult {
    VerificationResult { kind, match_type }
}

/// The state of a run that has not started, with an optional kind of bytecode to skip.
pub open spec fn initial(ignore: Option<BytecodeKind>) -> SessionView {
    SessionView { stage: Stage::ResolvingContext, predeploy: false, ignore, results: seq![] }
}

/// The next state and action after `e`.
pub open spec fn next(s: SessionView, e: Event) -> (SessionView, Action) {
    match (s.stage, e) {
        (Stage::ResolvingContext, Event::CreationContext { found }) => (
            SessionView { stage: Stage::ResolvingArgs, predeploy: !found, ..s },
            if found { Action::FetchCreationTransaction } else { Action::ResolveArgs },
        ),
        (Stage::ResolvingArgs, Event::ArgsResolved) => if s.predeploy {
            (SessionView { stage: Stage::PredeployPath, ..s }, Action::DeployAtGenesis)
        } else if s.ignore != Some(BytecodeKind::Creation) {
            (SessionView { stage: Stage::CreationCheck, ..s }, Action::CompareCreation)
        } else if s.ignore != Some(BytecodeKind::Runtime) {
            (SessionView { stage: Stage::RuntimeCheck, ..s }, Action::ReplayCreation)
        } else {
            (SessionView { stage: Stage::Done, ..s }, Action::Finish)
        },
        (Stage::CreationCheck, Event::CreationCompared(m)) => {
            let recorded = s.results.push(result(BytecodeKind::Creation, m));
            if m == MatchType::NoMatch {
                (
                    SessionView {
                        stage: Stage::Done,
                        results: recorded.push(result(BytecodeKind::Runtime, MatchType::NoMatch)),
                        ..s
                    },
                    Action::Finish,
                )
            } else if s.ignore != Some(BytecodeKind::Runtime) {
                (SessionView { stage: Stage::RuntimeCheck, results: recorded, ..s }, Action::ReplayCreation)
            } else {
                (SessionView { stage: Stage::Done, results: recorded, ..s }, Action::Finish)
            }
        },
        (Stage::RuntimeCheck, Event::RuntimeCompared(m)) | (Stage::PredeployPath, Event::RuntimeCompared(m)) => (
            SessionView { stage: Stage::Done, results: s.results.push(result(BytecodeKind::Runtime, m)), ..s },
            Action::Finish,
        ),
        _ => (s, Action::Ignore),
    }
}

/// The final state and the actions after each of `events` in turn.
pub open spec fn run(s: SessionView, events: Seq<Event>) -> (SessionView, Seq<Action>)
    decreases events.len(),
{
    if events.len() == 0 {
        (s, seq![])
    } else {
        let (s1, a) = next(s, events[0]);
        let (last, actions) = run(s1, events.skip(1));
        (last, seq![a] + actions)
    }
}

impl Session {
    /// A run that has not started; `ignore` names a kind of bytecode not to compare.
    pub fn new(ignore: Option<BytecodeKind>) -> (r: Session)
        ensures
            r@ == initial(ignore),
    {
        Session { stage: Stage::ResolvingContext, predeploy: false, ignore, results: Vec::new() }
    }

    /// Where the run stands.
    pub fn stage(&self) -> (r: Stage)
        ensures
            r == self@.stage,
    {
        self.stage
    }

    /// Whether the contract was found to be predeployed.
    pub fn is_predeploy(&self) -> (r: bool)
        ensures
            r == self@.predeploy,
    {
        self.predeploy
    }

    /// The results recorded so far, in order.
    pub fn results(&self) -> (r: &Vec<VerificationResult>)
        ensures
            r@ == self@.results,
    {
        &self.results
    }

    /// Takes in the outcome of the last action and says what to do next.
    pub fn step(&mut self, e: Event) -> (r: Action)
        ensures
            (final(self)@, r) == next(old(self)@, e),
    {
        match (self.stage, e) {
            (Stage::ResolvingContext, Event::CreationContext { found }) => {
                self.stage = Stage::ResolvingArgs;
                self.predeploy = !found;
                if found {
                    Action::FetchCreationTransaction
                } else {
                    Action::ResolveArgs
                }
            },
            (Stage::ResolvingArgs, Event::ArgsResolved) => {
                if self.predeploy {
                    self.stage = Stage::PredeployPath;
                    Action::DeployAtGenesis
                } else if self.ignore != Some(BytecodeKind::Creation) {
                    self.stage = Stage::CreationCheck;
                    Action::CompareCreation
                } else if self.ignore != Some(BytecodeKind::Runtime) {
                    self.stage = Stage::RuntimeCheck;
                    Action::ReplayCreation
                } else {
                    self.stage = Stage::Done;
                    Action::Finish
                }
            },
            (Stage::CreationCheck, Event::CreationCompared(m)) => {
                self.results.push(VerificationResult { kind: BytecodeKind::Creation, match_type: m });
                if m == MatchType::NoMatch {
                    self.results.push(VerificationResult { kind: BytecodeKind::Runtime, match_type: MatchType::NoMatch });
                    self.stage = Stage::Done;
                    Action::Finish
                } else if self.ignore != Some(BytecodeKind::Runtime) {
                    self.stage = Stage::RuntimeCheck;
                    Action::ReplayCreation
                } else {
                    self.stage = Stage::Done;
                    Action::Finish
                }
            },
            (Stage::RuntimeCheck, Event::RuntimeCompared(m)) | (Stage::PredeployPath, Event::RuntimeCompared(m)) => {
                self.results.push(VerificationResult { kind: BytecodeKind::Runtime, match_type: m });
                self.stage = Stage::Done;
                Action::Finish
            },
            _ => Action::Ignore,
        }
    }
}


/// A finished run ignores every further event and stays as it is.
proof fn lemma_done_absorbs(s: SessionView, events: Seq<Event>)
    requires
        s.stage == Stage::Done,
    ensures
        run(s, events).0 == s,
        forall|i: int| 0 <= i < run(s, events).1.len() ==> #[trigger] run(s, events).1[i] == Action::Ignore,
    decreases events.len(),
{
    if events.len() > 0 {
        lemma_done_absorbs(s, events.skip(1));
        let rest = run(s, events.skip(1)).1;
        assert forall|i: int| 0 <= i < run(s, events).1.len() implies #[trigger] run(s, events).1[i] == Action::Ignore by {
            if i > 0 {
                assert(run(s, events).1[i] == rest[i - 1]);
            }
        }
    }
}

/// A creation-code mismatch ends the run at once: the runtime result is
/// recorded as no match right after it, no replay or deployment is ever
/// requested, and later events change nothing.
pub proof fn lemma_creation_mismatch_short_circuits(s: SessionView, later: Seq<Event>)
    requires
        s.stage == Stage::CreationCheck,
    ensures
        ({
            let (last, actions) = run(s, seq![Event::CreationCompared(MatchType::NoMatch)] + later);
            &&& last.stage == Stage::Done
            &&& last.results == s.results.push(result(BytecodeKind::Creation, MatchType::NoMatch)).push(
                result(BytecodeKind::Runtime, MatchType::NoMatch),
            )
            &&& actions[0] == Action::Finish
            &&& forall|i: int|
                0 <= i < actions.len() ==> #[trigger] actions[i] != Action::ReplayCreation && actions[i]
                    != Action::DeployAtGenesis
        }),
{
    let events = seq![Event::CreationCompared(MatchType::NoMatch)] + later;
    assert(events[0] == Event::CreationCompared(MatchType::NoMatch));
    assert(events.skip(1) =~= later);
    let s1 = next(s, events[0]).0;
    lemma_done_absorbs(s1, later);
    let actions = run(s, events).1;
    assert forall|i: int| 0 <= i < actions.len() implies #[trigger] actions[i] != Action::ReplayCreation
        && actions[i] != Action::DeployAtGenesis by {
        if i > 0 {
            assert(actions[i] == run(s1, later).1[i - 1]);
        }
    }
}

/// What holds at every point of a run that found no creation data.
pub open spec fn predeploy_invariant(s: SessionView) -> bool {
    &&& s.predeploy
    &&& s.stage == Stage::ResolvingArgs || s.stage == Stage::PredeployPath || s.stage == Stage::Done
    &&& s.stage != Stage::Done ==> s.results.len() == 0
    &&& s.results.len() <= 1
    &&& forall|i: int| 0 <= i < s.results.len() ==> (#[trigger] s.results[i]).kind == BytecodeKind::Runtime
}

/// The actions that a predeployed contract never needs.
pub open spec fn creation_tx_action(a: Action) -> bool {
    a == Action::FetchCreationTransaction || a == Action::CompareCreation || a == Action::ReplayCreation
}

proof fn lemma_predeploy_run(s: SessionView, events: Seq<Event>)
    requires
        predeploy_invariant(s),
    ensures
        predeploy_invariant(run(s, events).0),
        forall|i: int| 0 <= i < run(s, events).1.len() ==> !creation_tx_action(#[trigger] run(s, events).1[i]),
    decreases events.len(),
{
    if events.len() > 0 {
        let s1 = next(s, events[0]).0;
        assert(predeploy_invariant(s1));
        lemma_predeploy_run(s1, events.skip(1));
        let rest = run(s1, events.skip(1)).1;
        assert forall|i: int| 0 <= i < run(s, events).1.len() implies !creation_tx_action(
            #[trigger] run(s, events).1[i],
        ) by {
            if i > 0 {
                assert(run(s, events).1[i] == rest[i - 1]);
            }
        }
    }
}

/// A run that finds no creation data never fetches a creation transaction or
/// receipt, never compares creation code and never replays a transaction: it
/// settles the arguments, deploys at genesis, and records at most one result,
/// about runtime code.
pub proof fn lemma_predeploy_path(ignore: Option<BytecodeKind>, later: Seq<Event>)
    ensures
        ({
            let (last, actions) = run(initial(ignore), seq![Event::CreationContext { found: false }] + later);
            &&& actions[0] == Action::ResolveArgs
            &&& forall|i: int| 0 <= i < actions.len() ==> !creation_tx_action(#[trigger] actions[i])
            &&& last.results.len() <= 1
            &&& forall|i: int| 0 <= i < last.results.len() ==> (#[trigger] last.results[i]).kind == BytecodeKind::Runtime
        }),
{
    let events = seq![Event::CreationContext { found: false }] + later;
    assert(events[0] == Event::CreationContext { found: false });
    assert(events.skip(1) =~= later);
    let s1 = next(initial(ignore), events[0]).0;
    lemma_predeploy_run(s1, later);
    let actions = run(initial(ignore), events).1;
    assert forall|i: int| 0 <= i < actions.len() implies !creation_tx_action(#[trigger] actions[i]) by {
        if i > 0 {
            assert(actions[i] == run(s1, later).1[i - 1]);
        }
    }
}


/// The results of a finished run: one runtime result for a predeployed contract
/// or when creation code is ignored; otherwise a creation result first,
/// followed by a runtime result unless runtime code is ignored, in which case a
/// runtime result follows only as the no-match that a creation mismatch forces.
pub open spec fn finished_results(s: SessionView) -> bool {
    let rs = s.results;
    if s.predeploy || s.ignore == Some(BytecodeKind::Creation) {
        rs.len() == 1 && rs[0].kind == BytecodeKind::Runtime
    } else if s.ignore == Some(BytecodeKind::Runtime) {
        &&& 1 <= rs.len() <= 2
        &&& rs[0].kind == BytecodeKind::Creation
        &&& rs.len() == 2 ==> rs[0].match_type == MatchType::NoMatch && rs[1] == result(
            BytecodeKind::Runtime,
            MatchType::NoMatch,
        )
    } else {
        rs.len() == 2 && rs[0].kind == BytecodeKind::Creation && rs[1].kind == BytecodeKind::Runtime
    }
}

/// What holds of the results at each stage of a run.
pub open spec fn results_invariant(s: SessionView) -> bool {
    match s.stage {
        Stage::ResolvingContext => s.results.len() == 0 && !s.predeploy,
        Stage::ResolvingArgs => s.results.len() == 0,
        Stage::PredeployPath => s.results.len() == 0 && s.predeploy,
        Stage::CreationCheck => s.results.len() == 0 && !s.predeploy && s.ignore != Some(BytecodeKind::Creation),
        Stage::RuntimeCheck => !s.predeploy && s.ignore != Some(BytecodeKind::Runtime) && if s.ignore == Some(BytecodeKind::Creation) {
            s.results.len() == 0
        } else {
            s.results.len() == 1 && s.results[0].kind == BytecodeKind::Creation
        },
        Stage::Done => finished_results(s),
    }
}

proof fn lemma_results_run(s: SessionView, events: Seq<Event>)
    requires
        results_invariant(s),
    ensures
        results_invariant(run(s, events).0),
    decreases events.len(),
{
    if events.len() > 0 {
        let s1 = next(s, events[0]).0;
        assert(results_invariant(s1));
        lemma_results_run(s1, events.skip(1));
    }
}

/// Whatever events come, a finished run holds exactly one result for each kind
/// of bytecode that is compared (see `finished_results`), creation before runtime.
pub proof fn lemma_one_result_per_kind(ignore: Option<BytecodeKind>, events: Seq<Event>)
    ensures
        run(initial(ignore), events).0.stage == Stage::Done ==> finished_results(run(initial(ignore), events).0),
        run(initial(ignore), events).0.results.len() <= 2,
{
    lemma_results_run(initial(ignore), events);
}

} // verus!
