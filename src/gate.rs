//! Running a unit of work only while a condition on the bus holds.
//!
//! The owner of the work evaluates the condition on the latest facts after
//! every bus change, and when the work returns by itself; `GateState::step`
//! then says whether to start, keep, cancel or hold off the work.

use vstd::prelude::*;

verus! {

/// Whether the work is running.
#[derive(Clone, Copy, Debug, PartialEq, Eq, Structural)]
pub enum GateState {
    Waiting,
    Running,
}

/// What happened since the last decision.
#[derive(Clone, Copy, Debug, PartialEq, Eq, Structural)]
pub enum GateEvent {
    /// Something was published on the bus.
    Changed,
    /// The work returned by itself.
    WorkEnded,
}

/// What to do with the work.
#[derive(Clone, Copy, Debug, PartialEq, Eq, Structural)]
pub enum GateAction {
    /// Nothing runs; wait for the next bus change.
    Wait,
    /// Start the work afresh.
    Start,
    /// Let the running work go on.
    Continue,
    /// Abandon the running work at once.
    Cancel,
}

/// The first decision, given whether the condition holds.
pub open spec fn gate_begin(holds: bool) -> (GateState, GateAction) {
    if holds {
        (GateState::Running, GateAction::Start)
    } else {
        (GateState::Waiting, GateAction::Wait)
    }
}

/// The decision after an event, given whether the condition holds now.
pub open spec fn gate_next(s: GateState, e: GateEvent, holds: bool) -> (GateState, GateAction) {
    match s {
        GateState::Running => match e {
            GateEvent::Changed => if holds {
                (GateState::Running, GateAction::Continue)
            } else {
                (GateState::Waiting, GateAction::Cancel)
            },
            GateEvent::WorkEnded => gate_begin(holds),
        },
        GateState::Waiting => gate_begin(holds),
    }
}

/// The state after a sequence of events, each with whether the condition
/// held after it, and the actions taken on the way.
pub open spec fn gate_run(s: GateState, evs: Seq<(GateEvent, bool)>) -> (GateState, Seq<GateAction>)
    decreases evs.len(),
{
    if evs.len() == 0 {
        (s, seq![])
    } else {
        let (s1, a) = gate_next(s, evs[0].0, evs[0].1);
        let (sn, acts) = gate_run(s1, evs.drop_first());
        (sn, seq![a] + acts)
    }
}

impl GateState {
    /// The first decision: start the work if the condition holds, else wait.
    pub fn begin(holds: bool) -> (r: (GateState, GateAction))
        ensures
            r == gate_begin(holds),
    {
        if holds {
            (GateState::Running, GateAction::Start)
        } else {
            (GateState::Waiting, GateAction::Wait)
        }
    }

    /// The decision after `e`. Running work goes on while the condition
    /// holds and is cancelled as soon as it does not; work that ended by
    /// itself is started again if the condition still holds.
    pub fn step(self, e: GateEvent, holds: bool) -> (r: (GateState, GateAction))
        ensures
            r == gate_next(self, e, holds),
    {
        match self {
            GateState::Running => match e {
                GateEvent::Changed => if holds {
                    (GateState::Running, GateAction::Continue)
                } else {
                    (GateState::Waiting, GateAction::Cancel)
                },
                GateEvent::WorkEnded => GateState::begin(holds),
            },
            GateState::Waiting => GateState::begin(holds),
        }
    }
}

/// After every decision the work runs exactly when the condition held at
/// that decision, and it is started only when the condition holds.
pub proof fn lemma_runs_only_while_holding(s: GateState, e: GateEvent, holds: bool)
    ensures
        (gate_begin(holds).0 == GateState::Running) == holds,
        (gate_next(s, e, holds).0 == GateState::Running) == holds,
        gate_next(s, e, holds).1 == GateAction::Start ==> holds,
        s == GateState::Running && !holds && e == GateEvent::Changed ==> gate_next(s, e, holds).1
            == GateAction::Cancel,
{
}

/// While the condition stays false, work that is not running never starts:
/// each decision is to hold off, and the state remains `Waiting`.
pub proof fn lemma_never_starts_while_false(evs: Seq<(GateEvent, bool)>)
    requires
        forall|k: int| 0 <= k < evs.len() ==> !(#[trigger] evs[k]).1,
    ensures
        gate_run(GateState::Waiting, evs).0 == GateState::Waiting,
        gate_run(GateState::Waiting, evs).1.len() == evs.len(),
        forall|k: int|
            0 <= k < evs.len() ==> #[trigger] gate_run(GateState::Waiting, evs).1[k]
                == GateAction::Wait,
    decreases evs.len(),
{
    if evs.len() > 0 {
        let rest = evs.drop_first();
        assert forall|k: int| 0 <= k < rest.len() implies !(#[trigger] rest[k]).1 by {
            assert(rest[k] == evs[k + 1]);
        }
        lemma_never_starts_while_false(rest);
        let acts = gate_run(GateState::Waiting, evs).1;
        assert forall|k: int| 0 <= k < evs.len() implies #[trigger] acts[k] == GateAction::Wait by {
            if k > 0 {
                assert(acts[k] == gate_run(GateState::Waiting, rest).1[k - 1]);
            }
        }
    }
}

/// Once the condition turns true, waiting work starts at that very event.
pub proof fn lemma_starts_when_true(evs: Seq<(GateEvent, bool)>, first: (GateEvent, bool))
    requires
        forall|k: int| 0 <= k < evs.len() ==> !(#[trigger] evs[k]).1,
        first.1,
    ensures
        gate_run(GateState::Waiting, evs.push(first)).0 == GateState::Running,
        gate_run(GateState::Waiting, evs.push(first)).1.len() == evs.len() + 1,
        gate_run(GateState::Waiting, evs.push(first)).1.last() == GateAction::Start,
    decreases evs.len(),
{
    let all = evs.push(first);
    if evs.len() == 0 {
        assert(all.drop_first() =~= seq![]);
        assert(all[0] == first);
        assert(gate_run(GateState::Running, all.drop_first()) == (
            GateState::Running,
            Seq::<GateAction>::empty(),
        ));
        assert(seq![GateAction::Start] + Seq::<GateAction>::empty() =~= seq![GateAction::Start]);
    } else {
        let rest = evs.drop_first();
        assert forall|k: int| 0 <= k < rest.len() implies !(#[trigger] rest[k]).1 by {
            assert(rest[k] == evs[k + 1]);
        }
        assert(all.drop_first() =~= rest.push(first));
        assert(all[0] == evs[0]);
        lemma_starts_when_true(rest, first);
        let acts = gate_run(GateState::Waiting, rest.push(first)).1;
        assert((seq![GateAction::Wait] + acts).last() == acts.last());
    }
}

} // verus!
