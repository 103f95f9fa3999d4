use vstd::prelude::*;

verus! {

/// Whether the loops still wait for the Cosmos node to finish syncing.
#[derive(Clone, Copy, Debug, PartialEq, Eq, Structural)]
pub enum SyncGate {
    Waiting,
    Open,
}

/// What the coordinator does once the node has told its sync status.
#[derive(Clone, Copy, Debug, PartialEq, Eq, Structural)]
pub enum GateAction {
    /// The node is still syncing: ask again later.
    PollAgain,
    /// The node has finished syncing: start the loops.
    StartLoops,
    /// The loops are already running: nothing to do.
    Idle,
}

pub open spec fn gate_next(g: SyncGate, syncing: bool) -> (SyncGate, GateAction) {
    match g {
        SyncGate::Waiting => if syncing {
            (SyncGate::Waiting, GateAction::PollAgain)
        } else {
            (SyncGate::Open, GateAction::StartLoops)
        },
        SyncGate::Open => (SyncGate::Open, GateAction::Idle),
    }
}

impl SyncGate {
    /// The state before the node first tells its sync status.
    pub fn new() -> (r: SyncGate)
        ensures
            r == SyncGate::Waiting,
    {
        SyncGate::Waiting
    }

    /// Takes the sync status the node tells: the loops start the first time
    /// the node is not syncing, and never while it syncs.
    pub fn step(self, node_syncing: bool) -> (r: (SyncGate, GateAction))
        ensures
            r == gate_next(self, node_syncing),
    {
        match self {
            SyncGate::Waiting => if node_syncing {
                (SyncGate::Waiting, GateAction::PollAgain)
            } else {
                (SyncGate::Open, GateAction::StartLoops)
            },
            SyncGate::Open => (SyncGate::Open, GateAction::Idle),
        }
    }
}

/// The actions taken on a sequence of sync statuses the node tells
/// (`true`: the node says it is syncing).
pub open spec fn gate_actions(g: SyncGate, reports: Seq<bool>) -> Seq<GateAction>
    decreases reports.len(),
{
    if reports.len() == 0 {
        Seq::empty()
    } else {
        let (g2, a) = gate_next(g, reports[0]);
        seq![a] + gate_actions(g2, reports.drop_first())
    }
}

/// How many times the loops are started in a sequence of actions.
pub open spec fn start_count(actions: Seq<GateAction>) -> nat
    decreases actions.len(),
{
    if actions.len() == 0 {
        0
    } else {
        (if actions[0] == GateAction::StartLoops {
            1nat
        } else {
            0nat
        }) + start_count(actions.drop_first())
    }
}

proof fn lemma_open_never_starts(reports: Seq<bool>)
    ensures
        gate_actions(SyncGate::Open, reports).len() == reports.len(),
        start_count(gate_actions(SyncGate::Open, reports)) == 0,
        forall|i: int|
            0 <= i < reports.len() ==> gate_actions(SyncGate::Open, reports)[i]
                == GateAction::Idle,
    decreases reports.len(),
{
    if reports.len() > 0 {
        lemma_open_never_starts(reports.drop_first());
        let s = gate_actions(SyncGate::Open, reports);
        assert(s.drop_first() == gate_actions(SyncGate::Open, reports.drop_first()));
    }
}

/// On any sequence of sync statuses, starting while still waiting: no status
/// that the node is syncing starts the loops, and the loops start exactly once
/// if the node once says it has finished syncing, else never.
pub proof fn lemma_gate_starts_once(reports: Seq<bool>)
    ensures
        gate_actions(SyncGate::Waiting, reports).len() == reports.len(),
        forall|i: int|
            0 <= i < reports.len() && #[trigger] reports[i] ==> gate_actions(
                SyncGate::Waiting,
                reports,
            )[i] != GateAction::StartLoops,
        start_count(gate_actions(SyncGate::Waiting, reports)) == if exists|i: int|
            0 <= i < reports.len() && !#[trigger] reports[i] {
            1nat
        } else {
            0nat
        },
    decreases reports.len(),
{
    if reports.len() > 0 {
        let rest = reports.drop_first();
        let s = gate_actions(SyncGate::Waiting, reports);
        if reports[0] {
            lemma_gate_starts_once(rest);
            assert(s.drop_first() == gate_actions(SyncGate::Waiting, rest));
            assert forall|i: int|
                0 <= i < reports.len() && #[trigger] reports[i] implies s[i]
                != GateAction::StartLoops by {
                if i > 0 {
                    assert(rest[i - 1] == reports[i]);
                }
            }
            if exists|i: int| 0 <= i < reports.len() && !#[trigger] reports[i] {
                let i = choose|i: int| 0 <= i < reports.len() && !#[trigger] reports[i];
                assert(!rest[i - 1]);
            } else {
                assert forall|i: int| 0 <= i < rest.len() implies #[trigger] rest[i] by {
                    assert(reports[i + 1] == rest[i]);
                }
            }
        } else {
            lemma_open_never_starts(rest);
            assert(s.drop_first() == gate_actions(SyncGate::Open, rest));
            assert(!reports[0]);
        }
    }
}

} // verus!
