//! The global state machine: which callbacks run on a tick, and what state
//! the tick leaves behind.

use vstd::prelude::*;
use crate::poll::{check_asset_loading, PollAction};
use crate::state::{LoadStatus, LoadingState};

verus! {

/// A callback that runs on entry into `Loaded`.
#[derive(Clone, Copy, Debug, PartialEq, Eq, Hash, Structural)]
pub enum Callback {
    /// Creates the scene root.
    Spawn,
    /// Applies buffered commands, so that the scene's entities exist.
    Flush,
    /// Tags the matching named node.
    Label,
}

/// Where the application stands between two ticks.
#[derive(Clone, Copy, Debug, PartialEq, Eq, Hash, Structural)]
pub struct Schedule {
    pub state: LoadingState,
    /// Set once a failed load has terminated the process.
    pub halted: bool,
}

/// What one tick does: the callbacks to run, in order, and where the
/// application stands afterwards.
pub struct Tick {
    pub callbacks: Vec<Callback>,
    pub next: Schedule,
}

/// The chain that runs on entry into `Loaded`: spawn, then the flush that
/// makes the spawned entities visible, then label.
pub open spec fn entry_chain() -> Seq<Callback> {
    seq![Callback::Spawn, Callback::Flush, Callback::Label]
}

impl Schedule {
    /// The load-poll callback runs while the state is `Unloaded` and the
    /// process is alive.
    pub open spec fn polls(self) -> bool {
        self.state == LoadingState::Unloaded && !self.halted
    }

    /// Where the application stands after a tick on which the asset facility
    /// reports `status`.
    pub open spec fn after(self, status: LoadStatus) -> Schedule {
        if self.polls() && status == LoadStatus::Loaded {
            Schedule { state: LoadingState::Loaded, halted: false }
        } else if self.polls() && status == LoadStatus::Failed {
            Schedule { state: LoadingState::Unloaded, halted: true }
        } else {
            self
        }
    }

    /// The callbacks that such a tick runs after the poll.
    pub open spec fn runs(self, status: LoadStatus) -> Seq<Callback> {
        if self.polls() && status == LoadStatus::Loaded {
            entry_chain()
        } else {
            Seq::empty()
        }
    }

    /// Where the application stands after one tick for each of `statuses`.
    pub open spec fn after_all(self, statuses: Seq<LoadStatus>) -> Schedule
        decreases statuses.len(),
    {
        if statuses.len() == 0 {
            self
        } else {
            self.after_all(statuses.drop_last()).after(statuses.last())
        }
    }

    /// Every callback that those ticks ran, oldest first.
    pub open spec fn history(self, statuses: Seq<LoadStatus>) -> Seq<Callback>
        decreases statuses.len(),
    {
        if statuses.len() == 0 {
            Seq::empty()
        } else {
            self.history(statuses.drop_last()) + self.after_all(statuses.drop_last()).runs(
                statuses.last(),
            )
        }
    }

    /// The application at startup: nothing loaded, process alive.
    pub open spec fn startup() -> Schedule {
        Schedule { state: LoadingState::Unloaded, halted: false }
    }

    pub fn new() -> (start: Schedule)
        ensures
            start == Schedule::startup(),
    {
        Schedule { state: LoadingState::Unloaded, halted: false }
    }

    /// One scheduler tick on which the asset facility reports `status`.
    pub fn tick(self, status: LoadStatus) -> (tick: Tick)
        ensures
            tick.next == self.after(status),
            tick.callbacks@ == self.runs(status),
    {
        if self.halted || self.state == LoadingState::Loaded {
            return Tick { callbacks: Vec::new(), next: self };
        }
        match check_asset_loading(status) {
            PollAction::Wait => Tick { callbacks: Vec::new(), next: self },
            PollAction::Abort => Tick {
                callbacks: Vec::new(),
                next: Schedule { state: LoadingState::Unloaded, halted: true },
            },
            PollAction::Advance => {
                let mut callbacks: Vec<Callback> = Vec::new();
                callbacks.push(Callback::Spawn);
                callbacks.push(Callback::Flush);
                callbacks.push(Callback::Label);
                assert(callbacks@ == entry_chain());
                Tick { callbacks, next: Schedule { state: LoadingState::Loaded, halted: false } }
            },
        }
    }

    /// One tick for each of `statuses`, from `self` on.
    pub fn run(self, statuses: &Vec<LoadStatus>) -> (tick: Tick)
        ensures
            tick.next == self.after_all(statuses@),
            tick.callbacks@ == self.history(statuses@),
    {
        let mut callbacks: Vec<Callback> = Vec::new();
        let mut now: Schedule = self;
        let mut i: usize = 0;
        while i < statuses.len()
            invariant
                i <= statuses@.len(),
                now == self.after_all(statuses@.take(i as int)),
                callbacks@ == self.history(statuses@.take(i as int)),
            decreases statuses@.len() - i,
        {
            proof {
                assert(statuses@.take(i + 1).drop_last() == statuses@.take(i as int));
            }
            let mut step = now.tick(statuses[i]);
            callbacks.append(&mut step.callbacks);
            now = step.next;
            i = i + 1;
        }
        proof {
            assert(statuses@.take(i as int) == statuses@);
        }
        Tick { callbacks, next: now }
    }
}

/// How often `callback` stands in `history`.
pub open spec fn times(history: Seq<Callback>, callback: Callback) -> nat
    decreases history.len(),
{
    if history.len() == 0 {
        0
    } else {
        times(history.drop_last(), callback) + if history.last() == callback {
            1nat
        } else {
            0nat
        }
    }
}

/// While the state is `Unloaded` and every status is "in progress" or
/// unrecognized, nothing changes and no callback of the entry chain runs.
pub proof fn lemma_waiting_changes_nothing(start: Schedule, statuses: Seq<LoadStatus>)
    requires
        start.state == LoadingState::Unloaded,
        forall|i: int|
            0 <= i < statuses.len() ==> statuses[i] == LoadStatus::InProgress || statuses[i]
                == LoadStatus::Other,
    ensures
        start.after_all(statuses) == start,
        start.history(statuses) == Seq::<Callback>::empty(),
    decreases statuses.len(),
{
    if statuses.len() > 0 {
        lemma_waiting_changes_nothing(start, statuses.drop_last());
    }
}

/// Once `Loaded` is reached the state stays `Loaded` whatever is reported
/// afterwards, and the entry chain does not run again.
pub proof fn lemma_loaded_is_final(start: Schedule, statuses: Seq<LoadStatus>)
    requires
        start.state == LoadingState::Loaded,
    ensures
        start.after_all(statuses) == start,
        start.history(statuses) == Seq::<Callback>::empty(),
    decreases statuses.len(),
{
    if statuses.len() > 0 {
        lemma_loaded_is_final(start, statuses.drop_last());
    }
}

/// A tick on which a live, unloaded application sees the status "loaded"
/// leaves the state `Loaded` and runs the entry chain, which creates the
/// scene root once; over any run from startup the spawn callback has run
/// once if the state is `Loaded` and never otherwise, and the flush stands
/// between it and the label callback.
pub proof fn lemma_scene_spawned_once(statuses: Seq<LoadStatus>)
    ensures
        ({
            let start = Schedule::startup();
            let end = start.after_all(statuses);
            let history = start.history(statuses);
            &&& start.after(LoadStatus::Loaded).state == LoadingState::Loaded
            &&& start.runs(LoadStatus::Loaded) == entry_chain()
            &&& times(entry_chain(), Callback::Spawn) == 1
            &&& end.state == LoadingState::Loaded ==> history == entry_chain() && !end.halted
            &&& end.state == LoadingState::Unloaded ==> history == Seq::<Callback>::empty()
            &&& times(history, Callback::Spawn) == if end.state == LoadingState::Loaded {
                1nat
            } else {
                0nat
            }
        }),
    decreases statuses.len(),
{
    let chain = entry_chain();
    assert(times(chain, Callback::Spawn) == 1) by {
        reveal_with_fuel(times, 4);
        assert(chain.drop_last() == seq![Callback::Spawn, Callback::Flush]);
        assert(chain.drop_last().drop_last() == seq![Callback::Spawn]);
        assert(chain.drop_last().drop_last().drop_last() == Seq::<Callback>::empty());
    }
    if statuses.len() > 0 {
        lemma_scene_spawned_once(statuses.drop_last());
        let start = Schedule::startup();
        let before = start.after_all(statuses.drop_last());
        let earlier = start.history(statuses.drop_last());
        assert(earlier + Seq::<Callback>::empty() == earlier);
        assert(Seq::<Callback>::empty() + chain == chain);
    }
}

/// A failed load terminates the process before any scene entity is created:
/// whenever a run from startup has halted, no callback of the entry chain
/// has run, and none runs afterwards.
pub proof fn lemma_failure_spawns_nothing(statuses: Seq<LoadStatus>, later: Seq<LoadStatus>)
    requires
        Schedule::startup().after_all(statuses).halted,
    ensures
        ({
            let start = Schedule::startup();
            let end = start.after_all(statuses);
            &&& end.state == LoadingState::Unloaded
            &&& start.history(statuses) == Seq::<Callback>::empty()
            &&& end.after_all(later) == end
            &&& end.history(later) == Seq::<Callback>::empty()
        }),
{
    let start = Schedule::startup();
    lemma_scene_spawned_once(statuses);
    lemma_halted_stays(start.after_all(statuses), later);
}

/// A halted application does nothing more.
pub proof fn lemma_halted_stays(start: Schedule, statuses: Seq<LoadStatus>)
    requires
        start.halted,
    ensures
        start.after_all(statuses) == start,
        start.history(statuses) == Seq::<Callback>::empty(),
    decreases statuses.len(),
{
    if statuses.len() > 0 {
        lemma_halted_stays(start, statuses.drop_last());
    }
}

} // verus!
