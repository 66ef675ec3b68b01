//! Watching a directory by listing it again and again.
//!
//! The watcher is a state machine. It asks for a first listing, which it
//! only keeps. From then on it asks in turn for a listing, which it runs a
//! cycle on, and for a pause. It never stops of its own accord, and whether
//! what it reported could be delivered does not concern it.

use crate::cycle::{cycle_cache, cycle_items, item_views, poll_cycle, ItemView, StreamItem};
use crate::snapshot::DirectorySnapshot;
use vstd::prelude::*;

verus! {

/// Seconds between two listings unless the configuration says otherwise.
pub const WAIT_TIME: u64 = 2;

/// How polling is set up.
#[derive(Clone, Copy, Debug, PartialEq, Eq, Structural)]
pub struct PollConfig {
    /// Seconds to pause between two cycles.
    pub interval: u64,
}

impl Default for PollConfig {
    fn default() -> (config: PollConfig)
        ensures
            config.interval == WAIT_TIME,
    {
        PollConfig { interval: WAIT_TIME }
    }
}

/// What a polling watcher is waiting for.
#[derive(Clone, Copy, Debug, PartialEq, Eq, Structural)]
pub enum PollPhase {
    /// The first listing, which only fills the kept snapshot.
    Initialize,
    /// A listing to compare with the kept snapshot.
    List,
    /// The end of the pause between two cycles.
    Sleep,
}

/// What a polling watcher asks its driver to do next.
#[derive(Clone, Copy, Debug, PartialEq, Eq, Structural)]
pub enum PollAction {
    /// List the directory and come back with the outcome.
    List,
    /// Pause for so many seconds and come back.
    Sleep(u64),
}

/// What the driver of a polling watcher comes back with.
#[derive(Debug)]
pub enum PollInput {
    /// The directory was listed, or could not be.
    Listed(Result<DirectorySnapshot, std::io::Error>),
    /// The pause is over.
    Woke,
}

/// What a step of a polling watcher comes to: the items to deliver, in
/// order, and what to do after that.
#[derive(Debug)]
pub struct PollStep {
    pub items: Vec<StreamItem>,
    pub next: PollAction,
}

/// The state of a polling watcher.
pub struct WatcherState {
    pub phase: PollPhase,
    pub interval: u64,
    pub cached: DirectorySnapshot,
}

/// The action that a watcher in state `state` is waiting on.
pub open spec fn awaited(state: WatcherState) -> PollAction {
    match state.phase {
        PollPhase::Initialize => PollAction::List,
        PollPhase::List => PollAction::List,
        PollPhase::Sleep => PollAction::Sleep(state.interval),
    }
}

/// Whether a watcher in state `pre` that meets `input` reports `items` and
/// goes on in state `post`.
///
/// The first listing fills the kept snapshot, with nothing where it failed,
/// and reports nothing. Every later listing is a cycle, followed by a
/// pause. The end of a pause leads to the next listing. An input that the
/// watcher is not waiting for changes nothing and reports nothing.
pub open spec fn steps_to(
    pre: WatcherState,
    input: PollInput,
    post: WatcherState,
    items: Seq<ItemView>,
) -> bool {
    &&& post.interval == pre.interval
    &&& match (pre.phase, input) {
        (PollPhase::Initialize, PollInput::Listed(listing)) => {
            &&& post.phase == PollPhase::List
            &&& match listing {
                Ok(first) => post.cached == first,
                Err(_) => post.cached.listing() == Seq::<Seq<char>>::empty(),
            }
            &&& items == Seq::<ItemView>::empty()
        },
        (PollPhase::List, PollInput::Listed(listing)) => {
            &&& post.phase == PollPhase::Sleep
            &&& post.cached == cycle_cache(pre.cached, listing)
            &&& items == cycle_items(pre.cached, listing)
        },
        (PollPhase::Sleep, PollInput::Woke) => {
            &&& post.phase == PollPhase::List
            &&& post.cached == pre.cached
            &&& items == Seq::<ItemView>::empty()
        },
        _ => post == pre && items == Seq::<ItemView>::empty(),
    }
}

/// A directory watcher that polls: the snapshot kept from the last listing
/// that succeeded, the pause between cycles, and what it is waiting for.
///
/// It performs no listing and no pause itself. Its driver does what
/// `pending` or the last step asked for and reports back through `step`.
#[derive(Debug)]
pub struct DirWatcher {
    cached: DirectorySnapshot,
    interval: u64,
    phase: PollPhase,
}

impl View for DirWatcher {
    type V = WatcherState;

    closed spec fn view(&self) -> WatcherState {
        WatcherState { phase: self.phase, interval: self.interval, cached: self.cached }
    }
}

impl DirWatcher {
    /// What the watcher is waiting for.
    pub fn phase(&self) -> (phase: PollPhase)
        ensures
            phase == self@.phase,
    {
        self.phase
    }

    /// Seconds of pause between two cycles.
    pub fn interval(&self) -> (interval: u64)
        ensures
            interval == self@.interval,
    {
        self.interval
    }

    /// The snapshot kept from the last listing that succeeded.
    pub fn cached(&self) -> (cached: &DirectorySnapshot)
        ensures
            *cached == self@.cached,
            cached.wf(),
    {
        proof {
            use_type_invariant(&self.cached);
        }
        &self.cached
    }

    /// What the driver is to do before it comes back.
    pub fn pending(&self) -> (action: PollAction)
        ensures
            action == awaited(self@),
    {
        match self.phase {
            PollPhase::Initialize => PollAction::List,
            PollPhase::List => PollAction::List,
            PollPhase::Sleep => PollAction::Sleep(self.interval),
        }
    }

    /// Takes what the driver came back with, and says what to deliver and
    /// what to do next.
    pub fn step(&mut self, input: PollInput) -> (step: PollStep)
        ensures
            steps_to(old(self)@, input, final(self)@, item_views(step.items@)),
            step.next == awaited(final(self)@),
            final(self)@.cached.wf(),
    {
        proof {
            use_type_invariant(&self.cached);
        }
        let mut items: Vec<StreamItem> = Vec::new();
        assert(item_views(items@) =~= Seq::<ItemView>::empty());
        match (self.phase, input) {
            (PollPhase::Initialize, PollInput::Listed(listing)) => {
                match listing {
                    Ok(first) => {
                        proof {
                            use_type_invariant(&first);
                        }
                        self.cached = first;
                    },
                    Err(_) => {
                        self.cached = DirectorySnapshot::new();
                    },
                }
                self.phase = PollPhase::List;
            },
            (PollPhase::List, PollInput::Listed(listing)) => {
                items = poll_cycle(&mut self.cached, listing);
                self.phase = PollPhase::Sleep;
            },
            (PollPhase::Sleep, PollInput::Woke) => {
                self.phase = PollPhase::List;
            },
            _ => {},
        }
        let next = self.pending();
        PollStep { items, next }
    }
}

/// A polling watcher that has not listed its directory yet.
pub fn dir_watcher(config: PollConfig) -> (watcher: DirWatcher)
    ensures
        watcher@.phase == PollPhase::Initialize,
        watcher@.interval == config.interval,
        watcher@.cached.listing() == Seq::<Seq<char>>::empty(),
        awaited(watcher@) == PollAction::List,
{
    DirWatcher {
        cached: DirectorySnapshot::new(),
        interval: config.interval,
        phase: PollPhase::Initialize,
    }
}

} // verus!
