//! Setting up a watch: whether it can be had, and what backs it.

use crate::event::{InitFailure, WatchError};
use crate::poll::{dir_watcher, DirWatcher, PollConfig, PollPhase};
use vstd::prelude::*;

verus! {

/// The family of operating system that the watch runs on.
#[derive(Clone, Copy, Debug, PartialEq, Eq, Structural)]
pub enum Platform {
    Linux,
    /// Reports new entries unreliably.
    MacOs,
    Windows,
    Other,
}

/// What produces the events of a watch.
#[derive(Clone, Copy, Debug, PartialEq, Eq, Structural)]
pub enum WatchStrategy {
    /// The notifications of the operating system, passed on as they come.
    Native,
    /// Periodic listings of the directory, compared with one another.
    Polling,
}

impl WatchStrategy {
    /// Polling where the notifications for new entries cannot be relied on,
    /// the operating system's own notifications everywhere else.
    pub open spec fn for_platform(platform: Platform) -> WatchStrategy {
        if platform == Platform::MacOs {
            WatchStrategy::Polling
        } else {
            WatchStrategy::Native
        }
    }

    /// The strategy for a watch on `platform`.
    pub fn select(platform: Platform) -> (strategy: WatchStrategy)
        ensures
            strategy == WatchStrategy::for_platform(platform),
    {
        match platform {
            Platform::MacOs => WatchStrategy::Polling,
            _ => WatchStrategy::Native,
        }
    }
}

/// What was found at the path that is to be watched.
#[derive(Clone, Copy, Debug, PartialEq, Eq, Structural)]
pub struct WatchTarget {
    /// Something exists at the path.
    pub exists: bool,
    /// What exists there is a directory.
    pub is_directory: bool,
    /// The directory may be read.
    pub readable: bool,
}

/// Why `target` cannot be watched, if it cannot: the first of these that
/// holds. Nothing is there; it is not a directory; it may not be read.
pub open spec fn init_failure(target: WatchTarget) -> Option<InitFailure> {
    if !target.exists {
        Some(InitFailure::NotFound)
    } else if !target.is_directory {
        Some(InitFailure::NotADirectory)
    } else if !target.readable {
        Some(InitFailure::PermissionDenied)
    } else {
        None
    }
}

/// A watch that has been set up: the strategy that backs it, with the state
/// that the strategy keeps. Once chosen, the strategy stays.
#[derive(Debug)]
pub enum FileSystemWatcher {
    /// Backed by the operating system's notifications; nothing is kept.
    Native,
    /// Backed by a polling watcher.
    Polling(DirWatcher),
}

impl FileSystemWatcher {
    /// The strategy that backs the watch.
    pub open spec fn strategy_of(&self) -> WatchStrategy {
        match self {
            FileSystemWatcher::Native => WatchStrategy::Native,
            FileSystemWatcher::Polling(_) => WatchStrategy::Polling,
        }
    }

    /// Sets up a watch on a directory, given what was found at its path.
    ///
    /// Fails unless the path names a directory that may be read. Otherwise
    /// the watch is backed by the strategy that suits the platform; a
    /// polling watcher starts out before its first listing, with the pause
    /// that `config` gives.
    pub fn new(target: WatchTarget, platform: Platform, config: PollConfig) -> (watch: Result<
        FileSystemWatcher,
        WatchError,
    >)
        ensures
            match init_failure(target) {
                Some(reason) => watch == Err::<FileSystemWatcher, WatchError>(
                    WatchError::InitError(reason),
                ),
                None => watch matches Ok(w) && w.strategy_of() == WatchStrategy::for_platform(
                    platform,
                ) && (w matches FileSystemWatcher::Polling(poller) ==> poller@.phase
                    == PollPhase::Initialize && poller@.interval == config.interval
                    && poller@.cached.listing() == Seq::<Seq<char>>::empty()),
            },
    {
        if !target.exists {
            Err(WatchError::InitError(InitFailure::NotFound))
        } else if !target.is_directory {
            Err(WatchError::InitError(InitFailure::NotADirectory))
        } else if !target.readable {
            Err(WatchError::InitError(InitFailure::PermissionDenied))
        } else {
            match WatchStrategy::select(platform) {
                WatchStrategy::Native => Ok(FileSystemWatcher::Native),
                WatchStrategy::Polling => Ok(FileSystemWatcher::Polling(dir_watcher(config))),
            }
        }
    }

    /// Settles the watch once its backend has been started, or could not
    /// be: a watch whose backend refused it has failed to set up.
    pub fn started(self, accepted: bool) -> (watch: Result<FileSystemWatcher, WatchError>)
        ensures
            accepted ==> watch == Ok::<FileSystemWatcher, WatchError>(self),
            !accepted ==> watch == Err::<FileSystemWatcher, WatchError>(
                WatchError::InitError(InitFailure::Backend),
            ),
    {
        if accepted {
            Ok(self)
        } else {
            Err(WatchError::InitError(InitFailure::Backend))
        }
    }

    /// The strategy that backs the watch.
    pub fn strategy(&self) -> (strategy: WatchStrategy)
        ensures
            strategy == self.strategy_of(),
    {
        match self {
            FileSystemWatcher::Native => WatchStrategy::Native,
            FileSystemWatcher::Polling(_) => WatchStrategy::Polling,
        }
    }
}

} // verus!
