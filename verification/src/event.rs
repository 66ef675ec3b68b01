//! Events and errors as a watch reports them.

use vstd::prelude::*;

verus! {

/// `std::io::Error`, carried through unexamined: nothing is claimed of what
/// such a value holds.
#[verifier::external_type_specification]
#[verifier::external_body]
pub struct ExIoError(std::io::Error);

/// What happened to the paths that an event names.
#[derive(Clone, Copy, Debug, PartialEq, Eq, Structural)]
pub enum EventKind {
    /// The paths appeared in the directory.
    Create,
    /// The paths vanished from the directory.
    Remove,
    /// Any other change; never synthesized by polling.
    Other,
}

impl EventKind {
    /// Whether this is the kind of an event for entries that appeared.
    pub fn is_create(&self) -> (b: bool)
        ensures
            b == (*self == EventKind::Create),
    {
        matches!(self, EventKind::Create)
    }

    /// Whether this is the kind of an event for entries that vanished.
    pub fn is_remove(&self) -> (b: bool)
        ensures
            b == (*self == EventKind::Remove),
    {
        matches!(self, EventKind::Remove)
    }
}

/// The contents of a list of paths, each path as its sequence of characters.
pub open spec fn path_views(paths: Seq<String>) -> Seq<Seq<char>> {
    paths.map_values(|p: String| p@)
}

/// What an event says: its kind and, in order, the paths it names.
pub struct EventView {
    pub kind: EventKind,
    pub paths: Seq<Seq<char>>,
}

/// One change notification: a kind and a non-empty list of paths.
#[derive(Debug, PartialEq, Eq)]
pub struct WatchEvent {
    kind: EventKind,
    paths: Vec<String>,
}

impl View for WatchEvent {
    type V = EventView;

    closed spec fn view(&self) -> EventView {
        EventView { kind: self.kind, paths: path_views(self.paths@) }
    }
}

impl WatchEvent {
    /// An event names at least one path.
    #[verifier::type_invariant]
    pub closed spec fn wf(&self) -> bool {
        self.paths@.len() > 0
    }

    /// Builds the event of the given kind for `paths`, or nothing at all
    /// when there are no paths to report.
    pub fn new(kind: EventKind, paths: Vec<String>) -> (event: Option<WatchEvent>)
        ensures
            paths@.len() == 0 <==> event is None,
            event matches Some(e) ==> e.wf() && e@ == (EventView {
                kind,
                paths: path_views(paths@),
            }),
    {
        if paths.len() == 0 {
            None
        } else {
            Some(WatchEvent { kind, paths })
        }
    }

    /// What happened to the paths.
    pub fn kind(&self) -> (kind: EventKind)
        ensures
            kind == self@.kind,
    {
        self.kind
    }

    /// The paths that the event names, in order; at least one.
    pub fn paths(&self) -> (paths: &Vec<String>)
        ensures
            path_views(paths@) == self@.paths,
            paths@.len() > 0,
    {
        proof {
            use_type_invariant(self);
        }
        &self.paths
    }

    /// Gives up the event for the paths it names.
    pub fn into_paths(self) -> (paths: Vec<String>)
        ensures
            path_views(paths@) == self@.paths,
            paths@.len() > 0,
    {
        proof {
            use_type_invariant(&self);
        }
        self.paths
    }
}

/// Why a watch could not be set up.
#[derive(Clone, Copy, Debug, PartialEq, Eq, Structural)]
pub enum InitFailure {
    /// Nothing exists at the path.
    NotFound,
    /// The path exists and is not a directory.
    NotADirectory,
    /// The directory may not be read.
    PermissionDenied,
    /// The operating system's notification facility refused the watch.
    Backend,
}

/// What can go wrong with a watch.
#[derive(Debug)]
pub enum WatchError {
    /// The watch never became live.
    InitError(InitFailure),
    /// One listing of the directory failed; the watch goes on.
    ListError(std::io::Error),
}

} // verus!
