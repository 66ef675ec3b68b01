//! One cycle of polling: a fresh listing against the one kept before it.
//!
//! All entries that appeared are reported in one `Create` event, all that
//! vanished in one `Remove` event, the creations first. What did not change
//! is not reported. The fresh listing then takes the place of the kept one.
//! A listing that failed is reported as an error and leaves the kept one as
//! it was.

use crate::event::{path_views, EventKind, EventView, WatchError, WatchEvent};
use crate::snapshot::{absent_from, lemma_absent_from, DirectorySnapshot};
use vstd::prelude::*;

verus! {

/// What a watch hands to its consumer.
pub type StreamItem = Result<WatchEvent, WatchError>;

/// What an item says to the reader of a contract.
pub type ItemView = Result<EventView, WatchError>;

/// What an item says: an event by its view, an error as it is.
pub open spec fn item_view(item: StreamItem) -> ItemView {
    match item {
        Ok(event) => Ok(event@),
        Err(error) => Err(error),
    }
}

/// What a run of items says, item by item.
pub open spec fn item_views(items: Seq<StreamItem>) -> Seq<ItemView> {
    items.map_values(|item: StreamItem| item_view(item))
}

/// The event that reports `paths` under `kind`: none where there is no path.
pub open spec fn report(kind: EventKind, paths: Seq<Seq<char>>) -> Option<EventView> {
    if paths.len() == 0 {
        None
    } else {
        Some(EventView { kind, paths })
    }
}

/// The items that carry an event, if there is one.
pub open spec fn as_items(event: Option<EventView>) -> Seq<ItemView> {
    match event {
        Some(e) => seq![Ok(e)],
        None => Seq::empty(),
    }
}

/// The entries of `current` that `cached` lacks, in the order of `current`.
pub open spec fn created_paths(cached: DirectorySnapshot, current: DirectorySnapshot) -> Seq<
    Seq<char>,
> {
    absent_from(current.listing(), cached@)
}

/// The entries of `cached` that `current` lacks, in the order of `cached`.
pub open spec fn removed_paths(cached: DirectorySnapshot, current: DirectorySnapshot) -> Seq<
    Seq<char>,
> {
    absent_from(cached.listing(), current@)
}

/// What a cycle reports when the listing `current` follows `cached`: the
/// creations, if any, and then the removals, if any.
pub open spec fn diff_items(cached: DirectorySnapshot, current: DirectorySnapshot) -> Seq<
    ItemView,
> {
    as_items(report(EventKind::Create, created_paths(cached, current))) + as_items(
        report(EventKind::Remove, removed_paths(cached, current)),
    )
}

/// What a cycle reports, given the outcome of its listing.
pub open spec fn cycle_items(
    cached: DirectorySnapshot,
    listing: Result<DirectorySnapshot, std::io::Error>,
) -> Seq<ItemView> {
    match listing {
        Ok(current) => diff_items(cached, current),
        Err(failure) => seq![Err(WatchError::ListError(failure))],
    }
}

/// What a cycle keeps for the next one, given the outcome of its listing.
pub open spec fn cycle_cache(
    cached: DirectorySnapshot,
    listing: Result<DirectorySnapshot, std::io::Error>,
) -> DirectorySnapshot {
    match listing {
        Ok(current) => current,
        Err(_) => cached,
    }
}

/// What is kept after a run of cycles that starts from `cached` and meets
/// the listing outcomes `listings` in turn.
pub open spec fn cache_after(
    cached: DirectorySnapshot,
    listings: Seq<Result<DirectorySnapshot, std::io::Error>>,
) -> DirectorySnapshot
    decreases listings.len(),
{
    if listings.len() == 0 {
        cached
    } else {
        cycle_cache(cache_after(cached, listings.drop_last()), listings.last())
    }
}

/// The event for the entries that appeared since the last listing; none if
/// nothing appeared.
pub fn handle_creates(paths: Vec<String>) -> (event: Option<WatchEvent>)
    ensures
        match event {
            Some(e) => report(EventKind::Create, path_views(paths@)) == Some(e@),
            None => paths@.len() == 0,
        },
{
    WatchEvent::new(EventKind::Create, paths)
}

/// The event for the entries that vanished since the last listing; none if
/// nothing vanished.
pub fn handle_deletes(paths: Vec<String>) -> (event: Option<WatchEvent>)
    ensures
        match event {
            Some(e) => report(EventKind::Remove, path_views(paths@)) == Some(e@),
            None => paths@.len() == 0,
        },
{
    WatchEvent::new(EventKind::Remove, paths)
}

/// Compares the listing `current` with `cached`, the one before it.
pub fn diff(cached: &DirectorySnapshot, current: &DirectorySnapshot) -> (items: Vec<StreamItem>)
    ensures
        item_views(items@) == diff_items(*cached, *current),
{
    let mut items: Vec<StreamItem> = Vec::new();
    match handle_creates(current.difference(cached)) {
        Some(event) => {
            items.push(Ok(event));
        },
        None => {},
    }
    match handle_deletes(cached.difference(current)) {
        Some(event) => {
            items.push(Ok(event));
        },
        None => {},
    }
    items
}

/// Runs one cycle on the outcome of its listing: says what to report and
/// replaces the kept listing by the fresh one, if there is one.
pub fn poll_cycle(
    cached: &mut DirectorySnapshot,
    listing: Result<DirectorySnapshot, std::io::Error>,
) -> (items: Vec<StreamItem>)
    ensures
        item_views(items@) == cycle_items(*old(cached), listing),
        *final(cached) == cycle_cache(*old(cached), listing),
        final(cached).wf(),
{
    proof {
        use_type_invariant(&*cached);
    }
    match listing {
        Ok(current) => {
            proof {
                use_type_invariant(&current);
            }
            let items = diff(cached, &current);
            *cached = current;
            items
        },
        Err(failure) => {
            let mut items: Vec<StreamItem> = Vec::new();
            items.push(Err(WatchError::ListError(failure)));
            items
        },
    }
}

/// The created paths are the fresh listing's entries without the kept ones,
/// the removed paths the kept entries without the fresh ones; neither names
/// a path twice.
pub proof fn lemma_diff_paths(cached: DirectorySnapshot, current: DirectorySnapshot)
    requires
        cached.wf(),
        current.wf(),
    ensures
        created_paths(cached, current).to_set() == current@.difference(cached@),
        created_paths(cached, current).no_duplicates(),
        removed_paths(cached, current).to_set() == cached@.difference(current@),
        removed_paths(cached, current).no_duplicates(),
{
    lemma_absent_from(current.listing(), cached@);
    lemma_absent_from(cached.listing(), current@);
}

/// Entries that only appear: where the fresh listing holds all that was
/// kept and, beyond it, the paths `added`, of which there is at least one,
/// the cycle reports a single `Create` event whose paths are exactly
/// `added`, and no `Remove` event.
pub proof fn lemma_additions_give_one_create(
    cached: DirectorySnapshot,
    current: DirectorySnapshot,
    added: Set<Seq<char>>,
)
    requires
        cached.wf(),
        current.wf(),
        cached@.disjoint(added),
        current@ == cached@.union(added),
        exists|p: Seq<char>| added.contains(p),
    ensures
        diff_items(cached, current) == seq![
            Ok::<EventView, WatchError>(
                EventView { kind: EventKind::Create, paths: created_paths(cached, current) },
            ),
        ],
        created_paths(cached, current).to_set() == added,
        created_paths(cached, current).no_duplicates(),
{
    lemma_diff_paths(cached, current);
    let removed = removed_paths(cached, current);
    assert(current@.difference(cached@) =~= added);
    if removed.len() > 0 {
        assert(removed.to_set().contains(removed[0]));
    }
}

/// Entries that only vanish: where the fresh listing holds what was kept
/// but for the paths `removed`, all of which were kept and of which there is
/// at least one, the cycle reports a single `Remove` event whose paths are
/// exactly `removed`, and no `Create` event.
pub proof fn lemma_removals_give_one_remove(
    cached: DirectorySnapshot,
    current: DirectorySnapshot,
    removed: Set<Seq<char>>,
)
    requires
        cached.wf(),
        current.wf(),
        removed.subset_of(cached@),
        current@ == cached@.difference(removed),
        exists|p: Seq<char>| removed.contains(p),
    ensures
        diff_items(cached, current) == seq![
            Ok::<EventView, WatchError>(
                EventView { kind: EventKind::Remove, paths: removed_paths(cached, current) },
            ),
        ],
        removed_paths(cached, current).to_set() == removed,
        removed_paths(cached, current).no_duplicates(),
{
    lemma_diff_paths(cached, current);
    let created = created_paths(cached, current);
    assert(cached@.difference(current@) =~= removed);
    if created.len() > 0 {
        assert(created.to_set().contains(created[0]));
    }
}

/// Nothing changed, nothing said: where the fresh listing holds the same
/// paths as the kept one, in whatever order, the cycle reports nothing.
pub proof fn lemma_no_change_no_event(cached: DirectorySnapshot, current: DirectorySnapshot)
    requires
        cached.wf(),
        current.wf(),
        current@ == cached@,
    ensures
        diff_items(cached, current) == Seq::<ItemView>::empty(),
{
    lemma_diff_paths(cached, current);
    let created = created_paths(cached, current);
    let removed = removed_paths(cached, current);
    if created.len() > 0 {
        assert(created.to_set().contains(created[0]));
    }
    if removed.len() > 0 {
        assert(removed.to_set().contains(removed[0]));
    }
}

/// What is kept is the latest listing that succeeded, never a mixture and
/// never an older one: after a run of cycles in which the listing at
/// position `latest` succeeded and every later one failed, the kept
/// snapshot is that listing.
pub proof fn lemma_cache_is_latest_listing(
    cached: DirectorySnapshot,
    listings: Seq<Result<DirectorySnapshot, std::io::Error>>,
    latest: int,
)
    requires
        0 <= latest < listings.len(),
        listings[latest] is Ok,
        forall|j: int| latest < j < listings.len() ==> listings[j] is Err,
    ensures
        cache_after(cached, listings) == listings[latest]->Ok_0,
    decreases listings.len(),
{
    if latest < listings.len() - 1 {
        lemma_cache_is_latest_listing(cached, listings.drop_last(), latest);
    }
}

/// Until a listing succeeds, what is kept stays what it was.
pub proof fn lemma_cache_survives_failures(
    cached: DirectorySnapshot,
    listings: Seq<Result<DirectorySnapshot, std::io::Error>>,
)
    requires
        forall|j: int| 0 <= j < listings.len() ==> listings[j] is Err,
    ensures
        cache_after(cached, listings) == cached,
    decreases listings.len(),
{
    if listings.len() > 0 {
        lemma_cache_survives_failures(cached, listings.drop_last());
    }
}

/// A listing that fails is reported as exactly one `ListError` item and
/// leaves the kept snapshot untouched, so that the cycle after it reports
/// what it would have reported had the failure not happened.
pub proof fn lemma_failure_is_reported_and_skipped(
    cached: DirectorySnapshot,
    failure: std::io::Error,
    next: Result<DirectorySnapshot, std::io::Error>,
)
    ensures
        cycle_items(cached, Err(failure)) == seq![
            Err::<EventView, WatchError>(WatchError::ListError(failure)),
        ],
        cycle_cache(cached, Err(failure)) == cached,
        cycle_items(cycle_cache(cached, Err(failure)), next) == cycle_items(cached, next),
        cycle_cache(cycle_cache(cached, Err(failure)), next) == cycle_cache(cached, next),
{
}

/// No path is reported twice: once a listing has been compared, a listing
/// of the same paths right after it reports nothing.
pub proof fn lemma_reported_once(
    cached: DirectorySnapshot,
    current: DirectorySnapshot,
    again: DirectorySnapshot,
)
    requires
        current.wf(),
        again.wf(),
        again@ == current@,
    ensures
        cycle_items(cycle_cache(cached, Ok(current)), Ok(again)) == Seq::<ItemView>::empty(),
{
    lemma_no_change_no_event(current, again);
}

} // verus!
