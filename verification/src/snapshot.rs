//! The entries of a directory at one instant.

use crate::event::path_views;
use vstd::prelude::*;

verus! {

/// The paths of `listing` that `excluded` does not hold, in the order of
/// `listing`.
pub open spec fn absent_from(listing: Seq<Seq<char>>, excluded: Set<Seq<char>>) -> Seq<Seq<char>> {
    listing.filter(|p: Seq<char>| !excluded.contains(p))
}

/// `paths` without the later occurrences of a path that occurs more than
/// once.
pub open spec fn first_occurrences(paths: Seq<Seq<char>>) -> Seq<Seq<char>>
    decreases paths.len(),
{
    if paths.len() == 0 {
        paths
    } else if paths.drop_last().contains(paths.last()) {
        first_occurrences(paths.drop_last())
    } else {
        first_occurrences(paths.drop_last()).push(paths.last())
    }
}

/// Dropping repeated paths leaves every path once and loses none.
pub proof fn lemma_first_occurrences(paths: Seq<Seq<char>>)
    ensures
        first_occurrences(paths).no_duplicates(),
        first_occurrences(paths).to_set() == paths.to_set(),
        first_occurrences(paths).len() <= paths.len(),
    decreases paths.len(),
{
    if paths.len() > 0 {
        let front = paths.drop_last();
        let last = paths.last();
        lemma_first_occurrences(front);
        lemma_push_to_set(front, last);
        lemma_push_to_set(first_occurrences(front), last);
        assert(paths == front.push(last));
        assert(front.contains(last) <==> first_occurrences(front).to_set().contains(last));
    }
}

/// What is left of a listing without repetitions, once the paths of
/// `excluded` are taken out, is the set difference, again without repetitions.
pub proof fn lemma_absent_from(listing: Seq<Seq<char>>, excluded: Set<Seq<char>>)
    requires
        listing.no_duplicates(),
    ensures
        absent_from(listing, excluded).no_duplicates(),
        absent_from(listing, excluded).to_set() == listing.to_set().difference(excluded),
        absent_from(listing, excluded).len() <= listing.len(),
    decreases listing.len(),
{
    if listing.len() == 0 {
        reveal(Seq::filter);
    } else {
        let front = listing.drop_last();
        let last = listing.last();
        lemma_absent_from(front, excluded);
        lemma_push_to_set(front, last);
        lemma_push_to_set(absent_from(front, excluded), last);
        front.lemma_filter_push(last, |p: Seq<char>| !excluded.contains(p));
        assert(listing == front.push(last));
        assert(!absent_from(front, excluded).to_set().contains(last));
    }
}

/// The paths of a list that was extended by one are those of the list and
/// the one.
proof fn lemma_push_to_set(paths: Seq<Seq<char>>, last: Seq<char>)
    ensures
        paths.push(last).to_set() == paths.to_set().insert(last),
{
    let longer = paths.push(last);
    assert forall|p: Seq<char>| longer.to_set().contains(p) <==> paths.to_set().insert(
        last,
    ).contains(p) by {
        if paths.contains(p) {
            let i = choose|i: int| 0 <= i < paths.len() && paths[i] == p;
            assert(longer[i] == p);
        }
        if p == last {
            assert(longer[paths.len() as int] == p);
        }
    }
}

/// The immediate entries of a directory as it was listed once: a set of
/// paths, kept in the order of the listing.
#[derive(Debug)]
pub struct DirectorySnapshot {
    entries: Vec<String>,
}

impl View for DirectorySnapshot {
    type V = Set<Seq<char>>;

    open spec fn view(&self) -> Set<Seq<char>> {
        self.listing().to_set()
    }
}

impl DirectorySnapshot {
    /// The entries, each once, in the order in which the listing gave them.
    pub closed spec fn listing(&self) -> Seq<Seq<char>> {
        path_views(self.entries@)
    }

    /// No path is held twice.
    #[verifier::type_invariant]
    pub open spec fn wf(&self) -> bool {
        self.listing().no_duplicates()
    }

    /// The snapshot of a directory without entries.
    pub fn new() -> (snapshot: DirectorySnapshot)
        ensures
            snapshot.wf(),
            snapshot.listing() == Seq::<Seq<char>>::empty(),
            snapshot@ == Set::<Seq<char>>::empty(),
    {
        DirectorySnapshot { entries: Vec::new() }
    }

    /// The snapshot that holds each of `paths` once.
    pub fn from_paths(paths: Vec<String>) -> (snapshot: DirectorySnapshot)
        ensures
            snapshot.wf(),
            snapshot.listing() == first_occurrences(path_views(paths@)),
            snapshot@ == path_views(paths@).to_set(),
    {
        let ghost all = path_views(paths@);
        let mut entries: Vec<String> = Vec::new();
        let mut i: usize = 0;
        while i < paths.len()
            invariant
                i <= paths.len(),
                all == path_views(paths@),
                path_views(entries@) == first_occurrences(all.take(i as int)),
            decreases paths.len() - i,
        {
            proof {
                let seen = all.take(i as int);
                let kept = path_views(entries@);
                lemma_first_occurrences(seen);
                assert(all.take(i as int + 1).drop_last() =~= seen);
                assert(kept.to_set().contains(paths@[i as int]@) <==> kept.contains(
                    paths@[i as int]@,
                ));
            }
            if !holds_path(&entries, &paths[i]) {
                entries.push(paths[i].clone());
            }
            i += 1;
        }
        proof {
            assert(all.take(i as int) =~= all);
            lemma_first_occurrences(all);
        }
        DirectorySnapshot { entries }
    }

    /// The entries, each once, in the order of the listing.
    pub fn paths(&self) -> (paths: &Vec<String>)
        ensures
            path_views(paths@) == self.listing(),
            path_views(paths@).no_duplicates(),
    {
        proof {
            use_type_invariant(self);
        }
        &self.entries
    }

    /// Whether `path` is one of the entries.
    pub fn contains(&self, path: &String) -> (found: bool)
        ensures
            found == self@.contains(path@),
    {
        holds_path(&self.entries, path)
    }

    /// The entries that `other` does not hold, in the order of the listing.
    pub fn difference(&self, other: &DirectorySnapshot) -> (paths: Vec<String>)
        ensures
            path_views(paths@) == absent_from(self.listing(), other@),
            path_views(paths@).no_duplicates(),
            path_views(paths@).to_set() == self@.difference(other@),
    {
        proof {
            use_type_invariant(self);
            lemma_absent_from(self.listing(), other@);
            reveal(Seq::filter);
        }
        let ghost listing = self.listing();
        let mut paths: Vec<String> = Vec::new();
        let mut i: usize = 0;
        while i < self.entries.len()
            invariant
                i <= self.entries.len(),
                listing == path_views(self.entries@),
                path_views(paths@) == absent_from(listing.take(i as int), other@),
            decreases self.entries.len() - i,
        {
            proof {
                let seen = listing.take(i as int);
                let next = self.entries@[i as int]@;
                assert(listing.take(i as int + 1) =~= seen.push(next));
                seen.lemma_filter_push(next, |p: Seq<char>| !other@.contains(p));
            }
            if !other.contains(&self.entries[i]) {
                paths.push(self.entries[i].clone());
            }
            i += 1;
        }
        assert(listing.take(i as int) =~= listing);
        paths
    }
}

/// Turns the outcome of reading a directory into the outcome of a listing:
/// the paths that were read become a snapshot, a failure is passed on.
pub fn get_dir_list(entries: Result<Vec<String>, std::io::Error>) -> (listing: Result<
    DirectorySnapshot,
    std::io::Error,
>)
    ensures
        match entries {
            Ok(paths) => listing matches Ok(snapshot) && snapshot.wf() && snapshot.listing()
                == first_occurrences(path_views(paths@)) && snapshot@ == path_views(
                paths@,
            ).to_set(),
            Err(failure) => listing == Err::<DirectorySnapshot, std::io::Error>(failure),
        },
{
    match entries {
        Ok(paths) => Ok(DirectorySnapshot::from_paths(paths)),
        Err(failure) => Err(failure),
    }
}

/// Whether one of `entries` reads as `path` does.
fn holds_path(entries: &Vec<String>, path: &String) -> (found: bool)
    ensures
        found == path_views(entries@).contains(path@),
{
    let mut i: usize = 0;
    while i < entries.len()
        invariant
            i <= entries.len(),
            forall|j: int| 0 <= j < i ==> path_views(entries@)[j] != path@,
        decreases entries.len() - i,
    {
        if entries[i] == *path {
            assert(path_views(entries@)[i as int] == path@);
            return true;
        }
        i += 1;
    }
    false
}

} // verus!
