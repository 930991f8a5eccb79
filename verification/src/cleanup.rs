//! Which working folders are old enough to be removed.
//!
//! The folders themselves are looked at and removed elsewhere; decided here
//! is which of them are due.

use vstd::prelude::*;

verus! {

/// Seconds between two sweeps of the working directory.
pub const CLEANUP_INTERVAL_SECS: u64 = 900;

/// Seconds after which a working folder is removed.
pub const MAX_FOLDER_AGE_SECS: u64 = 3600;

/// What is known of an entry of the working directory.
#[derive(Clone, Copy, Debug, PartialEq, Eq, Structural)]
pub struct FolderEntry {
    /// Whether the entry is a directory.
    pub is_dir: bool,
    /// The second at which it was last changed, where that can be told.
    pub modified: Option<u64>,
}

/// Seconds since the entry was last changed; zero for a change in the future.
pub open spec fn age(now: u64, modified: u64) -> int {
    if now >= modified {
        now - modified
    } else {
        0
    }
}

/// True for a directory that was last changed more than `max_age` seconds ago.
pub open spec fn is_stale(entry: FolderEntry, now: u64, max_age: u64) -> bool {
    entry.is_dir && (entry.modified matches Some(modified) && age(now, modified) > max_age)
}

/// The places of the entries that are due for removal, in order.
pub open spec fn stale_places(entries: Seq<FolderEntry>, now: u64, max_age: u64) -> Seq<int>
    decreases entries.len(),
{
    if entries.len() == 0 {
        Seq::empty()
    } else {
        let rest = stale_places(entries.drop_last(), now, max_age);
        if is_stale(entries.last(), now, max_age) {
            rest.push(entries.len() - 1)
        } else {
            rest
        }
    }
}

/// The places in a list, as numbers.
pub open spec fn places(list: Seq<usize>) -> Seq<int> {
    Seq::new(list.len(), |i: int| list[i] as int)
}

/// True for a directory that was last changed more than `max_age` seconds ago.
pub fn cleanup_folder(entry: &FolderEntry, now: u64, max_age_seconds: u64) -> (due: bool)
    ensures
        due == is_stale(*entry, now, max_age_seconds),
{
    if !entry.is_dir {
        return false;
    }
    match entry.modified {
        Some(modified) => now.saturating_sub(modified) > max_age_seconds,
        None => false,
    }
}

/// The places of the entries of the working directory that are due for removal.
pub fn cleanup_old_folders(entries: &Vec<FolderEntry>, now: u64, max_age_seconds: u64) -> (due: Vec<
    usize,
>)
    ensures
        places(due@) == stale_places(entries@, now, max_age_seconds),
{
    let mut due: Vec<usize> = Vec::new();
    let mut i: usize = 0;
    assert(entries@.take(0) =~= Seq::<FolderEntry>::empty());
    assert(places(due@) =~= Seq::<int>::empty());
    while i < entries.len()
        invariant
            0 <= i <= entries@.len(),
            places(due@) == stale_places(entries@.take(i as int), now, max_age_seconds),
        decreases entries@.len() - i,
    {
        let ghost longer = entries@.take(i + 1);
        assert(longer.drop_last() =~= entries@.take(i as int));
        assert(longer.last() == entries@[i as int]);
        let ghost before = due@;
        if cleanup_folder(&entries[i], now, max_age_seconds) {
            due.push(i);
            assert(places(due@) =~= places(before).push(i as int));
        }
        i = i + 1;
    }
    assert(entries@.take(i as int) =~= entries@);
    due
}

} // verus!
