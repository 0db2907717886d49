//! The sweep of the work directory: which staging files have outlived their
//! time and are deleted.

use vstd::prelude::*;
use crate::filepath::{
    has_staging_extension, in_file_name, is_staging_name, out_file_name,
    staged_files_have_staging_names,
};

verus! {

/// Seconds between two sweeps.
pub const SWEEP_INTERVAL: u64 = 60;

/// Nanoseconds in a second.
pub const NANOS_PER_SEC: u128 = 1_000_000_000;

/// What a sweep reads of one entry of the work directory.
#[derive(Clone, Debug, PartialEq, Eq)]
pub struct DirEntry {
    /// The entry's file name, without the directory.
    pub name: String,
    /// Whether the entry is a regular file.
    pub is_file: bool,
    /// When the entry was last modified, in nanoseconds since the epoch;
    /// `None` where that could not be read.
    pub modified: Option<u128>,
}

/// Whether a sweep at time `now` (in nanoseconds since the epoch) deletes the
/// entry: it is a regular file with the staging extension, and was last
/// modified more than `ttl` seconds ago. An entry whose time of modification
/// is unknown or lies in the future stays.
pub open spec fn is_stale(entry: DirEntry, now: u128, ttl: u64) -> bool {
    &&& entry.is_file
    &&& is_staging_name(entry.name@)
    &&& entry.modified matches Some(modified)
    &&& modified <= now
    &&& now - modified > ttl * NANOS_PER_SEC
}

/// What a sweep leaves of a directory: the entries that are not stale, in
/// their order.
pub open spec fn remaining(entries: Seq<DirEntry>, now: u128, ttl: u64) -> Seq<DirEntry>
    decreases entries.len(),
{
    if entries.len() == 0 {
        entries
    } else if is_stale(entries.last(), now, ttl) {
        remaining(entries.drop_last(), now, ttl)
    } else {
        remaining(entries.drop_last(), now, ttl).push(entries.last())
    }
}

/// What a sweep deletes: the positions of the stale entries, in rising order.
pub open spec fn stale_positions(entries: Seq<DirEntry>, now: u128, ttl: u64) -> Seq<usize>
    decreases entries.len(),
{
    if entries.len() == 0 {
        Seq::<usize>::empty()
    } else if is_stale(entries.last(), now, ttl) {
        stale_positions(entries.drop_last(), now, ttl).push((entries.len() - 1) as usize)
    } else {
        stale_positions(entries.drop_last(), now, ttl)
    }
}

/// Decides whether a sweep at time `now` deletes `entry`.
pub fn is_expired(entry: &DirEntry, now: u128, ttl: u64) -> (stale: bool)
    ensures
        stale == is_stale(*entry, now, ttl),
{
    if !entry.is_file {
        return false;
    }
    match entry.modified {
        Some(modified) => {
            if modified > now {
                return false;
            }
            let age: u128 = now - modified;
            let limit: u128 = (ttl as u128) * NANOS_PER_SEC;
            age > limit && has_staging_extension(entry.name.as_str())
        },
        None => false,
    }
}

/// Picks the entries of the work directory that a sweep at time `now`
/// deletes, by their positions in `entries`.
pub fn cleanup_directory(entries: &Vec<DirEntry>, now: u128, ttl: u64) -> (doomed: Vec<usize>)
    ensures
        doomed@ == stale_positions(entries@, now, ttl),
{
    let mut doomed: Vec<usize> = Vec::new();
    let mut i: usize = 0;
    while i < entries.len()
        invariant
            i <= entries.len(),
            doomed@ == stale_positions(entries@.take(i as int), now, ttl),
        decreases entries.len() - i,
    {
        proof {
            assert(entries@.take(i + 1).drop_last() =~= entries@.take(i as int));
        }
        if is_expired(&entries[i], now, ttl) {
            doomed.push(i);
        }
        i += 1;
    }
    proof {
        assert(entries@.take(i as int) =~= entries@);
    }
    doomed
}

/// A sweep deletes exactly the stale files: a position is among those it
/// picks if and only if the entry there is stale, each position is picked
/// once, and they come in rising order.
pub proof fn sweep_takes_exactly_the_stale(entries: Seq<DirEntry>, now: u128, ttl: u64)
    requires
        entries.len() <= usize::MAX,
    ensures
        forall|k: int|
            0 <= k < stale_positions(entries, now, ttl).len() ==> {
                &&& (#[trigger] stale_positions(entries, now, ttl)[k]) < entries.len()
                &&& is_stale(entries[stale_positions(entries, now, ttl)[k] as int], now, ttl)
            },
        forall|i: int|
            0 <= i < entries.len() && is_stale(#[trigger] entries[i], now, ttl) ==> stale_positions(
                entries,
                now,
                ttl,
            ).contains(i as usize),
        forall|j: int, k: int|
            0 <= j < k < stale_positions(entries, now, ttl).len() ==> stale_positions(
                entries,
                now,
                ttl,
            )[j] < stale_positions(entries, now, ttl)[k],
    decreases entries.len(),
{
    if entries.len() > 0 {
        let front = entries.drop_last();
        sweep_takes_exactly_the_stale(front, now, ttl);
        let before = stale_positions(front, now, ttl);
        let all = stale_positions(entries, now, ttl);
        assert forall|k: int| 0 <= k < all.len() implies {
            &&& (#[trigger] all[k]) < entries.len()
            &&& is_stale(entries[all[k] as int], now, ttl)
        } by {}
        assert forall|i: int|
            0 <= i < entries.len() && is_stale(#[trigger] entries[i], now, ttl) implies all.contains(
            i as usize,
        ) by {
            if i < front.len() {
                assert(front[i] == entries[i]);
                let k = choose|k: int| 0 <= k < before.len() && before[k] == i as usize;
                assert(all[k] == i as usize);
            } else {
                assert(all[all.len() - 1] == i as usize);
            }
        }
        assert forall|j: int, k: int| 0 <= j < k < all.len() implies all[j] < all[k] by {}
    }
}

/// None of the entries that a sweep leaves is stale.
pub proof fn nothing_stale_remains(entries: Seq<DirEntry>, now: u128, ttl: u64)
    ensures
        forall|i: int|
            0 <= i < remaining(entries, now, ttl).len() ==> !is_stale(
                #[trigger] remaining(entries, now, ttl)[i],
                now,
                ttl,
            ),
    decreases entries.len(),
{
    if entries.len() > 0 {
        nothing_stale_remains(entries.drop_last(), now, ttl);
        let before = remaining(entries.drop_last(), now, ttl);
        let all = remaining(entries, now, ttl);
        assert forall|i: int| 0 <= i < all.len() implies !is_stale(#[trigger] all[i], now, ttl) by {}
    }
}

/// A sweep leaves alone what is not stale: a directory without stale entries
/// stays as it is.
pub proof fn fresh_directory_is_kept(entries: Seq<DirEntry>, now: u128, ttl: u64)
    requires
        forall|i: int| 0 <= i < entries.len() ==> !is_stale(#[trigger] entries[i], now, ttl),
    ensures
        remaining(entries, now, ttl) == entries,
    decreases entries.len(),
{
    if entries.len() > 0 {
        let front = entries.drop_last();
        assert forall|i: int| 0 <= i < front.len() implies !is_stale(
            #[trigger] front[i],
            now,
            ttl,
        ) by {}
        fresh_directory_is_kept(front, now, ttl);
    }
}

/// Sweeping twice is sweeping once: a second sweep at the same time finds
/// nothing to delete and leaves the directory as the first one left it.
pub proof fn sweep_is_idempotent(entries: Seq<DirEntry>, now: u128, ttl: u64)
    ensures
        remaining(remaining(entries, now, ttl), now, ttl) == remaining(entries, now, ttl),
        stale_positions(remaining(entries, now, ttl), now, ttl).len() == 0,
{
    nothing_stale_remains(entries, now, ttl);
    fresh_directory_is_kept(remaining(entries, now, ttl), now, ttl);
    lemma_fresh_has_no_stale_positions(remaining(entries, now, ttl), now, ttl);
}

proof fn lemma_fresh_has_no_stale_positions(entries: Seq<DirEntry>, now: u128, ttl: u64)
    requires
        forall|i: int| 0 <= i < entries.len() ==> !is_stale(#[trigger] entries[i], now, ttl),
    ensures
        stale_positions(entries, now, ttl).len() == 0,
    decreases entries.len(),
{
    if entries.len() > 0 {
        let front = entries.drop_last();
        assert forall|i: int| 0 <= i < front.len() implies !is_stale(
            #[trigger] front[i],
            now,
            ttl,
        ) by {}
        lemma_fresh_has_no_stale_positions(front, now, ttl);
    }
}

/// A later sweep makes up for an earlier one: sweeping at one time and then
/// at a later time leaves what a single sweep at the later time leaves.
pub proof fn later_sweep_covers_earlier(entries: Seq<DirEntry>, earlier: u128, later: u128, ttl: u64)
    requires
        earlier <= later,
    ensures
        remaining(remaining(entries, earlier, ttl), later, ttl) == remaining(entries, later, ttl),
    decreases entries.len(),
{
    if entries.len() > 0 {
        let front = entries.drop_last();
        let last = entries.last();
        later_sweep_covers_earlier(front, earlier, later, ttl);
        if !is_stale(last, earlier, ttl) {
            let kept = remaining(front, earlier, ttl);
            assert(kept.push(last).drop_last() =~= kept);
            assert(kept.push(last).last() == last);
        }
    }
}

/// What a job leaves behind does not stay for ever: a file that carries the
/// name of a job's staged input or output is deleted by the first sweep that
/// finds it older than the time to live.
pub proof fn old_job_files_are_swept(entry: DirEntry, task_id: Seq<char>, now: u128, ttl: u64)
    requires
        entry.name@ == in_file_name(task_id) || entry.name@ == out_file_name(task_id),
        entry.is_file,
        entry.modified matches Some(modified) && modified <= now && now - modified > ttl
            * NANOS_PER_SEC,
    ensures
        is_stale(entry, now, ttl),
{
    staged_files_have_staging_names(task_id);
}

} // verus!
