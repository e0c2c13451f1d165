//! The histories of the monitored sites, by name and in configured order.
//!
//! The histories live in an `indexmap::IndexMap`, keyed by the site's name.
//! Verus does not look inside the map: what it holds is named by
//! `site_entries`, and each map operation that the monitor uses is called
//! through a small function whose contract says what the operation does to
//! those entries.

use crate::checker::Status;
use crate::history::SiteHistory;
use crate::search::{first_index, is_first_match, lemma_first_index_is, lemma_first_index_none};
use indexmap::IndexMap;
use vstd::prelude::*;

verus! {

/// `indexmap::IndexMap`, taken as it is: Verus sees nothing of what is inside.
#[verifier::external_type_specification]
#[verifier::external_body]
#[verifier::reject_recursive_types(K)]
#[verifier::reject_recursive_types(V)]
#[verifier::reject_recursive_types(S)]
pub struct ExIndexMap<K, V, S>(IndexMap<K, V, S>);

/// What a map of site histories holds: each site's name with its history, in
/// the order in which the names were first inserted.
pub uninterp spec fn site_entries(sites: IndexMap<String, SiteHistory>) -> Seq<
    (Seq<char>, SiteHistory),
>;

/// Calls `IndexMap::new`: a map that holds nothing.
#[verifier::external_body]
pub(crate) fn sites_new() -> (sites: IndexMap<String, SiteHistory>)
    ensures
        site_entries(sites) == Seq::<(Seq<char>, SiteHistory)>::empty(),
{
    IndexMap::new()
}

/// Calls `IndexMap::insert`. Where the name is already a key, the entry keeps
/// its place, takes the new history, and the history it held is returned.
/// Where it is not, the new entry goes last and nothing is returned.
#[verifier::external_body]
pub(crate) fn sites_insert(
    sites: &mut IndexMap<String, SiteHistory>,
    name: String,
    history: SiteHistory,
) -> (replaced: Option<SiteHistory>)
    ensures
        match replaced {
            Some(previous) => exists|i: int|
                0 <= i < site_entries(*old(sites)).len() && #[trigger] site_entries(*old(sites))[i]
                    == (name@, previous) && site_entries(*final(sites)) == site_entries(
                    *old(sites),
                ).update(i, (name@, history)),
            None => {
                &&& forall|i: int|
                    0 <= i < site_entries(*old(sites)).len() ==> (#[trigger] site_entries(
                        *old(sites),
                    )[i]).0 != name@
                &&& site_entries(*final(sites)) == site_entries(*old(sites)).push((name@, history))
            },
        },
{
    sites.insert(name, history)
}

/// Calls `IndexMap::len`: the number of entries.
#[verifier::external_body]
pub(crate) fn sites_len(sites: &IndexMap<String, SiteHistory>) -> (n: usize)
    ensures
        n == site_entries(*sites).len(),
{
    sites.len()
}

/// Calls `IndexMap::get_index_of`: the position of an entry with this name,
/// or nothing where no entry has it.
#[verifier::external_body]
pub(crate) fn sites_index_of(sites: &IndexMap<String, SiteHistory>, name: &str) -> (found: Option<
    usize,
>)
    ensures
        match found {
            Some(i) => i < site_entries(*sites).len() && site_entries(*sites)[i as int].0 == name@,
            None => forall|i: int|
                0 <= i < site_entries(*sites).len() ==> (#[trigger] site_entries(*sites)[i]).0
                    != name@,
        },
{
    sites.get_index_of(name)
}

/// Calls `IndexMap::get_index`: the entry at a position, or nothing where the
/// position is past the end.
#[verifier::external_body]
pub(crate) fn sites_entry_at(sites: &IndexMap<String, SiteHistory>, i: usize) -> (entry: Option<
    (&String, &SiteHistory),
>)
    ensures
        match entry {
            Some((name, history)) => {
                &&& i < site_entries(*sites).len()
                &&& name@ == site_entries(*sites)[i as int].0
                &&& *history == site_entries(*sites)[i as int].1
            },
            None => i >= site_entries(*sites).len(),
        },
{
    sites.get_index(i)
}

/// Calls `IndexMap::get_index_mut` and picks the history: the history at a
/// position, to be changed in place, or nothing where the position is past
/// the end. No other entry changes, and the entry keeps its name.
#[verifier::external_body]
pub(crate) fn sites_history_mut(sites: &mut IndexMap<String, SiteHistory>, i: usize) -> (h: Option<
    &mut SiteHistory,
>)
    ensures
        match h {
            Some(history) => {
                &&& i < site_entries(*old(sites)).len()
                &&& *history == site_entries(*old(sites))[i as int].1
                &&& site_entries(*final(sites)) == site_entries(*old(sites)).update(
                    i as int,
                    (site_entries(*old(sites))[i as int].0, *final(history)),
                )
            },
            None => {
                &&& i >= site_entries(*old(sites)).len()
                &&& site_entries(*final(sites)) == site_entries(*old(sites))
            },
        },
{
    sites.get_index_mut(i).map(|(_, history)| history)
}

/// No two entries have the same name.
pub open spec fn names_distinct(entries: Seq<(Seq<char>, SiteHistory)>) -> bool {
    forall|i: int, j: int|
        0 <= i < j < entries.len() ==> (#[trigger] entries[i]).0 != (#[trigger] entries[j]).0
}

/// The position of the entry called `name`, if there is one.
pub open spec fn entry_position(entries: Seq<(Seq<char>, SiteHistory)>, name: Seq<char>) -> Option<
    int,
> {
    first_index(entries, |e: (Seq<char>, SiteHistory)| e.0 == name)
}

/// The status of the newest sample of a history, if it has one.
pub open spec fn latest_status(history: SiteHistory) -> Option<Status> {
    if history@.len() > 0 {
        Some(history@.last().status)
    } else {
        None
    }
}

/// Finds the entry called `name`.
pub(crate) fn position_of(sites: &IndexMap<String, SiteHistory>, name: &str) -> (found: Option<usize>)
    requires
        names_distinct(site_entries(*sites)),
    ensures
        match found {
            Some(i) => entry_position(site_entries(*sites), name@) == Some(i as int),
            None => entry_position(site_entries(*sites), name@).is_none(),
        },
{
    let found = sites_index_of(sites, name);
    proof {
        let entries = site_entries(*sites);
        let called = |e: (Seq<char>, SiteHistory)| e.0 == name@;
        match found {
            Some(i) => {
                assert(is_first_match(entries, called, i as int));
                lemma_first_index_is(entries, called, i as int);
            },
            None => {
                lemma_first_index_none(entries, called);
            },
        }
    }
    found
}

/// The names of the entries, in order.
pub open spec fn entry_names(entries: Seq<(Seq<char>, SiteHistory)>) -> Seq<Seq<char>> {
    entries.map_values(|e: (Seq<char>, SiteHistory)| e.0)
}

/// Whether a history is empty and bounded by `max_size`.
pub open spec fn is_fresh(history: SiteHistory, max_size: usize) -> bool {
    history@ == Seq::<crate::checker::CheckResult>::empty() && history.max_size() == max_size
}

/// Adds an empty history under `name`, last in order, unless the name is
/// there already; then the entry starts afresh in its place.
pub(crate) fn register(sites: &mut IndexMap<String, SiteHistory>, name: String, max_size: usize)
    requires
        names_distinct(site_entries(*old(sites))),
    ensures
        names_distinct(site_entries(*final(sites))),
        entry_names(site_entries(*final(sites))) == if entry_names(
            site_entries(*old(sites)),
        ).contains(name@) {
            entry_names(site_entries(*old(sites)))
        } else {
            entry_names(site_entries(*old(sites))).push(name@)
        },
        forall|j: int|
            0 <= j < site_entries(*old(sites)).len() && (#[trigger] site_entries(*old(sites))[j]).0
                != name@ ==> site_entries(*final(sites))[j] == site_entries(*old(sites))[j],
        forall|j: int|
            0 <= j < site_entries(*final(sites)).len() && (#[trigger] site_entries(
                *final(sites),
            )[j]).0 == name@ ==> is_fresh(site_entries(*final(sites))[j].1, max_size),
{
    let ghost before = site_entries(*sites);
    let history = SiteHistory::new(max_size);
    let replaced = sites_insert(sites, name, history);
    proof {
        let after = site_entries(*sites);
        match replaced {
            Some(previous) => {
                let i = choose|i: int|
                    0 <= i < before.len() && #[trigger] before[i] == (name@, previous) && after
                        == before.update(i, (name@, history));
                assert(entry_names(before)[i] == name@);
                assert(names_distinct(after));
            },
            None => {
                assert(names_distinct(after));
            },
        }
    }
}

} // verus!
