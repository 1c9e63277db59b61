//! What is removed from the working directory after an installation: every
//! entry but the directory of the version just installed.

use vstd::prelude::*;

verus! {

/// One entry of the working directory, as a listing gave it.
#[derive(Debug, PartialEq, Eq)]
pub enum Entry {
    /// An entry with this name.
    Named(String),
    /// An entry whose name is not valid text. It can match no directory name.
    Unnamed,
    /// The listing failed at this place, for the reason given.
    Unreadable(String),
}

impl Entry {
    /// Whether this entry is the one to keep: it has a name, and the name is
    /// exactly `keep`.
    pub open spec fn is_kept(self, keep: Seq<char>) -> bool {
        match self {
            Entry::Named(name) => name@ == keep,
            _ => false,
        }
    }

    /// Whether this entry is the one to keep: it has a name, and the name is
    /// exactly `keep`.
    pub fn matches_name(&self, keep: &String) -> (r: bool)
        ensures
            r == self.is_kept(keep@),
    {
        match self {
            Entry::Named(name) => *name == *keep,
            _ => false,
        }
    }
}

/// What a sweep does: the places in the listing of the entries to remove, in
/// the listing's order, and the error to report afterwards, if there is one.
#[derive(Debug, PartialEq, Eq)]
pub struct SweepPlan {
    pub remove: Vec<usize>,
    pub failure: Option<String>,
}

/// A sweep plan by its values.
pub struct SweepPlanView {
    pub remove: Seq<usize>,
    pub failure: Option<Seq<char>>,
}

impl View for SweepPlan {
    type V = SweepPlanView;

    open spec fn view(&self) -> SweepPlanView {
        SweepPlanView {
            remove: self.remove@,
            failure: match self.failure {
                Some(message) => Some(message@),
                None => None,
            },
        }
    }
}

/// Place of the first unreadable entry at or after `from`; the listing's
/// length if there is none.
pub open spec fn spec_first_unreadable(entries: Seq<Entry>, from: int) -> int
    decreases entries.len() - from,
{
    if from < 0 || from >= entries.len() {
        entries.len() as int
    } else if entries[from] is Unreadable {
        from
    } else {
        spec_first_unreadable(entries, from + 1)
    }
}

/// The places before `upto` whose entry is not the one to keep, in rising
/// order.
pub open spec fn spec_removals(entries: Seq<Entry>, keep: Seq<char>, upto: int) -> Seq<usize>
    decreases upto,
{
    if upto <= 0 {
        Seq::empty()
    } else if entries[upto - 1].is_kept(keep) {
        spec_removals(entries, keep, upto - 1)
    } else {
        spec_removals(entries, keep, upto - 1).push((upto - 1) as usize)
    }
}

/// Message of a sweep that met an unreadable entry.
pub open spec fn spec_entry_failure(reason: Seq<char>) -> Seq<char> {
    "failed to load directory entry "@ + reason
}

/// The sweep of a listing that keeps `keep`. Entries are handled in the
/// listing's order up to the first unreadable one: each is removed unless it
/// is the one to keep. An unreadable entry ends the sweep with an error, and
/// what came before it stays removed.
pub open spec fn spec_plan_sweep(entries: Seq<Entry>, keep: Seq<char>) -> SweepPlanView {
    let cut = spec_first_unreadable(entries, 0);
    SweepPlanView {
        remove: spec_removals(entries, keep, cut),
        failure: if cut < entries.len() {
            match entries[cut] {
                Entry::Unreadable(reason) => Some(spec_entry_failure(reason@)),
                _ => None,
            }
        } else {
            None
        },
    }
}

/// Plans the sweep of a listing that keeps the entry named `keep`.
pub fn plan_sweep(entries: &Vec<Entry>, keep: &String) -> (plan: SweepPlan)
    ensures
        plan@ == spec_plan_sweep(entries@, keep@),
{
    let mut remove: Vec<usize> = Vec::new();
    let mut failure: Option<String> = None;
    let mut i: usize = 0;
    while i < entries.len() && failure.is_none()
        invariant
            0 <= i <= entries.len(),
            remove@ == spec_removals(entries@, keep@, i as int),
            failure is None ==> spec_first_unreadable(entries@, 0) == spec_first_unreadable(
                entries@,
                i as int,
            ),
            failure is Some ==> {
                &&& i < entries.len()
                &&& spec_first_unreadable(entries@, 0) == i
                &&& entries@[i as int] matches Entry::Unreadable(reason)
                &&& failure->Some_0@ == spec_entry_failure(reason@)
            },
        decreases entries.len() - i + (if failure is None { 1int } else { 0int }),
    {
        match &entries[i] {
            Entry::Unreadable(reason) => {
                let mut message = String::from_str("failed to load directory entry ");
                message.append(reason.as_str());
                failure = Some(message);
            },
            entry => {
                if !entry.matches_name(keep) {
                    remove.push(i);
                }
                i = i + 1;
            },
        }
    }
    SweepPlan { remove, failure }
}

/// A sweep removes exactly what is not kept: a place before the first
/// unreadable entry is in the plan if and only if its entry is not the one to
/// keep, and the plan names nothing else. Where the whole listing is
/// readable, only the kept entry stays.
pub proof fn lemma_sweep_removes_all_but_kept(entries: Seq<Entry>, keep: Seq<char>, upto: int)
    requires
        0 <= upto <= entries.len(),
        entries.len() <= usize::MAX,
    ensures
        forall|i: int|
            0 <= i < upto && !entries[i].is_kept(keep) ==> #[trigger] spec_removals(
                entries,
                keep,
                upto,
            ).contains(i as usize),
        forall|k: int|
            0 <= k < spec_removals(entries, keep, upto).len() ==> {
                let place = #[trigger] spec_removals(entries, keep, upto)[k];
                0 <= place < upto && !entries[place as int].is_kept(keep)
            },
        forall|j: int, k: int|
            0 <= j < k < spec_removals(entries, keep, upto).len() ==> spec_removals(
                entries,
                keep,
                upto,
            )[j] < spec_removals(entries, keep, upto)[k],
    decreases upto,
{
    if upto > 0 {
        lemma_sweep_removes_all_but_kept(entries, keep, upto - 1);
        let before = spec_removals(entries, keep, upto - 1);
        let now = spec_removals(entries, keep, upto);
        assert forall|i: int| 0 <= i < upto && !entries[i].is_kept(keep) implies now.contains(
            i as usize,
        ) by {
            if i < upto - 1 {
                assert(before.contains(i as usize));
                let k = choose|k: int| 0 <= k < before.len() && before[k] == i as usize;
                assert(now[k] == i as usize);
            } else {
                assert(now[now.len() - 1] == i as usize);
            }
        }
    }
}

/// In a listing without an unreadable entry the sweep reaches every entry
/// and reports no error, so that only the kept entry stays.
pub proof fn lemma_readable_listing_is_swept_whole(entries: Seq<Entry>, keep: Seq<char>)
    requires
        forall|i: int| 0 <= i < entries.len() ==> !(#[trigger] entries[i] is Unreadable),
    ensures
        spec_plan_sweep(entries, keep).failure is None,
        spec_plan_sweep(entries, keep).remove == spec_removals(
            entries,
            keep,
            entries.len() as int,
        ),
{
    lemma_first_unreadable_bounds(entries, 0);
}

/// The first unreadable entry at or after `from` is where the definition
/// looks for it: nothing between `from` and it is unreadable, and it is,
/// unless it is the listing's end.
pub proof fn lemma_first_unreadable_bounds(entries: Seq<Entry>, from: int)
    requires
        0 <= from <= entries.len(),
    ensures
        from <= spec_first_unreadable(entries, from) <= entries.len(),
        forall|i: int|
            from <= i < spec_first_unreadable(entries, from) ==> !(#[trigger] entries[i]
                is Unreadable),
        spec_first_unreadable(entries, from) < entries.len() ==> entries[spec_first_unreadable(
            entries,
            from,
        )] is Unreadable,
    decreases entries.len() - from,
{
    if from < entries.len() && !(entries[from] is Unreadable) {
        lemma_first_unreadable_bounds(entries, from + 1);
    }
}

} // verus!
