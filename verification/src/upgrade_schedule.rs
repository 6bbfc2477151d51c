//! The upgrades that wait for their activation height, kept in the order of
//! height and runtime identifier.

use crate::primitives::{BlockNumber, RuntimeId, H256};
use crate::runtime_registry::{ScheduledRuntimeUpgrade, ScheduledRuntimeUpgradeView};
use vstd::prelude::*;

verus! {

/// Key of a pending upgrade: the activation height, then the runtime.
pub type ScheduleKey = (BlockNumber, RuntimeId);

/// The pending upgrades as a map.
pub type Pending = Map<ScheduleKey, ScheduledRuntimeUpgradeView<H256>>;

/// The order of the keys: by height first, by runtime second.
pub open spec fn key_lt(a: ScheduleKey, b: ScheduleKey) -> bool {
    a.0 < b.0 || (a.0 == b.0 && a.1 < b.1)
}

/// The keys of a given activation height.
pub open spec fn keys_at(at: BlockNumber) -> Set<ScheduleKey> {
    Set::new(|k: ScheduleKey| k.0 == at)
}

/// True when `drained` lists exactly the upgrades that `pending` holds for
/// the height `at`, each with its runtime, in the order of the runtimes'
/// identifiers.
pub open spec fn is_drain_of(
    pending: Pending,
    at: BlockNumber,
    drained: Seq<(RuntimeId, ScheduledRuntimeUpgrade<H256>)>,
) -> bool {
    &&& forall|i: int, j: int|
        0 <= i < j < drained.len() ==> (#[trigger] drained[i]).0 < (#[trigger] drained[j]).0
    &&& forall|i: int|
        0 <= i < drained.len() ==> pending.contains_key((at, (#[trigger] drained[i]).0))
            && pending[(at, drained[i].0)] == drained[i].1@
    &&& forall|id: RuntimeId| #[trigger]
        pending.contains_key((at, id)) ==> exists|i: int|
            0 <= i < drained.len() && (#[trigger] drained[i]).0 == id
}

#[derive(Debug, Clone, PartialEq, Eq)]
struct Entry {
    at: BlockNumber,
    runtime_id: RuntimeId,
    upgrade: ScheduledRuntimeUpgrade<H256>,
}

spec fn entry_key(entry: Entry) -> ScheduleKey {
    (entry.at, entry.runtime_id)
}

spec fn keys_sorted(entries: Seq<Entry>) -> bool {
    forall|i: int, j: int|
        0 <= i < j < entries.len() ==> key_lt(
            entry_key(#[trigger] entries[i]),
            entry_key(#[trigger] entries[j]),
        )
}

spec fn has_entry(entries: Seq<Entry>, key: ScheduleKey) -> bool {
    exists|i: int| 0 <= i < entries.len() && entry_key(#[trigger] entries[i]) == key
}

spec fn entry_index(entries: Seq<Entry>, key: ScheduleKey) -> int {
    choose|i: int| 0 <= i < entries.len() && entry_key(#[trigger] entries[i]) == key
}

spec fn entries_map(entries: Seq<Entry>) -> Pending {
    Map::new(
        |k: ScheduleKey| has_entry(entries, k),
        |k: ScheduleKey| entries[entry_index(entries, k)].upgrade@,
    )
}

proof fn lemma_entry_at(entries: Seq<Entry>, i: int)
    requires
        keys_sorted(entries),
        0 <= i < entries.len(),
    ensures
        entries_map(entries).contains_key(entry_key(entries[i])),
        entries_map(entries)[entry_key(entries[i])] == entries[i].upgrade@,
        entry_index(entries, entry_key(entries[i])) == i,
{
    let k = entry_key(entries[i]);
    assert(has_entry(entries, k));
    let c = entry_index(entries, k);
    if c < i {
        assert(key_lt(entry_key(entries[c]), entry_key(entries[i])));
    } else if i < c {
        assert(key_lt(entry_key(entries[i]), entry_key(entries[c])));
    }
}

proof fn lemma_insert(entries: Seq<Entry>, p: int, e: Entry)
    requires
        keys_sorted(entries),
        0 <= p <= entries.len(),
        forall|j: int| 0 <= j < p ==> key_lt(entry_key(#[trigger] entries[j]), entry_key(e)),
        forall|j: int|
            p <= j < entries.len() ==> key_lt(entry_key(e), entry_key(#[trigger] entries[j])),
    ensures
        keys_sorted(entries.insert(p, e)),
        entries_map(entries.insert(p, e)) == entries_map(entries).insert(entry_key(e), e.upgrade@),
{
    let after = entries.insert(p, e);
    entries.insert_ensures(p, e);
    assert forall|j: int| p < j < after.len() implies #[trigger] after[j] == entries[j - 1] by {
        assert(after[(j - 1) + 1] == entries[j - 1]);
    }
    assert forall|a: int, b: int| 0 <= a < b < after.len() implies key_lt(
        entry_key(#[trigger] after[a]),
        entry_key(#[trigger] after[b]),
    ) by {
        let ka = entry_key(after[a]);
        let kb = entry_key(after[b]);
        if b < p {
            assert(after[a] == entries[a] && after[b] == entries[b]);
        } else if b == p {
            assert(after[a] == entries[a]);
        } else if a < p {
            assert(after[a] == entries[a] && after[b] == entries[b - 1]);
            if a == b - 1 {
            } else {
                assert(key_lt(entry_key(entries[a]), entry_key(entries[b - 1])));
            }
        } else if a == p {
            assert(after[b] == entries[b - 1]);
        } else {
            assert(after[a] == entries[a - 1] && after[b] == entries[b - 1]);
        }
    }
    let expected = entries_map(entries).insert(entry_key(e), e.upgrade@);
    assert forall|k: ScheduleKey| #[trigger]
        entries_map(after).contains_key(k) implies expected.contains_key(k) && expected[k]
        == entries_map(after)[k] by {
        let j = entry_index(after, k);
        lemma_entry_at(after, j);
        if j < p {
            assert(after[j] == entries[j]);
            lemma_entry_at(entries, j);
        } else if j > p {
            assert(after[j] == entries[j - 1]);
            lemma_entry_at(entries, j - 1);
            assert(key_lt(entry_key(e), entry_key(entries[j - 1])));
        }
    }
    assert forall|k: ScheduleKey| #[trigger]
        expected.contains_key(k) implies entries_map(after).contains_key(k) by {
        if k == entry_key(e) {
            assert(entry_key(after[p]) == k);
        } else {
            let j = entry_index(entries, k);
            if j < p {
                assert(after[j] == entries[j]);
            } else {
                assert(after[j + 1] == entries[j]);
            }
        }
    }
    assert(entries_map(after) =~= expected);
}

proof fn lemma_replace(entries: Seq<Entry>, p: int, e: Entry)
    requires
        keys_sorted(entries),
        0 <= p < entries.len(),
        entry_key(entries[p]) == entry_key(e),
    ensures
        keys_sorted(entries.update(p, e)),
        entries_map(entries.update(p, e)) == entries_map(entries).insert(entry_key(e), e.upgrade@),
{
    let after = entries.update(p, e);
    assert forall|j: int| 0 <= j < after.len() implies entry_key(#[trigger] after[j]) == entry_key(
        entries[j],
    ) by {}
    assert forall|a: int, b: int| 0 <= a < b < after.len() implies key_lt(
        entry_key(#[trigger] after[a]),
        entry_key(#[trigger] after[b]),
    ) by {
        assert(key_lt(entry_key(entries[a]), entry_key(entries[b])));
    }
    let expected = entries_map(entries).insert(entry_key(e), e.upgrade@);
    assert forall|k: ScheduleKey| #[trigger]
        entries_map(after).contains_key(k) implies expected.contains_key(k) && expected[k]
        == entries_map(after)[k] by {
        let j = entry_index(after, k);
        lemma_entry_at(after, j);
        if j != p {
            assert(after[j] == entries[j]);
            lemma_entry_at(entries, j);
            lemma_entry_at(entries, p);
        }
    }
    assert forall|k: ScheduleKey| #[trigger]
        expected.contains_key(k) implies entries_map(after).contains_key(k) by {
        if k == entry_key(e) {
            assert(entry_key(after[p]) == k);
        } else {
            let j = entry_index(entries, k);
            assert(entry_key(after[j]) == k);
        }
    }
    assert(entries_map(after) =~= expected);
}

/// What is left, and what was taken, when the entries `p .. p + k` are cut
/// out of a sorted list in which exactly they have the height `at`.
proof fn lemma_cut(entries: Seq<Entry>, p: int, k: int, at: BlockNumber)
    requires
        keys_sorted(entries),
        0 <= p,
        0 <= k,
        p + k <= entries.len(),
        forall|j: int| 0 <= j < p ==> (#[trigger] entries[j]).at < at,
        forall|j: int| p <= j < p + k ==> (#[trigger] entries[j]).at == at,
        forall|j: int| p + k <= j < entries.len() ==> (#[trigger] entries[j]).at > at,
    ensures
        keys_sorted(entries.subrange(0, p) + entries.subrange(p + k, entries.len() as int)),
        entries_map(entries.subrange(0, p) + entries.subrange(p + k, entries.len() as int))
            == entries_map(entries).remove_keys(keys_at(at)),
        forall|id: RuntimeId| #[trigger]
            entries_map(entries).contains_key((at, id)) ==> exists|i: int|
                p <= i < p + k && (#[trigger] entries[i]).runtime_id == id,
{
    let rest = entries.subrange(0, p) + entries.subrange(p + k, entries.len() as int);
    assert forall|j: int| 0 <= j < rest.len() implies #[trigger] rest[j] == entries[if j < p {
        j
    } else {
        j + k
    }] by {}
    assert forall|a: int, b: int| 0 <= a < b < rest.len() implies key_lt(
        entry_key(#[trigger] rest[a]),
        entry_key(#[trigger] rest[b]),
    ) by {
        let a0 = if a < p {
            a
        } else {
            a + k
        };
        let b0 = if b < p {
            b
        } else {
            b + k
        };
        assert(rest[a] == entries[a0] && rest[b] == entries[b0]);
        assert(key_lt(entry_key(entries[a0]), entry_key(entries[b0])));
    }
    let expected = entries_map(entries).remove_keys(keys_at(at));
    assert forall|key: ScheduleKey| #[trigger]
        entries_map(rest).contains_key(key) implies expected.contains_key(key) && expected[key]
        == entries_map(rest)[key] by {
        let j = entry_index(rest, key);
        lemma_entry_at(rest, j);
        let j0 = if j < p {
            j
        } else {
            j + k
        };
        assert(rest[j] == entries[j0]);
        lemma_entry_at(entries, j0);
    }
    assert forall|key: ScheduleKey| #[trigger]
        expected.contains_key(key) implies entries_map(rest).contains_key(key) by {
        let j = entry_index(entries, key);
        assert(entries[j].at != at);
        if j < p {
            assert(rest[j] == entries[j]);
        } else {
            assert(rest[j - k] == entries[j]);
        }
    }
    assert(entries_map(rest) =~= expected);
    assert forall|id: RuntimeId| #[trigger]
        entries_map(entries).contains_key((at, id)) implies exists|i: int|
        p <= i < p + k && (#[trigger] entries[i]).runtime_id == id by {
        let j = entry_index(entries, (at, id));
        assert(entries[j].at == at);
        assert(p <= j < p + k);
    }
}

/// The upgrades that wait for their activation height. For one height and
/// one runtime at most one upgrade waits.
#[derive(Debug, Clone, PartialEq, Eq)]
pub struct ScheduledRuntimeUpgrades {
    entries: Vec<Entry>,
}

impl View for ScheduledRuntimeUpgrades {
    type V = Pending;

    closed spec fn view(&self) -> Pending {
        entries_map(self.entries@)
    }
}

impl ScheduledRuntimeUpgrades {
    /// The upgrades are kept in the order of their keys.
    pub closed spec fn wf(&self) -> bool {
        keys_sorted(self.entries@)
    }

    /// No upgrade waits.
    pub fn new() -> (schedule: ScheduledRuntimeUpgrades)
        ensures
            schedule.wf(),
            schedule@ == Pending::empty(),
    {
        let schedule = ScheduledRuntimeUpgrades { entries: Vec::new() };
        assert(schedule@ =~= Pending::empty());
        schedule
    }

    /// The upgrade that waits for the height `at` and the runtime
    /// `runtime_id`, where there is one.
    pub fn get(&self, at: BlockNumber, runtime_id: RuntimeId) -> (upgrade: Option<
        &ScheduledRuntimeUpgrade<H256>,
    >)
        requires
            self.wf(),
        ensures
            match upgrade {
                Some(found) => self@.contains_key((at, runtime_id)) && self@[(at, runtime_id)]
                    == found@,
                None => !self@.contains_key((at, runtime_id)),
            },
    {
        let mut i: usize = 0;
        while i < self.entries.len()
            invariant
                keys_sorted(self.entries@),
                i <= self.entries.len(),
                forall|j: int|
                    0 <= j < i ==> entry_key(#[trigger] self.entries@[j]) != (at, runtime_id),
            decreases self.entries.len() - i,
        {
            if self.entries[i].at == at && self.entries[i].runtime_id == runtime_id {
                proof {
                    lemma_entry_at(self.entries@, i as int);
                }
                return Some(&self.entries[i].upgrade);
            }
            i += 1;
        }
        None
    }

    /// Lets `upgrade` wait for the height `at` and the runtime `runtime_id`,
    /// in place of the upgrade that waited for them, if one did.
    pub fn insert(
        &mut self,
        at: BlockNumber,
        runtime_id: RuntimeId,
        upgrade: ScheduledRuntimeUpgrade<H256>,
    )
        requires
            old(self).wf(),
        ensures
            final(self).wf(),
            final(self)@ == old(self)@.insert((at, runtime_id), upgrade@),
    {
        let mut p: usize = 0;
        while p < self.entries.len() && (self.entries[p].at < at || (self.entries[p].at == at
            && self.entries[p].runtime_id < runtime_id))
            invariant
                p <= self.entries.len(),
                forall|j: int|
                    0 <= j < p ==> key_lt(entry_key(#[trigger] self.entries@[j]), (at, runtime_id)),
            decreases self.entries.len() - p,
        {
            p += 1;
        }
        let entry = Entry { at, runtime_id, upgrade };
        let ghost before = self.entries@;
        if p < self.entries.len() && self.entries[p].at == at && self.entries[p].runtime_id
            == runtime_id {
            self.entries[p] = entry;
            proof {
                assert(self.entries@ =~= before.update(p as int, entry));
                lemma_replace(before, p as int, entry);
            }
        } else {
            proof {
                assert forall|j: int| p <= j < before.len() implies key_lt(
                    entry_key(entry),
                    entry_key(#[trigger] before[j]),
                ) by {
                    if j > p {
                        assert(key_lt(entry_key(before[p as int]), entry_key(before[j])));
                    }
                }
                lemma_insert(before, p as int, entry);
            }
            self.entries.insert(p, entry);
        }
    }

    /// Takes out every upgrade that waits for the height `at` and hands
    /// them over, each with its runtime, in the order of the runtimes'
    /// identifiers.
    pub fn drain_prefix(&mut self, at: BlockNumber) -> (drained: Vec<
        (RuntimeId, ScheduledRuntimeUpgrade<H256>),
    >)
        requires
            old(self).wf(),
        ensures
            final(self).wf(),
            final(self)@ == old(self)@.remove_keys(keys_at(at)),
            is_drain_of(old(self)@, at, drained@),
    {
        let ghost before = self.entries@;
        let mut p: usize = 0;
        while p < self.entries.len() && self.entries[p].at < at
            invariant
                p <= self.entries.len(),
                self.entries@ == before,
                forall|j: int| 0 <= j < p ==> (#[trigger] before[j]).at < at,
            decreases self.entries.len() - p,
        {
            p += 1;
        }
        let mut drained: Vec<(RuntimeId, ScheduledRuntimeUpgrade<H256>)> = Vec::new();
        while p < self.entries.len() && self.entries[p].at == at
            invariant
                keys_sorted(before),
                p + drained.len() <= before.len(),
                self.entries@ == before.subrange(0, p as int) + before.subrange(
                    p + drained.len(),
                    before.len() as int,
                ),
                forall|j: int| 0 <= j < p ==> (#[trigger] before[j]).at < at,
                forall|j: int| p <= j < p + drained.len() ==> (#[trigger] before[j]).at == at,
                p + drained.len() < before.len() ==> before[p + drained.len()].at >= at,
                forall|i: int|
                    0 <= i < drained.len() ==> (#[trigger] drained@[i]).0 == before[p + i].runtime_id
                        && drained@[i].1 == before[p + i].upgrade,
            decreases self.entries.len() - p,
        {
            let ghost now = self.entries@;
            let ghost k = drained.len() as int;
            let entry = self.entries.remove(p);
            assert(entry == before[p + k]);
            drained.push((entry.runtime_id, entry.upgrade));
            proof {
                assert(self.entries@ =~= before.subrange(0, p as int) + before.subrange(
                    p + k + 1,
                    before.len() as int,
                ));
                if p + k + 1 < before.len() {
                    assert(key_lt(entry_key(before[p + k]), entry_key(before[p + k + 1])));
                }
            }
        }
        proof {
            let k = drained.len() as int;
            assert forall|j: int| p + k <= j < before.len() implies (#[trigger] before[j]).at
                > at by {
                assert(self.entries@[p as int] == before[p + k]);
                if j > p + k {
                    assert(key_lt(entry_key(before[p + k]), entry_key(before[j])));
                }
            }
            lemma_cut(before, p as int, k, at);
            assert forall|i: int, j: int| 0 <= i < j < drained@.len() implies (
            #[trigger] drained@[i]).0 < (#[trigger] drained@[j]).0 by {
                assert(key_lt(entry_key(before[p + i]), entry_key(before[p + j])));
            }
            assert forall|i: int| 0 <= i < drained@.len() implies old(self)@.contains_key(
                (at, (#[trigger] drained@[i]).0),
            ) && old(self)@[(at, drained@[i].0)] == drained@[i].1@ by {
                lemma_entry_at(before, p + i);
            }
            assert forall|id: RuntimeId| #[trigger]
                old(self)@.contains_key((at, id)) implies exists|i: int|
                0 <= i < drained@.len() && (#[trigger] drained@[i]).0 == id by {
                let j = choose|j: int| p <= j < p + k && (#[trigger] before[j]).runtime_id == id;
                assert(drained@[j - p].0 == id);
            }
        }
        drained
    }
}

} // verus!
