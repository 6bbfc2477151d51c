//! The raw genesis image of a runtime: its executable code and its initial
//! key/value state, as they are handed to the registry in encoded form.

use crate::hashing::{
    compute_evm_chain_id_storage_key, compute_self_domain_id_storage_key,
    evm_chain_id_storage_key, self_domain_id_storage_key,
};
use crate::primitives::{
    bytes_eq, bytes_less, bytes_lt, keys_in_order, keys_increasing, lemma_bytes_lt_irreflexive,
    lemma_bytes_lt_total, lemma_bytes_lt_transitive, lemma_keys_increasing_insert, list_keys,
    DomainId, EVMChainId,
};
use std::collections::BTreeMap;
use vstd::bytes::{spec_u32_to_le_bytes, spec_u64_to_le_bytes, u32_to_le_bytes, u64_to_le_bytes};
use vstd::prelude::*;

verus! {

/// A list of storage entries: key first, value second.
pub type Entries = Seq<(Seq<u8>, Seq<u8>)>;

/// True when some entry of `entries` has the key `key`.
pub open spec fn has_key(entries: Entries, key: Seq<u8>) -> bool {
    exists|i: int| 0 <= i < entries.len() && (#[trigger] entries[i]).0 == key
}

/// The keys of a list of entries, in the order of the list.
pub open spec fn entry_keys(entries: Entries) -> Seq<Seq<u8>> {
    Seq::new(entries.len(), |i: int| entries[i].0)
}

/// The keys under which the child storages of a list stand, in the order of
/// the list.
pub open spec fn child_keys(children: Seq<(Seq<u8>, Entries)>) -> Seq<Seq<u8>> {
    Seq::new(children.len(), |i: int| children[i].0)
}

/// True when the storages are listed as ordered maps list them: the
/// top-level storage, the child storages and the entries of each child
/// storage in the increasing order of their keys, so that no key occurs
/// twice.
pub open spec fn storage_in_order(top: Entries, children: Seq<(Seq<u8>, Entries)>) -> bool {
    &&& keys_increasing(entry_keys(top))
    &&& keys_increasing(child_keys(children))
    &&& forall|i: int|
        0 <= i < children.len() ==> keys_increasing(entry_keys((#[trigger] children[i]).1))
}

/// The position of the first entry of `entries` with the key `key`, or the
/// length of `entries` where no entry has that key.
pub open spec fn first_index(entries: Entries, key: Seq<u8>) -> int
    decreases entries.len(),
{
    if entries.len() == 0 {
        0
    } else if entries[0].0 == key {
        0
    } else {
        1 + first_index(entries.drop_first(), key)
    }
}

/// The map that a list of entries stands for: each key with the value of the
/// first entry that has it.
pub open spec fn entries_map(entries: Entries) -> Map<Seq<u8>, Seq<u8>> {
    Map::new(
        |k: Seq<u8>| first_index(entries, k) < entries.len(),
        |k: Seq<u8>| entries[first_index(entries, k)].1,
    )
}

/// The map after every entry of `entries` was stored in it, in their order.
pub open spec fn inserted_all(map: Map<Seq<u8>, Seq<u8>>, entries: Entries) -> Map<
    Seq<u8>,
    Seq<u8>,
>
    decreases entries.len(),
{
    if entries.len() == 0 {
        map
    } else {
        inserted_all(map, entries.drop_last()).insert(entries.last().0, entries.last().1)
    }
}

/// The well-known key of the runtime code: the bytes of `:code`.
pub open spec fn code_key() -> Seq<u8> {
    seq![0x3au8, 0x63u8, 0x6fu8, 0x64u8, 0x65u8]
}

/// What a raw genesis holds, as mathematical values.
pub struct RawGenesisView {
    /// The top-level storage.
    pub top: Entries,
    /// The default child storages, each under the key of its root.
    pub children_default: Seq<(Seq<u8>, Entries)>,
}

impl RawGenesisView {
    /// The storages are ordered maps: each is listed in the increasing
    /// order of its keys. Two images that hold the same therefore are the
    /// same.
    pub open spec fn wf(self) -> bool {
        storage_in_order(self.top, self.children_default)
    }

    /// The top-level storage as a map.
    pub open spec fn top_map(self) -> Map<Seq<u8>, Seq<u8>> {
        entries_map(self.top)
    }

    /// The embedded runtime code, where there is one.
    pub open spec fn runtime_code(self) -> Option<Seq<u8>> {
        if self.top_map().contains_key(code_key()) {
            Some(self.top_map()[code_key()])
        } else {
            None
        }
    }

    /// The image with a domain identifier and an EVM chain identifier
    /// written into its top-level storage.
    pub open spec fn completed(self, domain_id: u32, chain_id: u64) -> Map<Seq<u8>, Seq<u8>> {
        self.top_map().insert(self_domain_id_storage_key(), spec_u32_to_le_bytes(domain_id)).insert(
            evm_chain_id_storage_key(),
            spec_u64_to_le_bytes(chain_id),
        )
    }
}

/// The view of a list of storage entries.
pub open spec fn entries_view(entries: Seq<(Vec<u8>, Vec<u8>)>) -> Entries {
    Seq::new(entries.len(), |i: int| (entries[i].0@, entries[i].1@))
}

/// The view of a list of child storages.
pub open spec fn children_view(children: Seq<(Vec<u8>, Vec<(Vec<u8>, Vec<u8>)>)>) -> Seq<
    (Seq<u8>, Entries),
> {
    Seq::new(children.len(), |i: int| (children[i].0@, entries_view(children[i].1@)))
}

/// What `parity-scale-codec` decodes `bytes` to when it reads a pair of
/// ordered maps from byte strings: the first to byte strings (the top-level
/// storage), the second to such maps (the default child storages). `None`
/// where the bytes do not begin with such a pair. Each map is listed in the
/// increasing order of its keys.
pub uninterp spec fn decoded_raw_genesis(bytes: Seq<u8>) -> Option<RawGenesisView>;

/// Raw storage content of a genesis block.
#[derive(Clone, Debug, PartialEq, Eq)]
pub struct RawGenesis {
    top: Vec<(Vec<u8>, Vec<u8>)>,
    children_default: Vec<(Vec<u8>, Vec<(Vec<u8>, Vec<u8>)>)>,
}

impl View for RawGenesis {
    type V = RawGenesisView;

    closed spec fn view(&self) -> RawGenesisView {
        RawGenesisView {
            top: entries_view(self.top@),
            children_default: children_view(self.children_default@),
        }
    }
}

/// Trusted: hands out the constant `well_known_keys::CODE` of `sp-core`'s
/// storage module, which its source gives as the five bytes of `:code`.
#[verifier::external_body]
fn runtime_code_key() -> (key: Vec<u8>)
    ensures
        key@ == code_key(),
{
    sp_core::storage::well_known_keys::CODE.to_vec()
}

/// Trusted: calls `Decode::decode` of `parity-scale-codec` on a pair of
/// `BTreeMap`s and lists each map's entries in the order in which the map
/// hands them out. The contract names the outcome, [`decoded_raw_genesis`],
/// and states one fact about it that every `BTreeMap` has: it hands out its
/// entries in the increasing order of its keys, which for byte strings is
/// the order by the first byte that differs, a string coming before every
/// string that it begins. Bytes left over after the pair are ignored, as
/// `decode` ignores them.
#[verifier::external_body]
fn scale_decode_raw_genesis(bytes: &[u8]) -> (decoded: Option<RawGenesis>)
    ensures
        match decoded {
            Some(genesis) => decoded_raw_genesis(bytes@) == Some(genesis@) && genesis@.wf(),
            None => decoded_raw_genesis(bytes@) is None,
        },
{
    let mut input = bytes;
    let (top, children) = <(
        BTreeMap<Vec<u8>, Vec<u8>>,
        BTreeMap<Vec<u8>, BTreeMap<Vec<u8>, Vec<u8>>>,
    ) as parity_scale_codec::Decode>::decode(&mut input).ok()?;
    Some(RawGenesis {
        top: top.into_iter().collect(),
        children_default: children.into_iter().map(|(k, v)| (k, v.into_iter().collect())).collect(),
    })
}

/// Position of the first entry with the key `key`, or the number of entries
/// where there is none.
fn find_key(entries: &Vec<(Vec<u8>, Vec<u8>)>, key: &[u8]) -> (index: usize)
    ensures
        index <= entries.len(),
        index < entries.len() ==> entries_view(entries@)[index as int].0 == key@,
        forall|j: int| 0 <= j < index ==> (#[trigger] entries_view(entries@)[j]).0 != key@,
{
    let mut i: usize = 0;
    while i < entries.len()
        invariant
            i <= entries.len(),
            forall|j: int| 0 <= j < i ==> (#[trigger] entries_view(entries@)[j]).0 != key@,
        decreases entries.len() - i,
    {
        if bytes_eq(entries[i].0.as_slice(), key) {
            return i;
        }
        i += 1;
    }
    i
}

/// Position of the first entry whose key does not come before `key`, or the
/// number of entries where every key comes before it.
fn find_position(entries: &Vec<(Vec<u8>, Vec<u8>)>, key: &[u8]) -> (position: usize)
    ensures
        position <= entries.len(),
        position < entries.len() ==> !bytes_lt(entries_view(entries@)[position as int].0, key@),
        forall|j: int|
            0 <= j < position ==> bytes_lt((#[trigger] entries_view(entries@)[j]).0, key@),
{
    let mut i: usize = 0;
    while i < entries.len()
        invariant
            i <= entries.len(),
            forall|j: int| 0 <= j < i ==> bytes_lt((#[trigger] entries_view(entries@)[j]).0, key@),
        decreases entries.len() - i,
    {
        if !bytes_less(entries[i].0.as_slice(), key) {
            return i;
        }
        i += 1;
    }
    i
}

/// [`first_index`] is the least position at which the key stands.
pub proof fn lemma_first_index(entries: Entries, key: Seq<u8>)
    ensures
        0 <= first_index(entries, key) <= entries.len(),
        first_index(entries, key) < entries.len() ==> entries[first_index(entries, key)].0 == key,
        forall|j: int| 0 <= j < first_index(entries, key) ==> (#[trigger] entries[j]).0 != key,
        has_key(entries, key) <==> first_index(entries, key) < entries.len(),
    decreases entries.len(),
{
    if entries.len() > 0 && entries[0].0 != key {
        let rest = entries.drop_first();
        lemma_first_index(rest, key);
        let f = first_index(rest, key);
        assert forall|j: int| 0 <= j < f + 1 implies (#[trigger] entries[j]).0 != key by {
            if j > 0 {
                assert(rest[j - 1] == entries[j]);
            }
        }
        if f < rest.len() {
            assert(rest[f] == entries[f + 1]);
        }
    }
    let f = first_index(entries, key);
    if has_key(entries, key) && f >= entries.len() {
        let i = choose|i: int| 0 <= i < entries.len() && (#[trigger] entries[i]).0 == key;
        assert(entries[i].0 != key);
    }
}

/// A position at which the key stands, with no earlier one, is its
/// [`first_index`]; so is the length where the key stands nowhere.
pub proof fn lemma_first_index_is(entries: Entries, key: Seq<u8>, i: int)
    requires
        0 <= i <= entries.len(),
        i < entries.len() ==> entries[i].0 == key,
        forall|j: int| 0 <= j < i ==> (#[trigger] entries[j]).0 != key,
    ensures
        first_index(entries, key) == i,
{
    lemma_first_index(entries, key);
    let f = first_index(entries, key);
    if f < i {
        assert(entries[f].0 != key);
    } else if i < f {
        assert(entries[i].0 != key);
    }
}

/// Replacing the value of the first entry with a key stores the new value
/// under that key and leaves every other key as it was; the keys stay as
/// they are listed.
pub proof fn lemma_entries_map_update(entries: Entries, key: Seq<u8>, value: Seq<u8>)
    requires
        has_key(entries, key),
    ensures
        entries_map(entries.update(first_index(entries, key), (key, value))) == entries_map(
            entries,
        ).insert(key, value),
        entry_keys(entries.update(first_index(entries, key), (key, value))) == entry_keys(entries),
{
    lemma_first_index(entries, key);
    let i = first_index(entries, key);
    let after = entries.update(i, (key, value));
    assert forall|j: int| 0 <= j < after.len() implies (#[trigger] after[j]).0 == entries[j].0 by {}
    assert(entry_keys(after) =~= entry_keys(entries));
    let expected = entries_map(entries).insert(key, value);
    assert forall|k: Seq<u8>|
        first_index(after, k) == #[trigger] first_index(entries, k) && 0 <= first_index(
            entries,
            k,
        ) && (first_index(entries, k) < entries.len() ==> entries[first_index(entries, k)].0
            == k) by {
        lemma_first_index(entries, k);
        let f = first_index(entries, k);
        assert forall|j: int| 0 <= j < f implies (#[trigger] after[j]).0 != k by {
            assert(entries[j].0 != k);
        }
        if f < entries.len() {
            assert(after[f].0 == entries[f].0);
        }
        lemma_first_index_is(after, k, f);
    }
    assert forall|k: Seq<u8>| #[trigger] entries_map(after).contains_key(k) implies entries_map(
        after,
    )[k] == expected[k] by {
        let f = first_index(entries, k);
        if k != key {
            assert(after[f] == entries[f]);
        }
    }
    assert forall|k: Seq<u8>| #[trigger]
        expected.contains_key(k) implies entries_map(after).contains_key(k) by {
        let f = first_index(entries, k);
        assert(first_index(after, k) == f);
    }
    assert(entries_map(after) =~= expected);
}

/// Putting an entry under a key that was absent into the list, at any
/// position, stores its value under that key and leaves every other key
/// as it was.
pub proof fn lemma_entries_map_insert(
    entries: Entries,
    position: int,
    key: Seq<u8>,
    value: Seq<u8>,
)
    requires
        !has_key(entries, key),
        0 <= position <= entries.len(),
    ensures
        entries_map(entries.insert(position, (key, value))) == entries_map(entries).insert(
            key,
            value,
        ),
        entry_keys(entries.insert(position, (key, value))) == entry_keys(entries).insert(
            position,
            key,
        ),
{
    let after = entries.insert(position, (key, value));
    let n = entries.len() as int;
    entries.insert_ensures(position, (key, value));
    entry_keys(entries).insert_ensures(position, key);
    assert forall|j: int| position < j < after.len() implies #[trigger] after[j] == entries[j
        - 1] by {
        assert(after[(j - 1) + 1] == entries[j - 1]);
    }
    assert forall|j: int| 0 <= j < after.len() implies #[trigger] entry_keys(after)[j]
        == entry_keys(entries).insert(position, key)[j] by {
        if j > position {
            assert(entry_keys(entries).insert(position, key)[(j - 1) + 1] == entry_keys(
                entries,
            )[j - 1]);
        }
    }
    assert(entry_keys(after) =~= entry_keys(entries).insert(position, key));
    let expected = entries_map(entries).insert(key, value);
    assert forall|k: Seq<u8>|
        0 <= #[trigger] first_index(entries, k) <= n && first_index(after, k) == (if k == key {
            position
        } else if first_index(entries, k) < position {
            first_index(entries, k)
        } else {
            first_index(entries, k) + 1
        }) && (first_index(entries, k) < n ==> entries[first_index(entries, k)].0 == k) by {
        lemma_first_index(entries, k);
        let f = first_index(entries, k);
        let t = if k == key {
            position
        } else if f < position {
            f
        } else {
            f + 1
        };
        assert forall|j: int| 0 <= j < t implies (#[trigger] after[j]).0 != k by {
            if j < position {
                assert(after[j] == entries[j]);
                assert(entries[j].0 != k);
            } else if j > position {
                assert(after[j] == entries[j - 1]);
                assert(entries[j - 1].0 != k);
            }
        }
        if t < after.len() && k != key {
            if f < position {
                assert(after[f] == entries[f]);
            } else {
                assert(after[f + 1] == entries[f]);
            }
        }
        lemma_first_index_is(after, k, t);
    }
    lemma_first_index(entries, key);
    assert forall|k: Seq<u8>| #[trigger] entries_map(after).contains_key(k) implies entries_map(
        after,
    )[k] == expected[k] by {
        let f = first_index(entries, k);
        if k != key {
            if f < position {
                assert(after[f] == entries[f]);
            } else {
                assert(after[f + 1] == entries[f]);
            }
        }
    }
    assert forall|k: Seq<u8>| #[trigger]
        expected.contains_key(k) implies entries_map(after).contains_key(k) by {
        let f = first_index(entries, k);
    }
    assert(entries_map(after) =~= expected);
}

/// In a list whose keys are increasing every key stands at one position
/// only.
pub proof fn lemma_position_in_order(entries: Entries, i: int)
    requires
        keys_increasing(entry_keys(entries)),
        0 <= i < entries.len(),
    ensures
        first_index(entries, entries[i].0) == i,
        entries_map(entries).contains_key(entries[i].0),
        entries_map(entries)[entries[i].0] == entries[i].1,
{
    assert forall|j: int| 0 <= j < i implies (#[trigger] entries[j]).0 != entries[i].0 by {
        assert(bytes_lt(entry_keys(entries)[j], entry_keys(entries)[i]));
        lemma_bytes_lt_irreflexive(entries[i].0);
    }
    lemma_first_index_is(entries, entries[i].0, i);
}

/// Two lists in the order of their keys that stand for the same map and
/// agree up to the position `i` agree throughout.
proof fn lemma_ordered_entries_agree_from(a: Entries, b: Entries, i: int)
    requires
        keys_increasing(entry_keys(a)),
        keys_increasing(entry_keys(b)),
        entries_map(a) == entries_map(b),
        0 <= i <= a.len(),
        i <= b.len(),
        forall|j: int| 0 <= j < i ==> a[j] == b[j],
    ensures
        a == b,
    decreases a.len() - i,
{
    if i == a.len() {
        if i < b.len() {
            let kb = b[i].0;
            lemma_position_in_order(b, i);
            assert(entries_map(a).contains_key(kb));
            lemma_first_index(a, kb);
            let m = first_index(a, kb);
            assert(a[m] == b[m]);
            assert(bytes_lt(entry_keys(b)[m], entry_keys(b)[i]));
            lemma_bytes_lt_irreflexive(kb);
        }
        assert(a =~= b);
    } else {
        let ka = a[i].0;
        lemma_position_in_order(a, i);
        assert(entries_map(b).contains_key(ka));
        lemma_first_index(b, ka);
        let m = first_index(b, ka);
        if m < i {
            assert(a[m] == b[m]);
            assert(bytes_lt(entry_keys(a)[m], entry_keys(a)[i]));
            lemma_bytes_lt_irreflexive(ka);
        }
        if m > i {
            let kb = b[i].0;
            lemma_position_in_order(b, i);
            assert(entries_map(a).contains_key(kb));
            lemma_first_index(a, kb);
            let m2 = first_index(a, kb);
            assert(bytes_lt(entry_keys(b)[i], entry_keys(b)[m]));
            if m2 < i {
                assert(a[m2] == b[m2]);
                assert(bytes_lt(entry_keys(b)[m2], entry_keys(b)[i]));
                lemma_bytes_lt_irreflexive(kb);
            } else if m2 == i {
                lemma_bytes_lt_irreflexive(ka);
            } else {
                assert(bytes_lt(entry_keys(a)[i], entry_keys(a)[m2]));
                lemma_bytes_lt_transitive(ka, kb, ka);
                lemma_bytes_lt_irreflexive(ka);
            }
        }
        lemma_position_in_order(b, i);
        assert(a[i].0 == b[i].0);
        assert(a[i].1 == b[i].1);
        assert(a[i] == b[i]);
        lemma_ordered_entries_agree_from(a, b, i + 1);
    }
}

/// A map is listed in the order of its keys in one way only: two lists in
/// that order that stand for the same map are the same list.
pub proof fn lemma_ordered_entries_are_unique(a: Entries, b: Entries)
    requires
        keys_increasing(entry_keys(a)),
        keys_increasing(entry_keys(b)),
        entries_map(a) == entries_map(b),
    ensures
        a == b,
{
    lemma_ordered_entries_agree_from(a, b, 0);
}

/// Two images that hold the same are the same: what the top-level storage
/// maps its keys to fixes how it is listed.
pub proof fn lemma_images_that_hold_the_same_are_equal(a: RawGenesisView, b: RawGenesisView)
    requires
        a.wf(),
        b.wf(),
        a.top_map() == b.top_map(),
        a.children_default == b.children_default,
    ensures
        a == b,
{
    lemma_ordered_entries_are_unique(a.top, b.top);
}

impl RawGenesis {
    /// An image that holds nothing but the runtime code `code`.
    pub fn dummy(code: Vec<u8>) -> (genesis: RawGenesis)
        ensures
            genesis@.wf(),
            genesis@.top == seq![(code_key(), code@)],
            genesis@.children_default == Seq::<(Seq<u8>, Entries)>::empty(),
            genesis@.runtime_code() == Some(code@),
    {
        let mut top: Vec<(Vec<u8>, Vec<u8>)> = Vec::new();
        top.push((runtime_code_key(), code));
        let genesis = RawGenesis { top, children_default: Vec::new() };
        proof {
            assert(genesis@.top =~= seq![(code_key(), code@)]);
            assert(genesis@.children_default =~= Seq::<(Seq<u8>, Entries)>::empty());
            lemma_first_index_is(genesis@.top, code_key(), 0);
            assert(entry_keys(genesis@.top).len() == 1);
        }
        genesis
    }

    /// An image with this top-level storage and these default child
    /// storages, where they are listed as ordered maps list them: each in
    /// the increasing order of its keys. `None` else.
    pub fn from_storage(
        top: Vec<(Vec<u8>, Vec<u8>)>,
        children_default: Vec<(Vec<u8>, Vec<(Vec<u8>, Vec<u8>)>)>,
    ) -> (made: Option<RawGenesis>)
        ensures
            match made {
                Some(genesis) => {
                    &&& genesis@.wf()
                    &&& genesis@.top == entries_view(top@)
                    &&& genesis@.children_default == children_view(children_default@)
                },
                None => !storage_in_order(entries_view(top@), children_view(children_default@)),
            },
    {
        let ghost children = children_view(children_default@);
        assert(entry_keys(entries_view(top@)) =~= list_keys(top@));
        assert(child_keys(children) =~= list_keys(children_default@));
        if !keys_in_order(&top) || !keys_in_order(&children_default) {
            return None;
        }
        let mut i: usize = 0;
        while i < children_default.len()
            invariant
                i <= children_default@.len(),
                children == children_view(children_default@),
                forall|j: int|
                    0 <= j < i ==> keys_increasing(entry_keys((#[trigger] children[j]).1)),
            decreases children_default@.len() - i,
        {
            assert(entry_keys(children[i as int].1) =~= list_keys(children_default@[i as int].1@));
            if !keys_in_order(&children_default[i].1) {
                return None;
            }
            i += 1;
        }
        Some(RawGenesis { top, children_default })
    }

    /// The top-level storage, entry by entry.
    pub fn top(&self) -> (entries: &Vec<(Vec<u8>, Vec<u8>)>)
        ensures
            entries_view(entries@) == self@.top,
    {
        &self.top
    }

    /// The default child storages, each under the key of its root.
    pub fn children_default(&self) -> (children: &Vec<(Vec<u8>, Vec<(Vec<u8>, Vec<u8>)>)>)
        ensures
            children_view(children@) == self@.children_default,
    {
        &self.children_default
    }

    /// Stores every entry of `storages` in the top-level storage, in their
    /// order.
    pub fn set_top_storages(&mut self, storages: Vec<(Vec<u8>, Vec<u8>)>)
        ensures
            old(self)@.wf() ==> final(self)@.wf(),
            final(self)@.top_map() == inserted_all(old(self)@.top_map(), entries_view(storages@)),
            final(self)@.children_default == old(self)@.children_default,
    {
        let mut storages = storages;
        let ghost all = entries_view(storages@);
        let ghost mut done: int = 0;
        while storages.len() > 0
            invariant
                0 <= done <= all.len(),
                entries_view(storages@) == all.subrange(done, all.len() as int),
                old(self)@.wf() ==> self@.wf(),
                self@.top_map() == inserted_all(old(self)@.top_map(), all.subrange(0, done)),
                self@.children_default == old(self)@.children_default,
            decreases storages.len(),
        {
            let ghost before = storages@;
            assert(entries_view(before) == all.subrange(done, all.len() as int));
            assert(entries_view(before).len() == before.len());
            let (key, value) = storages.remove(0);
            proof {
                let rest = all.subrange(done, all.len() as int);
                assert(rest.len() == before.len());
                assert(entries_view(before)[0] == (key@, value@));
                assert(rest[0] == all[done]);
                assert(all[done] == (key@, value@));
                assert forall|j: int| 0 <= j < storages@.len() implies #[trigger] entries_view(
                    storages@,
                )[j] == all[done + 1 + j] by {
                    assert(storages@[j] == before[j + 1]);
                    assert(entries_view(before)[j + 1] == rest[j + 1]);
                }
                assert(entries_view(storages@) =~= all.subrange(done + 1, all.len() as int));
                assert(all.subrange(0, done + 1).drop_last() =~= all.subrange(0, done));
                done = done + 1;
            }
            self.set_top_storage(key, value);
        }
        proof {
            assert(all.subrange(0, done) =~= all);
        }
    }

    /// Decodes an image from the beginning of `bytes`.
    pub fn decode(bytes: &[u8]) -> (decoded: Option<RawGenesis>)
        ensures
            match decoded {
                Some(genesis) => decoded_raw_genesis(bytes@) == Some(genesis@) && genesis@.wf(),
                None => decoded_raw_genesis(bytes@) is None,
            },
    {
        scale_decode_raw_genesis(bytes)
    }

    /// The value that the top-level storage holds under `key`, where it
    /// holds one.
    pub fn get_top_storage(&self, key: &[u8]) -> (value: Option<&[u8]>)
        ensures
            match value {
                Some(bytes) => self@.top_map().contains_key(key@) && self@.top_map()[key@]
                    == bytes@,
                None => !self@.top_map().contains_key(key@),
            },
    {
        let index = find_key(&self.top, key);
        proof {
            lemma_first_index_is(self@.top, key@, index as int);
        }
        if index < self.top.len() {
            Some(self.top[index].1.as_slice())
        } else {
            None
        }
    }

    /// The embedded runtime code, where there is one.
    pub fn get_runtime_code(&self) -> (code: Option<&[u8]>)
        ensures
            match code {
                Some(bytes) => self@.runtime_code() == Some(bytes@),
                None => self@.runtime_code() is None,
            },
    {
        let key = runtime_code_key();
        self.get_top_storage(key.as_slice())
    }

    /// Stores `value` under `key` in the top-level storage: in place of the
    /// value that stood under the key, or, where the key is new, at the
    /// place that the order of the keys gives it.
    pub fn set_top_storage(&mut self, key: Vec<u8>, value: Vec<u8>)
        ensures
            old(self)@.wf() ==> final(self)@.wf(),
            final(self)@.top_map() == old(self)@.top_map().insert(key@, value@),
            final(self)@.children_default == old(self)@.children_default,
    {
        let index = find_key(&self.top, key.as_slice());
        let ghost before = self@.top;
        proof {
            lemma_first_index_is(before, key@, index as int);
            lemma_first_index(before, key@);
        }
        if index < self.top.len() {
            self.top[index] = (key, value);
            proof {
                assert(self@.top =~= before.update(index as int, (key@, value@)));
                lemma_entries_map_update(before, key@, value@);
            }
        } else {
            let position = find_position(&self.top, key.as_slice());
            proof {
                lemma_entries_map_insert(before, position as int, key@, value@);
                if old(self)@.wf() {
                    let keys = entry_keys(before);
                    assert forall|j: int| 0 <= j < position implies bytes_lt(
                        #[trigger] keys[j],
                        key@,
                    ) by {
                        assert(bytes_lt(before[j].0, key@));
                    }
                    if position < before.len() {
                        assert(before[position as int].0 != key@);
                        lemma_bytes_lt_total(keys[position as int], key@);
                    }
                    lemma_keys_increasing_insert(keys, position as int, key@);
                }
            }
            self.top.insert(position, (key, value));
            proof {
                assert(self@.top =~= before.insert(position as int, (key@, value@)));
            }
        }
    }

    /// Writes the identifier of the domain that this image is used for.
    /// The runtime code stays as it is.
    pub fn set_domain_id(&mut self, domain_id: DomainId)
        ensures
            old(self)@.wf() ==> final(self)@.wf(),
            final(self)@.top_map() == old(self)@.top_map().insert(
                self_domain_id_storage_key(),
                spec_u32_to_le_bytes(domain_id.0),
            ),
            final(self)@.children_default == old(self)@.children_default,
            final(self)@.runtime_code() == old(self)@.runtime_code(),
            self_domain_id_storage_key().len() == 32,
    {
        self.set_top_storage(compute_self_domain_id_storage_key(), u32_to_le_bytes(domain_id.0));
    }

    /// Writes the chain identifier of the EVM domain that this image is used
    /// for. The runtime code stays as it is.
    pub fn set_evm_chain_id(&mut self, chain_id: EVMChainId)
        ensures
            old(self)@.wf() ==> final(self)@.wf(),
            final(self)@.top_map() == old(self)@.top_map().insert(
                evm_chain_id_storage_key(),
                spec_u64_to_le_bytes(chain_id),
            ),
            final(self)@.children_default == old(self)@.children_default,
            final(self)@.runtime_code() == old(self)@.runtime_code(),
            evm_chain_id_storage_key().len() == 32,
    {
        self.set_top_storage(compute_evm_chain_id_storage_key(), u64_to_le_bytes(chain_id));
    }
}

} // verus!
