//! Plain value types shared by the registry and the block builder.

use vstd::prelude::*;

verus! {

/// Identifier of a registered runtime.
pub type RuntimeId = u32;

/// Height of a block.
pub type BlockNumber = u32;

/// Chain identifier of an EVM domain.
pub type EVMChainId = u64;

/// A 256-bit hash.
pub type H256 = [u8; 32];

/// Identifier of a domain instance.
#[derive(Clone, Copy, PartialEq, Eq, Structural, Debug, Hash)]
pub struct DomainId(pub u32);

impl DomainId {
    /// Wraps a raw identifier.
    pub fn new(id: u32) -> (r: DomainId)
        ensures
            r == DomainId(id),
    {
        DomainId(id)
    }
}

/// Execution environment of a runtime.
#[derive(Clone, Copy, PartialEq, Eq, Structural, Debug)]
pub enum RuntimeType {
    /// Ethereum virtual machine.
    Evm,
}

impl Default for RuntimeType {
    fn default() -> (r: RuntimeType)
        ensures
            r == RuntimeType::Evm,
    {
        RuntimeType::Evm
    }
}

/// Compares two byte strings.
pub fn bytes_eq(a: &[u8], b: &[u8]) -> (equal: bool)
    ensures
        equal == (a@ == b@),
{
    if a.len() != b.len() {
        return false;
    }
    let mut i: usize = 0;
    while i < a.len()
        invariant
            a.len() == b.len(),
            i <= a.len(),
            forall|j: int| 0 <= j < i ==> a@[j] == b@[j],
        decreases a.len() - i,
    {
        if a[i] != b[i] {
            return false;
        }
        i += 1;
    }
    assert(a@ =~= b@);
    true
}

/// The order of byte strings: by the first byte in which they differ, and
/// a string before every string that it begins.
pub open spec fn bytes_lt(a: Seq<u8>, b: Seq<u8>) -> bool
    decreases a.len(),
{
    if b.len() == 0 {
        false
    } else if a.len() == 0 {
        true
    } else if a[0] != b[0] {
        a[0] < b[0]
    } else {
        bytes_lt(a.drop_first(), b.drop_first())
    }
}

/// No byte string comes before itself.
pub proof fn lemma_bytes_lt_irreflexive(a: Seq<u8>)
    ensures
        !bytes_lt(a, a),
    decreases a.len(),
{
    if a.len() > 0 {
        lemma_bytes_lt_irreflexive(a.drop_first());
    }
}

/// Of two byte strings that differ one comes before the other.
pub proof fn lemma_bytes_lt_total(a: Seq<u8>, b: Seq<u8>)
    ensures
        a == b || bytes_lt(a, b) || bytes_lt(b, a),
    decreases a.len(),
{
    if a.len() == 0 || b.len() == 0 {
        if a.len() == 0 && b.len() == 0 {
            assert(a =~= b);
        }
    } else if a[0] == b[0] {
        lemma_bytes_lt_total(a.drop_first(), b.drop_first());
        if a.drop_first() == b.drop_first() {
            assert(a.len() == b.len()) by {
                assert(a.drop_first().len() == b.drop_first().len());
            }
            assert forall|i: int| 0 <= i < a.len() implies a[i] == b[i] by {
                if i > 0 {
                    assert(a.drop_first()[i - 1] == b.drop_first()[i - 1]);
                }
            }
            assert(a =~= b);
        }
    }
}

/// The order of byte strings is transitive.
pub proof fn lemma_bytes_lt_transitive(a: Seq<u8>, b: Seq<u8>, c: Seq<u8>)
    requires
        bytes_lt(a, b),
        bytes_lt(b, c),
    ensures
        bytes_lt(a, c),
    decreases a.len(),
{
    if a.len() > 0 && a[0] == b[0] && b[0] == c[0] {
        lemma_bytes_lt_transitive(a.drop_first(), b.drop_first(), c.drop_first());
    }
}

/// Whether `a` comes before `b` in the order of byte strings.
pub fn bytes_less(a: &[u8], b: &[u8]) -> (less: bool)
    ensures
        less == bytes_lt(a@, b@),
{
    let mut i: usize = 0;
    assert(a@.subrange(0, a@.len() as int) =~= a@);
    assert(b@.subrange(0, b@.len() as int) =~= b@);
    while i < a.len() && i < b.len()
        invariant
            i <= a.len(),
            i <= b.len(),
            bytes_lt(a@, b@) == bytes_lt(
                a@.subrange(i as int, a@.len() as int),
                b@.subrange(i as int, b@.len() as int),
            ),
        decreases a.len() - i,
    {
        let ghost rest_a = a@.subrange(i as int, a@.len() as int);
        let ghost rest_b = b@.subrange(i as int, b@.len() as int);
        assert(rest_a[0] == a@[i as int] && rest_b[0] == b@[i as int]);
        if a[i] != b[i] {
            return a[i] < b[i];
        }
        proof {
            assert(rest_a.drop_first() =~= a@.subrange(i as int + 1, a@.len() as int));
            assert(rest_b.drop_first() =~= b@.subrange(i as int + 1, b@.len() as int));
        }
        i += 1;
    }
    assert(a@.subrange(a@.len() as int, a@.len() as int).len() == 0);
    i < b.len()
}

/// True when every key of the list comes before the keys after it.
pub open spec fn keys_increasing(keys: Seq<Seq<u8>>) -> bool {
    forall|i: int, j: int|
        0 <= i < j < keys.len() ==> bytes_lt(#[trigger] keys[i], #[trigger] keys[j])
}

/// A list whose every key comes before the next one is increasing.
pub proof fn lemma_keys_increasing_by_neighbours(keys: Seq<Seq<u8>>)
    requires
        forall|i: int| 0 <= i < keys.len() - 1 ==> bytes_lt(#[trigger] keys[i], keys[i + 1]),
    ensures
        keys_increasing(keys),
    decreases keys.len(),
{
    if keys.len() > 1 {
        let front = keys.drop_last();
        assert forall|i: int| 0 <= i < front.len() - 1 implies bytes_lt(
            #[trigger] front[i],
            front[i + 1],
        ) by {
            assert(bytes_lt(keys[i], keys[i + 1]));
        }
        lemma_keys_increasing_by_neighbours(front);
        let last = keys.len() - 1;
        assert forall|i: int, j: int| 0 <= i < j < keys.len() implies bytes_lt(
            #[trigger] keys[i],
            #[trigger] keys[j],
        ) by {
            if j < last {
                assert(bytes_lt(front[i], front[j]));
            } else if i < last - 1 {
                assert(bytes_lt(front[i], front[last - 1]));
                assert(bytes_lt(keys[last - 1], keys[last - 1 + 1]));
                lemma_bytes_lt_transitive(keys[i], keys[last - 1], keys[last]);
            } else {
                assert(bytes_lt(keys[i], keys[i + 1]));
            }
        }
    }
}

/// A key that is put into an increasing list behind the keys before it and
/// in front of the keys after it leaves the list increasing.
pub proof fn lemma_keys_increasing_insert(keys: Seq<Seq<u8>>, position: int, key: Seq<u8>)
    requires
        keys_increasing(keys),
        0 <= position <= keys.len(),
        forall|j: int| 0 <= j < position ==> bytes_lt(#[trigger] keys[j], key),
        position < keys.len() ==> bytes_lt(key, keys[position]),
    ensures
        keys_increasing(keys.insert(position, key)),
{
    let after = keys.insert(position, key);
    keys.insert_ensures(position, key);
    assert forall|j: int| position < j < after.len() implies #[trigger] after[j] == keys[j - 1] by {
        assert(after[(j - 1) + 1] == keys[j - 1]);
    }
    assert forall|j: int| position <= j < keys.len() implies bytes_lt(key, #[trigger] keys[j]) by {
        if j > position {
            assert(bytes_lt(keys[position], keys[j]));
            lemma_bytes_lt_transitive(key, keys[position], keys[j]);
        }
    }
    assert forall|i: int, j: int| 0 <= i < j < after.len() implies bytes_lt(
        #[trigger] after[i],
        #[trigger] after[j],
    ) by {
        if j < position {
            assert(after[i] == keys[i] && after[j] == keys[j]);
        } else if j == position {
            assert(after[i] == keys[i]);
        } else if i < position {
            assert(after[i] == keys[i] && after[j] == keys[j - 1]);
            if i < j - 1 {
                assert(bytes_lt(keys[i], keys[j - 1]));
            } else {
                assert(bytes_lt(keys[i], key));
                assert(bytes_lt(key, keys[j - 1]));
                lemma_bytes_lt_transitive(keys[i], key, keys[j - 1]);
            }
        } else if i == position {
            assert(after[j] == keys[j - 1]);
            assert(bytes_lt(key, keys[j - 1]));
        } else {
            assert(after[i] == keys[i - 1] && after[j] == keys[j - 1]);
            assert(bytes_lt(keys[i - 1], keys[j - 1]));
        }
    }
}

/// The keys of a list of entries.
pub open spec fn list_keys<T>(list: Seq<(Vec<u8>, T)>) -> Seq<Seq<u8>> {
    Seq::new(list.len(), |i: int| list[i].0@)
}

/// Whether the keys of the list are increasing.
pub fn keys_in_order<T>(list: &Vec<(Vec<u8>, T)>) -> (ordered: bool)
    ensures
        ordered == keys_increasing(list_keys(list@)),
{
    let ghost keys = list_keys(list@);
    if list.len() < 2 {
        return true;
    }
    let mut i: usize = 0;
    while i < list.len() - 1
        invariant
            list@.len() >= 2,
            keys == list_keys(list@),
            i <= list@.len() - 1,
            forall|j: int| 0 <= j < i ==> bytes_lt(#[trigger] keys[j], keys[j + 1]),
        decreases list@.len() - i,
    {
        assert(keys[i as int] == list@[i as int].0@ && keys[i as int + 1] == list@[i as int + 1].0@);
        if !bytes_less(list[i].0.as_slice(), list[i + 1].0.as_slice()) {
            return false;
        }
        i += 1;
    }
    proof {
        lemma_keys_increasing_by_neighbours(keys);
    }
    true
}

} // verus!
