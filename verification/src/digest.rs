//! Digest items of a block header, and the items through which the registry
//! tells light clients about runtime upgrades.

use crate::primitives::RuntimeId;
use vstd::bytes::{
    lemma_auto_spec_u32_to_from_le_bytes, spec_u32_from_le_bytes, spec_u32_to_le_bytes,
    u32_from_le_bytes, u32_to_le_bytes,
};
use vstd::prelude::*;
use vstd::slice::slice_subrange;

verus! {

/// Identifier of a consensus engine.
pub type ConsensusEngineId = [u8; 4];

/// What a digest item holds, as mathematical values.
pub enum DigestItemView {
    /// A message from the runtime to the consensus engine, set before the
    /// block is executed.
    PreRuntime(Seq<u8>, Seq<u8>),
    /// A message from the runtime to the consensus engine.
    Consensus(Seq<u8>, Seq<u8>),
    /// A seal of the consensus engine.
    Seal(Seq<u8>, Seq<u8>),
    /// Any other data.
    Other(Seq<u8>),
    /// The runtime code or its heap pages changed.
    RuntimeEnvironmentUpdated,
}

/// An item of a header's digest.
#[derive(Clone, Debug, PartialEq, Eq)]
pub enum DigestItem {
    /// A message from the runtime to the consensus engine, set before the
    /// block is executed.
    PreRuntime(ConsensusEngineId, Vec<u8>),
    /// A message from the runtime to the consensus engine.
    Consensus(ConsensusEngineId, Vec<u8>),
    /// A seal of the consensus engine.
    Seal(ConsensusEngineId, Vec<u8>),
    /// Any other data.
    Other(Vec<u8>),
    /// The runtime code or its heap pages changed.
    RuntimeEnvironmentUpdated,
}

impl View for DigestItem {
    type V = DigestItemView;

    open spec fn view(&self) -> DigestItemView {
        match *self {
            DigestItem::PreRuntime(id, data) => DigestItemView::PreRuntime(id@, data@),
            DigestItem::Consensus(id, data) => DigestItemView::Consensus(id@, data@),
            DigestItem::Seal(id, data) => DigestItemView::Seal(id@, data@),
            DigestItem::Other(data) => DigestItemView::Other(data@),
            DigestItem::RuntimeEnvironmentUpdated => DigestItemView::RuntimeEnvironmentUpdated,
        }
    }
}

/// The views of a list of digest items.
pub open spec fn digest_view(items: Seq<DigestItem>) -> Seq<DigestItemView> {
    Seq::new(items.len(), |i: int| items[i]@)
}

/// The digest of a header: a list of items.
#[derive(Clone, Debug, PartialEq, Eq, Default)]
pub struct Digest {
    /// The items, in the order in which they were deposited.
    pub logs: Vec<DigestItem>,
}

impl View for Digest {
    type V = Seq<DigestItemView>;

    open spec fn view(&self) -> Seq<DigestItemView> {
        digest_view(self.logs@)
    }
}

/// The data that `item` carries, if it carries any.
pub open spec fn item_data(item: DigestItemView) -> Seq<u8> {
    match item {
        DigestItemView::PreRuntime(_, data) => data,
        DigestItemView::Consensus(_, data) => data,
        DigestItemView::Seal(_, data) => data,
        DigestItemView::Other(data) => data,
        DigestItemView::RuntimeEnvironmentUpdated => Seq::empty(),
    }
}

/// True when the digest can be encoded: the number of its items and the
/// length of each item's data fit in 32 bits.
pub open spec fn digest_encodable(digest: Seq<DigestItemView>) -> bool {
    &&& digest.len() <= u32::MAX
    &&& forall|i: int| 0 <= i < digest.len() ==> item_data(#[trigger] digest[i]).len() <= u32::MAX
}

impl DigestItem {
    /// The length of the data that the item carries.
    pub fn data_len(&self) -> (len: usize)
        ensures
            len == item_data(self@).len(),
    {
        match self {
            DigestItem::PreRuntime(_, data) => data.len(),
            DigestItem::Consensus(_, data) => data.len(),
            DigestItem::Seal(_, data) => data.len(),
            DigestItem::Other(data) => data.len(),
            DigestItem::RuntimeEnvironmentUpdated => 0,
        }
    }
}

impl Digest {
    /// Whether the digest can be encoded.
    pub fn is_encodable(&self) -> (encodable: bool)
        ensures
            encodable == digest_encodable(self@),
    {
        if self.logs.len() > 0xffff_ffff {
            return false;
        }
        let mut i: usize = 0;
        while i < self.logs.len()
            invariant
                i <= self.logs@.len(),
                self.logs@.len() <= u32::MAX,
                forall|j: int| 0 <= j < i ==> item_data(#[trigger] self@[j]).len() <= u32::MAX,
            decreases self.logs@.len() - i,
        {
            if self.logs[i].data_len() > 0xffff_ffff {
                assert(item_data(self@[i as int]).len() > u32::MAX);
                return false;
            }
            i += 1;
        }
        true
    }
}

/// The data of the item that reports the upgrade of `runtime_id`: a zero
/// byte, then the identifier in four bytes, lowest first.
pub open spec fn runtime_upgrade_data(runtime_id: RuntimeId) -> Seq<u8> {
    seq![0u8] + spec_u32_to_le_bytes(runtime_id)
}

/// The runtime whose upgrade `item` reports, if it reports one: the item
/// holds other data that begin with a zero byte and four more bytes.
pub open spec fn reported_runtime_upgrade(item: DigestItemView) -> Option<RuntimeId> {
    match item {
        DigestItemView::Other(data) => if data.len() >= 5 && data[0] == 0 {
            Some(spec_u32_from_le_bytes(data.subrange(1, 5)))
        } else {
            None
        },
        _ => None,
    }
}

/// An item that reports an upgrade is read back as a report of the upgrade
/// of the same runtime.
pub proof fn lemma_runtime_upgrade_roundtrip(runtime_id: RuntimeId)
    ensures
        reported_runtime_upgrade(DigestItemView::Other(runtime_upgrade_data(runtime_id))) == Some(
            runtime_id,
        ),
{
    lemma_auto_spec_u32_to_from_le_bytes();
    let data = runtime_upgrade_data(runtime_id);
    assert(spec_u32_to_le_bytes(runtime_id).len() == 4);
    assert(data.subrange(1, 5) =~= spec_u32_to_le_bytes(runtime_id));
}

impl DigestItem {
    /// The item that reports the upgrade of `runtime_id`.
    pub fn domain_runtime_upgrade(runtime_id: RuntimeId) -> (item: DigestItem)
        ensures
            item@ == DigestItemView::Other(runtime_upgrade_data(runtime_id)),
            reported_runtime_upgrade(item@) == Some(runtime_id),
    {
        let mut data: Vec<u8> = Vec::new();
        data.push(0u8);
        let mut id_bytes = u32_to_le_bytes(runtime_id);
        data.append(&mut id_bytes);
        proof {
            assert(data@ =~= runtime_upgrade_data(runtime_id));
            lemma_runtime_upgrade_roundtrip(runtime_id);
        }
        DigestItem::Other(data)
    }

    /// The runtime whose upgrade the item reports, if it reports one.
    pub fn as_domain_runtime_upgrade(&self) -> (runtime_id: Option<RuntimeId>)
        ensures
            runtime_id == reported_runtime_upgrade(self@),
    {
        match self {
            DigestItem::Other(data) => {
                if data.len() >= 5 && data[0] == 0 {
                    Some(u32_from_le_bytes(slice_subrange(data.as_slice(), 1, 5)))
                } else {
                    None
                }
            },
            _ => None,
        }
    }
}

} // verus!
