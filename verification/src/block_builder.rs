//! Decision logic of block construction.
//!
//! A block is built against an execution context that this crate does not
//! own: the runtime and its state. The builder therefore never calls the
//! context. It says which call it wants made next ([`BlockBuilder::next_action`]),
//! is told what came of it ([`BlockBuilder::step`]), and decides from that how
//! the call is concluded and what follows.

use crate::digest::{digest_encodable, Digest, DigestItem, DigestItemView};
use crate::primitives::{BlockNumber, H256};
use parity_scale_codec::Encode;
use sp_runtime::generic::Header as RuntimeHeader;
use sp_runtime::traits::BlakeTwo256;
use sp_runtime::{Digest as RuntimeDigest, DigestItem as RuntimeDigestItem};
use std::collections::VecDeque;
use vstd::prelude::*;

verus! {

/// Whether the execution context captures a proof while a block is built.
///
/// With `Yes` every touched node of the state tree is captured, so that a
/// third party can check the block without the full state.
#[derive(Clone, Copy, PartialEq, Eq, Structural, Debug)]
pub enum RecordProof {
    /// Capture every touched state-tree node.
    Yes,
    /// Capture nothing.
    No,
}

impl RecordProof {
    /// True exactly for `Yes`.
    pub fn yes(&self) -> (b: bool)
        ensures
            b == (*self == RecordProof::Yes),
    {
        match self {
            RecordProof::Yes => true,
            RecordProof::No => false,
        }
    }
}

impl Default for RecordProof {
    fn default() -> (r: RecordProof)
        ensures
            r == RecordProof::No,
    {
        RecordProof::No
    }
}

impl vstd::std_specs::convert::FromSpecImpl<bool> for RecordProof {
    open spec fn obeys_from_spec() -> bool {
        true
    }

    open spec fn from_spec(val: bool) -> RecordProof {
        if val {
            RecordProof::Yes
        } else {
            RecordProof::No
        }
    }
}

impl From<bool> for RecordProof {
    fn from(val: bool) -> (r: RecordProof) {
        if val {
            RecordProof::Yes
        } else {
            RecordProof::No
        }
    }
}

/// A transaction of a block, as opaque bytes.
pub type Extrinsic = Vec<u8>;

/// The views of a list of extrinsics.
pub open spec fn extrinsics_view(extrinsics: Seq<Extrinsic>) -> Seq<Seq<u8>> {
    Seq::new(extrinsics.len(), |i: int| extrinsics[i]@)
}

/// True when the list can be encoded: its length and the length of each of
/// its extrinsics fit in 32 bits.
pub open spec fn extrinsics_encodable(extrinsics: Seq<Seq<u8>>) -> bool {
    &&& extrinsics.len() <= u32::MAX
    &&& forall|i: int| 0 <= i < extrinsics.len() ==> (#[trigger] extrinsics[i]).len() <= u32::MAX
}

/// What a header holds, as mathematical values.
pub struct HeaderView {
    /// The height of the block.
    pub number: BlockNumber,
    /// The root of the extrinsics.
    pub extrinsics_root: Seq<u8>,
    /// The root of the state.
    pub state_root: Seq<u8>,
    /// The hash of the parent block.
    pub parent_hash: Seq<u8>,
    /// The digest.
    pub digest: Seq<DigestItemView>,
}

/// The header of a block.
#[derive(Clone, Debug, PartialEq, Eq)]
pub struct Header {
    /// The height of the block.
    pub number: BlockNumber,
    /// The root of the extrinsics.
    pub extrinsics_root: H256,
    /// The root of the state.
    pub state_root: H256,
    /// The hash of the parent block.
    pub parent_hash: H256,
    /// The digest.
    pub digest: Digest,
}

impl View for Header {
    type V = HeaderView;

    open spec fn view(&self) -> HeaderView {
        HeaderView {
            number: self.number,
            extrinsics_root: self.extrinsics_root@,
            state_root: self.state_root@,
            parent_hash: self.parent_hash@,
            digest: self.digest@,
        }
    }
}

/// The number of bytes that `parity-scale-codec` writes for a header of
/// `sp-runtime` with these contents, block numbers of 32 bits and hashes of
/// 256 bits.
pub uninterp spec fn encoded_header_size(header: HeaderView) -> nat;

/// The number of bytes that `parity-scale-codec` writes for a queue of byte
/// strings with these contents.
pub uninterp spec fn encoded_extrinsics_size(extrinsics: Seq<Seq<u8>>) -> nat;

/// The root of the ordered trie, in its second layout and hashed with
/// BLAKE2b-256, whose items are the encodings of these byte strings.
pub uninterp spec fn ordered_trie_root(extrinsics: Seq<Seq<u8>>) -> Seq<u8>;

/// Trusted: builds the `generic::Header` of `sp-runtime` that holds the same
/// values, item for item, and calls `Encode::encoded_size` on it. The
/// contract only names the result, [`encoded_header_size`]. The encoder
/// stops the program on a list of more than `u32::MAX` elements, which the
/// precondition rules out.
#[verifier::external_body]
fn scale_encoded_header_size(header: &Header) -> (size: usize)
    requires
        digest_encodable(header@.digest),
    ensures
        size == encoded_header_size(header@),
{
    let logs = header.digest.logs.iter().map(|item| match item {
        DigestItem::PreRuntime(id, data) => RuntimeDigestItem::PreRuntime(*id, data.clone()),
        DigestItem::Consensus(id, data) => RuntimeDigestItem::Consensus(*id, data.clone()),
        DigestItem::Seal(id, data) => RuntimeDigestItem::Seal(*id, data.clone()),
        DigestItem::Other(data) => RuntimeDigestItem::Other(data.clone()),
        DigestItem::RuntimeEnvironmentUpdated => RuntimeDigestItem::RuntimeEnvironmentUpdated,
    }).collect();
    RuntimeHeader::<u32, BlakeTwo256> {
        parent_hash: header.parent_hash.into(),
        number: header.number,
        state_root: header.state_root.into(),
        extrinsics_root: header.extrinsics_root.into(),
        digest: RuntimeDigest { logs },
    }.encoded_size()
}

/// Trusted: calls `Encode::encoded_size` of `parity-scale-codec` on the
/// queue. The contract only names the result, [`encoded_extrinsics_size`].
/// The encoder stops the program on a list of more than `u32::MAX`
/// elements, which the precondition rules out.
#[verifier::external_body]
fn scale_encoded_extrinsics_size(extrinsics: &VecDeque<Extrinsic>) -> (size: usize)
    requires
        extrinsics_encodable(extrinsics_view(extrinsics@)),
    ensures
        size == encoded_extrinsics_size(extrinsics_view(extrinsics@)),
{
    extrinsics.encoded_size()
}

/// Trusted: calls `ordered_trie_root` of `sp-runtime`'s `BlakeTwo256` on
/// the encodings of the extrinsics, with the state version `V1`, and hands
/// out the bytes of the hash. The contract only names the result,
/// [`ordered_trie_root`]. The encoder stops the program on a byte string of
/// more than `u32::MAX` bytes, which the precondition rules out.
#[verifier::external_body]
fn hash_ordered_trie_root(extrinsics: &Vec<Extrinsic>) -> (root: H256)
    requires
        extrinsics_encodable(extrinsics_view(extrinsics@)),
    ensures
        root@ == ordered_trie_root(extrinsics_view(extrinsics@)),
{
    <BlakeTwo256 as sp_runtime::traits::Hash>::ordered_trie_root(
        extrinsics.iter().map(Encode::encode).collect(),
        sp_core::storage::StateVersion::V1,
    ).0
}

/// Whether the list of extrinsics can be encoded.
pub fn extrinsics_fit(extrinsics: &Vec<Extrinsic>) -> (encodable: bool)
    ensures
        encodable == extrinsics_encodable(extrinsics_view(extrinsics@)),
{
    if extrinsics.len() > 0xffff_ffff {
        return false;
    }
    let mut i: usize = 0;
    while i < extrinsics.len()
        invariant
            i <= extrinsics@.len(),
            extrinsics@.len() <= u32::MAX,
            forall|j: int|
                0 <= j < i ==> (#[trigger] extrinsics_view(extrinsics@)[j]).len() <= u32::MAX,
        decreases extrinsics@.len() - i,
    {
        if extrinsics[i].len() > 0xffff_ffff {
            assert(extrinsics_view(extrinsics@)[i as int].len() > u32::MAX);
            return false;
        }
        i += 1;
    }
    true
}

impl Header {
    /// A header with these contents.
    pub fn new(
        number: BlockNumber,
        extrinsics_root: H256,
        state_root: H256,
        parent_hash: H256,
        digest: Digest,
    ) -> (header: Header)
        ensures
            header == (Header { number, extrinsics_root, state_root, parent_hash, digest }),
    {
        Header { number, extrinsics_root, state_root, parent_hash, digest }
    }

    /// The number of bytes of the encoded header.
    pub fn encoded_size(&self) -> (size: usize)
        requires
            digest_encodable(self@.digest),
        ensures
            size == encoded_header_size(self@),
    {
        scale_encoded_header_size(self)
    }
}

/// A block: a header and the extrinsics that it commits to.
#[derive(Clone, Debug, PartialEq, Eq)]
pub struct Block {
    /// The header.
    pub header: Header,
    /// The extrinsics, in the order in which they were applied.
    pub extrinsics: Vec<Extrinsic>,
}

impl Block {
    /// A block with this header and these extrinsics.
    pub fn new(header: Header, extrinsics: Vec<Extrinsic>) -> (block: Block)
        ensures
            block == (Block { header, extrinsics }),
    {
        Block { header, extrinsics }
    }

    /// Whether the extrinsics can be encoded.
    pub fn extrinsics_are_encodable(&self) -> (encodable: bool)
        ensures
            encodable == extrinsics_encodable(extrinsics_view(self.extrinsics@)),
    {
        extrinsics_fit(&self.extrinsics)
    }

    /// Whether the header commits to the extrinsics: its extrinsics root is
    /// the root of the ordered trie of their encodings.
    pub fn extrinsics_root_is_consistent(&self) -> (consistent: bool)
        requires
            extrinsics_encodable(extrinsics_view(self.extrinsics@)),
        ensures
            consistent == (self.header@.extrinsics_root == ordered_trie_root(
                extrinsics_view(self.extrinsics@),
            )),
    {
        let root = hash_ordered_trie_root(&self.extrinsics);
        crate::primitives::bytes_eq(root.as_slice(), self.header.extrinsics_root.as_slice())
    }
}

/// A block that was built, with what belongs to it.
///
/// The storage changes turn the parent's state into the state of the
/// block. The proof is there exactly when proof recording was asked for.
#[derive(Debug)]
pub struct BuiltBlock<S, P> {
    /// The block.
    pub block: Block,
    /// The changes that turn the parent's state into the block's state.
    pub storage_changes: S,
    /// The proof that was recorded while the block was built.
    pub proof: Option<P>,
}

impl<S, P> BuiltBlock<S, P> {
    /// The three parts of the built block.
    pub fn into_inner(self) -> (parts: (Block, S, Option<P>))
        ensures
            parts == (self.block, self.storage_changes, self.proof),
    {
        (self.block, self.storage_changes, self.proof)
    }
}

/// Why a block could not be built.
#[derive(Clone, Debug, PartialEq, Eq)]
pub enum Error {
    /// A call into the runtime failed: the block could not be initialised
    /// or finalised.
    RuntimeApiError(String),
    /// The storage changes could not be collected.
    StorageChanges(String),
    /// The runtime could not create the inherents.
    Application(String),
    /// The block on top of which the new one is to be built is not known.
    UnknownBlock(String),
    /// No block can be built on top of the parent: it has the greatest
    /// height there is, or the digests cannot be encoded.
    CannotExtend,
    /// The state before a position was asked for that exceeds the number of
    /// extrinsics.
    InvalidExtrinsicIndex {
        /// The position that was asked for.
        got: usize,
        /// The number of extrinsics.
        max: usize,
    },
    /// The header of the finalised block does not follow the parent at the
    /// height of the block, or its extrinsics root does not commit to the
    /// extrinsics that were kept.
    InconsistentHeader,
    /// Proof recording was asked for, and the context handed out no proof.
    ProofNotRecorded,
    /// Work was asked for before the builder was ready, or after it had
    /// begun other work.
    NotReady,
    /// A result was asked for that the builder has not worked out.
    NotFinished,
    /// The builder was told of something that it had not asked for.
    UnexpectedEvent,
}

/// What came of applying one extrinsic.
#[derive(Clone, Debug, PartialEq, Eq)]
pub enum ApplyResult {
    /// The extrinsic was applied.
    Applied,
    /// The extrinsic is not valid.
    Invalid(String),
    /// The runtime could not be called.
    Faulted(String),
}

/// What the builder is asked to work out.
#[derive(Clone, Copy, Debug, PartialEq, Eq, Structural)]
pub enum Goal {
    /// Nothing yet.
    Unset,
    /// The block.
    Build,
    /// The storage changes before the extrinsic at this position.
    StorageChangesBefore(usize),
    /// The storage changes before the block is finalised.
    StorageChangesBeforeFinalizeBlock,
}

/// Where the builder stands.
#[derive(Clone, Copy, Debug, PartialEq, Eq, Structural)]
pub enum Phase {
    /// Proof recording is to be switched on.
    EnablingProof,
    /// The block is to be initialised.
    Initializing,
    /// The inherents are to be created.
    CreatingInherents,
    /// The builder waits to be told what to work out.
    Ready,
    /// The next extrinsic is to be applied.
    Applying,
    /// The block is to be finalised.
    Finalizing,
    /// The recorded proof is to be extracted.
    ExtractingProof,
    /// The storage changes are to be collected.
    Collecting,
    /// The result is there.
    Done,
    /// The work failed.
    Failed,
}

/// How the scope in which the last call ran is to be closed.
#[derive(Clone, Copy, Debug, PartialEq, Eq, Structural)]
pub enum Conclusion {
    /// The call ran in no scope of its own.
    Nothing,
    /// What the call changed is kept.
    CommitScope,
    /// What the call changed is discarded.
    RollbackScope,
}

/// The call into the execution context that the builder wants made next.
#[derive(Debug)]
pub enum Action<'a, I> {
    /// Switch proof recording on.
    RecordProof,
    /// Initialise the block.
    InitializeBlock {
        /// The parent of the block.
        parent_hash: &'a H256,
        /// The header of the block.
        header: &'a Header,
    },
    /// Open a scope and let the runtime create the inherents in it.
    CreateInherents {
        /// The parent of the block.
        parent_hash: &'a H256,
        /// What the inherents are made from.
        inherent_data: &'a I,
    },
    /// Open a scope and apply the extrinsic in it.
    ApplyExtrinsic {
        /// The parent of the block.
        parent_hash: &'a H256,
        /// The position of the extrinsic.
        index: usize,
        /// The extrinsic.
        extrinsic: &'a Extrinsic,
    },
    /// Finalise the block.
    FinalizeBlock {
        /// The parent of the block.
        parent_hash: &'a H256,
    },
    /// Extract the recorded proof.
    ExtractProof,
    /// Collect the storage changes against the parent's state.
    CollectStorageChanges {
        /// The parent of the block.
        parent_hash: &'a H256,
    },
    /// Nothing: the builder waits for work, or is through with it.
    Idle,
}

/// What came of the call that the builder wanted made.
#[derive(Debug)]
pub enum Event<S, P> {
    /// Proof recording is on.
    ProofRecordingEnabled,
    /// The block was initialised, or could not be.
    BlockInitialized(Result<(), String>),
    /// The runtime created the inherents, or could not.
    InherentsCreated(Result<Vec<Extrinsic>, String>),
    /// The extrinsic was applied, or was not.
    ExtrinsicApplied(ApplyResult),
    /// The block was finalised, or could not be.
    BlockFinalized(Result<Header, String>),
    /// The proof was extracted, if one was recorded.
    ProofExtracted(Option<P>),
    /// The storage changes were collected, or could not be.
    StorageChangesCollected(Result<S, String>),
}

/// What a builder holds, as mathematical values.
pub struct BuilderView<I, S, P> {
    /// Where the builder stands.
    pub phase: Phase,
    /// What it is asked to work out.
    pub goal: Goal,
    /// Whether a proof is recorded.
    pub record_proof: RecordProof,
    /// The parent of the block.
    pub parent_hash: H256,
    /// The header that the block is initialised with.
    pub header: Header,
    /// The encoded size of that header.
    pub estimated_header_size: usize,
    /// The queue of extrinsics: inherents first.
    pub extrinsics: Seq<Seq<u8>>,
    /// What the inherents are made from, until they are made.
    pub inherent_data: Option<I>,
    /// The number of extrinsics that were dealt with.
    pub cursor: nat,
    /// The position before which the builder stops applying.
    pub limit: nat,
    /// The extrinsics that were applied and kept, in their order.
    pub included: Seq<Seq<u8>>,
    /// The header of the finalised block.
    pub finalized: Option<Header>,
    /// The recorded proof.
    pub proof: Option<P>,
    /// The collected storage changes.
    pub storage_changes: Option<S>,
    /// Why the work failed.
    pub error: Option<Error>,
}

/// The queue after the inherents were put in front of it one by one, each
/// before the ones that came earlier.
pub open spec fn with_inherents(inherents: Seq<Seq<u8>>, queue: Seq<Seq<u8>>) -> Seq<Seq<u8>> {
    inherents.reverse() + queue
}

/// The phase that follows the last extrinsic.
pub open spec fn phase_after_applying(goal: Goal) -> Phase {
    if goal == Goal::Build {
        Phase::Finalizing
    } else {
        Phase::Collecting
    }
}

/// The position before which the builder stops applying, or `None` where
/// the goal cannot be reached in a block of `count` extrinsics. The state
/// before a position can be asked for up to the position after the last
/// extrinsic, which is the state after all of them; a position beyond that
/// exceeds the block.
pub open spec fn goal_limit(goal: Goal, count: nat) -> Option<nat> {
    match goal {
        Goal::Unset => None,
        Goal::Build => Some(count),
        Goal::StorageChangesBeforeFinalizeBlock => Some(count),
        Goal::StorageChangesBefore(index) => if index <= count {
            Some(index as nat)
        } else {
            None
        },
    }
}

/// True when `header` is the header of a block with the extrinsics `kept`
/// at the height `number` on top of the parent `parent_hash`: it has that
/// height, points to that parent, and its extrinsics root is the root of
/// the ordered trie of the encoded extrinsics.
pub open spec fn header_commits(
    header: Header,
    parent_hash: H256,
    number: BlockNumber,
    kept: Seq<Seq<u8>>,
) -> bool {
    &&& header.number == number
    &&& header.parent_hash == parent_hash
    &&& extrinsics_encodable(kept)
    &&& header@.extrinsics_root == ordered_trie_root(kept)
}

impl<I, S, P> BuilderView<I, S, P> {
    /// True when `header` can be the header of the block that is built:
    /// it is at the height of the header that the block was initialised
    /// with, on top of the same parent, and commits to the extrinsics that
    /// were kept.
    pub open spec fn accepts(self, header: Header) -> bool {
        header_commits(header, self.parent_hash, self.header.number, self.included)
    }

    /// The parts of the view fit together.
    pub open spec fn wf(self) -> bool {
        &&& self.cursor <= self.limit <= self.extrinsics.len()
        &&& self.phase == Phase::Applying ==> self.cursor < self.limit
        &&& self.phase == Phase::CreatingInherents ==> self.inherent_data is Some
        &&& self.phase == Phase::Failed <==> self.error is Some
        &&& self.phase == Phase::Done ==> self.storage_changes is Some
        &&& self.phase == Phase::Done && self.goal == Goal::Build ==> self.finalized is Some
            && (self.proof is Some <==> self.record_proof == RecordProof::Yes)
        &&& (self.phase == Phase::ExtractingProof || self.phase == Phase::Collecting)
            && self.goal == Goal::Build ==> self.finalized is Some
        &&& self.phase == Phase::Collecting && self.goal == Goal::Build ==> (self.proof is Some
            <==> self.record_proof == RecordProof::Yes)
        &&& self.phase == Phase::Finalizing || self.phase == Phase::ExtractingProof
            ==> self.goal == Goal::Build
        &&& self.phase == Phase::ExtractingProof ==> self.record_proof == RecordProof::Yes
        &&& self.proof is Some ==> self.phase == Phase::Collecting || self.phase == Phase::Done
            || self.phase == Phase::Failed
        &&& self.finalized is Some ==> self.phase == Phase::ExtractingProof || self.phase
            == Phase::Collecting || self.phase == Phase::Done || self.phase == Phase::Failed
        &&& self.finalized matches Some(header) ==> self.accepts(header)
    }

    /// The view after the work failed for the reason `error`.
    pub open spec fn failed(self, error: Error) -> Self {
        BuilderView { phase: Phase::Failed, error: Some(error), ..self }
    }

    /// The view after the builder was asked to work out `goal`. A builder
    /// whose work failed stays as it is. One that is not ready fails; so
    /// does one that is asked for the state before a position that exceeds
    /// the number of its extrinsics. Else it begins to apply the
    /// extrinsics, or, where none is to be applied, goes on to what follows
    /// them.
    pub open spec fn started(self, goal: Goal) -> Self {
        if self.phase == Phase::Failed {
            self
        } else if self.phase != Phase::Ready {
            self.failed(Error::NotReady)
        } else {
            match goal_limit(goal, self.extrinsics.len()) {
                None => match goal {
                    Goal::StorageChangesBefore(index) => self.failed(
                        Error::InvalidExtrinsicIndex {
                            got: index,
                            max: self.extrinsics.len() as usize,
                        },
                    ),
                    _ => self.failed(Error::NotReady),
                },
                Some(limit) => BuilderView {
                    goal,
                    limit,
                    cursor: 0,
                    included: Seq::empty(),
                    phase: if limit == 0 {
                        phase_after_applying(goal)
                    } else {
                        Phase::Applying
                    },
                    ..self
                },
            }
        }
    }

    /// The view after the builder was told of `event`, and how the scope
    /// of the call is to be closed.
    ///
    /// An extrinsic that was applied is kept: its scope is committed and it
    /// becomes part of the block. One that is not valid, or for which the
    /// runtime could not be called, is dropped: its scope is rolled back
    /// and the builder goes on with the next one. The scope in which the
    /// inherents were created is rolled back whatever came of it. The
    /// header of the finalised block is taken only where it follows the
    /// parent at the height of the block and commits to the extrinsics that
    /// were kept. Failing to initialise or finalise the block, to create the
    /// inherents or to collect the storage changes ends the work; so does an event that
    /// does not answer the call that the builder wanted made. A builder
    /// whose work failed stays as it is, with the reason for which it
    /// failed first.
    pub open spec fn stepped(self, event: Event<S, P>) -> (Self, Conclusion) {
        match (self.phase, event) {
            (Phase::Failed, _) => (self, Conclusion::Nothing),
            (Phase::EnablingProof, Event::ProofRecordingEnabled) => (
                BuilderView { phase: Phase::Initializing, ..self },
                Conclusion::Nothing,
            ),
            (Phase::Initializing, Event::BlockInitialized(Ok(_))) => (
                BuilderView {
                    phase: if self.inherent_data is Some {
                        Phase::CreatingInherents
                    } else {
                        Phase::Ready
                    },
                    ..self
                },
                Conclusion::Nothing,
            ),
            (Phase::Initializing, Event::BlockInitialized(Err(reason))) => (
                self.failed(Error::RuntimeApiError(reason)),
                Conclusion::Nothing,
            ),
            (Phase::CreatingInherents, Event::InherentsCreated(Ok(inherents))) => (
                BuilderView {
                    phase: Phase::Ready,
                    inherent_data: None,
                    extrinsics: with_inherents(extrinsics_view(inherents@), self.extrinsics),
                    ..self
                },
                Conclusion::RollbackScope,
            ),
            (Phase::CreatingInherents, Event::InherentsCreated(Err(reason))) => (
                self.failed(Error::Application(reason)),
                Conclusion::RollbackScope,
            ),
            (Phase::Applying, Event::ExtrinsicApplied(outcome)) => (
                BuilderView {
                    cursor: self.cursor + 1,
                    included: if outcome is Applied {
                        self.included.push(self.extrinsics[self.cursor as int])
                    } else {
                        self.included
                    },
                    phase: if self.cursor + 1 < self.limit {
                        Phase::Applying
                    } else {
                        phase_after_applying(self.goal)
                    },
                    ..self
                },
                if outcome is Applied {
                    Conclusion::CommitScope
                } else {
                    Conclusion::RollbackScope
                },
            ),
            (Phase::Finalizing, Event::BlockFinalized(Ok(header))) => (
                if self.accepts(header) {
                    BuilderView {
                        finalized: Some(header),
                        phase: if self.record_proof == RecordProof::Yes {
                            Phase::ExtractingProof
                        } else {
                            Phase::Collecting
                        },
                        ..self
                    }
                } else {
                    self.failed(Error::InconsistentHeader)
                },
                Conclusion::Nothing,
            ),
            (Phase::Finalizing, Event::BlockFinalized(Err(reason))) => (
                self.failed(Error::RuntimeApiError(reason)),
                Conclusion::Nothing,
            ),
            (Phase::ExtractingProof, Event::ProofExtracted(Some(proof))) => (
                BuilderView { proof: Some(proof), phase: Phase::Collecting, ..self },
                Conclusion::Nothing,
            ),
            (Phase::ExtractingProof, Event::ProofExtracted(None)) => (
                self.failed(Error::ProofNotRecorded),
                Conclusion::Nothing,
            ),
            (Phase::Collecting, Event::StorageChangesCollected(Ok(changes))) => (
                BuilderView { storage_changes: Some(changes), phase: Phase::Done, ..self },
                Conclusion::Nothing,
            ),
            (Phase::Collecting, Event::StorageChangesCollected(Err(reason))) => (
                self.failed(Error::StorageChanges(reason)),
                Conclusion::Nothing,
            ),
            _ => (self.failed(Error::UnexpectedEvent), Conclusion::Nothing),
        }
    }

    /// True when `action` is the call that a builder with this view wants
    /// made next.
    pub open spec fn wants(self, action: Action<'_, I>) -> bool {
        match self.phase {
            Phase::EnablingProof => action is RecordProof,
            Phase::Initializing => action matches Action::InitializeBlock { parent_hash, header }
                && *parent_hash == self.parent_hash && *header == self.header,
            Phase::CreatingInherents => action matches Action::CreateInherents {
                parent_hash,
                inherent_data,
            } && *parent_hash == self.parent_hash && Some(*inherent_data) == self.inherent_data,
            Phase::Applying => action matches Action::ApplyExtrinsic {
                parent_hash,
                index,
                extrinsic,
            } && *parent_hash == self.parent_hash && index == self.cursor && extrinsic@
                == self.extrinsics[self.cursor as int],
            Phase::Finalizing => action matches Action::FinalizeBlock { parent_hash }
                && *parent_hash == self.parent_hash,
            Phase::ExtractingProof => action is ExtractProof,
            Phase::Collecting => action matches Action::CollectStorageChanges { parent_hash }
                && *parent_hash == self.parent_hash,
            Phase::Ready | Phase::Done | Phase::Failed => action is Idle,
        }
    }
}

/// True when `view` is what a builder holds that was just made for a block
/// on top of the parent `parent_hash` at the height `parent_number`: the
/// header is one above the parent, points to it, carries the digests and
/// has roots of zeros; nothing was applied, and the first call that the
/// builder wants made switches proof recording on, where it was asked for,
/// and else initialises the block.
pub open spec fn is_initial<I, S, P>(
    view: BuilderView<I, S, P>,
    parent_hash: H256,
    parent_number: BlockNumber,
    record_proof: RecordProof,
    inherent_digests: Digest,
    extrinsics: Seq<Seq<u8>>,
    maybe_inherent_data: Option<I>,
) -> bool {
    &&& view.phase == (if record_proof == RecordProof::Yes {
        Phase::EnablingProof
    } else {
        Phase::Initializing
    })
    &&& view.goal == Goal::Unset
    &&& view.record_proof == record_proof
    &&& view.parent_hash == parent_hash
    &&& view.header.number == parent_number + 1
    &&& view.header.parent_hash == parent_hash
    &&& view.header.digest == inherent_digests
    &&& view.header.extrinsics_root@ == Seq::new(32, |i: int| 0u8)
    &&& view.header.state_root@ == Seq::new(32, |i: int| 0u8)
    &&& view.estimated_header_size == encoded_header_size(view.header@)
    &&& view.extrinsics == extrinsics
    &&& view.inherent_data == maybe_inherent_data
    &&& view.cursor == 0
    &&& view.limit == 0
    &&& view.included == Seq::<Seq<u8>>::empty()
    &&& view.finalized is None
    &&& view.proof is None
    &&& view.storage_changes is None
    &&& view.error is None
}

/// The estimated size of a block: the size of its header and of its
/// extrinsics, and that of the recorded proof where it is to be counted and
/// a proof is recorded.
pub open spec fn block_size<I, S, P>(
    view: BuilderView<I, S, P>,
    include_proof: bool,
    recorded_proof_size: Option<usize>,
) -> nat {
    view.estimated_header_size as nat + encoded_extrinsics_size(view.extrinsics) + (
    if include_proof && recorded_proof_size is Some {
        recorded_proof_size->0 as nat
    } else {
        0nat
    })
}

/// Utility for building new blocks from a queue of extrinsics.
///
/// The builder is made for one block. It first wants the block initialised
/// and the inherents created, which it puts in front of the queue. Once it
/// is ready it is asked for one thing, the block or the storage changes up
/// to a position, wants the extrinsics applied one by one, each in a scope
/// of its own, and ends with the result or with a failure.
#[derive(Debug)]
pub struct BlockBuilder<I, S, P> {
    extrinsics: VecDeque<Extrinsic>,
    parent_hash: H256,
    estimated_header_size: usize,
    header: Header,
    record_proof: RecordProof,
    inherent_data: Option<I>,
    phase: Phase,
    goal: Goal,
    cursor: usize,
    limit: usize,
    included: Vec<Extrinsic>,
    finalized: Option<Header>,
    proof: Option<P>,
    storage_changes: Option<S>,
    error: Option<Error>,
}

impl<I, S, P> View for BlockBuilder<I, S, P> {
    type V = BuilderView<I, S, P>;

    closed spec fn view(&self) -> BuilderView<I, S, P> {
        BuilderView {
            phase: self.phase,
            goal: self.goal,
            record_proof: self.record_proof,
            parent_hash: self.parent_hash,
            header: self.header,
            estimated_header_size: self.estimated_header_size,
            extrinsics: extrinsics_view(self.extrinsics@),
            inherent_data: self.inherent_data,
            cursor: self.cursor as nat,
            limit: self.limit as nat,
            included: extrinsics_view(self.included@),
            finalized: self.finalized,
            proof: self.proof,
            storage_changes: self.storage_changes,
            error: self.error,
        }
    }
}

/// Moves the extrinsics of a list into a queue, in their order.
fn into_queue(list: Vec<Extrinsic>) -> (queue: VecDeque<Extrinsic>)
    ensures
        queue@ == list@,
{
    let mut list = list;
    let ghost all = list@;
    let mut queue: VecDeque<Extrinsic> = VecDeque::new();
    while list.len() > 0
        invariant
            queue@.len() + list@.len() == all.len(),
            queue@ == all.subrange(0, queue@.len() as int),
            list@ == all.subrange(queue@.len() as int, all.len() as int),
        decreases list.len(),
    {
        let first = list.remove(0);
        queue.push_back(first);
        proof {
            assert(queue@ =~= all.subrange(0, queue@.len() as int));
            assert(list@ =~= all.subrange(queue@.len() as int, all.len() as int));
        }
    }
    assert(queue@ =~= all);
    queue
}

/// True when the length of every extrinsic of the queue fits in 32 bits.
fn lengths_fit(extrinsics: &VecDeque<Extrinsic>) -> (fit: bool)
    ensures
        fit == (forall|i: int|
            0 <= i < extrinsics@.len() ==> (#[trigger] extrinsics_view(extrinsics@)[i]).len()
                <= u32::MAX),
{
    let mut i: usize = 0;
    while i < extrinsics.len()
        invariant
            i <= extrinsics@.len(),
            forall|j: int|
                0 <= j < i ==> (#[trigger] extrinsics_view(extrinsics@)[j]).len() <= u32::MAX,
        decreases extrinsics@.len() - i,
    {
        if extrinsics[i].len() > 0xffff_ffff {
            assert(extrinsics_view(extrinsics@)[i as int].len() > u32::MAX);
            return false;
        }
        i += 1;
    }
    true
}

impl<I, S, P> BlockBuilder<I, S, P> {
    /// The parts of the builder fit together.
    pub open spec fn wf(&self) -> bool {
        self@.wf()
    }

    /// A builder for the block that follows the parent `parent_hash` at the
    /// height `parent_number`.
    ///
    /// With `record_proof` the builder first wants proof recording switched
    /// on, so that the proof covers all that is executed. With inherent
    /// data it wants the inherents created once the block is initialised,
    /// and puts them in front of `extrinsics`.
    pub fn new(
        parent_hash: H256,
        parent_number: BlockNumber,
        record_proof: RecordProof,
        inherent_digests: Digest,
        extrinsics: VecDeque<Extrinsic>,
        maybe_inherent_data: Option<I>,
    ) -> (builder: Self)
        requires
            parent_number < BlockNumber::MAX,
            digest_encodable(inherent_digests@),
        ensures
            builder.wf(),
            is_initial(
                builder@,
                parent_hash,
                parent_number,
                record_proof,
                inherent_digests,
                extrinsics_view(extrinsics@),
                maybe_inherent_data,
            ),
    {
        let header = Header::new(
            parent_number + 1,
            [0u8; 32],
            [0u8; 32],
            parent_hash,
            inherent_digests,
        );
        let estimated_header_size = header.encoded_size();
        let phase = if record_proof.yes() {
            Phase::EnablingProof
        } else {
            Phase::Initializing
        };
        let builder = BlockBuilder {
            extrinsics,
            parent_hash,
            estimated_header_size,
            header,
            record_proof,
            inherent_data: maybe_inherent_data,
            phase,
            goal: Goal::Unset,
            cursor: 0,
            limit: 0,
            included: Vec::new(),
            finalized: None,
            proof: None,
            storage_changes: None,
            error: None,
        };
        proof {
            assert(builder@.included =~= Seq::<Seq<u8>>::empty());
            assert(builder@.header.extrinsics_root@ =~= Seq::new(32, |i: int| 0u8));
            assert(builder@.header.state_root@ =~= Seq::new(32, |i: int| 0u8));
        }
        builder
    }

    /// A builder as [`BlockBuilder::new`] makes it, or `None` where the
    /// parent has the greatest height there is or the digests cannot be
    /// encoded.
    pub fn checked_new(
        parent_hash: H256,
        parent_number: BlockNumber,
        record_proof: RecordProof,
        inherent_digests: Digest,
        extrinsics: VecDeque<Extrinsic>,
        maybe_inherent_data: Option<I>,
    ) -> (builder: Option<Self>)
        ensures
            match builder {
                Some(made) => {
                    &&& parent_number < BlockNumber::MAX
                    &&& digest_encodable(inherent_digests@)
                    &&& made.wf()
                    &&& is_initial(
                        made@,
                        parent_hash,
                        parent_number,
                        record_proof,
                        inherent_digests,
                        extrinsics_view(extrinsics@),
                        maybe_inherent_data,
                    )
                },
                None => parent_number == BlockNumber::MAX || !digest_encodable(inherent_digests@),
            },
    {
        if parent_number == BlockNumber::MAX || !inherent_digests.is_encodable() {
            None
        } else {
            Some(
                Self::new(
                    parent_hash,
                    parent_number,
                    record_proof,
                    inherent_digests,
                    extrinsics,
                    maybe_inherent_data,
                ),
            )
        }
    }

    /// Where the builder stands.
    pub fn phase(&self) -> (phase: Phase)
        ensures
            phase == self@.phase,
    {
        self.phase
    }

    /// Why the work failed, where it did.
    pub fn error(&self) -> (error: Option<&Error>)
        ensures
            match error {
                Some(reason) => self@.error == Some(*reason),
                None => self@.error is None,
            },
    {
        self.error.as_ref()
    }

    /// The call that the builder wants made next.
    pub fn next_action(&self) -> (action: Action<'_, I>)
        requires
            self.wf(),
        ensures
            self@.wants(action),
    {
        match self.phase {
            Phase::EnablingProof => Action::RecordProof,
            Phase::Initializing => Action::InitializeBlock {
                parent_hash: &self.parent_hash,
                header: &self.header,
            },
            Phase::CreatingInherents => match &self.inherent_data {
                Some(inherent_data) => Action::CreateInherents {
                    parent_hash: &self.parent_hash,
                    inherent_data,
                },
                None => Action::Idle,
            },
            Phase::Applying => Action::ApplyExtrinsic {
                parent_hash: &self.parent_hash,
                index: self.cursor,
                extrinsic: &self.extrinsics[self.cursor],
            },
            Phase::Finalizing => Action::FinalizeBlock { parent_hash: &self.parent_hash },
            Phase::ExtractingProof => Action::ExtractProof,
            Phase::Collecting => Action::CollectStorageChanges { parent_hash: &self.parent_hash },
            Phase::Ready | Phase::Done | Phase::Failed => Action::Idle,
        }
    }

    /// Ends the work for the reason `error`.
    fn fail(&mut self, error: Error)
        ensures
            final(self)@ == old(self)@.failed(error),
    {
        self.phase = Phase::Failed;
        self.error = Some(error);
    }

    /// What the builder makes of the runtime's answer to the request for
    /// the inherents: the inherents in their order, or the failure. The
    /// scope in which the runtime was asked is rolled back whatever it
    /// answered, so that creating inherents never changes the state.
    pub fn create_inherents(answer: Result<Vec<Extrinsic>, String>) -> (made: (
        Result<VecDeque<Extrinsic>, Error>,
        Conclusion,
    ))
        ensures
            made.1 == Conclusion::RollbackScope,
            match answer {
                Ok(inherents) => made.0 is Ok && made.0->Ok_0@ == inherents@,
                Err(reason) => made.0 == Err::<VecDeque<Extrinsic>, Error>(
                    Error::Application(reason),
                ),
            },
    {
        match answer {
            Ok(inherents) => (Ok(into_queue(inherents)), Conclusion::RollbackScope),
            Err(reason) => (Err(Error::Application(reason)), Conclusion::RollbackScope),
        }
    }

    /// Puts the inherents in front of the queue, one by one.
    fn put_in_front(&mut self, inherents: VecDeque<Extrinsic>)
        ensures
            final(self)@ == (BuilderView {
                extrinsics: with_inherents(extrinsics_view(inherents@), old(self)@.extrinsics),
                ..old(self)@
            }),
    {
        let mut inherents = inherents;
        let ghost all = inherents@;
        let ghost queue = self.extrinsics@;
        let ghost mut done: int = 0;
        loop
            invariant
                0 <= done <= all.len(),
                inherents@ == all.subrange(done, all.len() as int),
                self.extrinsics@ == all.subrange(0, done).reverse() + queue,
                self@ == (BuilderView { extrinsics: self@.extrinsics, ..old(self)@ }),
            ensures
                done == all.len(),
                self.extrinsics@ == all.reverse() + queue,
                self@ == (BuilderView { extrinsics: self@.extrinsics, ..old(self)@ }),
            decreases inherents@.len(),
        {
            match inherents.pop_front() {
                Some(inherent) => {
                    self.extrinsics.push_front(inherent);
                    proof {
                        assert(self.extrinsics@ =~= all.subrange(0, done + 1).reverse() + queue);
                        assert(inherents@ =~= all.subrange(done + 1, all.len() as int));
                        done = done + 1;
                    }
                },
                None => {
                    assert(all.subrange(0, done) =~= all);
                    break ;
                },
            }
        }
        proof {
            assert(extrinsics_view(all.reverse() + queue) =~= with_inherents(
                extrinsics_view(all),
                extrinsics_view(queue),
            ));
        }
    }

    /// Takes note that the block was initialised, or could not be: the
    /// builder goes on to the inherents, where it was given data for them,
    /// and is ready else.
    fn initialize_block(&mut self, initialized: Result<(), String>)
        requires
            old(self).wf(),
            old(self)@.phase == Phase::Initializing,
        ensures
            final(self).wf(),
            (final(self)@, Conclusion::Nothing) == old(self)@.stepped(
                Event::<S, P>::BlockInitialized(initialized),
            ),
    {
        match initialized {
            Ok(_) => {
                if self.inherent_data.is_some() {
                    self.phase = Phase::CreatingInherents;
                } else {
                    self.phase = Phase::Ready;
                }
            },
            Err(reason) => {
                self.fail(Error::RuntimeApiError(reason));
            },
        }
    }

    /// Takes the inherents that the runtime created into the queue, in
    /// front of what waits there.
    fn take_inherents(&mut self, answer: Result<Vec<Extrinsic>, String>) -> (conclusion: Conclusion)
        requires
            old(self).wf(),
            old(self)@.phase == Phase::CreatingInherents,
        ensures
            final(self).wf(),
            (final(self)@, conclusion) == old(self)@.stepped(
                Event::<S, P>::InherentsCreated(answer),
            ),
    {
        let (made, conclusion) = Self::create_inherents(answer);
        match made {
            Ok(inherents) => {
                self.put_in_front(inherents);
                self.inherent_data = None;
                self.phase = Phase::Ready;
            },
            Err(error) => {
                self.fail(error);
            },
        }
        conclusion
    }

    /// Deals with the outcome of applying the extrinsic that was next: one
    /// that was applied is kept and its scope committed, any other is
    /// dropped and its scope rolled back. Either way the builder goes on
    /// with the next extrinsic, or with what follows the last.
    fn execute_extrinsic(&mut self, outcome: ApplyResult) -> (conclusion: Conclusion)
        requires
            old(self).wf(),
            old(self)@.phase == Phase::Applying,
        ensures
            final(self).wf(),
            (final(self)@, conclusion) == old(self)@.stepped(
                Event::<S, P>::ExtrinsicApplied(outcome),
            ),
    {
        let applied = match outcome {
            ApplyResult::Applied => true,
            _ => false,
        };
        if applied {
            let extrinsic = self.extrinsics[self.cursor].clone();
            assert(extrinsic@ =~= self.extrinsics@[self.cursor as int]@);
            self.included.push(extrinsic);
            assert(self@.included =~= old(self)@.included.push(
                old(self)@.extrinsics[self.cursor as int],
            ));
        }
        self.cursor = self.cursor + 1;
        if self.cursor >= self.limit {
            self.phase = match self.goal {
                Goal::Build => Phase::Finalizing,
                _ => Phase::Collecting,
            };
        }
        if applied {
            Conclusion::CommitScope
        } else {
            Conclusion::RollbackScope
        }
    }

    /// Whether `header` can be the header of the block that is built.
    fn header_is_consistent(&self, header: &Header) -> (consistent: bool)
        ensures
            consistent == self@.accepts(*header),
    {
        if header.number != self.header.number {
            return false;
        }
        let same_parent = crate::primitives::bytes_eq(
            header.parent_hash.as_slice(),
            self.parent_hash.as_slice(),
        );
        assert(same_parent == (header.parent_hash =~= self.parent_hash));
        if !same_parent || !extrinsics_fit(&self.included) {
            return false;
        }
        let root = hash_ordered_trie_root(&self.included);
        crate::primitives::bytes_eq(root.as_slice(), header.extrinsics_root.as_slice())
    }

    /// Takes the header of the finalised block, where it is the header of
    /// the block that was built; fails where it is not, or where the block
    /// could not be finalised.
    fn finalize_block(&mut self, finalized: Result<Header, String>)
        requires
            old(self).wf(),
            old(self)@.phase == Phase::Finalizing,
        ensures
            final(self).wf(),
            (final(self)@, Conclusion::Nothing) == old(self)@.stepped(
                Event::<S, P>::BlockFinalized(finalized),
            ),
    {
        match finalized {
            Ok(header) => {
                if self.header_is_consistent(&header) {
                    self.finalized = Some(header);
                    if self.record_proof.yes() {
                        self.phase = Phase::ExtractingProof;
                    } else {
                        self.phase = Phase::Collecting;
                    }
                } else {
                    self.fail(Error::InconsistentHeader);
                }
            },
            Err(reason) => {
                self.fail(Error::RuntimeApiError(reason));
            },
        }
    }

    /// Takes the proof that was recorded, or fails where there is none.
    fn extract_proof(&mut self, extracted: Option<P>)
        requires
            old(self).wf(),
            old(self)@.phase == Phase::ExtractingProof,
        ensures
            final(self).wf(),
            (final(self)@, Conclusion::Nothing) == old(self)@.stepped(
                Event::<S, P>::ProofExtracted(extracted),
            ),
    {
        match extracted {
            Some(proof) => {
                self.proof = Some(proof);
                self.phase = Phase::Collecting;
            },
            None => {
                self.fail(Error::ProofNotRecorded);
            },
        }
    }

    /// Takes the storage changes, with which the work is done, or fails
    /// where they could not be collected.
    fn collect_storage_changes(&mut self, collected: Result<S, String>)
        requires
            old(self).wf(),
            old(self)@.phase == Phase::Collecting,
        ensures
            final(self).wf(),
            (final(self)@, Conclusion::Nothing) == old(self)@.stepped(
                Event::<S, P>::StorageChangesCollected(collected),
            ),
    {
        match collected {
            Ok(changes) => {
                self.storage_changes = Some(changes);
                self.phase = Phase::Done;
            },
            Err(reason) => {
                self.fail(Error::StorageChanges(reason));
            },
        }
    }

    /// Tells the builder what came of the call that it wanted made, and
    /// hands out how the scope of that call is to be closed.
    pub fn step(&mut self, event: Event<S, P>) -> (conclusion: Conclusion)
        requires
            old(self).wf(),
        ensures
            final(self).wf(),
            (final(self)@, conclusion) == old(self)@.stepped(event),
    {
        match (self.phase, event) {
            (Phase::Failed, _) => Conclusion::Nothing,
            (Phase::EnablingProof, Event::ProofRecordingEnabled) => {
                self.phase = Phase::Initializing;
                Conclusion::Nothing
            },
            (Phase::Initializing, Event::BlockInitialized(initialized)) => {
                self.initialize_block(initialized);
                Conclusion::Nothing
            },
            (Phase::CreatingInherents, Event::InherentsCreated(answer)) => self.take_inherents(
                answer,
            ),
            (Phase::Applying, Event::ExtrinsicApplied(outcome)) => self.execute_extrinsic(outcome),
            (Phase::Finalizing, Event::BlockFinalized(finalized)) => {
                self.finalize_block(finalized);
                Conclusion::Nothing
            },
            (Phase::ExtractingProof, Event::ProofExtracted(extracted)) => {
                self.extract_proof(extracted);
                Conclusion::Nothing
            },
            (Phase::Collecting, Event::StorageChangesCollected(collected)) => {
                self.collect_storage_changes(collected);
                Conclusion::Nothing
            },
            _ => {
                self.fail(Error::UnexpectedEvent);
                Conclusion::Nothing
            },
        }
    }

    /// Asks the builder to work out `goal`.
    pub fn start(&mut self, goal: Goal)
        requires
            old(self).wf(),
        ensures
            final(self).wf(),
            final(self)@ == old(self)@.started(goal),
    {
        if self.phase == Phase::Failed {
            return ;
        }
        if self.phase != Phase::Ready {
            self.fail(Error::NotReady);
            return ;
        }
        let count = self.extrinsics.len();
        let limit = match goal {
            Goal::Unset => {
                self.fail(Error::NotReady);
                return ;
            },
            Goal::Build => count,
            Goal::StorageChangesBeforeFinalizeBlock => count,
            Goal::StorageChangesBefore(index) => {
                if index <= count {
                    index
                } else {
                    self.fail(Error::InvalidExtrinsicIndex { got: index, max: count });
                    return ;
                }
            },
        };
        self.goal = goal;
        self.limit = limit;
        self.cursor = 0;
        self.included = Vec::new();
        self.phase = if limit == 0 {
            match goal {
                Goal::Build => Phase::Finalizing,
                _ => Phase::Collecting,
            }
        } else {
            Phase::Applying
        };
        proof {
            assert(self@.included =~= Seq::<Seq<u8>>::empty());
        }
    }
}

/// What is handed out when a finished builder is asked for the storage
/// changes that it was to work out for `goal`.
pub open spec fn storage_changes_result<I, S, P>(
    view: BuilderView<I, S, P>,
    goal: Goal,
    result: Result<S, Error>,
) -> bool {
    if view.phase == Phase::Failed {
        result is Err && Some(result->Err_0) == view.error
    } else if view.phase == Phase::Done && view.goal == goal {
        result is Ok && Some(result->Ok_0) == view.storage_changes
    } else {
        result == Err::<S, Error>(Error::NotFinished)
    }
}

impl<I, S, P> BlockBuilder<I, S, P> {
    /// Consumes the builder and hands out the block that it built: the
    /// finalised header with the extrinsics that were applied and kept, the
    /// storage changes and, exactly where proof recording was asked for,
    /// the proof. The header is one above the parent, points to it, and
    /// its extrinsics root commits to the extrinsics of the block.
    ///
    /// A builder whose work failed hands out the failure; one that has not
    /// built a block says so.
    pub fn build(self) -> (result: Result<BuiltBlock<S, P>, Error>)
        requires
            self.wf(),
        ensures
            match result {
                Ok(built) => {
                    &&& self@.phase == Phase::Done
                    &&& self@.goal == Goal::Build
                    &&& Some(built.block.header) == self@.finalized
                    &&& extrinsics_view(built.block.extrinsics@) == self@.included
                    &&& built.block.header.number == self@.header.number
                    &&& built.block.header.parent_hash == self@.parent_hash
                    &&& extrinsics_encodable(extrinsics_view(built.block.extrinsics@))
                    &&& built.block.header@.extrinsics_root == ordered_trie_root(
                        extrinsics_view(built.block.extrinsics@),
                    )
                    &&& Some(built.storage_changes) == self@.storage_changes
                    &&& built.proof == self@.proof
                    &&& built.proof is Some <==> self@.record_proof == RecordProof::Yes
                },
                Err(error) => if self@.phase == Phase::Failed {
                    Some(error) == self@.error
                } else {
                    error == Error::NotFinished && !(self@.phase == Phase::Done && self@.goal
                        == Goal::Build)
                },
            },
    {
        let BlockBuilder { phase, goal, finalized, storage_changes, proof, included, error, .. } =
            self;
        match phase {
            Phase::Failed => match error {
                Some(error) => Err(error),
                None => Err(Error::NotFinished),
            },
            Phase::Done => match (goal, finalized, storage_changes) {
                (Goal::Build, Some(header), Some(storage_changes)) => Ok(
                    BuiltBlock { block: Block::new(header, included), storage_changes, proof },
                ),
                _ => Err(Error::NotFinished),
            },
            _ => Err(Error::NotFinished),
        }
    }

    /// Consumes the builder and hands out the storage changes that it
    /// worked out for `goal`.
    fn into_storage_changes(self, goal: Goal) -> (result: Result<S, Error>)
        requires
            self.wf(),
        ensures
            storage_changes_result(self@, goal, result),
    {
        let BlockBuilder { phase, goal: reached, storage_changes, error, .. } = self;
        match phase {
            Phase::Failed => match error {
                Some(error) => Err(error),
                None => Err(Error::NotFinished),
            },
            Phase::Done => {
                if reached == goal {
                    match storage_changes {
                        Some(changes) => Ok(changes),
                        None => Err(Error::NotFinished),
                    }
                } else {
                    Err(Error::NotFinished)
                }
            },
            _ => Err(Error::NotFinished),
        }
    }

    /// Consumes the builder and hands out the state before the extrinsic at
    /// `extrinsic_index`: the storage changes of the extrinsics before it
    /// that were applied and kept. For the position after the last
    /// extrinsic that is the state after all of them.
    ///
    /// A builder whose work failed hands out the failure, which for a
    /// position that exceeds the number of extrinsics is
    /// `InvalidExtrinsicIndex`. One that was not asked for this says so.
    pub fn prepare_storage_changes_before(self, extrinsic_index: usize) -> (result: Result<
        S,
        Error,
    >)
        requires
            self.wf(),
        ensures
            storage_changes_result(self@, Goal::StorageChangesBefore(extrinsic_index), result),
    {
        self.into_storage_changes(Goal::StorageChangesBefore(extrinsic_index))
    }

    /// Consumes the builder and hands out the state before the block is
    /// finalised: the storage changes of all extrinsics that were applied
    /// and kept.
    pub fn prepare_storage_changes_before_finalize_block(self) -> (result: Result<S, Error>)
        requires
            self.wf(),
        ensures
            storage_changes_result(self@, Goal::StorageChangesBeforeFinalizeBlock, result),
    {
        self.into_storage_changes(Goal::StorageChangesBeforeFinalizeBlock)
    }

    /// Estimates the size of the block in its current state: the size of
    /// the header and of the queue of extrinsics. With `include_proof` the
    /// size of the recorded proof is added, where a proof is recorded.
    pub fn estimate_block_size(&self, include_proof: bool, recorded_proof_size: Option<usize>) -> (size:
        usize)
        requires
            self.wf(),
            extrinsics_encodable(self@.extrinsics),
            block_size(self@, include_proof, recorded_proof_size) <= usize::MAX,
        ensures
            size == block_size(self@, include_proof, recorded_proof_size),
    {
        let size = self.estimated_header_size + scale_encoded_extrinsics_size(&self.extrinsics);
        if include_proof {
            size + match recorded_proof_size {
                Some(proof_size) => proof_size,
                None => 0,
            }
        } else {
            size
        }
    }

    /// Estimates the size of the block as `estimate_block_size` does, where
    /// the queue can be encoded and the sum fits; `None` else.
    pub fn checked_estimate_block_size(
        &self,
        include_proof: bool,
        recorded_proof_size: Option<usize>,
    ) -> (size: Option<usize>)
        requires
            self.wf(),
        ensures
            match size {
                Some(estimate) => extrinsics_encodable(self@.extrinsics) && estimate == block_size(
                    self@,
                    include_proof,
                    recorded_proof_size,
                ),
                None => !extrinsics_encodable(self@.extrinsics) || block_size(
                    self@,
                    include_proof,
                    recorded_proof_size,
                ) > usize::MAX,
            },
    {
        if self.extrinsics.len() > 0xffff_ffff || !lengths_fit(&self.extrinsics) {
            return None;
        }
        let extrinsics_size = scale_encoded_extrinsics_size(&self.extrinsics);
        let proof_size = if include_proof {
            match recorded_proof_size {
                Some(proof_size) => proof_size,
                None => 0,
            }
        } else {
            0
        };
        match self.estimated_header_size.checked_add(extrinsics_size) {
            Some(size) => match size.checked_add(proof_size) {
                Some(_) => Some(self.estimate_block_size(include_proof, recorded_proof_size)),
                None => None,
            },
            None => None,
        }
    }
}

/// The block on top of which a block is to be built.
#[derive(Clone, Copy, Debug, PartialEq, Eq)]
pub enum BlockId {
    /// The block with this hash.
    Hash(H256),
    /// The block at this height.
    Number(BlockNumber),
}

/// Makes builders for new blocks. A client implements it for the chain
/// that it follows.
pub trait BlockBuilderProvider<I, S, P> {
    /// Create a new block, built on top of `parent`.
    ///
    /// When proof recording is enabled, all accessed trie nodes are saved,
    /// so that a third party can check what the builder puts out without
    /// the full storage. The builder that is handed out is fresh: nothing
    /// was applied, no extrinsic waits in it, and the digests are those
    /// given.
    fn new_block_at(&self, parent: &BlockId, inherent_digests: Digest, record_proof: RecordProof) -> (built:
        Result<BlockBuilder<I, S, P>, Error>)
        ensures
            built matches Ok(builder) ==> {
                &&& builder.wf()
                &&& parent matches BlockId::Hash(hash) ==> builder@.parent_hash == hash
                &&& parent matches BlockId::Number(number) ==> builder@.header.number == number + 1
                &&& is_initial(
                    builder@,
                    builder@.parent_hash,
                    (builder@.header.number - 1) as BlockNumber,
                    record_proof,
                    inherent_digests,
                    Seq::empty(),
                    None,
                )
            },
    ;

    /// Create a new block, built on the head of the chain, without proof
    /// recording.
    fn new_block(&self, inherent_digests: Digest) -> (built: Result<BlockBuilder<I, S, P>, Error>)
        ensures
            built matches Ok(builder) ==> {
                &&& builder.wf()
                &&& is_initial(
                    builder@,
                    builder@.parent_hash,
                    (builder@.header.number - 1) as BlockNumber,
                    RecordProof::No,
                    inherent_digests,
                    Seq::empty(),
                    None,
                )
            },
    ;
}

/// True when `built` is what a chain that knows its head `head` hands out
/// when it is asked for a block on top of a parent that is, or is not, its
/// head: a builder for the block above the head, or the reason why there
/// is none.
pub open spec fn built_on_head<I, S, P>(
    head: ChainHead,
    parent_is_head: bool,
    inherent_digests: Digest,
    built: Result<BlockBuilder<I, S, P>, Error>,
) -> bool {
    if !parent_is_head {
        built matches Err(Error::UnknownBlock(_))
    } else if head.number < BlockNumber::MAX && digest_encodable(inherent_digests@) {
        built matches Ok(builder) && builder@.parent_hash == head.hash && builder@.header.number
            == head.number + 1
    } else {
        built matches Err(Error::CannotExtend)
    }
}

/// A chain of which nothing but the head is known: blocks are built on top
/// of the head only.
#[derive(Clone, Copy, Debug, PartialEq, Eq)]
pub struct ChainHead {
    /// The hash of the head.
    pub hash: H256,
    /// The height of the head.
    pub number: BlockNumber,
}

impl ChainHead {
    /// Whether `parent` is the head.
    pub fn is_head(&self, parent: &BlockId) -> (known: bool)
        ensures
            known == match *parent {
                BlockId::Hash(hash) => hash == self.hash,
                BlockId::Number(number) => number == self.number,
            },
    {
        match parent {
            BlockId::Hash(hash) => {
                let same = crate::primitives::bytes_eq(hash.as_slice(), self.hash.as_slice());
                assert(same == (*hash =~= self.hash));
                same
            },
            BlockId::Number(number) => *number == self.number,
        }
    }
}

impl<I, S, P> BlockBuilderProvider<I, S, P> for ChainHead {
    fn new_block_at(&self, parent: &BlockId, inherent_digests: Digest, record_proof: RecordProof) -> (built:
        Result<BlockBuilder<I, S, P>, Error>)
        ensures
            built_on_head::<I, S, P>(*self, self.is_head_spec(*parent), inherent_digests, built),
    {
        if !self.is_head(parent) {
            return Err(Error::UnknownBlock(String::new()));
        }
        match BlockBuilder::checked_new(
            self.hash,
            self.number,
            record_proof,
            inherent_digests,
            VecDeque::new(),
            None,
        ) {
            Some(builder) => {
                assert(extrinsics_view(Seq::<Extrinsic>::empty()) =~= Seq::<Seq<u8>>::empty());
                Ok(builder)
            },
            None => Err(Error::CannotExtend),
        }
    }

    fn new_block(&self, inherent_digests: Digest) -> (built: Result<BlockBuilder<I, S, P>, Error>)
        ensures
            built_on_head::<I, S, P>(*self, true, inherent_digests, built),
    {
        match BlockBuilder::checked_new(
            self.hash,
            self.number,
            RecordProof::No,
            inherent_digests,
            VecDeque::new(),
            None,
        ) {
            Some(builder) => {
                assert(extrinsics_view(Seq::<Extrinsic>::empty()) =~= Seq::<Seq<u8>>::empty());
                Ok(builder)
            },
            None => Err(Error::CannotExtend),
        }
    }
}

impl ChainHead {
    /// Whether `parent` is the head.
    pub open spec fn is_head_spec(&self, parent: BlockId) -> bool {
        match parent {
            BlockId::Hash(hash) => hash == self.hash,
            BlockId::Number(number) => number == self.number,
        }
    }
}

} // verus!
