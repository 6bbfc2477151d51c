use domains_core::block_builder::{
    Action, ApplyResult, Block, BlockBuilder, BlockBuilderProvider, BlockId, BuiltBlock,
    ChainHead, Conclusion, Error, Event, Extrinsic, Goal, Header, Phase, RecordProof,
};
use domains_core::digest::{Digest, DigestItem};
use parity_scale_codec::Encode;
use std::collections::VecDeque;

/// A stand-in for the runtime and its state. An extrinsic changes the state
/// by appending itself; one that begins with `0xff` is not valid, and for
/// one that begins with `0xfe` the runtime cannot be called.
#[derive(Default)]
struct Context {
    committed: Vec<Extrinsic>,
    scope: Vec<Extrinsic>,
    recording: bool,
    initialized: Option<Header>,
    fail_initialize: bool,
    fail_finalize: bool,
    fail_collect: bool,
    fail_inherents: bool,
    calls: Vec<String>,
}

type Builder = BlockBuilder<Vec<Extrinsic>, Vec<Extrinsic>, Vec<u8>>;

impl Context {
    /// Performs the call that the builder wants made and tells the builder
    /// of the outcome. Hands out false when the builder wants nothing.
    fn perform(&mut self, builder: &mut Builder) -> bool {
        let event = match builder.next_action() {
            Action::Idle => return false,
            Action::RecordProof => {
                self.calls.push("record_proof".into());
                self.recording = true;
                Event::ProofRecordingEnabled
            }
            Action::InitializeBlock { header, .. } => {
                self.calls.push("initialize_block".into());
                if self.fail_initialize {
                    Event::BlockInitialized(Err("no runtime".into()))
                } else {
                    self.initialized = Some(header.clone());
                    Event::BlockInitialized(Ok(()))
                }
            }
            Action::CreateInherents { inherent_data, .. } => {
                self.calls.push("inherent_extrinsics".into());
                // creating inherents touches the state
                self.scope = vec![b"inherent-side-effect".to_vec()];
                if self.fail_inherents {
                    Event::InherentsCreated(Err("no inherents".into()))
                } else {
                    Event::InherentsCreated(Ok(inherent_data.clone()))
                }
            }
            Action::ApplyExtrinsic { index, extrinsic, .. } => {
                self.calls.push(format!("apply {index}"));
                self.scope = vec![extrinsic.clone()];
                Event::ExtrinsicApplied(match extrinsic.first() {
                    Some(0xff) => ApplyResult::Invalid("bad nonce".into()),
                    Some(0xfe) => ApplyResult::Faulted("no runtime".into()),
                    _ => ApplyResult::Applied,
                })
            }
            Action::FinalizeBlock { parent_hash } => {
                self.calls.push("finalize_block".into());
                if self.fail_finalize {
                    Event::BlockFinalized(Err("cannot finalize".into()))
                } else {
                    let initialized = self.initialized.clone().unwrap();
                    assert_eq!(*parent_hash, initialized.parent_hash);
                    Event::BlockFinalized(Ok(Header {
                        state_root: [self.committed.len() as u8; 32],
                        extrinsics_root: root_of(&self.committed),
                        ..initialized
                    }))
                }
            }
            Action::ExtractProof => {
                self.calls.push("extract_proof".into());
                Event::ProofExtracted(if self.recording { Some(vec![1, 2, 3]) } else { None })
            }
            Action::CollectStorageChanges { .. } => {
                self.calls.push("into_storage_changes".into());
                if self.fail_collect {
                    Event::StorageChangesCollected(Err("no state".into()))
                } else {
                    Event::StorageChangesCollected(Ok(self.committed.clone()))
                }
            }
        };
        match builder.step(event) {
            Conclusion::Nothing => {}
            Conclusion::CommitScope => {
                self.calls.push("commit".into());
                self.committed.append(&mut self.scope);
            }
            Conclusion::RollbackScope => {
                self.calls.push("rollback".into());
                self.scope.clear();
            }
        }
        true
    }

    fn drive(&mut self, builder: &mut Builder) {
        while self.perform(builder) {}
    }
}

/// The extrinsics root that the runtime gives a block with these
/// extrinsics.
fn root_of(extrinsics: &[Extrinsic]) -> [u8; 32] {
    <sp_runtime::traits::BlakeTwo256 as sp_runtime::traits::Hash>::ordered_trie_root(
        extrinsics.iter().map(Encode::encode).collect(),
        sp_runtime::StateVersion::V1,
    )
    .0
}

fn queue(extrinsics: &[&[u8]]) -> VecDeque<Extrinsic> {
    extrinsics.iter().map(|extrinsic| extrinsic.to_vec()).collect()
}

fn new_builder(record_proof: RecordProof, extrinsics: &[&[u8]]) -> Builder {
    BlockBuilder::new([7; 32], 41, record_proof, Digest::default(), queue(extrinsics), None)
}

fn build(context: &mut Context, mut builder: Builder) -> Result<BuiltBlock<Vec<Extrinsic>, Vec<u8>>, Error> {
    context.drive(&mut builder);
    builder.start(Goal::Build);
    context.drive(&mut builder);
    builder.build()
}

#[test]
fn record_proof_says_yes_for_yes_only() {
    assert!(RecordProof::Yes.yes());
    assert!(!RecordProof::No.yes());
    assert!(!RecordProof::default().yes());
    assert!(RecordProof::from(true).yes());
    assert!(!RecordProof::from(false).yes());
    assert!(RecordProof::from(true) == RecordProof::Yes);
}

#[test]
fn header_is_one_above_the_parent() {
    let mut context = Context::default();
    let mut builder = new_builder(RecordProof::No, &[]);
    assert_eq!(builder.phase(), Phase::Initializing);
    match builder.next_action() {
        Action::InitializeBlock { parent_hash, header } => {
            assert_eq!(*parent_hash, [7; 32]);
            assert_eq!(
                *header,
                Header {
                    number: 42,
                    extrinsics_root: [0; 32],
                    state_root: [0; 32],
                    parent_hash: [7; 32],
                    digest: Digest::default(),
                }
            );
        }
        other => panic!("unexpected action {other:?}"),
    }
    context.drive(&mut builder);
    assert_eq!(builder.phase(), Phase::Ready);
    assert_eq!(context.calls, vec!["initialize_block"]);
}

#[test]
fn invalid_extrinsic_costs_the_block_nothing_but_itself() {
    let mut context = Context::default();
    let builder = new_builder(RecordProof::No, &[&[0], &[1], &[0xff, 2], &[3], &[4]]);
    let built = build(&mut context, builder).unwrap();
    let kept: Vec<Extrinsic> = vec![vec![0], vec![1], vec![3], vec![4]];
    assert_eq!(built.block.extrinsics, kept);
    assert_eq!(built.storage_changes, kept);
    assert_eq!(built.proof, None);
    assert_eq!(built.block.header.number, 42);
    assert_eq!(built.block.header.state_root, [4; 32]);
    assert_eq!(
        context.calls,
        vec![
            "initialize_block",
            "apply 0",
            "commit",
            "apply 1",
            "commit",
            "apply 2",
            "rollback",
            "apply 3",
            "commit",
            "apply 4",
            "commit",
            "finalize_block",
            "into_storage_changes",
        ]
    );
}

#[test]
fn fault_of_the_runtime_drops_the_extrinsic_and_goes_on() {
    let mut context = Context::default();
    let builder = new_builder(RecordProof::No, &[&[0xfe], &[0xff], &[1], &[0xfe, 1]]);
    let built = build(&mut context, builder).unwrap();
    assert_eq!(built.block.extrinsics, vec![vec![1u8]]);
    assert_eq!(built.storage_changes, vec![vec![1u8]]);
}

#[test]
fn block_of_invalid_extrinsics_is_built_empty() {
    let mut context = Context::default();
    let builder = new_builder(RecordProof::No, &[&[0xff], &[0xff, 1]]);
    let (block, storage_changes, proof) = build(&mut context, builder).unwrap().into_inner();
    assert!(block.extrinsics.is_empty());
    assert!(storage_changes.is_empty());
    assert_eq!(proof, None);
}

#[test]
fn empty_block_is_built() {
    let mut context = Context::default();
    let built = build(&mut context, new_builder(RecordProof::No, &[])).unwrap();
    assert!(built.block.extrinsics.is_empty());
    assert_eq!(context.calls, vec!["initialize_block", "finalize_block", "into_storage_changes"]);
}

#[test]
fn proof_is_there_exactly_when_it_is_recorded() {
    let mut context = Context::default();
    let built = build(&mut context, new_builder(RecordProof::Yes, &[&[1]])).unwrap();
    assert_eq!(built.proof, Some(vec![1, 2, 3]));
    // recording is switched on before anything is executed
    assert_eq!(
        context.calls,
        vec![
            "record_proof",
            "initialize_block",
            "apply 0",
            "commit",
            "finalize_block",
            "extract_proof",
            "into_storage_changes",
        ]
    );

    let mut context = Context::default();
    let built = build(&mut context, new_builder(RecordProof::No, &[&[1]])).unwrap();
    assert_eq!(built.proof, None);
    assert!(!context.calls.contains(&"record_proof".to_string()));
    assert!(!context.calls.contains(&"extract_proof".to_string()));
}

#[test]
fn missing_proof_fails_the_build() {
    let mut builder = new_builder(RecordProof::Yes, &[]);
    assert_eq!(builder.step(Event::ProofRecordingEnabled), Conclusion::Nothing);
    assert_eq!(builder.step(Event::BlockInitialized(Ok(()))), Conclusion::Nothing);
    builder.start(Goal::Build);
    let header = Header::new(42, root_of(&[]), [0; 32], [7; 32], Digest::default());
    assert_eq!(builder.step(Event::BlockFinalized(Ok(header))), Conclusion::Nothing);
    assert_eq!(builder.phase(), Phase::ExtractingProof);
    assert_eq!(builder.step(Event::ProofExtracted(None)), Conclusion::Nothing);
    assert_eq!(builder.phase(), Phase::Failed);
    assert_eq!(builder.build().unwrap_err(), Error::ProofNotRecorded);
}

#[test]
fn inherents_come_first_and_leave_the_state_alone() {
    let mut context = Context::default();
    let inherents: Vec<Extrinsic> = vec![vec![10], vec![11], vec![12]];
    let builder: Builder = BlockBuilder::new(
        [7; 32],
        41,
        RecordProof::No,
        Digest::default(),
        queue(&[&[1], &[2]]),
        Some(inherents),
    );
    let built = build(&mut context, builder).unwrap();
    // each inherent is put in front of the ones before it
    let expected: Vec<Extrinsic> = vec![vec![12], vec![11], vec![10], vec![1], vec![2]];
    assert_eq!(built.block.extrinsics, expected);
    assert_eq!(built.storage_changes, expected);
    assert_eq!(context.calls[..3], ["initialize_block", "inherent_extrinsics", "rollback"]);
}

#[test]
fn create_inherents_always_rolls_back() {
    let (made, conclusion) = Builder::create_inherents(Ok(vec![vec![1], vec![2]]));
    assert_eq!(made, Ok(queue(&[&[1], &[2]])));
    assert_eq!(conclusion, Conclusion::RollbackScope);
    let (made, conclusion) = Builder::create_inherents(Err("no inherents".into()));
    assert_eq!(made, Err(Error::Application("no inherents".into())));
    assert_eq!(conclusion, Conclusion::RollbackScope);
}

#[test]
fn structural_faults_fail_the_build() {
    let mut context = Context { fail_initialize: true, ..Context::default() };
    let failed = build(&mut context, new_builder(RecordProof::No, &[&[1]]));
    assert_eq!(failed.unwrap_err(), Error::RuntimeApiError("no runtime".into()));
    assert_eq!(context.calls, vec!["initialize_block"]);

    let mut context = Context { fail_inherents: true, ..Context::default() };
    let builder: Builder =
        BlockBuilder::new([7; 32], 41, RecordProof::No, Digest::default(), queue(&[]), Some(vec![]));
    let failed = build(&mut context, builder);
    assert_eq!(failed.unwrap_err(), Error::Application("no inherents".into()));
    assert_eq!(context.calls, vec!["initialize_block", "inherent_extrinsics", "rollback"]);

    let mut context = Context { fail_finalize: true, ..Context::default() };
    let failed = build(&mut context, new_builder(RecordProof::No, &[&[1]]));
    assert_eq!(failed.unwrap_err(), Error::RuntimeApiError("cannot finalize".into()));

    let mut context = Context { fail_collect: true, ..Context::default() };
    let failed = build(&mut context, new_builder(RecordProof::No, &[&[1]]));
    assert_eq!(failed.unwrap_err(), Error::StorageChanges("no state".into()));
}

#[test]
fn storage_changes_before_an_extrinsic() {
    let extrinsics: [&[u8]; 4] = [&[0], &[0xff], &[2], &[3]];
    let expected: [Vec<Extrinsic>; 5] = [
        vec![],
        vec![vec![0]],
        vec![vec![0]],
        vec![vec![0], vec![2]],
        vec![vec![0], vec![2], vec![3]],
    ];
    // the last position is the one after the last extrinsic
    for index in 0..=4 {
        let mut context = Context::default();
        let mut builder = new_builder(RecordProof::No, &extrinsics);
        context.drive(&mut builder);
        builder.start(Goal::StorageChangesBefore(index));
        context.drive(&mut builder);
        assert_eq!(builder.phase(), Phase::Done);
        assert_eq!(builder.prepare_storage_changes_before(index), Ok(expected[index].clone()));
        // the block is not finalised
        assert!(!context.calls.contains(&"finalize_block".to_string()));
        assert_eq!(context.calls.iter().filter(|call| call.starts_with("apply")).count(), index);
    }
}

#[test]
fn storage_changes_before_a_position_that_exceeds_the_block() {
    for index in [5usize, 6, usize::MAX] {
        let mut context = Context::default();
        let mut builder = new_builder(RecordProof::No, &[&[0], &[1], &[2], &[3]]);
        context.drive(&mut builder);
        builder.start(Goal::StorageChangesBefore(index));
        assert_eq!(builder.phase(), Phase::Failed);
        context.drive(&mut builder);
        assert_eq!(
            builder.prepare_storage_changes_before(index),
            Err(Error::InvalidExtrinsicIndex { got: index, max: 4 })
        );
        assert_eq!(context.calls, vec!["initialize_block"]);
    }
}

#[test]
fn storage_changes_of_an_empty_block() {
    let mut context = Context::default();
    let mut builder = new_builder(RecordProof::No, &[]);
    context.drive(&mut builder);
    builder.start(Goal::StorageChangesBefore(0));
    context.drive(&mut builder);
    assert_eq!(builder.prepare_storage_changes_before(0), Ok(vec![]));
    assert_eq!(context.calls, vec!["initialize_block", "into_storage_changes"]);

    let mut context = Context::default();
    let mut builder = new_builder(RecordProof::No, &[]);
    context.drive(&mut builder);
    builder.start(Goal::StorageChangesBefore(1));
    assert_eq!(
        builder.prepare_storage_changes_before(1),
        Err(Error::InvalidExtrinsicIndex { got: 1, max: 0 })
    );
}

#[test]
fn storage_changes_before_the_block_is_finalised() {
    let mut context = Context::default();
    let mut builder = new_builder(RecordProof::Yes, &[&[0], &[0xff], &[2]]);
    context.drive(&mut builder);
    builder.start(Goal::StorageChangesBeforeFinalizeBlock);
    context.drive(&mut builder);
    assert_eq!(
        builder.prepare_storage_changes_before_finalize_block(),
        Ok(vec![vec![0u8], vec![2u8]])
    );
    assert!(!context.calls.contains(&"finalize_block".to_string()));
    assert!(!context.calls.contains(&"extract_proof".to_string()));
}

#[test]
fn results_are_handed_out_for_the_goal_only() {
    let mut context = Context::default();
    let mut builder = new_builder(RecordProof::No, &[&[0], &[1]]);
    context.drive(&mut builder);
    builder.start(Goal::StorageChangesBefore(1));
    context.drive(&mut builder);
    assert_eq!(builder.build().unwrap_err(), Error::NotFinished);

    let mut context = Context::default();
    let mut builder = new_builder(RecordProof::No, &[&[0], &[1]]);
    context.drive(&mut builder);
    builder.start(Goal::Build);
    context.drive(&mut builder);
    assert_eq!(builder.prepare_storage_changes_before_finalize_block(), Err(Error::NotFinished));

    // before the work is through
    let builder = new_builder(RecordProof::No, &[&[0]]);
    assert_eq!(builder.build().unwrap_err(), Error::NotFinished);
}

#[test]
fn builder_works_on_one_thing() {
    let mut context = Context::default();
    let mut builder = new_builder(RecordProof::No, &[&[0]]);
    // not ready yet
    builder.start(Goal::Build);
    assert_eq!(builder.phase(), Phase::Failed);
    assert_eq!(builder.build().unwrap_err(), Error::NotReady);

    let mut builder = new_builder(RecordProof::No, &[&[0]]);
    context.drive(&mut builder);
    builder.start(Goal::Unset);
    assert_eq!(builder.build().unwrap_err(), Error::NotReady);

    let mut builder = new_builder(RecordProof::No, &[&[0]]);
    let mut context = Context::default();
    context.drive(&mut builder);
    builder.start(Goal::Build);
    builder.start(Goal::Build);
    assert_eq!(builder.build().unwrap_err(), Error::NotReady);
}

#[test]
fn unexpected_event_fails_the_build() {
    let mut builder = new_builder(RecordProof::No, &[&[0]]);
    assert_eq!(builder.step(Event::ExtrinsicApplied(ApplyResult::Applied)), Conclusion::Nothing);
    assert_eq!(builder.phase(), Phase::Failed);
    assert!(matches!(builder.next_action(), Action::Idle));
    assert_eq!(builder.step(Event::BlockInitialized(Ok(()))), Conclusion::Nothing);
    assert_eq!(builder.build().unwrap_err(), Error::UnexpectedEvent);
}

#[test]
fn same_input_builds_the_same_block() {
    let extrinsics: [&[u8]; 5] = [&[5, 5], &[0xff], &[1], &[0xfe], &[9, 9, 9]];
    let mut first_context = Context::default();
    let first = build(&mut first_context, new_builder(RecordProof::Yes, &extrinsics)).unwrap();
    let mut second_context = Context::default();
    let second = build(&mut second_context, new_builder(RecordProof::Yes, &extrinsics)).unwrap();
    assert_eq!(first.block, second.block);
    assert_eq!(first.storage_changes, second.storage_changes);
    assert_eq!(first.proof, second.proof);
    assert_eq!(first_context.calls, second_context.calls);

    // the order of the extrinsics matters
    let reordered: [&[u8]; 5] = [&[1], &[0xff], &[5, 5], &[0xfe], &[9, 9, 9]];
    let mut third_context = Context::default();
    let third = build(&mut third_context, new_builder(RecordProof::Yes, &reordered)).unwrap();
    assert_ne!(first.block, third.block);
}

#[test]
fn block_size_is_estimated() {
    let mut context = Context::default();
    let mut builder = new_builder(RecordProof::No, &[&[1], &[2], &[3]]);
    // header: three hashes, one byte for the number, one for the empty digest;
    // extrinsics: one byte for their number, two for each
    assert_eq!(builder.estimate_block_size(false, None), 98 + 7);
    assert_eq!(builder.estimate_block_size(false, Some(1000)), 105);
    assert_eq!(builder.estimate_block_size(true, Some(1000)), 1105);
    assert_eq!(builder.estimate_block_size(true, None), 105);
    assert_eq!(builder.checked_estimate_block_size(true, Some(1000)), Some(1105));
    assert_eq!(builder.checked_estimate_block_size(true, Some(usize::MAX)), None);
    assert_eq!(builder.checked_estimate_block_size(false, Some(usize::MAX)), Some(105));
    context.drive(&mut builder);
    assert_eq!(builder.estimate_block_size(false, None), 105);
}

#[test]
fn block_size_counts_the_digest_and_the_inherents() {
    let digest = Digest {
        logs: vec![
            DigestItem::PreRuntime(*b"test", vec![1, 2, 3]),
            DigestItem::Other(vec![0; 70]),
            DigestItem::RuntimeEnvironmentUpdated,
        ],
    };
    let outside = sp_runtime::generic::Header::<u32, sp_runtime::traits::BlakeTwo256> {
        parent_hash: [7u8; 32].into(),
        number: 70_000,
        state_root: [0u8; 32].into(),
        extrinsics_root: [0u8; 32].into(),
        digest: sp_runtime::Digest {
            logs: vec![
                sp_runtime::DigestItem::PreRuntime(*b"test", vec![1, 2, 3]),
                sp_runtime::DigestItem::Other(vec![0; 70]),
                sp_runtime::DigestItem::RuntimeEnvironmentUpdated,
            ],
        },
    };
    let header = Header::new(70_000, [0; 32], [0; 32], [7; 32], digest.clone());
    assert_eq!(header.encoded_size(), outside.encoded_size());
    // 96 for the hashes, 4 for the number, 1 for the number of items,
    // 1 + 4 + 1 + 3 and 1 + 2 + 70 and 1 for the items
    assert_eq!(header.encoded_size(), 96 + 4 + 1 + 9 + 73 + 1);

    let mut context = Context::default();
    let mut builder: Builder = BlockBuilder::new(
        [7; 32],
        69_999,
        RecordProof::No,
        digest,
        queue(&[&[1; 100]]),
        Some(vec![vec![2; 3]]),
    );
    assert_eq!(builder.estimate_block_size(false, None), 184 + 1 + 102);
    context.drive(&mut builder);
    assert_eq!(builder.estimate_block_size(false, None), 184 + 1 + 102 + 4);
}

#[test]
fn header_commits_to_the_extrinsics() {
    let extrinsics: Vec<Extrinsic> = vec![vec![1, 2, 3], vec![], vec![4]];
    let root = <sp_runtime::traits::BlakeTwo256 as sp_runtime::traits::Hash>::ordered_trie_root(
        extrinsics.iter().map(Encode::encode).collect(),
        sp_runtime::StateVersion::V1,
    );
    let header = Header::new(1, root.0, [0; 32], [0; 32], Digest::default());
    let block = Block::new(header.clone(), extrinsics.clone());
    assert!(block.extrinsics_are_encodable());
    assert!(block.extrinsics_root_is_consistent());

    let reordered = Block::new(header.clone(), vec![vec![], vec![1, 2, 3], vec![4]]);
    assert!(!reordered.extrinsics_root_is_consistent());
    let shorter = Block::new(header, vec![vec![1, 2, 3], vec![]]);
    assert!(!shorter.extrinsics_root_is_consistent());
    let unset = Block::new(Header::new(1, [0; 32], [0; 32], [0; 32], Digest::default()), extrinsics);
    assert!(!unset.extrinsics_root_is_consistent());
}

#[test]
fn builder_is_made_where_the_header_can_be() {
    let made: Option<Builder> =
        BlockBuilder::checked_new([1; 32], 7, RecordProof::Yes, Digest::default(), queue(&[]), None);
    let made = made.unwrap();
    assert_eq!(made.phase(), Phase::EnablingProof);
    assert_eq!(made.error(), None);

    let at_the_end: Option<Builder> = BlockBuilder::checked_new(
        [1; 32],
        u32::MAX,
        RecordProof::No,
        Digest::default(),
        queue(&[]),
        None,
    );
    assert!(at_the_end.is_none());
    let below_the_end: Option<Builder> = BlockBuilder::checked_new(
        [1; 32],
        u32::MAX - 1,
        RecordProof::No,
        Digest::default(),
        queue(&[]),
        None,
    );
    match below_the_end.unwrap().next_action() {
        Action::InitializeBlock { header, .. } => assert_eq!(header.number, u32::MAX),
        other => panic!("unexpected action {other:?}"),
    }
    assert!(Digest { logs: vec![DigestItem::Other(vec![1; 1000])] }.is_encodable());
    assert_eq!(DigestItem::Seal(*b"seal", vec![1, 2, 3]).data_len(), 3);
    assert_eq!(DigestItem::RuntimeEnvironmentUpdated.data_len(), 0);
}

#[test]
fn blocks_are_built_on_the_head() {
    let head = ChainHead { hash: [3; 32], number: 9 };
    assert!(head.is_head(&BlockId::Hash([3; 32])));
    assert!(head.is_head(&BlockId::Number(9)));
    assert!(!head.is_head(&BlockId::Hash([4; 32])));
    assert!(!head.is_head(&BlockId::Number(10)));

    let digest = Digest { logs: vec![DigestItem::Other(vec![1])] };
    for parent in [BlockId::Hash([3; 32]), BlockId::Number(9)] {
        let built: Result<Builder, Error> =
            head.new_block_at(&parent, digest.clone(), RecordProof::Yes);
        let builder = built.unwrap();
        assert_eq!(builder.phase(), Phase::EnablingProof);
        let mut context = Context::default();
        let built = build(&mut context, builder).unwrap();
        assert_eq!(built.block.header.number, 10);
        assert_eq!(built.block.header.parent_hash, [3; 32]);
        assert_eq!(built.block.header.digest, digest);
        assert!(built.block.extrinsics.is_empty());
        assert!(built.proof.is_some());
    }
    for parent in [BlockId::Hash([0; 32]), BlockId::Number(8)] {
        let built: Result<Builder, Error> =
            head.new_block_at(&parent, digest.clone(), RecordProof::No);
        assert_eq!(built.unwrap_err(), Error::UnknownBlock(String::new()));
    }

    let built: Result<Builder, Error> = head.new_block(Digest::default());
    let builder = built.unwrap();
    assert_eq!(builder.phase(), Phase::Initializing);

    let last = ChainHead { hash: [3; 32], number: u32::MAX };
    let built: Result<Builder, Error> = last.new_block(Digest::default());
    assert_eq!(built.unwrap_err(), Error::CannotExtend);
    let built: Result<Builder, Error> =
        last.new_block_at(&BlockId::Number(u32::MAX), Digest::default(), RecordProof::No);
    assert_eq!(built.unwrap_err(), Error::CannotExtend);
}

#[test]
fn header_that_does_not_belong_to_the_block_fails_the_build() {
    let finalize = |header: Header| {
        let mut builder = new_builder(RecordProof::No, &[&[1], &[0xff], &[2]]);
        assert_eq!(builder.step(Event::BlockInitialized(Ok(()))), Conclusion::Nothing);
        builder.start(Goal::Build);
        for outcome in [
            ApplyResult::Applied,
            ApplyResult::Invalid("bad nonce".into()),
            ApplyResult::Applied,
        ] {
            builder.step(Event::ExtrinsicApplied(outcome));
        }
        assert_eq!(builder.phase(), Phase::Finalizing);
        assert_eq!(builder.step(Event::BlockFinalized(Ok(header))), Conclusion::Nothing);
        builder
    };
    let kept: Vec<Extrinsic> = vec![vec![1], vec![2]];
    let right = Header::new(42, root_of(&kept), [9; 32], [7; 32], Digest::default());

    let mut builder = finalize(right.clone());
    assert_eq!(builder.phase(), Phase::Collecting);
    builder.step(Event::StorageChangesCollected(Ok(kept.clone())));
    let built = builder.build().unwrap();
    assert_eq!(built.block, Block::new(right.clone(), kept.clone()));
    assert!(built.block.extrinsics_root_is_consistent());

    // the root of all extrinsics, the dropped one among them
    let all: Vec<Extrinsic> = vec![vec![1], vec![0xff], vec![2]];
    let wrong = [
        Header { extrinsics_root: root_of(&all), ..right.clone() },
        Header { extrinsics_root: [0; 32], ..right.clone() },
        Header { number: 99, ..right.clone() },
        Header { number: 41, ..right.clone() },
        Header { parent_hash: [8; 32], ..right.clone() },
    ];
    for header in wrong {
        let mut builder = finalize(header);
        assert_eq!(builder.phase(), Phase::Failed);
        assert!(matches!(builder.next_action(), Action::Idle));
        builder.step(Event::StorageChangesCollected(Ok(kept.clone())));
        assert_eq!(builder.build().unwrap_err(), Error::InconsistentHeader);
    }

    // what the runtime adds to the digest, and the state root, are its own
    let with_digest = Header {
        digest: Digest { logs: vec![DigestItem::Other(vec![1])] },
        state_root: [3; 32],
        ..right
    };
    assert_eq!(finalize(with_digest).phase(), Phase::Collecting);
}
