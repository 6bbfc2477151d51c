//! What holds of block building whatever the execution context answers.

use crate::block_builder::{
    is_initial, phase_after_applying, ApplyResult, BuilderView, Conclusion, Event, Phase,
    RecordProof,
};
use crate::digest::Digest;
use crate::primitives::{BlockNumber, H256};
use vstd::prelude::*;

verus! {

/// What a builder holds after it was told of `events` one after the other,
/// and how it concluded each of them.
pub open spec fn run<I, S, P>(view: BuilderView<I, S, P>, events: Seq<Event<S, P>>) -> (
    BuilderView<I, S, P>,
    Seq<Conclusion>,
)
    decreases events.len(),
{
    if events.len() == 0 {
        (view, Seq::empty())
    } else {
        let (before, conclusions) = run(view, events.drop_last());
        let (after, conclusion) = before.stepped(events.last());
        (after, conclusions.push(conclusion))
    }
}

/// The events that tell of these outcomes of applying extrinsics.
pub open spec fn applied_events<S, P>(outcomes: Seq<ApplyResult>) -> Seq<Event<S, P>> {
    Seq::new(outcomes.len(), |i: int| Event::ExtrinsicApplied(outcomes[i]))
}

/// The extrinsics that are kept when the first of `extrinsics` are applied
/// with these outcomes: those that were applied, in their order.
pub open spec fn kept(extrinsics: Seq<Seq<u8>>, outcomes: Seq<ApplyResult>) -> Seq<Seq<u8>>
    decreases outcomes.len(),
{
    if outcomes.len() == 0 {
        Seq::empty()
    } else {
        let before = kept(extrinsics, outcomes.drop_last());
        if outcomes.last() is Applied {
            before.push(extrinsics[outcomes.len() - 1])
        } else {
            before
        }
    }
}

/// Block building is atomic per extrinsic, not per block.
///
/// A builder that applies its extrinsics concludes each with a commit where
/// it was applied and with a rollback where it was not, and goes on to the
/// next whatever the outcome. What it has kept in the end is exactly the
/// extrinsics that were applied, in their order; an extrinsic that is not
/// valid costs the block nothing but itself.
pub proof fn lemma_applied_extrinsics_are_kept<I, S, P>(
    view: BuilderView<I, S, P>,
    outcomes: Seq<ApplyResult>,
)
    requires
        view.wf(),
        view.phase == Phase::Applying,
        view.cursor == 0,
        view.included == Seq::<Seq<u8>>::empty(),
        outcomes.len() <= view.limit,
    ensures
        ({
            let (after, conclusions) = run(view, applied_events::<S, P>(outcomes));
            &&& after.wf()
            &&& after == (BuilderView {
                cursor: after.cursor,
                included: after.included,
                phase: after.phase,
                ..view
            })
            &&& after.cursor == outcomes.len()
            &&& after.included == kept(view.extrinsics, outcomes)
            &&& after.phase == (if outcomes.len() < view.limit {
                Phase::Applying
            } else {
                phase_after_applying(view.goal)
            })
            &&& conclusions.len() == outcomes.len()
            &&& forall|i: int|
                0 <= i < outcomes.len() ==> #[trigger] conclusions[i] == (if outcomes[i] is Applied {
                    Conclusion::CommitScope
                } else {
                    Conclusion::RollbackScope
                })
        }),
    decreases outcomes.len(),
{
    if outcomes.len() > 0 {
        let earlier = outcomes.drop_last();
        lemma_applied_extrinsics_are_kept::<I, S, P>(view, earlier);
        assert(applied_events::<S, P>(outcomes).drop_last() =~= applied_events::<S, P>(earlier));
        assert(applied_events::<S, P>(outcomes).last() == Event::<S, P>::ExtrinsicApplied(
            outcomes.last(),
        ));
    }
}

/// Two builders that were made with the same arguments hold the same.
pub proof fn lemma_initial_view_is_unique<I, S, P>(
    first: BuilderView<I, S, P>,
    second: BuilderView<I, S, P>,
    parent_hash: H256,
    parent_number: BlockNumber,
    record_proof: RecordProof,
    inherent_digests: Digest,
    extrinsics: Seq<Seq<u8>>,
    maybe_inherent_data: Option<I>,
)
    requires
        is_initial(
            first,
            parent_hash,
            parent_number,
            record_proof,
            inherent_digests,
            extrinsics,
            maybe_inherent_data,
        ),
        is_initial(
            second,
            parent_hash,
            parent_number,
            record_proof,
            inherent_digests,
            extrinsics,
            maybe_inherent_data,
        ),
    ensures
        first == second,
{
    assert(first.header.extrinsics_root =~= second.header.extrinsics_root);
    assert(first.header.state_root =~= second.header.state_root);
}

/// Building is a function of what the builder is given and told.
///
/// Two builders that were made with the same arguments and are told the
/// same events conclude each of them alike and hold the same in the end:
/// the same block, the same storage changes, the same proof.
pub proof fn lemma_building_is_deterministic<I, S, P>(
    first: BuilderView<I, S, P>,
    second: BuilderView<I, S, P>,
    events: Seq<Event<S, P>>,
    parent_hash: H256,
    parent_number: BlockNumber,
    record_proof: RecordProof,
    inherent_digests: Digest,
    extrinsics: Seq<Seq<u8>>,
    maybe_inherent_data: Option<I>,
)
    requires
        is_initial(
            first,
            parent_hash,
            parent_number,
            record_proof,
            inherent_digests,
            extrinsics,
            maybe_inherent_data,
        ),
        is_initial(
            second,
            parent_hash,
            parent_number,
            record_proof,
            inherent_digests,
            extrinsics,
            maybe_inherent_data,
        ),
    ensures
        run(first, events) == run(second, events),
{
    lemma_initial_view_is_unique(
        first,
        second,
        parent_hash,
        parent_number,
        record_proof,
        inherent_digests,
        extrinsics,
        maybe_inherent_data,
    );
}

/// A builder never leaves the forms that fit together, whatever it is
/// told.
pub proof fn lemma_run_keeps_wf<I, S, P>(view: BuilderView<I, S, P>, events: Seq<Event<S, P>>)
    requires
        view.wf(),
    ensures
        run(view, events).0.wf(),
        run(view, events).1.len() == events.len(),
    decreases events.len(),
{
    if events.len() > 0 {
        lemma_run_keeps_wf(view, events.drop_last());
    }
}

/// Whatever a builder is told, it stays with the parent, the header and
/// the choice about proof recording that it was made with. The header of a
/// block that is built is therefore one above the parent that the builder
/// was given and points to it.
pub proof fn lemma_run_keeps_the_parent<I, S, P>(
    view: BuilderView<I, S, P>,
    events: Seq<Event<S, P>>,
)
    ensures
        run(view, events).0.parent_hash == view.parent_hash,
        run(view, events).0.header == view.header,
        run(view, events).0.record_proof == view.record_proof,
        run(view, events).0.estimated_header_size == view.estimated_header_size,
    decreases events.len(),
{
    if events.len() > 0 {
        lemma_run_keeps_the_parent(view, events.drop_last());
    }
}

/// A proof is part of a built block exactly when proof recording was
/// asked for.
pub proof fn lemma_proof_iff_recorded<I, S, P>(view: BuilderView<I, S, P>)
    requires
        view.wf(),
        view.phase == Phase::Done,
        view.goal == crate::block_builder::Goal::Build,
    ensures
        view.proof is Some <==> view.record_proof == RecordProof::Yes,
{
}

} // verus!
