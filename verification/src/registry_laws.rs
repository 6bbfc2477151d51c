//! What holds of the registry whatever it is asked: the laws that relate
//! registration, scheduling and activation.

use crate::primitives::{BlockNumber, RuntimeId, RuntimeType};
use crate::raw_genesis::decoded_raw_genesis;
use crate::runtime_registry::{
    register_step, schedule_step, upgrade_step, upgraded, Error, RegistryView,
};
use crate::upgrade_schedule::ScheduleKey;
use crate::version::RuntimeVersionView;
use vstd::prelude::*;

verus! {

/// The version of the candidate that `raw_genesis_storage` holds, where
/// `version` is what is read out of the code of the image: `None` where
/// there is no such image, code or version.
pub open spec fn candidate_version(
    raw_genesis_storage: Seq<u8>,
    version: Option<RuntimeVersionView>,
) -> Option<RuntimeVersionView> {
    match decoded_raw_genesis(raw_genesis_storage) {
        Some(genesis) => match genesis.runtime_code() {
            Some(code) => version,
            None => None,
        },
        None => None,
    }
}

/// A candidate that declares another specification name than the
/// registered runtime it is to replace is refused with `InvalidSpecName`,
/// and no upgrade is left waiting: the registry holds what it held.
pub proof fn lemma_other_spec_name_is_refused(
    pre: RegistryView,
    post: RegistryView,
    result: Result<BlockNumber, Error>,
    runtime_id: RuntimeId,
    raw_genesis_storage: Seq<u8>,
    version: Option<RuntimeVersionView>,
    current_block_number: BlockNumber,
    upgrade_delay: BlockNumber,
)
    requires
        pre.runtimes.contains_key(runtime_id),
        candidate_version(raw_genesis_storage, version) matches Some(candidate)
            && candidate.spec_name != pre.runtimes[runtime_id].version.spec_name,
        schedule_step(
            pre,
            post,
            result,
            runtime_id,
            raw_genesis_storage,
            version,
            current_block_number,
            upgrade_delay,
        ),
    ensures
        result == Err::<BlockNumber, Error>(Error::InvalidSpecName),
        post == pre,
{
}

/// A candidate that keeps the specification name of the registered runtime
/// it is to replace, and whose specification version is not above the
/// runtime's, is refused with `SpecVersionNeedsToIncrease`, and the
/// registry holds what it held.
pub proof fn lemma_stale_spec_version_is_refused(
    pre: RegistryView,
    post: RegistryView,
    result: Result<BlockNumber, Error>,
    runtime_id: RuntimeId,
    raw_genesis_storage: Seq<u8>,
    version: Option<RuntimeVersionView>,
    current_block_number: BlockNumber,
    upgrade_delay: BlockNumber,
)
    requires
        pre.runtimes.contains_key(runtime_id),
        candidate_version(raw_genesis_storage, version) matches Some(candidate)
            && candidate.spec_name == pre.runtimes[runtime_id].version.spec_name
            && candidate.spec_version <= pre.runtimes[runtime_id].version.spec_version,
        schedule_step(
            pre,
            post,
            result,
            runtime_id,
            raw_genesis_storage,
            version,
            current_block_number,
            upgrade_delay,
        ),
    ensures
        result == Err::<BlockNumber, Error>(Error::SpecVersionNeedsToIncrease),
        post == pre,
{
}

/// An upgrade that is granted waits for exactly one height and takes
/// effect there.
///
/// A candidate that keeps the specification name of a registered runtime
/// and raises its specification version is accepted, where the activation
/// height fits: the upgrade then waits under the key of that height and the
/// runtime, and nothing else changes. When the registry reaches that
/// height, the runtime gets the candidate's image and version, so that its
/// specification version is above the one that it had, its upgrade count
/// goes up by one, it is reported exactly once, and no upgrade waits for
/// that height any more. Where nothing else waited for the height, the
/// runtime is all that is reported.
pub proof fn lemma_scheduled_upgrade_takes_effect(
    start: RegistryView,
    scheduled: RegistryView,
    activated_state: RegistryView,
    result: Result<BlockNumber, Error>,
    activated: Seq<RuntimeId>,
    runtime_id: RuntimeId,
    raw_genesis_storage: Seq<u8>,
    version: Option<RuntimeVersionView>,
    current_block_number: BlockNumber,
    upgrade_delay: BlockNumber,
)
    requires
        start.wf(),
        start.runtimes.contains_key(runtime_id),
        candidate_version(raw_genesis_storage, version) matches Some(candidate)
            && candidate.spec_name == start.runtimes[runtime_id].version.spec_name
            && candidate.spec_version > start.runtimes[runtime_id].version.spec_version,
        current_block_number + upgrade_delay <= BlockNumber::MAX,
        schedule_step(
            start,
            scheduled,
            result,
            runtime_id,
            raw_genesis_storage,
            version,
            current_block_number,
            upgrade_delay,
        ),
        upgrade_step(
            scheduled,
            activated_state,
            (current_block_number + upgrade_delay) as BlockNumber,
            activated,
        ),
    ensures
        ({
            let at = (current_block_number + upgrade_delay) as BlockNumber;
            let key = (at, runtime_id);
            let candidate = candidate_version(raw_genesis_storage, version)->0;
            let before = start.runtimes[runtime_id];
            let after = activated_state.runtimes[runtime_id];
            &&& result == Ok::<BlockNumber, Error>(at)
            &&& scheduled.runtimes == start.runtimes
            &&& scheduled.next_runtime_id == start.next_runtime_id
            &&& activated_state.next_runtime_id == start.next_runtime_id
            &&& scheduled.scheduled.dom() == start.scheduled.dom().insert(key)
            &&& forall|k: ScheduleKey|
                k != key && start.scheduled.contains_key(k) ==> #[trigger] scheduled.scheduled[k]
                    == start.scheduled[k]
            &&& scheduled.scheduled[key].version == candidate
            &&& Some(scheduled.scheduled[key].raw_genesis) == decoded_raw_genesis(
                raw_genesis_storage,
            )
            &&& after == upgraded(before, scheduled.scheduled[key], at)
            &&& after.version.spec_version == candidate.spec_version
            &&& after.version.spec_version > before.version.spec_version
            &&& after.version.spec_name == before.version.spec_name
            &&& before.runtime_upgrades < u32::MAX ==> after.runtime_upgrades
                == before.runtime_upgrades + 1
            &&& forall|k: ScheduleKey| k.0 == at ==> !activated_state.scheduled.contains_key(k)
            &&& activated.contains(runtime_id)
            &&& forall|i: int, j: int|
                0 <= i < activated.len() && 0 <= j < activated.len() && activated[i] == runtime_id
                    && activated[j] == runtime_id ==> i == j
            &&& (forall|k: ScheduleKey| start.scheduled.contains_key(k) ==> k.0 != at)
                ==> activated == seq![runtime_id]
        }),
{
    let at = (current_block_number + upgrade_delay) as BlockNumber;
    let key = (at, runtime_id);
    assert(scheduled.scheduled.dom() =~= start.scheduled.dom().insert(key));
    assert(scheduled.scheduled.contains_key(key));
    assert forall|i: int, j: int|
        0 <= i < activated.len() && 0 <= j < activated.len() && activated[i] == runtime_id
            && activated[j] == runtime_id implies i == j by {
        if i < j {
            assert(activated[i] < activated[j]);
        } else if j < i {
            assert(activated[j] < activated[i]);
        }
    }
    if forall|k: ScheduleKey| start.scheduled.contains_key(k) ==> k.0 != at {
        let i = choose|i: int| 0 <= i < activated.len() && activated[i] == runtime_id;
        assert forall|j: int| 0 <= j < activated.len() implies activated[j] == runtime_id by {
            assert(scheduled.scheduled.contains_key((at, activated[j])));
            if activated[j] != runtime_id {
                assert(start.scheduled.contains_key((at, activated[j])));
            }
        }
        if activated.len() > 1 {
            assert(activated[0] < activated[1]);
        }
        assert(activated =~= seq![runtime_id]);
    }
}

/// A registration that succeeds hands out the identifier that was next,
/// moves the next identifier up by one and leaves every runtime that was
/// registered as it was; one that is refused leaves the next identifier
/// where it was.
pub proof fn lemma_registration_takes_next_id(
    pre: RegistryView,
    post: RegistryView,
    result: Result<RuntimeId, Error>,
    runtime_name: Seq<char>,
    runtime_type: RuntimeType,
    raw_genesis_storage: Seq<u8>,
    version: Option<RuntimeVersionView>,
    at: BlockNumber,
)
    requires
        pre.wf(),
        register_step(
            pre,
            post,
            result,
            runtime_name,
            runtime_type,
            raw_genesis_storage,
            version,
            at,
        ),
    ensures
        post.wf(),
        result is Ok ==> result->Ok_0 == pre.next_runtime_id && post.next_runtime_id
            == pre.next_runtime_id + 1 && !pre.runtimes.contains_key(result->Ok_0)
            && post.runtimes.contains_key(result->Ok_0),
        result is Err ==> post == pre,
        forall|id: RuntimeId|
            pre.runtimes.contains_key(id) ==> #[trigger] post.runtimes.contains_key(id)
                && post.runtimes[id] == pre.runtimes[id],
{
    if result is Ok {
        let new_id = pre.next_runtime_id;
        if pre.runtimes.contains_key(new_id) {
            assert(new_id < pre.next_runtime_id);
        }
        assert forall|id: RuntimeId| #[trigger] post.runtimes.contains_key(id) implies id
            < post.next_runtime_id by {
            if id != new_id {
                assert(pre.runtimes.contains_key(id));
            }
        }
        assert forall|k: ScheduleKey| #[trigger]
            post.scheduled.contains_key(k) implies post.runtimes.contains_key(k.1) by {
            assert(pre.scheduled.contains_key(k));
            assert(pre.runtimes.contains_key(k.1));
        }
    }
}

/// The next identifier never goes down: a registration moves it up or
/// leaves it, and neither a request for an upgrade nor the activation of
/// upgrades moves it.
pub proof fn lemma_next_runtime_id_never_decreases(
    pre: RegistryView,
    post: RegistryView,
    registered: Result<RuntimeId, Error>,
    scheduled: Result<BlockNumber, Error>,
    activated: Seq<RuntimeId>,
    runtime_name: Seq<char>,
    runtime_type: RuntimeType,
    runtime_id: RuntimeId,
    raw_genesis_storage: Seq<u8>,
    version: Option<RuntimeVersionView>,
    current_block_number: BlockNumber,
    upgrade_delay: BlockNumber,
)
    ensures
        register_step(
            pre,
            post,
            registered,
            runtime_name,
            runtime_type,
            raw_genesis_storage,
            version,
            current_block_number,
        ) ==> post.next_runtime_id >= pre.next_runtime_id,
        schedule_step(
            pre,
            post,
            scheduled,
            runtime_id,
            raw_genesis_storage,
            version,
            current_block_number,
            upgrade_delay,
        ) ==> post.next_runtime_id == pre.next_runtime_id,
        upgrade_step(pre, post, current_block_number, activated) ==> post.next_runtime_id
            == pre.next_runtime_id,
{
}

/// Two registrations that succeed never hand out the same identifier,
/// whatever the registry did between them, as long as the next identifier
/// did not go down: the later one gets a greater identifier.
pub proof fn lemma_registrations_never_collide(
    first_pre: RegistryView,
    first_post: RegistryView,
    first_id: RuntimeId,
    first_name: Seq<char>,
    first_type: RuntimeType,
    first_raw: Seq<u8>,
    first_version: Option<RuntimeVersionView>,
    first_at: BlockNumber,
    second_pre: RegistryView,
    second_post: RegistryView,
    second_id: RuntimeId,
    second_name: Seq<char>,
    second_type: RuntimeType,
    second_raw: Seq<u8>,
    second_version: Option<RuntimeVersionView>,
    second_at: BlockNumber,
)
    requires
        register_step(
            first_pre,
            first_post,
            Ok(first_id),
            first_name,
            first_type,
            first_raw,
            first_version,
            first_at,
        ),
        first_post.next_runtime_id <= second_pre.next_runtime_id,
        register_step(
            second_pre,
            second_post,
            Ok(second_id),
            second_name,
            second_type,
            second_raw,
            second_version,
            second_at,
        ),
    ensures
        first_id < second_id,
        second_pre == first_post ==> second_id == first_id + 1,
{
}

/// The registry stays well formed and its code hashes stay right
/// whatever it is asked.
pub proof fn lemma_steps_keep_the_registry_in_order(
    pre: RegistryView,
    post: RegistryView,
    scheduled: Result<BlockNumber, Error>,
    activated: Seq<RuntimeId>,
    runtime_id: RuntimeId,
    raw_genesis_storage: Seq<u8>,
    version: Option<RuntimeVersionView>,
    current_block_number: BlockNumber,
    upgrade_delay: BlockNumber,
)
    requires
        pre.wf(),
        schedule_step(
            pre,
            post,
            scheduled,
            runtime_id,
            raw_genesis_storage,
            version,
            current_block_number,
            upgrade_delay,
        ) || upgrade_step(pre, post, current_block_number, activated),
    ensures
        post.wf(),
        pre.consistent() ==> post.consistent(),
{
    if schedule_step(
        pre,
        post,
        scheduled,
        runtime_id,
        raw_genesis_storage,
        version,
        current_block_number,
        upgrade_delay,
    ) {
        if scheduled is Ok {
            let key = (scheduled->Ok_0, runtime_id);
            assert forall|k: ScheduleKey| #[trigger]
                post.scheduled.contains_key(k) implies post.runtimes.contains_key(k.1) by {
                if k != key {
                    assert(pre.scheduled.contains_key(k));
                }
            }
            if pre.consistent() {
                assert forall|k: ScheduleKey| #[trigger]
                    post.scheduled.contains_key(k) implies crate::runtime_registry::code_hashed(
                    post.scheduled[k].raw_genesis,
                    post.scheduled[k].hash,
                ) by {
                    if k != key {
                        assert(pre.scheduled.contains_key(k));
                    }
                }
            }
        }
    } else {
        assert forall|id: RuntimeId| #[trigger] post.runtimes.contains_key(id) implies id
            < post.next_runtime_id by {
            assert(pre.runtimes.dom().contains(id));
            assert(pre.runtimes.contains_key(id));
        }
        assert forall|k: ScheduleKey| #[trigger]
            post.scheduled.contains_key(k) implies post.runtimes.contains_key(k.1) by {
            assert(pre.scheduled.contains_key(k));
            assert(pre.runtimes.contains_key(k.1));
            assert(pre.runtimes.dom().contains(k.1));
        }
        if pre.consistent() {
            assert forall|id: RuntimeId| #[trigger]
                post.runtimes.contains_key(id) implies crate::runtime_registry::code_hashed(
                post.runtimes[id].raw_genesis,
                post.runtimes[id].hash,
            ) by {
                assert(pre.runtimes.dom().contains(id));
                assert(pre.runtimes.contains_key(id));
                if pre.scheduled.contains_key((current_block_number, id)) {
                    assert(crate::runtime_registry::code_hashed(
                        pre.scheduled[(current_block_number, id)].raw_genesis,
                        pre.scheduled[(current_block_number, id)].hash,
                    ));
                }
            }
            assert forall|k: ScheduleKey| #[trigger]
                post.scheduled.contains_key(k) implies crate::runtime_registry::code_hashed(
                post.scheduled[k].raw_genesis,
                post.scheduled[k].hash,
            ) by {
                assert(pre.scheduled.contains_key(k));
            }
        }
    }
}

} // verus!
