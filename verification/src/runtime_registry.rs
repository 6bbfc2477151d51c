//! Registry of domain runtimes: registration, scheduling of upgrades and
//! their activation at a block height.

use crate::digest::{runtime_upgrade_data, DigestItem, DigestItemView};
use crate::hashing::{blake2_256, hash_blake2_256};
use crate::primitives::{BlockNumber, DomainId, EVMChainId, RuntimeId, RuntimeType, H256};
use crate::raw_genesis::{decoded_raw_genesis, RawGenesis, RawGenesisView};
use crate::upgrade_schedule::{
    is_drain_of, keys_at, Pending, ScheduleKey, ScheduledRuntimeUpgrades,
};
use crate::version::{
    answer_view, decoded_runtime_version, scale_decode_runtime_version, RuntimeVersion,
    RuntimeVersionView, VersionOracle,
};
use vstd::prelude::*;

verus! {

/// Why the registry refused a request.
#[derive(Clone, Copy, PartialEq, Eq, Structural, Debug)]
pub enum Error {
    /// No version metadata could be read out of the runtime code.
    FailedToExtractRuntimeVersion,
    /// The candidate declares another specification name than the runtime
    /// it is to replace.
    InvalidSpecName,
    /// The candidate's specification version is not above the current one.
    SpecVersionNeedsToIncrease,
    /// No runtime identifier is left to hand out.
    MaxRuntimeId,
    /// No runtime is registered under the identifier.
    MissingRuntimeObject,
    /// An upgrade of the runtime is pending already. Kept for callers that
    /// refuse a second pending upgrade; the registry itself never returns it.
    RuntimeUpgradeAlreadyScheduled,
    /// The height at which the upgrade would take effect does not fit the
    /// block number type.
    MaxScheduledBlockNumber,
    /// The raw genesis could not be decoded.
    FailedToDecodeRawGenesis,
    /// The raw genesis holds no runtime code.
    RuntimeCodeNotFoundInRawGenesis,
}

/// What a runtime object holds, as mathematical values.
pub struct RuntimeObjectView<Number, Hash> {
    /// Name of the runtime.
    pub runtime_name: Seq<char>,
    /// Execution environment.
    pub runtime_type: RuntimeType,
    /// Number of upgrades applied so far.
    pub runtime_upgrades: u32,
    /// Hash of the runtime code.
    pub hash: Hash,
    /// The raw genesis, which embeds the runtime code.
    pub raw_genesis: RawGenesisView,
    /// Version metadata of the runtime code.
    pub version: RuntimeVersionView,
    /// Height at which the runtime was registered.
    pub created_at: Number,
    /// Height at which the runtime was registered or last upgraded.
    pub updated_at: Number,
}

/// A registered runtime.
#[derive(Debug, Clone, PartialEq, Eq)]
pub struct RuntimeObject<Number, Hash> {
    /// Name of the runtime.
    pub runtime_name: String,
    /// Execution environment.
    pub runtime_type: RuntimeType,
    /// Number of upgrades applied so far.
    pub runtime_upgrades: u32,
    /// Hash of the runtime code.
    pub hash: Hash,
    /// The raw genesis, which embeds the runtime code. It lacks the identity
    /// of the domain that uses it: see `into_complete_raw_genesis`.
    pub raw_genesis: RawGenesis,
    /// Version metadata of the runtime code.
    pub version: RuntimeVersion,
    /// Height at which the runtime was registered.
    pub created_at: Number,
    /// Height at which the runtime was registered or last upgraded.
    pub updated_at: Number,
}

impl<Number, Hash> View for RuntimeObject<Number, Hash> {
    type V = RuntimeObjectView<Number, Hash>;

    open spec fn view(&self) -> RuntimeObjectView<Number, Hash> {
        RuntimeObjectView {
            runtime_name: self.runtime_name@,
            runtime_type: self.runtime_type,
            runtime_upgrades: self.runtime_upgrades,
            hash: self.hash,
            raw_genesis: self.raw_genesis@,
            version: self.version@,
            created_at: self.created_at,
            updated_at: self.updated_at,
        }
    }
}

/// What the kind of a domain's runtime adds to its raw genesis.
#[derive(Debug, Clone, Copy, PartialEq, Eq, Structural)]
pub enum DomainRuntimeInfo {
    /// An EVM domain, with its chain identifier.
    EVM {
        /// The chain identifier.
        chain_id: EVMChainId,
    },
}

impl Default for DomainRuntimeInfo {
    fn default() -> (info: DomainRuntimeInfo)
        ensures
            info == (DomainRuntimeInfo::EVM { chain_id: 0 }),
    {
        DomainRuntimeInfo::EVM { chain_id: 0 }
    }
}

impl<Number, Hash> RuntimeObject<Number, Hash> {
    /// The raw genesis of the runtime, completed for one domain: with the
    /// domain's identifier and what its kind adds written into the top-level
    /// storage. The stored image is left as it is, so that every domain gets
    /// its own copy.
    pub fn into_complete_raw_genesis(
        self,
        domain_id: DomainId,
        domain_runtime_info: DomainRuntimeInfo,
    ) -> (genesis: RawGenesis)
        ensures
            genesis@.top_map() == self@.raw_genesis.completed(
                domain_id.0,
                domain_runtime_info->chain_id,
            ),
            genesis@.children_default == self@.raw_genesis.children_default,
            genesis@.runtime_code() == self@.raw_genesis.runtime_code(),
            self@.raw_genesis.wf() ==> genesis@.wf(),
    {
        let mut raw_genesis = self.raw_genesis;
        raw_genesis.set_domain_id(domain_id);
        match domain_runtime_info {
            DomainRuntimeInfo::EVM { chain_id } => raw_genesis.set_evm_chain_id(chain_id),
        }
        raw_genesis
    }
}

/// What a scheduled upgrade holds, as mathematical values.
pub struct ScheduledRuntimeUpgradeView<Hash> {
    /// The raw genesis that replaces the runtime's.
    pub raw_genesis: RawGenesisView,
    /// The version that replaces the runtime's.
    pub version: RuntimeVersionView,
    /// The code hash that replaces the runtime's.
    pub hash: Hash,
}

/// An upgrade that waits for its activation height.
#[derive(Debug, Clone, PartialEq, Eq)]
pub struct ScheduledRuntimeUpgrade<Hash> {
    /// The raw genesis that replaces the runtime's.
    pub raw_genesis: RawGenesis,
    /// The version that replaces the runtime's.
    pub version: RuntimeVersion,
    /// The code hash that replaces the runtime's.
    pub hash: Hash,
}

impl<Hash> View for ScheduledRuntimeUpgrade<Hash> {
    type V = ScheduledRuntimeUpgradeView<Hash>;

    open spec fn view(&self) -> ScheduledRuntimeUpgradeView<Hash> {
        ScheduledRuntimeUpgradeView {
            raw_genesis: self.raw_genesis@,
            version: self.version@,
            hash: self.hash,
        }
    }
}

/// A runtime after an upgrade that took effect at the height `at`: image,
/// version and code hash are the upgrade's, one more upgrade is counted (the
/// count stays at its greatest value once it is reached), and the rest is
/// as it was.
pub open spec fn upgraded<Number, Hash>(
    object: RuntimeObjectView<Number, Hash>,
    upgrade: ScheduledRuntimeUpgradeView<Hash>,
    at: Number,
) -> RuntimeObjectView<Number, Hash> {
    RuntimeObjectView {
        raw_genesis: upgrade.raw_genesis,
        version: upgrade.version,
        hash: upgrade.hash,
        runtime_upgrades: if object.runtime_upgrades == u32::MAX {
            u32::MAX
        } else {
            (object.runtime_upgrades + 1) as u32
        },
        updated_at: at,
        ..object
    }
}

impl<Number, Hash> RuntimeObject<Number, Hash> {
    /// Replaces image, version and code hash by those of `upgrade` and
    /// counts the upgrade.
    pub fn apply_upgrade(&mut self, upgrade: ScheduledRuntimeUpgrade<Hash>, at: Number)
        ensures
            final(self)@ == upgraded(old(self)@, upgrade@, at),
    {
        self.raw_genesis = upgrade.raw_genesis;
        self.version = upgrade.version;
        self.hash = upgrade.hash;
        if self.runtime_upgrades < u32::MAX {
            self.runtime_upgrades = self.runtime_upgrades + 1;
        }
        self.updated_at = at;
    }
}

/// The version that was read, if one was read, as a mathematical value.
pub open spec fn read_version_view(version: Result<RuntimeVersion, Error>) -> Option<
    RuntimeVersionView,
> {
    match version {
        Ok(found) => Some(found@),
        Err(_) => None,
    }
}

/// The version that the answer of an oracle stands for.
pub open spec fn extracted_version(answer: Option<Seq<u8>>) -> Option<RuntimeVersionView> {
    match answer {
        Some(blob) => decoded_runtime_version(blob),
        None => None,
    }
}

/// What is decided about a candidate version that is to replace `current`.
pub open spec fn upgrade_outcome(
    current: RuntimeVersionView,
    candidate: Option<RuntimeVersionView>,
) -> Result<RuntimeVersionView, Error> {
    match candidate {
        None => Err(Error::FailedToExtractRuntimeVersion),
        Some(version) => if version.spec_name != current.spec_name {
            Err(Error::InvalidSpecName)
        } else if version.spec_version <= current.spec_version {
            Err(Error::SpecVersionNeedsToIncrease)
        } else {
            Ok(version)
        },
    }
}

/// True when `result` is what is made of the answer `answer` of an oracle:
/// the version that the answer holds, or the failure to extract one.
pub open spec fn version_read(answer: Option<Seq<u8>>, result: Result<RuntimeVersion, Error>) -> bool {
    match result {
        Ok(version) => extracted_version(answer) == Some(version@),
        Err(e) => e == Error::FailedToExtractRuntimeVersion && extracted_version(answer) is None,
    }
}

/// The version that an oracle's answer holds.
pub fn version_from_blob(blob: Option<Vec<u8>>) -> (result: Result<RuntimeVersion, Error>)
    ensures
        version_read(answer_view(blob), result),
{
    match blob {
        Some(bytes) => match scale_decode_runtime_version(bytes.as_slice()) {
            Some(version) => Ok(version),
            None => Err(Error::FailedToExtractRuntimeVersion),
        },
        None => Err(Error::FailedToExtractRuntimeVersion),
    }
}

/// True when `result` is what is made of `answer`, and `answer` is one
/// that `oracle` may give for `code`.
pub open spec fn version_asked<O: VersionOracle>(
    oracle: O,
    code: Seq<u8>,
    answer: Option<Seq<u8>>,
    result: Result<RuntimeVersion, Error>,
) -> bool {
    oracle.may_answer(code, answer) && version_read(answer, result)
}

/// Extracts the runtime version of the provided code: asks `oracle` about
/// `code` and decodes what it answers.
pub fn runtime_version<O: VersionOracle>(oracle: &O, code: &[u8]) -> (result: Result<
    RuntimeVersion,
    Error,
>)
    ensures
        exists|answer: Option<Seq<u8>>| #[trigger] version_asked(*oracle, code@, answer, result),
{
    let blob = oracle.read_runtime_version(code);
    let ghost answer = answer_view(blob);
    let result = version_from_blob(blob);
    assert(version_asked(*oracle, code@, answer, result));
    result
}

/// Decides whether `new_version` may replace `current_version`: it keeps the
/// specification name and raises the specification version.
pub fn check_upgrade(current_version: &RuntimeVersion, new_version: RuntimeVersion) -> (result:
    Result<RuntimeVersion, Error>)
    ensures
        match result {
            Ok(version) => version == new_version && upgrade_outcome(
                current_version@,
                Some(new_version@),
            ) == Ok::<RuntimeVersionView, Error>(new_version@),
            Err(e) => upgrade_outcome(current_version@, Some(new_version@)) == Err::<
                RuntimeVersionView,
                Error,
            >(e),
        },
{
    match version_may_replace(current_version, &new_version) {
        Ok(_) => Ok(new_version),
        Err(e) => Err(e),
    }
}

/// Decides whether a runtime of the version `candidate` may replace one of
/// the version `current`.
pub fn version_may_replace(current: &RuntimeVersion, candidate: &RuntimeVersion) -> (result: Result<
    (),
    Error,
>)
    ensures
        match result {
            Ok(_) => upgrade_outcome(current@, Some(candidate@)) == Ok::<RuntimeVersionView, Error>(
                candidate@,
            ),
            Err(e) => upgrade_outcome(current@, Some(candidate@)) == Err::<
                RuntimeVersionView,
                Error,
            >(e),
        },
{
    if !(candidate.spec_name == current.spec_name) {
        return Err(Error::InvalidSpecName);
    }
    if candidate.spec_version <= current.spec_version {
        return Err(Error::SpecVersionNeedsToIncrease);
    }
    Ok(())
}

/// True when `result` is what is decided about a candidate of the version
/// `candidate` that is to replace a runtime of the version `current`.
pub open spec fn upgrade_decided(
    current: RuntimeVersionView,
    candidate: Option<RuntimeVersionView>,
    result: Result<RuntimeVersion, Error>,
) -> bool {
    match result {
        Ok(version) => upgrade_outcome(current, candidate) == Ok::<RuntimeVersionView, Error>(
            version@,
        ),
        Err(e) => upgrade_outcome(current, candidate) == Err::<RuntimeVersionView, Error>(e),
    }
}

/// Decides whether the version that was read, if one was read, may replace
/// `current_version`. Where none was read, the reason is handed on.
pub fn check_extracted_upgrade(
    current_version: &RuntimeVersion,
    version: Result<RuntimeVersion, Error>,
) -> (result: Result<RuntimeVersion, Error>)
    ensures
        match version {
            Ok(new_version) => upgrade_decided(current_version@, Some(new_version@), result),
            Err(e) => result == Err::<RuntimeVersion, Error>(e),
        },
{
    match version {
        Ok(new_version) => check_upgrade(current_version, new_version),
        Err(e) => Err(e),
    }
}

/// True when `result` is what is decided about the candidate whose version
/// `answer` holds, and `answer` is one that `oracle` may give for `code`.
pub open spec fn upgrade_asked<O: VersionOracle>(
    oracle: O,
    current: RuntimeVersionView,
    code: Seq<u8>,
    answer: Option<Seq<u8>>,
    result: Result<RuntimeVersion, Error>,
) -> bool {
    oracle.may_answer(code, answer) && upgrade_decided(current, extracted_version(answer), result)
}

/// Decides whether the runtime in `update_code` may replace a runtime of
/// the version `current_version`, and hands out its version if it may:
/// asks `oracle` about the code and holds the version that it answers
/// against the current one.
pub fn can_upgrade_code<O: VersionOracle>(
    oracle: &O,
    current_version: &RuntimeVersion,
    update_code: &[u8],
) -> (result: Result<RuntimeVersion, Error>)
    ensures
        exists|answer: Option<Seq<u8>>| #[trigger]
            upgrade_asked(*oracle, current_version@, update_code@, answer, result),
{
    let version = runtime_version(oracle, update_code);
    let ghost answer = choose|answer: Option<Seq<u8>>| #[trigger]
        version_asked(*oracle, update_code@, answer, version);
    let result = check_extracted_upgrade(current_version, version);
    assert(upgrade_asked(*oracle, current_version@, update_code@, answer, result));
    result
}

/// A registered runtime, as the registry's contracts speak of it.
pub type Object = RuntimeObjectView<BlockNumber, H256>;

/// True when `genesis` embeds runtime code and `hash` is the hash of it.
pub open spec fn code_hashed(genesis: RawGenesisView, hash: H256) -> bool {
    genesis.runtime_code() matches Some(code) && hash@ == blake2_256(code)
}

/// What the registry holds, as mathematical values.
pub struct RegistryView {
    /// The identifier that the next registration hands out.
    pub next_runtime_id: RuntimeId,
    /// The registered runtimes, each under its identifier.
    pub runtimes: Map<RuntimeId, Object>,
    /// The upgrades that wait for their activation height.
    pub scheduled: Pending,
}

impl RegistryView {
    /// Every identifier in use was handed out, and upgrades wait for
    /// registered runtimes only.
    pub open spec fn wf(self) -> bool {
        &&& forall|id: RuntimeId| #[trigger]
            self.runtimes.contains_key(id) ==> id < self.next_runtime_id
        &&& forall|k: ScheduleKey| #[trigger]
            self.scheduled.contains_key(k) ==> self.runtimes.contains_key(k.1)
    }

    /// Every code hash that the registry holds is the hash of the code that
    /// is embedded in the image beside it.
    pub open spec fn consistent(self) -> bool {
        &&& forall|id: RuntimeId| #[trigger]
            self.runtimes.contains_key(id) ==> code_hashed(
                self.runtimes[id].raw_genesis,
                self.runtimes[id].hash,
            )
        &&& forall|k: ScheduleKey| #[trigger]
            self.scheduled.contains_key(k) ==> code_hashed(
                self.scheduled[k].raw_genesis,
                self.scheduled[k].hash,
            )
    }
}

/// How the registry answers the request to store `object` as a new runtime:
/// with the next identifier, unless none is left.
pub open spec fn insert_step(
    pre: RegistryView,
    post: RegistryView,
    result: Result<RuntimeId, Error>,
    object: Object,
) -> bool {
    if pre.next_runtime_id == u32::MAX {
        result == Err::<RuntimeId, Error>(Error::MaxRuntimeId) && post == pre
    } else {
        &&& result == Ok::<RuntimeId, Error>(pre.next_runtime_id)
        &&& post.next_runtime_id == pre.next_runtime_id + 1
        &&& post.runtimes == pre.runtimes.insert(pre.next_runtime_id, object)
        &&& post.scheduled == pre.scheduled
    }
}

/// True when `object` is what a registration at the height `at` stores.
pub open spec fn new_object(
    object: Object,
    runtime_name: Seq<char>,
    runtime_type: RuntimeType,
    genesis: RawGenesisView,
    version: RuntimeVersionView,
    at: BlockNumber,
) -> bool {
    &&& object.runtime_name == runtime_name
    &&& object.runtime_type == runtime_type
    &&& object.runtime_upgrades == 0
    &&& object.raw_genesis == genesis
    &&& object.version == version
    &&& object.created_at == at
    &&& object.updated_at == at
    &&& code_hashed(genesis, object.hash)
}

/// How the registry answers a registration. `version` is the version that
/// is read out of the code of the image, if one can be read. The checks are
/// made in this order: the image is decoded, its code is found, the version
/// is read, an identifier is taken. A refused registration changes nothing;
/// a granted one stores the runtime under the identifier that was next and
/// moves the next identifier up by one.
pub open spec fn register_step(
    pre: RegistryView,
    post: RegistryView,
    result: Result<RuntimeId, Error>,
    runtime_name: Seq<char>,
    runtime_type: RuntimeType,
    raw_genesis_storage: Seq<u8>,
    version: Option<RuntimeVersionView>,
    at: BlockNumber,
) -> bool {
    match decoded_raw_genesis(raw_genesis_storage) {
        None => result == Err::<RuntimeId, Error>(Error::FailedToDecodeRawGenesis) && post == pre,
        Some(genesis) => match genesis.runtime_code() {
            None => result == Err::<RuntimeId, Error>(Error::RuntimeCodeNotFoundInRawGenesis)
                && post == pre,
            Some(code) => match version {
                None => result == Err::<RuntimeId, Error>(Error::FailedToExtractRuntimeVersion)
                    && post == pre,
                Some(found) => if pre.next_runtime_id == u32::MAX {
                    result == Err::<RuntimeId, Error>(Error::MaxRuntimeId) && post == pre
                } else {
                    let id = pre.next_runtime_id;
                    &&& result == Ok::<RuntimeId, Error>(id)
                    &&& post.next_runtime_id == id + 1
                    &&& post.scheduled == pre.scheduled
                    &&& post.runtimes == pre.runtimes.insert(id, post.runtimes[id])
                    &&& new_object(post.runtimes[id], runtime_name, runtime_type, genesis, found, at)
                },
            },
        },
    }
}

/// How the registry answers the request to upgrade the runtime `runtime_id`
/// after `upgrade_delay` blocks. `version` is the version that is read out
/// of the code of the image, if one can be read. The checks are made in
/// this order: the runtime is looked up, the image is decoded, its code is
/// found, its version is read and held against the runtime's current one,
/// the activation height is computed. A refused request changes nothing; a
/// granted one adds the upgrade under its key, in place of one that waited
/// there.
pub open spec fn schedule_step(
    pre: RegistryView,
    post: RegistryView,
    result: Result<BlockNumber, Error>,
    runtime_id: RuntimeId,
    raw_genesis_storage: Seq<u8>,
    version: Option<RuntimeVersionView>,
    current_block_number: BlockNumber,
    upgrade_delay: BlockNumber,
) -> bool {
    if !pre.runtimes.contains_key(runtime_id) {
        result == Err::<BlockNumber, Error>(Error::MissingRuntimeObject) && post == pre
    } else {
        match decoded_raw_genesis(raw_genesis_storage) {
            None => result == Err::<BlockNumber, Error>(Error::FailedToDecodeRawGenesis) && post
                == pre,
            Some(genesis) => match genesis.runtime_code() {
                None => result == Err::<BlockNumber, Error>(
                    Error::RuntimeCodeNotFoundInRawGenesis,
                ) && post == pre,
                Some(code) => match upgrade_outcome(pre.runtimes[runtime_id].version, version) {
                    Err(e) => result == Err::<BlockNumber, Error>(e) && post == pre,
                    Ok(accepted) => if current_block_number + upgrade_delay > u32::MAX {
                        result == Err::<BlockNumber, Error>(Error::MaxScheduledBlockNumber)
                            && post == pre
                    } else {
                        let at = (current_block_number + upgrade_delay) as u32;
                        let upgrade = post.scheduled[(at, runtime_id)];
                        &&& result == Ok::<BlockNumber, Error>(at)
                        &&& post.next_runtime_id == pre.next_runtime_id
                        &&& post.runtimes == pre.runtimes
                        &&& post.scheduled == pre.scheduled.insert((at, runtime_id), upgrade)
                        &&& upgrade.raw_genesis == genesis
                        &&& upgrade.version == accepted
                        &&& code_hashed(genesis, upgrade.hash)
                    },
                },
            },
        }
    }
}

/// The runtime code that is embedded in the encoded image, where the image
/// can be decoded and holds code.
pub open spec fn embedded_code(raw_genesis_storage: Seq<u8>) -> Option<Seq<u8>> {
    match decoded_raw_genesis(raw_genesis_storage) {
        Some(genesis) => genesis.runtime_code(),
        None => None,
    }
}

/// How the registry answers a registration for which it asks `oracle`:
/// as [`register_step`] says for the version that `answer` holds, where
/// `answer` is one that the oracle may give for the code of the image.
pub open spec fn register_asked<O: VersionOracle>(
    oracle: O,
    pre: RegistryView,
    post: RegistryView,
    result: Result<RuntimeId, Error>,
    runtime_name: Seq<char>,
    runtime_type: RuntimeType,
    raw_genesis_storage: Seq<u8>,
    answer: Option<Seq<u8>>,
    at: BlockNumber,
) -> bool {
    &&& register_step(
        pre,
        post,
        result,
        runtime_name,
        runtime_type,
        raw_genesis_storage,
        extracted_version(answer),
        at,
    )
    &&& embedded_code(raw_genesis_storage) matches Some(code) ==> oracle.may_answer(code, answer)
}

/// How the registry answers the request for an upgrade for which it asks
/// `oracle`: as [`schedule_step`] says for the version that `answer`
/// holds, where `answer` is one that the oracle may give for the code of
/// the image. The oracle is asked for a registered runtime only.
pub open spec fn schedule_asked<O: VersionOracle>(
    oracle: O,
    pre: RegistryView,
    post: RegistryView,
    result: Result<BlockNumber, Error>,
    runtime_id: RuntimeId,
    raw_genesis_storage: Seq<u8>,
    answer: Option<Seq<u8>>,
    current_block_number: BlockNumber,
    upgrade_delay: BlockNumber,
) -> bool {
    &&& schedule_step(
        pre,
        post,
        result,
        runtime_id,
        raw_genesis_storage,
        extracted_version(answer),
        current_block_number,
        upgrade_delay,
    )
    &&& pre.runtimes.contains_key(runtime_id) ==> (embedded_code(raw_genesis_storage) matches Some(
        code,
    ) ==> oracle.may_answer(code, answer))
}

/// How the registry answers the request to let `upgrade` wait for the
/// runtime `runtime_id`, `upgrade_delay` blocks after the current one. The
/// checks are made in this order: the runtime is looked up, the upgrade's
/// version is held against the runtime's current one, the activation height
/// is computed.
pub open spec fn schedule_upgrade_step(
    pre: RegistryView,
    post: RegistryView,
    result: Result<BlockNumber, Error>,
    runtime_id: RuntimeId,
    upgrade: ScheduledRuntimeUpgradeView<H256>,
    current_block_number: BlockNumber,
    upgrade_delay: BlockNumber,
) -> bool {
    if !pre.runtimes.contains_key(runtime_id) {
        result == Err::<BlockNumber, Error>(Error::MissingRuntimeObject) && post == pre
    } else {
        match upgrade_outcome(pre.runtimes[runtime_id].version, Some(upgrade.version)) {
            Err(e) => result == Err::<BlockNumber, Error>(e) && post == pre,
            Ok(_) => if current_block_number + upgrade_delay > u32::MAX {
                result == Err::<BlockNumber, Error>(Error::MaxScheduledBlockNumber) && post == pre
            } else {
                let at = (current_block_number + upgrade_delay) as u32;
                &&& result == Ok::<BlockNumber, Error>(at)
                &&& post.next_runtime_id == pre.next_runtime_id
                &&& post.runtimes == pre.runtimes
                &&& post.scheduled == pre.scheduled.insert((at, runtime_id), upgrade)
            },
        }
    }
}

/// What the registry does at the height `at`: every upgrade that waits for
/// this height leaves the pending upgrades and is folded into its runtime,
/// and `activated` lists the upgraded runtimes in the order of their
/// identifiers.
pub open spec fn upgrade_step(
    pre: RegistryView,
    post: RegistryView,
    at: BlockNumber,
    activated: Seq<RuntimeId>,
) -> bool {
    &&& post.next_runtime_id == pre.next_runtime_id
    &&& post.scheduled == pre.scheduled.remove_keys(keys_at(at))
    &&& post.runtimes.dom() == pre.runtimes.dom()
    &&& forall|id: RuntimeId|
        pre.runtimes.contains_key(id) ==> #[trigger] post.runtimes[id] == (
        if pre.scheduled.contains_key((at, id)) {
            upgraded(pre.runtimes[id], pre.scheduled[(at, id)], at)
        } else {
            pre.runtimes[id]
        })
    &&& forall|i: int, j: int|
        0 <= i < j < activated.len() ==> #[trigger] activated[i] < #[trigger] activated[j]
    &&& forall|i: int|
        0 <= i < activated.len() ==> pre.scheduled.contains_key((at, #[trigger] activated[i]))
    &&& forall|id: RuntimeId| #[trigger]
        pre.scheduled.contains_key((at, id)) ==> activated.contains(id)
}

/// What an activation tells downstream observers.
#[derive(Debug, Clone, Copy, PartialEq, Eq, Structural)]
pub enum Event {
    /// The runtime was upgraded.
    DomainRuntimeUpgraded {
        /// The upgraded runtime.
        runtime_id: RuntimeId,
    },
}

/// What the activations of one height emit: for each upgraded runtime a
/// digest item for light clients and an event, both in the order of the
/// runtimes' identifiers.
#[derive(Debug, Clone, PartialEq, Eq)]
pub struct UpgradeNotifications {
    /// The digest items to deposit in the block's header.
    pub logs: Vec<DigestItem>,
    /// The events to deposit.
    pub events: Vec<Event>,
}

impl UpgradeNotifications {
    /// The upgraded runtimes, in the order of the events.
    pub open spec fn activated(&self) -> Seq<RuntimeId> {
        Seq::new(self.events@.len(), |i: int| self.events@[i]->runtime_id)
    }

    /// There is one digest item for each event, and it reports the upgrade
    /// of the event's runtime.
    pub open spec fn wf(&self) -> bool {
        &&& self.logs@.len() == self.events@.len()
        &&& forall|i: int|
            0 <= i < self.logs@.len() ==> (#[trigger] self.logs@[i])@ == DigestItemView::Other(
                runtime_upgrade_data(self.events@[i]->runtime_id),
            )
    }
}

/// The registered runtimes and the upgrades that wait for their activation
/// height.
#[derive(Debug, Clone, PartialEq, Eq)]
pub struct RuntimeRegistry {
    first_runtime_id: RuntimeId,
    next_runtime_id: RuntimeId,
    runtimes: Vec<RuntimeObject<BlockNumber, H256>>,
    scheduled: ScheduledRuntimeUpgrades,
}

/// The runtimes of a list as a map: the first under the identifier
/// `first`, each other under the identifier after that of the one before.
spec fn runtimes_map(first: RuntimeId, objects: Seq<RuntimeObject<BlockNumber, H256>>) -> Map<
    RuntimeId,
    Object,
> {
    Map::new(
        |id: RuntimeId| first <= id < first + objects.len(),
        |id: RuntimeId| objects[id - first]@,
    )
}

impl View for RuntimeRegistry {
    type V = RegistryView;

    closed spec fn view(&self) -> RegistryView {
        RegistryView {
            next_runtime_id: self.next_runtime_id,
            runtimes: runtimes_map(self.first_runtime_id, self.runtimes@),
            scheduled: self.scheduled@,
        }
    }
}

impl RuntimeRegistry {
    /// The stored form is in order: the runtimes are stored one after the
    /// other up to the next identifier, and the pending upgrades are
    /// sorted.
    pub closed spec fn well_stored(&self) -> bool {
        &&& self.first_runtime_id + self.runtimes@.len() == self.next_runtime_id
        &&& self.scheduled.wf()
    }

    /// The registry is well stored and what it holds is well formed.
    pub open spec fn wf(&self) -> bool {
        self.well_stored() && self@.wf()
    }

    /// A registry without runtimes, whose first runtime gets the
    /// identifier 0.
    pub fn new() -> (registry: RuntimeRegistry)
        ensures
            registry.wf(),
            registry@.next_runtime_id == 0,
            registry@.runtimes == Map::<RuntimeId, Object>::empty(),
            registry@.scheduled == Pending::empty(),
            registry@.consistent(),
    {
        Self::starting_at(0)
    }

    /// A registry without runtimes, whose first runtime gets the
    /// identifier `next_runtime_id`.
    pub fn starting_at(next_runtime_id: RuntimeId) -> (registry: RuntimeRegistry)
        ensures
            registry.wf(),
            registry@.next_runtime_id == next_runtime_id,
            registry@.runtimes == Map::<RuntimeId, Object>::empty(),
            registry@.scheduled == Pending::empty(),
            registry@.consistent(),
    {
        let registry = RuntimeRegistry {
            first_runtime_id: next_runtime_id,
            next_runtime_id,
            runtimes: Vec::new(),
            scheduled: ScheduledRuntimeUpgrades::new(),
        };
        assert(registry@.runtimes =~= Map::<RuntimeId, Object>::empty());
        registry
    }

    /// The identifier that the next registration hands out.
    pub fn next_runtime_id(&self) -> (id: RuntimeId)
        ensures
            id == self@.next_runtime_id,
    {
        self.next_runtime_id
    }

    /// The runtime that is registered as `runtime_id`, where there is one.
    pub fn get(&self, runtime_id: RuntimeId) -> (object: Option<&RuntimeObject<BlockNumber, H256>>)
        requires
            self.wf(),
        ensures
            match object {
                Some(found) => self@.runtimes.contains_key(runtime_id) && found@
                    == self@.runtimes[runtime_id],
                None => !self@.runtimes.contains_key(runtime_id),
            },
    {
        if self.first_runtime_id <= runtime_id && runtime_id < self.next_runtime_id {
            Some(&self.runtimes[(runtime_id - self.first_runtime_id) as usize])
        } else {
            None
        }
    }

    /// The upgrade of the runtime `runtime_id` that waits for the height
    /// `at`, where there is one.
    pub fn scheduled_upgrade(&self, at: BlockNumber, runtime_id: RuntimeId) -> (upgrade: Option<
        &ScheduledRuntimeUpgrade<H256>,
    >)
        requires
            self.wf(),
        ensures
            match upgrade {
                Some(found) => self@.scheduled.contains_key((at, runtime_id))
                    && self@.scheduled[(at, runtime_id)] == found@,
                None => !self@.scheduled.contains_key((at, runtime_id)),
            },
    {
        self.scheduled.get(at, runtime_id)
    }

    /// Stores `object` as a new runtime and hands out its identifier.
    pub fn insert(&mut self, object: RuntimeObject<BlockNumber, H256>) -> (result: Result<
        RuntimeId,
        Error,
    >)
        requires
            old(self).wf(),
        ensures
            final(self).wf(),
            insert_step(old(self)@, final(self)@, result, object@),
            old(self)@.consistent() && code_hashed(object@.raw_genesis, object@.hash) ==> final(self)@.consistent(),
    {
        let runtime_id = self.next_runtime_id;
        if runtime_id == u32::MAX {
            return Err(Error::MaxRuntimeId);
        }
        self.runtimes.push(object);
        self.next_runtime_id = runtime_id + 1;
        proof {
            let pre = old(self)@;
            let post = self@;
            assert(post.runtimes =~= pre.runtimes.insert(runtime_id, object@));
            assert forall|k: ScheduleKey| #[trigger]
                post.scheduled.contains_key(k) implies post.runtimes.contains_key(k.1) by {
                assert(pre.scheduled.contains_key(k));
                assert(pre.runtimes.contains_key(k.1));
            }
            assert forall|id: RuntimeId| #[trigger]
                post.runtimes.contains_key(id) implies id < post.next_runtime_id by {
                if id != runtime_id {
                    assert(pre.runtimes.contains_key(id));
                }
            }
            if pre.consistent() && code_hashed(object@.raw_genesis, object@.hash) {
                assert forall|id: RuntimeId| #[trigger]
                    post.runtimes.contains_key(id) implies code_hashed(
                    post.runtimes[id].raw_genesis,
                    post.runtimes[id].hash,
                ) by {
                    if id != runtime_id {
                        assert(pre.runtimes.contains_key(id));
                    }
                }
            }
        }
        Ok(runtime_id)
    }

    /// Lets `upgrade` wait for the runtime `runtime_id`, `upgrade_delay`
    /// blocks after the current one, and hands out the height at which it
    /// takes effect.
    pub fn schedule_upgrade(
        &mut self,
        runtime_id: RuntimeId,
        upgrade: ScheduledRuntimeUpgrade<H256>,
        current_block_number: BlockNumber,
        upgrade_delay: BlockNumber,
    ) -> (result: Result<BlockNumber, Error>)
        requires
            old(self).wf(),
        ensures
            final(self).wf(),
            schedule_upgrade_step(
                old(self)@,
                final(self)@,
                result,
                runtime_id,
                upgrade@,
                current_block_number,
                upgrade_delay,
            ),
            old(self)@.consistent() && code_hashed(upgrade@.raw_genesis, upgrade@.hash) ==> final(self)@.consistent(),
    {
        let current_version = match self.get(runtime_id) {
            Some(object) => &object.version,
            None => {
                return Err(Error::MissingRuntimeObject);
            },
        };
        match version_may_replace(current_version, &upgrade.version) {
            Ok(_) => {},
            Err(e) => {
                return Err(e);
            },
        }
        let scheduled_at = match current_block_number.checked_add(upgrade_delay) {
            Some(at) => at,
            None => {
                return Err(Error::MaxScheduledBlockNumber);
            },
        };
        self.scheduled.insert(scheduled_at, runtime_id, upgrade);
        proof {
            let pre = old(self)@;
            let post = self@;
            assert(post.runtimes =~= pre.runtimes);
            assert forall|k: ScheduleKey| #[trigger]
                post.scheduled.contains_key(k) implies post.runtimes.contains_key(k.1) by {
                if k != (scheduled_at, runtime_id) {
                    assert(pre.scheduled.contains_key(k));
                }
            }
            if pre.consistent() && code_hashed(upgrade@.raw_genesis, upgrade@.hash) {
                assert forall|k: ScheduleKey| #[trigger]
                    post.scheduled.contains_key(k) implies code_hashed(
                    post.scheduled[k].raw_genesis,
                    post.scheduled[k].hash,
                ) by {
                    if k != (scheduled_at, runtime_id) {
                        assert(pre.scheduled.contains_key(k));
                    }
                }
            }
        }
        Ok(scheduled_at)
    }

    /// The version of the runtime that is registered as `runtime_id`.
    fn version_of(&self, runtime_id: RuntimeId) -> (version: &RuntimeVersion)
        requires
            self.wf(),
            self@.runtimes.contains_key(runtime_id),
        ensures
            version@ == self@.runtimes[runtime_id].version,
    {
        &self.runtimes[(runtime_id - self.first_runtime_id) as usize].version
    }

    /// Folds `upgrade` into the runtime that is registered as `runtime_id`.
    fn upgrade(&mut self, runtime_id: RuntimeId, upgrade: ScheduledRuntimeUpgrade<H256>, at: BlockNumber)
        requires
            old(self).well_stored(),
            old(self)@.runtimes.contains_key(runtime_id),
        ensures
            final(self).well_stored(),
            final(self)@.next_runtime_id == old(self)@.next_runtime_id,
            final(self)@.scheduled == old(self)@.scheduled,
            final(self)@.runtimes == old(self)@.runtimes.insert(
                runtime_id,
                upgraded(old(self)@.runtimes[runtime_id], upgrade@, at),
            ),
    {
        let index = (runtime_id - self.first_runtime_id) as usize;
        self.runtimes[index].apply_upgrade(upgrade, at);
        proof {
            assert(self.runtimes@ =~= old(self).runtimes@.update(index as int, self.runtimes@[index as int]));
            assert(self@.runtimes =~= old(self)@.runtimes.insert(
                runtime_id,
                upgraded(old(self)@.runtimes[runtime_id], upgrade@, at),
            ));
        }
    }
}

/// True when `result` is what is made of the encoded image
/// `raw_genesis_storage`: the decoded image with the hash of its code, or
/// the failure to decode it or to find code in it.
pub open spec fn runtime_decoded(
    raw_genesis_storage: Seq<u8>,
    result: Result<(RawGenesis, H256), Error>,
) -> bool {
    match decoded_raw_genesis(raw_genesis_storage) {
        None => result == Err::<(RawGenesis, H256), Error>(Error::FailedToDecodeRawGenesis),
        Some(genesis) => match genesis.runtime_code() {
            None => result == Err::<(RawGenesis, H256), Error>(
                Error::RuntimeCodeNotFoundInRawGenesis,
            ),
            Some(code) => result is Ok && result->Ok_0.0@ == genesis && result->Ok_0.1@
                == blake2_256(code),
        },
    }
}

/// Decodes the raw genesis of a runtime and hashes the code in it.
pub fn decode_runtime(raw_genesis_storage: &[u8]) -> (result: Result<(RawGenesis, H256), Error>)
    ensures
        runtime_decoded(raw_genesis_storage@, result),
{
    let raw_genesis = match RawGenesis::decode(raw_genesis_storage) {
        Some(genesis) => genesis,
        None => {
            return Err(Error::FailedToDecodeRawGenesis);
        },
    };
    let hash = match raw_genesis.get_runtime_code() {
        Some(code) => hash_blake2_256(code),
        None => {
            return Err(Error::RuntimeCodeNotFoundInRawGenesis);
        },
    };
    Ok((raw_genesis, hash))
}

/// Registers the decoded runtime with the version that was read out of its
/// code, if one was read.
fn register_decoded(
    registry: &mut RuntimeRegistry,
    runtime_name: String,
    runtime_type: RuntimeType,
    raw_genesis_storage: Ghost<Seq<u8>>,
    raw_genesis: RawGenesis,
    hash: H256,
    version: Result<RuntimeVersion, Error>,
    at: BlockNumber,
) -> (result: Result<RuntimeId, Error>)
    requires
        old(registry).wf(),
        runtime_decoded(raw_genesis_storage@, Ok((raw_genesis, hash))),
        version is Err ==> version->Err_0 == Error::FailedToExtractRuntimeVersion,
    ensures
        final(registry).wf(),
        register_step(
            old(registry)@,
            final(registry)@,
            result,
            runtime_name@,
            runtime_type,
            raw_genesis_storage@,
            read_version_view(version),
            at,
        ),
        old(registry)@.consistent() ==> final(registry)@.consistent(),
{
    let version = match version {
        Ok(found) => found,
        Err(e) => {
            return Err(e);
        },
    };
    let object = RuntimeObject {
        runtime_name,
        runtime_type,
        hash,
        raw_genesis,
        version,
        created_at: at,
        updated_at: at,
        runtime_upgrades: 0u32,
    };
    registry.insert(object)
}

/// Registers a new domain runtime: decodes the raw genesis, finds the
/// runtime code in it, asks `oracle` for the code's version, hashes the
/// code and stores the runtime under the next identifier.
///
/// What the oracle answers is not known in advance: the registration is
/// answered as [`register_asked`] says for an answer that the oracle may
/// give.
pub fn do_register_runtime<O: VersionOracle>(
    registry: &mut RuntimeRegistry,
    oracle: &O,
    runtime_name: String,
    runtime_type: RuntimeType,
    raw_genesis_storage: Vec<u8>,
    at: BlockNumber,
) -> (result: Result<RuntimeId, Error>)
    requires
        old(registry).wf(),
    ensures
        final(registry).wf(),
        exists|answer: Option<Seq<u8>>| #[trigger]
            register_asked(
                *oracle,
                old(registry)@,
                final(registry)@,
                result,
                runtime_name@,
                runtime_type,
                raw_genesis_storage@,
                answer,
                at,
            ),
        old(registry)@.consistent() ==> final(registry)@.consistent(),
{
    let (raw_genesis, hash) = match decode_runtime(raw_genesis_storage.as_slice()) {
        Ok(decoded) => decoded,
        Err(e) => {
            assert(register_asked(
                *oracle,
                old(registry)@,
                registry@,
                Err(e),
                runtime_name@,
                runtime_type,
                raw_genesis_storage@,
                None,
                at,
            ));
            return Err(e);
        },
    };
    let code = match raw_genesis.get_runtime_code() {
        Some(code) => code,
        None => {
            return Err(Error::RuntimeCodeNotFoundInRawGenesis);
        },
    };
    let version = runtime_version(oracle, code);
    let ghost answer = choose|answer: Option<Seq<u8>>| #[trigger]
        version_asked(*oracle, code@, answer, version);
    let result = register_decoded(
        registry,
        runtime_name,
        runtime_type,
        Ghost(raw_genesis_storage@),
        raw_genesis,
        hash,
        version,
        at,
    );
    assert(register_asked(
        *oracle,
        old(registry)@,
        registry@,
        result,
        runtime_name@,
        runtime_type,
        raw_genesis_storage@,
        answer,
        at,
    ));
    result
}

/// Registers a new domain runtime with the answer that an oracle gave for
/// its code: as [`do_register_runtime`] does, but for asking.
pub fn register_runtime_with_answer(
    registry: &mut RuntimeRegistry,
    answer: Option<Vec<u8>>,
    runtime_name: String,
    runtime_type: RuntimeType,
    raw_genesis_storage: Vec<u8>,
    at: BlockNumber,
) -> (result: Result<RuntimeId, Error>)
    requires
        old(registry).wf(),
    ensures
        final(registry).wf(),
        register_step(
            old(registry)@,
            final(registry)@,
            result,
            runtime_name@,
            runtime_type,
            raw_genesis_storage@,
            extracted_version(answer_view(answer)),
            at,
        ),
        old(registry)@.consistent() ==> final(registry)@.consistent(),
{
    let (raw_genesis, hash) = match decode_runtime(raw_genesis_storage.as_slice()) {
        Ok(decoded) => decoded,
        Err(e) => {
            return Err(e);
        },
    };
    let version = version_from_blob(answer);
    register_decoded(
        registry,
        runtime_name,
        runtime_type,
        Ghost(raw_genesis_storage@),
        raw_genesis,
        hash,
        version,
        at,
    )
}

/// Registers a new domain runtime at genesis, with the version that the
/// caller knows it to have: no oracle is asked.
pub fn register_runtime_at_genesis(
    registry: &mut RuntimeRegistry,
    runtime_name: String,
    runtime_type: RuntimeType,
    runtime_version: RuntimeVersion,
    raw_genesis_storage: Vec<u8>,
    at: BlockNumber,
) -> (result: Result<RuntimeId, Error>)
    requires
        old(registry).wf(),
    ensures
        final(registry).wf(),
        register_step(
            old(registry)@,
            final(registry)@,
            result,
            runtime_name@,
            runtime_type,
            raw_genesis_storage@,
            Some(runtime_version@),
            at,
        ),
        old(registry)@.consistent() ==> final(registry)@.consistent(),
{
    let (raw_genesis, hash) = match decode_runtime(raw_genesis_storage.as_slice()) {
        Ok(decoded) => decoded,
        Err(e) => {
            return Err(e);
        },
    };
    register_decoded(
        registry,
        runtime_name,
        runtime_type,
        Ghost(raw_genesis_storage@),
        raw_genesis,
        hash,
        Ok(runtime_version),
        at,
    )
}

/// Lets the decoded candidate wait, once its version was held against the
/// current one of the runtime `runtime_id`.
fn schedule_decoded(
    registry: &mut RuntimeRegistry,
    runtime_id: RuntimeId,
    raw_genesis_storage: Ghost<Seq<u8>>,
    raw_genesis: RawGenesis,
    hash: H256,
    candidate: Ghost<Option<RuntimeVersionView>>,
    decided: Result<RuntimeVersion, Error>,
    current_block_number: BlockNumber,
    upgrade_delay: BlockNumber,
) -> (result: Result<BlockNumber, Error>)
    requires
        old(registry).wf(),
        old(registry)@.runtimes.contains_key(runtime_id),
        runtime_decoded(raw_genesis_storage@, Ok((raw_genesis, hash))),
        upgrade_decided(old(registry)@.runtimes[runtime_id].version, candidate@, decided),
    ensures
        final(registry).wf(),
        schedule_step(
            old(registry)@,
            final(registry)@,
            result,
            runtime_id,
            raw_genesis_storage@,
            candidate@,
            current_block_number,
            upgrade_delay,
        ),
        old(registry)@.consistent() ==> final(registry)@.consistent(),
{
    let version = match decided {
        Ok(accepted) => accepted,
        Err(e) => {
            return Err(e);
        },
    };
    let scheduled_upgrade = ScheduledRuntimeUpgrade { raw_genesis, version, hash };
    registry.schedule_upgrade(runtime_id, scheduled_upgrade, current_block_number, upgrade_delay)
}

/// Schedules a runtime upgrade `upgrade_delay` blocks after the current
/// block: the candidate image is decoded, its code is found, `oracle` is
/// asked for the code's version, which is held against the current version
/// of the runtime; the upgrade then waits for its activation height, which
/// is handed out.
///
/// What the oracle answers is not known in advance: the request is
/// answered as [`schedule_asked`] says for an answer that the oracle may
/// give.
pub fn do_schedule_runtime_upgrade<O: VersionOracle>(
    registry: &mut RuntimeRegistry,
    oracle: &O,
    runtime_id: RuntimeId,
    raw_genesis_storage: Vec<u8>,
    current_block_number: BlockNumber,
    upgrade_delay: BlockNumber,
) -> (result: Result<BlockNumber, Error>)
    requires
        old(registry).wf(),
    ensures
        final(registry).wf(),
        exists|answer: Option<Seq<u8>>| #[trigger]
            schedule_asked(
                *oracle,
                old(registry)@,
                final(registry)@,
                result,
                runtime_id,
                raw_genesis_storage@,
                answer,
                current_block_number,
                upgrade_delay,
            ),
        old(registry)@.consistent() ==> final(registry)@.consistent(),
{
    if registry.get(runtime_id).is_none() {
        assert(schedule_asked(
            *oracle,
            old(registry)@,
            registry@,
            Err(Error::MissingRuntimeObject),
            runtime_id,
            raw_genesis_storage@,
            None,
            current_block_number,
            upgrade_delay,
        ));
        return Err(Error::MissingRuntimeObject);
    }
    let (new_raw_genesis, new_runtime_hash) = match decode_runtime(raw_genesis_storage.as_slice()) {
        Ok(decoded) => decoded,
        Err(e) => {
            assert(schedule_asked(
                *oracle,
                old(registry)@,
                registry@,
                Err(e),
                runtime_id,
                raw_genesis_storage@,
                None,
                current_block_number,
                upgrade_delay,
            ));
            return Err(e);
        },
    };
    let new_code = match new_raw_genesis.get_runtime_code() {
        Some(new_code) => new_code,
        None => {
            return Err(Error::RuntimeCodeNotFoundInRawGenesis);
        },
    };
    let decided = can_upgrade_code(oracle, registry.version_of(runtime_id), new_code);
    let ghost answer = choose|answer: Option<Seq<u8>>| #[trigger]
        upgrade_asked(*oracle, registry@.runtimes[runtime_id].version, new_code@, answer, decided);
    let result = schedule_decoded(
        registry,
        runtime_id,
        Ghost(raw_genesis_storage@),
        new_raw_genesis,
        new_runtime_hash,
        Ghost(extracted_version(answer)),
        decided,
        current_block_number,
        upgrade_delay,
    );
    assert(schedule_asked(
        *oracle,
        old(registry)@,
        registry@,
        result,
        runtime_id,
        raw_genesis_storage@,
        answer,
        current_block_number,
        upgrade_delay,
    ));
    result
}

/// Schedules a runtime upgrade with the answer that an oracle gave for the
/// candidate's code: as [`do_schedule_runtime_upgrade`] does, but for
/// asking.
pub fn schedule_runtime_upgrade_with_answer(
    registry: &mut RuntimeRegistry,
    answer: Option<Vec<u8>>,
    runtime_id: RuntimeId,
    raw_genesis_storage: Vec<u8>,
    current_block_number: BlockNumber,
    upgrade_delay: BlockNumber,
) -> (result: Result<BlockNumber, Error>)
    requires
        old(registry).wf(),
    ensures
        final(registry).wf(),
        schedule_step(
            old(registry)@,
            final(registry)@,
            result,
            runtime_id,
            raw_genesis_storage@,
            extracted_version(answer_view(answer)),
            current_block_number,
            upgrade_delay,
        ),
        old(registry)@.consistent() ==> final(registry)@.consistent(),
{
    if registry.get(runtime_id).is_none() {
        return Err(Error::MissingRuntimeObject);
    }
    let (new_raw_genesis, new_runtime_hash) = match decode_runtime(raw_genesis_storage.as_slice()) {
        Ok(decoded) => decoded,
        Err(e) => {
            return Err(e);
        },
    };
    let ghost candidate = extracted_version(answer_view(answer));
    let decided = check_extracted_upgrade(registry.version_of(runtime_id), version_from_blob(answer));
    schedule_decoded(
        registry,
        runtime_id,
        Ghost(raw_genesis_storage@),
        new_raw_genesis,
        new_runtime_hash,
        Ghost(candidate),
        decided,
        current_block_number,
        upgrade_delay,
    )
}

/// Activates every upgrade that waits for the height `at`: each leaves the
/// pending upgrades and is folded into its runtime. Hands out what the
/// activations emit.
pub fn do_upgrade_runtimes(registry: &mut RuntimeRegistry, at: BlockNumber) -> (notifications:
    UpgradeNotifications)
    requires
        old(registry).wf(),
    ensures
        final(registry).wf(),
        upgrade_step(old(registry)@, final(registry)@, at, notifications.activated()),
        notifications.wf(),
        old(registry)@.consistent() ==> final(registry)@.consistent(),
{
    let ghost pre = registry@;
    let mut drained = registry.scheduled.drain_prefix(at);
    let ghost all = drained@;
    let mut logs: Vec<DigestItem> = Vec::new();
    let mut events: Vec<Event> = Vec::new();
    assert(registry@.runtimes == pre.runtimes);
    while drained.len() > 0
        invariant
            pre.wf(),
            is_drain_of(pre.scheduled, at, all),
            registry.well_stored(),
            registry@.next_runtime_id == pre.next_runtime_id,
            registry@.scheduled == pre.scheduled.remove_keys(keys_at(at)),
            registry@.runtimes.dom() == pre.runtimes.dom(),
            events@.len() + drained@.len() == all.len(),
            logs@.len() == events@.len(),
            drained@ == all.subrange(events@.len() as int, all.len() as int),
            forall|i: int|
                0 <= i < events@.len() ==> (#[trigger] events@[i])->runtime_id == all[i].0,
            forall|i: int|
                0 <= i < logs@.len() ==> (#[trigger] logs@[i])@ == DigestItemView::Other(
                    runtime_upgrade_data(all[i].0),
                ),
            forall|i: int|
                0 <= i < events@.len() ==> registry@.runtimes[(#[trigger] all[i]).0] == upgraded(
                    pre.runtimes[all[i].0],
                    all[i].1@,
                    at,
                ),
            forall|id: RuntimeId|
                pre.runtimes.contains_key(id) && (forall|i: int|
                    0 <= i < events@.len() ==> (#[trigger] all[i]).0 != id)
                    ==> #[trigger] registry@.runtimes[id] == pre.runtimes[id],
        decreases drained.len(),
    {
        let ghost done = events@.len() as int;
        let ghost before = registry@;
        let (runtime_id, scheduled_update) = drained.remove(0);
        assert(all[done] == (runtime_id, scheduled_update));
        assert(pre.scheduled.contains_key((at, all[done].0)));
        assert(pre.runtimes.contains_key(runtime_id));
        assert(before.runtimes.dom().contains(runtime_id));
        registry.upgrade(runtime_id, scheduled_update, at);
        logs.push(DigestItem::domain_runtime_upgrade(runtime_id));
        events.push(Event::DomainRuntimeUpgraded { runtime_id });
        proof {
            assert(drained@ =~= all.subrange(done + 1, all.len() as int));
            assert(registry@.runtimes.dom() =~= pre.runtimes.dom());
            assert forall|id: RuntimeId|
                pre.runtimes.contains_key(id) && (forall|i: int|
                    0 <= i < events@.len() ==> (#[trigger] all[i]).0 != id)
                    implies #[trigger] registry@.runtimes[id] == pre.runtimes[id] by {
                assert(all[done].0 != id);
                assert forall|i: int| 0 <= i < done implies (#[trigger] all[i]).0 != id by {}
                assert(before.runtimes[id] == pre.runtimes[id]);
            }
            assert forall|i: int| 0 <= i < events@.len() implies registry@.runtimes[(
            #[trigger] all[i]).0] == upgraded(pre.runtimes[all[i].0], all[i].1@, at) by {
                if i < done {
                    assert(all[i].0 < all[done].0);
                    assert(registry@.runtimes[all[i].0] == before.runtimes[all[i].0]);
                } else {
                    assert(before.runtimes[runtime_id] == pre.runtimes[runtime_id]) by {
                        assert forall|j: int| 0 <= j < done implies (#[trigger] all[j]).0
                            != runtime_id by {
                            assert(all[j].0 < all[done].0);
                        }
                    }
                }
            }
        }
    }
    let notifications = UpgradeNotifications { logs, events };
    proof {
        let post = registry@;
        let activated = notifications.activated();
        assert forall|i: int| 0 <= i < activated.len() implies activated[i] == all[i].0 by {}
        assert forall|id: RuntimeId| pre.runtimes.contains_key(id) implies #[trigger] post.runtimes[id]
            == (if pre.scheduled.contains_key((at, id)) {
            upgraded(pre.runtimes[id], pre.scheduled[(at, id)], at)
        } else {
            pre.runtimes[id]
        }) by {
            if pre.scheduled.contains_key((at, id)) {
                let i = choose|i: int| 0 <= i < all.len() && (#[trigger] all[i]).0 == id;
                assert(post.runtimes[all[i].0] == upgraded(pre.runtimes[all[i].0], all[i].1@, at));
            } else {
                assert forall|i: int| 0 <= i < all.len() implies (#[trigger] all[i]).0 != id by {
                    assert(pre.scheduled.contains_key((at, all[i].0)));
                }
            }
        }
        assert forall|i: int, j: int| 0 <= i < j < activated.len() implies #[trigger] activated[i]
            < #[trigger] activated[j] by {
            assert(all[i].0 < all[j].0);
        }
        assert forall|i: int| 0 <= i < activated.len() implies pre.scheduled.contains_key(
            (at, #[trigger] activated[i]),
        ) by {
            assert(pre.scheduled.contains_key((at, all[i].0)));
        }
        assert forall|id: RuntimeId| #[trigger]
            pre.scheduled.contains_key((at, id)) implies activated.contains(id) by {
            let i = choose|i: int| 0 <= i < all.len() && (#[trigger] all[i]).0 == id;
            assert(activated[i] == id);
        }
        assert forall|id: RuntimeId| #[trigger]
            post.runtimes.contains_key(id) implies id < post.next_runtime_id by {
            assert(pre.runtimes.contains_key(id));
        }
        assert forall|k: ScheduleKey| #[trigger]
            post.scheduled.contains_key(k) implies post.runtimes.contains_key(k.1) by {
            assert(pre.scheduled.contains_key(k));
            assert(pre.runtimes.contains_key(k.1));
        }
        if pre.consistent() {
            assert forall|id: RuntimeId| #[trigger]
                post.runtimes.contains_key(id) implies code_hashed(
                post.runtimes[id].raw_genesis,
                post.runtimes[id].hash,
            ) by {
                assert(pre.runtimes.contains_key(id));
                if pre.scheduled.contains_key((at, id)) {
                    assert(code_hashed(
                        pre.scheduled[(at, id)].raw_genesis,
                        pre.scheduled[(at, id)].hash,
                    ));
                }
            }
            assert forall|k: ScheduleKey| #[trigger]
                post.scheduled.contains_key(k) implies code_hashed(
                post.scheduled[k].raw_genesis,
                post.scheduled[k].hash,
            ) by {
                assert(pre.scheduled.contains_key(k));
            }
        }
    }
    notifications
}

} // verus!
