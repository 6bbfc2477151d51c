//! The registry as a chain calls it: the calls that only the root origin
//! may make, and the hook that runs once per block.

use crate::dispatch::{ensure_root, DispatchError, RawOrigin};
use crate::primitives::{BlockNumber, RuntimeId, RuntimeType};
use crate::runtime_registry::{
    do_register_runtime, do_schedule_runtime_upgrade, do_upgrade_runtimes, register_asked,
    schedule_asked, upgrade_step, Error as RuntimeRegistryError, RuntimeRegistry,
    UpgradeNotifications,
};
use crate::version::VersionOracle;
use vstd::prelude::*;

verus! {

/// Why a call was refused.
#[derive(Clone, Copy, Debug, PartialEq, Eq, Structural)]
pub enum Error {
    /// The origin may not make the call.
    BadOrigin,
    /// The registry refused the request.
    RuntimeRegistry(RuntimeRegistryError),
}

impl vstd::std_specs::convert::FromSpecImpl<DispatchError> for Error {
    open spec fn obeys_from_spec() -> bool {
        true
    }

    open spec fn from_spec(error: DispatchError) -> Error {
        Error::BadOrigin
    }
}

impl From<DispatchError> for Error {
    fn from(error: DispatchError) -> (call_error: Error) {
        match error {
            DispatchError::BadOrigin => Error::BadOrigin,
        }
    }
}

impl vstd::std_specs::convert::FromSpecImpl<RuntimeRegistryError> for Error {
    open spec fn obeys_from_spec() -> bool {
        true
    }

    open spec fn from_spec(error: RuntimeRegistryError) -> Error {
        Error::RuntimeRegistry(error)
    }
}

impl From<RuntimeRegistryError> for Error {
    fn from(error: RuntimeRegistryError) -> (call_error: Error) {
        Error::RuntimeRegistry(error)
    }
}

/// What a call answers the root origin where the registry answers `result`.
pub open spec fn forwarded<T>(result: Result<T, RuntimeRegistryError>) -> Result<T, Error> {
    match result {
        Ok(value) => Ok(value),
        Err(error) => Err(Error::RuntimeRegistry(error)),
    }
}

/// Registers a new domain runtime for the root origin, at the height
/// `block_number`. Any other origin is refused, and nothing changes.
pub fn register_domain_runtime<O: VersionOracle>(
    registry: &mut RuntimeRegistry,
    oracle: &O,
    origin: RawOrigin,
    runtime_name: String,
    runtime_type: RuntimeType,
    raw_genesis_storage: Vec<u8>,
    block_number: BlockNumber,
) -> (result: Result<RuntimeId, Error>)
    requires
        old(registry).wf(),
    ensures
        final(registry).wf(),
        old(registry)@.consistent() ==> final(registry)@.consistent(),
        origin != RawOrigin::Root ==> result == Err::<RuntimeId, Error>(Error::BadOrigin) && final(registry)@ == old(registry)@,
        origin == RawOrigin::Root ==> exists|
            answer: Option<Seq<u8>>,
            registered: Result<RuntimeId, RuntimeRegistryError>,
        |
            result == forwarded(registered) && #[trigger] register_asked(
                *oracle,
                old(registry)@,
                final(registry)@,
                registered,
                runtime_name@,
                runtime_type,
                raw_genesis_storage@,
                answer,
                block_number,
            ),
{
    match ensure_root(origin) {
        Ok(_) => {},
        Err(error) => {
            return Err(Error::from(error));
        },
    }
    match do_register_runtime(
        registry,
        oracle,
        runtime_name,
        runtime_type,
        raw_genesis_storage,
        block_number,
    ) {
        Ok(runtime_id) => Ok(runtime_id),
        Err(error) => Err(Error::from(error)),
    }
}

/// Schedules the upgrade of a domain runtime for the root origin,
/// `upgrade_delay` blocks after the height `block_number`. Any other origin
/// is refused, and nothing changes.
pub fn upgrade_domain_runtime<O: VersionOracle>(
    registry: &mut RuntimeRegistry,
    oracle: &O,
    origin: RawOrigin,
    runtime_id: RuntimeId,
    raw_genesis_storage: Vec<u8>,
    block_number: BlockNumber,
    upgrade_delay: BlockNumber,
) -> (result: Result<BlockNumber, Error>)
    requires
        old(registry).wf(),
    ensures
        final(registry).wf(),
        old(registry)@.consistent() ==> final(registry)@.consistent(),
        origin != RawOrigin::Root ==> result == Err::<BlockNumber, Error>(Error::BadOrigin)
            && final(registry)@ == old(registry)@,
        origin == RawOrigin::Root ==> exists|
            answer: Option<Seq<u8>>,
            scheduled: Result<BlockNumber, RuntimeRegistryError>,
        |
            result == forwarded(scheduled) && #[trigger] schedule_asked(
                *oracle,
                old(registry)@,
                final(registry)@,
                scheduled,
                runtime_id,
                raw_genesis_storage@,
                answer,
                block_number,
                upgrade_delay,
            ),
{
    match ensure_root(origin) {
        Ok(_) => {},
        Err(error) => {
            return Err(Error::from(error));
        },
    }
    match do_schedule_runtime_upgrade(
        registry,
        oracle,
        runtime_id,
        raw_genesis_storage,
        block_number,
        upgrade_delay,
    ) {
        Ok(at) => Ok(at),
        Err(error) => Err(Error::from(error)),
    }
}

/// The hook that runs once per block: activates the upgrades that wait for
/// the height `block_number` and hands out what is to be deposited.
pub fn on_initialize(registry: &mut RuntimeRegistry, block_number: BlockNumber) -> (notifications:
    UpgradeNotifications)
    requires
        old(registry).wf(),
    ensures
        final(registry).wf(),
        upgrade_step(old(registry)@, final(registry)@, block_number, notifications.activated()),
        notifications.wf(),
        old(registry)@.consistent() ==> final(registry)@.consistent(),
{
    do_upgrade_runtimes(registry, block_number)
}

} // verus!
