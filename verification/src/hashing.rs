//! Hash functions and the storage keys that are derived from them.

use vstd::prelude::*;
use vstd::string::StringSliceAdditionalSpecFns;

verus! {

/// The BLAKE2b-256 digest of `data`: 32 bytes.
pub uninterp spec fn blake2_256(data: Seq<u8>) -> Seq<u8>;

/// The 128-bit XX hash of `data`: 16 bytes.
pub uninterp spec fn twox_128(data: Seq<u8>) -> Seq<u8>;

/// Trusted: calls `BlakeTwo256::hash` of `sp-runtime` and hands out the bytes
/// of the `H256` it returns. The contract only gives that digest its name,
/// [`blake2_256`]; nothing about its value is claimed.
#[verifier::external_body]
pub(crate) fn hash_blake2_256(data: &[u8]) -> (digest: [u8; 32])
    ensures
        digest@ == blake2_256(data@),
{
    <sp_runtime::traits::BlakeTwo256 as sp_core::Hasher>::hash(data).0
}

/// Trusted: calls `sp_io::hashing::twox_128`. The contract only gives the
/// result its name, [`twox_128`]; its length of 16 follows from the type.
#[verifier::external_body]
pub(crate) fn hash_twox_128(data: &[u8]) -> (digest: [u8; 16])
    ensures
        digest@ == twox_128(data@),
{
    sp_io::hashing::twox_128(data)
}

/// Key of a storage item: the hash of the pallet's name followed by the hash
/// of the item's name, 32 bytes in all.
pub open spec fn storage_prefix(pallet: Seq<u8>, item: Seq<u8>) -> Seq<u8> {
    twox_128(pallet) + twox_128(item)
}

/// Computes [`storage_prefix`].
pub fn compute_storage_prefix(pallet: &[u8], item: &[u8]) -> (key: Vec<u8>)
    ensures
        key@ == storage_prefix(pallet@, item@),
        key@.len() == 32,
{
    let first = hash_twox_128(pallet);
    let second = hash_twox_128(item);
    let mut key: Vec<u8> = Vec::new();
    let mut i: usize = 0;
    while i < 16
        invariant
            i <= 16,
            key@ == first@.subrange(0, i as int),
        decreases 16 - i,
    {
        key.push(first[i]);
        assert(key@ =~= first@.subrange(0, i as int + 1));
        i += 1;
    }
    assert(key@ =~= first@);
    let mut j: usize = 0;
    while j < 16
        invariant
            j <= 16,
            key@ == first@ + second@.subrange(0, j as int),
        decreases 16 - j,
    {
        key.push(second[j]);
        assert(key@ =~= first@ + second@.subrange(0, j as int + 1));
        j += 1;
    }
    assert(key@ =~= first@ + second@);
    key
}

/// Key under which a domain's own identifier is stored.
pub open spec fn self_domain_id_storage_key() -> Seq<u8> {
    storage_prefix("SelfDomainId".spec_bytes(), "SelfDomainId".spec_bytes())
}

/// Key under which the chain identifier of an EVM domain is stored.
pub open spec fn evm_chain_id_storage_key() -> Seq<u8> {
    storage_prefix("EVMChainId".spec_bytes(), "ChainId".spec_bytes())
}

/// Computes [`self_domain_id_storage_key`].
pub fn compute_self_domain_id_storage_key() -> (key: Vec<u8>)
    ensures
        key@ == self_domain_id_storage_key(),
        key@.len() == 32,
{
    compute_storage_prefix("SelfDomainId".as_bytes(), "SelfDomainId".as_bytes())
}

/// Computes [`evm_chain_id_storage_key`].
pub fn compute_evm_chain_id_storage_key() -> (key: Vec<u8>)
    ensures
        key@ == evm_chain_id_storage_key(),
        key@.len() == 32,
{
    compute_storage_prefix("EVMChainId".as_bytes(), "ChainId".as_bytes())
}

} // verus!
