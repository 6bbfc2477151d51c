//! Version metadata of a runtime, and the oracle that reads it out of
//! executable code.

use vstd::prelude::*;

verus! {

/// Identifier of a runtime API: the first eight bytes of the hash of its
/// name.
pub type ApiId = [u8; 8];

/// What a runtime version holds, as mathematical values.
pub struct RuntimeVersionView {
    /// Name of the runtime specification.
    pub spec_name: Seq<char>,
    /// Name of the implementation of the specification.
    pub impl_name: Seq<char>,
    /// Version of the authorship interface.
    pub authoring_version: u32,
    /// Version of the runtime specification.
    pub spec_version: u32,
    /// Version of the implementation.
    pub impl_version: u32,
    /// The supported APIs, each with its version.
    pub apis: Seq<(Seq<u8>, u32)>,
    /// Version of the transaction format.
    pub transaction_version: u32,
    /// Version of the system implementation.
    pub system_version: u8,
}

impl RuntimeVersionView {
    /// Version of the state trie: 0 for system version 0, else 1.
    pub open spec fn state_version(self) -> u8 {
        if self.system_version == 0 {
            0
        } else {
            1
        }
    }

    /// Version of the trie that the extrinsics root is formed with: 0 for
    /// the system versions 0 and 1, else 1.
    pub open spec fn extrinsic_state_version(self) -> u8 {
        if self.system_version <= 1 {
            0
        } else {
            1
        }
    }
}

/// Version metadata that a runtime declares.
#[derive(Clone, Debug, PartialEq, Eq, Default)]
pub struct RuntimeVersion {
    /// Name of the runtime specification. An upgrade never changes it.
    pub spec_name: String,
    /// Name of the implementation of the specification.
    pub impl_name: String,
    /// Version of the authorship interface.
    pub authoring_version: u32,
    /// Version of the runtime specification. Every upgrade raises it.
    pub spec_version: u32,
    /// Version of the implementation.
    pub impl_version: u32,
    /// The supported APIs, each with its version.
    pub apis: Vec<(ApiId, u32)>,
    /// Version of the transaction format.
    pub transaction_version: u32,
    /// Version of the system implementation, from which the state version
    /// and the extrinsic state version follow.
    pub system_version: u8,
}

/// The view of a list of API versions.
pub open spec fn apis_view(apis: Seq<(ApiId, u32)>) -> Seq<(Seq<u8>, u32)> {
    Seq::new(apis.len(), |i: int| (apis[i].0@, apis[i].1))
}

impl View for RuntimeVersion {
    type V = RuntimeVersionView;

    open spec fn view(&self) -> RuntimeVersionView {
        RuntimeVersionView {
            spec_name: self.spec_name@,
            impl_name: self.impl_name@,
            authoring_version: self.authoring_version,
            spec_version: self.spec_version,
            impl_version: self.impl_version,
            apis: apis_view(self.apis@),
            transaction_version: self.transaction_version,
            system_version: self.system_version,
        }
    }
}

impl RuntimeVersion {
    /// Version of the state trie.
    pub fn state_version(&self) -> (version: u8)
        ensures
            version == self@.state_version(),
    {
        if self.system_version == 0 {
            0
        } else {
            1
        }
    }

    /// Version of the trie that the extrinsics root is formed with.
    pub fn extrinsic_state_version(&self) -> (version: u8)
        ensures
            version == self@.extrinsic_state_version(),
    {
        if self.system_version <= 1 {
            0
        } else {
            1
        }
    }
}

/// What `sp-version` decodes `bytes` to when it reads a `RuntimeVersion`
/// from their beginning, or `None` where it reports an error.
pub uninterp spec fn decoded_runtime_version(bytes: Seq<u8>) -> Option<RuntimeVersionView>;

/// Trusted: calls `Decode::decode` of `sp-version`'s `RuntimeVersion` and
/// copies the fields of what it returns, one for one. The contract only
/// names the outcome, [`decoded_runtime_version`]. Bytes left over are
/// ignored, as `decode` ignores them.
#[verifier::external_body]
pub(crate) fn scale_decode_runtime_version(bytes: &[u8]) -> (decoded: Option<RuntimeVersion>)
    ensures
        match decoded {
            Some(version) => decoded_runtime_version(bytes@) == Some(version@),
            None => decoded_runtime_version(bytes@) is None,
        },
{
    let mut input = bytes;
    let version = <sp_version::RuntimeVersion as parity_scale_codec::Decode>::decode(&mut input).ok()?;
    Some(RuntimeVersion {
        spec_name: version.spec_name.into_owned(),
        impl_name: version.impl_name.into_owned(),
        authoring_version: version.authoring_version,
        spec_version: version.spec_version,
        impl_version: version.impl_version,
        apis: version.apis.into_owned(),
        transaction_version: version.transaction_version,
        system_version: version.system_version,
    })
}

/// The answer of an oracle, as a mathematical value.
pub open spec fn answer_view(answer: Option<Vec<u8>>) -> Option<Seq<u8>> {
    match answer {
        Some(blob) => Some(blob@),
        None => None,
    }
}

/// Reads the encoded version metadata out of executable code.
pub trait VersionOracle {
    /// True when the oracle may give `answer` for `code`. Unless an oracle
    /// says more of itself, it may give any answer: what is proved of a
    /// function that asks an oracle then holds whatever the oracle says.
    open spec fn may_answer(&self, code: Seq<u8>, answer: Option<Seq<u8>>) -> bool {
        true
    }

    /// Asks the oracle about `code`: the encoded version, or `None` where
    /// the oracle cannot read one.
    fn read_runtime_version(&self, code: &[u8]) -> (answer: Option<Vec<u8>>)
        ensures
            self.may_answer(code@, answer_view(answer)),
    ;
}

/// An oracle that gives the same encoded version for every code.
#[derive(Clone, Debug, PartialEq, Eq)]
pub struct ReadRuntimeVersion(pub Vec<u8>);

impl VersionOracle for ReadRuntimeVersion {
    open spec fn may_answer(&self, code: Seq<u8>, answer: Option<Seq<u8>>) -> bool {
        answer == Some(self.0@)
    }

    fn read_runtime_version(&self, code: &[u8]) -> (answer: Option<Vec<u8>>) {
        let bytes = self.0.clone();
        assert(bytes@ =~= self.0@);
        Some(bytes)
    }
}

} // verus!
