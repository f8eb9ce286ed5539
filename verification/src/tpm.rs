//! TPM "loaded key name" decoding: a 2-byte big-endian algorithm id followed
//! by the digest of the named key. Only SHA-256 (id 0x000b) is supported, and
//! its digest must be exactly 32 bytes.

use vstd::prelude::*;
use vstd::slice::{slice_subrange, slice_to_vec};

verus! {

/// TPM algorithm id for SHA-256 (TPM_ALG_SHA256).
pub const TPM_ALG_SHA256: u16 = 0x000b;

/// Length in bytes of a SHA-256 digest.
pub const SHA256_DIGEST_LEN: usize = 32;

/// Hash algorithm naming a key inside the attester's TPM.
#[derive(Debug, Clone, Copy, PartialEq, Eq, Structural)]
pub enum Algorithm {
    Sha256,
}

/// A decoded TPM loaded key name: the algorithm tag plus the digest that
/// identifies the key.
pub struct LoadedKeyName {
    algorithm: Algorithm,
    hash: Vec<u8>,
}

impl LoadedKeyName {
    /// The algorithm tag, at the spec level.
    pub closed spec fn spec_algorithm(&self) -> Algorithm {
        self.algorithm
    }

    /// The digest bytes, at the spec level.
    pub closed spec fn spec_hash(&self) -> Seq<u8> {
        self.hash@
    }

    /// The big-endian algorithm id stored in the first two bytes.
    pub open spec fn spec_algorithm_id(data: Seq<u8>) -> int
        recommends
            data.len() >= 2,
    {
        data[0] * 256 + data[1]
    }

    /// Exactly the byte strings that decode successfully: a SHA-256 id
    /// followed by a 32-byte digest.
    pub open spec fn valid_encoding(data: Seq<u8>) -> bool {
        &&& data.len() == 2 + SHA256_DIGEST_LEN
        &&& Self::spec_algorithm_id(data) == TPM_ALG_SHA256
    }

    /// Decodes a loaded key name, rejecting inputs shorter than the 2-byte
    /// algorithm id, unknown algorithm ids, and digests that are not exactly
    /// 32 bytes long.
    pub fn decode(data: &[u8]) -> (r: Option<LoadedKeyName>)
        ensures
            r is Some <==> Self::valid_encoding(data@),
            r matches Some(lkn) ==> {
                &&& lkn.spec_algorithm() == Algorithm::Sha256
                &&& lkn.spec_hash() == data@.subrange(2, data@.len() as int)
            },
    {
        if data.len() < 2 {
            return None;
        }
        let id: u16 = (data[0] as u16) * 256 + (data[1] as u16);
        if id != TPM_ALG_SHA256 {
            return None;
        }
        if data.len() != 2 + SHA256_DIGEST_LEN {
            return None;
        }
        let hash: Vec<u8> = slice_to_vec(slice_subrange(data, 2, data.len()));
        Some(LoadedKeyName { algorithm: Algorithm::Sha256, hash })
    }

    /// The algorithm tag of this key name.
    pub fn algorithm(&self) -> (r: Algorithm)
        ensures
            r == self.spec_algorithm(),
    {
        self.algorithm
    }

    /// The digest identifying the key.
    pub fn hash(&self) -> (r: &[u8])
        ensures
            r@ == self.spec_hash(),
    {
        self.hash.as_slice()
    }
}

} // verus!
