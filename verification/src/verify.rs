//! Metadata signature verification, dispatched on the key kind: RSA
//! signatures are checked in software, Ed25519 signatures by the secure
//! element, whose verdict is handed back in by the driver.

use vstd::prelude::*;

use crate::crypto::{rsa_pkcs1v15_sha256_valid, rsa_verify_pkcs1v15_sha256, sha256, sha256_of,
    RsaKey, RsaKeyView};
use crate::proto::{decode_envelope, decode_metadata, enc_envelope, enc_metadata,
    lemma_parse_envelope_enc, lemma_parse_metadata_enc, parse_envelope, parse_metadata,
    spec_metadata_valid, EnvelopeView, Metadata, MetadataView, MetadataWithSignature};

verus! {

/// The largest signature the secure element's verify call accepts; larger
/// input must be rejected before the call is made.
pub const MAX_SIGNATURE_LENGTH: usize = 128;

/// Why metadata verification failed.
#[derive(Debug, Clone, Copy, PartialEq, Eq, Structural)]
pub enum MetadataError {
    /// The envelope or the metadata record failed to decode.
    Decode,
    /// The signature exceeds what the secure element can be asked to verify.
    OversizedSignature,
    /// The signature does not verify under the expected key.
    BadSignature,
}

/// The outcome of the RSA verification path on a raw envelope: decode the
/// envelope, check the PKCS#1 v1.5 / SHA-256 signature over the encoded
/// metadata, then decode the record; on success the record and the SHA-256
/// digest of its encoding are returned.
pub open spec fn spec_verify_metadata_rsa(data: Seq<u8>, key: RsaKeyView) -> Result<
    (MetadataView, Seq<u8>),
    MetadataError,
> {
    match parse_envelope(data) {
        Some(env) => if rsa_pkcs1v15_sha256_valid(
            key.n,
            key.e,
            sha256_of(env.encoded_metadata),
            env.signature,
        ) {
            match parse_metadata(env.encoded_metadata) {
                Some(m) => Ok((m, sha256_of(env.encoded_metadata))),
                None => Err(MetadataError::Decode),
            }
        } else {
            Err(MetadataError::BadSignature)
        },
        None => Err(MetadataError::Decode),
    }
}

/// The deterministic precheck of the Ed25519 path: the envelope must decode
/// and its signature must be small enough for the secure element.
pub open spec fn spec_ed25519_precheck(data: Seq<u8>) -> Result<EnvelopeView, MetadataError> {
    match parse_envelope(data) {
        Some(env) => if env.signature.len() > MAX_SIGNATURE_LENGTH {
            Err(MetadataError::OversizedSignature)
        } else {
            Ok(env)
        },
        None => Err(MetadataError::Decode),
    }
}

/// What the Ed25519 path returns once the secure element has delivered its
/// verdict on an envelope.
pub open spec fn spec_finish_ed25519(env: EnvelopeView, valid: bool) -> Result<
    (MetadataView, Seq<u8>),
    MetadataError,
> {
    if !valid {
        Err(MetadataError::BadSignature)
    } else {
        match parse_metadata(env.encoded_metadata) {
            Some(m) => Ok((m, sha256_of(env.encoded_metadata))),
            None => Err(MetadataError::Decode),
        }
    }
}

/// On the canonical encoding of a record and a signature, the RSA path
/// returns the record and the digest of its encoding exactly when the
/// signature verifies, and a signature failure otherwise.
#[verifier::rlimit(100)]
pub proof fn lemma_verify_rsa_of_enc(m: MetadataView, sig: Seq<u8>, k: RsaKeyView)
    requires
        m.mac.len() < 0x100000000,
        m.sn.len() < 0x100000000,
        m.ek_hash.hash.len() < 0x100000000,
        enc_metadata(m).len() < 0x100000000,
        sig.len() < 0x100000000,
    ensures
        spec_verify_metadata_rsa(enc_envelope(enc_metadata(m), sig), k) == (if
            rsa_pkcs1v15_sha256_valid(k.n, k.e, sha256_of(enc_metadata(m)), sig) {
            Ok::<(MetadataView, Seq<u8>), MetadataError>((m, sha256_of(enc_metadata(m))))
        } else {
            Err::<(MetadataView, Seq<u8>), MetadataError>(MetadataError::BadSignature)
        }),
{
    lemma_parse_envelope_enc(enc_metadata(m), sig);
    lemma_parse_metadata_enc(m);
}

/// Verifies a signed metadata envelope under an RSA key, exactly as
/// [`spec_verify_metadata_rsa`] describes.
pub fn verify_metadata_signature_rsa(data: &[u8], key: &RsaKey) -> (r: Result<
    (Metadata, Vec<u8>),
    MetadataError,
>)
    ensures
        match r {
            Ok(p) => spec_verify_metadata_rsa(data@, key@) matches Ok(q) && q.0 == p.0@ && q.1
                == p.1@,
            Err(e) => spec_verify_metadata_rsa(data@, key@) == Err::<
                (MetadataView, Seq<u8>),
                MetadataError,
            >(e),
        },
{
    let env = match decode_envelope(data) {
        Some(env) => env,
        None => {
            return Err(MetadataError::Decode);
        },
    };
    let digest = sha256(env.encoded_metadata.as_slice());
    if !rsa_verify_pkcs1v15_sha256(
        key.n.as_slice(),
        key.e,
        digest.as_slice(),
        env.signature.as_slice(),
    ) {
        return Err(MetadataError::BadSignature);
    }
    match decode_metadata(env.encoded_metadata.as_slice()) {
        Some(m) => Ok((m, digest)),
        None => Err(MetadataError::Decode),
    }
}

/// Runs the Ed25519 precheck, exactly as [`spec_ed25519_precheck`]
/// describes, handing back the envelope for the secure element.
pub fn ed25519_precheck(data: &[u8]) -> (r: Result<MetadataWithSignature, MetadataError>)
    ensures
        match r {
            Ok(env) => spec_ed25519_precheck(data@) == Ok::<EnvelopeView, MetadataError>(env@),
            Err(e) => spec_ed25519_precheck(data@) == Err::<EnvelopeView, MetadataError>(e),
        },
{
    let env = match decode_envelope(data) {
        Some(env) => env,
        None => {
            return Err(MetadataError::Decode);
        },
    };
    if env.signature.len() > MAX_SIGNATURE_LENGTH {
        return Err(MetadataError::OversizedSignature);
    }
    Ok(env)
}

/// Completes the Ed25519 path from the secure element's verdict, exactly as
/// [`spec_finish_ed25519`] describes.
pub fn finish_ed25519_verification(env: &MetadataWithSignature, valid: bool) -> (r: Result<
    (Metadata, Vec<u8>),
    MetadataError,
>)
    ensures
        match r {
            Ok(p) => spec_finish_ed25519(env@, valid) matches Ok(q) && q.0 == p.0@ && q.1 == p.1@,
            Err(e) => spec_finish_ed25519(env@, valid) == Err::<
                (MetadataView, Seq<u8>),
                MetadataError,
            >(e),
        },
{
    if !valid {
        return Err(MetadataError::BadSignature);
    }
    let digest = sha256(env.encoded_metadata.as_slice());
    match decode_metadata(env.encoded_metadata.as_slice()) {
        Some(m) => Ok((m, digest)),
        None => Err(MetadataError::Decode),
    }
}

/// Validates the content of a verified metadata record, exactly as
/// [`spec_metadata_valid`] describes: the version must be the supported one
/// and the endorsement-key digest must have the length its algorithm
/// implies.
pub fn do_verify_metadata(metadata: &Metadata) -> (r: bool)
    ensures
        r == spec_metadata_valid(metadata@),
{
    if metadata.version != crate::proto::CURRENT_VERSION {
        return false;
    }
    let expected: usize = match metadata.ek_hash.id {
        crate::proto::HashType::Sha1 => 20,
        crate::proto::HashType::Sha256 => 32,
        crate::proto::HashType::Sha512 => 64,
    };
    metadata.ek_hash.hash.len() == expected
}

} // verus!
