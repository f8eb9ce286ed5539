//! TPM credential activation against an RSA endorsement key: the
//! MakeCredential-style binding of a challenge secret to the AIK named by a
//! TPM loaded key name.

use vstd::prelude::*;

use crate::crypto::{
    random_bytes, rsa_key_acceptable, rsa_oaep_encrypt_identity, CertKeyView, EkCertificate,
    EkCertificateView, RsaKey,
};
use crate::proto::{decode_aik, parse_aik};
use crate::tpm::LoadedKeyName;

verus! {

/// Seed length for an RSA endorsement key's symmetric cipher: 128 bits per
/// the TCG EK Credential Profile.
pub const EK_SYMMETRIC_BLOCK_SIZE: usize = 16;

/// Length of the random challenge secret bound to the AIK.
pub const AIK_CHALLENGE_SECRET_LEN: usize = 32;

/// Why credential-activation preparation failed.
#[derive(Debug, Clone, Copy, PartialEq, Eq, Structural)]
pub enum CredentialError {
    /// The AIK descriptor or its loaded key name failed to decode.
    Decode,
    /// The endorsement public key was rejected by the RSA library.
    InvalidEkKey,
    /// The platform could not supply random bytes.
    Random,
    /// OAEP encryption failed.
    Encrypt,
}

/// The deterministic part of credential-activation preparation: the AIK
/// descriptor must decode, its loaded key name must be a supported encoding,
/// and the endorsement key must be an acceptable RSA key.
pub open spec fn spec_prepare_check(data: Seq<u8>, cert: EkCertificateView) -> Result<
    (),
    CredentialError,
> {
    match parse_aik(data) {
        Some(lkn) => if !LoadedKeyName::valid_encoding(lkn) {
            Err(CredentialError::Decode)
        } else {
            match cert.key {
                CertKeyView::Rsa { n, e } => if !rsa_key_acceptable(n, e) {
                    Err(CredentialError::InvalidEkKey)
                } else {
                    Ok(())
                },
            }
        },
        None => Err(CredentialError::Decode),
    }
}

/// Produces the credential blob binding a secret to the key named inside the
/// attester's TPM: a random seed sized to the endorsement key's symmetric
/// block size is encrypted under the EK with OAEP and the label "IDENTITY",
/// so the blob is one RSA ciphertext, at most as long as the modulus. The
/// symmetric wrap of `secret` under that seed belongs to the
/// challenge-sending stage, which is not yet specified; until then the
/// encrypted seed is the whole blob and `secret` is carried unused.
#[allow(unused_variables)]
pub fn make_credential_rsa(ek_key: &RsaKey, block_size: usize, secret: &[u8]) -> (r: Result<
    Vec<u8>,
    CredentialError,
>)
    ensures
        r matches Ok(blob) ==> blob@.len() <= ek_key@.n.len(),
        r matches Err(e) ==> e == CredentialError::Random || e == CredentialError::Encrypt,
{
    let seed = match random_bytes(block_size) {
        Some(s) => s,
        None => {
            return Err(CredentialError::Random);
        },
    };
    match rsa_oaep_encrypt_identity(ek_key.n.as_slice(), ek_key.e, seed.as_slice()) {
        Some(blob) => Ok(blob),
        None => Err(CredentialError::Encrypt),
    }
}

/// Runs credential-activation preparation on a raw AIK descriptor: decodes
/// it, checks the loaded key name, loads the endorsement RSA key and builds
/// the credential blob with a fresh 32-byte secret. Fails exactly as
/// [`spec_prepare_check`] says, except that random generation or encryption
/// may still fail afterwards.
pub fn prepare_aik_challenge(data: &[u8], ek_cert: &EkCertificate) -> (r: Result<
    Vec<u8>,
    CredentialError,
>)
    ensures
        spec_prepare_check(data@, ek_cert@) matches Err(e) ==> r == Err::<Vec<u8>, _>(e),
        r is Ok ==> spec_prepare_check(data@, ek_cert@) is Ok,
        r matches Ok(blob) ==> (ek_cert@.key matches CertKeyView::Rsa { n, .. } && blob@.len()
            <= n.len()),
        spec_prepare_check(data@, ek_cert@) is Ok && r is Err ==> r == Err::<Vec<u8>, _>(
            CredentialError::Random,
        ) || r == Err::<Vec<u8>, _>(CredentialError::Encrypt),
{
    let aik = match decode_aik(data) {
        Some(k) => k,
        None => {
            return Err(CredentialError::Decode);
        },
    };
    let lkn = match LoadedKeyName::decode(aik.loaded_key_name.as_slice()) {
        Some(l) => l,
        None => {
            return Err(CredentialError::Decode);
        },
    };
    match &ek_cert.key {
        crate::crypto::CertKey::Rsa { n, e } => {
            let ek_key = match RsaKey::load(n.as_slice(), *e) {
                Ok(k) => k,
                Err(()) => {
                    return Err(CredentialError::InvalidEkKey);
                },
            };
            let secret = match random_bytes(AIK_CHALLENGE_SECRET_LEN) {
                Some(s) => s,
                None => {
                    return Err(CredentialError::Random);
                },
            };
            make_credential_rsa(&ek_key, EK_SYMMETRIC_BLOCK_SIZE, secret.as_slice())
        },
    }
}

} // verus!
