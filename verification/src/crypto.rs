//! Key material and the cryptographic operations the protocol relies on.
//!
//! RSA public keys are held as plain modulus/exponent values so the logic
//! around them can be verified; the `rsa`, `sha2` and `rand_core` crates do
//! the actual cryptography behind the trusted wrappers below.

use vstd::prelude::*;
use vstd::slice::slice_to_vec;

use rsa::traits::PublicKeyParts;
use sha2::Digest;

verus! {

/// Whether `rsa::RsaPublicKey::new` accepts the given big-endian modulus and
/// exponent. The outcome is a function of the two values alone.
pub uninterp spec fn rsa_key_acceptable(n: Seq<u8>, e: u32) -> bool;

/// Whether `signature` is a valid PKCS#1 v1.5 / SHA-256 signature of the
/// message with digest `digest`, under the RSA public key `(n, e)`.
/// Verification is a function of the key, digest and signature alone.
pub uninterp spec fn rsa_pkcs1v15_sha256_valid(
    n: Seq<u8>,
    e: u32,
    digest: Seq<u8>,
    signature: Seq<u8>,
) -> bool;

/// The SHA-256 digest of a byte string: a function of the input alone.
pub uninterp spec fn sha256_of(data: Seq<u8>) -> Seq<u8>;

#[verifier::external_type_specification]
#[verifier::external_body]
pub struct ExRsaPrivateKey(rsa::RsaPrivateKey);

/// Relies on `sha2::Sha256::digest`: returns the 32-byte SHA-256 digest of
/// the input, a pure function of the input bytes.
#[verifier::external_body]
pub fn sha256(data: &[u8]) -> (r: Vec<u8>)
    ensures
        r@ == sha256_of(data@),
        r@.len() == 32,
{
    sha2::Sha256::digest(data).to_vec()
}

/// Relies on `rsa::RsaPublicKey::new` (with `rsa::BigUint::from_bytes_be`):
/// whether the modulus/exponent pair passes the crate's key checks is a
/// function of the two values alone.
#[verifier::external_body]
fn rsa_public_key_check(n: &[u8], e: u32) -> (r: bool)
    ensures
        r == rsa_key_acceptable(n@, e),
{
    rsa::RsaPublicKey::new(rsa::BigUint::from_bytes_be(n), rsa::BigUint::from(e)).is_ok()
}

/// Relies on `rsa::RsaPublicKey::verify` with `rsa::Pkcs1v15Sign` over
/// SHA-256: deterministic in the key, the digest and the signature. A pair
/// rejected by `RsaPublicKey::new` verifies nothing.
#[verifier::external_body]
pub(crate) fn rsa_verify_pkcs1v15_sha256(n: &[u8], e: u32, digest: &[u8], signature: &[u8]) -> (r:
    bool)
    ensures
        r == rsa_pkcs1v15_sha256_valid(n@, e, digest@, signature@),
{
    match rsa::RsaPublicKey::new(rsa::BigUint::from_bytes_be(n), rsa::BigUint::from(e)) {
        Ok(key) => key.verify(rsa::Pkcs1v15Sign::new::<sha2::Sha256>(), digest, signature).is_ok(),
        Err(_) => false,
    }
}

/// Relies on `rand_core::OsRng::try_fill_bytes`: on success the buffer is
/// filled with `len` bytes; nothing is promised about their values.
#[verifier::external_body]
pub(crate) fn random_bytes(len: usize) -> (r: Option<Vec<u8>>)
    ensures
        r matches Some(b) ==> b@.len() == len,
{
    let mut buf = vec![0u8; len];
    match rand_core::RngCore::try_fill_bytes(&mut rand_core::OsRng, &mut buf) {
        Ok(()) => Some(buf),
        Err(_) => None,
    }
}

/// Relies on `rsa::RsaPublicKey::encrypt` with OAEP over SHA-256 and label
/// "IDENTITY": the ciphertext is randomized, so only its length is stated —
/// one RSA ciphertext, at most as long as the modulus.
#[verifier::external_body]
pub(crate) fn rsa_oaep_encrypt_identity(n: &[u8], e: u32, msg: &[u8]) -> (r: Option<Vec<u8>>)
    ensures
        r matches Some(c) ==> c@.len() <= n@.len(),
{
    let key = match rsa::RsaPublicKey::new(rsa::BigUint::from_bytes_be(n), rsa::BigUint::from(e)) {
        Ok(k) => k,
        Err(_) => return None,
    };
    let padding = rsa::Oaep::new_with_label::<sha2::Sha256, &str>("IDENTITY");
    key.encrypt(&mut rand_core::OsRng, padding, msg).ok()
}

/// An RSA public key held as plain values: big-endian modulus and exponent.
pub struct RsaKey {
    pub n: Vec<u8>,
    pub e: u32,
}

/// Spec-level image of an [`RsaKey`].
pub struct RsaKeyView {
    pub n: Seq<u8>,
    pub e: u32,
}

impl View for RsaKey {
    type V = RsaKeyView;

    open spec fn view(&self) -> RsaKeyView {
        RsaKeyView { n: self.n@, e: self.e }
    }
}

impl RsaKey {
    /// Builds a key from its components, accepting exactly the pairs that the
    /// underlying RSA library accepts.
    pub fn load(n: &[u8], e: u32) -> (r: Result<RsaKey, ()>)
        ensures
            r matches Ok(k) ==> k@.n == n@ && k@.e == e,
            r is Ok <==> rsa_key_acceptable(n@, e),
    {
        if rsa_public_key_check(n, e) {
            Ok(RsaKey { n: slice_to_vec(n), e })
        } else {
            Err(())
        }
    }
}

/// An Ed25519 key resident in the secure element, known only by its handle.
pub struct Ed25519Key {
    pub key_id: u32,
}

/// A metadata-signing key: either an RSA key verified in software or an
/// Ed25519 key verified by the secure element.
pub enum Key {
    Rsa(RsaKey),
    Ed25519(Ed25519Key),
}

/// Spec-level image of a [`Key`].
pub enum KeyView {
    Rsa(RsaKeyView),
    Ed25519(u32),
}

impl View for Key {
    type V = KeyView;

    open spec fn view(&self) -> KeyView {
        match self {
            Key::Rsa(k) => KeyView::Rsa(k@),
            Key::Ed25519(k) => KeyView::Ed25519(k.key_id),
        }
    }
}

/// The public key carried by an endorsement-key certificate. Only RSA keys
/// are supported.
pub enum CertKey {
    Rsa { n: Vec<u8>, e: u32 },
}

/// Spec-level image of a [`CertKey`].
pub enum CertKeyView {
    Rsa { n: Seq<u8>, e: u32 },
}

impl View for CertKey {
    type V = CertKeyView;

    open spec fn view(&self) -> CertKeyView {
        match self {
            CertKey::Rsa { n, e } => CertKeyView::Rsa { n: n@, e: *e },
        }
    }
}

/// An endorsement-key certificate as the protocol logic reads it: the public
/// key extracted by the certificate manager. Parsing and chain verification
/// stay with that collaborator.
pub struct EkCertificate {
    pub key: CertKey,
}

/// Spec-level image of an [`EkCertificate`].
pub struct EkCertificateView {
    pub key: CertKeyView,
}

impl View for EkCertificate {
    type V = EkCertificateView;

    open spec fn view(&self) -> EkCertificateView {
        EkCertificateView { key: self.key@ }
    }
}

/// A freshly generated RSA keypair. The private half stays opaque and the
/// public half is held as plain values; the fields are private and
/// [`generate_rsa_key`] is the only constructor, so the public half is by
/// construction the public key of the private half. Its view is the public
/// half.
pub struct RsaKeyPair {
    private: rsa::RsaPrivateKey,
    public: RsaKey,
}

impl View for RsaKeyPair {
    type V = RsaKeyView;

    closed spec fn view(&self) -> RsaKeyView {
        self.public@
    }
}

impl RsaKeyPair {
    /// The public half.
    pub fn public(&self) -> (r: &RsaKey)
        ensures
            r@ == self@,
    {
        &self.public
    }

    /// The private half, for callers that sign outside this library.
    pub fn private_key(&self) -> &rsa::RsaPrivateKey {
        &self.private
    }
}

/// Relies on `rsa::RsaPrivateKey::new` with `rand_core::OsRng`: generates a
/// fresh keypair whose modulus has exactly the requested bit size (so its
/// big-endian bytes are minimal, with the top bit set for byte-aligned
/// sizes) and whose public exponent is 65537. The verification side of the
/// RSA library caps public keys at 4096 bits, so larger sizes are excluded
/// up front; within the cap a generated key passes the library's public-key
/// checks.
#[verifier::external_body]
pub fn generate_rsa_key(bits: usize) -> (r: Option<RsaKeyPair>)
    requires
        bits <= 4096,
    ensures
        r matches Some(kp) ==> {
            &&& kp@.n.len() == (bits + 7) / 8
            &&& kp@.n.len() > 0 ==> kp@.n[0] != 0
            &&& bits % 8 == 0 && bits > 0 ==> kp@.n[0] >= 0x80
            &&& kp@.e == 65537
            &&& rsa_key_acceptable(kp@.n, kp@.e)
        },
{
    let private = rsa::RsaPrivateKey::new(&mut rand_core::OsRng, bits).ok()?;
    let n = private.n().to_bytes_be();
    let e_bytes = private.e().to_bytes_be();
    if e_bytes.len() > 4 {
        return None;
    }
    let mut e: u32 = 0;
    for b in e_bytes {
        e = (e << 8) | (b as u32);
    }
    Some(RsaKeyPair { private, public: RsaKey { n, e } })
}

/// Relies on `rsa::RsaPrivateKey::sign` with `rsa::Pkcs1v15Sign` over
/// SHA-256, and on the crate's sign/verify correspondence: a signature it
/// produces is one RSA block (as long as the minimal modulus bytes) and
/// verifies under the matching public key. [`RsaKeyPair`] is only built by
/// [`generate_rsa_key`], so its public half matches its private half and is
/// within the 4096-bit cap the verification side accepts. Signing a 32-byte
/// digest fails only when the modulus is too short to carry the padded
/// digest, so from 64 modulus bytes up it succeeds.
#[verifier::external_body]
pub(crate) fn rsa_sign_pkcs1v15_sha256(pair: &RsaKeyPair, digest: &[u8]) -> (r: Option<Vec<u8>>)
    ensures
        r matches Some(s) ==> {
            &&& rsa_pkcs1v15_sha256_valid(pair@.n, pair@.e, digest@, s@)
            &&& s@.len() == pair@.n.len()
        },
        pair@.n.len() >= 64 && digest@.len() == 32 ==> r is Some,
{
    pair.private.sign(rsa::Pkcs1v15Sign::new::<sha2::Sha256>(), digest).ok()
}

} // verus!
