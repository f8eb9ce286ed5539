//! The attestation protocol state machine: its states, the actions a poll
//! can ask the driver to perform, and the spec-level transition functions
//! that the client's methods are proved to implement.
//!
//! One attestation cycle is in flight at a time. Each `poll` advances the
//! machine using only data already at hand or asks the driver for one piece
//! of outside work (send a request, verify a certificate, verify an Ed25519
//! signature); responses and verdicts come back through the client's event
//! methods, whose transitions are specified here as well.

use vstd::prelude::*;

use crate::coap::{Endpoint, ResponseCode};
use crate::crypto::{
    rsa_pkcs1v15_sha256_valid, sha256_of, EkCertificate, EkCertificateView, Key, KeyView,
    RsaKeyView,
};
use crate::proto::{
    enc_envelope, enc_metadata, parse_envelope, spec_metadata_valid, Metadata, MetadataView,
};
use crate::store::spec_store;
use crate::verify::{spec_ed25519_precheck, spec_finish_ed25519, spec_verify_metadata_rsa};

verus! {

/// Retry delay after a server error or a failed verification round.
pub const RETRY_DELAY_SERVER_MS: u64 = 5000;

/// Retry delay after a transport-level failure.
pub const RETRY_DELAY_TRANSPORT_MS: u64 = 1000;

/// The protocol states. Exactly one is active; the `request_pending` fields
/// keep a state from issuing its request twice.
#[allow(inconsistent_fields)]
pub enum AttestationState {
    Idle { timeout: Option<u64> },
    Init { request_pending: bool },
    InitDataReceived { data: Vec<u8> },
    RequestEkCert { request_pending: bool },
    VerifyEkCertificate { data: Vec<u8> },
    RequestAik { request_pending: bool, ek_cert: EkCertificate },
    VerifyAikStage1 { data: Vec<u8>, ek_cert: EkCertificate },
    RequestMetadata { request_pending: bool, aik_pubkey: Key },
    VerifyMetadata { metadata: Vec<u8>, aik_pubkey: Key },
    StoreMetadata { metadata: Metadata, hash: Vec<u8> },
}

/// Spec-level image of an [`AttestationState`].
#[allow(inconsistent_fields)]
pub enum StateView {
    Idle { timeout: Option<u64> },
    Init { request_pending: bool },
    InitDataReceived { data: Seq<u8> },
    RequestEkCert { request_pending: bool },
    VerifyEkCertificate { data: Seq<u8> },
    RequestAik { request_pending: bool, ek_cert: EkCertificateView },
    VerifyAikStage1 { data: Seq<u8>, ek_cert: EkCertificateView },
    RequestMetadata { request_pending: bool, aik_pubkey: KeyView },
    VerifyMetadata { metadata: Seq<u8>, aik_pubkey: KeyView },
    StoreMetadata { metadata: MetadataView, hash: Seq<u8> },
}

impl View for AttestationState {
    type V = StateView;

    open spec fn view(&self) -> StateView {
        match self {
            AttestationState::Idle { timeout } => StateView::Idle { timeout: *timeout },
            AttestationState::Init { request_pending } => StateView::Init {
                request_pending: *request_pending,
            },
            AttestationState::InitDataReceived { data } => StateView::InitDataReceived {
                data: data@,
            },
            AttestationState::RequestEkCert { request_pending } => StateView::RequestEkCert {
                request_pending: *request_pending,
            },
            AttestationState::VerifyEkCertificate { data } => StateView::VerifyEkCertificate {
                data: data@,
            },
            AttestationState::RequestAik { request_pending, ek_cert } => StateView::RequestAik {
                request_pending: *request_pending,
                ek_cert: ek_cert@,
            },
            AttestationState::VerifyAikStage1 { data, ek_cert } => StateView::VerifyAikStage1 {
                data: data@,
                ek_cert: ek_cert@,
            },
            AttestationState::RequestMetadata { request_pending, aik_pubkey } => StateView::RequestMetadata {
                request_pending: *request_pending,
                aik_pubkey: aik_pubkey@,
            },
            AttestationState::VerifyMetadata { metadata, aik_pubkey } => StateView::VerifyMetadata {
                metadata: metadata@,
                aik_pubkey: aik_pubkey@,
            },
            AttestationState::StoreMetadata { metadata, hash } => StateView::StoreMetadata {
                metadata: metadata@,
                hash: hash@,
            },
        }
    }
}

/// The outside work a poll asks the driver to perform.
pub enum PollAction {
    /// Nothing to do this tick.
    NoAction,
    /// Send a GET request to the endpoint.
    SendRequest(Endpoint),
    /// Hand the raw certificate to the certificate manager; its verdict
    /// comes back through the client's certificate-result event.
    VerifyEkCert(Vec<u8>),
    /// Ask the secure element to verify an Ed25519 signature by key handle;
    /// its verdict comes back through the client's Ed25519-result event.
    VerifyEd25519 { key_id: u32, encoded_metadata: Vec<u8>, signature: Vec<u8> },
    /// Credential-activation preparation succeeded; the blob is ready, and
    /// the challenge-sending stage that would consume it is not yet
    /// specified.
    AikChallengeReady(Vec<u8>),
}

/// Spec-level image of a [`PollAction`].
pub enum ActionView {
    NoAction,
    SendRequest(Endpoint),
    VerifyEkCert(Seq<u8>),
    VerifyEd25519 { key_id: u32, encoded_metadata: Seq<u8>, signature: Seq<u8> },
    AikChallengeReady(Seq<u8>),
}

impl View for PollAction {
    type V = ActionView;

    open spec fn view(&self) -> ActionView {
        match self {
            PollAction::NoAction => ActionView::NoAction,
            PollAction::SendRequest(e) => ActionView::SendRequest(*e),
            PollAction::VerifyEkCert(d) => ActionView::VerifyEkCert(d@),
            PollAction::VerifyEd25519 { key_id, encoded_metadata, signature } => ActionView::VerifyEd25519 {
                key_id: *key_id,
                encoded_metadata: encoded_metadata@,
                signature: signature@,
            },
            PollAction::AikChallengeReady(b) => ActionView::AikChallengeReady(b@),
        }
    }
}

/// The states in which a request has been (or is being) issued, and a
/// response is therefore legitimate.
pub open spec fn issues_requests(s: StateView) -> bool {
    ||| s is Init
    ||| s is RequestEkCert
    ||| s is RequestAik
    ||| s is RequestMetadata
}

/// Idle with a retry deadline `delay` milliseconds from `now`.
pub open spec fn spec_idle_retry(now: u64, delay: u64) -> StateView {
    StateView::Idle { timeout: Some((now + delay) as u64) }
}

/// The state after one poll at time `now`.
pub open spec fn spec_poll_state(s: StateView, now: u64) -> StateView {
    match s {
        StateView::Idle { timeout } => match timeout {
            Option::None => StateView::Init { request_pending: false },
            Option::Some(t) => if now > t {
                StateView::Init { request_pending: false }
            } else {
                s
            },
        },
        StateView::Init { .. } => StateView::Init { request_pending: true },
        StateView::InitDataReceived { .. } => StateView::RequestEkCert { request_pending: false },
        StateView::RequestEkCert { .. } => StateView::RequestEkCert { request_pending: true },
        StateView::VerifyEkCertificate { .. } => s,
        StateView::RequestAik { ek_cert, .. } => StateView::RequestAik {
            request_pending: true,
            ek_cert,
        },
        StateView::VerifyAikStage1 { .. } => spec_idle_retry(now, RETRY_DELAY_SERVER_MS),
        StateView::RequestMetadata { aik_pubkey, .. } => StateView::RequestMetadata {
            request_pending: true,
            aik_pubkey,
        },
        StateView::VerifyMetadata { metadata, aik_pubkey } => match aik_pubkey {
            KeyView::Rsa(rk) => match spec_verify_metadata_rsa(metadata, rk) {
                Ok(p) => if spec_metadata_valid(p.0) {
                    StateView::StoreMetadata { metadata: p.0, hash: p.1 }
                } else {
                    spec_idle_retry(now, RETRY_DELAY_SERVER_MS)
                },
                Err(_) => spec_idle_retry(now, RETRY_DELAY_SERVER_MS),
            },
            KeyView::Ed25519(_) => match spec_ed25519_precheck(metadata) {
                Ok(_) => s,
                Err(_) => spec_idle_retry(now, RETRY_DELAY_SERVER_MS),
            },
        },
        StateView::StoreMetadata { .. } => spec_idle_retry(now, RETRY_DELAY_SERVER_MS),
    }
}

/// The store contents after one poll: only the store state persists a hash.
pub open spec fn spec_poll_store(s: StateView, store: Seq<Seq<u8>>) -> Seq<Seq<u8>> {
    match s {
        StateView::StoreMetadata { hash, .. } => spec_store(store, hash),
        _ => store,
    }
}

/// The action one poll asks for, in every state whose action is a function
/// of the state alone (all but `VerifyAikStage1`, whose preparation may also
/// fail on random generation or encryption).
pub open spec fn spec_poll_action(s: StateView, now: u64) -> ActionView {
    match s {
        StateView::Idle { .. } => ActionView::NoAction,
        StateView::Init { request_pending } => if !request_pending {
            ActionView::SendRequest(Endpoint::Attest)
        } else {
            ActionView::NoAction
        },
        StateView::InitDataReceived { .. } => ActionView::NoAction,
        StateView::RequestEkCert { request_pending } => if !request_pending {
            ActionView::SendRequest(Endpoint::Ek)
        } else {
            ActionView::NoAction
        },
        StateView::VerifyEkCertificate { data } => ActionView::VerifyEkCert(data),
        StateView::RequestAik { request_pending, .. } => if !request_pending {
            ActionView::SendRequest(Endpoint::Aik)
        } else {
            ActionView::NoAction
        },
        StateView::VerifyAikStage1 { .. } => ActionView::NoAction,
        StateView::RequestMetadata { request_pending, .. } => if !request_pending {
            ActionView::SendRequest(Endpoint::Metadata)
        } else {
            ActionView::NoAction
        },
        StateView::VerifyMetadata { metadata, aik_pubkey } => match aik_pubkey {
            KeyView::Rsa(_) => ActionView::NoAction,
            KeyView::Ed25519(key_id) => match spec_ed25519_precheck(metadata) {
                Ok(env) => ActionView::VerifyEd25519 {
                    key_id,
                    encoded_metadata: env.encoded_metadata,
                    signature: env.signature,
                },
                Err(_) => ActionView::NoAction,
            },
        },
        StateView::StoreMetadata { .. } => ActionView::NoAction,
    }
}

/// The state after a transport-level failure, or nothing when the state had
/// no request outstanding (a sequencing violation).
pub open spec fn spec_handle_transport_error(s: StateView, now: u64) -> Option<StateView> {
    if issues_requests(s) {
        Some(spec_idle_retry(now, RETRY_DELAY_TRANSPORT_MS))
    } else {
        None
    }
}

/// The state after a server response, or nothing when the state had no
/// request outstanding (a sequencing violation). Any success (2.xx) code
/// advances the protocol carrying the payload; every other code is a server
/// error and retries after five seconds.
pub open spec fn spec_handle_response(
    s: StateView,
    code: ResponseCode,
    payload: Seq<u8>,
    now: u64,
) -> Option<StateView> {
    match s {
        StateView::Init { .. } => Some(
            if code.spec_is_success() {
                StateView::InitDataReceived { data: payload }
            } else {
                spec_idle_retry(now, RETRY_DELAY_SERVER_MS)
            },
        ),
        StateView::RequestEkCert { .. } => Some(
            if code.spec_is_success() {
                StateView::VerifyEkCertificate { data: payload }
            } else {
                spec_idle_retry(now, RETRY_DELAY_SERVER_MS)
            },
        ),
        StateView::RequestAik { ek_cert, .. } => Some(
            if code.spec_is_success() {
                StateView::VerifyAikStage1 { data: payload, ek_cert }
            } else {
                spec_idle_retry(now, RETRY_DELAY_SERVER_MS)
            },
        ),
        StateView::RequestMetadata { aik_pubkey, .. } => Some(
            if code.spec_is_success() {
                StateView::VerifyMetadata { metadata: payload, aik_pubkey }
            } else {
                spec_idle_retry(now, RETRY_DELAY_SERVER_MS)
            },
        ),
        _ => None,
    }
}

/// The state after the certificate manager's verdict on an endorsement-key
/// certificate, or nothing when no verification was in progress.
pub open spec fn spec_ek_cert_result(
    s: StateView,
    result: Option<EkCertificateView>,
    now: u64,
) -> Option<StateView> {
    match s {
        StateView::VerifyEkCertificate { .. } => Some(
            match result {
                Option::Some(cert) => StateView::RequestAik {
                    request_pending: false,
                    ek_cert: cert,
                },
                Option::None => spec_idle_retry(now, RETRY_DELAY_SERVER_MS),
            },
        ),
        _ => None,
    }
}

/// The state after the secure element's verdict on an Ed25519 metadata
/// signature, or nothing when no such verification was in progress.
pub open spec fn spec_ed25519_result(s: StateView, valid: bool, now: u64) -> Option<StateView> {
    match s {
        StateView::VerifyMetadata { metadata, aik_pubkey: KeyView::Ed25519(_) } => Some(
            match parse_envelope(metadata) {
                Option::Some(env) => match spec_finish_ed25519(env, valid) {
                    Ok(p) => if spec_metadata_valid(p.0) {
                        StateView::StoreMetadata { metadata: p.0, hash: p.1 }
                    } else {
                        spec_idle_retry(now, RETRY_DELAY_SERVER_MS)
                    },
                    Err(_) => spec_idle_retry(now, RETRY_DELAY_SERVER_MS),
                },
                Option::None => spec_idle_retry(now, RETRY_DELAY_SERVER_MS),
            },
        ),
        _ => None,
    }
}

/// From idle with no deadline, one poll enters `Init` without a pending
/// request; the next poll issues the `/attest` request and marks it
/// pending; a further poll before any response issues nothing new.
pub proof fn lemma_poll_idle_to_attest(now1: u64, now2: u64, now3: u64)
    ensures
        spec_poll_state(StateView::Idle { timeout: None }, now1) == (StateView::Init {
            request_pending: false,
        }),
        spec_poll_state(StateView::Init { request_pending: false }, now2) == (StateView::Init {
            request_pending: true,
        }),
        spec_poll_action(StateView::Init { request_pending: false }, now2)
            == ActionView::SendRequest(Endpoint::Attest),
        spec_poll_state(StateView::Init { request_pending: true }, now3) == (StateView::Init {
            request_pending: true,
        }),
        spec_poll_action(StateView::Init { request_pending: true }, now3) == ActionView::NoAction,
{
}

/// Any server error received in a request-issuing state sends the machine
/// to idle with a deadline 5000 ms from now.
pub proof fn lemma_server_error_backoff(s: StateView, code: ResponseCode, payload: Seq<u8>, now: u64)
    requires
        issues_requests(s),
        !code.spec_is_success(),
        now + 5000 <= u64::MAX,
    ensures
        spec_handle_response(s, code, payload, now) == Some(
            StateView::Idle { timeout: Some((now + 5000) as u64) },
        ),
{
}

/// Any transport error in a request-issuing state sends the machine to idle
/// with a deadline 1000 ms from now.
pub proof fn lemma_transport_error_backoff(s: StateView, now: u64)
    requires
        issues_requests(s),
        now + 1000 <= u64::MAX,
    ensures
        spec_handle_transport_error(s, now) == Some(
            StateView::Idle { timeout: Some((now + 1000) as u64) },
        ),
{
}

/// End to end: a metadata envelope that is the canonical encoding of a
/// record, under a signature that verifies for the record's encoding and
/// with acceptable content, is accepted by one poll, which moves to
/// persisting the record together with its digest. With an invalid
/// signature or unacceptable content the same poll retries after 5000 ms.
#[verifier::rlimit(100)]
pub proof fn lemma_poll_decides_metadata(m: MetadataView, sig: Seq<u8>, k: RsaKeyView, now: u64)
    requires
        m.mac.len() < 0x100000000,
        m.sn.len() < 0x100000000,
        m.ek_hash.hash.len() < 0x100000000,
        enc_metadata(m).len() < 0x100000000,
        sig.len() < 0x100000000,
    ensures
        rsa_pkcs1v15_sha256_valid(k.n, k.e, sha256_of(enc_metadata(m)), sig)
            && spec_metadata_valid(m) ==> spec_poll_state(
            StateView::VerifyMetadata {
                metadata: enc_envelope(enc_metadata(m), sig),
                aik_pubkey: KeyView::Rsa(k),
            },
            now,
        ) == (StateView::StoreMetadata { metadata: m, hash: sha256_of(enc_metadata(m)) }),
        !(rsa_pkcs1v15_sha256_valid(k.n, k.e, sha256_of(enc_metadata(m)), sig)
            && spec_metadata_valid(m)) ==> spec_poll_state(
            StateView::VerifyMetadata {
                metadata: enc_envelope(enc_metadata(m), sig),
                aik_pubkey: KeyView::Rsa(k),
            },
            now,
        ) == spec_idle_retry(now, RETRY_DELAY_SERVER_MS),
{
    crate::verify::lemma_verify_rsa_of_enc(m, sig, k);
    let b = enc_envelope(enc_metadata(m), sig);
    let s = StateView::VerifyMetadata { metadata: b, aik_pubkey: KeyView::Rsa(k) };
    let digest = sha256_of(enc_metadata(m));
    if rsa_pkcs1v15_sha256_valid(k.n, k.e, digest, sig) {
        assert(spec_verify_metadata_rsa(b, k) == Ok::<
            (MetadataView, Seq<u8>),
            crate::verify::MetadataError,
        >((m, digest)));
        if spec_metadata_valid(m) {
            assert(spec_poll_state(s, now) == (StateView::StoreMetadata {
                metadata: m,
                hash: digest,
            }));
        } else {
            assert(spec_poll_state(s, now) == spec_idle_retry(now, RETRY_DELAY_SERVER_MS));
        }
    } else {
        assert(spec_verify_metadata_rsa(b, k) == Err::<(MetadataView, Seq<u8>), _>(
            crate::verify::MetadataError::BadSignature,
        ));
        assert(spec_poll_state(s, now) == spec_idle_retry(now, RETRY_DELAY_SERVER_MS));
    }
}

/// A response or a transport error arriving in a state that issues no
/// requests is a protocol-sequencing violation, never a transition.
pub proof fn lemma_response_requires_request(
    s: StateView,
    code: ResponseCode,
    payload: Seq<u8>,
    now: u64,
)
    requires
        !issues_requests(s),
    ensures
        spec_handle_response(s, code, payload, now) is None,
        spec_handle_transport_error(s, now) is None,
{
}

} // verus!
