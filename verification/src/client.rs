//! The attestation client: single owner of the protocol state and the dedup
//! store. The driver calls [`FobnailClient::poll`] once per tick, performs
//! the outside work the returned action names, and feeds responses and
//! verdicts back through the event methods. Every transition is proved to
//! follow the spec-level transition functions of [`crate::state`].

use vstd::prelude::*;

use crate::coap::{ResponseCode, TransportError};
use crate::credential::prepare_aik_challenge;
use crate::crypto::{EkCertificate, Key};
use crate::proto::Metadata;
use crate::state::{
    spec_ed25519_result, spec_ek_cert_result, spec_handle_response, spec_handle_transport_error,
    spec_idle_retry, spec_poll_action, spec_poll_state, spec_poll_store, AttestationState,
    PollAction, StateView, RETRY_DELAY_SERVER_MS, RETRY_DELAY_TRANSPORT_MS,
};
use crate::store::MetadataStore;
use crate::verify::{
    do_verify_metadata, ed25519_precheck, finish_ed25519_verification,
    verify_metadata_signature_rsa,
};

verus! {

/// A response or verdict arrived while the machine had no request or
/// verification outstanding: a contract breach in the driver, not a
/// recoverable protocol condition.
#[derive(Debug, Clone, Copy, PartialEq, Eq, Structural)]
pub struct SequencingViolation;

/// Spec-level image of a [`FobnailClient`]: the protocol state and the
/// stored hashes.
pub struct ClientView {
    pub state: StateView,
    pub store: Seq<Seq<u8>>,
}

/// The attestation client.
pub struct FobnailClient {
    state: AttestationState,
    store: MetadataStore,
}

impl View for FobnailClient {
    type V = ClientView;

    closed spec fn view(&self) -> ClientView {
        ClientView { state: self.state@, store: self.store@ }
    }
}

/// Idle with a retry deadline `delay` milliseconds from `now`.
fn idle_retry(now: u64, delay: u64) -> (r: AttestationState)
    requires
        now + delay <= u64::MAX,
    ensures
        r@ == spec_idle_retry(now, delay),
{
    AttestationState::Idle { timeout: Some(now + delay) }
}

impl FobnailClient {
    /// A fresh client: idle with no deadline, nothing stored.
    pub fn new() -> (r: FobnailClient)
        ensures
            r@.state == (StateView::Idle { timeout: None }),
            r@.store == Seq::<Seq<u8>>::empty(),
    {
        FobnailClient { state: AttestationState::Idle { timeout: None }, store: MetadataStore::new() }
    }

    /// A client starting in a given protocol state, with nothing stored.
    pub fn from_state(state: AttestationState) -> (r: FobnailClient)
        ensures
            r@.state == state@,
            r@.store == Seq::<Seq<u8>>::empty(),
    {
        FobnailClient { state, store: MetadataStore::new() }
    }

    /// The active protocol state.
    pub fn state(&self) -> (r: &AttestationState)
        ensures
            r@ == self@.state,
    {
        &self.state
    }

    /// The dedup store.
    pub fn store(&self) -> (r: &MetadataStore)
        ensures
            r@ == self@.store,
    {
        &self.store
    }

    /// Advances the machine by one non-blocking step, as
    /// [`spec_poll_state`], [`spec_poll_store`] and [`spec_poll_action`]
    /// describe. In the AIK verification state the action additionally
    /// depends on random generation and encryption: preparation that fails
    /// on the deterministic checks asks for nothing, otherwise either the
    /// credential blob is handed out or a late failure asks for nothing.
    #[verifier::rlimit(100)]
    pub fn poll(&mut self, now: u64) -> (action: PollAction)
        requires
            now + RETRY_DELAY_SERVER_MS <= u64::MAX,
        ensures
            final(self)@.state == spec_poll_state(old(self)@.state, now),
            final(self)@.store == spec_poll_store(old(self)@.state, old(self)@.store),
            !(old(self)@.state is VerifyAikStage1) ==> action@ == spec_poll_action(
                old(self)@.state,
                now,
            ),
            old(self)@.state is VerifyAikStage1 ==> (action is AikChallengeReady
                || action is NoAction),
            (old(self)@.state matches StateView::VerifyAikStage1 { data, ek_cert }
                && crate::credential::spec_prepare_check(data, ek_cert) is Err)
                ==> action is NoAction,
    {
        let mut s = AttestationState::Idle { timeout: None };
        core::mem::swap(&mut s, &mut self.state);
        match s {
            AttestationState::Idle { timeout } => {
                match timeout {
                    Some(t) => {
                        if now > t {
                            self.state = AttestationState::Init { request_pending: false };
                        } else {
                            self.state = AttestationState::Idle { timeout: Some(t) };
                        }
                    },
                    None => {
                        self.state = AttestationState::Init { request_pending: false };
                    },
                }
                PollAction::NoAction
            },
            AttestationState::Init { request_pending } => {
                self.state = AttestationState::Init { request_pending: true };
                if !request_pending {
                    PollAction::SendRequest(crate::coap::Endpoint::Attest)
                } else {
                    PollAction::NoAction
                }
            },
            AttestationState::InitDataReceived { data: _ } => {
                // The handshake payload is display-only; decoding it is the
                // driver's concern and its failure is non-fatal.
                self.state = AttestationState::RequestEkCert { request_pending: false };
                PollAction::NoAction
            },
            AttestationState::RequestEkCert { request_pending } => {
                self.state = AttestationState::RequestEkCert { request_pending: true };
                if !request_pending {
                    PollAction::SendRequest(crate::coap::Endpoint::Ek)
                } else {
                    PollAction::NoAction
                }
            },
            AttestationState::VerifyEkCertificate { data } => {
                let action = PollAction::VerifyEkCert(vstd::slice::slice_to_vec(data.as_slice()));
                self.state = AttestationState::VerifyEkCertificate { data };
                action
            },
            AttestationState::RequestAik { request_pending, ek_cert } => {
                self.state = AttestationState::RequestAik { request_pending: true, ek_cert };
                if !request_pending {
                    PollAction::SendRequest(crate::coap::Endpoint::Aik)
                } else {
                    PollAction::NoAction
                }
            },
            AttestationState::VerifyAikStage1 { data, ek_cert } => {
                let prepared = prepare_aik_challenge(data.as_slice(), &ek_cert);
                self.state = idle_retry(now, RETRY_DELAY_SERVER_MS);
                match prepared {
                    Ok(blob) => PollAction::AikChallengeReady(blob),
                    Err(_) => PollAction::NoAction,
                }
            },
            AttestationState::RequestMetadata { request_pending, aik_pubkey } => {
                self.state = AttestationState::RequestMetadata {
                    request_pending: true,
                    aik_pubkey,
                };
                if !request_pending {
                    PollAction::SendRequest(crate::coap::Endpoint::Metadata)
                } else {
                    PollAction::NoAction
                }
            },
            AttestationState::VerifyMetadata { metadata, aik_pubkey } => match aik_pubkey {
                Key::Rsa(rk) => {
                    match verify_metadata_signature_rsa(metadata.as_slice(), &rk) {
                        Ok((m, h)) => {
                            if do_verify_metadata(&m) {
                                self.state = AttestationState::StoreMetadata {
                                    metadata: m,
                                    hash: h,
                                };
                            } else {
                                self.state = idle_retry(now, RETRY_DELAY_SERVER_MS);
                            }
                        },
                        Err(_) => {
                            self.state = idle_retry(now, RETRY_DELAY_SERVER_MS);
                        },
                    }
                    PollAction::NoAction
                },
                Key::Ed25519(k) => {
                    match ed25519_precheck(metadata.as_slice()) {
                        Ok(env) => {
                            let action = PollAction::VerifyEd25519 {
                                key_id: k.key_id,
                                encoded_metadata: env.encoded_metadata,
                                signature: env.signature,
                            };
                            self.state = AttestationState::VerifyMetadata {
                                metadata,
                                aik_pubkey: Key::Ed25519(k),
                            };
                            action
                        },
                        Err(_) => {
                            self.state = idle_retry(now, RETRY_DELAY_SERVER_MS);
                            PollAction::NoAction
                        },
                    }
                },
            },
            AttestationState::StoreMetadata { metadata: _, hash } => {
                self.store.store_metadata_hash(hash.as_slice());
                self.state = idle_retry(now, RETRY_DELAY_SERVER_MS);
                PollAction::NoAction
            },
        }
    }

    /// Routes a transport result: a response goes to the response handler,
    /// a transport failure to the error handler.
    pub fn handle_response(
        &mut self,
        result: Result<(ResponseCode, Vec<u8>), TransportError>,
        now: u64,
    ) -> (r: Result<(), SequencingViolation>)
        requires
            now + RETRY_DELAY_SERVER_MS <= u64::MAX,
        ensures
            final(self)@.store == old(self)@.store,
            match result {
                Ok(resp) => match spec_handle_response(old(self)@.state, resp.0, resp.1@, now) {
                    Some(s2) => r is Ok && final(self)@.state == s2,
                    None => r is Err && final(self)@.state == old(self)@.state,
                },
                Err(_) => match spec_handle_transport_error(old(self)@.state, now) {
                    Some(s2) => r is Ok && final(self)@.state == s2,
                    None => r is Err && final(self)@.state == old(self)@.state,
                },
            },
    {
        match result {
            Ok((code, payload)) => self.handle_server_response(code, payload, now),
            Err(e) => self.handle_coap_error(e, now),
        }
    }

    /// Applies a transport-level failure, as [`spec_handle_transport_error`]
    /// describes: a one-second retry in a request state, a sequencing
    /// violation anywhere else.
    pub fn handle_coap_error(&mut self, _error: TransportError, now: u64) -> (r: Result<
        (),
        SequencingViolation,
    >)
        requires
            now + RETRY_DELAY_TRANSPORT_MS <= u64::MAX,
        ensures
            final(self)@.store == old(self)@.store,
            match spec_handle_transport_error(old(self)@.state, now) {
                Some(s2) => r is Ok && final(self)@.state == s2,
                None => r is Err && final(self)@.state == old(self)@.state,
            },
    {
        match &self.state {
            AttestationState::Init { .. }
            | AttestationState::RequestEkCert { .. }
            | AttestationState::RequestAik { .. }
            | AttestationState::RequestMetadata { .. } => {
                self.state = idle_retry(now, RETRY_DELAY_TRANSPORT_MS);
                Ok(())
            },
            _ => Err(SequencingViolation),
        }
    }

    /// Applies a server response, as [`spec_handle_response`] describes:
    /// any success (2.xx) response advances the protocol carrying the
    /// payload, any other code retries after five seconds, and a response in
    /// a non-request state is a sequencing violation.
    pub fn handle_server_response(&mut self, code: ResponseCode, payload: Vec<u8>, now: u64) -> (r:
        Result<(), SequencingViolation>)
        requires
            now + RETRY_DELAY_SERVER_MS <= u64::MAX,
        ensures
            final(self)@.store == old(self)@.store,
            match spec_handle_response(old(self)@.state, code, payload@, now) {
                Some(s2) => r is Ok && final(self)@.state == s2,
                None => r is Err && final(self)@.state == old(self)@.state,
            },
    {
        let advance = code.is_success();
        let mut s = AttestationState::Idle { timeout: None };
        core::mem::swap(&mut s, &mut self.state);
        match s {
            AttestationState::Init { request_pending: _ } => {
                if advance {
                    self.state = AttestationState::InitDataReceived { data: payload };
                } else {
                    self.state = idle_retry(now, RETRY_DELAY_SERVER_MS);
                }
                Ok(())
            },
            AttestationState::RequestEkCert { request_pending: _ } => {
                if advance {
                    self.state = AttestationState::VerifyEkCertificate { data: payload };
                } else {
                    self.state = idle_retry(now, RETRY_DELAY_SERVER_MS);
                }
                Ok(())
            },
            AttestationState::RequestAik { request_pending: _, ek_cert } => {
                if advance {
                    self.state = AttestationState::VerifyAikStage1 { data: payload, ek_cert };
                } else {
                    self.state = idle_retry(now, RETRY_DELAY_SERVER_MS);
                }
                Ok(())
            },
            AttestationState::RequestMetadata { request_pending: _, aik_pubkey } => {
                if advance {
                    self.state = AttestationState::VerifyMetadata {
                        metadata: payload,
                        aik_pubkey,
                    };
                } else {
                    self.state = idle_retry(now, RETRY_DELAY_SERVER_MS);
                }
                Ok(())
            },
            other => {
                self.state = other;
                Err(SequencingViolation)
            },
        }
    }

    /// Applies the certificate manager's verdict on the endorsement-key
    /// certificate, as [`spec_ek_cert_result`] describes.
    pub fn ek_cert_result(&mut self, result: Option<EkCertificate>, now: u64) -> (r: Result<
        (),
        SequencingViolation,
    >)
        requires
            now + RETRY_DELAY_SERVER_MS <= u64::MAX,
        ensures
            final(self)@.store == old(self)@.store,
            match spec_ek_cert_result(
                old(self)@.state,
                match result {
                    Some(c) => Some(c@),
                    None => None,
                },
                now,
            ) {
                Some(s2) => r is Ok && final(self)@.state == s2,
                None => r is Err && final(self)@.state == old(self)@.state,
            },
    {
        let mut s = AttestationState::Idle { timeout: None };
        core::mem::swap(&mut s, &mut self.state);
        match s {
            AttestationState::VerifyEkCertificate { data: _ } => {
                match result {
                    Some(cert) => {
                        self.state = AttestationState::RequestAik {
                            request_pending: false,
                            ek_cert: cert,
                        };
                    },
                    None => {
                        self.state = idle_retry(now, RETRY_DELAY_SERVER_MS);
                    },
                }
                Ok(())
            },
            other => {
                self.state = other;
                Err(SequencingViolation)
            },
        }
    }

    /// Applies the secure element's verdict on an Ed25519 metadata
    /// signature, as [`spec_ed25519_result`] describes.
    #[verifier::rlimit(100)]
    pub fn ed25519_verify_result(&mut self, valid: bool, now: u64) -> (r: Result<
        (),
        SequencingViolation,
    >)
        requires
            now + RETRY_DELAY_SERVER_MS <= u64::MAX,
        ensures
            final(self)@.store == old(self)@.store,
            match spec_ed25519_result(old(self)@.state, valid, now) {
                Some(s2) => r is Ok && final(self)@.state == s2,
                None => r is Err && final(self)@.state == old(self)@.state,
            },
    {
        let mut s = AttestationState::Idle { timeout: None };
        core::mem::swap(&mut s, &mut self.state);
        match s {
            AttestationState::VerifyMetadata { metadata, aik_pubkey: Key::Ed25519(_) } => {
                match crate::proto::decode_envelope(metadata.as_slice()) {
                    Some(env) => {
                        match finish_ed25519_verification(&env, valid) {
                            Ok((m, h)) => {
                                if do_verify_metadata(&m) {
                                    self.state = AttestationState::StoreMetadata {
                                        metadata: m,
                                        hash: h,
                                    };
                                } else {
                                    self.state = idle_retry(now, RETRY_DELAY_SERVER_MS);
                                }
                            },
                            Err(_) => {
                                self.state = idle_retry(now, RETRY_DELAY_SERVER_MS);
                            },
                        }
                    },
                    None => {
                        self.state = idle_retry(now, RETRY_DELAY_SERVER_MS);
                    },
                }
                Ok(())
            },
            other => {
                self.state = other;
                Err(SequencingViolation)
            },
        }
    }
}

} // verus!


