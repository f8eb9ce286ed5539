use fobnail::client::FobnailClient;
use fobnail::coap::{Endpoint, ResponseCode, TransportError};
use fobnail::crypto::{CertKey, Ed25519Key, EkCertificate, Key, RsaKey};
use fobnail::state::{AttestationState, PollAction};

fn ek_cert() -> EkCertificate {
    EkCertificate { key: CertKey::Rsa { n: vec![0xc1, 0x42, 0x87], e: 65537 } }
}

fn rsa_key() -> Key {
    Key::Rsa(RsaKey { n: vec![0xc1, 0x42, 0x87], e: 65537 })
}

#[test]
fn idle_with_no_deadline_enters_init() {
    let mut c = FobnailClient::new();
    let action = c.poll(0);
    assert!(matches!(action, PollAction::NoAction));
    assert!(matches!(
        c.state(),
        AttestationState::Init { request_pending: false }
    ));
}

#[test]
fn init_issues_one_attest_request() {
    let mut c = FobnailClient::new();
    c.poll(0);
    let action = c.poll(1);
    assert!(matches!(
        action,
        PollAction::SendRequest(Endpoint::Attest)
    ));
    assert!(matches!(
        c.state(),
        AttestationState::Init { request_pending: true }
    ));
    // A further poll before any response issues no additional request.
    let action = c.poll(2);
    assert!(matches!(action, PollAction::NoAction));
    assert!(matches!(
        c.state(),
        AttestationState::Init { request_pending: true }
    ));
}

#[test]
fn idle_deadline_not_elapsed_waits() {
    let mut c = FobnailClient::from_state(AttestationState::Idle { timeout: Some(100) });
    c.poll(50);
    assert!(matches!(
        c.state(),
        AttestationState::Idle { timeout: Some(100) }
    ));
    c.poll(101);
    assert!(matches!(
        c.state(),
        AttestationState::Init { request_pending: false }
    ));
}

#[test]
fn server_error_in_init_backs_off_5s() {
    let mut c = FobnailClient::from_state(AttestationState::Init { request_pending: true });
    let r = c.handle_server_response(ResponseCode::NotFound, vec![], 1000);
    assert!(r.is_ok());
    assert!(matches!(
        c.state(),
        AttestationState::Idle { timeout: Some(6000) }
    ));
}

#[test]
fn server_error_in_request_ek_cert_backs_off_5s() {
    let mut c = FobnailClient::from_state(AttestationState::RequestEkCert {
        request_pending: true,
    });
    let r = c.handle_server_response(ResponseCode::InternalServerError, vec![1, 2], 1000);
    assert!(r.is_ok());
    assert!(matches!(
        c.state(),
        AttestationState::Idle { timeout: Some(6000) }
    ));
}

#[test]
fn server_error_in_request_aik_backs_off_5s() {
    let mut c = FobnailClient::from_state(AttestationState::RequestAik {
        request_pending: true,
        ek_cert: ek_cert(),
    });
    let r = c.handle_server_response(ResponseCode::Forbidden, vec![], 250);
    assert!(r.is_ok());
    assert!(matches!(
        c.state(),
        AttestationState::Idle { timeout: Some(5250) }
    ));
}

#[test]
fn server_error_in_request_metadata_backs_off_5s() {
    let mut c = FobnailClient::from_state(AttestationState::RequestMetadata {
        request_pending: true,
        aik_pubkey: rsa_key(),
    });
    let r = c.handle_server_response(ResponseCode::Unknown, vec![], 0);
    assert!(r.is_ok());
    assert!(matches!(
        c.state(),
        AttestationState::Idle { timeout: Some(5000) }
    ));
}

#[test]
fn transport_error_backs_off_1s() {
    let mut c = FobnailClient::from_state(AttestationState::Init { request_pending: true });
    let r = c.handle_coap_error(TransportError::Timeout, 1000);
    assert!(r.is_ok());
    assert!(matches!(
        c.state(),
        AttestationState::Idle { timeout: Some(2000) }
    ));

    let mut c = FobnailClient::from_state(AttestationState::RequestEkCert {
        request_pending: true,
    });
    let r = c.handle_coap_error(TransportError::MalformedPacket, 30);
    assert!(r.is_ok());
    assert!(matches!(
        c.state(),
        AttestationState::Idle { timeout: Some(1030) }
    ));

    let mut c = FobnailClient::from_state(AttestationState::RequestAik {
        request_pending: true,
        ek_cert: ek_cert(),
    });
    let r = c.handle_coap_error(TransportError::Timeout, 0);
    assert!(r.is_ok());
    assert!(matches!(
        c.state(),
        AttestationState::Idle { timeout: Some(1000) }
    ));

    let mut c = FobnailClient::from_state(AttestationState::RequestMetadata {
        request_pending: true,
        aik_pubkey: rsa_key(),
    });
    let r = c.handle_coap_error(TransportError::Timeout, 7);
    assert!(r.is_ok());
    assert!(matches!(
        c.state(),
        AttestationState::Idle { timeout: Some(1007) }
    ));
}

#[test]
fn response_in_idle_is_a_sequencing_violation() {
    let mut c = FobnailClient::new();
    let r = c.handle_server_response(ResponseCode::Content, vec![], 0);
    assert!(r.is_err());
    assert!(matches!(
        c.state(),
        AttestationState::Idle { timeout: None }
    ));
}

#[test]
fn transport_error_in_store_state_is_a_sequencing_violation() {
    let mut c = FobnailClient::from_state(AttestationState::VerifyEkCertificate {
        data: vec![1],
    });
    let r = c.handle_coap_error(TransportError::Timeout, 0);
    assert!(r.is_err());
    assert!(matches!(
        c.state(),
        AttestationState::VerifyEkCertificate { .. }
    ));
}

#[test]
fn content_response_advances_init() {
    let mut c = FobnailClient::from_state(AttestationState::Init { request_pending: true });
    let r = c.handle_server_response(ResponseCode::Content, vec![9, 8, 7], 0);
    assert!(r.is_ok());
    match c.state() {
        AttestationState::InitDataReceived { data } => assert_eq!(data, &vec![9, 8, 7]),
        _ => panic!("expected InitDataReceived"),
    }
    // and the next poll moves on to requesting the EK certificate
    c.poll(1);
    assert!(matches!(
        c.state(),
        AttestationState::RequestEkCert { request_pending: false }
    ));
}

#[test]
fn any_success_code_advances() {
    // every 2.xx code is a non-error; a Valid response to the init request
    // carries the payload forward just as Content does
    let mut c = FobnailClient::from_state(AttestationState::Init { request_pending: true });
    let r = c.handle_server_response(ResponseCode::Valid, vec![4, 2], 100);
    assert!(r.is_ok());
    match c.state() {
        AttestationState::InitDataReceived { data } => assert_eq!(data, &vec![4, 2]),
        _ => panic!("expected InitDataReceived"),
    }

    let mut c = FobnailClient::from_state(AttestationState::RequestEkCert {
        request_pending: true,
    });
    let r = c.handle_server_response(ResponseCode::Created, vec![7], 100);
    assert!(r.is_ok());
    assert!(matches!(
        c.state(),
        AttestationState::VerifyEkCertificate { .. }
    ));
}

#[test]
fn ek_certificate_flow() {
    let mut c = FobnailClient::from_state(AttestationState::RequestEkCert {
        request_pending: true,
    });
    let r = c.handle_server_response(ResponseCode::Content, vec![0x30, 0x00], 0);
    assert!(r.is_ok());
    assert!(matches!(
        c.state(),
        AttestationState::VerifyEkCertificate { .. }
    ));
    // poll hands the raw certificate to the certificate manager
    let action = c.poll(1);
    match action {
        PollAction::VerifyEkCert(data) => assert_eq!(data, vec![0x30, 0x00]),
        _ => panic!("expected VerifyEkCert action"),
    }
    // a positive verdict moves on to requesting the AIK
    let r = c.ek_cert_result(Some(ek_cert()), 2);
    assert!(r.is_ok());
    assert!(matches!(
        c.state(),
        AttestationState::RequestAik { request_pending: false, .. }
    ));
    let action = c.poll(3);
    assert!(matches!(action, PollAction::SendRequest(Endpoint::Aik)));
}

#[test]
fn ek_certificate_rejection_backs_off() {
    let mut c = FobnailClient::from_state(AttestationState::VerifyEkCertificate {
        data: vec![1, 2, 3],
    });
    let r = c.ek_cert_result(None, 40);
    assert!(r.is_ok());
    assert!(matches!(
        c.state(),
        AttestationState::Idle { timeout: Some(5040) }
    ));
}

#[test]
fn ek_verdict_without_verification_is_a_violation() {
    let mut c = FobnailClient::new();
    let r = c.ek_cert_result(Some(ek_cert()), 0);
    assert!(r.is_err());
}

#[test]
fn aik_stage_with_bad_descriptor_backs_off() {
    // an undecodable AIK payload: preparation fails on the checks, the
    // machine retries after 5 s and asks for nothing
    let mut c = FobnailClient::from_state(AttestationState::VerifyAikStage1 {
        data: vec![0xff, 0xff],
        ek_cert: ek_cert(),
    });
    let action = c.poll(10);
    assert!(matches!(action, PollAction::NoAction));
    assert!(matches!(
        c.state(),
        AttestationState::Idle { timeout: Some(5010) }
    ));
}

#[test]
fn ed25519_key_with_oversized_signature_backs_off() {
    // envelope whose signature is longer than the secure element accepts
    let em = [0x61u8];  // placeholder metadata bytes
    let sig = [0u8; 129];
    let env = encode_envelope(&em, &sig);
    let mut c = FobnailClient::from_state(AttestationState::VerifyMetadata {
        metadata: env,
        aik_pubkey: Key::Ed25519(Ed25519Key { key_id: 7 }),
    });
    let action = c.poll(0);
    assert!(matches!(action, PollAction::NoAction));
    assert!(matches!(
        c.state(),
        AttestationState::Idle { timeout: Some(5000) }
    ));
}

fn cbor_hdr(major: u8, v: u64) -> Vec<u8> {
    let mut out = Vec::new();
    if v < 24 {
        out.push(major << 5 | v as u8);
    } else if v < 0x100 {
        out.push(major << 5 | 24);
        out.push(v as u8);
    } else if v < 0x10000 {
        out.push(major << 5 | 25);
        out.extend_from_slice(&(v as u16).to_be_bytes());
    } else {
        out.push(major << 5 | 26);
        out.extend_from_slice(&(v as u32).to_be_bytes());
    }
    out
}

fn encode_envelope(em: &[u8], sig: &[u8]) -> Vec<u8> {
    let mut out = cbor_hdr(5, 2);
    out.extend_from_slice(&cbor_hdr(3, 16));
    out.extend_from_slice(b"encoded_metadata");
    out.extend_from_slice(&cbor_hdr(2, em.len() as u64));
    out.extend_from_slice(em);
    out.extend_from_slice(&cbor_hdr(3, 9));
    out.extend_from_slice(b"signature");
    out.extend_from_slice(&cbor_hdr(2, sig.len() as u64));
    out.extend_from_slice(sig);
    out
}
