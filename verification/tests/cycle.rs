use fobnail::client::FobnailClient;
use fobnail::coap::{Endpoint, ResponseCode};
use fobnail::crypto::{generate_rsa_key, CertKey, EkCertificate};
use fobnail::state::{AttestationState, PollAction};

fn cbor_text(s: &str) -> Vec<u8> {
    let mut out = vec![3 << 5 | s.len() as u8];
    out.extend_from_slice(s.as_bytes());
    out
}

fn encode_aik(lkn: &[u8]) -> Vec<u8> {
    let mut out = vec![5 << 5 | 1];
    out.extend_from_slice(&cbor_text("loaded_key_name"));
    out.push(2 << 5 | 24);
    out.push(lkn.len() as u8);
    out.extend_from_slice(lkn);
    out
}

#[test]
fn one_attestation_cycle_until_the_challenge_stage() {
    let kp = generate_rsa_key(2048).expect("keypair generation");
    let mut c = FobnailClient::new();

    // idle -> init
    assert!(matches!(c.poll(0), PollAction::NoAction));
    // init issues /attest
    assert!(matches!(
        c.poll(1),
        PollAction::SendRequest(Endpoint::Attest)
    ));
    c.handle_server_response(ResponseCode::Content, b"hello".to_vec(), 2)
        .expect("response in a request state");
    // handshake data received; move on and issue /ek
    assert!(matches!(c.poll(3), PollAction::NoAction));
    assert!(matches!(c.poll(4), PollAction::SendRequest(Endpoint::Ek)));
    c.handle_server_response(ResponseCode::Content, vec![0x30, 0x82], 5)
        .expect("response in a request state");
    // the raw certificate goes to the certificate manager
    let action = c.poll(6);
    match action {
        PollAction::VerifyEkCert(der) => assert_eq!(der, vec![0x30, 0x82]),
        _ => panic!("expected VerifyEkCert"),
    }
    c.ek_cert_result(
        Some(EkCertificate {
            key: CertKey::Rsa { n: kp.public().n.clone(), e: kp.public().e },
        }),
        7,
    )
    .expect("verdict while verifying");
    // with a trusted EK, issue /aik
    assert!(matches!(c.poll(8), PollAction::SendRequest(Endpoint::Aik)));
    let mut lkn = vec![0x00, 0x0b];
    lkn.extend_from_slice(&[0x42; 32]);
    c.handle_server_response(ResponseCode::Content, encode_aik(&lkn), 9)
        .expect("response in a request state");
    // credential activation is prepared; the challenge stage is not yet
    // specified, so the cycle closes with a retry deadline
    let action = c.poll(10);
    match action {
        PollAction::AikChallengeReady(blob) => assert_eq!(blob.len(), 256),
        _ => panic!("expected the prepared credential blob"),
    }
    assert!(matches!(
        c.state(),
        AttestationState::Idle { timeout: Some(5010) }
    ));
    // after the deadline the machine starts over
    assert!(matches!(c.poll(6000), PollAction::NoAction));
    assert!(matches!(
        c.state(),
        AttestationState::Init { request_pending: false }
    ));
}
