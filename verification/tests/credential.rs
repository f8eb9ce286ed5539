use fobnail::client::FobnailClient;
use fobnail::crypto::{generate_rsa_key, CertKey, EkCertificate, RsaKey};
use fobnail::state::{AttestationState, PollAction};

use rsa::Oaep;
use sha2::Sha256;

fn cbor_text(s: &str) -> Vec<u8> {
    let mut out = vec![3 << 5 | s.len() as u8];
    out.extend_from_slice(s.as_bytes());
    out
}

fn encode_aik(lkn: &[u8]) -> Vec<u8> {
    let mut out = vec![5 << 5 | 1];
    out.extend_from_slice(&cbor_text("loaded_key_name"));
    if lkn.len() < 24 {
        out.push(2 << 5 | lkn.len() as u8);
    } else {
        out.push(2 << 5 | 24);
        out.push(lkn.len() as u8);
    }
    out.extend_from_slice(lkn);
    out
}

#[test]
fn generated_keypair_has_the_requested_size() {
    let kp = generate_rsa_key(2048).expect("keypair generation");
    assert_eq!(kp.public().n.len(), 256);
    // exactly 2048 bits: the top bit of the top byte is set
    assert!(kp.public().n[0] >= 0x80);
    assert_eq!(kp.public().e, 65537);
    // and the library's verification side accepts the generated key
    assert!(RsaKey::load(&kp.public().n, kp.public().e).is_ok());
}

#[test]
fn load_accepts_a_well_formed_key() {
    // an odd modulus larger than the exponent
    let k = RsaKey::load(&[0x01, 0x00, 0x01, 0x0f], 65537).expect("acceptable key");
    assert_eq!(k.n, vec![0x01, 0x00, 0x01, 0x0f]);
    assert_eq!(k.e, 65537);
}

#[test]
fn load_rejects_an_even_modulus() {
    assert!(RsaKey::load(&[0x04], 3).is_err());
}

#[test]
fn load_rejects_an_even_exponent() {
    assert!(RsaKey::load(&[0x01, 0x00, 0x01, 0x0f], 4).is_err());
}

#[test]
fn aik_preparation_produces_a_decryptable_credential_blob() {
    let kp = generate_rsa_key(2048).expect("keypair generation");
    let mut lkn = vec![0x00, 0x0b];
    lkn.extend_from_slice(&[0x77; 32]);
    let data = encode_aik(&lkn);
    let mut c = FobnailClient::from_state(AttestationState::VerifyAikStage1 {
        data,
        ek_cert: EkCertificate {
            key: CertKey::Rsa { n: kp.public().n.clone(), e: kp.public().e },
        },
    });
    let action = c.poll(0);
    let blob = match action {
        PollAction::AikChallengeReady(blob) => blob,
        _ => panic!("expected the prepared credential blob"),
    };
    // the blob is one RSA ciphertext under the 2048-bit endorsement key
    assert_eq!(blob.len(), 256);
    // and it decrypts, under the OAEP label of the credential-activation
    // binding, to the 16-byte seed
    let seed = kp
        .private_key()
        .decrypt(Oaep::new_with_label::<Sha256, &str>("IDENTITY"), &blob)
        .expect("decryption under the IDENTITY label");
    assert_eq!(seed.len(), 16);
    // the machine closes the round either way
    assert!(matches!(
        c.state(),
        AttestationState::Idle { timeout: Some(5000) }
    ));
}

#[test]
fn aik_preparation_rejects_a_bad_endorsement_key() {
    let mut lkn = vec![0x00, 0x0b];
    lkn.extend_from_slice(&[0x77; 32]);
    let data = encode_aik(&lkn);
    // an even exponent is rejected by the RSA library, so preparation fails
    // on the deterministic checks and asks for nothing
    let mut c = FobnailClient::from_state(AttestationState::VerifyAikStage1 {
        data,
        ek_cert: EkCertificate { key: CertKey::Rsa { n: vec![0x0f, 0x01], e: 4 } },
    });
    let action = c.poll(0);
    assert!(matches!(action, PollAction::NoAction));
    assert!(matches!(
        c.state(),
        AttestationState::Idle { timeout: Some(5000) }
    ));
}

#[test]
fn aik_preparation_rejects_a_bad_key_name() {
    let kp = generate_rsa_key(2048).expect("keypair generation");
    // a 20-byte digest is not a valid SHA-256 loaded key name
    let mut lkn = vec![0x00, 0x0b];
    lkn.extend_from_slice(&[0x77; 20]);
    let data = encode_aik(&lkn);
    let mut c = FobnailClient::from_state(AttestationState::VerifyAikStage1 {
        data,
        ek_cert: EkCertificate {
            key: CertKey::Rsa { n: kp.public().n.clone(), e: kp.public().e },
        },
    });
    let action = c.poll(0);
    assert!(matches!(action, PollAction::NoAction));
}
