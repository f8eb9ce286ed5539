use fobnail::client::FobnailClient;
use fobnail::crypto::{generate_rsa_key, Ed25519Key, Key, RsaKey};
use fobnail::proto::{decode_aik, decode_envelope, decode_metadata, HashType, HashValue, Metadata};
use fobnail::state::{AttestationState, PollAction};
use fobnail::verify::{do_verify_metadata, verify_metadata_signature_rsa, MetadataError};

use rsa::Pkcs1v15Sign;
use sha2::{Digest, Sha256};

fn cbor_hdr(major: u8, v: u64) -> Vec<u8> {
    let mut out = Vec::new();
    if v < 24 {
        out.push(major << 5 | v as u8);
    } else if v < 0x100 {
        out.push(major << 5 | 24);
        out.push(v as u8);
    } else if v < 0x10000 {
        out.push(major << 5 | 25);
        out.extend_from_slice(&(v as u16).to_be_bytes());
    } else {
        out.push(major << 5 | 26);
        out.extend_from_slice(&(v as u32).to_be_bytes());
    }
    out
}

fn cbor_text(s: &str) -> Vec<u8> {
    let mut out = cbor_hdr(3, s.len() as u64);
    out.extend_from_slice(s.as_bytes());
    out
}

fn cbor_bytes(b: &[u8]) -> Vec<u8> {
    let mut out = cbor_hdr(2, b.len() as u64);
    out.extend_from_slice(b);
    out
}

fn encode_metadata(version: u64, mac: &str, sn: &str, id: u64, hash: &[u8]) -> Vec<u8> {
    let mut out = cbor_hdr(5, 4);
    out.extend_from_slice(&cbor_text("version"));
    out.extend_from_slice(&cbor_hdr(0, version));
    out.extend_from_slice(&cbor_text("mac"));
    out.extend_from_slice(&cbor_text(mac));
    out.extend_from_slice(&cbor_text("sn"));
    out.extend_from_slice(&cbor_text(sn));
    out.extend_from_slice(&cbor_text("ek_hash"));
    out.extend_from_slice(&cbor_hdr(5, 2));
    out.extend_from_slice(&cbor_text("id"));
    out.extend_from_slice(&cbor_hdr(0, id));
    out.extend_from_slice(&cbor_text("hash"));
    out.extend_from_slice(&cbor_bytes(hash));
    out
}

fn encode_envelope(em: &[u8], sig: &[u8]) -> Vec<u8> {
    let mut out = cbor_hdr(5, 2);
    out.extend_from_slice(&cbor_text("encoded_metadata"));
    out.extend_from_slice(&cbor_bytes(em));
    out.extend_from_slice(&cbor_text("signature"));
    out.extend_from_slice(&cbor_bytes(sig));
    out
}

#[test]
fn decode_metadata_record() {
    let em = encode_metadata(1, "00:11:22:33:44:55", "S534081NQW10", 2, &[0xab; 32]);
    let m = decode_metadata(&em).expect("a valid metadata record");
    assert_eq!(m.version, 1);
    assert_eq!(m.mac, b"00:11:22:33:44:55".to_vec());
    assert_eq!(m.sn, b"S534081NQW10".to_vec());
    assert!(matches!(m.ek_hash.id, HashType::Sha256));
    assert_eq!(m.ek_hash.hash, vec![0xab; 32]);
}

#[test]
fn decode_metadata_rejects_unknown_hash_tag() {
    let em = encode_metadata(1, "m", "s", 4, &[0xab; 32]);
    assert!(decode_metadata(&em).is_none());
}

#[test]
fn decode_metadata_rejects_trailing_bytes() {
    let mut em = encode_metadata(1, "m", "s", 2, &[0xab; 32]);
    em.push(0);
    assert!(decode_metadata(&em).is_none());
}

#[test]
fn decode_metadata_rejects_wrong_key() {
    let em = encode_metadata(1, "m", "s", 2, &[0xab; 32]);
    let mut bad = em.clone();
    // overwrite the first key "version" with "versioX"
    bad[8] = b'X';
    assert!(decode_metadata(&bad).is_none());
}

#[test]
fn decode_envelope_roundtrip() {
    let env = encode_envelope(&[1, 2, 3], &[9; 64]);
    let e = decode_envelope(&env).expect("a valid envelope");
    assert_eq!(e.encoded_metadata, vec![1, 2, 3]);
    assert_eq!(e.signature, vec![9; 64]);
}

#[test]
fn decode_envelope_rejects_noncanonical_length() {
    // byte-string length 3 written in the two-byte form instead of the
    // shortest form
    let mut env = cbor_hdr(5, 2);
    env.extend_from_slice(&cbor_text("encoded_metadata"));
    env.push(2 << 5 | 24);
    env.push(3);
    env.extend_from_slice(&[1, 2, 3]);
    env.extend_from_slice(&cbor_text("signature"));
    env.extend_from_slice(&cbor_bytes(&[9; 4]));
    assert!(decode_envelope(&env).is_none());
}

#[test]
fn decode_aik_descriptor() {
    let mut data = cbor_hdr(5, 1);
    data.extend_from_slice(&cbor_text("loaded_key_name"));
    let mut lkn = vec![0x00, 0x0b];
    lkn.extend_from_slice(&[0x5a; 32]);
    data.extend_from_slice(&cbor_bytes(&lkn));
    let aik = decode_aik(&data).expect("a valid AIK descriptor");
    assert_eq!(aik.loaded_key_name, lkn);
}

#[test]
fn validate_metadata_rejects_wrong_version() {
    let m = Metadata {
        version: 2,
        mac: vec![],
        sn: vec![],
        ek_hash: HashValue { id: HashType::Sha256, hash: vec![0; 32] },
    };
    assert!(!do_verify_metadata(&m));
}

#[test]
fn validate_metadata_rejects_mismatched_digest_length() {
    let m = Metadata {
        version: 1,
        mac: vec![],
        sn: vec![],
        ek_hash: HashValue { id: HashType::Sha256, hash: vec![0; 20] },
    };
    assert!(!do_verify_metadata(&m));
}

#[test]
fn validate_metadata_accepts_each_algorithm_length() {
    for (id, len) in [
        (HashType::Sha1, 20usize),
        (HashType::Sha256, 32),
        (HashType::Sha512, 64),
    ] {
        let m = Metadata {
            version: 1,
            mac: vec![],
            sn: vec![],
            ek_hash: HashValue { id, hash: vec![0; len] },
        };
        assert!(do_verify_metadata(&m));
    }
}

#[test]
fn rsa_signed_metadata_is_accepted_and_stored() {
    let kp = generate_rsa_key(2048).expect("keypair generation");
    let em = encode_metadata(1, "00:11", "SN", 2, &[0xcd; 32]);
    let digest = Sha256::digest(&em);
    let sig = kp
        .private_key()
        .sign(Pkcs1v15Sign::new::<Sha256>(), &digest)
        .expect("signing");
    let env = encode_envelope(&em, &sig);

    let key = RsaKey { n: kp.public().n.clone(), e: kp.public().e };
    let (m, h) = verify_metadata_signature_rsa(&env, &key).expect("verification");
    assert_eq!(m.version, 1);
    assert_eq!(h, digest.to_vec());

    // and through the state machine: verify, then persist the hash
    let mut c = FobnailClient::from_state(AttestationState::VerifyMetadata {
        metadata: env,
        aik_pubkey: Key::Rsa(key),
    });
    let action = c.poll(0);
    assert!(matches!(action, PollAction::NoAction));
    assert!(matches!(c.state(), AttestationState::StoreMetadata { .. }));
    c.poll(1);
    assert!(matches!(
        c.state(),
        AttestationState::Idle { timeout: Some(5001) }
    ));
    assert!(c.store().have_metadata_hash(digest.as_slice()));
    assert_eq!(c.store().len(), 1);
}

#[test]
fn tampered_rsa_signature_is_rejected() {
    let kp = generate_rsa_key(2048).expect("keypair generation");
    let em = encode_metadata(1, "00:11", "SN", 2, &[0xcd; 32]);
    let digest = Sha256::digest(&em);
    let mut sig = kp
        .private_key()
        .sign(Pkcs1v15Sign::new::<Sha256>(), &digest)
        .expect("signing");
    sig[0] ^= 1;
    let env = encode_envelope(&em, &sig);

    let key = RsaKey { n: kp.public().n.clone(), e: kp.public().e };
    assert!(matches!(
        verify_metadata_signature_rsa(&env, &key),
        Err(MetadataError::BadSignature)
    ));

    let mut c = FobnailClient::from_state(AttestationState::VerifyMetadata {
        metadata: env,
        aik_pubkey: Key::Rsa(key),
    });
    c.poll(10);
    assert!(matches!(
        c.state(),
        AttestationState::Idle { timeout: Some(5010) }
    ));
    assert!(!c.store().have_metadata_hash(digest.as_slice()));
}

#[test]
fn rsa_valid_signature_but_invalid_record_backs_off() {
    let kp = generate_rsa_key(2048).expect("keypair generation");
    // wrong version: the signature verifies, the content is rejected
    let em = encode_metadata(9, "00:11", "SN", 2, &[0xcd; 32]);
    let digest = Sha256::digest(&em);
    let sig = kp
        .private_key()
        .sign(Pkcs1v15Sign::new::<Sha256>(), &digest)
        .expect("signing");
    let env = encode_envelope(&em, &sig);
    let key = RsaKey { n: kp.public().n.clone(), e: kp.public().e };
    let mut c = FobnailClient::from_state(AttestationState::VerifyMetadata {
        metadata: env,
        aik_pubkey: Key::Rsa(key),
    });
    c.poll(0);
    assert!(matches!(
        c.state(),
        AttestationState::Idle { timeout: Some(5000) }
    ));
}

#[test]
fn ed25519_flow_uses_secure_element_verdict() {
    let em = encode_metadata(1, "m", "s", 2, &[0xee; 32]);
    let env = encode_envelope(&em, &[0x44; 64]);
    let mut c = FobnailClient::from_state(AttestationState::VerifyMetadata {
        metadata: env.clone(),
        aik_pubkey: Key::Ed25519(Ed25519Key { key_id: 3 }),
    });
    let action = c.poll(0);
    match action {
        PollAction::VerifyEd25519 { key_id, encoded_metadata, signature } => {
            assert_eq!(key_id, 3);
            assert_eq!(encoded_metadata, em);
            assert_eq!(signature, vec![0x44; 64]);
        },
        _ => panic!("expected a VerifyEd25519 action"),
    }
    // the machine waits for the verdict
    assert!(matches!(c.state(), AttestationState::VerifyMetadata { .. }));
    // a positive verdict persists the digest of the encoded metadata
    let r = c.ed25519_verify_result(true, 1);
    assert!(r.is_ok());
    assert!(matches!(c.state(), AttestationState::StoreMetadata { .. }));
    c.poll(2);
    assert!(c.store().have_metadata_hash(Sha256::digest(&em).as_slice()));
}

#[test]
fn ed25519_negative_verdict_backs_off() {
    let em = encode_metadata(1, "m", "s", 2, &[0xee; 32]);
    let env = encode_envelope(&em, &[0x44; 64]);
    let mut c = FobnailClient::from_state(AttestationState::VerifyMetadata {
        metadata: env,
        aik_pubkey: Key::Ed25519(Ed25519Key { key_id: 3 }),
    });
    c.poll(0);
    let r = c.ed25519_verify_result(false, 5);
    assert!(r.is_ok());
    assert!(matches!(
        c.state(),
        AttestationState::Idle { timeout: Some(5005) }
    ));
}

#[test]
fn ed25519_verdict_without_verification_is_a_violation() {
    let mut c = FobnailClient::new();
    assert!(c.ed25519_verify_result(true, 0).is_err());
}
