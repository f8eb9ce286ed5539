use fobnail::crypto::generate_rsa_key;
use fobnail::csr::make_csr;

use rsa::{BigUint, Pkcs1v15Sign, RsaPublicKey};
use sha2::{Digest, Sha256};

/// Reads one DER TLV at `pos`: (tag, content start, content length).
fn der_read(data: &[u8], pos: usize) -> (u8, usize, usize) {
    let tag = data[pos];
    let first = data[pos + 1];
    if first < 0x80 {
        (tag, pos + 2, first as usize)
    } else if first == 0x81 {
        (tag, pos + 3, data[pos + 2] as usize)
    } else {
        assert_eq!(first, 0x82);
        (tag, pos + 4, ((data[pos + 2] as usize) << 8) | data[pos + 3] as usize)
    }
}

/// The full TLV bytes of the element at `pos`.
fn der_element(data: &[u8], pos: usize) -> &[u8] {
    let (_, start, len) = der_read(data, pos);
    &data[pos..start + len]
}

fn write_tlv(tag: u8, content: &[u8]) -> Vec<u8> {
    let mut out = vec![tag];
    let len = content.len();
    if len < 0x80 {
        out.push(len as u8);
    } else if len < 0x100 {
        out.push(0x81);
        out.push(len as u8);
    } else {
        out.push(0x82);
        out.push((len >> 8) as u8);
        out.push((len & 0xff) as u8);
    }
    out.extend_from_slice(content);
    out
}

fn write_uint(value: &[u8]) -> Vec<u8> {
    let mut v = value;
    while !v.is_empty() && v[0] == 0 {
        v = &v[1..];
    }
    let mut content = Vec::new();
    if v.is_empty() {
        content.push(0);
    } else {
        if v[0] >= 0x80 {
            content.push(0);
        }
        content.extend_from_slice(v);
    }
    write_tlv(0x02, &content)
}

#[test]
fn csr_structure_and_signature() {
    let kp = generate_rsa_key(2048).expect("keypair generation");
    let csr = make_csr(&kp, 0xDEAD).expect("CSR");

    assert!(!csr.is_empty());
    assert!(csr.len() <= 256 * 2 + 256 + 128);

    // CertificationRequest ::= SEQUENCE { info, algorithm, signature }
    let (tag, top, top_len) = der_read(&csr, 0);
    assert_eq!(tag, 0x30);
    assert_eq!(top + top_len, csr.len());

    let info = der_element(&csr, top);
    let (info_tag, info_start, _) = der_read(&csr, top);
    assert_eq!(info_tag, 0x30);

    let alg_pos = top + info.len();
    let alg = der_element(&csr, alg_pos);
    assert_eq!(
        alg,
        // SEQUENCE { OID 1.2.840.113549.1.1.11 }
        &[0x30, 0x0b, 0x06, 0x09, 0x2a, 0x86, 0x48, 0x86, 0xf7, 0x0d, 0x01, 0x01, 0x0b][..]
    );

    let sig_pos = alg_pos + alg.len();
    let (sig_tag, sig_start, sig_len) = der_read(&csr, sig_pos);
    assert_eq!(sig_tag, 0x03);
    assert_eq!(csr[sig_start], 0x00);  // no unused bits
    let signature = &csr[sig_start + 1..sig_start + sig_len];
    assert_eq!(sig_pos + (sig_start - sig_pos) + sig_len, csr.len());

    // CertificationRequestInfo ::= SEQUENCE { version, subject, SPKI, [0] attrs }
    let version = der_element(&csr, info_start);
    assert_eq!(version, &[0x02, 0x01, 0x00][..]);

    let subject_pos = info_start + version.len();
    let (subject_tag, subject_start, subject_len) = der_read(&csr, subject_pos);
    assert_eq!(subject_tag, 0x30);

    // exactly two RDN sets, in order: organization, then serial number
    let rdn1 = der_element(&csr, subject_start);
    let (rdn1_tag, rdn1_start, _) = der_read(&csr, subject_start);
    assert_eq!(rdn1_tag, 0x31);
    let atv1 = der_element(&csr, rdn1_start);
    // SEQUENCE { OID 2.5.4.10, UTF8String "Fobnail" }
    assert_eq!(
        atv1,
        &[0x30, 0x0e, 0x06, 0x03, 0x55, 0x04, 0x0a, 0x0c, 0x07, b'F', b'o', b'b', b'n', b'a',
            b'i', b'l'][..]
    );

    let rdn2_pos = subject_start + rdn1.len();
    let (rdn2_tag, rdn2_start, rdn2_len) = der_read(&csr, rdn2_pos);
    assert_eq!(rdn2_tag, 0x31);
    let atv2 = der_element(&csr, rdn2_start);
    // SEQUENCE { OID 2.5.4.5, PrintableString "DEAD" }
    assert_eq!(
        atv2,
        &[0x30, 0x0b, 0x06, 0x03, 0x55, 0x04, 0x05, 0x13, 0x04, b'D', b'E', b'A', b'D'][..]
    );
    assert_eq!(rdn2_pos + (rdn2_start - rdn2_pos) + rdn2_len, subject_start + subject_len);

    // the SubjectPublicKeyInfo equals the independently computed encoding
    let spki_pos = subject_pos + (subject_start - subject_pos) + subject_len;
    let spki = der_element(&csr, spki_pos);
    let rsa_pub = {
        let n = write_uint(&kp.public().n);
        let e = write_uint(&kp.public().e.to_be_bytes());
        let mut content = n;
        content.extend_from_slice(&e);
        write_tlv(0x30, &content)
    };
    let expected_spki = {
        let alg = write_tlv(
            0x30,
            &[0x06, 0x09, 0x2a, 0x86, 0x48, 0x86, 0xf7, 0x0d, 0x01, 0x01, 0x01],
        );
        let mut bits = vec![0u8];
        bits.extend_from_slice(&rsa_pub);
        let bit_string = write_tlv(0x03, &bits);
        let mut content = alg;
        content.extend_from_slice(&bit_string);
        write_tlv(0x30, &content)
    };
    assert_eq!(spki, &expected_spki[..]);

    // empty attribute set, context tag 0
    let attrs_pos = spki_pos + spki.len();
    assert_eq!(&csr[attrs_pos..attrs_pos + 2], &[0xa0, 0x00][..]);
    assert_eq!(attrs_pos + 2, top + info.len());

    // the signature verifies over the encoded info under the public key
    let pub_key = RsaPublicKey::new(
        BigUint::from_bytes_be(&kp.public().n),
        BigUint::from(kp.public().e),
    )
    .expect("public key");
    pub_key
        .verify(Pkcs1v15Sign::new::<Sha256>(), &Sha256::digest(info), signature)
        .expect("signature verifies");
}

#[test]
fn csr_serial_of_zero_device_id() {
    let kp = generate_rsa_key(2048).expect("keypair generation");
    let csr = make_csr(&kp, 0).expect("CSR");
    // the serial-number attribute holds the single character "0"
    let needle: &[u8] = &[0x06, 0x03, 0x55, 0x04, 0x05, 0x13, 0x01, b'0'];
    assert!(csr.windows(needle.len()).any(|w| w == needle));
}
