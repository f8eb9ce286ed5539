//! The one-shot certificate-request builder: DER-encodes a PKCS#10
//! CertificationRequest over a freshly generated RSA public key and a device
//! identifier, and signs it with SHA-256 / PKCS#1 v1.5.
//!
//! The DER structure is defined byte for byte by the spec functions here;
//! only the hash and the signature come from the crypto wrappers.

use vstd::prelude::*;

use crate::crypto::{
    rsa_pkcs1v15_sha256_valid, rsa_sign_pkcs1v15_sha256, sha256, sha256_of, RsaKey, RsaKeyPair,
};

verus! {

/// DER length octets for a content length up to 0xFFFF.
pub open spec fn spec_der_len(n: int) -> Seq<u8>
    recommends
        0 <= n <= 0xFFFF,
{
    if n < 0x80 {
        seq![n as u8]
    } else if n < 0x100 {
        seq![0x81u8, n as u8]
    } else {
        seq![0x82u8, (n / 0x100) as u8, (n % 0x100) as u8]
    }
}

/// A DER TLV: tag, length octets, content.
pub open spec fn spec_der_tlv(tag: u8, c: Seq<u8>) -> Seq<u8> {
    seq![tag] + spec_der_len(c.len() as int) + c
}

/// The byte string with its leading zero octets removed.
pub open spec fn strip_zeros(b: Seq<u8>) -> Seq<u8>
    decreases b.len(),
{
    if b.len() > 0 && b[0] == 0 {
        strip_zeros(b.subrange(1, b.len() as int))
    } else {
        b
    }
}

/// The content octets of a DER INTEGER holding the unsigned value `b`:
/// minimal, with a zero octet prepended when the top bit is set.
pub open spec fn spec_uint_content(b: Seq<u8>) -> Seq<u8> {
    let s = strip_zeros(b);
    if s.len() == 0 {
        seq![0u8]
    } else if s[0] >= 0x80 {
        seq![0u8] + s
    } else {
        s
    }
}

/// A DER INTEGER holding the unsigned value `b`.
pub open spec fn spec_der_uint(b: Seq<u8>) -> Seq<u8> {
    spec_der_tlv(0x02, spec_uint_content(b))
}

/// The encoded OID 1.2.840.113549.1.1.1 (rsaEncryption).
pub open spec fn oid_rsa_encryption() -> Seq<u8> {
    seq![0x06u8, 0x09, 0x2a, 0x86, 0x48, 0x86, 0xf7, 0x0d, 0x01, 0x01, 0x01]
}

/// The encoded OID 1.2.840.113549.1.1.11 (sha256WithRSAEncryption).
pub open spec fn oid_sha256_with_rsa() -> Seq<u8> {
    seq![0x06u8, 0x09, 0x2a, 0x86, 0x48, 0x86, 0xf7, 0x0d, 0x01, 0x01, 0x0b]
}

/// The encoded OID 2.5.4.10 (organizationName).
pub open spec fn oid_organization_name() -> Seq<u8> {
    seq![0x06u8, 0x03, 0x55, 0x04, 0x0a]
}

/// The encoded OID 2.5.4.5 (serialNumber).
pub open spec fn oid_serial_number() -> Seq<u8> {
    seq![0x06u8, 0x03, 0x55, 0x04, 0x05]
}

/// The organization attribute value, the ASCII bytes of "Fobnail".
pub open spec fn organization_value() -> Seq<u8> {
    seq![70u8, 111, 98, 110, 97, 105, 108]
}

/// The four big-endian bytes of a 32-bit exponent.
pub open spec fn spec_u32_be(e: u32) -> Seq<u8> {
    seq![
        (e / 0x1000000) as u8,
        ((e / 0x10000) % 0x100) as u8,
        ((e / 0x100) % 0x100) as u8,
        (e % 0x100) as u8,
    ]
}

/// The uppercase-hex digit for a value in 0..16, as an ASCII code.
pub open spec fn spec_hex_upper_digit(d: int) -> u8 {
    if d < 10 {
        (48 + d) as u8
    } else {
        (55 + d) as u8
    }
}

/// The uppercase-hex form of a device identifier, without leading zeros
/// ("0" for zero), as ASCII codes.
pub open spec fn spec_hex_upper(v: u64) -> Seq<u8>
    decreases v,
{
    if v < 16 {
        seq![spec_hex_upper_digit(v as int)]
    } else {
        spec_hex_upper(v / 16) + seq![spec_hex_upper_digit((v % 16) as int)]
    }
}

/// A smaller identifier never takes more hex digits than a larger one.
proof fn lemma_hex_upper_len_ordered(v1: u64, v2: u64)
    requires
        v1 <= v2,
    ensures
        spec_hex_upper(v1).len() <= spec_hex_upper(v2).len(),
    decreases v2,
{
    if v2 < 16 {
    } else if v1 < 16 {
        assert(spec_hex_upper(v2).len() >= 1);
    } else {
        vstd::arithmetic::div_mod::lemma_div_is_ordered(v1 as int, v2 as int, 16);
        lemma_hex_upper_len_ordered(v1 / 16, v2 / 16);
    }
}

/// A 64-bit identifier takes at most 16 hex digits.
proof fn lemma_hex_upper_len(v: u64)
    ensures
        1 <= spec_hex_upper(v).len() <= 16,
{
    lemma_hex_upper_len_ordered(v, u64::MAX);
    reveal_with_fuel(spec_hex_upper, 17);
    assert(spec_hex_upper(u64::MAX).len() == 16);
}

/// The RSA public key as a DER SEQUENCE of the two unsigned INTEGERs
/// modulus and exponent.
pub open spec fn spec_rsa_pubkey_der(n: Seq<u8>, e: u32) -> Seq<u8> {
    spec_der_tlv(0x30, spec_der_uint(n) + spec_der_uint(spec_u32_be(e)))
}

/// An AlgorithmIdentifier without parameters: a SEQUENCE holding the OID.
pub open spec fn spec_alg_id(oid: Seq<u8>) -> Seq<u8> {
    spec_der_tlv(0x30, oid)
}

/// The SubjectPublicKeyInfo: the rsaEncryption algorithm and the encoded
/// key wrapped in a BIT STRING with no unused bits.
pub open spec fn spec_spki(n: Seq<u8>, e: u32) -> Seq<u8> {
    spec_der_tlv(
        0x30,
        spec_alg_id(oid_rsa_encryption()) + spec_der_tlv(
            0x03,
            seq![0u8] + spec_rsa_pubkey_der(n, e),
        ),
    )
}

/// An AttributeTypeAndValue: a SEQUENCE of the attribute OID and the tagged
/// value.
pub open spec fn spec_atv(oid: Seq<u8>, tag: u8, value: Seq<u8>) -> Seq<u8> {
    spec_der_tlv(0x30, oid + spec_der_tlv(tag, value))
}

/// A relative distinguished name holding one attribute: a SET around it.
pub open spec fn spec_rdn(atv: Seq<u8>) -> Seq<u8> {
    spec_der_tlv(0x31, atv)
}

/// The subject distinguished name: one RDN per SET, first the organization
/// (a UTF8String), then the serial number (a PrintableString holding the
/// uppercase-hex device id).
pub open spec fn spec_subject(device_id: u64) -> Seq<u8> {
    spec_der_tlv(
        0x30,
        spec_rdn(spec_atv(oid_organization_name(), 0x0c, organization_value())) + spec_rdn(
            spec_atv(oid_serial_number(), 0x13, spec_hex_upper(device_id)),
        ),
    )
}

/// The CertificationRequestInfo: version 1 (INTEGER 0), the subject, the
/// SubjectPublicKeyInfo, and an empty context-tagged attribute set.
pub open spec fn spec_cert_req_info(n: Seq<u8>, e: u32, device_id: u64) -> Seq<u8> {
    spec_der_tlv(
        0x30,
        seq![0x02u8, 0x01, 0x00] + spec_subject(device_id) + spec_spki(n, e) + seq![0xa0u8, 0x00],
    )
}

/// A CertificationRequest assembled from an already-encoded info and a raw
/// signature: the info, the sha256WithRSAEncryption algorithm, and the
/// signature wrapped in a BIT STRING.
pub open spec fn spec_csr_body(info: Seq<u8>, sig: Seq<u8>) -> Seq<u8> {
    spec_der_tlv(
        0x30,
        info + spec_alg_id(oid_sha256_with_rsa()) + spec_der_tlv(0x03, seq![0u8] + sig),
    )
}

/// When the final assembly fits the DER length forms used here: the
/// signature BIT STRING and the outer SEQUENCE must each stay within a
/// two-byte length.
pub open spec fn csr_sizes_ok(info: Seq<u8>, sig: Seq<u8>) -> bool {
    &&& sig.len() + 1 <= 0xFFFF
    &&& info.len() + spec_alg_id(oid_sha256_with_rsa()).len() + spec_der_tlv(
        0x03,
        seq![0u8] + sig,
    ).len() <= 0xFFFF
}

/// The full CertificationRequest over a public key and a device id.
pub open spec fn spec_csr(n: Seq<u8>, e: u32, device_id: u64, sig: Seq<u8>) -> Seq<u8> {
    spec_csr_body(spec_cert_req_info(n, e, device_id), sig)
}

/// Appends a slice to a vector.
fn append_slice(out: &mut Vec<u8>, s: &[u8])
    ensures
        final(out)@ == old(out)@ + s@,
{
    let mut j: usize = 0;
    while j < s.len()
        invariant
            0 <= j <= s@.len(),
            out@ == old(out)@ + s@.subrange(0, j as int),
        decreases s@.len() - j,
    {
        out.push(s[j]);
        proof {
            assert(old(out)@ + s@.subrange(0, j as int + 1) =~= (old(out)@ + s@.subrange(
                0,
                j as int,
            )).push(s@[j as int]));
        }
        j = j + 1;
    }
    proof {
        assert(s@.subrange(0, s@.len() as int) =~= s@);
    }
}

/// Wraps content in a DER TLV; fails only when the content is longer than
/// 0xFFFF bytes.
fn der_tlv(tag: u8, content: Vec<u8>) -> (r: Result<Vec<u8>, ()>)
    ensures
        r matches Ok(v) ==> v@ == spec_der_tlv(tag, content@),
        r is Ok <==> content@.len() <= 0xFFFF,
{
    let ghost cv = content@;
    if content.len() > 0xFFFF {
        return Err(());
    }
    let mut out: Vec<u8> = Vec::new();
    out.push(tag);
    let len = content.len();
    if len < 0x80 {
        out.push(len as u8);
    } else if len < 0x100 {
        out.push(0x81);
        out.push(len as u8);
    } else {
        out.push(0x82);
        out.push((len / 0x100) as u8);
        out.push((len % 0x100) as u8);
    }
    let mut c = content;
    out.append(&mut c);
    proof {
        assert(out@ =~= spec_der_tlv(tag, cv));
    }
    Ok(out)
}

/// Stripping leading zeros never lengthens a byte string.
proof fn lemma_strip_zeros_len(b: Seq<u8>)
    ensures
        strip_zeros(b).len() <= b.len(),
    decreases b.len(),
{
    if b.len() > 0 && b[0] == 0 {
        lemma_strip_zeros_len(b.subrange(1, b.len() as int));
    }
}

/// Encodes an unsigned value as a DER INTEGER; fails only when the content
/// would be longer than 0xFFFF bytes.
fn der_uint(value: &[u8]) -> (r: Result<Vec<u8>, ()>)
    ensures
        r matches Ok(v) ==> v@ == spec_der_uint(value@),
        r is Ok <==> spec_uint_content(value@).len() <= 0xFFFF,
{
    let mut i: usize = 0;
    proof {
        assert(value@.subrange(0, value@.len() as int) =~= value@);
    }
    while i < value.len() && value[i] == 0
        invariant
            0 <= i <= value@.len(),
            strip_zeros(value@) == strip_zeros(value@.subrange(i as int, value@.len() as int)),
        decreases value@.len() - i,
    {
        proof {
            let cur = value@.subrange(i as int, value@.len() as int);
            assert(cur[0] == 0);
            assert(cur.subrange(1, cur.len() as int) =~= value@.subrange(
                i as int + 1,
                value@.len() as int,
            ));
        }
        i = i + 1;
    }
    proof {
        let cur = value@.subrange(i as int, value@.len() as int);
        assert(strip_zeros(cur) == cur);
        assert(strip_zeros(value@) == cur);
    }
    let mut content: Vec<u8> = Vec::new();
    if i == value.len() {
        content.push(0);
        proof {
            assert(value@.subrange(i as int, value@.len() as int) =~= Seq::<u8>::empty());
            assert(content@ =~= spec_uint_content(value@));
        }
    } else {
        if value[i] >= 0x80 {
            content.push(0);
        }
        append_slice(&mut content, vstd::slice::slice_subrange(value, i, value.len()));
        proof {
            assert(content@ =~= spec_uint_content(value@));
        }
    }
    der_tlv(0x02, content)
}

/// The four big-endian bytes of the exponent.
fn encode_u32_be(e: u32) -> (r: Vec<u8>)
    ensures
        r@ == spec_u32_be(e),
{
    let mut out: Vec<u8> = Vec::new();
    out.push((e / 0x1000000) as u8);
    out.push(((e / 0x10000) % 0x100) as u8);
    out.push(((e / 0x100) % 0x100) as u8);
    out.push((e % 0x100) as u8);
    proof {
        assert(out@ =~= spec_u32_be(e));
    }
    out
}

/// The uppercase-hex form of the device id.
fn hex_upper(v: u64) -> (r: Vec<u8>)
    ensures
        r@ == spec_hex_upper(v),
    decreases v,
{
    if v < 16 {
        let d: u8 = v as u8;
        let c: u8 = if d < 10 {
            48 + d
        } else {
            55 + d
        };
        let mut out: Vec<u8> = Vec::new();
        out.push(c);
        proof {
            assert(out@ =~= spec_hex_upper(v));
        }
        out
    } else {
        let mut out = hex_upper(v / 16);
        let d: u8 = (v % 16) as u8;
        let c: u8 = if d < 10 {
            48 + d
        } else {
            55 + d
        };
        out.push(c);
        proof {
            assert(out@ =~= spec_hex_upper(v));
        }
        out
    }
}

/// Encodes an RSA public key as a DER SEQUENCE of the unsigned modulus and
/// exponent, exactly as [`spec_rsa_pubkey_der`] describes. A modulus of up
/// to 65000 bytes always encodes.
pub fn rsa_asn1_encode(key: &RsaKey) -> (r: Result<Vec<u8>, ()>)
    ensures
        r matches Ok(v) ==> v@ == spec_rsa_pubkey_der(key@.n, key@.e),
        key@.n.len() <= 65000 ==> r is Ok,
{
    proof {
        lemma_strip_zeros_len(key.n@);
        lemma_strip_zeros_len(spec_u32_be(key.e));
    }
    let n_der = match der_uint(key.n.as_slice()) {
        Ok(v) => v,
        Err(()) => {
            return Err(());
        },
    };
    let e_bytes = encode_u32_be(key.e);
    let e_der = match der_uint(e_bytes.as_slice()) {
        Ok(v) => v,
        Err(()) => {
            return Err(());
        },
    };
    let mut content = n_der;
    append_slice(&mut content, e_der.as_slice());
    der_tlv(0x30, content)
}

/// An AlgorithmIdentifier holding the given encoded OID.
fn alg_id(oid: &[u8]) -> (r: Result<Vec<u8>, ()>)
    ensures
        r matches Ok(v) ==> v@ == spec_alg_id(oid@),
        oid@.len() <= 0xFFFF ==> r is Ok,
{
    let mut content: Vec<u8> = Vec::new();
    append_slice(&mut content, oid);
    proof {
        assert(content@ =~= oid@);
    }
    der_tlv(0x30, content)
}

fn oid_rsa_encryption_bytes() -> (r: Vec<u8>)
    ensures
        r@ == oid_rsa_encryption(),
{
    let mut v: Vec<u8> = Vec::new();
    v.push(0x06);
    v.push(0x09);
    v.push(0x2a);
    v.push(0x86);
    v.push(0x48);
    v.push(0x86);
    v.push(0xf7);
    v.push(0x0d);
    v.push(0x01);
    v.push(0x01);
    v.push(0x01);
    proof {
        assert(v@ =~= oid_rsa_encryption());
    }
    v
}

fn oid_sha256_with_rsa_bytes() -> (r: Vec<u8>)
    ensures
        r@ == oid_sha256_with_rsa(),
{
    let mut v: Vec<u8> = Vec::new();
    v.push(0x06);
    v.push(0x09);
    v.push(0x2a);
    v.push(0x86);
    v.push(0x48);
    v.push(0x86);
    v.push(0xf7);
    v.push(0x0d);
    v.push(0x01);
    v.push(0x01);
    v.push(0x0b);
    proof {
        assert(v@ =~= oid_sha256_with_rsa());
    }
    v
}

fn oid_organization_name_bytes() -> (r: Vec<u8>)
    ensures
        r@ == oid_organization_name(),
{
    let mut v: Vec<u8> = Vec::new();
    v.push(0x06);
    v.push(0x03);
    v.push(0x55);
    v.push(0x04);
    v.push(0x0a);
    proof {
        assert(v@ =~= oid_organization_name());
    }
    v
}

fn oid_serial_number_bytes() -> (r: Vec<u8>)
    ensures
        r@ == oid_serial_number(),
{
    let mut v: Vec<u8> = Vec::new();
    v.push(0x06);
    v.push(0x03);
    v.push(0x55);
    v.push(0x04);
    v.push(0x05);
    proof {
        assert(v@ =~= oid_serial_number());
    }
    v
}

fn organization_value_bytes() -> (r: Vec<u8>)
    ensures
        r@ == organization_value(),
{
    let mut v: Vec<u8> = Vec::new();
    v.push(70);
    v.push(111);
    v.push(98);
    v.push(110);
    v.push(97);
    v.push(105);
    v.push(108);
    proof {
        assert(v@ =~= organization_value());
    }
    v
}

/// An AttributeTypeAndValue around an encoded OID and a tagged value.
fn atv(oid: &[u8], tag: u8, value: &[u8]) -> (r: Result<Vec<u8>, ()>)
    ensures
        r matches Ok(v) ==> v@ == spec_atv(oid@, tag, value@),
        oid@.len() + value@.len() <= 0xFF00 ==> r is Ok,
{
    let inner = match der_tlv(tag, vstd::slice::slice_to_vec(value)) {
        Ok(v) => v,
        Err(()) => {
            return Err(());
        },
    };
    let mut content: Vec<u8> = Vec::new();
    append_slice(&mut content, oid);
    append_slice(&mut content, inner.as_slice());
    proof {
        assert(content@ =~= oid@ + spec_der_tlv(tag, value@));
    }
    der_tlv(0x30, content)
}

/// A DER TLV takes between two and four bytes beyond its content.
proof fn lemma_tlv_len(tag: u8, c: Seq<u8>)
    ensures
        c.len() + 2 <= spec_der_tlv(tag, c).len() <= c.len() + 4,
{
}

/// Wraps an encoded CertificationRequestInfo and a raw signature into the
/// final CertificationRequest, exactly as [`spec_csr_body`] describes;
/// succeeds precisely when the two pieces fit the DER length forms used
/// here, as [`csr_sizes_ok`] says.
pub fn assemble_csr(info: &[u8], signature: &[u8]) -> (r: Result<Vec<u8>, ()>)
    ensures
        r matches Ok(out) ==> out@ == spec_csr_body(info@, signature@),
        r is Ok <==> csr_sizes_ok(info@, signature@),
{
    let mut sig_bits: Vec<u8> = Vec::new();
    sig_bits.push(0);
    append_slice(&mut sig_bits, signature);
    let sig_bit_string = match der_tlv(0x03, sig_bits) {
        Ok(v) => v,
        Err(()) => {
            return Err(());
        },
    };
    let oid_sig = oid_sha256_with_rsa_bytes();
    let alg_sig = match alg_id(oid_sig.as_slice()) {
        Ok(v) => v,
        Err(()) => {
            return Err(());
        },
    };
    let mut csr_content: Vec<u8> = Vec::new();
    append_slice(&mut csr_content, info);
    append_slice(&mut csr_content, alg_sig.as_slice());
    append_slice(&mut csr_content, sig_bit_string.as_slice());
    der_tlv(0x30, csr_content)
}

/// Within an 8192-byte modulus, every DER piece of the request info fits
/// its length form, and each nested piece stays within a small margin of
/// the modulus length.
#[verifier::rlimit(100)]
proof fn lemma_cert_req_info_lengths(n: Seq<u8>, e: u32, device_id: u64)
    requires
        n.len() <= 8192,
    ensures
        spec_uint_content(n).len() <= n.len() + 1,
        spec_rsa_pubkey_der(n, e).len() <= n.len() + 18,
        spec_spki(n, e).len() <= n.len() + 40,
        spec_hex_upper(device_id).len() <= 16,
        spec_atv(oid_organization_name(), 0x0c, organization_value()).len() <= 20,
        spec_atv(oid_serial_number(), 0x13, spec_hex_upper(device_id)).len() <= 29,
        spec_subject(device_id).len() <= 61,
        spec_cert_req_info(n, e, device_id).len() <= n.len() + 110,
{
    let m = n.len() as int;
    lemma_strip_zeros_len(n);
    lemma_strip_zeros_len(spec_u32_be(e));
    lemma_tlv_len(0x02, spec_uint_content(n));
    lemma_tlv_len(0x02, spec_uint_content(spec_u32_be(e)));
    assert(spec_der_uint(n).len() <= m + 5);
    assert(spec_der_uint(spec_u32_be(e)).len() <= 9);
    lemma_tlv_len(0x30, spec_der_uint(n) + spec_der_uint(spec_u32_be(e)));
    assert(spec_rsa_pubkey_der(n, e).len() <= m + 18);
    lemma_tlv_len(0x03, seq![0u8] + spec_rsa_pubkey_der(n, e));
    assert(spec_alg_id(oid_rsa_encryption()).len() == 13);
    lemma_tlv_len(
        0x30,
        spec_alg_id(oid_rsa_encryption()) + spec_der_tlv(0x03, seq![0u8] + spec_rsa_pubkey_der(n, e)),
    );
    assert(spec_spki(n, e).len() <= m + 40);
    lemma_tlv_len(0x0c, organization_value());
    lemma_tlv_len(0x30, oid_organization_name() + spec_der_tlv(0x0c, organization_value()));
    lemma_tlv_len(0x31, spec_atv(oid_organization_name(), 0x0c, organization_value()));
    assert(spec_rdn(spec_atv(oid_organization_name(), 0x0c, organization_value())).len() <= 24);
    lemma_hex_upper_len(device_id);
    lemma_tlv_len(0x13, spec_hex_upper(device_id));
    lemma_tlv_len(0x30, oid_serial_number() + spec_der_tlv(0x13, spec_hex_upper(device_id)));
    lemma_tlv_len(0x31, spec_atv(oid_serial_number(), 0x13, spec_hex_upper(device_id)));
    assert(spec_rdn(spec_atv(oid_serial_number(), 0x13, spec_hex_upper(device_id))).len() <= 33);
    lemma_tlv_len(
        0x30,
        spec_rdn(spec_atv(oid_organization_name(), 0x0c, organization_value())) + spec_rdn(
            spec_atv(oid_serial_number(), 0x13, spec_hex_upper(device_id)),
        ),
    );
    assert(spec_subject(device_id).len() <= 61);
    lemma_tlv_len(
        0x30,
        seq![0x02u8, 0x01, 0x00] + spec_subject(device_id) + spec_spki(n, e) + seq![0xa0u8, 0x00],
    );
    assert(spec_cert_req_info(n, e, device_id).len() <= m + 110);
}

/// With a modulus-length signature beside an 8192-byte-bounded modulus, the
/// final assembly fits its length forms and the whole request stays within
/// twice the modulus length plus 136 bytes of structure.
proof fn lemma_csr_lengths(n: Seq<u8>, e: u32, device_id: u64, sig: Seq<u8>)
    requires
        n.len() <= 8192,
        sig.len() == n.len(),
    ensures
        csr_sizes_ok(spec_cert_req_info(n, e, device_id), sig),
        spec_csr(n, e, device_id, sig).len() <= 2 * n.len() + 136,
{
    lemma_cert_req_info_lengths(n, e, device_id);
    lemma_tlv_len(0x03, seq![0u8] + sig);
    assert(spec_alg_id(oid_sha256_with_rsa()).len() == 13);
    lemma_tlv_len(
        0x30,
        spec_cert_req_info(n, e, device_id) + spec_alg_id(oid_sha256_with_rsa()) + spec_der_tlv(
            0x03,
            seq![0u8] + sig,
        ),
    );
}

/// Builds and signs the certificate request. On success the returned bytes
/// are exactly the DER CertificationRequest over this keypair and device id
/// ([`spec_csr`]), carrying one modulus-length signature that verifies under
/// the keypair's public half over the encoded CertificationRequestInfo, and
/// the whole output fits in twice the modulus length plus 136 bytes of
/// structure. A modulus longer than 8192 bytes is rejected outright; for any
/// modulus from 64 bytes up to that bound every step — encoding and the
/// signing call alike — succeeds, so the request is owed.
#[verifier::rlimit(100)]
#[verifier::spinoff_prover]
pub fn make_csr(keypair: &RsaKeyPair, device_id: u64) -> (r: Result<Vec<u8>, ()>)
    ensures
        keypair@.n.len() > 8192 ==> r is Err,
        64 <= keypair@.n.len() <= 8192 ==> r is Ok,
        r matches Ok(out) ==> exists|sig: Seq<u8>|
            {
                &&& out@ == spec_csr(keypair@.n, keypair@.e, device_id, sig)
                &&& sig.len() == keypair@.n.len()
                &&& rsa_pkcs1v15_sha256_valid(
                    keypair@.n,
                    keypair@.e,
                    sha256_of(spec_cert_req_info(keypair@.n, keypair@.e, device_id)),
                    sig,
                )
            },
        r matches Ok(out) ==> out@.len() <= 2 * keypair@.n.len() + 136,
{
    let key_pub = keypair.public();
    if key_pub.n.len() > 8192 {
        return Err(());
    }
    proof {
        lemma_cert_req_info_lengths(keypair@.n, keypair@.e, device_id);
    }
    // SubjectPublicKeyInfo
    let pubkey_der = match rsa_asn1_encode(key_pub) {
        Ok(v) => v,
        Err(()) => {
            return Err(());
        },
    };
    let oid_rsa = oid_rsa_encryption_bytes();
    let alg_rsa = match alg_id(oid_rsa.as_slice()) {
        Ok(v) => v,
        Err(()) => {
            return Err(());
        },
    };
    let mut bits: Vec<u8> = Vec::new();
    bits.push(0);
    append_slice(&mut bits, pubkey_der.as_slice());
    let bit_string = match der_tlv(0x03, bits) {
        Ok(v) => v,
        Err(()) => {
            return Err(());
        },
    };
    let mut spki_content = alg_rsa;
    append_slice(&mut spki_content, bit_string.as_slice());
    let spki = match der_tlv(0x30, spki_content) {
        Ok(v) => v,
        Err(()) => {
            return Err(());
        },
    };
    proof {
        assert(spki@ == spec_spki(key_pub@.n, key_pub@.e));
    }
    // Subject distinguished name
    let oid_org = oid_organization_name_bytes();
    let org_value = organization_value_bytes();
    let org_atv = match atv(oid_org.as_slice(), 0x0c, org_value.as_slice()) {
        Ok(v) => v,
        Err(()) => {
            return Err(());
        },
    };
    let org_rdn = match der_tlv(0x31, org_atv) {
        Ok(v) => v,
        Err(()) => {
            return Err(());
        },
    };
    let oid_sn = oid_serial_number_bytes();
    let sn_value = hex_upper(device_id);
    let sn_atv = match atv(oid_sn.as_slice(), 0x13, sn_value.as_slice()) {
        Ok(v) => v,
        Err(()) => {
            return Err(());
        },
    };
    let sn_rdn = match der_tlv(0x31, sn_atv) {
        Ok(v) => v,
        Err(()) => {
            return Err(());
        },
    };
    let mut subject_content = org_rdn;
    append_slice(&mut subject_content, sn_rdn.as_slice());
    let subject = match der_tlv(0x30, subject_content) {
        Ok(v) => v,
        Err(()) => {
            return Err(());
        },
    };
    proof {
        assert(subject@ == spec_subject(device_id));
    }
    // CertificationRequestInfo: version, subject, SPKI, empty attributes
    let mut info_content: Vec<u8> = Vec::new();
    info_content.push(0x02);
    info_content.push(0x01);
    info_content.push(0x00);
    append_slice(&mut info_content, subject.as_slice());
    append_slice(&mut info_content, spki.as_slice());
    info_content.push(0xa0);
    info_content.push(0x00);
    proof {
        assert(info_content@ =~= seq![0x02u8, 0x01, 0x00] + spec_subject(device_id) + spec_spki(
            key_pub@.n,
            key_pub@.e,
        ) + seq![0xa0u8, 0x00]);
    }
    let info = match der_tlv(0x30, info_content) {
        Ok(v) => v,
        Err(()) => {
            return Err(());
        },
    };
    proof {
        assert(info@ == spec_cert_req_info(key_pub@.n, key_pub@.e, device_id));
    }
    // Sign the encoded info
    let digest = sha256(info.as_slice());
    let signature = match rsa_sign_pkcs1v15_sha256(keypair, digest.as_slice()) {
        Some(s) => s,
        None => {
            return Err(());
        },
    };
    proof {
        lemma_csr_lengths(keypair@.n, keypair@.e, device_id, signature@);
        assert(csr_sizes_ok(info@, signature@));
    }
    let out = match assemble_csr(info.as_slice(), signature.as_slice()) {
        Ok(v) => v,
        Err(()) => {
            return Err(());
        },
    };
    proof {
        assert(out@ == spec_csr(keypair@.n, keypair@.e, device_id, signature@));
    }
    Ok(out)
}

} // verus!
