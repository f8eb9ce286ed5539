//! The wire payloads the attester sends, and their decoders: the signed
//! metadata envelope, the metadata record itself, and the AIK key
//! descriptor. Each decoder's contract ties its result to the spec-level
//! parse of the exact byte format.
//!
//! The decoders accept the canonical form of each message — shortest-form
//! headers and the map keys in the declared order — which is what a
//! conforming encoder emits for these fixed record shapes; reordered keys or
//! oversized length headers are rejected as malformed.

use vstd::prelude::*;

use crate::cbor::{
    enc_bstr, enc_hdr, enc_text, lemma_enc_of_parsed_bstr, lemma_enc_of_parsed_hdr,
    lemma_enc_of_parsed_key, lemma_enc_of_parsed_tstr, lemma_parse_bstr_enc, lemma_parse_hdr_enc,
    lemma_parse_key_enc, lemma_parse_tstr_enc, lemma_subrange_within, parse_bstr, parse_hdr,
    parse_key, parse_tstr, read_bstr, read_hdr, read_key, read_tstr,
};

verus! {

/// The only metadata version this client accepts.
pub const CURRENT_VERSION: u32 = 1;

/// The bytes of the map key "encoded_metadata".
pub open spec fn key_encoded_metadata() -> Seq<u8> {
    seq![101u8, 110, 99, 111, 100, 101, 100, 95, 109, 101, 116, 97, 100, 97, 116, 97]
}

/// The bytes of the map key "signature".
pub open spec fn key_signature() -> Seq<u8> {
    seq![115u8, 105, 103, 110, 97, 116, 117, 114, 101]
}

/// The bytes of the map key "version".
pub open spec fn key_version() -> Seq<u8> {
    seq![118u8, 101, 114, 115, 105, 111, 110]
}

/// The bytes of the map key "mac".
pub open spec fn key_mac() -> Seq<u8> {
    seq![109u8, 97, 99]
}

/// The bytes of the map key "sn".
pub open spec fn key_sn() -> Seq<u8> {
    seq![115u8, 110]
}

/// The bytes of the map key "ek_hash".
pub open spec fn key_ek_hash() -> Seq<u8> {
    seq![101u8, 107, 95, 104, 97, 115, 104]
}

/// The bytes of the map key "id".
pub open spec fn key_id() -> Seq<u8> {
    seq![105u8, 100]
}

/// The bytes of the map key "hash".
pub open spec fn key_hash() -> Seq<u8> {
    seq![104u8, 97, 115, 104]
}

/// The bytes of the map key "loaded_key_name".
pub open spec fn key_loaded_key_name() -> Seq<u8> {
    seq![108u8, 111, 97, 100, 101, 100, 95, 107, 101, 121, 95, 110, 97, 109, 101]
}

/// The hash algorithm tag carried in metadata, wire values 1, 2 and 3.
#[derive(Debug, Clone, Copy, PartialEq, Eq, Structural)]
pub enum HashType {
    Sha1,
    Sha256,
    Sha512,
}

/// The hash algorithm a wire tag stands for, if the tag is known.
pub open spec fn spec_hash_type(v: int) -> Option<HashType> {
    if v == 1 {
        Some(HashType::Sha1)
    } else if v == 2 {
        Some(HashType::Sha256)
    } else if v == 3 {
        Some(HashType::Sha512)
    } else {
        None
    }
}

/// The digest length each hash algorithm implies.
pub open spec fn spec_hash_len(t: HashType) -> int {
    match t {
        HashType::Sha1 => 20,
        HashType::Sha256 => 32,
        HashType::Sha512 => 64,
    }
}

/// A digest of the endorsement-key certificate, tagged with its algorithm.
pub struct HashValue {
    pub id: HashType,
    pub hash: Vec<u8>,
}

/// Spec-level image of a [`HashValue`].
pub struct HashValueView {
    pub id: HashType,
    pub hash: Seq<u8>,
}

impl View for HashValue {
    type V = HashValueView;

    open spec fn view(&self) -> HashValueView {
        HashValueView { id: self.id, hash: self.hash@ }
    }
}

/// The attester-signed metadata record. The MAC address and serial number
/// are carried as the raw bytes of the wire text strings.
pub struct Metadata {
    pub version: u32,
    pub mac: Vec<u8>,
    pub sn: Vec<u8>,
    pub ek_hash: HashValue,
}

/// Spec-level image of a [`Metadata`].
pub struct MetadataView {
    pub version: u32,
    pub mac: Seq<u8>,
    pub sn: Seq<u8>,
    pub ek_hash: HashValueView,
}

impl View for Metadata {
    type V = MetadataView;

    open spec fn view(&self) -> MetadataView {
        MetadataView { version: self.version, mac: self.mac@, sn: self.sn@, ek_hash: self.ek_hash@ }
    }
}

/// The signed envelope around a metadata record.
pub struct MetadataWithSignature {
    pub encoded_metadata: Vec<u8>,
    pub signature: Vec<u8>,
}

/// Spec-level image of a [`MetadataWithSignature`].
pub struct EnvelopeView {
    pub encoded_metadata: Seq<u8>,
    pub signature: Seq<u8>,
}

impl View for MetadataWithSignature {
    type V = EnvelopeView;

    open spec fn view(&self) -> EnvelopeView {
        EnvelopeView { encoded_metadata: self.encoded_metadata@, signature: self.signature@ }
    }
}

/// The AIK key descriptor: the TPM loaded key name naming the AIK.
pub struct AikKey {
    pub loaded_key_name: Vec<u8>,
}

impl View for AikKey {
    type V = Seq<u8>;

    open spec fn view(&self) -> Seq<u8> {
        self.loaded_key_name@
    }
}

/// Spec-level parse of the signed envelope: a two-entry map with the keys
/// "encoded_metadata" and "signature", both byte strings, covering the whole
/// input.
pub open spec fn parse_envelope(b: Seq<u8>) -> Option<EnvelopeView> {
    match parse_hdr(b, 0, 5) {
        Some((n, p0)) => if n == 2 {
            match parse_key(b, p0, key_encoded_metadata()) {
                Some(p1) => match parse_bstr(b, p1) {
                    Some((em, p2)) => match parse_key(b, p2, key_signature()) {
                        Some(p3) => match parse_bstr(b, p3) {
                            Some((sig, p4)) => if p4 == b.len() {
                                Some(EnvelopeView { encoded_metadata: em, signature: sig })
                            } else {
                                None
                            },
                            None => None,
                        },
                        None => None,
                    },
                    None => None,
                },
                None => None,
            }
        } else {
            None
        },
        None => None,
    }
}

/// Spec-level parse of the `ek_hash` entry: a two-entry map with an "id"
/// tag naming a known algorithm and a "hash" byte string.
pub open spec fn parse_ek_hash(b: Seq<u8>, pos: int) -> Option<(HashValueView, int)> {
    match parse_hdr(b, pos, 5) {
        Some((n, p0)) => if n == 2 {
            match parse_key(b, p0, key_id()) {
                Some(p1) => match parse_hdr(b, p1, 0) {
                    Some((tag, p2)) => match spec_hash_type(tag) {
                        Some(id) => match parse_key(b, p2, key_hash()) {
                            Some(p3) => match parse_bstr(b, p3) {
                                Some((h, p4)) => Some((HashValueView { id, hash: h }, p4)),
                                None => None,
                            },
                            None => None,
                        },
                        None => None,
                    },
                    None => None,
                },
                None => None,
            }
        } else {
            None
        },
        None => None,
    }
}

/// Spec-level parse of a metadata record: a four-entry map with the keys
/// "version", "mac", "sn" and "ek_hash", covering the whole input.
pub open spec fn parse_metadata(b: Seq<u8>) -> Option<MetadataView> {
    match parse_hdr(b, 0, 5) {
        Some((n, p0)) => if n == 4 {
            match parse_key(b, p0, key_version()) {
                Some(p1) => match parse_hdr(b, p1, 0) {
                    Some((version, p2)) => match parse_key(b, p2, key_mac()) {
                        Some(p3) => match parse_tstr(b, p3) {
                            Some((mac, p4)) => match parse_key(b, p4, key_sn()) {
                                Some(p5) => match parse_tstr(b, p5) {
                                    Some((sn, p6)) => match parse_key(b, p6, key_ek_hash()) {
                                        Some(p7) => match parse_ek_hash(b, p7) {
                                            Some((ek_hash, p8)) => if p8 == b.len() {
                                                Some(
                                                    MetadataView {
                                                        version: version as u32,
                                                        mac,
                                                        sn,
                                                        ek_hash,
                                                    },
                                                )
                                            } else {
                                                None
                                            },
                                            None => None,
                                        },
                                        None => None,
                                    },
                                    None => None,
                                },
                                None => None,
                            },
                            None => None,
                        },
                        None => None,
                    },
                    None => None,
                },
                None => None,
            }
        } else {
            None
        },
        None => None,
    }
}

/// Spec-level parse of the AIK descriptor: a one-entry map with the key
/// "loaded_key_name", a byte string, covering the whole input.
pub open spec fn parse_aik(b: Seq<u8>) -> Option<Seq<u8>> {
    match parse_hdr(b, 0, 5) {
        Some((n, p0)) => if n == 1 {
            match parse_key(b, p0, key_loaded_key_name()) {
                Some(p1) => match parse_bstr(b, p1) {
                    Some((lkn, p2)) => if p2 == b.len() {
                        Some(lkn)
                    } else {
                        None
                    },
                    None => None,
                },
                None => None,
            }
        } else {
            None
        },
        None => None,
    }
}

/// A metadata record is acceptable when its version is the supported one and
/// its endorsement-key digest has the length its algorithm implies.
pub open spec fn spec_metadata_valid(m: MetadataView) -> bool {
    &&& m.version == CURRENT_VERSION
    &&& m.ek_hash.hash.len() == spec_hash_len(m.ek_hash.id)
}

/// The wire tag of a hash algorithm.
pub open spec fn hash_type_tag(t: HashType) -> int {
    match t {
        HashType::Sha1 => 1,
        HashType::Sha256 => 2,
        HashType::Sha512 => 3,
    }
}

/// The canonical encoding of the signed envelope.
pub open spec fn enc_envelope(em: Seq<u8>, sig: Seq<u8>) -> Seq<u8> {
    enc_hdr(5, 2) + enc_text(key_encoded_metadata()) + enc_bstr(em) + enc_text(key_signature())
        + enc_bstr(sig)
}

/// The canonical encoding of the `ek_hash` entry.
pub open spec fn enc_ek_hash(h: HashValueView) -> Seq<u8> {
    enc_hdr(5, 2) + enc_text(key_id()) + enc_hdr(0, hash_type_tag(h.id)) + enc_text(key_hash())
        + enc_bstr(h.hash)
}

/// The canonical encoding of a metadata record.
pub open spec fn enc_metadata(m: MetadataView) -> Seq<u8> {
    enc_hdr(5, 4) + enc_text(key_version()) + enc_hdr(0, m.version as int) + enc_text(key_mac())
        + enc_text(m.mac) + enc_text(key_sn()) + enc_text(m.sn) + enc_text(key_ek_hash())
        + enc_ek_hash(m.ek_hash)
}

/// The canonical encoding of the AIK descriptor.
pub open spec fn enc_aik(lkn: Seq<u8>) -> Seq<u8> {
    enc_hdr(5, 1) + enc_text(key_loaded_key_name()) + enc_bstr(lkn)
}

/// Round trip: parsing the canonical encoding of an envelope yields exactly
/// that envelope.
pub proof fn lemma_parse_envelope_enc(em: Seq<u8>, sig: Seq<u8>)
    requires
        em.len() < 0x100000000,
        sig.len() < 0x100000000,
    ensures
        parse_envelope(enc_envelope(em, sig)) == Some(
            EnvelopeView { encoded_metadata: em, signature: sig },
        ),
{
    let b = enc_envelope(em, sig);
    let h = enc_hdr(5, 2);
    let k1 = enc_text(key_encoded_metadata());
    let s1 = enc_bstr(em);
    let k2 = enc_text(key_signature());
    let s2 = enc_bstr(sig);
    let p0 = h.len() as int;
    let p1 = p0 + k1.len() as int;
    let p2 = p1 + s1.len() as int;
    let p3 = p2 + k2.len() as int;
    let p4 = p3 + s2.len() as int;
    assert(b.len() == p4);
    assert(b.subrange(0, p0) =~= h);
    assert(b.subrange(p0, p1) =~= k1);
    assert(b.subrange(p1, p2) =~= s1);
    assert(b.subrange(p2, p3) =~= k2);
    assert(b.subrange(p3, p4) =~= s2);
    lemma_parse_hdr_enc(b, 0, 5, 2);
    lemma_parse_key_enc(b, p0, key_encoded_metadata());
    lemma_parse_bstr_enc(b, p1, em);
    lemma_parse_key_enc(b, p2, key_signature());
    lemma_parse_bstr_enc(b, p3, sig);
}

/// Round trip for the `ek_hash` entry, at a position inside a larger input.
proof fn lemma_parse_ek_hash_enc(b: Seq<u8>, pos: int, h: HashValueView)
    requires
        h.hash.len() < 0x100000000,
        0 <= pos,
        pos + enc_ek_hash(h).len() <= b.len(),
        b.subrange(pos, pos + enc_ek_hash(h).len() as int) == enc_ek_hash(h),
    ensures
        parse_ek_hash(b, pos) == Some((h, pos + enc_ek_hash(h).len() as int)),
{
    let e = enc_ek_hash(h);
    let eh = enc_hdr(5, 2);
    let ki = enc_text(key_id());
    let th = enc_hdr(0, hash_type_tag(h.id));
    let kh = enc_text(key_hash());
    let hb = enc_bstr(h.hash);
    let q0 = eh.len() as int;
    let q1 = q0 + ki.len() as int;
    let q2 = q1 + th.len() as int;
    let q3 = q2 + kh.len() as int;
    let q4 = q3 + hb.len() as int;
    assert(e.len() == q4);
    assert(e.subrange(0, q0) =~= eh);
    assert(e.subrange(q0, q1) =~= ki);
    assert(e.subrange(q1, q2) =~= th);
    assert(e.subrange(q2, q3) =~= kh);
    assert(e.subrange(q3, q4) =~= hb);
    lemma_subrange_within(b, pos, e, 0, eh);
    lemma_subrange_within(b, pos, e, q0, ki);
    lemma_subrange_within(b, pos, e, q1, th);
    lemma_subrange_within(b, pos, e, q2, kh);
    lemma_subrange_within(b, pos, e, q3, hb);
    lemma_parse_hdr_enc(b, pos, 5, 2);
    lemma_parse_key_enc(b, pos + q0, key_id());
    lemma_parse_hdr_enc(b, pos + q1, 0, hash_type_tag(h.id));
    lemma_parse_key_enc(b, pos + q2, key_hash());
    lemma_parse_bstr_enc(b, pos + q3, h.hash);
    assert(spec_hash_type(hash_type_tag(h.id)) == Some(h.id));
}

/// Round trip: parsing the canonical encoding of a metadata record yields
/// exactly that record.
#[verifier::rlimit(100)]
pub proof fn lemma_parse_metadata_enc(m: MetadataView)
    requires
        m.mac.len() < 0x100000000,
        m.sn.len() < 0x100000000,
        m.ek_hash.hash.len() < 0x100000000,
    ensures
        parse_metadata(enc_metadata(m)) == Some(m),
{
    let b = enc_metadata(m);
    let h = enc_hdr(5, 4);
    let kv = enc_text(key_version());
    let vh = enc_hdr(0, m.version as int);
    let km = enc_text(key_mac());
    let mv = enc_text(m.mac);
    let ks = enc_text(key_sn());
    let sv = enc_text(m.sn);
    let ke = enc_text(key_ek_hash());
    let ev = enc_ek_hash(m.ek_hash);
    let p0 = h.len() as int;
    let p1 = p0 + kv.len() as int;
    let p2 = p1 + vh.len() as int;
    let p3 = p2 + km.len() as int;
    let p4 = p3 + mv.len() as int;
    let p5 = p4 + ks.len() as int;
    let p6 = p5 + sv.len() as int;
    let p7 = p6 + ke.len() as int;
    let p8 = p7 + ev.len() as int;
    assert(b.len() == p8);
    assert(b.subrange(0, p0) =~= h);
    assert(b.subrange(p0, p1) =~= kv);
    assert(b.subrange(p1, p2) =~= vh);
    assert(b.subrange(p2, p3) =~= km);
    assert(b.subrange(p3, p4) =~= mv);
    assert(b.subrange(p4, p5) =~= ks);
    assert(b.subrange(p5, p6) =~= sv);
    assert(b.subrange(p6, p7) =~= ke);
    assert(b.subrange(p7, p8) =~= ev);
    lemma_parse_hdr_enc(b, 0, 5, 4);
    lemma_parse_key_enc(b, p0, key_version());
    lemma_parse_hdr_enc(b, p1, 0, m.version as int);
    lemma_parse_key_enc(b, p2, key_mac());
    lemma_parse_tstr_enc(b, p3, m.mac);
    lemma_parse_key_enc(b, p4, key_sn());
    lemma_parse_tstr_enc(b, p5, m.sn);
    lemma_parse_key_enc(b, p6, key_ek_hash());
    lemma_parse_ek_hash_enc(b, p7, m.ek_hash);
}

/// Round trip: parsing the canonical encoding of an AIK descriptor yields
/// exactly its loaded key name.
pub proof fn lemma_parse_aik_enc(lkn: Seq<u8>)
    requires
        lkn.len() < 0x100000000,
    ensures
        parse_aik(enc_aik(lkn)) == Some(lkn),
{
    let b = enc_aik(lkn);
    let h = enc_hdr(5, 1);
    let k1 = enc_text(key_loaded_key_name());
    let s1 = enc_bstr(lkn);
    let p0 = h.len() as int;
    let p1 = p0 + k1.len() as int;
    let p2 = p1 + s1.len() as int;
    assert(b.len() == p2);
    assert(b.subrange(0, p0) =~= h);
    assert(b.subrange(p0, p1) =~= k1);
    assert(b.subrange(p1, p2) =~= s1);
    lemma_parse_hdr_enc(b, 0, 5, 1);
    lemma_parse_key_enc(b, p0, key_loaded_key_name());
    lemma_parse_bstr_enc(b, p1, lkn);
}

/// Soundness: an input that parses as an envelope is exactly the canonical
/// encoding of what was parsed. With the round trip this pins the accepted
/// inputs down completely.
pub proof fn lemma_enc_of_parsed_envelope(b: Seq<u8>)
    requires
        parse_envelope(b) is Some,
    ensures
        ({
            let env = parse_envelope(b).unwrap();
            b == enc_envelope(env.encoded_metadata, env.signature)
        }),
{
    let (n, p0) = parse_hdr(b, 0, 5).unwrap();
    lemma_enc_of_parsed_hdr(b, 0, 5, n, p0);
    let p1 = parse_key(b, p0, key_encoded_metadata()).unwrap();
    lemma_enc_of_parsed_key(b, p0, key_encoded_metadata(), p1);
    let (em, p2) = parse_bstr(b, p1).unwrap();
    lemma_enc_of_parsed_bstr(b, p1, em, p2);
    let p3 = parse_key(b, p2, key_signature()).unwrap();
    lemma_enc_of_parsed_key(b, p2, key_signature(), p3);
    let (sig, p4) = parse_bstr(b, p3).unwrap();
    lemma_enc_of_parsed_bstr(b, p3, sig, p4);
    let e = enc_envelope(em, sig);
    assert(p4 == b.len());
    assert forall|i: int| 0 <= i < b.len() implies b[i] == e[i] by {
        if i < p0 {
            assert(b.subrange(0, p0)[i] == b[i]);
        } else if i < p1 {
            assert(b.subrange(p0, p1)[i - p0] == b[i]);
        } else if i < p2 {
            assert(b.subrange(p1, p2)[i - p1] == b[i]);
        } else if i < p3 {
            assert(b.subrange(p2, p3)[i - p2] == b[i]);
        } else {
            assert(b.subrange(p3, p4)[i - p3] == b[i]);
        }
    }
    assert(b =~= e);
}

/// Soundness for the `ek_hash` entry, at a position inside a larger input.
proof fn lemma_enc_of_parsed_ek_hash(b: Seq<u8>, pos: int, h: HashValueView, p: int)
    requires
        parse_ek_hash(b, pos) == Some((h, p)),
    ensures
        h.hash.len() < 0x100000000,
        0 <= pos <= p <= b.len(),
        p == pos + enc_ek_hash(h).len(),
        b.subrange(pos, p) == enc_ek_hash(h),
{
    let (n, q0) = parse_hdr(b, pos, 5).unwrap();
    lemma_enc_of_parsed_hdr(b, pos, 5, n, q0);
    let q1 = parse_key(b, q0, key_id()).unwrap();
    lemma_enc_of_parsed_key(b, q0, key_id(), q1);
    let (tag, q2) = parse_hdr(b, q1, 0).unwrap();
    lemma_enc_of_parsed_hdr(b, q1, 0, tag, q2);
    let q3 = parse_key(b, q2, key_hash()).unwrap();
    lemma_enc_of_parsed_key(b, q2, key_hash(), q3);
    let (hb, q4) = parse_bstr(b, q3).unwrap();
    lemma_enc_of_parsed_bstr(b, q3, hb, q4);
    assert(tag == hash_type_tag(h.id));
    let e = enc_ek_hash(h);
    assert(p == pos + e.len());
    assert forall|i: int| 0 <= i < p - pos implies b.subrange(pos, p)[i] == e[i] by {
        assert(b.subrange(pos, p)[i] == b[pos + i]);
        let j = pos + i;
        if j < q0 {
            assert(b.subrange(pos, q0)[j - pos] == b[j]);
        } else if j < q1 {
            assert(b.subrange(q0, q1)[j - q0] == b[j]);
        } else if j < q2 {
            assert(b.subrange(q1, q2)[j - q1] == b[j]);
        } else if j < q3 {
            assert(b.subrange(q2, q3)[j - q2] == b[j]);
        } else {
            assert(b.subrange(q3, q4)[j - q3] == b[j]);
        }
    }
    assert(b.subrange(pos, p) =~= e);
}

/// Soundness: an input that parses as a metadata record is exactly the
/// canonical encoding of what was parsed.
pub proof fn lemma_enc_of_parsed_metadata(b: Seq<u8>)
    requires
        parse_metadata(b) is Some,
    ensures
        b == enc_metadata(parse_metadata(b).unwrap()),
{
    let (n, p0) = parse_hdr(b, 0, 5).unwrap();
    lemma_enc_of_parsed_hdr(b, 0, 5, n, p0);
    let p1 = parse_key(b, p0, key_version()).unwrap();
    lemma_enc_of_parsed_key(b, p0, key_version(), p1);
    let (version, p2) = parse_hdr(b, p1, 0).unwrap();
    lemma_enc_of_parsed_hdr(b, p1, 0, version, p2);
    let p3 = parse_key(b, p2, key_mac()).unwrap();
    lemma_enc_of_parsed_key(b, p2, key_mac(), p3);
    let (mac, p4) = parse_tstr(b, p3).unwrap();
    lemma_enc_of_parsed_tstr(b, p3, mac, p4);
    let p5 = parse_key(b, p4, key_sn()).unwrap();
    lemma_enc_of_parsed_key(b, p4, key_sn(), p5);
    let (sn, p6) = parse_tstr(b, p5).unwrap();
    lemma_enc_of_parsed_tstr(b, p5, sn, p6);
    let p7 = parse_key(b, p6, key_ek_hash()).unwrap();
    lemma_enc_of_parsed_key(b, p6, key_ek_hash(), p7);
    let (ekh, p8) = parse_ek_hash(b, p7).unwrap();
    lemma_enc_of_parsed_ek_hash(b, p7, ekh, p8);
    let m = parse_metadata(b).unwrap();
    assert(m.version as int == version);
    let e = enc_metadata(m);
    assert(p8 == b.len());
    assert forall|i: int| 0 <= i < b.len() implies b[i] == e[i] by {
        if i < p0 {
            assert(b.subrange(0, p0)[i] == b[i]);
        } else if i < p1 {
            assert(b.subrange(p0, p1)[i - p0] == b[i]);
        } else if i < p2 {
            assert(b.subrange(p1, p2)[i - p1] == b[i]);
        } else if i < p3 {
            assert(b.subrange(p2, p3)[i - p2] == b[i]);
        } else if i < p4 {
            assert(b.subrange(p3, p4)[i - p3] == b[i]);
        } else if i < p5 {
            assert(b.subrange(p4, p5)[i - p4] == b[i]);
        } else if i < p6 {
            assert(b.subrange(p5, p6)[i - p5] == b[i]);
        } else if i < p7 {
            assert(b.subrange(p6, p7)[i - p6] == b[i]);
        } else {
            assert(b.subrange(p7, p8)[i - p7] == b[i]);
        }
    }
    assert(b =~= e);
}

/// Soundness: an input that parses as an AIK descriptor is exactly the
/// canonical encoding of the parsed loaded key name.
pub proof fn lemma_enc_of_parsed_aik(b: Seq<u8>)
    requires
        parse_aik(b) is Some,
    ensures
        b == enc_aik(parse_aik(b).unwrap()),
{
    let (n, p0) = parse_hdr(b, 0, 5).unwrap();
    lemma_enc_of_parsed_hdr(b, 0, 5, n, p0);
    let p1 = parse_key(b, p0, key_loaded_key_name()).unwrap();
    lemma_enc_of_parsed_key(b, p0, key_loaded_key_name(), p1);
    let (lkn, p2) = parse_bstr(b, p1).unwrap();
    lemma_enc_of_parsed_bstr(b, p1, lkn, p2);
    let e = enc_aik(lkn);
    assert(p2 == b.len());
    assert forall|i: int| 0 <= i < b.len() implies b[i] == e[i] by {
        if i < p0 {
            assert(b.subrange(0, p0)[i] == b[i]);
        } else if i < p1 {
            assert(b.subrange(p0, p1)[i - p0] == b[i]);
        } else {
            assert(b.subrange(p1, p2)[i - p1] == b[i]);
        }
    }
    assert(b =~= e);
}

fn key_encoded_metadata_bytes() -> (r: Vec<u8>)
    ensures
        r@ == key_encoded_metadata(),
{
    let mut v: Vec<u8> = Vec::new();
    v.push(101);
    v.push(110);
    v.push(99);
    v.push(111);
    v.push(100);
    v.push(101);
    v.push(100);
    v.push(95);
    v.push(109);
    v.push(101);
    v.push(116);
    v.push(97);
    v.push(100);
    v.push(97);
    v.push(116);
    v.push(97);
    proof {
        assert(v@ =~= key_encoded_metadata());
    }
    v
}

fn key_signature_bytes() -> (r: Vec<u8>)
    ensures
        r@ == key_signature(),
{
    let mut v: Vec<u8> = Vec::new();
    v.push(115);
    v.push(105);
    v.push(103);
    v.push(110);
    v.push(97);
    v.push(116);
    v.push(117);
    v.push(114);
    v.push(101);
    proof {
        assert(v@ =~= key_signature());
    }
    v
}

fn key_version_bytes() -> (r: Vec<u8>)
    ensures
        r@ == key_version(),
{
    let mut v: Vec<u8> = Vec::new();
    v.push(118);
    v.push(101);
    v.push(114);
    v.push(115);
    v.push(105);
    v.push(111);
    v.push(110);
    proof {
        assert(v@ =~= key_version());
    }
    v
}

fn key_mac_bytes() -> (r: Vec<u8>)
    ensures
        r@ == key_mac(),
{
    let mut v: Vec<u8> = Vec::new();
    v.push(109);
    v.push(97);
    v.push(99);
    proof {
        assert(v@ =~= key_mac());
    }
    v
}

fn key_sn_bytes() -> (r: Vec<u8>)
    ensures
        r@ == key_sn(),
{
    let mut v: Vec<u8> = Vec::new();
    v.push(115);
    v.push(110);
    proof {
        assert(v@ =~= key_sn());
    }
    v
}

fn key_ek_hash_bytes() -> (r: Vec<u8>)
    ensures
        r@ == key_ek_hash(),
{
    let mut v: Vec<u8> = Vec::new();
    v.push(101);
    v.push(107);
    v.push(95);
    v.push(104);
    v.push(97);
    v.push(115);
    v.push(104);
    proof {
        assert(v@ =~= key_ek_hash());
    }
    v
}

fn key_id_bytes() -> (r: Vec<u8>)
    ensures
        r@ == key_id(),
{
    let mut v: Vec<u8> = Vec::new();
    v.push(105);
    v.push(100);
    proof {
        assert(v@ =~= key_id());
    }
    v
}

fn key_hash_bytes() -> (r: Vec<u8>)
    ensures
        r@ == key_hash(),
{
    let mut v: Vec<u8> = Vec::new();
    v.push(104);
    v.push(97);
    v.push(115);
    v.push(104);
    proof {
        assert(v@ =~= key_hash());
    }
    v
}

fn key_loaded_key_name_bytes() -> (r: Vec<u8>)
    ensures
        r@ == key_loaded_key_name(),
{
    let mut v: Vec<u8> = Vec::new();
    v.push(108);
    v.push(111);
    v.push(97);
    v.push(100);
    v.push(101);
    v.push(100);
    v.push(95);
    v.push(107);
    v.push(101);
    v.push(121);
    v.push(95);
    v.push(110);
    v.push(97);
    v.push(109);
    v.push(101);
    proof {
        assert(v@ =~= key_loaded_key_name());
    }
    v
}

/// Decodes a signed metadata envelope, succeeding exactly when
/// [`parse_envelope`] does.
pub fn decode_envelope(data: &[u8]) -> (r: Option<MetadataWithSignature>)
    ensures
        match r {
            Some(env) => parse_envelope(data@) == Some(env@),
            None => parse_envelope(data@) is None,
        },
{
    let (n, p0) = match read_hdr(data, 0, 5) {
        Some(v) => v,
        None => {
            return None;
        },
    };
    if n != 2 {
        return None;
    }
    let key_em = key_encoded_metadata_bytes();
    let p1 = match read_key(data, p0, key_em.as_slice()) {
        Some(p) => p,
        None => {
            return None;
        },
    };
    let (em, p2) = match read_bstr(data, p1) {
        Some(v) => v,
        None => {
            return None;
        },
    };
    let key_sig = key_signature_bytes();
    let p3 = match read_key(data, p2, key_sig.as_slice()) {
        Some(p) => p,
        None => {
            return None;
        },
    };
    let (sig, p4) = match read_bstr(data, p3) {
        Some(v) => v,
        None => {
            return None;
        },
    };
    if p4 != data.len() {
        return None;
    }
    Some(MetadataWithSignature { encoded_metadata: em, signature: sig })
}

/// Decodes a metadata record, succeeding exactly when [`parse_metadata`]
/// does.
pub fn decode_metadata(data: &[u8]) -> (r: Option<Metadata>)
    ensures
        match r {
            Some(m) => parse_metadata(data@) == Some(m@),
            None => parse_metadata(data@) is None,
        },
{
    let (n, p0) = match read_hdr(data, 0, 5) {
        Some(v) => v,
        None => {
            return None;
        },
    };
    if n != 4 {
        return None;
    }
    let key_ver = key_version_bytes();
    let p1 = match read_key(data, p0, key_ver.as_slice()) {
        Some(p) => p,
        None => {
            return None;
        },
    };
    let (version, p2) = match read_hdr(data, p1, 0) {
        Some(v) => v,
        None => {
            return None;
        },
    };
    let key_m = key_mac_bytes();
    let p3 = match read_key(data, p2, key_m.as_slice()) {
        Some(p) => p,
        None => {
            return None;
        },
    };
    let (mac, p4) = match read_tstr(data, p3) {
        Some(v) => v,
        None => {
            return None;
        },
    };
    let key_s = key_sn_bytes();
    let p5 = match read_key(data, p4, key_s.as_slice()) {
        Some(p) => p,
        None => {
            return None;
        },
    };
    let (sn, p6) = match read_tstr(data, p5) {
        Some(v) => v,
        None => {
            return None;
        },
    };
    let key_ekh = key_ek_hash_bytes();
    let p7 = match read_key(data, p6, key_ekh.as_slice()) {
        Some(p) => p,
        None => {
            return None;
        },
    };
    // ek_hash: a two-entry map { "id": tag, "hash": bytes }
    let (en, q0) = match read_hdr(data, p7, 5) {
        Some(v) => v,
        None => {
            return None;
        },
    };
    if en != 2 {
        return None;
    }
    let key_i = key_id_bytes();
    let q1 = match read_key(data, q0, key_i.as_slice()) {
        Some(p) => p,
        None => {
            return None;
        },
    };
    let (tag, q2) = match read_hdr(data, q1, 0) {
        Some(v) => v,
        None => {
            return None;
        },
    };
    let id = if tag == 1 {
        HashType::Sha1
    } else if tag == 2 {
        HashType::Sha256
    } else if tag == 3 {
        HashType::Sha512
    } else {
        return None;
    };
    let key_h = key_hash_bytes();
    let q3 = match read_key(data, q2, key_h.as_slice()) {
        Some(p) => p,
        None => {
            return None;
        },
    };
    let (h, q4) = match read_bstr(data, q3) {
        Some(v) => v,
        None => {
            return None;
        },
    };
    if q4 != data.len() {
        return None;
    }
    Some(
        Metadata {
            version: version as u32,
            mac,
            sn,
            ek_hash: HashValue { id, hash: h },
        },
    )
}

/// Decodes an AIK key descriptor, succeeding exactly when [`parse_aik`]
/// does.
pub fn decode_aik(data: &[u8]) -> (r: Option<AikKey>)
    ensures
        match r {
            Some(k) => parse_aik(data@) == Some(k@),
            None => parse_aik(data@) is None,
        },
{
    let (n, p0) = match read_hdr(data, 0, 5) {
        Some(v) => v,
        None => {
            return None;
        },
    };
    if n != 1 {
        return None;
    }
    let key_lkn = key_loaded_key_name_bytes();
    let p1 = match read_key(data, p0, key_lkn.as_slice()) {
        Some(p) => p,
        None => {
            return None;
        },
    };
    let (lkn, p2) = match read_bstr(data, p1) {
        Some(v) => v,
        None => {
            return None;
        },
    };
    if p2 != data.len() {
        return None;
    }
    Some(AikKey { loaded_key_name: lkn })
}

} // verus!
