//! A verified reader for the CBOR subset the wire payloads use: canonical
//! unsigned-integer headers, byte strings, text strings used as fixed map
//! keys, and definite-length maps.
//!
//! `parse_hdr` is the spec-level definition of a canonical header; the exec
//! readers return exactly what the spec parsers say, so the byte-level format
//! of every message is pinned down in the contracts.

use vstd::prelude::*;
use vstd::slice::slice_subrange;

verus! {

/// Spec-level read of a canonical CBOR header of major type `major` at
/// `pos`: the encoded value and the position just past the header. Headers
/// that are not in shortest form, use the 8-byte form, or encode a reserved
/// additional-information value are rejected.
pub open spec fn parse_hdr(b: Seq<u8>, pos: int, major: int) -> Option<(int, int)> {
    if 0 <= pos < b.len() && b[pos] / 32 == major {
        let ai = b[pos] % 32;
        if ai < 24 {
            Some((ai as int, pos + 1))
        } else if ai == 24 {
            if pos + 2 <= b.len() && b[pos + 1] >= 24 {
                Some((b[pos + 1] as int, pos + 2))
            } else {
                None
            }
        } else if ai == 25 {
            if pos + 3 <= b.len() && b[pos + 1] * 256 + b[pos + 2] >= 256 {
                Some((b[pos + 1] * 256 + b[pos + 2], pos + 3))
            } else {
                None
            }
        } else if ai == 26 {
            if pos + 5 <= b.len() && b[pos + 1] * 16777216 + b[pos + 2] * 65536 + b[pos + 3] * 256
                + b[pos + 4] >= 65536 {
                Some(
                    (
                        b[pos + 1] * 16777216 + b[pos + 2] * 65536 + b[pos + 3] * 256 + b[pos + 4],
                        pos + 5,
                    ),
                )
            } else {
                None
            }
        } else {
            None
        }
    } else {
        None
    }
}

/// Spec-level read of a text-string key whose content must be exactly
/// `name`; returns the position just past the key.
pub open spec fn parse_key(b: Seq<u8>, pos: int, name: Seq<u8>) -> Option<int> {
    match parse_hdr(b, pos, 3) {
        Some((len, p)) => if len == name.len() && p + len <= b.len() && b.subrange(p, p + len)
            == name {
            Some(p + len)
        } else {
            None
        },
        None => None,
    }
}

/// Spec-level read of a byte string: its content and the position past it.
pub open spec fn parse_bstr(b: Seq<u8>, pos: int) -> Option<(Seq<u8>, int)> {
    match parse_hdr(b, pos, 2) {
        Some((len, p)) => if p + len <= b.len() {
            Some((b.subrange(p, p + len), p + len))
        } else {
            None
        },
        None => None,
    }
}

/// Spec-level read of a text string: its (byte) content and the position
/// past it.
pub open spec fn parse_tstr(b: Seq<u8>, pos: int) -> Option<(Seq<u8>, int)> {
    match parse_hdr(b, pos, 3) {
        Some((len, p)) => if p + len <= b.len() {
            Some((b.subrange(p, p + len), p + len))
        } else {
            None
        },
        None => None,
    }
}

/// The canonical (shortest-form) encoding of a CBOR header of major type
/// `major` with value `v`.
pub open spec fn enc_hdr(major: int, v: int) -> Seq<u8>
    recommends
        0 <= major < 8,
        0 <= v < 0x100000000,
{
    if v < 24 {
        seq![(major * 32 + v) as u8]
    } else if v < 0x100 {
        seq![(major * 32 + 24) as u8, v as u8]
    } else if v < 0x10000 {
        seq![(major * 32 + 25) as u8, (v / 0x100) as u8, (v % 0x100) as u8]
    } else {
        seq![
            (major * 32 + 26) as u8,
            (v / 0x1000000) as u8,
            ((v / 0x10000) % 0x100) as u8,
            ((v / 0x100) % 0x100) as u8,
            (v % 0x100) as u8,
        ]
    }
}

/// The canonical encoding of a byte string.
pub open spec fn enc_bstr(content: Seq<u8>) -> Seq<u8> {
    enc_hdr(2, content.len() as int) + content
}

/// The canonical encoding of a text string with the given (byte) content.
pub open spec fn enc_text(content: Seq<u8>) -> Seq<u8> {
    enc_hdr(3, content.len() as int) + content
}

/// A byte inside an identified subrange equals the corresponding byte of
/// the identifying sequence.
proof fn lemma_index_of_subrange(b: Seq<u8>, pos: int, e: Seq<u8>, i: int)
    requires
        0 <= pos,
        0 <= i < e.len(),
        pos + e.len() <= b.len(),
        b.subrange(pos, pos + e.len() as int) == e,
    ensures
        b[pos + i] == e[i],
{
    assert(b.subrange(pos, pos + e.len() as int)[i] == b[pos + i]);
}

/// Parsing a header finds exactly what the canonical encoding put there.
pub proof fn lemma_parse_hdr_enc(b: Seq<u8>, pos: int, major: int, v: int)
    requires
        0 <= major < 8,
        0 <= v < 0x100000000,
        0 <= pos,
        pos + enc_hdr(major, v).len() <= b.len(),
        b.subrange(pos, pos + enc_hdr(major, v).len() as int) == enc_hdr(major, v),
    ensures
        parse_hdr(b, pos, major) == Some((v, pos + enc_hdr(major, v).len() as int)),
{
    let e = enc_hdr(major, v);
    lemma_index_of_subrange(b, pos, e, 0);
    assert(b[pos] == e[0]);
    if e.len() >= 2 {
        lemma_index_of_subrange(b, pos, e, 1);
        assert(b[pos + 1] == e[1]);
    }
    if e.len() >= 3 {
        lemma_index_of_subrange(b, pos, e, 2);
        assert(b[pos + 2] == e[2]);
    }
    if e.len() >= 5 {
        lemma_index_of_subrange(b, pos, e, 3);
        lemma_index_of_subrange(b, pos, e, 4);
        assert(b[pos + 3] == e[3]);
        assert(b[pos + 4] == e[4]);
    }
    if v < 24 {
        assert(b[pos] == (major * 32 + v) as u8);
        assert(b[pos] / 32 == major && b[pos] % 32 == v) by (nonlinear_arith)
            requires
                b[pos] == (major * 32 + v) as u8,
                0 <= major < 8,
                0 <= v < 24,
        ;
    } else if v < 0x100 {
        assert(b[pos] == (major * 32 + 24) as u8 && b[pos + 1] == v as u8);
        assert(b[pos] / 32 == major && b[pos] % 32 == 24) by (nonlinear_arith)
            requires
                b[pos] == (major * 32 + 24) as u8,
                0 <= major < 8,
        ;
    } else if v < 0x10000 {
        assert(b[pos] == (major * 32 + 25) as u8);
        assert(b[pos] / 32 == major && b[pos] % 32 == 25) by (nonlinear_arith)
            requires
                b[pos] == (major * 32 + 25) as u8,
                0 <= major < 8,
        ;
        assert(b[pos + 1] == (v / 0x100) as u8 && b[pos + 2] == (v % 0x100) as u8);
        assert((v / 0x100) * 256 + v % 0x100 == v) by (nonlinear_arith)
            requires
                0 <= v,
        ;
    } else {
        assert(b[pos] == (major * 32 + 26) as u8);
        assert(b[pos] / 32 == major && b[pos] % 32 == 26) by (nonlinear_arith)
            requires
                b[pos] == (major * 32 + 26) as u8,
                0 <= major < 8,
        ;
        assert(b[pos + 1] == (v / 0x1000000) as u8 && b[pos + 2] == ((v / 0x10000) % 0x100) as u8
            && b[pos + 3] == ((v / 0x100) % 0x100) as u8 && b[pos + 4] == (v % 0x100) as u8);
        assert((v / 0x1000000) * 16777216 + ((v / 0x10000) % 0x100) * 65536 + ((v / 0x100) % 0x100)
            * 256 + v % 0x100 == v) by (nonlinear_arith)
            requires
                0 <= v < 0x100000000,
        ;
    }
}

/// Parsing a byte string finds exactly what the canonical encoding put
/// there, when the encoding ends the input.
pub proof fn lemma_parse_bstr_enc(b: Seq<u8>, pos: int, content: Seq<u8>)
    requires
        0 <= content.len() < 0x100000000,
        0 <= pos,
        pos + enc_bstr(content).len() <= b.len(),
        b.subrange(pos, pos + enc_bstr(content).len() as int) == enc_bstr(content),
    ensures
        parse_bstr(b, pos) == Some((content, pos + enc_bstr(content).len() as int)),
{
    let h = enc_hdr(2, content.len() as int);
    let e = enc_bstr(content);
    assert forall|i: int| 0 <= i < h.len() implies b.subrange(pos, pos + h.len() as int)[i] == h[i]
        by {
        lemma_index_of_subrange(b, pos, e, i);
        assert(e[i] == h[i]);
    }
    assert(b.subrange(pos, pos + h.len() as int) =~= h);
    lemma_parse_hdr_enc(b, pos, 2, content.len() as int);
    let p = pos + h.len() as int;
    assert forall|i: int| 0 <= i < content.len() implies b.subrange(
        p,
        p + content.len() as int,
    )[i] == content[i] by {
        lemma_index_of_subrange(b, pos, e, h.len() + i);
        assert(e[h.len() + i] == content[i]);
    }
    assert(b.subrange(p, p + content.len() as int) =~= content);
}

/// Parsing a fixed text-string key finds exactly what the canonical
/// encoding put there.
pub proof fn lemma_parse_key_enc(b: Seq<u8>, pos: int, name: Seq<u8>)
    requires
        0 <= name.len() < 0x100000000,
        0 <= pos,
        pos + enc_text(name).len() <= b.len(),
        b.subrange(pos, pos + enc_text(name).len() as int) == enc_text(name),
    ensures
        parse_key(b, pos, name) == Some(pos + enc_text(name).len() as int),
{
    let h = enc_hdr(3, name.len() as int);
    let e = enc_text(name);
    assert forall|i: int| 0 <= i < h.len() implies b.subrange(pos, pos + h.len() as int)[i] == h[i]
        by {
        lemma_index_of_subrange(b, pos, e, i);
        assert(e[i] == h[i]);
    }
    assert(b.subrange(pos, pos + h.len() as int) =~= h);
    lemma_parse_hdr_enc(b, pos, 3, name.len() as int);
    let p = pos + h.len() as int;
    assert forall|i: int| 0 <= i < name.len() implies b.subrange(p, p + name.len() as int)[i]
        == name[i] by {
        lemma_index_of_subrange(b, pos, e, h.len() + i);
        assert(e[h.len() + i] == name[i]);
    }
    assert(b.subrange(p, p + name.len() as int) =~= name);
}

/// Parsing a text string finds exactly what the canonical encoding put
/// there.
pub proof fn lemma_parse_tstr_enc(b: Seq<u8>, pos: int, content: Seq<u8>)
    requires
        0 <= content.len() < 0x100000000,
        0 <= pos,
        pos + enc_text(content).len() <= b.len(),
        b.subrange(pos, pos + enc_text(content).len() as int) == enc_text(content),
    ensures
        parse_tstr(b, pos) == Some((content, pos + enc_text(content).len() as int)),
{
    let h = enc_hdr(3, content.len() as int);
    let e = enc_text(content);
    assert forall|i: int| 0 <= i < h.len() implies b.subrange(pos, pos + h.len() as int)[i] == h[i]
        by {
        lemma_index_of_subrange(b, pos, e, i);
        assert(e[i] == h[i]);
    }
    assert(b.subrange(pos, pos + h.len() as int) =~= h);
    lemma_parse_hdr_enc(b, pos, 3, content.len() as int);
    let p = pos + h.len() as int;
    assert forall|i: int| 0 <= i < content.len() implies b.subrange(
        p,
        p + content.len() as int,
    )[i] == content[i] by {
        lemma_index_of_subrange(b, pos, e, h.len() + i);
        assert(e[h.len() + i] == content[i]);
    }
    assert(b.subrange(p, p + content.len() as int) =~= content);
}

/// A piece identified inside `e` is the corresponding subrange of any `b`
/// that holds `e` at `pos`.
pub proof fn lemma_subrange_within(b: Seq<u8>, pos: int, e: Seq<u8>, off: int, piece: Seq<u8>)
    requires
        0 <= pos,
        pos + e.len() <= b.len(),
        b.subrange(pos, pos + e.len() as int) == e,
        0 <= off,
        off + piece.len() <= e.len(),
        e.subrange(off, off + piece.len() as int) == piece,
    ensures
        b.subrange(pos + off, pos + off + piece.len() as int) == piece,
{
    assert forall|i: int| 0 <= i < piece.len() implies b.subrange(
        pos + off,
        pos + off + piece.len() as int,
    )[i] == piece[i] by {
        lemma_index_of_subrange(b, pos, e, off + i);
        assert(e.subrange(off, off + piece.len() as int)[i] == e[off + i]);
    }
    assert(b.subrange(pos + off, pos + off + piece.len() as int) =~= piece);
}

/// Soundness of header parsing: whatever a header parse finds occupies
/// exactly the canonical encoding of its value.
pub proof fn lemma_enc_of_parsed_hdr(b: Seq<u8>, pos: int, major: int, v: int, p: int)
    requires
        0 <= major < 8,
        parse_hdr(b, pos, major) == Some((v, p)),
    ensures
        0 <= v < 0x100000000,
        p == pos + enc_hdr(major, v).len(),
        b.subrange(pos, p) == enc_hdr(major, v),
{
    let ai = b[pos] % 32;
    assert(b[pos] == major * 32 + ai) by (nonlinear_arith)
        requires
            b[pos] / 32 == major,
            ai == b[pos] % 32,
    ;
    if ai < 24 {
        assert(b.subrange(pos, p) =~= enc_hdr(major, v));
    } else if ai == 24 {
        assert(b.subrange(pos, p) =~= enc_hdr(major, v));
    } else if ai == 25 {
        let b1 = b[pos + 1] as int;
        let b2 = b[pos + 2] as int;
        assert(v == b1 * 256 + b2);
        assert(v / 0x100 == b1 && v % 0x100 == b2) by (nonlinear_arith)
            requires
                v == b1 * 256 + b2,
                0 <= b1 < 256,
                0 <= b2 < 256,
        ;
        assert(b.subrange(pos, p) =~= enc_hdr(major, v));
    } else {
        let b1 = b[pos + 1] as int;
        let b2 = b[pos + 2] as int;
        let b3 = b[pos + 3] as int;
        let b4 = b[pos + 4] as int;
        assert(v == b1 * 16777216 + b2 * 65536 + b3 * 256 + b4);
        assert(v / 0x1000000 == b1 && (v / 0x10000) % 0x100 == b2 && (v / 0x100) % 0x100 == b3 && v
            % 0x100 == b4) by (nonlinear_arith)
            requires
                v == b1 * 16777216 + b2 * 65536 + b3 * 256 + b4,
                0 <= b1 < 256,
                0 <= b2 < 256,
                0 <= b3 < 256,
                0 <= b4 < 256,
        ;
        assert(b.subrange(pos, p) =~= enc_hdr(major, v));
    }
}

/// Soundness of byte-string parsing: the parsed region is exactly the
/// canonical encoding of the returned content.
pub proof fn lemma_enc_of_parsed_bstr(b: Seq<u8>, pos: int, c: Seq<u8>, p: int)
    requires
        parse_bstr(b, pos) == Some((c, p)),
    ensures
        c.len() < 0x100000000,
        p == pos + enc_bstr(c).len(),
        b.subrange(pos, p) == enc_bstr(c),
{
    let (len, ph) = parse_hdr(b, pos, 2).unwrap();
    lemma_enc_of_parsed_hdr(b, pos, 2, len, ph);
    let h = enc_hdr(2, len);
    assert(c == b.subrange(ph, ph + len));
    assert forall|i: int| 0 <= i < p - pos implies b.subrange(pos, p)[i] == enc_bstr(c)[i] by {
        if i < h.len() {
            assert(b.subrange(pos, ph)[i] == b[pos + i]);
        } else {
            assert(b.subrange(ph, ph + len)[i - h.len()] == b[ph + (i - h.len())]);
        }
    }
    assert(b.subrange(pos, p) =~= enc_bstr(c));
}

/// Soundness of text-string parsing: the parsed region is exactly the
/// canonical encoding of the returned content.
pub proof fn lemma_enc_of_parsed_tstr(b: Seq<u8>, pos: int, c: Seq<u8>, p: int)
    requires
        parse_tstr(b, pos) == Some((c, p)),
    ensures
        c.len() < 0x100000000,
        p == pos + enc_text(c).len(),
        b.subrange(pos, p) == enc_text(c),
{
    let (len, ph) = parse_hdr(b, pos, 3).unwrap();
    lemma_enc_of_parsed_hdr(b, pos, 3, len, ph);
    let h = enc_hdr(3, len);
    assert(c == b.subrange(ph, ph + len));
    assert forall|i: int| 0 <= i < p - pos implies b.subrange(pos, p)[i] == enc_text(c)[i] by {
        if i < h.len() {
            assert(b.subrange(pos, ph)[i] == b[pos + i]);
        } else {
            assert(b.subrange(ph, ph + len)[i - h.len()] == b[ph + (i - h.len())]);
        }
    }
    assert(b.subrange(pos, p) =~= enc_text(c));
}

/// Soundness of key parsing: the parsed region is exactly the canonical
/// encoding of the expected name.
pub proof fn lemma_enc_of_parsed_key(b: Seq<u8>, pos: int, name: Seq<u8>, p: int)
    requires
        parse_key(b, pos, name) == Some(p),
    ensures
        name.len() < 0x100000000,
        p == pos + enc_text(name).len(),
        b.subrange(pos, p) == enc_text(name),
{
    let (len, ph) = parse_hdr(b, pos, 3).unwrap();
    lemma_enc_of_parsed_hdr(b, pos, 3, len, ph);
    let h = enc_hdr(3, len);
    assert forall|i: int| 0 <= i < p - pos implies b.subrange(pos, p)[i] == enc_text(name)[i] by {
        if i < h.len() {
            assert(b.subrange(pos, ph)[i] == b[pos + i]);
        } else {
            assert(b.subrange(ph, ph + len)[i - h.len()] == b[ph + (i - h.len())]);
        }
    }
    assert(b.subrange(pos, p) =~= enc_text(name));
}

/// Byte-wise equality of two slices.
pub fn bytes_eq(a: &[u8], b: &[u8]) -> (r: bool)
    ensures
        r == (a@ == b@),
{
    if a.len() != b.len() {
        return false;
    }
    let mut i: usize = 0;
    while i < a.len()
        invariant
            0 <= i <= a@.len(),
            a@.len() == b@.len(),
            forall|j: int| 0 <= j < i ==> a@[j] == b@[j],
        decreases a@.len() - i,
    {
        if a[i] != b[i] {
            return false;
        }
        i = i + 1;
    }
    proof {
        assert(a@ =~= b@);
    }
    true
}

/// Reads a canonical CBOR header of major type `major` at `pos`, exactly as
/// [`parse_hdr`] describes.
pub fn read_hdr(data: &[u8], pos: usize, major: u8) -> (r: Option<(u64, usize)>)
    requires
        major < 8,
    ensures
        match r {
            Some((v, p)) => {
                &&& parse_hdr(data@, pos as int, major as int) == Some((v as int, p as int))
                &&& pos < p <= data@.len()
                &&& v <= u32::MAX
            },
            None => parse_hdr(data@, pos as int, major as int) is None,
        },
{
    if pos >= data.len() {
        return None;
    }
    let b0: u8 = data[pos];
    if b0 / 32 != major {
        return None;
    }
    let ai: u8 = b0 % 32;
    if ai < 24 {
        Some((ai as u64, pos + 1))
    } else if ai == 24 {
        if data.len() - pos >= 2 {
            let v: u8 = data[pos + 1];
            if v >= 24 {
                Some((v as u64, pos + 2))
            } else {
                None
            }
        } else {
            None
        }
    } else if ai == 25 {
        if data.len() - pos >= 3 {
            let v: u64 = (data[pos + 1] as u64) * 256 + (data[pos + 2] as u64);
            if v >= 256 {
                Some((v, pos + 3))
            } else {
                None
            }
        } else {
            None
        }
    } else if ai == 26 {
        if data.len() - pos >= 5 {
            let hi: u64 = (data[pos + 1] as u64) * 16777216 + (data[pos + 2] as u64) * 65536;
            let v: u64 = hi + (data[pos + 3] as u64) * 256 + (data[pos + 4] as u64);
            if v >= 65536 {
                Some((v, pos + 5))
            } else {
                None
            }
        } else {
            None
        }
    } else {
        None
    }
}

/// Reads a text-string key whose content must equal `name`, exactly as
/// [`parse_key`] describes.
pub fn read_key(data: &[u8], pos: usize, name: &[u8]) -> (r: Option<usize>)
    ensures
        match r {
            Some(p) => parse_key(data@, pos as int, name@) == Some(p as int) && pos < p
                <= data@.len(),
            None => parse_key(data@, pos as int, name@) is None,
        },
{
    match read_hdr(data, pos, 3) {
        Some((len, p)) => {
            if len != name.len() as u64 {
                return None;
            }
            if data.len() - p < name.len() {
                return None;
            }
            let content = slice_subrange(data, p, p + name.len());
            if bytes_eq(content, name) {
                Some(p + name.len())
            } else {
                None
            }
        },
        None => None,
    }
}

/// Reads a byte string, exactly as [`parse_bstr`] describes.
pub fn read_bstr(data: &[u8], pos: usize) -> (r: Option<(Vec<u8>, usize)>)
    ensures
        match r {
            Some((v, p)) => {
                &&& parse_bstr(data@, pos as int) matches Some(pr) && pr.0 == v@ && pr.1 == p as int
                &&& pos < p <= data@.len()
            },
            None => parse_bstr(data@, pos as int) is None,
        },
{
    match read_hdr(data, pos, 2) {
        Some((len, p)) => {
            if ((data.len() - p) as u64) < len {
                return None;
            }
            let l: usize = len as usize;
            let content = slice_subrange(data, p, p + l);
            Some((vstd::slice::slice_to_vec(content), p + l))
        },
        None => None,
    }
}

/// Reads a text string, exactly as [`parse_tstr`] describes; the content is
/// returned as raw bytes.
pub fn read_tstr(data: &[u8], pos: usize) -> (r: Option<(Vec<u8>, usize)>)
    ensures
        match r {
            Some((v, p)) => {
                &&& parse_tstr(data@, pos as int) matches Some(pr) && pr.0 == v@ && pr.1 == p as int
                &&& pos < p <= data@.len()
            },
            None => parse_tstr(data@, pos as int) is None,
        },
{
    match read_hdr(data, pos, 3) {
        Some((len, p)) => {
            if ((data.len() - p) as u64) < len {
                return None;
            }
            let l: usize = len as usize;
            let content = slice_subrange(data, p, p + l);
            Some((vstd::slice::slice_to_vec(content), p + l))
        },
        None => None,
    }
}

} // verus!
