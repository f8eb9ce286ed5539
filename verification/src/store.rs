//! The processed-metadata dedup store: a set of SHA-256 digests, each
//! persisted by the storage collaborator as a zero-length object named by
//! the digest's lowercase-hex form under the `/meta/` prefix. The store here
//! is the verified model of that convention: membership and idempotent
//! insertion; the driver mirrors insertions onto the filesystem using
//! [`MetadataStore::hash_path`].

use vstd::prelude::*;
use vstd::slice::slice_to_vec;
use vstd::string::StringExecFns;

verus! {

/// The lowercase-hex digit for a value in 0..16, as an ASCII code.
pub open spec fn spec_hex_digit(v: int) -> u8 {
    if v < 10 {
        (48 + v) as u8
    } else {
        (87 + v) as u8
    }
}

/// The lowercase-hex form of a byte string, as ASCII codes, two digits per
/// byte.
pub open spec fn spec_hex(b: Seq<u8>) -> Seq<u8>
    decreases b.len(),
{
    if b.len() == 0 {
        Seq::empty()
    } else {
        spec_hex(b.drop_last()) + seq![
            spec_hex_digit(b.last() as int / 16),
            spec_hex_digit(b.last() as int % 16),
        ]
    }
}

/// Whether the characters of `s` are exactly the ASCII codes `b`.
pub open spec fn matches_ascii(s: Seq<char>, b: Seq<u8>) -> bool {
    &&& s.len() == b.len()
    &&& forall|i: int| 0 <= i < s.len() ==> s[i] as u32 == b[i] as u32
}

/// The effect of storing a hash: nothing if it is already present, else one
/// new entry.
pub open spec fn spec_store(s: Seq<Seq<u8>>, h: Seq<u8>) -> Seq<Seq<u8>> {
    if s.contains(h) {
        s
    } else {
        s.push(h)
    }
}

/// Relies on `String::from_utf8`: ASCII bytes are valid UTF-8 and decode to
/// the characters with the same code points.
#[verifier::external_body]
fn ascii_to_string(bytes: Vec<u8>) -> (r: String)
    requires
        forall|i: int| 0 <= i < bytes@.len() ==> bytes@[i] < 128,
    ensures
        matches_ascii(r@, bytes@),
{
    String::from_utf8(bytes).unwrap_or_default()
}

/// The set of already-processed metadata hashes.
pub struct MetadataStore {
    entries: Vec<Vec<u8>>,
}

impl View for MetadataStore {
    type V = Seq<Seq<u8>>;

    closed spec fn view(&self) -> Seq<Seq<u8>> {
        self.entries@.map_values(|e: Vec<u8>| e@)
    }
}

impl MetadataStore {
    /// An empty store.
    pub fn new() -> (r: MetadataStore)
        ensures
            r@ == Seq::<Seq<u8>>::empty(),
    {
        let r = MetadataStore { entries: Vec::new() };
        proof {
            assert(r@ =~= Seq::<Seq<u8>>::empty());
        }
        r
    }

    /// How many hashes are stored.
    pub fn len(&self) -> (r: usize)
        ensures
            r == self@.len(),
    {
        self.entries.len()
    }

    /// Whether `hash` has already been stored.
    pub fn have_metadata_hash(&self, hash: &[u8]) -> (r: bool)
        ensures
            r == self@.contains(hash@),
    {
        let mut i: usize = 0;
        while i < self.entries.len()
            invariant
                0 <= i <= self.entries@.len(),
                forall|j: int| 0 <= j < i ==> self.entries@[j]@ != hash@,
            decreases self.entries@.len() - i,
        {
            if crate::cbor::bytes_eq(self.entries[i].as_slice(), hash) {
                assert(self@[i as int] == hash@);
                return true;
            }
            i = i + 1;
        }
        proof {
            assert(forall|j: int| 0 <= j < self@.len() ==> self@[j] == self.entries@[j]@);
        }
        false
    }

    /// Stores `hash`, doing nothing when it is already present: storing the
    /// same hash again leaves the store unchanged.
    pub fn store_metadata_hash(&mut self, hash: &[u8])
        ensures
            final(self)@ == spec_store(old(self)@, hash@),
    {
        if !self.have_metadata_hash(hash) {
            let entry: Vec<u8> = slice_to_vec(hash);
            self.entries.push(entry);
            proof {
                assert(final(self)@ =~= spec_store(old(self)@, hash@));
            }
        }
    }

    /// The lowercase-hex name of a hash.
    pub fn format_hash(hash: &[u8]) -> (r: String)
        ensures
            matches_ascii(r@, spec_hex(hash@)),
    {
        let mut out: Vec<u8> = Vec::new();
        let mut i: usize = 0;
        while i < hash.len()
            invariant
                0 <= i <= hash@.len(),
                out@ == spec_hex(hash@.subrange(0, i as int)),
                forall|j: int| 0 <= j < out@.len() ==> out@[j] < 128,
            decreases hash@.len() - i,
        {
            let b: u8 = hash[i];
            let hi: u8 = b / 16;
            let lo: u8 = b % 16;
            let hi_d: u8 = if hi < 10 {
                48 + hi
            } else {
                87 + hi
            };
            let lo_d: u8 = if lo < 10 {
                48 + lo
            } else {
                87 + lo
            };
            out.push(hi_d);
            out.push(lo_d);
            proof {
                let pre = hash@.subrange(0, i as int);
                let cur = hash@.subrange(0, i + 1);
                assert(cur.drop_last() =~= pre);
                assert(cur.last() == hash@[i as int]);
                assert(out@ =~= spec_hex(cur));
            }
            i = i + 1;
        }
        proof {
            assert(hash@.subrange(0, hash@.len() as int) =~= hash@);
        }
        ascii_to_string(out)
    }

    /// The persisted object name for a hash: the `/meta/` prefix followed by
    /// its lowercase-hex form.
    pub fn hash_path(hash: &[u8]) -> (r: String)
        ensures
            r@.len() == 6 + spec_hex(hash@).len(),
            r@.subrange(0, 6) == "/meta/"@,
            matches_ascii(r@.subrange(6, r@.len() as int), spec_hex(hash@)),
    {
        let hex = Self::format_hash(hash);
        proof {
            reveal_strlit("/meta/");
        }
        let mut r = String::from_str("/meta/");
        r.append(hex.as_str());
        proof {
            assert(r@.subrange(0, 6) =~= "/meta/"@);
            assert(r@.subrange(6, r@.len() as int) =~= hex@);
        }
        r
    }
}

/// Storing a hash makes it present at once; storing it a second time changes
/// nothing; and when it was absent, exactly one entry is appended.
pub proof fn lemma_store_idempotent(s: Seq<Seq<u8>>, h: Seq<u8>)
    ensures
        spec_store(s, h).contains(h),
        spec_store(spec_store(s, h), h) == spec_store(s, h),
        !s.contains(h) ==> spec_store(s, h) == s.push(h),
        s.contains(h) ==> spec_store(s, h) == s,
{
    if !s.contains(h) {
        assert(s.push(h)[s.len() as int] == h);
    }
}

/// Storing never introduces a duplicate entry: a store with pairwise
/// distinct entries keeps exactly one entry per stored hash.
pub proof fn lemma_store_no_duplicates(s: Seq<Seq<u8>>, h: Seq<u8>)
    requires
        s.no_duplicates(),
    ensures
        spec_store(s, h).no_duplicates(),
{
    if !s.contains(h) {
        let t = s.push(h);
        assert forall|i: int, j: int|
            0 <= i < t.len() && 0 <= j < t.len() && i != j implies t[i] != t[j] by {
            if i < s.len() && j < s.len() {
                assert(t[i] == s[i] && t[j] == s[j]);
            } else if i < s.len() {
                assert(t[j] == h && t[i] == s[i]);
                assert(s.contains(s[i]));
            } else {
                assert(t[i] == h && t[j] == s[j]);
                assert(s.contains(s[j]));
            }
        }
    }
}

} // verus!
