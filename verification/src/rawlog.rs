//! The chunked append-only raw log.
//!
//! A raw log is a 16-byte header — magic, version, target sample rate — and
//! then zero or more chunks, each a little-endian 32-bit length prefix and an
//! opaque payload.  A payload is one encoded batch of consecutive records.  A
//! zero length prefix is a reserved soft terminator: readers treat it as end
//! of file; the writer never emits it.

use vstd::bytes::{
    lemma_auto_spec_u16_to_from_le_bytes, lemma_auto_spec_u32_to_from_le_bytes,
    spec_u16_from_le_bytes, spec_u16_to_le_bytes, spec_u32_to_le_bytes, u16_from_le_bytes,
    u32_from_le_bytes, u32_to_le_bytes,
};
use vstd::prelude::*;
use vstd::slice::slice_subrange;

use crate::codec::{
    PHYS_WORDS, decode_phys_record, encode_phys_record, lemma_phys_roundtrip, phys_of_words,
    phys_words,
};
use crate::err::TelemetryError;
use crate::frames::PhysicsRecord;
use crate::shm::word_at;

verus! {

/// Version of the on-disk format.
pub const FILE_VERSION: u16 = 1;

/// Nominal publish rate of the physics stream, in Hz.
pub const TARGET_HZ: u32 = 333;

/// Nominal publish rate of the graphics stream, in Hz.
pub const GRAPHICS_TARGET_HZ: u32 = 60;

/// Records buffered before the writer seals them into one chunk (one second
/// of physics at the nominal rate).
pub const BUFFER_FLUSH_SAMPLES: usize = 333;

/// Size of the log header.
pub const HEADER_BYTES: usize = 16;

/// Magic of a physics raw log.
pub open spec fn physics_magic() -> Seq<u8> {
    seq![0x41u8, 0x43u8, 0x43u8, 0x52u8]
}

/// Magic of a graphics raw log.
pub open spec fn graphics_magic() -> Seq<u8> {
    seq![0x41u8, 0x43u8, 0x43u8, 0x47u8]
}

// ------------------------------------------------------------------ header

/// The 16 header bytes: magic, version, target rate, six reserved zero bytes.
pub open spec fn spec_header_bytes(magic: Seq<u8>, version: u16, hz: u32) -> Seq<u8> {
    magic + spec_u16_to_le_bytes(version) + spec_u32_to_le_bytes(hz) + seq![
        0u8,
        0u8,
        0u8,
        0u8,
        0u8,
        0u8,
    ]
}

/// The bytes begin with a 16-byte header carrying the given magic.
pub open spec fn spec_header_ok(b: Seq<u8>, magic: Seq<u8>) -> bool {
    b.len() >= HEADER_BYTES && b.subrange(0, 4) == magic
}

/// Version stored in a header.
pub open spec fn spec_header_version(b: Seq<u8>) -> u16 {
    spec_u16_from_le_bytes(b.subrange(4, 6))
}

/// Target sample rate stored in a header.
pub open spec fn spec_header_hz(b: Seq<u8>) -> u32 {
    word_at(b, 6)
}

/// Header magic, version and target rate survive a write-then-read, whatever
/// follows the header.
pub proof fn lemma_header_roundtrip(magic: Seq<u8>, version: u16, hz: u32, rest: Seq<u8>)
    requires
        magic.len() == 4,
    ensures
        spec_header_ok(spec_header_bytes(magic, version, hz) + rest, magic),
        spec_header_version(spec_header_bytes(magic, version, hz) + rest) == version,
        spec_header_hz(spec_header_bytes(magic, version, hz) + rest) == hz,
{
    lemma_auto_spec_u16_to_from_le_bytes();
    lemma_auto_spec_u32_to_from_le_bytes();
    let b = spec_header_bytes(magic, version, hz) + rest;
    assert(b.subrange(0, 4) =~= magic);
    assert(b.subrange(4, 6) =~= spec_u16_to_le_bytes(version));
    assert(b.subrange(6, 10) =~= spec_u32_to_le_bytes(hz));
}

/// Append the 16 header bytes.
fn push_header(out: &mut Vec<u8>, graphics: bool, version: u16, hz: u32)
    ensures
        final(out)@ == old(out)@ + spec_header_bytes(
            if graphics {
                graphics_magic()
            } else {
                physics_magic()
            },
            version,
            hz,
        ),
{
    out.push(0x41);
    out.push(0x43);
    out.push(0x43);
    if graphics {
        out.push(0x47);
    } else {
        out.push(0x52);
    }
    let vb = vstd::bytes::u16_to_le_bytes(version);
    out.push(vb[0]);
    out.push(vb[1]);
    let hb = u32_to_le_bytes(hz);
    out.push(hb[0]);
    out.push(hb[1]);
    out.push(hb[2]);
    out.push(hb[3]);
    let mut k: usize = 0;
    while k < 6
        invariant
            k <= 6,
            out@ =~= old(out)@ + (if graphics {
                graphics_magic()
            } else {
                physics_magic()
            }) + spec_u16_to_le_bytes(version) + spec_u32_to_le_bytes(hz) + Seq::new(
                k as nat,
                |i: int| 0u8,
            ),
        decreases 6 - k,
    {
        out.push(0);
        k = k + 1;
    }
    proof {
        assert(Seq::new(6, |i: int| 0u8) =~= seq![0u8, 0u8, 0u8, 0u8, 0u8, 0u8]);
        assert(out@ =~= old(out)@ + spec_header_bytes(
            if graphics {
                graphics_magic()
            } else {
                physics_magic()
            },
            version,
            hz,
        ));
    }
}

// ------------------------------------------------------------------ words

/// Little-endian byte image of a word sequence.
pub open spec fn spec_words_bytes(w: Seq<u32>) -> Seq<u8>
    decreases w.len(),
{
    if w.len() == 0 {
        Seq::empty()
    } else {
        spec_u32_to_le_bytes(w[0]) + spec_words_bytes(w.skip(1))
    }
}

/// Words read back from a byte image.
pub open spec fn spec_bytes_words(b: Seq<u8>) -> Seq<u32>
    recommends
        b.len() % 4 == 0,
{
    Seq::new((b.len() / 4) as nat, |i: int| word_at(b, 4 * i))
}

/// A word image is four bytes per word.
pub proof fn lemma_words_bytes_len(w: Seq<u32>)
    ensures
        spec_words_bytes(w).len() == 4 * w.len(),
    decreases w.len(),
{
    lemma_auto_spec_u32_to_from_le_bytes();
    if w.len() > 0 {
        lemma_words_bytes_len(w.skip(1));
    }
}

/// Appending one word to a sequence appends its four bytes to the image.
pub proof fn lemma_words_bytes_snoc(w: Seq<u32>, x: u32)
    ensures
        spec_words_bytes(w.push(x)) == spec_words_bytes(w) + spec_u32_to_le_bytes(x),
    decreases w.len(),
{
    lemma_auto_spec_u32_to_from_le_bytes();
    reveal_with_fuel(spec_words_bytes, 3);
    if w.len() == 0 {
        assert(w.push(x)[0] == x);
        assert(w.push(x).skip(1) =~= Seq::<u32>::empty());
        assert(spec_words_bytes(w.push(x)) =~= spec_words_bytes(w) + spec_u32_to_le_bytes(x));
    } else {
        lemma_words_bytes_snoc(w.skip(1), x);
        assert(w.push(x)[0] == w[0]);
        assert(w.push(x).skip(1) =~= w.skip(1).push(x));
        assert(spec_words_bytes(w.push(x)) =~= spec_words_bytes(w) + spec_u32_to_le_bytes(x));
    }
}

/// Reading the image of a word sequence yields the words.
pub proof fn lemma_words_bytes_roundtrip(w: Seq<u32>)
    ensures
        spec_words_bytes(w).len() % 4 == 0,
        spec_bytes_words(spec_words_bytes(w)) == w,
    decreases w.len(),
{
    lemma_auto_spec_u32_to_from_le_bytes();
    lemma_words_bytes_len(w);
    let b = spec_words_bytes(w);
    if w.len() == 0 {
        assert(spec_bytes_words(b) =~= w);
    } else {
        lemma_words_bytes_roundtrip(w.skip(1));
        lemma_words_bytes_len(w.skip(1));
        let tail = spec_words_bytes(w.skip(1));
        assert forall|i: int| 0 <= i < w.len() implies spec_bytes_words(b)[i] == w[i] by {
            if i == 0 {
                assert(b.subrange(0, 4) =~= spec_u32_to_le_bytes(w[0]));
            } else {
                assert(b.subrange(4 * i, 4 * i + 4) =~= tail.subrange(4 * (i - 1), 4 * (i - 1) + 4));
                assert(spec_bytes_words(tail)[i - 1] == w.skip(1)[i - 1]);
            }
        }
        assert(spec_bytes_words(b) =~= w);
    }
}

/// Append the byte image of `w` to `out`.
fn push_words_bytes(out: &mut Vec<u8>, w: &Vec<u32>)
    requires
        old(out)@.len() + 4 * w@.len() <= usize::MAX,
    ensures
        final(out)@ == old(out)@ + spec_words_bytes(w@),
{
    let mut i: usize = 0;
    while i < w.len()
        invariant
            i <= w@.len(),
            old(out)@.len() + 4 * w@.len() <= usize::MAX,
            out@ =~= old(out)@ + spec_words_bytes(w@.take(i as int)),
        decreases w@.len() - i,
    {
        let bs = u32_to_le_bytes(w[i]);
        out.push(bs[0]);
        out.push(bs[1]);
        out.push(bs[2]);
        out.push(bs[3]);
        proof {
            lemma_words_bytes_snoc(w@.take(i as int), w@[i as int]);
            assert(w@.take(i as int).push(w@[i as int]) =~= w@.take(i as int + 1));
            assert(out@ =~= old(out)@ + spec_words_bytes(w@.take(i as int + 1)));
        }
        i = i + 1;
    }
    proof {
        assert(w@.take(w@.len() as int) =~= w@);
    }
}

/// Read the words of a byte image; fails when the length is not a whole
/// number of words.
fn bytes_to_words(b: &[u8]) -> (r: Result<Vec<u32>, TelemetryError>)
    ensures
        match r {
            Ok(v) => b@.len() % 4 == 0 && v@ == spec_bytes_words(b@),
            Err(e) => b@.len() % 4 != 0 && e == TelemetryError::SerializationFailed,
        },
{
    let n = b.len();
    if n % 4 != 0 {
        return Err(TelemetryError::SerializationFailed);
    }
    let count = n / 4;
    let mut out: Vec<u32> = Vec::new();
    let mut i: usize = 0;
    while i < count
        invariant
            i <= count,
            count == b@.len() / 4,
            b@.len() % 4 == 0,
            b@.len() <= usize::MAX,
            out@ =~= Seq::new(i as nat, |k: int| word_at(b@, 4 * k)),
        decreases count - i,
    {
        let s = slice_subrange(b, 4 * i, 4 * i + 4);
        let x = u32_from_le_bytes(s);
        out.push(x);
        i = i + 1;
    }
    proof {
        assert(out@ =~= spec_bytes_words(b@));
    }
    Ok(out)
}

// ------------------------------------------------------------------ batches

/// Word count of an encoded batch: one count word plus the records.
pub open spec fn spec_batch_len(n: int) -> int {
    1 + n * PHYS_WORDS
}

/// Parse a batch payload: a count word, then that many fixed-width records.
pub open spec fn spec_parse_phys_batch(w: Seq<u32>) -> Option<Seq<PhysicsRecord>> {
    if w.len() < 1 {
        None
    } else {
        let n = w[0] as int;
        if w.len() == spec_batch_len(n) {
            Some(Seq::new(n as nat, |k: int| phys_of_words(w, 1 + k * PHYS_WORDS)))
        } else {
            None
        }
    }
}

/// Concatenated words of a record sequence.
pub open spec fn flat_phys_words(rs: Seq<PhysicsRecord>) -> Seq<u32>
    decreases rs.len(),
{
    if rs.len() == 0 {
        Seq::empty()
    } else {
        phys_words(rs[0]) + flat_phys_words(rs.skip(1))
    }
}

proof fn lemma_flat_phys_len(rs: Seq<PhysicsRecord>)
    ensures
        flat_phys_words(rs).len() == rs.len() * PHYS_WORDS,
    decreases rs.len(),
{
    if rs.len() > 0 {
        crate::codec::lemma_phys_words_len(rs[0]);
        lemma_flat_phys_len(rs.skip(1));
        assert(rs.len() * PHYS_WORDS == PHYS_WORDS + (rs.len() - 1) * PHYS_WORDS) by (nonlinear_arith);
    }
}

proof fn lemma_flat_phys_snoc(rs: Seq<PhysicsRecord>, r: PhysicsRecord)
    ensures
        flat_phys_words(rs.push(r)) == flat_phys_words(rs) + phys_words(r),
    decreases rs.len(),
{
    crate::codec::lemma_phys_words_len(r);
    reveal_with_fuel(flat_phys_words, 3);
    if rs.len() == 0 {
        assert(rs.push(r)[0] == r);
        assert(rs.push(r).skip(1) =~= Seq::<PhysicsRecord>::empty());
        assert(flat_phys_words(rs.push(r)) =~= flat_phys_words(rs) + phys_words(r));
    } else {
        crate::codec::lemma_phys_words_len(rs[0]);
        lemma_flat_phys_snoc(rs.skip(1), r);
        assert(rs.push(r)[0] == rs[0]);
        assert(rs.push(r).skip(1) =~= rs.skip(1).push(r));
        assert(flat_phys_words(rs.push(r)) =~= flat_phys_words(rs) + phys_words(r));
    }
}

proof fn lemma_flat_phys_subrange(rs: Seq<PhysicsRecord>, k: int)
    requires
        0 <= k < rs.len(),
    ensures
        flat_phys_words(rs).subrange(k * PHYS_WORDS, (k + 1) * PHYS_WORDS) == phys_words(rs[k]),
    decreases k,
{
    lemma_flat_phys_len(rs);
    lemma_flat_phys_len(rs.skip(1));
    crate::codec::lemma_phys_words_len(rs[0]);
    if k == 0 {
        assert(flat_phys_words(rs).subrange(0, PHYS_WORDS as int) =~= phys_words(rs[0]));
    } else {
        lemma_flat_phys_subrange(rs.skip(1), k - 1);
        assert((k - 1) * PHYS_WORDS == k * PHYS_WORDS - PHYS_WORDS) by (nonlinear_arith);
        assert(((k - 1) + 1) * PHYS_WORDS == (k + 1) * PHYS_WORDS - PHYS_WORDS)
            by (nonlinear_arith);
        assert(flat_phys_words(rs).subrange(k * PHYS_WORDS, (k + 1) * PHYS_WORDS)
            =~= flat_phys_words(rs.skip(1)).subrange((k - 1) * PHYS_WORDS, k * PHYS_WORDS));
    }
}

/// Encode a batch of records as payload words.
pub fn encode_phys_batch(records: &Vec<PhysicsRecord>) -> (r: Vec<u32>)
    requires
        records@.len() < 0x1_0000_0000,
        1 + records@.len() * PHYS_WORDS <= usize::MAX,
    ensures
        r@.len() == spec_batch_len(records@.len() as int),
        spec_parse_phys_batch(r@) == Some(records@),
{
    let mut out: Vec<u32> = Vec::new();
    out.push(records.len() as u32);
    let mut i: usize = 0;
    while i < records.len()
        invariant
            i <= records@.len(),
            records@.len() < 0x1_0000_0000,
            1 + records@.len() * PHYS_WORDS <= usize::MAX,
            out@ =~= seq![records@.len() as u32] + flat_phys_words(records@.take(i as int)),
            out@.len() == 1 + i * PHYS_WORDS,
        decreases records@.len() - i,
    {
        proof {
            lemma_flat_phys_snoc(records@.take(i as int), records@[i as int]);
            assert(records@.take(i as int).push(records@[i as int]) =~= records@.take(
                i as int + 1,
            ));
            crate::codec::lemma_phys_words_len(records@[i as int]);
            assert((i + 1) * PHYS_WORDS == i * PHYS_WORDS + PHYS_WORDS) by (nonlinear_arith);
            assert((i + 1) * PHYS_WORDS <= records@.len() * PHYS_WORDS) by (nonlinear_arith)
                requires i < records@.len();
        }
        encode_phys_record(&mut out, &records[i]);
        proof {
            assert(out@ =~= seq![records@.len() as u32] + flat_phys_words(
                records@.take(i as int + 1),
            ));
        }
        i = i + 1;
    }
    proof {
        assert(records@.take(records@.len() as int) =~= records@);
        lemma_flat_phys_len(records@);
        let w = out@;
        let n = records@.len() as int;
        assert(w[0] == records@.len() as u32);
        assert(w.len() == spec_batch_len(n));
        assert forall|k: int| 0 <= k < n implies phys_of_words(w, 1 + k * PHYS_WORDS)
            == records@[k] by {
            lemma_flat_phys_subrange(records@, k);
            lemma_flat_phys_len(records@);
            assert(0 <= k * PHYS_WORDS && (k + 1) * PHYS_WORDS <= n * PHYS_WORDS)
                by (nonlinear_arith)
                requires 0 <= k < n;
            assert(w.subrange(1 + k * PHYS_WORDS, 1 + k * PHYS_WORDS + PHYS_WORDS)
                =~= flat_phys_words(records@).subrange(k * PHYS_WORDS, (k + 1) * PHYS_WORDS));
            lemma_phys_roundtrip(records@[k], w, 1 + k * PHYS_WORDS);
        }
        assert(spec_parse_phys_batch(w) == Some(records@)) by {
            assert(Seq::new(n as nat, |k: int| phys_of_words(w, 1 + k * PHYS_WORDS))
                =~= records@);
        }
    }
    out
}

/// Decode a batch payload back into records.
pub fn decode_phys_batch(w: &Vec<u32>) -> (r: Result<Vec<PhysicsRecord>, TelemetryError>)
    ensures
        match r {
            Ok(v) => spec_parse_phys_batch(w@) == Some(v@),
            Err(e) => spec_parse_phys_batch(w@) is None && e == TelemetryError::SerializationFailed,
        },
{
    if w.len() < 1 {
        return Err(TelemetryError::SerializationFailed);
    }
    let n = w[0] as usize;
    if n > (w.len() - 1) / PHYS_WORDS || w.len() != 1 + n * PHYS_WORDS {
        proof {
            assert(w@.len() != spec_batch_len(w@[0] as int)) by (nonlinear_arith)
                requires
                    n == w@[0] as usize,
                    w@.len() >= 1,
                    n > (w@.len() - 1) / (PHYS_WORDS as int) || w@.len() != 1 + n * PHYS_WORDS;
        }
        return Err(TelemetryError::SerializationFailed);
    }
    let mut out: Vec<PhysicsRecord> = Vec::new();
    let mut k: usize = 0;
    while k < n
        invariant
            k <= n,
            w@.len() == 1 + n * PHYS_WORDS,
            w@.len() <= usize::MAX,
            out@ =~= Seq::new(k as nat, |j: int| phys_of_words(w@, 1 + j * PHYS_WORDS)),
        decreases n - k,
    {
        proof {
            assert(1 + k * PHYS_WORDS + PHYS_WORDS <= 1 + n * PHYS_WORDS) by (nonlinear_arith)
                requires k < n;
        }
        let rec = decode_phys_record(w, 1 + k * PHYS_WORDS);
        out.push(rec);
        proof {
            assert(out@ =~= Seq::new((k + 1) as nat, |j: int| phys_of_words(
                w@,
                1 + j * PHYS_WORDS,
            )));
        }
        k = k + 1;
    }
    proof {
        assert(spec_parse_phys_batch(w@) == Some(out@));
    }
    Ok(out)
}

// ------------------------------------------------------------------ chunks

/// Byte image of one chunk: length prefix, then the payload.
pub open spec fn spec_chunk_bytes(p: Seq<u8>) -> Seq<u8> {
    spec_u32_to_le_bytes(p.len() as u32) + p
}

/// Byte image of a chunk sequence.
pub open spec fn spec_chunks_bytes(ps: Seq<Seq<u8>>) -> Seq<u8>
    decreases ps.len(),
{
    if ps.len() == 0 {
        Seq::empty()
    } else {
        spec_chunk_bytes(ps[0]) + spec_chunks_bytes(ps.skip(1))
    }
}

/// A writable chunk payload: non-empty and shorter than the prefix can count.
pub open spec fn chunk_wf(p: Seq<u8>) -> bool {
    0 < p.len() < 0x1_0000_0000
}

/// All payloads of a sequence are writable.
pub open spec fn chunks_wf(ps: Seq<Seq<u8>>) -> bool {
    forall|i: int| 0 <= i < ps.len() ==> chunk_wf(#[trigger] ps[i])
}

/// Parse the chunk region: payloads in order, stopping cleanly at end of
/// input or at a zero length prefix.
pub open spec fn spec_parse_chunks(b: Seq<u8>) -> Option<Seq<Seq<u8>>>
    decreases b.len(),
{
    if b.len() == 0 {
        Some(Seq::empty())
    } else if b.len() < 4 {
        None
    } else {
        let n = word_at(b, 0) as int;
        if n == 0 {
            Some(Seq::empty())
        } else if 4 + n <= b.len() {
            match spec_parse_chunks(b.skip(4 + n)) {
                Some(ps) => Some(seq![b.subrange(4, 4 + n)] + ps),
                None => None,
            }
        } else {
            None
        }
    }
}

proof fn lemma_chunks_bytes_snoc(ps: Seq<Seq<u8>>, p: Seq<u8>)
    ensures
        spec_chunks_bytes(ps.push(p)) == spec_chunks_bytes(ps) + spec_chunk_bytes(p),
    decreases ps.len(),
{
    lemma_auto_spec_u32_to_from_le_bytes();
    reveal_with_fuel(spec_chunks_bytes, 3);
    if ps.len() == 0 {
        assert(ps.push(p)[0] == p);
        assert(ps.push(p).skip(1) =~= Seq::<Seq<u8>>::empty());
        assert(spec_chunks_bytes(ps.push(p)) =~= spec_chunks_bytes(ps) + spec_chunk_bytes(p));
    } else {
        lemma_chunks_bytes_snoc(ps.skip(1), p);
        assert(ps.push(p)[0] == ps[0]);
        assert(ps.push(p).skip(1) =~= ps.skip(1).push(p));
        assert(spec_chunks_bytes(ps.push(p)) =~= spec_chunks_bytes(ps) + spec_chunk_bytes(p));
    }
}

/// Parsing the image of well-formed chunks followed by anything yields those
/// chunks followed by whatever the remainder parses to.
pub proof fn lemma_parse_chunks_prepend(ps: Seq<Seq<u8>>, t: Seq<u8>)
    requires
        chunks_wf(ps),
    ensures
        spec_parse_chunks(spec_chunks_bytes(ps) + t) == match spec_parse_chunks(t) {
            Some(ts) => Some(ps + ts),
            None => None::<Seq<Seq<u8>>>,
        },
    decreases ps.len(),
{
    lemma_auto_spec_u32_to_from_le_bytes();
    if ps.len() == 0 {
        assert(spec_chunks_bytes(ps) + t =~= t);
        if spec_parse_chunks(t) is Some {
            assert(ps + spec_parse_chunks(t).unwrap() =~= spec_parse_chunks(t).unwrap());
        }
    } else {
        let p0 = ps[0];
        let rest = ps.skip(1);
        let b = spec_chunks_bytes(ps) + t;
        let n = p0.len() as int;
        assert(spec_chunks_bytes(ps) =~= spec_chunk_bytes(p0) + spec_chunks_bytes(rest));
        assert(b =~= spec_u32_to_le_bytes(p0.len() as u32) + p0 + (spec_chunks_bytes(rest) + t));
        assert(b.subrange(0, 4) =~= spec_u32_to_le_bytes(p0.len() as u32));
        assert(word_at(b, 0) == p0.len() as u32);
        assert(b.len() >= 4 + n);
        assert(b.subrange(4, 4 + n) =~= p0);
        assert(b.skip(4 + n) =~= spec_chunks_bytes(rest) + t);
        lemma_parse_chunks_prepend(rest, t);
        match spec_parse_chunks(t) {
            Some(ts) => {
                assert(spec_parse_chunks(b) == Some(seq![p0] + (rest + ts)));
                assert(seq![p0] + (rest + ts) =~= ps + ts);
            },
            None => {},
        }
    }
}

// ------------------------------------------------------------------ log

/// Decode every payload of a chunk list as a record batch.
pub open spec fn spec_decode_payloads(ps: Seq<Seq<u8>>) -> Option<Seq<Seq<PhysicsRecord>>>
    decreases ps.len(),
{
    if ps.len() == 0 {
        Some(Seq::empty())
    } else {
        let head = if ps[0].len() % 4 == 0 {
            spec_parse_phys_batch(spec_bytes_words(ps[0]))
        } else {
            None
        };
        match head {
            Some(rs) => match spec_decode_payloads(ps.skip(1)) {
                Some(t) => Some(seq![rs] + t),
                None => None,
            },
            None => None,
        }
    }
}

proof fn lemma_decode_payloads_snoc(ps: Seq<Seq<u8>>, p: Seq<u8>, rs: Seq<PhysicsRecord>)
    requires
        spec_decode_payloads(ps) is Some,
        p.len() % 4 == 0,
        spec_parse_phys_batch(spec_bytes_words(p)) == Some(rs),
    ensures
        spec_decode_payloads(ps.push(p)) == Some(spec_decode_payloads(ps).unwrap().push(rs)),
    decreases ps.len(),
{
    reveal_with_fuel(spec_decode_payloads, 3);
    if ps.len() == 0 {
        assert(ps.push(p)[0] == p);
        assert(ps.push(p).skip(1) =~= Seq::<Seq<u8>>::empty());
        assert(seq![rs] + Seq::<Seq<PhysicsRecord>>::empty() =~= spec_decode_payloads(
            ps,
        ).unwrap().push(rs));
        assert(spec_decode_payloads(ps.push(p)) == Some(
            spec_decode_payloads(ps).unwrap().push(rs),
        ));
    } else {
        lemma_decode_payloads_snoc(ps.skip(1), p, rs);
        assert(ps.push(p).skip(1) =~= ps.skip(1).push(p));
        assert(ps.push(p)[0] == ps[0]);
        let h = spec_decode_payloads(ps.skip(1)).unwrap();
        assert(spec_decode_payloads(ps).unwrap() == seq![
            spec_decode_payloads(ps).unwrap()[0],
        ] + h);
        assert(seq![spec_decode_payloads(ps).unwrap()[0]] + h.push(rs)
            =~= spec_decode_payloads(ps).unwrap().push(rs));
        assert(spec_decode_payloads(ps.push(p)) == Some(
            spec_decode_payloads(ps).unwrap().push(rs),
        ));
    }
}

/// Parse one whole physics raw log: header, then chunks, then batches; the
/// record stream is the concatenation of the batches in order.
pub open spec fn spec_parse_physics_log(b: Seq<u8>) -> Option<(u16, u32, Seq<PhysicsRecord>)> {
    if !spec_header_ok(b, physics_magic()) {
        None
    } else {
        match spec_parse_chunks(b.skip(HEADER_BYTES as int)) {
            Some(ps) => match spec_decode_payloads(ps) {
                Some(bs) => Some(
                    (spec_header_version(b), spec_header_hz(b), bs.flatten()),
                ),
                None => None,
            },
            None => None,
        }
    }
}

/// Decoding distributes over concatenation of chunk lists.
proof fn lemma_decode_payloads_append(ps1: Seq<Seq<u8>>, ps2: Seq<Seq<u8>>)
    ensures
        spec_decode_payloads(ps1 + ps2) == match spec_decode_payloads(ps1) {
            None => None::<Seq<Seq<PhysicsRecord>>>,
            Some(b1) => match spec_decode_payloads(ps2) {
                None => None::<Seq<Seq<PhysicsRecord>>>,
                Some(b2) => Some(b1 + b2),
            },
        },
    decreases ps1.len(),
{
    if ps1.len() == 0 {
        assert(ps1 + ps2 =~= ps2);
        match spec_decode_payloads(ps2) {
            Some(b2) => {
                assert(Seq::<Seq<PhysicsRecord>>::empty() + b2 =~= b2);
            },
            None => {},
        }
    } else {
        lemma_decode_payloads_append(ps1.skip(1), ps2);
        assert((ps1 + ps2)[0] == ps1[0]);
        assert((ps1 + ps2).skip(1) =~= ps1.skip(1) + ps2);
        match (spec_decode_payloads(ps1), spec_decode_payloads(ps2)) {
            (Some(b1), Some(b2)) => {
                let h = spec_decode_payloads(ps1.skip(1)).unwrap();
                assert(b1 == seq![b1[0]] + h);
                assert(seq![b1[0]] + (h + b2) =~= b1 + b2);
            },
            _ => {},
        }
    }
}

/// A chunk payload that decodes to a record batch.
pub open spec fn payload_decodes(p: Seq<u8>, rs: Seq<PhysicsRecord>) -> bool {
    p.len() % 4 == 0 && spec_parse_phys_batch(spec_bytes_words(p)) == Some(rs)
}

/// Element-wise decodability gives the decode of the whole list.
proof fn lemma_decode_payloads_all(ps: Seq<Seq<u8>>, bs: Seq<Seq<PhysicsRecord>>)
    requires
        ps.len() == bs.len(),
        forall|i: int| 0 <= i < ps.len() ==> payload_decodes(#[trigger] ps[i], bs[i]),
    ensures
        spec_decode_payloads(ps) == Some(bs),
    decreases ps.len(),
{
    if ps.len() == 0 {
        assert(bs =~= Seq::<Seq<PhysicsRecord>>::empty());
    } else {
        lemma_decode_payloads_all(ps.skip(1), bs.skip(1));
        assert(payload_decodes(ps[0], bs[0]));
        assert(seq![bs[0]] + bs.skip(1) =~= bs);
    }
}

// ------------------------------------------------------------------ writer

/// Buffered append-only writer of one physics raw log.
///
/// The writer works in memory: it accumulates records, seals each full batch
/// into a length-prefixed chunk, and hands the bytes out through
/// [`Self::take_pending`] for the unverified shell to persist.  Its
/// well-formedness invariant ties every byte handed out to the records
/// appended so far; [`lemma_physics_log_roundtrip`] turns that into the
/// round-trip guarantee.
pub struct PhysicsLogWriter {
    hz: u32,
    buffer: Vec<PhysicsRecord>,
    pending: Vec<u8>,
    sample_count: u64,
    taken: Ghost<Seq<u8>>,
    payloads: Ghost<Seq<Seq<u8>>>,
    batches: Ghost<Seq<Seq<PhysicsRecord>>>,
}

impl PhysicsLogWriter {
    /// Every byte the writer has produced: handed out or still pending.
    pub closed spec fn emitted(self) -> Seq<u8> {
        self.taken@ + self.pending@
    }

    /// Bytes already handed out through `take_pending`.
    pub closed spec fn taken_bytes(self) -> Seq<u8> {
        self.taken@
    }

    /// Every record appended so far, sealed or still buffered.
    pub closed spec fn appended(self) -> Seq<PhysicsRecord> {
        self.batches@.flatten() + self.buffer@
    }

    /// Declared target sample rate of the stream.
    pub closed spec fn target_hz(self) -> u32 {
        self.hz
    }

    /// No record is still waiting in the in-memory batch.
    pub closed spec fn drained(self) -> bool {
        self.buffer@.len() == 0
    }

    /// Records waiting in the in-memory batch, not yet sealed into a chunk.
    pub closed spec fn buffered(self) -> nat {
        self.buffer@.len()
    }

    /// Invariant conjuncts with an explicit bound on the in-memory batch.
    spec fn wf_at(self, bound: int) -> bool {
        &&& self.emitted() == spec_header_bytes(physics_magic(), FILE_VERSION, self.hz)
            + spec_chunks_bytes(self.payloads@)
        &&& chunks_wf(self.payloads@)
        &&& self.payloads@.len() == self.batches@.len()
        &&& forall|i: int|
            0 <= i < self.payloads@.len() ==> payload_decodes(
                #[trigger] self.payloads@[i],
                self.batches@[i],
            )
        &&& self.buffer@.len() <= bound
        &&& self.sample_count as int == self.appended().len()
    }

    /// The writer's invariant: the bytes produced so far are exactly a
    /// header followed by well-formed chunks whose payloads decode, in
    /// order, to the sealed records.
    pub closed spec fn wf(self) -> bool {
        self.wf_at(BUFFER_FLUSH_SAMPLES as int)
    }

    /// Open a new log: the 16-byte header is produced immediately.
    pub fn new(hz: u32) -> (r: PhysicsLogWriter)
        ensures
            r.wf(),
            r.appended() == Seq::<PhysicsRecord>::empty(),
            r.target_hz() == hz,
            r.drained(),
            r.taken_bytes() == Seq::<u8>::empty(),
            r.emitted() == spec_header_bytes(physics_magic(), FILE_VERSION, hz),
    {
        let mut pending: Vec<u8> = Vec::new();
        push_header(&mut pending, false, FILE_VERSION, hz);
        let r = PhysicsLogWriter {
            hz,
            buffer: Vec::new(),
            pending,
            sample_count: 0,
            taken: Ghost(Seq::empty()),
            payloads: Ghost(Seq::empty()),
            batches: Ghost(Seq::empty()),
        };
        proof {
            assert(r.batches@.flatten() =~= Seq::<PhysicsRecord>::empty());
            assert(r.emitted() =~= spec_header_bytes(physics_magic(), FILE_VERSION, hz));
            assert(r.appended() =~= Seq::<PhysicsRecord>::empty());
        }
        r
    }

    /// Seal the buffered records, if any, into one chunk.
    fn seal(&mut self)
        requires
            old(self).wf_at(BUFFER_FLUSH_SAMPLES as int + 1),
        ensures
            final(self).wf(),
            final(self).appended() == old(self).appended(),
            final(self).target_hz() == old(self).target_hz(),
            final(self).taken_bytes() == old(self).taken_bytes(),
            final(self).drained(),
    {
        if self.buffer.len() == 0 {
            return;
        }
        let words = encode_phys_batch(&self.buffer);
        let mut payload: Vec<u8> = Vec::new();
        proof {
            lemma_words_bytes_len(words@);
        }
        push_words_bytes(&mut payload, &words);
        let plen = payload.len() as u32;
        let lenb = u32_to_le_bytes(plen);
        self.pending.push(lenb[0]);
        self.pending.push(lenb[1]);
        self.pending.push(lenb[2]);
        self.pending.push(lenb[3]);
        let ghost p = payload@;
        let ghost sealed_batch = self.buffer@;
        self.pending.append(&mut payload);
        let ghost old_payloads = self.payloads@;
        let ghost old_batches = self.batches@;
        proof {
            self.payloads@ = old_payloads.push(p);
            self.batches@ = old_batches.push(sealed_batch);
        }
        self.buffer = Vec::new();
        proof {
            lemma_auto_spec_u32_to_from_le_bytes();
            lemma_words_bytes_roundtrip(words@);
            assert(payload_decodes(p, sealed_batch));
            lemma_chunks_bytes_snoc(old_payloads, p);
            assert(lenb@ == spec_u32_to_le_bytes(plen));
            assert(spec_chunk_bytes(p) =~= spec_u32_to_le_bytes(plen) + p);
            assert(self.pending@ =~= old(self).pending@ + spec_chunk_bytes(p));
            assert(self.emitted() =~= old(self).emitted() + spec_chunk_bytes(p));
            assert(self.emitted() =~= spec_header_bytes(physics_magic(), FILE_VERSION, self.hz)
                + spec_chunks_bytes(self.payloads@));
            old_batches.lemma_flatten_push(sealed_batch);
            assert(self.appended() =~= old(self).appended());
        }
    }

    /// Append one record; a full batch of [`BUFFER_FLUSH_SAMPLES`] records is
    /// sealed into a chunk at once.
    pub fn record(&mut self, rec: PhysicsRecord)
        requires
            old(self).wf(),
            old(self).appended().len() < u64::MAX,
        ensures
            final(self).wf(),
            final(self).appended() == old(self).appended().push(rec),
            final(self).target_hz() == old(self).target_hz(),
            final(self).taken_bytes() == old(self).taken_bytes(),
            final(self).buffered() == if old(self).buffered() + 1 >= BUFFER_FLUSH_SAMPLES {
                0
            } else {
                old(self).buffered() + 1
            },
    {
        self.buffer.push(rec);
        self.sample_count = self.sample_count + 1;
        proof {
            assert(self.appended() =~= old(self).appended().push(rec));
        }
        if self.buffer.len() >= BUFFER_FLUSH_SAMPLES {
            self.seal();
        }
    }

    /// Seal whatever is buffered: after this every appended record is in a
    /// chunk.
    pub fn flush(&mut self)
        requires
            old(self).wf(),
        ensures
            final(self).wf(),
            final(self).appended() == old(self).appended(),
            final(self).target_hz() == old(self).target_hz(),
            final(self).taken_bytes() == old(self).taken_bytes(),
            final(self).drained(),
    {
        self.seal();
    }

    /// Hand out the bytes produced since the last call, in order.
    pub fn take_pending(&mut self) -> (r: Vec<u8>)
        requires
            old(self).wf(),
        ensures
            final(self).wf(),
            final(self).appended() == old(self).appended(),
            final(self).target_hz() == old(self).target_hz(),
            final(self).emitted() == old(self).emitted(),
            final(self).drained() == old(self).drained(),
            final(self).taken_bytes() == old(self).taken_bytes() + r@,
            old(self).emitted() == old(self).taken_bytes() + r@,
    {
        let mut out: Vec<u8> = Vec::new();
        out.append(&mut self.pending);
        proof {
            self.taken@ = self.taken@ + out@;
            assert(self.emitted() =~= old(self).emitted());
        }
        out
    }

    /// Number of records appended so far.
    pub fn sample_count(&self) -> (r: u64)
        requires
            self.wf(),
        ensures
            r as int == self.appended().len(),
    {
        self.sample_count
    }
}

/// A flushed writer's byte stream parses back to exactly the appended
/// records, under the header it was opened with.
///
/// This is the raw-log round trip: the concatenation of chunk payloads,
/// decoded in order, is the appended record sequence, and magic, version and
/// target rate survive the write-then-read.
pub proof fn lemma_physics_log_roundtrip(w: PhysicsLogWriter)
    requires
        w.wf(),
        w.drained(),
    ensures
        spec_parse_physics_log(w.emitted()) == Some(
            (FILE_VERSION, w.target_hz(), w.appended()),
        ),
{
    lemma_auto_spec_u16_to_from_le_bytes();
    lemma_auto_spec_u32_to_from_le_bytes();
    let hdr = spec_header_bytes(physics_magic(), FILE_VERSION, w.target_hz());
    let body = spec_chunks_bytes(w.payloads@);
    lemma_header_roundtrip(physics_magic(), FILE_VERSION, w.target_hz(), body);
    assert(w.emitted() == hdr + body);
    assert(w.emitted().skip(HEADER_BYTES as int) =~= body + Seq::<u8>::empty());
    lemma_parse_chunks_prepend(w.payloads@, Seq::empty());
    assert(spec_parse_chunks(Seq::<u8>::empty()) == Some(Seq::<Seq<u8>>::empty()));
    assert(w.payloads@ + Seq::<Seq<u8>>::empty() =~= w.payloads@);
    lemma_decode_payloads_all(w.payloads@, w.batches@);
    assert(w.appended() =~= w.batches@.flatten());
}

// ------------------------------------------------------------------ reader

/// Read a whole physics raw log back into records.
///
/// Stops cleanly at end of input or at a zero length prefix; fails on a
/// truncated chunk or an undecodable payload, exactly when the parse
/// function fails.
pub fn read_physics_log(bytes: &Vec<u8>) -> (r: Result<(u16, u32, Vec<PhysicsRecord>), TelemetryError>)
    ensures
        match r {
            Ok((v, hz, recs)) => spec_parse_physics_log(bytes@) == Some((v, hz, recs@)),
            Err(e) => {
                &&& spec_parse_physics_log(bytes@) is None
                &&& (e == TelemetryError::IoError || e == TelemetryError::SerializationFailed)
            },
        },
{
    broadcast use vstd::seq_lib::group_seq_properties;

    let n = bytes.len();
    if n < HEADER_BYTES {
        return Err(TelemetryError::IoError);
    }
    if !(bytes[0] == 0x41 && bytes[1] == 0x43 && bytes[2] == 0x43 && bytes[3] == 0x52) {
        proof {
            assert(bytes@.subrange(0, 4)[0] == bytes@[0]);
            assert(bytes@.subrange(0, 4)[1] == bytes@[1]);
            assert(bytes@.subrange(0, 4)[2] == bytes@[2]);
            assert(bytes@.subrange(0, 4)[3] == bytes@[3]);
            assert(bytes@.subrange(0, 4) != physics_magic());
        }
        return Err(TelemetryError::IoError);
    }
    proof {
        assert(bytes@.subrange(0, 4) =~= physics_magic());
    }
    let version = u16_from_le_bytes(slice_subrange(bytes.as_slice(), 4, 6));
    let hz = u32_from_le_bytes(slice_subrange(bytes.as_slice(), 6, 10));
    proof {
        assert(version == spec_header_version(bytes@));
        assert(bytes@.subrange(6, 10) =~= bytes@.subrange(6int, 10int));
        assert(hz == spec_header_hz(bytes@));
    }
    let mut pos: usize = HEADER_BYTES;
    let mut out: Vec<PhysicsRecord> = Vec::new();
    let ghost mut done: Seq<Seq<u8>> = Seq::empty();
    let ghost mut batches: Seq<Seq<PhysicsRecord>> = Seq::empty();
    proof {
        assert(bytes@.skip(16) =~= spec_chunks_bytes(done) + bytes@.skip(pos as int));
        assert(batches.flatten() =~= out@);
    }
    while pos < n
        invariant
            HEADER_BYTES <= pos <= n,
            n == bytes@.len(),
            n <= usize::MAX,
            spec_header_ok(bytes@, physics_magic()),
            version == spec_header_version(bytes@),
            hz == spec_header_hz(bytes@),
            chunks_wf(done),
            bytes@.skip(HEADER_BYTES as int) == spec_chunks_bytes(done) + bytes@.skip(pos as int),
            spec_decode_payloads(done) == Some(batches),
            out@ == batches.flatten(),
        decreases n - pos,
    {
        if n - pos < 4 {
            proof {
                assert(bytes@.skip(pos as int).len() < 4);
                assert(bytes@.skip(pos as int).len() > 0);
                assert(spec_parse_chunks(bytes@.skip(pos as int)) is None);
                lemma_parse_chunks_prepend(done, bytes@.skip(pos as int));
            }
            return Err(TelemetryError::SerializationFailed);
        }
        let clen = u32_from_le_bytes(slice_subrange(bytes.as_slice(), pos, pos + 4)) as usize;
        proof {
            assert(bytes@.subrange(pos as int, pos as int + 4) =~= bytes@.skip(
                pos as int,
            ).subrange(0, 4));
            assert(clen == word_at(bytes@.skip(pos as int), 0));
        }
        if clen == 0 {
            proof {
                assert(spec_parse_chunks(bytes@.skip(pos as int)) == Some(Seq::<Seq<u8>>::empty()));
                lemma_parse_chunks_prepend(done, bytes@.skip(pos as int));
                assert(done + Seq::<Seq<u8>>::empty() =~= done);
                assert(spec_parse_physics_log(bytes@) == Some((version, hz, out@)));
            }
            return Ok((version, hz, out));
        }
        if clen > n - pos - 4 {
            proof {
                assert(4 + clen > bytes@.skip(pos as int).len());
                assert(spec_parse_chunks(bytes@.skip(pos as int)) is None);
                lemma_parse_chunks_prepend(done, bytes@.skip(pos as int));
            }
            return Err(TelemetryError::SerializationFailed);
        }
        let payload_slice = slice_subrange(bytes.as_slice(), pos + 4, pos + 4 + clen);
        let ghost p = payload_slice@;
        let ghost tail = bytes@.skip(pos as int + 4 + clen as int);
        proof {
            assert(p =~= bytes@.skip(pos as int).subrange(4, 4 + clen as int));
            assert(bytes@.skip(pos as int).skip(4 + clen as int) =~= tail);
        }
        let decoded = match bytes_to_words(payload_slice) {
            Ok(words) => decode_phys_batch(&words),
            Err(e) => Err(e),
        };
        let mut chunk_records = match decoded {
            Ok(v) => v,
            Err(e) => {
                proof {
                    // The chunk list may or may not parse past this point; on
                    // either branch the whole log parse fails.
                    match spec_parse_chunks(tail) {
                        Some(ts) => {
                            assert(spec_parse_chunks(bytes@.skip(pos as int)) == Some(
                                seq![p] + ts,
                            ));
                            lemma_parse_chunks_prepend(done, bytes@.skip(pos as int));
                            lemma_decode_payloads_append(done, seq![p] + ts);
                            assert((seq![p] + ts)[0] == p);
                            assert(spec_decode_payloads(seq![p] + ts) is None);
                            assert(spec_parse_chunks(bytes@.skip(HEADER_BYTES as int)) == Some(
                                done + (seq![p] + ts),
                            ));
                        },
                        None => {
                            assert(spec_parse_chunks(bytes@.skip(pos as int)) is None);
                            lemma_parse_chunks_prepend(done, bytes@.skip(pos as int));
                        },
                    }
                }
                return Err(TelemetryError::SerializationFailed);
            },
        };
        let ghost rs = chunk_records@;
        out.append(&mut chunk_records);
        proof {
            lemma_decode_payloads_snoc(done, p, rs);
            batches.lemma_flatten_push(rs);
            lemma_chunks_bytes_snoc(done, p);
            lemma_auto_spec_u32_to_from_le_bytes();
            assert(spec_chunk_bytes(p) =~= bytes@.subrange(
                pos as int,
                pos as int + 4 + clen as int,
            ));
            assert(bytes@.skip(pos as int) =~= bytes@.subrange(
                pos as int,
                pos as int + 4 + clen as int,
            ) + tail);
            done = done.push(p);
            batches = batches.push(rs);
            assert(bytes@.skip(HEADER_BYTES as int) =~= spec_chunks_bytes(done) + tail);
        }
        pos = pos + 4 + clen;
    }
    proof {
        assert(bytes@.skip(pos as int) =~= Seq::<u8>::empty());
        assert(spec_parse_chunks(bytes@.skip(pos as int)) == Some(Seq::<Seq<u8>>::empty()));
        lemma_parse_chunks_prepend(done, bytes@.skip(pos as int));
        assert(done + Seq::<Seq<u8>>::empty() =~= done);
        assert(spec_parse_physics_log(bytes@) == Some((version, hz, out@)));
    }
    Ok((version, hz, out))
}

} // verus!
