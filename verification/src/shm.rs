//! Bounds-checked reads over a snapshot of a shared-memory segment.
//!
//! The producer publishes three named segments of fixed byte size.  The
//! unverified shell opens the mapping and hands the library a byte snapshot;
//! everything from there on is checked: a read of `offset + size` bytes
//! succeeds exactly when it fits inside the segment, and a wide-string read
//! never reaches past the end of the mapping.

use vstd::bytes::{spec_u16_from_le_bytes, spec_u32_from_le_bytes, u16_from_le_bytes, u32_from_le_bytes};
use vstd::prelude::*;
use vstd::slice::slice_subrange;

use crate::err::TelemetryError;

verus! {

/// Declared size of the high-rate physics segment.
pub const PHYSICS_SEGMENT_BYTES: usize = 800;

/// Declared size of the medium-rate graphics segment.
pub const GRAPHICS_SEGMENT_BYTES: usize = 1588;

/// Declared size of the static session-configuration segment.
pub const STATICS_SEGMENT_BYTES: usize = 784;

/// The 32-bit little-endian word starting at `off`.
pub open spec fn word_at(b: Seq<u8>, off: int) -> u32
    recommends
        0 <= off,
        off + 4 <= b.len(),
{
    spec_u32_from_le_bytes(b.subrange(off, off + 4))
}

/// The 16-bit little-endian cell starting at `off`.
pub open spec fn cell_at(b: Seq<u8>, off: int) -> u16
    recommends
        0 <= off,
        off + 2 <= b.len(),
{
    spec_u16_from_le_bytes(b.subrange(off, off + 2))
}

/// The signed value encoded by a 32-bit word (two's complement).
pub open spec fn word_as_i32(w: u32) -> int {
    if w < 0x8000_0000 {
        w as int
    } else {
        w as int - 0x1_0000_0000
    }
}

/// The word that encodes a signed value (two's complement).
pub open spec fn i32_as_word(x: i32) -> u32 {
    if x >= 0 {
        x as u32
    } else {
        (x + 0x1_0000_0000) as u32
    }
}

/// Truth value the producer encodes as a 32-bit word: zero is false.
pub open spec fn word_as_bool(w: u32) -> bool {
    w != 0
}

/// Decoding and encoding of two's-complement words invert each other.
pub proof fn lemma_word_i32_roundtrip(x: i32, w: u32)
    ensures
        word_as_i32(i32_as_word(x)) == x as int,
        i32_as_word(spec_word_to_i32_value(w)) == w,
{
}

/// The `i32` whose mathematical value is `word_as_i32(w)`.
pub open spec fn spec_word_to_i32_value(w: u32) -> i32 {
    word_as_i32(w) as i32
}

/// Exec conversion of a raw word to the signed field it encodes.
pub fn word_to_i32(w: u32) -> (r: i32)
    ensures
        r as int == word_as_i32(w),
        r == spec_word_to_i32_value(w),
{
    if w < 0x8000_0000 {
        w as i32
    } else {
        ((w as i64) - 0x1_0000_0000) as i32
    }
}

/// Exec conversion of a signed field back to its raw word.
pub fn i32_to_word(x: i32) -> (r: u32)
    ensures
        r == i32_as_word(x),
{
    if x >= 0 {
        x as u32
    } else {
        ((x as i64) + 0x1_0000_0000) as u32
    }
}

/// The wide-string cells `b` holds from `off` on: at most `n` cells, clipped
/// to what lies inside the segment.
pub open spec fn wide_cells(b: Seq<u8>, off: int, n: int) -> Seq<u16>
    recommends
        0 <= off <= b.len(),
        0 <= n,
{
    Seq::new(avail_cells(b, off, n) as nat, |i: int| cell_at(b, off + 2 * i))
}

/// How many whole cells of an `n`-cell read lie inside the segment.
pub open spec fn avail_cells(b: Seq<u8>, off: int, n: int) -> int {
    let fit = (b.len() - off) / 2;
    if n <= fit {
        n
    } else {
        fit
    }
}

/// The prefix of `cells` before its first zero cell.
pub open spec fn take_until_nul(cells: Seq<u16>) -> Seq<u16>
    decreases cells.len(),
{
    if cells.len() == 0 {
        cells
    } else if cells[0] == 0 {
        Seq::empty()
    } else {
        seq![cells[0]] + take_until_nul(cells.skip(1))
    }
}

/// `take_until_nul` yields a zero-free prefix no longer than its input.
pub proof fn lemma_take_until_nul(cells: Seq<u16>)
    ensures
        take_until_nul(cells).len() <= cells.len(),
        forall|i: int|
            0 <= i < take_until_nul(cells).len() ==> #[trigger] take_until_nul(cells)[i] != 0
                && take_until_nul(cells)[i] == cells[i],
    decreases cells.len(),
{
    if cells.len() > 0 && cells[0] != 0 {
        lemma_take_until_nul(cells.skip(1));
    }
}

/// A cell in the UTF-16 surrogate range: not a scalar value on its own.
pub open spec fn is_surrogate_cell(c: u16) -> bool {
    0xd800 <= c && c < 0xe000
}

/// A decoded wide string: every cell a scalar value.
pub open spec fn wide_ok(cells: Seq<u16>) -> bool {
    forall|i: int| 0 <= i < cells.len() ==> !is_surrogate_cell(#[trigger] cells[i])
}

/// What a wide-string read of capacity `cap` at `off` returns on success:
/// cells up to the first terminator, capped at `cap - 1` characters.
pub open spec fn spec_wide_read(b: Seq<u8>, off: int, cap: int) -> Seq<u16> {
    take_until_nul(wide_cells(b, off, cap - 1))
}

/// A wide-string read succeeds: it starts inside the segment and every
/// returned cell is a scalar value.
pub open spec fn spec_wide_read_ok(b: Seq<u8>, off: int, cap: int) -> bool {
    off < b.len() && wide_ok(spec_wide_read(b, off, cap))
}

/// A read-only snapshot of one shared-memory segment.
pub struct Segment {
    bytes: Vec<u8>,
}

impl View for Segment {
    type V = Seq<u8>;

    closed spec fn view(&self) -> Seq<u8> {
        self.bytes@
    }
}

impl Segment {
    /// Wrap a byte snapshot taken from the mapping.
    pub fn from_bytes(bytes: Vec<u8>) -> (r: Segment)
        ensures
            r@ == bytes@,
    {
        Segment { bytes }
    }

    /// Size of the segment in bytes.
    pub fn size(&self) -> (r: usize)
        ensures
            r == self@.len(),
    {
        self.bytes.len()
    }

    /// Read the little-endian 32-bit word at `off`.
    ///
    /// Succeeds exactly when `off + 4` fits inside the segment; a read whose
    /// end coincides with the segment end is in bounds.
    pub fn read_u32_at(&self, off: usize) -> (r: Result<u32, TelemetryError>)
        ensures
            match r {
                Ok(w) => off + 4 <= self@.len() && w == word_at(self@, off as int),
                Err(e) => off + 4 > self@.len() && e == TelemetryError::OutOfBounds,
            },
    {
        if self.bytes.len() < 4 || off > self.bytes.len() - 4 {
            return Err(TelemetryError::OutOfBounds);
        }
        let s = slice_subrange(self.bytes.as_slice(), off, off + 4);
        Ok(u32_from_le_bytes(s))
    }

    /// Read the signed 32-bit field at `off`.
    pub fn read_i32_at(&self, off: usize) -> (r: Result<i32, TelemetryError>)
        ensures
            match r {
                Ok(x) => off + 4 <= self@.len() && x as int == word_as_i32(
                    word_at(self@, off as int),
                ),
                Err(e) => off + 4 > self@.len() && e == TelemetryError::OutOfBounds,
            },
    {
        match self.read_u32_at(off) {
            Ok(w) => Ok(word_to_i32(w)),
            Err(e) => Err(e),
        }
    }

    /// Read the 32-bit truth value at `off` (non-zero is true).
    pub fn read_bool_at(&self, off: usize) -> (r: Result<bool, TelemetryError>)
        ensures
            match r {
                Ok(x) => off + 4 <= self@.len() && x == word_as_bool(word_at(self@, off as int)),
                Err(e) => off + 4 > self@.len() && e == TelemetryError::OutOfBounds,
            },
    {
        match self.read_u32_at(off) {
            Ok(w) => Ok(w != 0),
            Err(e) => Err(e),
        }
    }

    /// Read a fixed-capacity wide string at `off`.
    ///
    /// Returns the cells before the first terminator, at most `cap - 1` of
    /// them, never reading past the segment.  Fails with `OutOfBounds` when
    /// `off` is not inside the segment, and with `InvalidUtf16` when a
    /// returned cell is a lone surrogate.
    pub fn read_wide_at(&self, off: usize, cap: usize) -> (r: Result<Vec<u16>, TelemetryError>)
        requires
            cap >= 1,
        ensures
            match r {
                Ok(v) => spec_wide_read_ok(self@, off as int, cap as int) && v@ == spec_wide_read(
                    self@,
                    off as int,
                    cap as int,
                ),
                Err(e) => {
                    &&& (e == TelemetryError::OutOfBounds <==> off >= self@.len())
                    &&& (e == TelemetryError::OutOfBounds || e == TelemetryError::InvalidUtf16)
                    &&& !spec_wide_read_ok(self@, off as int, cap as int)
                },
            },
    {
        if off >= self.bytes.len() {
            return Err(TelemetryError::OutOfBounds);
        }
        let ghost cells = wide_cells(self@, off as int, cap as int - 1);
        let fit = (self.bytes.len() - off) / 2;
        let n = if cap - 1 <= fit {
            cap - 1
        } else {
            fit
        };
        assert(n == avail_cells(self@, off as int, cap as int - 1));
        let mut out: Vec<u16> = Vec::new();
        let mut i: usize = 0;
        while i < n
            invariant
                0 <= i <= n,
                n == cells.len(),
                off + 2 * n <= self@.len(),
                self@.len() <= usize::MAX,
                cells == wide_cells(self@, off as int, cap as int - 1),
                forall|j: int| 0 <= j < i ==> #[trigger] cells[j] != 0,
                out@ =~= cells.take(i as int),
                wide_ok(out@),
            decreases n - i,
        {
            let s = slice_subrange(self.bytes.as_slice(), off + 2 * i, off + 2 * i + 2);
            let c = u16_from_le_bytes(s);
            assert(c == cells[i as int]);
            if c == 0 {
                proof {
                    lemma_take_until_nul_prefix(cells, i as int);
                    assert(out@ == spec_wide_read(self@, off as int, cap as int));
                }
                return Ok(out);
            }
            if c >= 0xd800 && c < 0xe000 {
                proof {
                    lemma_take_until_nul_prefix_long(cells, i as int);
                    lemma_take_until_nul(cells);
                    assert(take_until_nul(cells)[i as int] == cells[i as int]);
                    assert(!wide_ok(spec_wide_read(self@, off as int, cap as int)));
                }
                return Err(TelemetryError::InvalidUtf16);
            }
            out.push(c);
            i = i + 1;
        }
        proof {
            lemma_take_until_nul_all(cells);
            assert(out@ =~= cells);
            assert(out@ == spec_wide_read(self@, off as int, cap as int));
        }
        Ok(out)
    }
}

/// If the first zero in `cells` is at position `i`, the decoded string is the
/// first `i` cells.
pub(crate) proof fn lemma_take_until_nul_prefix(cells: Seq<u16>, i: int)
    requires
        0 <= i < cells.len(),
        cells[i] == 0,
        forall|j: int| 0 <= j < i ==> #[trigger] cells[j] != 0,
    ensures
        take_until_nul(cells) =~= cells.take(i),
    decreases i,
{
    if i > 0 {
        lemma_take_until_nul_prefix(cells.skip(1), i - 1);
        assert(cells.skip(1).take(i - 1) =~= cells.take(i).skip(1));
        assert(take_until_nul(cells) =~= seq![cells[0]] + take_until_nul(cells.skip(1)));
        assert(seq![cells[0]] + cells.skip(1).take(i - 1) =~= cells.take(i));
    }
}

/// If the first `i + 1` cells of `cells` are non-zero, the decoded string
/// keeps at least `i + 1` cells, and they are the cells themselves.
proof fn lemma_take_until_nul_prefix_long(cells: Seq<u16>, i: int)
    requires
        0 <= i < cells.len(),
        forall|j: int| 0 <= j <= i ==> #[trigger] cells[j] != 0,
    ensures
        take_until_nul(cells).len() > i,
    decreases i,
{
    if i == 0 {
        assert(cells[0] != 0);
    } else {
        lemma_take_until_nul_prefix_long(cells.skip(1), i - 1);
    }
}

/// A zero-free cell sequence decodes to itself.
pub(crate) proof fn lemma_take_until_nul_all(cells: Seq<u16>)
    requires
        forall|j: int| 0 <= j < cells.len() ==> #[trigger] cells[j] != 0,
    ensures
        take_until_nul(cells) =~= cells,
    decreases cells.len(),
{
    if cells.len() > 0 {
        lemma_take_until_nul_all(cells.skip(1));
    }
}

} // verus!
