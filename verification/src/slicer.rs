//! The annotation-driven slicer.
//!
//! Given one recording id, the slicer fetches from the annotation store every
//! range tagged `rid_<id>`, sorts the ranges by start, and replaces — in the
//! destination analysis store — the rows for that recording with the source
//! rows whose time offset falls inside a range.  Copied physics rows carry the
//! annotation id of their range.  With no matching annotation, the rows for
//! the recording are cleared instead.  The three imported annotation mirror
//! tables are replaced wholesale on every run: they are single-recording
//! scratch.

use vstd::multiset::Multiset;
use vstd::prelude::*;

use crate::annotations::TIME_AXIS_SHIFT_SECS;
use crate::frames::{GraphicsRecordV, StaticsRecordV};
use crate::store::{AnalyticalStore, GraphicsRow, PhysicsRow, RecordingRow, StaticsRow};

verus! {

/// One row of the annotation store's `annotation` table, projected to what
/// the slicer reads.
#[derive(Clone, Copy, Debug, PartialEq, Eq, Structural)]
pub struct GrafAnnotationRow {
    pub id: i64,
    pub epoch_ms: i64,
    pub epoch_end_ms: Option<i64>,
}

/// One row of the annotation store's `tag` table.
#[derive(Clone, Debug)]
pub struct TagRow {
    pub id: i64,
    pub key: String,
}

/// One row of the annotation store's `annotation_tag` link table.
#[derive(Clone, Copy, Debug, PartialEq, Eq, Structural)]
pub struct AnnTagRow {
    pub annotation_id: i64,
    pub tag_id: i64,
}

/// The read-only annotation store.
pub struct AnnotationStore {
    pub annotations: Vec<GrafAnnotationRow>,
    pub tags: Vec<TagRow>,
    pub links: Vec<AnnTagRow>,
}

/// Epochs the slicer can convert without overflow (a generous bound far
/// beyond any wall-clock date).
pub open spec fn epoch_ok(ms: i64) -> bool {
    0 <= ms <= 4_000_000_000_000_000
}

impl AnnotationStore {
    /// Every epoch in the store is convertible.
    pub open spec fn wf(self) -> bool {
        forall|i: int|
            0 <= i < self.annotations@.len() ==> {
                let a = #[trigger] self.annotations@[i];
                epoch_ok(a.epoch_ms) && (a.epoch_end_ms is Some ==> epoch_ok(
                    a.epoch_end_ms.unwrap(),
                ))
            }
    }
}

/// One selected time range: the annotation id and its window, in recording
/// time.
#[derive(Clone, Copy, Debug, PartialEq, Eq, Structural)]
pub struct SliceRange {
    pub annotation_id: i64,
    pub start_us: i64,
    pub end_us: i64,
}

/// The character of one decimal digit.
pub open spec fn digit_char(d: int) -> char {
    if d == 0 {
        '0'
    } else if d == 1 {
        '1'
    } else if d == 2 {
        '2'
    } else if d == 3 {
        '3'
    } else if d == 4 {
        '4'
    } else if d == 5 {
        '5'
    } else if d == 6 {
        '6'
    } else if d == 7 {
        '7'
    } else if d == 8 {
        '8'
    } else {
        '9'
    }
}

/// Decimal digits of a non-negative number, most significant first.
pub open spec fn dec_digits(n: int) -> Seq<char>
    recommends
        n >= 0,
    decreases n,
{
    let d = digit_char(n % 10);
    if n < 10 {
        seq![d]
    } else {
        dec_digits(n / 10) + seq![d]
    }
}

/// The tag key that marks an annotation as belonging to recording `rid`.
pub open spec fn rid_key(rid: int) -> Seq<char>
    recommends
        rid >= 0,
{
    "rid_"@ + dec_digits(rid)
}

/// Append the decimal digits of `n`.
fn push_digits(out: &mut Vec<char>, n: u64)
    ensures
        final(out)@ == old(out)@ + dec_digits(n as int),
    decreases n,
{
    if n >= 10 {
        push_digits(out, n / 10);
    }
    let d = match n % 10 {
        0 => '0',
        1 => '1',
        2 => '2',
        3 => '3',
        4 => '4',
        5 => '5',
        6 => '6',
        7 => '7',
        8 => '8',
        _ => '9',
    };
    out.push(d);
}

/// The key of recording `rid`, as characters.
fn build_rid_key(rid: u64) -> (r: Vec<char>)
    ensures
        r@ == rid_key(rid as int),
{
    let mut out: Vec<char> = Vec::new();
    out.push('r');
    out.push('i');
    out.push('d');
    out.push('_');
    proof {
        reveal_strlit("rid_");
        assert(out@ =~= "rid_"@);
    }
    push_digits(&mut out, rid);
    out
}

/// The tag's key is exactly `rid_<rid>`.
fn key_matches(key: &str, rid_chars: &Vec<char>) -> (r: bool)
    ensures
        r == (key@ == rid_chars@),
{
    let n = key.unicode_len();
    if n != rid_chars.len() {
        proof {
            assert(key@.len() != rid_chars@.len());
        }
        return false;
    }
    let mut i: usize = 0;
    while i < n
        invariant
            i <= n,
            n == key@.len(),
            n == rid_chars@.len(),
            forall|j: int| 0 <= j < i ==> key@[j] == rid_chars@[j],
        decreases n - i,
    {
        if key.get_char(i) != rid_chars[i] {
            return false;
        }
        i = i + 1;
    }
    proof {
        assert(key@ =~= rid_chars@);
    }
    true
}

/// The annotation at index `k` of the store carries the key of `rid`.
pub open spec fn spec_selected(ann: AnnotationStore, rid: int, k: int) -> bool {
    exists|l: int, t: int|
        {
            &&& 0 <= l < ann.links@.len()
            &&& 0 <= t < ann.tags@.len()
            &&& (#[trigger] ann.links@[l]).annotation_id == ann.annotations@[k].id
            &&& ann.links@[l].tag_id == (#[trigger] ann.tags@[t]).id
            &&& ann.tags@[t].key@ == rid_key(rid)
        }
}

/// Recording-time window of an annotation row: epochs shifted by the
/// dashboard's fixed time-axis offset, the end falling back to the start for
/// a point annotation.
pub open spec fn spec_range_of(a: GrafAnnotationRow) -> SliceRange {
    let start = a.epoch_ms * 1000 - TIME_AXIS_SHIFT_SECS * 1_000_000;
    let end = match a.epoch_end_ms {
        Some(e) => e * 1000 - TIME_AXIS_SHIFT_SECS * 1_000_000,
        None => start,
    };
    SliceRange { annotation_id: a.id, start_us: start as i64, end_us: end as i64 }
}

/// The ranges selected for `rid`, in store order.
pub open spec fn spec_selected_ranges(ann: AnnotationStore, rid: int) -> Seq<SliceRange>
    decreases ann.annotations@.len(),
{
    spec_selected_upto(ann, rid, ann.annotations@.len() as int)
}

/// The selected ranges among the first `n` annotation rows.
pub open spec fn spec_selected_upto(ann: AnnotationStore, rid: int, n: int) -> Seq<SliceRange>
    decreases n,
{
    if n <= 0 {
        Seq::empty()
    } else {
        spec_selected_upto(ann, rid, n - 1) + if spec_selected(ann, rid, n - 1) {
            seq![spec_range_of(ann.annotations@[n - 1])]
        } else {
            Seq::empty()
        }
    }
}

/// Decide [`spec_selected`] for the annotation row at `k`.
fn is_selected_idx(
    ann: &AnnotationStore,
    k: usize,
    key: &Vec<char>,
    Ghost(rid): Ghost<int>,
) -> (r: bool)
    requires
        k < ann.annotations@.len(),
        key@ == rid_key(rid),
    ensures
        r == spec_selected(*ann, rid, k as int),
{
    let a_id = ann.annotations[k].id;
    let mut hit = false;
    let mut l: usize = 0;
    while l < ann.links.len()
        invariant
            k < ann.annotations@.len(),
            a_id == ann.annotations@[k as int].id,
            l <= ann.links@.len(),
            key@ == rid_key(rid),
            hit ==> spec_selected(*ann, rid, k as int),
            !hit ==> forall|li: int, t: int|
                {
                    &&& 0 <= li < l
                    &&& 0 <= t < ann.tags@.len()
                } ==> !((#[trigger] ann.links@[li]).annotation_id == ann.annotations@[k as int].id
                    && ann.links@[li].tag_id == (#[trigger] ann.tags@[t]).id
                    && ann.tags@[t].key@ == rid_key(rid)),
        decreases ann.links@.len() - l,
    {
        if ann.links[l].annotation_id == a_id {
            let mut t: usize = 0;
            while t < ann.tags.len()
                invariant
                    k < ann.annotations@.len(),
                    a_id == ann.annotations@[k as int].id,
                    l < ann.links@.len(),
                    ann.links@[l as int].annotation_id == a_id,
                    t <= ann.tags@.len(),
                    key@ == rid_key(rid),
                    hit ==> spec_selected(*ann, rid, k as int),
                    !hit ==> forall|ti: int|
                        0 <= ti < t ==> !(ann.links@[l as int].tag_id == (
                        #[trigger] ann.tags@[ti]).id && ann.tags@[ti].key@ == rid_key(rid)),
                    !hit ==> forall|li: int, ti: int|
                        {
                            &&& 0 <= li < l
                            &&& 0 <= ti < ann.tags@.len()
                        } ==> !((#[trigger] ann.links@[li]).annotation_id
                            == ann.annotations@[k as int].id && ann.links@[li].tag_id == (
                        #[trigger] ann.tags@[ti]).id && ann.tags@[ti].key@ == rid_key(rid)),
                decreases ann.tags@.len() - t,
            {
                if ann.tags[t].id == ann.links[l].tag_id && key_matches(
                    ann.tags[t].key.as_str(),
                    key,
                ) {
                    hit = true;
                }
                t = t + 1;
            }
        }
        l = l + 1;
    }
    proof {
        if !hit {
            assert(!spec_selected(*ann, rid, k as int));
        }
    }
    hit
}

/// Fetch the ranges tagged `rid_<rid>`, in store order.
pub fn read_annotation_ranges(ann: &AnnotationStore, rid: u64) -> (r: Vec<SliceRange>)
    requires
        ann.wf(),
    ensures
        r@ == spec_selected_ranges(*ann, rid as int),
{
    let key = build_rid_key(rid);
    let mut out: Vec<SliceRange> = Vec::new();
    let mut k: usize = 0;
    while k < ann.annotations.len()
        invariant
            ann.wf(),
            k <= ann.annotations@.len(),
            key@ == rid_key(rid as int),
            out@ =~= spec_selected_upto(*ann, rid as int, k as int),
        decreases ann.annotations@.len() - k,
    {
        let a = ann.annotations[k];
        if is_selected_idx(ann, k, &key, Ghost(rid as int)) {
            proof {
                assert(epoch_ok(a.epoch_ms));
            }
            let start_us = a.epoch_ms * 1000 - TIME_AXIS_SHIFT_SECS * 1_000_000;
            let end_us = match a.epoch_end_ms {
                Some(e) => e * 1000 - TIME_AXIS_SHIFT_SECS * 1_000_000,
                None => start_us,
            };
            out.push(SliceRange { annotation_id: a.id, start_us, end_us });
        }
        proof {
            assert(out@ =~= spec_selected_upto(*ann, rid as int, k as int + 1));
        }
        k = k + 1;
    }
    proof {
        assert(out@ =~= spec_selected_ranges(*ann, rid as int));
    }
    out
}

/// The ranges are sorted ascending by window start.
pub open spec fn ranges_sorted(s: Seq<SliceRange>) -> bool {
    forall|i: int, j: int|
        0 <= i < j < s.len() ==> #[trigger] s[i].start_us <= #[trigger] s[j].start_us
}

/// Insertion sort of ranges by ascending window start.
pub fn sort_ranges(v: Vec<SliceRange>) -> (r: Vec<SliceRange>)
    ensures
        r@.len() == v@.len(),
        ranges_sorted(r@),
        r@.to_multiset() == v@.to_multiset(),
{
    broadcast use vstd::seq_lib::group_to_multiset_ensures;

    let mut out: Vec<SliceRange> = Vec::new();
    let mut src = v;
    while src.len() > 0
        invariant
            ranges_sorted(out@),
            out@.to_multiset().add(src@.to_multiset()) == v@.to_multiset(),
            out@.len() + src@.len() == v@.len(),
        decreases src@.len(),
    {
        let ghost out0 = out@;
        let ghost src0 = src@;
        let a = src.remove(0);
        proof {
            src0.to_multiset_ensures();
            assert(src@ =~= src0.remove(0));
            assert(src@.to_multiset() =~= src0.to_multiset().remove(a));
        }
        let mut k: usize = 0;
        while k < out.len() && out[k].start_us <= a.start_us
            invariant
                k <= out@.len(),
                out@ == out0,
                forall|i: int| 0 <= i < k ==> #[trigger] out@[i].start_us <= a.start_us,
            decreases out@.len() - k,
        {
            k = k + 1;
        }
        out.insert(k, a);
        proof {
            assert(out@ =~= out0.insert(k as int, a));
            assert(out@.to_multiset() =~= out0.to_multiset().insert(a)) by {
                assert(out0.insert(k as int, a) =~= (out0.take(k as int) + seq![a]) + out0.skip(
                    k as int,
                ));
                vstd::seq_lib::lemma_multiset_commutative(out0.take(k as int) + seq![a], out0.skip(k as int));
                vstd::seq_lib::lemma_multiset_commutative(out0.take(k as int), seq![a]);
                vstd::seq_lib::lemma_multiset_commutative(out0.take(k as int), out0.skip(k as int));
                assert(out0.take(k as int) + out0.skip(k as int) =~= out0);
                seq![a].to_multiset_ensures();
                assert(seq![a] =~= Seq::<SliceRange>::empty().push(a));
                Seq::<SliceRange>::empty().to_multiset_ensures();
            }
            assert(ranges_sorted(out@)) by {
                assert forall|i: int, j: int| 0 <= i < j < out@.len() implies #[trigger] out@[i].start_us
                    <= #[trigger] out@[j].start_us by {
                    if i < k && j == k {
                        assert(out@[i] == out0[i]);
                    } else if i == k {
                        assert(out@[j] == out0[j - 1]);
                    } else if i < k && j > k {
                        assert(out@[i] == out0[i]);
                        assert(out@[j] == out0[j - 1]);
                    } else if j < k {
                        assert(out@[i] == out0[i]);
                        assert(out@[j] == out0[j]);
                    } else if i > k {
                        assert(out@[i] == out0[i - 1]);
                        assert(out@[j] == out0[j - 1]);
                    }
                }
            }
        }
    }
    proof {
        broadcast use vstd::seq_lib::group_to_multiset_ensures;

        assert(src@ =~= Seq::<SliceRange>::empty());
        Seq::<SliceRange>::empty().to_multiset_ensures();
        assert(src@.to_multiset() =~= Multiset::<SliceRange>::empty());
        assert(out@.to_multiset() =~= v@.to_multiset());
        out@.to_multiset_ensures();
        v@.to_multiset_ensures();
    }
    out
}

// ------------------------------------------------------------------ store

/// The destination analysis store: recordings with their statics, physics
/// and graphics rows, plus the three imported annotation mirror tables.
pub struct AnalysisStore {
    pub recordings: Vec<RecordingRow>,
    pub statics: Vec<StaticsRow>,
    pub physics: Vec<PhysicsRow>,
    pub graphics: Vec<GraphicsRow>,
    pub ann_mirror: Vec<GrafAnnotationRow>,
    pub tag_mirror: Vec<TagRow>,
    pub link_mirror: Vec<AnnTagRow>,
}

/// Outcome of a slicer run.
#[derive(Clone, Copy, Debug, PartialEq, Eq, Structural)]
pub enum SliceOutcome {
    /// No annotation matched: the destination holds no rows for the
    /// recording any more.
    Cleared,
    /// Rows were copied; the payload is the number of physics rows now held
    /// for the recording.
    Copied(u64),
}

/// Abstract values of a graphics row vector.
pub open spec fn graphics_views(s: Seq<GraphicsRow>) -> Seq<crate::store::GraphicsRowV> {
    s.map_values(|r: GraphicsRow| r@)
}

/// Abstract values of a statics row vector.
pub open spec fn statics_views(s: Seq<StaticsRow>) -> Seq<crate::store::StaticsRowV> {
    s.map_values(|r: StaticsRow| r@)
}

/// Keep a physics row of another recording.
pub open spec fn pred_phys_other(rid: i64) -> spec_fn(PhysicsRow) -> bool {
    |p: PhysicsRow| p.recording_id != rid
}

/// Keep a physics row of `rid` inside the window.
pub open spec fn pred_phys_win(rid: i64, rg: SliceRange) -> spec_fn(PhysicsRow) -> bool {
    |p: PhysicsRow|
        p.recording_id == rid && rg.start_us <= p.time_offset_us && p.time_offset_us <= rg.end_us
}

/// Tag a copied physics row with the window's annotation.
pub open spec fn map_phys_tag(rg: SliceRange) -> spec_fn(PhysicsRow) -> PhysicsRow {
    |p: PhysicsRow|
        PhysicsRow {
            recording_id: p.recording_id,
            time_offset_us: p.time_offset_us,
            frame: p.frame,
            annotation_id: Some(rg.annotation_id),
        }
}

/// Keep a graphics row of another recording.
pub open spec fn pred_gfx_other(rid: i64) -> spec_fn(crate::store::GraphicsRowV) -> bool {
    |g: crate::store::GraphicsRowV| g.recording_id != rid
}

/// Keep a graphics row of `rid` inside the window.
pub open spec fn pred_gfx_win(rid: i64, rg: SliceRange) -> spec_fn(
    crate::store::GraphicsRowV,
) -> bool {
    |g: crate::store::GraphicsRowV|
        g.recording_id == rid && rg.start_us <= g.time_offset_us && g.time_offset_us <= rg.end_us
}

/// Keep a statics row of another recording.
pub open spec fn pred_stat_other(rid: i64) -> spec_fn(crate::store::StaticsRowV) -> bool {
    |s: crate::store::StaticsRowV| s.recording_id != rid
}

/// Keep a statics row of `rid`.
pub open spec fn pred_stat_keep(rid: i64) -> spec_fn(crate::store::StaticsRowV) -> bool {
    |s: crate::store::StaticsRowV| s.recording_id == rid
}

/// Keep a recordings row of another recording.
pub open spec fn pred_rec_other(rid: i64) -> spec_fn(RecordingRow) -> bool {
    |r: RecordingRow| r.id != rid
}

/// Keep the recordings row of `rid`.
pub open spec fn pred_rec_keep(rid: i64) -> spec_fn(RecordingRow) -> bool {
    |r: RecordingRow| r.id == rid
}

/// Physics rows of other recordings.
pub open spec fn phys_other(ps: Seq<PhysicsRow>, rid: i64) -> Seq<PhysicsRow> {
    ps.filter(pred_phys_other(rid))
}

/// The physics rows of `rid` inside one window, tagged with its annotation.
pub open spec fn phys_in_window(ps: Seq<PhysicsRow>, rid: i64, rg: SliceRange) -> Seq<PhysicsRow> {
    ps.filter(pred_phys_win(rid, rg)).map_values(map_phys_tag(rg))
}

/// The physics rows every window selects, windows in order.
pub open spec fn sliced_physics(ps: Seq<PhysicsRow>, rid: i64, ranges: Seq<SliceRange>) -> Seq<
    PhysicsRow,
>
    decreases ranges.len(),
{
    if ranges.len() == 0 {
        Seq::empty()
    } else {
        phys_in_window(ps, rid, ranges[0]) + sliced_physics(ps, rid, ranges.skip(1))
    }
}

/// Graphics rows (as values) of other recordings.
pub open spec fn gfx_other(gs: Seq<crate::store::GraphicsRowV>, rid: i64) -> Seq<
    crate::store::GraphicsRowV,
> {
    gs.filter(pred_gfx_other(rid))
}

/// Graphics rows of `rid` inside one window.
pub open spec fn gfx_in_window(
    gs: Seq<crate::store::GraphicsRowV>,
    rid: i64,
    rg: SliceRange,
) -> Seq<crate::store::GraphicsRowV> {
    gs.filter(pred_gfx_win(rid, rg))
}

/// The graphics rows every window selects, windows in order.
pub open spec fn sliced_graphics(
    gs: Seq<crate::store::GraphicsRowV>,
    rid: i64,
    ranges: Seq<SliceRange>,
) -> Seq<crate::store::GraphicsRowV>
    decreases ranges.len(),
{
    if ranges.len() == 0 {
        Seq::empty()
    } else {
        gfx_in_window(gs, rid, ranges[0]) + sliced_graphics(gs, rid, ranges.skip(1))
    }
}

/// The annotation with id `aid` carries the key of `rid`.
pub open spec fn id_selected(ann: AnnotationStore, rid: int, aid: i64) -> bool {
    exists|k: int|
        0 <= k < ann.annotations@.len() && (#[trigger] ann.annotations@[k]).id == aid
            && spec_selected(ann, rid, k)
}

/// Filtering step: extending the scanned prefix by one element.
proof fn lemma_filter_take_step<A>(s: Seq<A>, pred: spec_fn(A) -> bool, i: int)
    requires
        0 <= i < s.len(),
    ensures
        s.take(i + 1).filter(pred) == if pred(s[i]) {
            s.take(i).filter(pred).push(s[i])
        } else {
            s.take(i).filter(pred)
        },
{
    reveal(Seq::filter);
    assert(s.take(i + 1).drop_last() =~= s.take(i));
    assert(s.take(i + 1).last() == s[i]);
}

impl AnalysisStore {
    /// An empty analysis store, as `ensure_schema` leaves a fresh database.
    pub fn new() -> (r: AnalysisStore)
        ensures
            r.recordings@.len() == 0,
            r.statics@.len() == 0,
            r.physics@.len() == 0,
            r.graphics@.len() == 0,
            r.ann_mirror@.len() == 0,
            r.tag_mirror@.len() == 0,
            r.link_mirror@.len() == 0,
    {
        AnalysisStore {
            recordings: Vec::new(),
            statics: Vec::new(),
            physics: Vec::new(),
            graphics: Vec::new(),
            ann_mirror: Vec::new(),
            tag_mirror: Vec::new(),
            link_mirror: Vec::new(),
        }
    }

    /// Drop every row of recording `rid` (physics, graphics, statics,
    /// recordings) and wipe the three annotation mirror tables.
    fn clear_recording(&mut self, rid: i64)
        ensures
            final(self).physics@ == phys_other(old(self).physics@, rid),
            graphics_views(final(self).graphics@) == gfx_other(
                graphics_views(old(self).graphics@),
                rid,
            ),
            statics_views(final(self).statics@) == statics_views(old(self).statics@).filter(
                pred_stat_other(rid),
            ),
            final(self).recordings@ == old(self).recordings@.filter(pred_rec_other(rid)),
            final(self).ann_mirror@.len() == 0,
            final(self).tag_mirror@.len() == 0,
            final(self).link_mirror@.len() == 0,
    {
        // physics rows are plain values: copy the keepers
        let mut kept_p: Vec<PhysicsRow> = Vec::new();
        let mut i: usize = 0;
        while i < self.physics.len()
            invariant
                i <= self.physics@.len(),
                kept_p@ == self.physics@.take(i as int).filter(pred_phys_other(rid)),
            decreases self.physics@.len() - i,
        {
            proof {
                lemma_filter_take_step(self.physics@, pred_phys_other(rid), i as int);
            }
            if self.physics[i].recording_id != rid {
                kept_p.push(self.physics[i]);
            }
            i = i + 1;
        }
        proof {
            assert(self.physics@.take(self.physics@.len() as int) =~= self.physics@);
        }
        self.physics = kept_p;
        // graphics rows: keep by view
        let mut kept_g: Vec<GraphicsRow> = Vec::new();
        let mut i: usize = 0;
        while i < self.graphics.len()
            invariant
                i <= self.graphics@.len(),
                graphics_views(kept_g@) =~= graphics_views(self.graphics@.take(i as int)).filter(
                    pred_gfx_other(rid),
                ),
                self.physics@ == phys_other(old(self).physics@, rid),
            decreases self.graphics@.len() - i,
        {
            proof {
                assert(graphics_views(self.graphics@.take(i as int + 1)) =~= graphics_views(
                    self.graphics@.take(i as int),
                ).push(self.graphics@[i as int]@));
                lemma_filter_take_step(
                    graphics_views(self.graphics@),
                    pred_gfx_other(rid),
                    i as int,
                );
                assert(graphics_views(self.graphics@).take(i as int) =~= graphics_views(
                    self.graphics@.take(i as int),
                ));
                assert(graphics_views(self.graphics@).take(i as int + 1) =~= graphics_views(
                    self.graphics@.take(i as int + 1),
                ));
            }
            if self.graphics[i].recording_id != rid {
                let row = self.graphics[i].duplicate();
                kept_g.push(row);
                proof {
                    assert(graphics_views(kept_g@) =~= graphics_views(kept_g@.drop_last()).push(
                        row@,
                    ));
                }
            }
            i = i + 1;
        }
        proof {
            assert(graphics_views(self.graphics@).take(self.graphics@.len() as int)
                =~= graphics_views(self.graphics@));
            assert(graphics_views(self.graphics@.take(self.graphics@.len() as int))
                =~= graphics_views(self.graphics@));
        }
        self.graphics = kept_g;
        // statics rows: keep by view
        let mut kept_s: Vec<StaticsRow> = Vec::new();
        let mut i: usize = 0;
        while i < self.statics.len()
            invariant
                i <= self.statics@.len(),
                statics_views(kept_s@) =~= statics_views(self.statics@.take(i as int)).filter(
                    pred_stat_other(rid),
                ),
                self.physics@ == phys_other(old(self).physics@, rid),
                graphics_views(self.graphics@) == gfx_other(
                    graphics_views(old(self).graphics@),
                    rid,
                ),
            decreases self.statics@.len() - i,
        {
            proof {
                lemma_filter_take_step(
                    statics_views(self.statics@),
                    pred_stat_other(rid),
                    i as int,
                );
                assert(statics_views(self.statics@).take(i as int) =~= statics_views(
                    self.statics@.take(i as int),
                ));
                assert(statics_views(self.statics@).take(i as int + 1) =~= statics_views(
                    self.statics@.take(i as int + 1),
                ));
                assert(statics_views(self.statics@.take(i as int + 1)) =~= statics_views(
                    self.statics@.take(i as int),
                ).push(self.statics@[i as int]@));
            }
            if self.statics[i].recording_id != rid {
                let row = self.statics[i].duplicate();
                kept_s.push(row);
                proof {
                    assert(statics_views(kept_s@) =~= statics_views(kept_s@.drop_last()).push(
                        row@,
                    ));
                }
            }
            i = i + 1;
        }
        proof {
            assert(statics_views(self.statics@).take(self.statics@.len() as int) =~= statics_views(
                self.statics@,
            ));
            assert(statics_views(self.statics@.take(self.statics@.len() as int)) =~= statics_views(
                self.statics@,
            ));
        }
        self.statics = kept_s;
        // recordings rows: string fields copy faithfully, keep by value
        let mut kept_r: Vec<RecordingRow> = Vec::new();
        let mut i: usize = 0;
        while i < self.recordings.len()
            invariant
                i <= self.recordings@.len(),
                kept_r@ == self.recordings@.take(i as int).filter(pred_rec_other(rid)),
                self.physics@ == phys_other(old(self).physics@, rid),
                graphics_views(self.graphics@) == gfx_other(
                    graphics_views(old(self).graphics@),
                    rid,
                ),
                statics_views(self.statics@) == statics_views(old(self).statics@).filter(
                    pred_stat_other(rid),
                ),
            decreases self.recordings@.len() - i,
        {
            proof {
                lemma_filter_take_step(self.recordings@, pred_rec_other(rid), i as int);
            }
            if self.recordings[i].id != rid {
                let row = self.recordings[i].duplicate();
                kept_r.push(row);
            }
            i = i + 1;
        }
        proof {
            assert(self.recordings@.take(self.recordings@.len() as int) =~= self.recordings@);
        }
        self.recordings = kept_r;
        self.ann_mirror.clear();
        self.tag_mirror.clear();
        self.link_mirror.clear();
    }

    /// Copy the physics rows of `rid` inside one window from the source,
    /// tagging each copied row with the window's annotation id.
    fn copy_physics_window(&mut self, src: &Vec<PhysicsRow>, rid: i64, rg: SliceRange)
        ensures
            final(self).physics@ == old(self).physics@ + phys_in_window(src@, rid, rg),
            final(self).graphics@ == old(self).graphics@,
            final(self).statics@ == old(self).statics@,
            final(self).recordings@ == old(self).recordings@,
            final(self).ann_mirror@ == old(self).ann_mirror@,
            final(self).tag_mirror@ == old(self).tag_mirror@,
            final(self).link_mirror@ == old(self).link_mirror@,
    {
        let mut i: usize = 0;
        while i < src.len()
            invariant
                i <= src@.len(),
                self.physics@ =~= old(self).physics@ + src@.take(i as int).filter(
                    pred_phys_win(rid, rg),
                ).map_values(map_phys_tag(rg)),
                self.graphics@ == old(self).graphics@,
                self.statics@ == old(self).statics@,
                self.recordings@ == old(self).recordings@,
                self.ann_mirror@ == old(self).ann_mirror@,
                self.tag_mirror@ == old(self).tag_mirror@,
                self.link_mirror@ == old(self).link_mirror@,
            decreases src@.len() - i,
        {
            proof {
                lemma_filter_take_step(src@, pred_phys_win(rid, rg), i as int);
            }
            let p = src[i];
            if p.recording_id == rid && rg.start_us <= p.time_offset_us && p.time_offset_us
                <= rg.end_us {
                self.physics.push(
                    PhysicsRow {
                        recording_id: p.recording_id,
                        time_offset_us: p.time_offset_us,
                        frame: p.frame,
                        annotation_id: Some(rg.annotation_id),
                    },
                );
            }
            i = i + 1;
        }
        proof {
            assert(src@.take(src@.len() as int) =~= src@);
        }
    }

    /// Copy the graphics rows of `rid` inside one window from the source.
    fn copy_graphics_window(&mut self, src: &Vec<GraphicsRow>, rid: i64, rg: SliceRange)
        ensures
            graphics_views(final(self).graphics@) == graphics_views(old(self).graphics@)
                + gfx_in_window(graphics_views(src@), rid, rg),
            final(self).physics@ == old(self).physics@,
            final(self).statics@ == old(self).statics@,
            final(self).recordings@ == old(self).recordings@,
            final(self).ann_mirror@ == old(self).ann_mirror@,
            final(self).tag_mirror@ == old(self).tag_mirror@,
            final(self).link_mirror@ == old(self).link_mirror@,
    {
        let mut i: usize = 0;
        while i < src.len()
            invariant
                i <= src@.len(),
                graphics_views(self.graphics@) =~= graphics_views(old(self).graphics@)
                    + graphics_views(src@).take(i as int).filter(pred_gfx_win(rid, rg)),
                self.physics@ == old(self).physics@,
                self.statics@ == old(self).statics@,
                self.recordings@ == old(self).recordings@,
                self.ann_mirror@ == old(self).ann_mirror@,
                self.tag_mirror@ == old(self).tag_mirror@,
                self.link_mirror@ == old(self).link_mirror@,
            decreases src@.len() - i,
        {
            proof {
                lemma_filter_take_step(graphics_views(src@), pred_gfx_win(rid, rg), i as int);
                assert(graphics_views(src@)[i as int] == src@[i as int]@);
            }
            let ghost gv_old = graphics_views(old(self).graphics@);
            let ghost fprev = graphics_views(src@).take(i as int).filter(
                pred_gfx_win(rid, rg),
            );
            if src[i].recording_id == rid && rg.start_us <= src[i].time_offset_us
                && src[i].time_offset_us <= rg.end_us {
                let ghost gpre = self.graphics@;
                let row = src[i].duplicate();
                self.graphics.push(row);
                proof {
                    assert(self.graphics@.drop_last() =~= gpre);
                    assert(graphics_views(self.graphics@) =~= graphics_views(gpre).push(row@));
                    assert(graphics_views(self.graphics@) =~= gv_old + fprev.push(row@));
                }
            }
            i = i + 1;
        }
        proof {
            assert(graphics_views(src@).take(src@.len() as int) =~= graphics_views(src@));
        }
    }

    /// Copy the recordings and statics rows of `rid` from the source.
    fn copy_parent_rows(&mut self, src: &AnalyticalStore, rid: i64)
        ensures
            final(self).recordings@ == old(self).recordings@ + src.recordings@.filter(
                pred_rec_keep(rid),
            ),
            statics_views(final(self).statics@) == statics_views(old(self).statics@)
                + statics_views(src.statics@).filter(pred_stat_keep(rid)),
            final(self).physics@ == old(self).physics@,
            final(self).graphics@ == old(self).graphics@,
            final(self).ann_mirror@ == old(self).ann_mirror@,
            final(self).tag_mirror@ == old(self).tag_mirror@,
            final(self).link_mirror@ == old(self).link_mirror@,
    {
        let mut i: usize = 0;
        while i < src.recordings.len()
            invariant
                i <= src.recordings@.len(),
                self.recordings@ =~= old(self).recordings@ + src.recordings@.take(
                    i as int,
                ).filter(pred_rec_keep(rid)),
                self.physics@ == old(self).physics@,
                self.graphics@ == old(self).graphics@,
                self.statics@ == old(self).statics@,
                self.ann_mirror@ == old(self).ann_mirror@,
                self.tag_mirror@ == old(self).tag_mirror@,
                self.link_mirror@ == old(self).link_mirror@,
            decreases src.recordings@.len() - i,
        {
            proof {
                lemma_filter_take_step(src.recordings@, pred_rec_keep(rid), i as int);
            }
            if src.recordings[i].id == rid {
                let row = src.recordings[i].duplicate();
                self.recordings.push(row);
            }
            i = i + 1;
        }
        proof {
            assert(src.recordings@.take(src.recordings@.len() as int) =~= src.recordings@);
        }
        let mut i: usize = 0;
        while i < src.statics.len()
            invariant
                i <= src.statics@.len(),
                statics_views(self.statics@) =~= statics_views(old(self).statics@) + statics_views(
                    src.statics@,
                ).take(i as int).filter(pred_stat_keep(rid)),
                self.physics@ == old(self).physics@,
                self.graphics@ == old(self).graphics@,
                self.recordings@ == old(self).recordings@ + src.recordings@.filter(
                    pred_rec_keep(rid),
                ),
                self.ann_mirror@ == old(self).ann_mirror@,
                self.tag_mirror@ == old(self).tag_mirror@,
                self.link_mirror@ == old(self).link_mirror@,
            decreases src.statics@.len() - i,
        {
            proof {
                lemma_filter_take_step(
                    statics_views(src.statics@),
                    pred_stat_keep(rid),
                    i as int,
                );
                assert(statics_views(src.statics@)[i as int] == src.statics@[i as int]@);
            }
            let ghost sv_old = statics_views(old(self).statics@);
            let ghost fprev = statics_views(src.statics@).take(i as int).filter(
                pred_stat_keep(rid),
            );
            if src.statics[i].recording_id == rid {
                let ghost spre = self.statics@;
                let row = src.statics[i].duplicate();
                self.statics.push(row);
                proof {
                    assert(self.statics@.drop_last() =~= spre);
                    assert(statics_views(self.statics@) =~= statics_views(spre).push(row@));
                    assert(statics_views(self.statics@) =~= sv_old + fprev.push(row@));
                }
            }
            i = i + 1;
        }
        proof {
            assert(statics_views(src.statics@).take(src.statics@.len() as int) =~= statics_views(
                src.statics@,
            ));
        }
    }
}

// ------------------------------------------------------------------ mirrors

/// The annotation id belongs to one of the selected rows.
pub open spec fn pred_ann_mirror(ann: AnnotationStore, rid: int) -> spec_fn(
    GrafAnnotationRow,
) -> bool {
    |a: GrafAnnotationRow| id_selected(ann, rid, a.id)
}

/// The link points at a selected annotation.
pub open spec fn pred_link_mirror(ann: AnnotationStore, rid: int) -> spec_fn(AnnTagRow) -> bool {
    |l: AnnTagRow| id_selected(ann, rid, l.annotation_id)
}

/// Some link of a selected annotation references this tag id.
pub open spec fn tag_id_selected(ann: AnnotationStore, rid: int, tid: i64) -> bool {
    exists|li: int|
        0 <= li < ann.links@.len() && id_selected(
            ann,
            rid,
            (#[trigger] ann.links@[li]).annotation_id,
        ) && ann.links@[li].tag_id == tid
}

/// The tag is referenced by a link of a selected annotation.
pub open spec fn pred_tag_mirror(ann: AnnotationStore, rid: int) -> spec_fn(TagRow) -> bool {
    |t: TagRow| tag_id_selected(ann, rid, t.id)
}

/// Ids of the selected annotation rows.
fn collect_selected_ids(ann: &AnnotationStore, key: &Vec<char>, Ghost(rid): Ghost<int>) -> (r: Vec<
    i64,
>)
    requires
        key@ == rid_key(rid),
    ensures
        forall|aid: i64| r@.contains(aid) <==> id_selected(*ann, rid, aid),
{
    let mut out: Vec<i64> = Vec::new();
    let mut k: usize = 0;
    while k < ann.annotations.len()
        invariant
            k <= ann.annotations@.len(),
            key@ == rid_key(rid),
            forall|aid: i64|
                out@.contains(aid) <==> exists|j: int|
                    0 <= j < k && (#[trigger] ann.annotations@[j]).id == aid && spec_selected(
                        *ann,
                        rid,
                        j,
                    ),
        decreases ann.annotations@.len() - k,
    {
        let ghost out0 = out@;
        if is_selected_idx(ann, k, key, Ghost(rid)) {
            out.push(ann.annotations[k].id);
            proof {
                assert forall|aid: i64| out@.contains(aid) implies exists|j: int|
                    0 <= j <= k && (#[trigger] ann.annotations@[j]).id == aid && spec_selected(
                        *ann,
                        rid,
                        j,
                    ) by {
                    if aid == ann.annotations@[k as int].id {
                        assert(ann.annotations@[k as int].id == aid && spec_selected(
                            *ann,
                            rid,
                            k as int,
                        ));
                    } else {
                        let w = choose|w: int| 0 <= w < out@.len() && out@[w] == aid;
                        assert(out0[w] == aid);
                        assert(out0.contains(aid));
                    }
                }
                assert forall|aid: i64|
                    (exists|j: int|
                        0 <= j <= k && (#[trigger] ann.annotations@[j]).id == aid && spec_selected(
                            *ann,
                            rid,
                            j,
                        )) implies out@.contains(aid) by {
                    let j = choose|j: int|
                        0 <= j <= k && (#[trigger] ann.annotations@[j]).id == aid && spec_selected(
                            *ann,
                            rid,
                            j,
                        );
                    if j < k {
                        assert(out0.contains(aid));
                        let w = choose|w: int| 0 <= w < out0.len() && out0[w] == aid;
                        assert(out@[w] == aid);
                    } else {
                        assert(out@.last() == aid);
                    }
                }
            }
        } else {
            proof {
                assert forall|aid: i64|
                    (exists|j: int|
                        0 <= j <= k && (#[trigger] ann.annotations@[j]).id == aid && spec_selected(
                            *ann,
                            rid,
                            j,
                        )) implies out@.contains(aid) by {
                    let j = choose|j: int|
                        0 <= j <= k && (#[trigger] ann.annotations@[j]).id == aid && spec_selected(
                            *ann,
                            rid,
                            j,
                        );
                    assert(j < k);
                }
            }
        }
        k = k + 1;
    }
    out
}

/// Linear membership test.
fn contains_id(v: &Vec<i64>, x: i64) -> (r: bool)
    ensures
        r == v@.contains(x),
{
    let mut i: usize = 0;
    while i < v.len()
        invariant
            i <= v@.len(),
            forall|j: int| 0 <= j < i ==> v@[j] != x,
        decreases v@.len() - i,
    {
        if v[i] == x {
            return true;
        }
        i = i + 1;
    }
    false
}

impl AnalysisStore {
    /// Replace the three mirror tables with the rows belonging to the
    /// selected annotations: the annotation rows by id, every link of a
    /// selected annotation, and every tag those links reference.
    fn copy_mirrors(&mut self, ann: &AnnotationStore, sel: &Vec<i64>, Ghost(rid): Ghost<int>)
        requires
            old(self).ann_mirror@.len() == 0,
            old(self).tag_mirror@.len() == 0,
            old(self).link_mirror@.len() == 0,
            forall|aid: i64| sel@.contains(aid) <==> id_selected(*ann, rid, aid),
        ensures
            final(self).ann_mirror@ == ann.annotations@.filter(pred_ann_mirror(*ann, rid)),
            final(self).link_mirror@ == ann.links@.filter(pred_link_mirror(*ann, rid)),
            final(self).tag_mirror@ == ann.tags@.filter(pred_tag_mirror(*ann, rid)),
            final(self).recordings@ == old(self).recordings@,
            final(self).statics@ == old(self).statics@,
            final(self).physics@ == old(self).physics@,
            final(self).graphics@ == old(self).graphics@,
    {
        let mut k: usize = 0;
        while k < ann.annotations.len()
            invariant
                k <= ann.annotations@.len(),
                forall|aid: i64| sel@.contains(aid) <==> id_selected(*ann, rid, aid),
                self.ann_mirror@ == ann.annotations@.take(k as int).filter(
                    pred_ann_mirror(*ann, rid),
                ),
                self.tag_mirror@.len() == 0,
                self.link_mirror@.len() == 0,
                self.recordings@ == old(self).recordings@,
                self.statics@ == old(self).statics@,
                self.physics@ == old(self).physics@,
                self.graphics@ == old(self).graphics@,
            decreases ann.annotations@.len() - k,
        {
            proof {
                lemma_filter_take_step(ann.annotations@, pred_ann_mirror(*ann, rid), k as int);
            }
            if contains_id(sel, ann.annotations[k].id) {
                self.ann_mirror.push(ann.annotations[k]);
            }
            k = k + 1;
        }
        proof {
            assert(ann.annotations@.take(ann.annotations@.len() as int) =~= ann.annotations@);
        }
        let mut k: usize = 0;
        while k < ann.links.len()
            invariant
                k <= ann.links@.len(),
                forall|aid: i64| sel@.contains(aid) <==> id_selected(*ann, rid, aid),
                self.ann_mirror@ == ann.annotations@.filter(pred_ann_mirror(*ann, rid)),
                self.link_mirror@ == ann.links@.take(k as int).filter(
                    pred_link_mirror(*ann, rid),
                ),
                self.tag_mirror@.len() == 0,
                self.recordings@ == old(self).recordings@,
                self.statics@ == old(self).statics@,
                self.physics@ == old(self).physics@,
                self.graphics@ == old(self).graphics@,
            decreases ann.links@.len() - k,
        {
            proof {
                lemma_filter_take_step(ann.links@, pred_link_mirror(*ann, rid), k as int);
            }
            if contains_id(sel, ann.links[k].annotation_id) {
                self.link_mirror.push(ann.links[k]);
            }
            k = k + 1;
        }
        proof {
            assert(ann.links@.take(ann.links@.len() as int) =~= ann.links@);
        }
        let mut k: usize = 0;
        while k < ann.tags.len()
            invariant
                k <= ann.tags@.len(),
                forall|aid: i64| sel@.contains(aid) <==> id_selected(*ann, rid, aid),
                self.ann_mirror@ == ann.annotations@.filter(pred_ann_mirror(*ann, rid)),
                self.link_mirror@ == ann.links@.filter(pred_link_mirror(*ann, rid)),
                self.tag_mirror@ == ann.tags@.take(k as int).filter(pred_tag_mirror(*ann, rid)),
                self.recordings@ == old(self).recordings@,
                self.statics@ == old(self).statics@,
                self.physics@ == old(self).physics@,
                self.graphics@ == old(self).graphics@,
            decreases ann.tags@.len() - k,
        {
            proof {
                lemma_filter_take_step(ann.tags@, pred_tag_mirror(*ann, rid), k as int);
            }
            let tid = ann.tags[k].id;
            let mut hit = false;
            let mut li: usize = 0;
            while li < ann.links.len()
                invariant
                    k < ann.tags@.len(),
                    tid == ann.tags@[k as int].id,
                    li <= ann.links@.len(),
                    forall|aid: i64| sel@.contains(aid) <==> id_selected(*ann, rid, aid),
                    hit ==> tag_id_selected(*ann, rid, tid),
                    !hit ==> forall|j: int|
                        0 <= j < li ==> !(id_selected(
                            *ann,
                            rid,
                            (#[trigger] ann.links@[j]).annotation_id,
                        ) && ann.links@[j].tag_id == tid),
                decreases ann.links@.len() - li,
            {
                if ann.links[li].tag_id == tid && contains_id(sel, ann.links[li].annotation_id) {
                    hit = true;
                }
                li = li + 1;
            }
            if hit {
                let row = TagRow { id: ann.tags[k].id, key: ann.tags[k].key.clone() };
                proof {
                    assert(row == ann.tags@[k as int]);
                }
                self.tag_mirror.push(row);
            } else {
                proof {
                    assert(!tag_id_selected(*ann, rid, tid));
                }
            }
            k = k + 1;
        }
        proof {
            assert(ann.tags@.take(ann.tags@.len() as int) =~= ann.tags@);
        }
    }
}

// ------------------------------------------------------------------ run

/// Replace the destination's rows for recording `rid` as the annotations
/// direct.
///
/// With no matching annotation the destination is cleared of the recording
/// and the mirrors are emptied.  Otherwise the matching ranges, sorted
/// ascending by start, select — window by window — the source physics rows
/// (tagged with their annotation id) and graphics rows; the parent
/// recordings and statics rows are copied; and the mirrors are replaced by
/// the selected annotations, their links and their tags.
pub fn slice_recording(
    dst: &mut AnalysisStore,
    src: &AnalyticalStore,
    ann: &AnnotationStore,
    rid: u64,
) -> (r: SliceOutcome)
    requires
        ann.wf(),
        rid <= 0x7fff_ffff_ffff_ffff,
    ensures
        ({
            let rid_i = rid as i64;
            match r {
                SliceOutcome::Cleared => {
                    &&& spec_selected_ranges(*ann, rid as int).len() == 0
                    &&& final(dst).physics@ == phys_other(old(dst).physics@, rid_i)
                    &&& graphics_views(final(dst).graphics@) == gfx_other(
                        graphics_views(old(dst).graphics@),
                        rid_i,
                    )
                    &&& statics_views(final(dst).statics@) == statics_views(
                        old(dst).statics@,
                    ).filter(pred_stat_other(rid_i))
                    &&& final(dst).recordings@ == old(dst).recordings@.filter(
                        pred_rec_other(rid_i),
                    )
                    &&& final(dst).ann_mirror@.len() == 0
                    &&& final(dst).tag_mirror@.len() == 0
                    &&& final(dst).link_mirror@.len() == 0
                },
                SliceOutcome::Copied(n) => {
                    &&& spec_selected_ranges(*ann, rid as int).len() > 0
                    &&& exists|ranges: Seq<SliceRange>|
                        {
                            &&& ranges.to_multiset() == spec_selected_ranges(
                                *ann,
                                rid as int,
                            ).to_multiset()
                            &&& ranges_sorted(ranges)
                            &&& final(dst).physics@ == phys_other(old(dst).physics@, rid_i)
                                + sliced_physics(src.physics@, rid_i, ranges)
                            &&& graphics_views(final(dst).graphics@) == gfx_other(
                                graphics_views(old(dst).graphics@),
                                rid_i,
                            ) + sliced_graphics(graphics_views(src.graphics@), rid_i, ranges)
                            &&& n as int == sliced_physics(src.physics@, rid_i, ranges).len()
                        }
                    &&& final(dst).recordings@ == old(dst).recordings@.filter(
                        pred_rec_other(rid_i),
                    ) + src.recordings@.filter(pred_rec_keep(rid_i))
                    &&& statics_views(final(dst).statics@) == statics_views(
                        old(dst).statics@,
                    ).filter(pred_stat_other(rid_i)) + statics_views(src.statics@).filter(
                        pred_stat_keep(rid_i),
                    )
                    &&& final(dst).ann_mirror@ == ann.annotations@.filter(
                        pred_ann_mirror(*ann, rid as int),
                    )
                    &&& final(dst).link_mirror@ == ann.links@.filter(
                        pred_link_mirror(*ann, rid as int),
                    )
                    &&& final(dst).tag_mirror@ == ann.tags@.filter(
                        pred_tag_mirror(*ann, rid as int),
                    )
                },
            }
        }),
{
    let rid_i = rid as i64;
    let found = read_annotation_ranges(ann, rid);
    if found.len() == 0 {
        dst.clear_recording(rid_i);
        return SliceOutcome::Cleared;
    }
    let ranges = sort_ranges(found);
    proof {
        broadcast use vstd::seq_lib::group_to_multiset_ensures;

        spec_selected_ranges(*ann, rid as int).to_multiset_ensures();
        ranges@.to_multiset_ensures();
    }
    dst.clear_recording(rid_i);
    let key = build_rid_key(rid);
    let sel = collect_selected_ids(ann, &key, Ghost(rid as int));
    dst.copy_mirrors(ann, &sel, Ghost(rid as int));
    dst.copy_parent_rows(src, rid_i);
    let ghost mid = *dst;
    let mut w: usize = 0;
    let mut copied: u64 = 0;
    while w < ranges.len()
        invariant
            w <= ranges@.len(),
            dst.physics@ =~= mid.physics@ + sliced_physics(
                src.physics@,
                rid_i,
                ranges@.take(w as int),
            ),
            graphics_views(dst.graphics@) =~= graphics_views(mid.graphics@) + sliced_graphics(
                graphics_views(src.graphics@),
                rid_i,
                ranges@.take(w as int),
            ),
            copied as int == sliced_physics(src.physics@, rid_i, ranges@.take(w as int)).len(),
            dst.recordings@ == mid.recordings@,
            dst.statics@ == mid.statics@,
            dst.ann_mirror@ == mid.ann_mirror@,
            dst.tag_mirror@ == mid.tag_mirror@,
            dst.link_mirror@ == mid.link_mirror@,
            copied <= dst.physics@.len(),
        decreases ranges@.len() - w,
    {
        let rg = ranges[w];
        let ghost pre_p = dst.physics@;
        let ghost pre_g = graphics_views(dst.graphics@);
        dst.copy_physics_window(&src.physics, rid_i, rg);
        dst.copy_graphics_window(&src.graphics, rid_i, rg);
        proof {
            lemma_sliced_physics_snoc(src.physics@, rid_i, ranges@.take(w as int), rg);
            lemma_sliced_graphics_snoc(
                graphics_views(src.graphics@),
                rid_i,
                ranges@.take(w as int),
                rg,
            );
            assert(ranges@.take(w as int).push(rg) =~= ranges@.take(w as int + 1));
        }
        let add = count_window(&src.physics, rid_i, rg);
        let cap = dst.physics.len();
        proof {
            assert(dst.physics@.len() == pre_p.len() + phys_in_window(
                src.physics@,
                rid_i,
                rg,
            ).len());
            assert(copied + add <= cap);
        }
        copied = copied + add;
        w = w + 1;
    }
    proof {
        assert(ranges@.take(ranges@.len() as int) =~= ranges@);
    }
    SliceOutcome::Copied(copied)
}

/// Appending one more window appends its rows.
proof fn lemma_sliced_physics_snoc(
    ps: Seq<PhysicsRow>,
    rid: i64,
    ranges: Seq<SliceRange>,
    rg: SliceRange,
)
    ensures
        sliced_physics(ps, rid, ranges.push(rg)) == sliced_physics(ps, rid, ranges)
            + phys_in_window(ps, rid, rg),
    decreases ranges.len(),
{
    reveal_with_fuel(sliced_physics, 3);
    if ranges.len() == 0 {
        assert(ranges.push(rg)[0] == rg);
        assert(ranges.push(rg).skip(1) =~= Seq::<SliceRange>::empty());
        assert(sliced_physics(ps, rid, ranges.push(rg)) =~= sliced_physics(ps, rid, ranges)
            + phys_in_window(ps, rid, rg));
    } else {
        lemma_sliced_physics_snoc(ps, rid, ranges.skip(1), rg);
        assert(ranges.push(rg)[0] == ranges[0]);
        assert(ranges.push(rg).skip(1) =~= ranges.skip(1).push(rg));
        assert(sliced_physics(ps, rid, ranges.push(rg)) =~= sliced_physics(ps, rid, ranges)
            + phys_in_window(ps, rid, rg));
    }
}

/// Appending one more window appends its rows.
proof fn lemma_sliced_graphics_snoc(
    gs: Seq<crate::store::GraphicsRowV>,
    rid: i64,
    ranges: Seq<SliceRange>,
    rg: SliceRange,
)
    ensures
        sliced_graphics(gs, rid, ranges.push(rg)) == sliced_graphics(gs, rid, ranges)
            + gfx_in_window(gs, rid, rg),
    decreases ranges.len(),
{
    reveal_with_fuel(sliced_graphics, 3);
    if ranges.len() == 0 {
        assert(ranges.push(rg)[0] == rg);
        assert(ranges.push(rg).skip(1) =~= Seq::<SliceRange>::empty());
        assert(sliced_graphics(gs, rid, ranges.push(rg)) =~= sliced_graphics(gs, rid, ranges)
            + gfx_in_window(gs, rid, rg));
    } else {
        lemma_sliced_graphics_snoc(gs, rid, ranges.skip(1), rg);
        assert(ranges.push(rg)[0] == ranges[0]);
        assert(ranges.push(rg).skip(1) =~= ranges.skip(1).push(rg));
        assert(sliced_graphics(gs, rid, ranges.push(rg)) =~= sliced_graphics(gs, rid, ranges)
            + gfx_in_window(gs, rid, rg));
    }
}

/// Number of physics rows of `rid` inside the window.
fn count_window(src: &Vec<PhysicsRow>, rid: i64, rg: SliceRange) -> (r: u64)
    ensures
        r as int == phys_in_window(src@, rid, rg).len(),
        r <= src@.len(),
{
    broadcast use vstd::seq_lib::group_filter_ensures;

    let total = src.len();
    proof {
        assert(src@.len() <= usize::MAX);
    }
    let mut n: u64 = 0;
    let mut i: usize = 0;
    while i < total
        invariant
            i <= src@.len(),
            total == src@.len(),
            src@.len() <= usize::MAX,
            n as int == src@.take(i as int).filter(pred_phys_win(rid, rg)).map_values(
                map_phys_tag(rg),
            ).len(),
            n <= i,
        decreases src@.len() - i,
    {
        proof {
            lemma_filter_take_step(src@, pred_phys_win(rid, rg), i as int);
        }
        let p = src[i];
        if p.recording_id == rid && rg.start_us <= p.time_offset_us && p.time_offset_us
            <= rg.end_us {
            n = n + 1;
        }
        i = i + 1;
    }
    proof {
        assert(src@.take(src@.len() as int) =~= src@);
    }
    n
}

// ------------------------------------------------------------------ laws

/// Every physics row the slicer copies lies inside the window of its
/// annotation and carries that annotation's id.
pub proof fn lemma_sliced_rows_in_windows(ps: Seq<PhysicsRow>, rid: i64, ranges: Seq<SliceRange>)
    ensures
        forall|k: int|
            0 <= k < sliced_physics(ps, rid, ranges).len() ==> exists|j: int|
                {
                    &&& 0 <= j < ranges.len()
                    &&& ranges[j].start_us <= (#[trigger] sliced_physics(
                        ps,
                        rid,
                        ranges,
                    )[k]).time_offset_us <= ranges[j].end_us
                    &&& sliced_physics(ps, rid, ranges)[k].annotation_id == Some(
                        ranges[j].annotation_id,
                    )
                    &&& sliced_physics(ps, rid, ranges)[k].recording_id == rid
                },
    decreases ranges.len(),
{
    broadcast use vstd::seq_lib::group_filter_ensures;

    if ranges.len() > 0 {
        lemma_sliced_rows_in_windows(ps, rid, ranges.skip(1));
        let head = phys_in_window(ps, rid, ranges[0]);
        let tail = sliced_physics(ps, rid, ranges.skip(1));
        let whole = sliced_physics(ps, rid, ranges);
        assert forall|k: int| 0 <= k < whole.len() implies exists|j: int|
            {
                &&& 0 <= j < ranges.len()
                &&& ranges[j].start_us <= (#[trigger] whole[k]).time_offset_us <= ranges[j].end_us
                &&& whole[k].annotation_id == Some(ranges[j].annotation_id)
                &&& whole[k].recording_id == rid
            } by {
            if k < head.len() {
                let f = ps.filter(pred_phys_win(rid, ranges[0]));
                assert(head[k] == map_phys_tag(ranges[0])(f[k]));
                assert(pred_phys_win(rid, ranges[0])(f[k]));
                assert(ranges[0].start_us <= whole[k].time_offset_us <= ranges[0].end_us
                    && whole[k].annotation_id == Some(ranges[0].annotation_id)
                    && whole[k].recording_id == rid);
            } else {
                assert(whole[k] == tail[k - head.len()]);
                let j0 = choose|j0: int|
                    {
                        &&& 0 <= j0 < ranges.skip(1).len()
                        &&& ranges.skip(1)[j0].start_us <= (#[trigger] tail[k
                            - head.len()]).time_offset_us <= ranges.skip(1)[j0].end_us
                        &&& tail[k - head.len()].annotation_id == Some(
                            ranges.skip(1)[j0].annotation_id,
                        )
                        &&& tail[k - head.len()].recording_id == rid
                    };
                assert(ranges[j0 + 1] == ranges.skip(1)[j0]);
                assert(ranges[j0 + 1].start_us <= whole[k].time_offset_us <= ranges[j0
                    + 1].end_us && whole[k].annotation_id == Some(ranges[j0 + 1].annotation_id));
            }
        }
    }
}

/// After a run with no matching annotation the destination holds no row at
/// all for the recording.
pub proof fn lemma_cleared_recording(
    ps: Seq<PhysicsRow>,
    gs: Seq<crate::store::GraphicsRowV>,
    ss: Seq<crate::store::StaticsRowV>,
    rs: Seq<RecordingRow>,
    rid: i64,
)
    ensures
        forall|k: int|
            0 <= k < phys_other(ps, rid).len() ==> (#[trigger] phys_other(ps, rid)[k]).recording_id
                != rid,
        forall|k: int|
            0 <= k < gfx_other(gs, rid).len() ==> (#[trigger] gfx_other(gs, rid)[k]).recording_id
                != rid,
        forall|k: int|
            0 <= k < ss.filter(pred_stat_other(rid)).len() ==> (#[trigger] ss.filter(
                pred_stat_other(rid),
            )[k]).recording_id != rid,
        forall|k: int|
            0 <= k < rs.filter(pred_rec_other(rid)).len() ==> (#[trigger] rs.filter(
                pred_rec_other(rid),
            )[k]).id != rid,
{
    broadcast use vstd::seq_lib::group_filter_ensures;

}

} // verus!
