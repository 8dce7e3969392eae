//! Annotations: points or ranges on a recording's time axis.
//!
//! Times are integer microseconds from recording start.  The analytical
//! store and the dashboard place an annotation on their time axis as
//! `(1_000_000_000 + time_offset_sec) * 1000`; the fixed shift is
//! [`TIME_AXIS_SHIFT_SECS`].

use vstd::multiset::Multiset;
use vstd::prelude::*;

verus! {

/// Fixed shift between the dashboard's time axis and recording time, in
/// seconds.
pub const TIME_AXIS_SHIFT_SECS: i64 = 1_000_000_000;

/// One annotation: a point (`time_end_us` absent) or a range.
#[derive(Clone, Debug)]
pub struct Annotation {
    /// Microseconds from recording start.
    pub time_offset_us: i64,
    /// End of a range annotation, microseconds from recording start.
    pub time_end_us: Option<i64>,
    /// Display text.
    pub text: String,
    /// Tag for filtering.
    pub tag: String,
}

/// Mathematical value of an [`Annotation`].
pub struct AnnotationV {
    pub time_offset_us: i64,
    pub time_end_us: Option<i64>,
    pub text: Seq<char>,
    pub tag: Seq<char>,
}

impl View for Annotation {
    type V = AnnotationV;

    open spec fn view(&self) -> AnnotationV {
        AnnotationV {
            time_offset_us: self.time_offset_us,
            time_end_us: self.time_end_us,
            text: self.text@,
            tag: self.tag@,
        }
    }
}

/// The abstract annotation sequence is sorted ascending by time offset.
pub open spec fn annotations_sorted(s: Seq<AnnotationV>) -> bool {
    forall|i: int, j: int|
        0 <= i < j < s.len() ==> #[trigger] s[i].time_offset_us <= #[trigger] s[j].time_offset_us
}

/// A vector of annotations is sorted ascending by time offset.
pub open spec fn annotation_vec_sorted(s: Seq<Annotation>) -> bool {
    forall|i: int, j: int|
        0 <= i < j < s.len() ==> #[trigger] s[i].time_offset_us <= #[trigger] s[j].time_offset_us
}

/// Abstract values of a vector of annotations.
pub open spec fn views_of(s: Seq<Annotation>) -> Seq<AnnotationV> {
    s.map_values(|a: Annotation| a@)
}

/// Vector-level sortedness carries over to the abstract sequence.
pub proof fn lemma_sorted_views(s: Seq<Annotation>)
    requires
        annotation_vec_sorted(s),
    ensures
        annotations_sorted(views_of(s)),
{
    assert forall|i: int, j: int| 0 <= i < j < views_of(s).len() implies #[trigger] views_of(
        s,
    )[i].time_offset_us <= #[trigger] views_of(s)[j].time_offset_us by {
        assert(views_of(s)[i] == s[i]@);
        assert(views_of(s)[j] == s[j]@);
    }
}

/// Merge synthesized and user annotations into one list sorted ascending by
/// time offset, as the exporter inserts them.
pub fn merge_annotations(sync: Vec<Annotation>, user: Vec<Annotation>) -> (r: Vec<Annotation>)
    ensures
        r@.len() == sync@.len() + user@.len(),
        annotation_vec_sorted(r@),
        views_of(r@).to_multiset() == views_of(sync@).to_multiset().add(
            views_of(user@).to_multiset(),
        ),
{
    let ghost sync0 = sync@;
    let mut all = sync;
    let ghost user0 = user@;
    let mut user = user;
    all.append(&mut user);
    proof {
        assert(views_of(all@) =~= views_of(sync0) + views_of(user0));
        vstd::seq_lib::lemma_multiset_commutative(views_of(sync0), views_of(user0));
    }
    sort_annotations(all)
}

/// Stable insertion sort of annotations by ascending time offset.
///
/// The result holds exactly the input annotations (as a multiset of abstract
/// values) in sorted order.
pub fn sort_annotations(v: Vec<Annotation>) -> (r: Vec<Annotation>)
    ensures
        r@.len() == v@.len(),
        annotation_vec_sorted(r@),
        views_of(r@).to_multiset() == views_of(v@).to_multiset(),
{
    broadcast use vstd::seq_lib::group_to_multiset_ensures;

    let mut out: Vec<Annotation> = Vec::new();
    let mut src = v;
    while src.len() > 0
        invariant
            annotation_vec_sorted(out@),
            views_of(out@).to_multiset().add(views_of(src@).to_multiset()) == views_of(
                v@,
            ).to_multiset(),
            out@.len() + src@.len() == v@.len(),
        decreases src@.len(),
    {
        let ghost out0 = out@;
        let ghost src0 = src@;
        let a = src.remove(0);
        proof {
            assert(views_of(src@) =~= views_of(src0).remove(0));
            views_of(src0).to_multiset_ensures();
            assert(views_of(src0)[0] == a@);
            assert(views_of(src@).to_multiset() =~= views_of(src0).to_multiset().remove(a@));
        }
        let mut k: usize = 0;
        while k < out.len() && out[k].time_offset_us <= a.time_offset_us
            invariant
                k <= out@.len(),
                out@ == out0,
                forall|i: int| 0 <= i < k ==> #[trigger] out@[i].time_offset_us <= a.time_offset_us,
            decreases out@.len() - k,
        {
            k = k + 1;
        }
        let ghost cut_high = k == out0.len() || out0[k as int].time_offset_us > a.time_offset_us;
        out.insert(k, a);
        proof {
            assert(out@ =~= out0.insert(k as int, a));
            assert(views_of(out@) =~= views_of(out0).insert(k as int, a@));
            assert(views_of(out@).to_multiset() =~= views_of(out0).to_multiset().insert(a@)) by {
                let m0 = views_of(out0);
                assert(m0.insert(k as int, a@) =~= (m0.take(k as int) + seq![a@]) + m0.skip(
                    k as int,
                ));
                vstd::seq_lib::lemma_multiset_commutative(m0.take(k as int) + seq![a@], m0.skip(k as int));
                vstd::seq_lib::lemma_multiset_commutative(m0.take(k as int), seq![a@]);
                vstd::seq_lib::lemma_multiset_commutative(m0.take(k as int), m0.skip(k as int));
                assert(m0.take(k as int) + m0.skip(k as int) =~= m0);
                seq![a@].to_multiset_ensures();
                assert(seq![a@] =~= Seq::<AnnotationV>::empty().push(a@));
                Seq::<AnnotationV>::empty().to_multiset_ensures();
            }
            assert(annotation_vec_sorted(out@)) by {
                assert forall|i: int, j: int| 0 <= i < j < out@.len() implies #[trigger] out@[i].time_offset_us
                    <= #[trigger] out@[j].time_offset_us by {
                    if i < k && j == k {
                        assert(out@[i] == out0[i]);
                    } else if i == k {
                        assert(out@[j] == out0[j - 1]);
                    } else if i < k && j > k {
                        assert(out@[i] == out0[i]);
                        assert(out@[j] == out0[j - 1]);
                    } else if j < k {
                        assert(out@[i] == out0[i]);
                        assert(out@[j] == out0[j]);
                    } else if i > k {
                        assert(out@[i] == out0[i - 1]);
                        assert(out@[j] == out0[j - 1]);
                    }
                }
            }
        }
    }
    proof {
        assert(views_of(src@) =~= Seq::<AnnotationV>::empty());
        Seq::<AnnotationV>::empty().to_multiset_ensures();
        assert(views_of(src@).to_multiset() =~= Multiset::<AnnotationV>::empty());
        assert(views_of(out@).to_multiset() =~= views_of(v@).to_multiset());
    }
    out
}

} // verus!
