//! Synthesized time-sync annotations.
//!
//! During offline export the physics sequence is scanned once: one annotation
//! at every index where the air temperature rises from at-or-below zero to
//! above zero (the simulator resets it when returning to the menu), and one
//! at the first index where speed crosses three km/h (the threshold rejects
//! stationary noise).  The synthesis is a pure function of the air-temperature
//! and speed profiles alone.

use vstd::prelude::*;

use crate::annotations::{Annotation, AnnotationV, annotations_sorted};
use crate::fbits::{
    f32b_gt_pos, f32b_gt_pos_exec, f32b_gt_zero, f32b_gt_zero_exec, f32b_le_pos, f32b_le_pos_exec,
    f32b_le_zero, f32b_le_zero_exec,
};
use crate::frames::PhysicsRecord;

verus! {

/// Bit pattern of the speed threshold, three km/h.
pub const SPEED_THRESHOLD_BITS: u32 = 0x4040_0000;

/// Tag of an air-temperature sync annotation.
pub const AIR_TEMP_TAG: &'static str = "sync_air_temp_gt_0";

/// Tag of the speed sync annotation.
pub const SPEED_TAG: &'static str = "sync_speed_gt_0";

/// Time offset of sample `i` at `hz` samples per second, in microseconds.
pub open spec fn spec_sample_time_us(i: int, hz: int) -> int {
    i * 1_000_000 / hz
}

/// The air temperature rises above zero at index `i`.
pub open spec fn air_edge(rs: Seq<PhysicsRecord>, i: int) -> bool {
    f32b_gt_zero(rs[i].air_temp) && (i == 0 || f32b_le_zero(rs[i - 1].air_temp))
}

/// The speed crosses the threshold at index `i`.
pub open spec fn speed_edge(rs: Seq<PhysicsRecord>, i: int) -> bool {
    f32b_gt_pos(rs[i].speed_kmh, SPEED_THRESHOLD_BITS) && (i == 0 || f32b_le_pos(
        rs[i - 1].speed_kmh,
        SPEED_THRESHOLD_BITS,
    ))
}

/// `i` is the first speed crossing.
pub open spec fn first_speed_edge(rs: Seq<PhysicsRecord>, i: int) -> bool {
    speed_edge(rs, i) && forall|j: int| 0 <= j < i ==> !speed_edge(rs, j)
}

/// Annotations contributed by index `i`: the air-temperature edge first,
/// then the speed edge.
pub open spec fn spec_sync_at(rs: Seq<PhysicsRecord>, hz: int, i: int) -> Seq<AnnotationV> {
    let t = spec_sample_time_us(i, hz) as i64;
    let air: Seq<AnnotationV> = if air_edge(rs, i) {
        seq![
            AnnotationV {
                time_offset_us: t,
                time_end_us: None,
                text: AIR_TEMP_TAG@,
                tag: AIR_TEMP_TAG@,
            },
        ]
    } else {
        Seq::empty()
    };
    let speed: Seq<AnnotationV> = if first_speed_edge(rs, i) {
        seq![
            AnnotationV {
                time_offset_us: t,
                time_end_us: None,
                text: SPEED_TAG@,
                tag: SPEED_TAG@,
            },
        ]
    } else {
        Seq::empty()
    };
    air + speed
}

/// All sync annotations of the first `n` samples, in index order.
pub open spec fn spec_sync_upto(rs: Seq<PhysicsRecord>, hz: int, n: int) -> Seq<AnnotationV>
    decreases n,
{
    if n <= 0 {
        Seq::empty()
    } else {
        spec_sync_upto(rs, hz, n - 1) + spec_sync_at(rs, hz, n - 1)
    }
}

/// The sync annotations of a whole physics sequence.
pub open spec fn spec_sync_annotations(rs: Seq<PhysicsRecord>, hz: int) -> Seq<AnnotationV> {
    spec_sync_upto(rs, hz, rs.len() as int)
}

/// Scan the physics sequence and synthesize the sync annotations, in
/// ascending time order.
pub fn sync_annotations_from_physics(records: &Vec<PhysicsRecord>, hz: u32) -> (r: Vec<Annotation>)
    requires
        hz >= 1,
        records@.len() * 1_000_000 <= i64::MAX,
    ensures
        r@.map_values(|a: Annotation| a@) == spec_sync_annotations(records@, hz as int),
{
    let mut out: Vec<Annotation> = Vec::new();
    let mut speed_done = false;
    let mut i: usize = 0;
    while i < records.len()
        invariant
            hz >= 1,
            i <= records@.len(),
            records@.len() * 1_000_000 <= i64::MAX,
            out@.map_values(|a: Annotation| a@) =~= spec_sync_upto(records@, hz as int, i as int),
            speed_done == exists|j: int| 0 <= j < i && speed_edge(records@, j),
        decreases records@.len() - i,
    {
        proof {
            assert(i * 1_000_000 <= records@.len() * 1_000_000) by (nonlinear_arith)
                requires i <= records@.len();
            assert(i * 1_000_000 / (hz as int) <= i * 1_000_000) by (nonlinear_arith)
                requires hz >= 1, 0 <= i;
        }
        let t = ((i as u64) * 1_000_000 / (hz as u64)) as i64;
        proof {
            assert(t as int == spec_sample_time_us(i as int, hz as int));
        }
        let air_hit = f32b_gt_zero_exec(records[i].air_temp) && (i == 0 || f32b_le_zero_exec(
            records[i - 1].air_temp,
        ));
        if air_hit {
            out.push(
                Annotation {
                    time_offset_us: t,
                    time_end_us: None,
                    text: String::from_str(AIR_TEMP_TAG),
                    tag: String::from_str(AIR_TEMP_TAG),
                },
            );
        }
        let speed_hit = !speed_done && f32b_gt_pos_exec(records[i].speed_kmh, SPEED_THRESHOLD_BITS)
            && (i == 0 || f32b_le_pos_exec(records[i - 1].speed_kmh, SPEED_THRESHOLD_BITS));
        if speed_hit {
            speed_done = true;
            out.push(
                Annotation {
                    time_offset_us: t,
                    time_end_us: None,
                    text: String::from_str(SPEED_TAG),
                    tag: String::from_str(SPEED_TAG),
                },
            );
        } else {
            proof {
                if f32b_gt_pos(records@[i as int].speed_kmh, SPEED_THRESHOLD_BITS) && (i == 0
                    || f32b_le_pos(records@[i as int - 1].speed_kmh, SPEED_THRESHOLD_BITS)) {
                    assert(speed_edge(records@, i as int));
                }
            }
        }
        proof {
            assert(speed_hit == first_speed_edge(records@, i as int));
            assert(out@.map_values(|a: Annotation| a@) =~= spec_sync_upto(
                records@,
                hz as int,
                i as int + 1,
            ));
        }
        i = i + 1;
    }
    out
}

/// The synthesized annotations come out sorted ascending by time offset.
pub proof fn lemma_sync_sorted(rs: Seq<PhysicsRecord>, hz: int, n: int)
    requires
        hz >= 1,
        n <= rs.len(),
        rs.len() * 1_000_000 <= i64::MAX,
    ensures
        annotations_sorted(spec_sync_upto(rs, hz, n)),
        forall|k: int|
            0 <= k < spec_sync_upto(rs, hz, n).len() ==> #[trigger] spec_sync_upto(
                rs,
                hz,
                n,
            )[k].time_offset_us <= spec_sample_time_us(n - 1, hz),
    decreases n,
{
    if n > 0 {
        lemma_sync_sorted(rs, hz, n - 1);
        assert(spec_sample_time_us(n - 2, hz) <= spec_sample_time_us(n - 1, hz))
            by (nonlinear_arith)
            requires hz >= 1;
        assert((n - 1) * 1_000_000 / hz >= 0) by (nonlinear_arith)
            requires hz >= 1, n >= 1;
    }
}

/// Determinism: the synthesis depends on the air-temperature and speed
/// profiles alone — two sequences that agree on them, at the same rate,
/// yield the same annotations.
pub proof fn lemma_sync_deterministic(rs1: Seq<PhysicsRecord>, rs2: Seq<PhysicsRecord>, hz: int)
    requires
        rs1.len() == rs2.len(),
        forall|i: int|
            0 <= i < rs1.len() ==> (#[trigger] rs1[i]).air_temp == rs2[i].air_temp
                && rs1[i].speed_kmh == rs2[i].speed_kmh,
    ensures
        spec_sync_annotations(rs1, hz) == spec_sync_annotations(rs2, hz),
{
    lemma_sync_upto_deterministic(rs1, rs2, hz, rs1.len() as int);
}

proof fn lemma_sync_upto_deterministic(
    rs1: Seq<PhysicsRecord>,
    rs2: Seq<PhysicsRecord>,
    hz: int,
    n: int,
)
    requires
        rs1.len() == rs2.len(),
        n <= rs1.len(),
        forall|i: int|
            0 <= i < rs1.len() ==> (#[trigger] rs1[i]).air_temp == rs2[i].air_temp
                && rs1[i].speed_kmh == rs2[i].speed_kmh,
    ensures
        spec_sync_upto(rs1, hz, n) == spec_sync_upto(rs2, hz, n),
    decreases n,
{
    if n > 0 {
        lemma_sync_upto_deterministic(rs1, rs2, hz, n - 1);
        assert(air_edge(rs1, n - 1) == air_edge(rs2, n - 1));
        assert(speed_edge(rs1, n - 1) == speed_edge(rs2, n - 1));
        assert(first_speed_edge(rs1, n - 1) == first_speed_edge(rs2, n - 1)) by {
            assert forall|j: int| 0 <= j < n - 1 implies speed_edge(rs1, j) == speed_edge(
                rs2,
                j,
            ) by {
                assert(rs1[j].speed_kmh == rs2[j].speed_kmh) by {
                    assert(rs1[j].air_temp == rs2[j].air_temp);
                }
                if j > 0 {
                    assert(rs1[j - 1].speed_kmh == rs2[j - 1].speed_kmh) by {
                        assert(rs1[j - 1].air_temp == rs2[j - 1].air_temp);
                    }
                }
            }
        }
        assert(spec_sync_at(rs1, hz, n - 1) == spec_sync_at(rs2, hz, n - 1));
    }
}

} // verus!
