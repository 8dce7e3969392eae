//! Word-level encoding of graphics records for the chunked raw log.
//!
//! Like the physics codec, one record is a fixed number of 32-bit words,
//! each field in declaration order.  A wide-string field occupies its
//! declared capacity minus the terminator cell: the decoded cells first,
//! then zero words; decoding stops at the first zero cell, so the
//! encoding is lossless for every decoded record.

use vstd::prelude::*;

use crate::codec::{bool_word, bool_word_exec};
use crate::frames::{GraphicsRecord, GraphicsRecordV, cells_wf};
use crate::shm::{
    i32_as_word, i32_to_word, lemma_take_until_nul, lemma_take_until_nul_all,
    lemma_take_until_nul_prefix, spec_word_to_i32_value, take_until_nul, word_to_i32,
};

verus! {

/// Words one graphics record occupies in a batch payload.
pub const GFX_WORDS: usize = 225;

/// The word a wide-string slot holds at index `i`: the cell, or zero
/// padding past the end.
pub open spec fn ws_cell(cells: Seq<u16>, i: int) -> u32 {
    if 0 <= i < cells.len() {
        cells[i] as u32
    } else {
        0
    }
}

/// The `n` words of a wide-string field.
pub open spec fn ws_words(cells: Seq<u16>, n: int) -> Seq<u32> {
    Seq::new(n as nat, |i: int| ws_cell(cells, i))
}

/// The cells a wide-string slot of `n` words decodes to: low halves up
/// to the first zero.
pub open spec fn ws_of_words(w: Seq<u32>, off: int, n: int) -> Seq<u16> {
    take_until_nul(Seq::new(n as nat, |i: int| (w[off + i] & 0xffff) as u16))
}

/// Append the `n` words of a wide-string field.
fn push_ws(out: &mut Vec<u32>, cells: &Vec<u16>, n: usize)
    requires
        cells@.len() <= n,
    ensures
        final(out)@ == old(out)@ + ws_words(cells@, n as int),
{
    let mut i: usize = 0;
    while i < n
        invariant
            i <= n,
            cells@.len() <= n,
            out@ =~= old(out)@ + ws_words(cells@, n as int).take(i as int),
        decreases n - i,
    {
        if i < cells.len() {
            out.push(cells[i] as u32);
        } else {
            out.push(0);
        }
        proof {
            assert(out@ =~= old(out)@ + ws_words(cells@, n as int).take(i as int + 1));
        }
        i = i + 1;
    }
    proof {
        assert(ws_words(cells@, n as int).take(n as int) =~= ws_words(cells@, n as int));
    }
}

/// A zero-free cell sequence survives padding to `n` slots and decoding.
proof fn lemma_ws_roundtrip(f: Seq<u16>, n: int)
    requires
        0 <= n,
        f.len() <= n,
        forall|i: int| 0 <= i < f.len() ==> #[trigger] f[i] != 0,
    ensures
        take_until_nul(Seq::new(n as nat, |i: int| (ws_cell(f, i) & 0xffff) as u16)) == f,
{
    let cells = Seq::new(n as nat, |i: int| (ws_cell(f, i) & 0xffff) as u16);
    assert forall|i: int| 0 <= i < n implies #[trigger] cells[i] == ws_cell_low(f, i) by {
        lemma_cell_mask_inner(f, i);
    }
    if f.len() < n {
        assert(cells[f.len() as int] == 0);
        lemma_take_until_nul_prefix(cells, f.len() as int);
        assert(take_until_nul(cells) =~= f);
    } else {
        lemma_take_until_nul_all(cells);
        assert(take_until_nul(cells) =~= f);
    }
}

/// Low half of a padded cell, as the decode computes it.
spec fn ws_cell_low(f: Seq<u16>, i: int) -> u16 {
    if 0 <= i < f.len() {
        f[i]
    } else {
        0
    }
}

proof fn lemma_cell_mask_inner(f: Seq<u16>, i: int)
    ensures
        ((ws_cell(f, i) & 0xffff) as u16) == ws_cell_low(f, i),
{
    if 0 <= i < f.len() {
        let x = f[i];
        assert((((x as u32) & 0xffff) as u16) == x) by (bit_vector);
    } else {
        assert(((0u32 & 0xffff) as u16) == 0u16) by (bit_vector);
    }
}

/// Words of part 1 of a record.
pub open spec fn gfx_words_p1(v: GraphicsRecordV) -> Seq<u32> {
    seq![i32_as_word(v.packet_id), i32_as_word(v.status), i32_as_word(v.session_type), i32_as_word(v.session_index)] + ws_words(v.current_time_str, 14)
}

/// Words of part 2 of a record.
pub open spec fn gfx_words_p2(v: GraphicsRecordV) -> Seq<u32> {
    ws_words(v.last_time_str, 14) + ws_words(v.best_time_str, 14) + ws_words(v.last_sector_time_str, 14) + seq![i32_as_word(v.completed_lap), i32_as_word(v.position)]
}

/// Words of part 3 of a record.
pub open spec fn gfx_words_p3(v: GraphicsRecordV) -> Seq<u32> {
    seq![i32_as_word(v.current_time), i32_as_word(v.last_time), i32_as_word(v.best_time), i32_as_word(v.last_sector_time), i32_as_word(v.number_of_laps)]
}

/// Words of part 4 of a record.
pub open spec fn gfx_words_p4(v: GraphicsRecordV) -> Seq<u32> {
    ws_words(v.delta_lap_time_str, 14) + ws_words(v.estimated_lap_time_str, 14) + seq![i32_as_word(v.delta_lap_time), i32_as_word(v.estimated_lap_time), bool_word(v.is_delta_positive)]
}

/// Words of part 5 of a record.
pub open spec fn gfx_words_p5(v: GraphicsRecordV) -> Seq<u32> {
    seq![bool_word(v.is_valid_lap), v.fuel_estimated_laps, v.distance_traveled, v.normalized_car_position, v.session_time_left]
}

/// Words of part 6 of a record.
pub open spec fn gfx_words_p6(v: GraphicsRecordV) -> Seq<u32> {
    seq![i32_as_word(v.current_sector_index), bool_word(v.is_in_pit), bool_word(v.is_in_pit_lane), bool_word(v.ideal_line_on), bool_word(v.mandatory_pit_done)]
}

/// Words of part 7 of a record.
pub open spec fn gfx_words_p7(v: GraphicsRecordV) -> Seq<u32> {
    seq![i32_as_word(v.missing_mandatory_pits), v.penalty_time, i32_as_word(v.penalty), i32_as_word(v.flag), i32_as_word(v.player_car_id)]
}

/// Words of part 8 of a record.
pub open spec fn gfx_words_p8(v: GraphicsRecordV) -> Seq<u32> {
    seq![i32_as_word(v.active_cars), v.car_coordinates_x, v.car_coordinates_y, v.car_coordinates_z, v.wind_speed]
}

/// Words of part 9 of a record.
pub open spec fn gfx_words_p9(v: GraphicsRecordV) -> Seq<u32> {
    seq![v.wind_direction, i32_as_word(v.rain_intensity), i32_as_word(v.rain_intensity_in_10min), i32_as_word(v.rain_intensity_in_30min), i32_as_word(v.track_grip_status)]
}

/// Words of part 10 of a record.
pub open spec fn gfx_words_p10(v: GraphicsRecordV) -> Seq<u32> {
    ws_words(v.track_status, 32) + seq![v.clock, i32_as_word(v.tc_level), i32_as_word(v.tc_cut_level), i32_as_word(v.engine_map)]
}

/// Words of part 11 of a record.
pub open spec fn gfx_words_p11(v: GraphicsRecordV) -> Seq<u32> {
    seq![i32_as_word(v.abs_level), i32_as_word(v.wiper_stage), i32_as_word(v.driver_stint_total_time_left), i32_as_word(v.driver_stint_time_left), bool_word(v.rain_tyres)]
}

/// Words of part 12 of a record.
pub open spec fn gfx_words_p12(v: GraphicsRecordV) -> Seq<u32> {
    seq![bool_word(v.rain_light), bool_word(v.flashing_light), i32_as_word(v.light_stage), bool_word(v.direction_light_left), bool_word(v.direction_light_right)]
}

/// Words of part 13 of a record.
pub open spec fn gfx_words_p13(v: GraphicsRecordV) -> Seq<u32> {
    ws_words(v.tyre_compound, 32) + seq![bool_word(v.is_setup_menu_visible), i32_as_word(v.main_display_index), i32_as_word(v.secondary_display_index), v.fuel_per_lap]
}

/// Words of part 14 of a record.
pub open spec fn gfx_words_p14(v: GraphicsRecordV) -> Seq<u32> {
    seq![v.used_fuel, v.exhaust_temp, i32_as_word(v.gap_ahead), i32_as_word(v.gap_behind), bool_word(v.global_yellow)]
}

/// Words of part 15 of a record.
pub open spec fn gfx_words_p15(v: GraphicsRecordV) -> Seq<u32> {
    seq![bool_word(v.global_yellow_s1), bool_word(v.global_yellow_s2), bool_word(v.global_yellow_s3), bool_word(v.global_white), bool_word(v.global_green)]
}

/// Words of part 16 of a record.
pub open spec fn gfx_words_p16(v: GraphicsRecordV) -> Seq<u32> {
    seq![bool_word(v.global_chequered), bool_word(v.global_red), i32_as_word(v.mfd_tyre_set), v.mfd_fuel_to_add, v.mfd_tyre_pressure_fl]
}

/// Words of part 17 of a record.
pub open spec fn gfx_words_p17(v: GraphicsRecordV) -> Seq<u32> {
    seq![v.mfd_tyre_pressure_fr, v.mfd_tyre_pressure_rl, v.mfd_tyre_pressure_rr, i32_as_word(v.current_tyre_set), i32_as_word(v.strategy_tyre_set)]
}

/// All words of one record, in field declaration order.
pub open spec fn gfx_words(v: GraphicsRecordV) -> Seq<u32> {
    gfx_words_p1(v) + gfx_words_p2(v) + gfx_words_p3(v) + gfx_words_p4(v) + gfx_words_p5(v) + gfx_words_p6(v) + gfx_words_p7(v) + gfx_words_p8(v) + gfx_words_p9(v) + gfx_words_p10(v) + gfx_words_p11(v) + gfx_words_p12(v) + gfx_words_p13(v) + gfx_words_p14(v) + gfx_words_p15(v) + gfx_words_p16(v) + gfx_words_p17(v)
}

/// One record is always the same number of words.
pub proof fn lemma_gfx_words_len(v: GraphicsRecordV)
    ensures
        gfx_words(v).len() == GFX_WORDS,
{
}

fn encode_gfx_p1(out: &mut Vec<u32>, r: &GraphicsRecord)
    requires
        r@.strings_wf(),
    ensures
        final(out)@ == old(out)@ + gfx_words_p1(r@),
{
    out.push(i32_to_word(r.packet_id));
    out.push(i32_to_word(r.status));
    out.push(i32_to_word(r.session_type));
    out.push(i32_to_word(r.session_index));
    push_ws(out, &r.current_time_str, 14);
    proof {
        assert(out@ =~= old(out)@ + gfx_words_p1(r@));
    }
}

fn encode_gfx_p2(out: &mut Vec<u32>, r: &GraphicsRecord)
    requires
        r@.strings_wf(),
    ensures
        final(out)@ == old(out)@ + gfx_words_p2(r@),
{
    push_ws(out, &r.last_time_str, 14);
    push_ws(out, &r.best_time_str, 14);
    push_ws(out, &r.last_sector_time_str, 14);
    out.push(i32_to_word(r.completed_lap));
    out.push(i32_to_word(r.position));
    proof {
        assert(out@ =~= old(out)@ + gfx_words_p2(r@));
    }
}

fn encode_gfx_p3(out: &mut Vec<u32>, r: &GraphicsRecord)
    requires
        r@.strings_wf(),
    ensures
        final(out)@ == old(out)@ + gfx_words_p3(r@),
{
    out.push(i32_to_word(r.current_time));
    out.push(i32_to_word(r.last_time));
    out.push(i32_to_word(r.best_time));
    out.push(i32_to_word(r.last_sector_time));
    out.push(i32_to_word(r.number_of_laps));
    proof {
        assert(out@ =~= old(out)@ + gfx_words_p3(r@));
    }
}

fn encode_gfx_p4(out: &mut Vec<u32>, r: &GraphicsRecord)
    requires
        r@.strings_wf(),
    ensures
        final(out)@ == old(out)@ + gfx_words_p4(r@),
{
    push_ws(out, &r.delta_lap_time_str, 14);
    push_ws(out, &r.estimated_lap_time_str, 14);
    out.push(i32_to_word(r.delta_lap_time));
    out.push(i32_to_word(r.estimated_lap_time));
    out.push(bool_word_exec(r.is_delta_positive));
    proof {
        assert(out@ =~= old(out)@ + gfx_words_p4(r@));
    }
}

fn encode_gfx_p5(out: &mut Vec<u32>, r: &GraphicsRecord)
    requires
        r@.strings_wf(),
    ensures
        final(out)@ == old(out)@ + gfx_words_p5(r@),
{
    out.push(bool_word_exec(r.is_valid_lap));
    out.push(r.fuel_estimated_laps);
    out.push(r.distance_traveled);
    out.push(r.normalized_car_position);
    out.push(r.session_time_left);
    proof {
        assert(out@ =~= old(out)@ + gfx_words_p5(r@));
    }
}

fn encode_gfx_p6(out: &mut Vec<u32>, r: &GraphicsRecord)
    requires
        r@.strings_wf(),
    ensures
        final(out)@ == old(out)@ + gfx_words_p6(r@),
{
    out.push(i32_to_word(r.current_sector_index));
    out.push(bool_word_exec(r.is_in_pit));
    out.push(bool_word_exec(r.is_in_pit_lane));
    out.push(bool_word_exec(r.ideal_line_on));
    out.push(bool_word_exec(r.mandatory_pit_done));
    proof {
        assert(out@ =~= old(out)@ + gfx_words_p6(r@));
    }
}

fn encode_gfx_p7(out: &mut Vec<u32>, r: &GraphicsRecord)
    requires
        r@.strings_wf(),
    ensures
        final(out)@ == old(out)@ + gfx_words_p7(r@),
{
    out.push(i32_to_word(r.missing_mandatory_pits));
    out.push(r.penalty_time);
    out.push(i32_to_word(r.penalty));
    out.push(i32_to_word(r.flag));
    out.push(i32_to_word(r.player_car_id));
    proof {
        assert(out@ =~= old(out)@ + gfx_words_p7(r@));
    }
}

fn encode_gfx_p8(out: &mut Vec<u32>, r: &GraphicsRecord)
    requires
        r@.strings_wf(),
    ensures
        final(out)@ == old(out)@ + gfx_words_p8(r@),
{
    out.push(i32_to_word(r.active_cars));
    out.push(r.car_coordinates_x);
    out.push(r.car_coordinates_y);
    out.push(r.car_coordinates_z);
    out.push(r.wind_speed);
    proof {
        assert(out@ =~= old(out)@ + gfx_words_p8(r@));
    }
}

fn encode_gfx_p9(out: &mut Vec<u32>, r: &GraphicsRecord)
    requires
        r@.strings_wf(),
    ensures
        final(out)@ == old(out)@ + gfx_words_p9(r@),
{
    out.push(r.wind_direction);
    out.push(i32_to_word(r.rain_intensity));
    out.push(i32_to_word(r.rain_intensity_in_10min));
    out.push(i32_to_word(r.rain_intensity_in_30min));
    out.push(i32_to_word(r.track_grip_status));
    proof {
        assert(out@ =~= old(out)@ + gfx_words_p9(r@));
    }
}

fn encode_gfx_p10(out: &mut Vec<u32>, r: &GraphicsRecord)
    requires
        r@.strings_wf(),
    ensures
        final(out)@ == old(out)@ + gfx_words_p10(r@),
{
    push_ws(out, &r.track_status, 32);
    out.push(r.clock);
    out.push(i32_to_word(r.tc_level));
    out.push(i32_to_word(r.tc_cut_level));
    out.push(i32_to_word(r.engine_map));
    proof {
        assert(out@ =~= old(out)@ + gfx_words_p10(r@));
    }
}

fn encode_gfx_p11(out: &mut Vec<u32>, r: &GraphicsRecord)
    requires
        r@.strings_wf(),
    ensures
        final(out)@ == old(out)@ + gfx_words_p11(r@),
{
    out.push(i32_to_word(r.abs_level));
    out.push(i32_to_word(r.wiper_stage));
    out.push(i32_to_word(r.driver_stint_total_time_left));
    out.push(i32_to_word(r.driver_stint_time_left));
    out.push(bool_word_exec(r.rain_tyres));
    proof {
        assert(out@ =~= old(out)@ + gfx_words_p11(r@));
    }
}

fn encode_gfx_p12(out: &mut Vec<u32>, r: &GraphicsRecord)
    requires
        r@.strings_wf(),
    ensures
        final(out)@ == old(out)@ + gfx_words_p12(r@),
{
    out.push(bool_word_exec(r.rain_light));
    out.push(bool_word_exec(r.flashing_light));
    out.push(i32_to_word(r.light_stage));
    out.push(bool_word_exec(r.direction_light_left));
    out.push(bool_word_exec(r.direction_light_right));
    proof {
        assert(out@ =~= old(out)@ + gfx_words_p12(r@));
    }
}

fn encode_gfx_p13(out: &mut Vec<u32>, r: &GraphicsRecord)
    requires
        r@.strings_wf(),
    ensures
        final(out)@ == old(out)@ + gfx_words_p13(r@),
{
    push_ws(out, &r.tyre_compound, 32);
    out.push(bool_word_exec(r.is_setup_menu_visible));
    out.push(i32_to_word(r.main_display_index));
    out.push(i32_to_word(r.secondary_display_index));
    out.push(r.fuel_per_lap);
    proof {
        assert(out@ =~= old(out)@ + gfx_words_p13(r@));
    }
}

fn encode_gfx_p14(out: &mut Vec<u32>, r: &GraphicsRecord)
    requires
        r@.strings_wf(),
    ensures
        final(out)@ == old(out)@ + gfx_words_p14(r@),
{
    out.push(r.used_fuel);
    out.push(r.exhaust_temp);
    out.push(i32_to_word(r.gap_ahead));
    out.push(i32_to_word(r.gap_behind));
    out.push(bool_word_exec(r.global_yellow));
    proof {
        assert(out@ =~= old(out)@ + gfx_words_p14(r@));
    }
}

fn encode_gfx_p15(out: &mut Vec<u32>, r: &GraphicsRecord)
    requires
        r@.strings_wf(),
    ensures
        final(out)@ == old(out)@ + gfx_words_p15(r@),
{
    out.push(bool_word_exec(r.global_yellow_s1));
    out.push(bool_word_exec(r.global_yellow_s2));
    out.push(bool_word_exec(r.global_yellow_s3));
    out.push(bool_word_exec(r.global_white));
    out.push(bool_word_exec(r.global_green));
    proof {
        assert(out@ =~= old(out)@ + gfx_words_p15(r@));
    }
}

fn encode_gfx_p16(out: &mut Vec<u32>, r: &GraphicsRecord)
    requires
        r@.strings_wf(),
    ensures
        final(out)@ == old(out)@ + gfx_words_p16(r@),
{
    out.push(bool_word_exec(r.global_chequered));
    out.push(bool_word_exec(r.global_red));
    out.push(i32_to_word(r.mfd_tyre_set));
    out.push(r.mfd_fuel_to_add);
    out.push(r.mfd_tyre_pressure_fl);
    proof {
        assert(out@ =~= old(out)@ + gfx_words_p16(r@));
    }
}

fn encode_gfx_p17(out: &mut Vec<u32>, r: &GraphicsRecord)
    requires
        r@.strings_wf(),
    ensures
        final(out)@ == old(out)@ + gfx_words_p17(r@),
{
    out.push(r.mfd_tyre_pressure_fr);
    out.push(r.mfd_tyre_pressure_rl);
    out.push(r.mfd_tyre_pressure_rr);
    out.push(i32_to_word(r.current_tyre_set));
    out.push(i32_to_word(r.strategy_tyre_set));
    proof {
        assert(out@ =~= old(out)@ + gfx_words_p17(r@));
    }
}

/// Append the words of one record to `out`.
pub fn encode_gfx_record(out: &mut Vec<u32>, r: &GraphicsRecord)
    requires
        r@.strings_wf(),
    ensures
        final(out)@ == old(out)@ + gfx_words(r@),
        final(out)@.len() == old(out)@.len() + GFX_WORDS,
{
    encode_gfx_p1(out, r);
    encode_gfx_p2(out, r);
    encode_gfx_p3(out, r);
    encode_gfx_p4(out, r);
    encode_gfx_p5(out, r);
    encode_gfx_p6(out, r);
    encode_gfx_p7(out, r);
    encode_gfx_p8(out, r);
    encode_gfx_p9(out, r);
    encode_gfx_p10(out, r);
    encode_gfx_p11(out, r);
    encode_gfx_p12(out, r);
    encode_gfx_p13(out, r);
    encode_gfx_p14(out, r);
    encode_gfx_p15(out, r);
    encode_gfx_p16(out, r);
    encode_gfx_p17(out, r);
    proof {
        assert(out@ =~= old(out)@ + gfx_words(r@));
        lemma_gfx_words_len(r@);
    }
}

/// The record value encoded by the words starting at `base`.
pub open spec fn gfx_of_words(w: Seq<u32>, base: int) -> GraphicsRecordV
    recommends
        0 <= base,
        base + GFX_WORDS <= w.len(),
{
    GraphicsRecordV {
        packet_id: spec_word_to_i32_value(w[base + 0]),
        status: spec_word_to_i32_value(w[base + 1]),
        session_type: spec_word_to_i32_value(w[base + 2]),
        session_index: spec_word_to_i32_value(w[base + 3]),
        current_time_str: ws_of_words(w, base + 4, 14),
        last_time_str: ws_of_words(w, base + 18, 14),
        best_time_str: ws_of_words(w, base + 32, 14),
        last_sector_time_str: ws_of_words(w, base + 46, 14),
        completed_lap: spec_word_to_i32_value(w[base + 60]),
        position: spec_word_to_i32_value(w[base + 61]),
        current_time: spec_word_to_i32_value(w[base + 62]),
        last_time: spec_word_to_i32_value(w[base + 63]),
        best_time: spec_word_to_i32_value(w[base + 64]),
        last_sector_time: spec_word_to_i32_value(w[base + 65]),
        number_of_laps: spec_word_to_i32_value(w[base + 66]),
        delta_lap_time_str: ws_of_words(w, base + 67, 14),
        estimated_lap_time_str: ws_of_words(w, base + 81, 14),
        delta_lap_time: spec_word_to_i32_value(w[base + 95]),
        estimated_lap_time: spec_word_to_i32_value(w[base + 96]),
        is_delta_positive: (w[base + 97] != 0),
        is_valid_lap: (w[base + 98] != 0),
        fuel_estimated_laps: w[base + 99],
        distance_traveled: w[base + 100],
        normalized_car_position: w[base + 101],
        session_time_left: w[base + 102],
        current_sector_index: spec_word_to_i32_value(w[base + 103]),
        is_in_pit: (w[base + 104] != 0),
        is_in_pit_lane: (w[base + 105] != 0),
        ideal_line_on: (w[base + 106] != 0),
        mandatory_pit_done: (w[base + 107] != 0),
        missing_mandatory_pits: spec_word_to_i32_value(w[base + 108]),
        penalty_time: w[base + 109],
        penalty: spec_word_to_i32_value(w[base + 110]),
        flag: spec_word_to_i32_value(w[base + 111]),
        player_car_id: spec_word_to_i32_value(w[base + 112]),
        active_cars: spec_word_to_i32_value(w[base + 113]),
        car_coordinates_x: w[base + 114],
        car_coordinates_y: w[base + 115],
        car_coordinates_z: w[base + 116],
        wind_speed: w[base + 117],
        wind_direction: w[base + 118],
        rain_intensity: spec_word_to_i32_value(w[base + 119]),
        rain_intensity_in_10min: spec_word_to_i32_value(w[base + 120]),
        rain_intensity_in_30min: spec_word_to_i32_value(w[base + 121]),
        track_grip_status: spec_word_to_i32_value(w[base + 122]),
        track_status: ws_of_words(w, base + 123, 32),
        clock: w[base + 155],
        tc_level: spec_word_to_i32_value(w[base + 156]),
        tc_cut_level: spec_word_to_i32_value(w[base + 157]),
        engine_map: spec_word_to_i32_value(w[base + 158]),
        abs_level: spec_word_to_i32_value(w[base + 159]),
        wiper_stage: spec_word_to_i32_value(w[base + 160]),
        driver_stint_total_time_left: spec_word_to_i32_value(w[base + 161]),
        driver_stint_time_left: spec_word_to_i32_value(w[base + 162]),
        rain_tyres: (w[base + 163] != 0),
        rain_light: (w[base + 164] != 0),
        flashing_light: (w[base + 165] != 0),
        light_stage: spec_word_to_i32_value(w[base + 166]),
        direction_light_left: (w[base + 167] != 0),
        direction_light_right: (w[base + 168] != 0),
        tyre_compound: ws_of_words(w, base + 169, 32),
        is_setup_menu_visible: (w[base + 201] != 0),
        main_display_index: spec_word_to_i32_value(w[base + 202]),
        secondary_display_index: spec_word_to_i32_value(w[base + 203]),
        fuel_per_lap: w[base + 204],
        used_fuel: w[base + 205],
        exhaust_temp: w[base + 206],
        gap_ahead: spec_word_to_i32_value(w[base + 207]),
        gap_behind: spec_word_to_i32_value(w[base + 208]),
        global_yellow: (w[base + 209] != 0),
        global_yellow_s1: (w[base + 210] != 0),
        global_yellow_s2: (w[base + 211] != 0),
        global_yellow_s3: (w[base + 212] != 0),
        global_white: (w[base + 213] != 0),
        global_green: (w[base + 214] != 0),
        global_chequered: (w[base + 215] != 0),
        global_red: (w[base + 216] != 0),
        mfd_tyre_set: spec_word_to_i32_value(w[base + 217]),
        mfd_fuel_to_add: w[base + 218],
        mfd_tyre_pressure_fl: w[base + 219],
        mfd_tyre_pressure_fr: w[base + 220],
        mfd_tyre_pressure_rl: w[base + 221],
        mfd_tyre_pressure_rr: w[base + 222],
        current_tyre_set: spec_word_to_i32_value(w[base + 223]),
        strategy_tyre_set: spec_word_to_i32_value(w[base + 224]),
    }
}

#[verifier::rlimit(90)]
proof fn lemma_gfx_roundtrip_p1(v: GraphicsRecordV, w: Seq<u32>, base: int)
    requires
        v.strings_wf(),
        0 <= base,
        base + GFX_WORDS <= w.len(),
        forall|j: int| 0 <= j < GFX_WORDS ==> w[base + j] == #[trigger] gfx_words(v)[j],
    ensures
        gfx_of_words(w, base).packet_id == v.packet_id,
        gfx_of_words(w, base).status == v.status,
        gfx_of_words(w, base).session_type == v.session_type,
        gfx_of_words(w, base).session_index == v.session_index,
        gfx_of_words(w, base).current_time_str == v.current_time_str,
{
    assert(w[base + 0] == gfx_words(v)[0]);
    assert(w[base + 1] == gfx_words(v)[1]);
    assert(w[base + 2] == gfx_words(v)[2]);
    assert(w[base + 3] == gfx_words(v)[3]);
    assert(ws_of_words(w, base + 4, 14) == v.current_time_str) by {
        assert forall|i: int| 0 <= i < 14 implies w[base + 4 + i] == #[trigger] ws_cell(v.current_time_str, i) by {
            assert(w[base + (4 + i)] == gfx_words(v)[4 + i]);
        }
        assert(Seq::new(14 as nat, |i: int| (w[base + 4 + i] & 0xffff) as u16) =~= Seq::new(
            14 as nat,
            |i: int| (ws_cell(v.current_time_str, i) & 0xffff) as u16,
        ));
        lemma_ws_roundtrip(v.current_time_str, 14);
    }
}

#[verifier::rlimit(90)]
proof fn lemma_gfx_roundtrip_p2(v: GraphicsRecordV, w: Seq<u32>, base: int)
    requires
        v.strings_wf(),
        0 <= base,
        base + GFX_WORDS <= w.len(),
        forall|j: int| 0 <= j < GFX_WORDS ==> w[base + j] == #[trigger] gfx_words(v)[j],
    ensures
        gfx_of_words(w, base).last_time_str == v.last_time_str,
        gfx_of_words(w, base).best_time_str == v.best_time_str,
        gfx_of_words(w, base).last_sector_time_str == v.last_sector_time_str,
        gfx_of_words(w, base).completed_lap == v.completed_lap,
        gfx_of_words(w, base).position == v.position,
{
    assert(ws_of_words(w, base + 18, 14) == v.last_time_str) by {
        assert forall|i: int| 0 <= i < 14 implies w[base + 18 + i] == #[trigger] ws_cell(v.last_time_str, i) by {
            assert(w[base + (18 + i)] == gfx_words(v)[18 + i]);
        }
        assert(Seq::new(14 as nat, |i: int| (w[base + 18 + i] & 0xffff) as u16) =~= Seq::new(
            14 as nat,
            |i: int| (ws_cell(v.last_time_str, i) & 0xffff) as u16,
        ));
        lemma_ws_roundtrip(v.last_time_str, 14);
    }
    assert(ws_of_words(w, base + 32, 14) == v.best_time_str) by {
        assert forall|i: int| 0 <= i < 14 implies w[base + 32 + i] == #[trigger] ws_cell(v.best_time_str, i) by {
            assert(w[base + (32 + i)] == gfx_words(v)[32 + i]);
        }
        assert(Seq::new(14 as nat, |i: int| (w[base + 32 + i] & 0xffff) as u16) =~= Seq::new(
            14 as nat,
            |i: int| (ws_cell(v.best_time_str, i) & 0xffff) as u16,
        ));
        lemma_ws_roundtrip(v.best_time_str, 14);
    }
    assert(ws_of_words(w, base + 46, 14) == v.last_sector_time_str) by {
        assert forall|i: int| 0 <= i < 14 implies w[base + 46 + i] == #[trigger] ws_cell(v.last_sector_time_str, i) by {
            assert(w[base + (46 + i)] == gfx_words(v)[46 + i]);
        }
        assert(Seq::new(14 as nat, |i: int| (w[base + 46 + i] & 0xffff) as u16) =~= Seq::new(
            14 as nat,
            |i: int| (ws_cell(v.last_sector_time_str, i) & 0xffff) as u16,
        ));
        lemma_ws_roundtrip(v.last_sector_time_str, 14);
    }
    assert(w[base + 60] == gfx_words(v)[60]);
    assert(w[base + 61] == gfx_words(v)[61]);
}

#[verifier::rlimit(90)]
proof fn lemma_gfx_roundtrip_p3(v: GraphicsRecordV, w: Seq<u32>, base: int)
    requires
        v.strings_wf(),
        0 <= base,
        base + GFX_WORDS <= w.len(),
        forall|j: int| 0 <= j < GFX_WORDS ==> w[base + j] == #[trigger] gfx_words(v)[j],
    ensures
        gfx_of_words(w, base).current_time == v.current_time,
        gfx_of_words(w, base).last_time == v.last_time,
        gfx_of_words(w, base).best_time == v.best_time,
        gfx_of_words(w, base).last_sector_time == v.last_sector_time,
        gfx_of_words(w, base).number_of_laps == v.number_of_laps,
{
    assert(w[base + 62] == gfx_words(v)[62]);
    assert(w[base + 63] == gfx_words(v)[63]);
    assert(w[base + 64] == gfx_words(v)[64]);
    assert(w[base + 65] == gfx_words(v)[65]);
    assert(w[base + 66] == gfx_words(v)[66]);
}

#[verifier::rlimit(90)]
proof fn lemma_gfx_roundtrip_p4(v: GraphicsRecordV, w: Seq<u32>, base: int)
    requires
        v.strings_wf(),
        0 <= base,
        base + GFX_WORDS <= w.len(),
        forall|j: int| 0 <= j < GFX_WORDS ==> w[base + j] == #[trigger] gfx_words(v)[j],
    ensures
        gfx_of_words(w, base).delta_lap_time_str == v.delta_lap_time_str,
        gfx_of_words(w, base).estimated_lap_time_str == v.estimated_lap_time_str,
        gfx_of_words(w, base).delta_lap_time == v.delta_lap_time,
        gfx_of_words(w, base).estimated_lap_time == v.estimated_lap_time,
        gfx_of_words(w, base).is_delta_positive == v.is_delta_positive,
{
    assert(ws_of_words(w, base + 67, 14) == v.delta_lap_time_str) by {
        assert forall|i: int| 0 <= i < 14 implies w[base + 67 + i] == #[trigger] ws_cell(v.delta_lap_time_str, i) by {
            assert(w[base + (67 + i)] == gfx_words(v)[67 + i]);
        }
        assert(Seq::new(14 as nat, |i: int| (w[base + 67 + i] & 0xffff) as u16) =~= Seq::new(
            14 as nat,
            |i: int| (ws_cell(v.delta_lap_time_str, i) & 0xffff) as u16,
        ));
        lemma_ws_roundtrip(v.delta_lap_time_str, 14);
    }
    assert(ws_of_words(w, base + 81, 14) == v.estimated_lap_time_str) by {
        assert forall|i: int| 0 <= i < 14 implies w[base + 81 + i] == #[trigger] ws_cell(v.estimated_lap_time_str, i) by {
            assert(w[base + (81 + i)] == gfx_words(v)[81 + i]);
        }
        assert(Seq::new(14 as nat, |i: int| (w[base + 81 + i] & 0xffff) as u16) =~= Seq::new(
            14 as nat,
            |i: int| (ws_cell(v.estimated_lap_time_str, i) & 0xffff) as u16,
        ));
        lemma_ws_roundtrip(v.estimated_lap_time_str, 14);
    }
    assert(w[base + 95] == gfx_words(v)[95]);
    assert(w[base + 96] == gfx_words(v)[96]);
    assert(w[base + 97] == gfx_words(v)[97]);
}

#[verifier::rlimit(90)]
proof fn lemma_gfx_roundtrip_p5(v: GraphicsRecordV, w: Seq<u32>, base: int)
    requires
        v.strings_wf(),
        0 <= base,
        base + GFX_WORDS <= w.len(),
        forall|j: int| 0 <= j < GFX_WORDS ==> w[base + j] == #[trigger] gfx_words(v)[j],
    ensures
        gfx_of_words(w, base).is_valid_lap == v.is_valid_lap,
        gfx_of_words(w, base).fuel_estimated_laps == v.fuel_estimated_laps,
        gfx_of_words(w, base).distance_traveled == v.distance_traveled,
        gfx_of_words(w, base).normalized_car_position == v.normalized_car_position,
        gfx_of_words(w, base).session_time_left == v.session_time_left,
{
    assert(w[base + 98] == gfx_words(v)[98]);
    assert(w[base + 99] == gfx_words(v)[99]);
    assert(w[base + 100] == gfx_words(v)[100]);
    assert(w[base + 101] == gfx_words(v)[101]);
    assert(w[base + 102] == gfx_words(v)[102]);
}

#[verifier::rlimit(90)]
proof fn lemma_gfx_roundtrip_p6(v: GraphicsRecordV, w: Seq<u32>, base: int)
    requires
        v.strings_wf(),
        0 <= base,
        base + GFX_WORDS <= w.len(),
        forall|j: int| 0 <= j < GFX_WORDS ==> w[base + j] == #[trigger] gfx_words(v)[j],
    ensures
        gfx_of_words(w, base).current_sector_index == v.current_sector_index,
        gfx_of_words(w, base).is_in_pit == v.is_in_pit,
        gfx_of_words(w, base).is_in_pit_lane == v.is_in_pit_lane,
        gfx_of_words(w, base).ideal_line_on == v.ideal_line_on,
        gfx_of_words(w, base).mandatory_pit_done == v.mandatory_pit_done,
{
    assert(w[base + 103] == gfx_words(v)[103]);
    assert(w[base + 104] == gfx_words(v)[104]);
    assert(w[base + 105] == gfx_words(v)[105]);
    assert(w[base + 106] == gfx_words(v)[106]);
    assert(w[base + 107] == gfx_words(v)[107]);
}

#[verifier::rlimit(90)]
proof fn lemma_gfx_roundtrip_p7(v: GraphicsRecordV, w: Seq<u32>, base: int)
    requires
        v.strings_wf(),
        0 <= base,
        base + GFX_WORDS <= w.len(),
        forall|j: int| 0 <= j < GFX_WORDS ==> w[base + j] == #[trigger] gfx_words(v)[j],
    ensures
        gfx_of_words(w, base).missing_mandatory_pits == v.missing_mandatory_pits,
        gfx_of_words(w, base).penalty_time == v.penalty_time,
        gfx_of_words(w, base).penalty == v.penalty,
        gfx_of_words(w, base).flag == v.flag,
        gfx_of_words(w, base).player_car_id == v.player_car_id,
{
    assert(w[base + 108] == gfx_words(v)[108]);
    assert(w[base + 109] == gfx_words(v)[109]);
    assert(w[base + 110] == gfx_words(v)[110]);
    assert(w[base + 111] == gfx_words(v)[111]);
    assert(w[base + 112] == gfx_words(v)[112]);
}

#[verifier::rlimit(90)]
proof fn lemma_gfx_roundtrip_p8(v: GraphicsRecordV, w: Seq<u32>, base: int)
    requires
        v.strings_wf(),
        0 <= base,
        base + GFX_WORDS <= w.len(),
        forall|j: int| 0 <= j < GFX_WORDS ==> w[base + j] == #[trigger] gfx_words(v)[j],
    ensures
        gfx_of_words(w, base).active_cars == v.active_cars,
        gfx_of_words(w, base).car_coordinates_x == v.car_coordinates_x,
        gfx_of_words(w, base).car_coordinates_y == v.car_coordinates_y,
        gfx_of_words(w, base).car_coordinates_z == v.car_coordinates_z,
        gfx_of_words(w, base).wind_speed == v.wind_speed,
{
    assert(w[base + 113] == gfx_words(v)[113]);
    assert(w[base + 114] == gfx_words(v)[114]);
    assert(w[base + 115] == gfx_words(v)[115]);
    assert(w[base + 116] == gfx_words(v)[116]);
    assert(w[base + 117] == gfx_words(v)[117]);
}

#[verifier::rlimit(90)]
proof fn lemma_gfx_roundtrip_p9(v: GraphicsRecordV, w: Seq<u32>, base: int)
    requires
        v.strings_wf(),
        0 <= base,
        base + GFX_WORDS <= w.len(),
        forall|j: int| 0 <= j < GFX_WORDS ==> w[base + j] == #[trigger] gfx_words(v)[j],
    ensures
        gfx_of_words(w, base).wind_direction == v.wind_direction,
        gfx_of_words(w, base).rain_intensity == v.rain_intensity,
        gfx_of_words(w, base).rain_intensity_in_10min == v.rain_intensity_in_10min,
        gfx_of_words(w, base).rain_intensity_in_30min == v.rain_intensity_in_30min,
        gfx_of_words(w, base).track_grip_status == v.track_grip_status,
{
    assert(w[base + 118] == gfx_words(v)[118]);
    assert(w[base + 119] == gfx_words(v)[119]);
    assert(w[base + 120] == gfx_words(v)[120]);
    assert(w[base + 121] == gfx_words(v)[121]);
    assert(w[base + 122] == gfx_words(v)[122]);
}

#[verifier::rlimit(90)]
proof fn lemma_gfx_roundtrip_p10(v: GraphicsRecordV, w: Seq<u32>, base: int)
    requires
        v.strings_wf(),
        0 <= base,
        base + GFX_WORDS <= w.len(),
        forall|j: int| 0 <= j < GFX_WORDS ==> w[base + j] == #[trigger] gfx_words(v)[j],
    ensures
        gfx_of_words(w, base).track_status == v.track_status,
        gfx_of_words(w, base).clock == v.clock,
        gfx_of_words(w, base).tc_level == v.tc_level,
        gfx_of_words(w, base).tc_cut_level == v.tc_cut_level,
        gfx_of_words(w, base).engine_map == v.engine_map,
{
    assert(ws_of_words(w, base + 123, 32) == v.track_status) by {
        assert forall|i: int| 0 <= i < 32 implies w[base + 123 + i] == #[trigger] ws_cell(v.track_status, i) by {
            assert(w[base + (123 + i)] == gfx_words(v)[123 + i]);
        }
        assert(Seq::new(32 as nat, |i: int| (w[base + 123 + i] & 0xffff) as u16) =~= Seq::new(
            32 as nat,
            |i: int| (ws_cell(v.track_status, i) & 0xffff) as u16,
        ));
        lemma_ws_roundtrip(v.track_status, 32);
    }
    assert(w[base + 155] == gfx_words(v)[155]);
    assert(w[base + 156] == gfx_words(v)[156]);
    assert(w[base + 157] == gfx_words(v)[157]);
    assert(w[base + 158] == gfx_words(v)[158]);
}

#[verifier::rlimit(90)]
proof fn lemma_gfx_roundtrip_p11(v: GraphicsRecordV, w: Seq<u32>, base: int)
    requires
        v.strings_wf(),
        0 <= base,
        base + GFX_WORDS <= w.len(),
        forall|j: int| 0 <= j < GFX_WORDS ==> w[base + j] == #[trigger] gfx_words(v)[j],
    ensures
        gfx_of_words(w, base).abs_level == v.abs_level,
        gfx_of_words(w, base).wiper_stage == v.wiper_stage,
        gfx_of_words(w, base).driver_stint_total_time_left == v.driver_stint_total_time_left,
        gfx_of_words(w, base).driver_stint_time_left == v.driver_stint_time_left,
        gfx_of_words(w, base).rain_tyres == v.rain_tyres,
{
    assert(w[base + 159] == gfx_words(v)[159]);
    assert(w[base + 160] == gfx_words(v)[160]);
    assert(w[base + 161] == gfx_words(v)[161]);
    assert(w[base + 162] == gfx_words(v)[162]);
    assert(w[base + 163] == gfx_words(v)[163]);
}

#[verifier::rlimit(90)]
proof fn lemma_gfx_roundtrip_p12(v: GraphicsRecordV, w: Seq<u32>, base: int)
    requires
        v.strings_wf(),
        0 <= base,
        base + GFX_WORDS <= w.len(),
        forall|j: int| 0 <= j < GFX_WORDS ==> w[base + j] == #[trigger] gfx_words(v)[j],
    ensures
        gfx_of_words(w, base).rain_light == v.rain_light,
        gfx_of_words(w, base).flashing_light == v.flashing_light,
        gfx_of_words(w, base).light_stage == v.light_stage,
        gfx_of_words(w, base).direction_light_left == v.direction_light_left,
        gfx_of_words(w, base).direction_light_right == v.direction_light_right,
{
    assert(w[base + 164] == gfx_words(v)[164]);
    assert(w[base + 165] == gfx_words(v)[165]);
    assert(w[base + 166] == gfx_words(v)[166]);
    assert(w[base + 167] == gfx_words(v)[167]);
    assert(w[base + 168] == gfx_words(v)[168]);
}

#[verifier::rlimit(90)]
proof fn lemma_gfx_roundtrip_p13(v: GraphicsRecordV, w: Seq<u32>, base: int)
    requires
        v.strings_wf(),
        0 <= base,
        base + GFX_WORDS <= w.len(),
        forall|j: int| 0 <= j < GFX_WORDS ==> w[base + j] == #[trigger] gfx_words(v)[j],
    ensures
        gfx_of_words(w, base).tyre_compound == v.tyre_compound,
        gfx_of_words(w, base).is_setup_menu_visible == v.is_setup_menu_visible,
        gfx_of_words(w, base).main_display_index == v.main_display_index,
        gfx_of_words(w, base).secondary_display_index == v.secondary_display_index,
        gfx_of_words(w, base).fuel_per_lap == v.fuel_per_lap,
{
    assert(ws_of_words(w, base + 169, 32) == v.tyre_compound) by {
        assert forall|i: int| 0 <= i < 32 implies w[base + 169 + i] == #[trigger] ws_cell(v.tyre_compound, i) by {
            assert(w[base + (169 + i)] == gfx_words(v)[169 + i]);
        }
        assert(Seq::new(32 as nat, |i: int| (w[base + 169 + i] & 0xffff) as u16) =~= Seq::new(
            32 as nat,
            |i: int| (ws_cell(v.tyre_compound, i) & 0xffff) as u16,
        ));
        lemma_ws_roundtrip(v.tyre_compound, 32);
    }
    assert(w[base + 201] == gfx_words(v)[201]);
    assert(w[base + 202] == gfx_words(v)[202]);
    assert(w[base + 203] == gfx_words(v)[203]);
    assert(w[base + 204] == gfx_words(v)[204]);
}

#[verifier::rlimit(90)]
proof fn lemma_gfx_roundtrip_p14(v: GraphicsRecordV, w: Seq<u32>, base: int)
    requires
        v.strings_wf(),
        0 <= base,
        base + GFX_WORDS <= w.len(),
        forall|j: int| 0 <= j < GFX_WORDS ==> w[base + j] == #[trigger] gfx_words(v)[j],
    ensures
        gfx_of_words(w, base).used_fuel == v.used_fuel,
        gfx_of_words(w, base).exhaust_temp == v.exhaust_temp,
        gfx_of_words(w, base).gap_ahead == v.gap_ahead,
        gfx_of_words(w, base).gap_behind == v.gap_behind,
        gfx_of_words(w, base).global_yellow == v.global_yellow,
{
    assert(w[base + 205] == gfx_words(v)[205]);
    assert(w[base + 206] == gfx_words(v)[206]);
    assert(w[base + 207] == gfx_words(v)[207]);
    assert(w[base + 208] == gfx_words(v)[208]);
    assert(w[base + 209] == gfx_words(v)[209]);
}

#[verifier::rlimit(90)]
proof fn lemma_gfx_roundtrip_p15(v: GraphicsRecordV, w: Seq<u32>, base: int)
    requires
        v.strings_wf(),
        0 <= base,
        base + GFX_WORDS <= w.len(),
        forall|j: int| 0 <= j < GFX_WORDS ==> w[base + j] == #[trigger] gfx_words(v)[j],
    ensures
        gfx_of_words(w, base).global_yellow_s1 == v.global_yellow_s1,
        gfx_of_words(w, base).global_yellow_s2 == v.global_yellow_s2,
        gfx_of_words(w, base).global_yellow_s3 == v.global_yellow_s3,
        gfx_of_words(w, base).global_white == v.global_white,
        gfx_of_words(w, base).global_green == v.global_green,
{
    assert(w[base + 210] == gfx_words(v)[210]);
    assert(w[base + 211] == gfx_words(v)[211]);
    assert(w[base + 212] == gfx_words(v)[212]);
    assert(w[base + 213] == gfx_words(v)[213]);
    assert(w[base + 214] == gfx_words(v)[214]);
}

#[verifier::rlimit(90)]
proof fn lemma_gfx_roundtrip_p16(v: GraphicsRecordV, w: Seq<u32>, base: int)
    requires
        v.strings_wf(),
        0 <= base,
        base + GFX_WORDS <= w.len(),
        forall|j: int| 0 <= j < GFX_WORDS ==> w[base + j] == #[trigger] gfx_words(v)[j],
    ensures
        gfx_of_words(w, base).global_chequered == v.global_chequered,
        gfx_of_words(w, base).global_red == v.global_red,
        gfx_of_words(w, base).mfd_tyre_set == v.mfd_tyre_set,
        gfx_of_words(w, base).mfd_fuel_to_add == v.mfd_fuel_to_add,
        gfx_of_words(w, base).mfd_tyre_pressure_fl == v.mfd_tyre_pressure_fl,
{
    assert(w[base + 215] == gfx_words(v)[215]);
    assert(w[base + 216] == gfx_words(v)[216]);
    assert(w[base + 217] == gfx_words(v)[217]);
    assert(w[base + 218] == gfx_words(v)[218]);
    assert(w[base + 219] == gfx_words(v)[219]);
}

#[verifier::rlimit(90)]
proof fn lemma_gfx_roundtrip_p17(v: GraphicsRecordV, w: Seq<u32>, base: int)
    requires
        v.strings_wf(),
        0 <= base,
        base + GFX_WORDS <= w.len(),
        forall|j: int| 0 <= j < GFX_WORDS ==> w[base + j] == #[trigger] gfx_words(v)[j],
    ensures
        gfx_of_words(w, base).mfd_tyre_pressure_fr == v.mfd_tyre_pressure_fr,
        gfx_of_words(w, base).mfd_tyre_pressure_rl == v.mfd_tyre_pressure_rl,
        gfx_of_words(w, base).mfd_tyre_pressure_rr == v.mfd_tyre_pressure_rr,
        gfx_of_words(w, base).current_tyre_set == v.current_tyre_set,
        gfx_of_words(w, base).strategy_tyre_set == v.strategy_tyre_set,
{
    assert(w[base + 220] == gfx_words(v)[220]);
    assert(w[base + 221] == gfx_words(v)[221]);
    assert(w[base + 222] == gfx_words(v)[222]);
    assert(w[base + 223] == gfx_words(v)[223]);
    assert(w[base + 224] == gfx_words(v)[224]);
}

/// Decoding the words of a well-formed record value yields it back.
pub proof fn lemma_gfx_roundtrip(v: GraphicsRecordV, w: Seq<u32>, base: int)
    requires
        v.strings_wf(),
        0 <= base,
        base + GFX_WORDS <= w.len(),
        w.subrange(base, base + GFX_WORDS as int) == gfx_words(v),
    ensures
        gfx_of_words(w, base) == v,
{
    lemma_gfx_words_len(v);
    assert forall|j: int| 0 <= j < GFX_WORDS implies w[base + j] == #[trigger] gfx_words(v)[j] by {
        assert(w.subrange(base, base + GFX_WORDS as int)[j] == w[base + j]);
    }
    lemma_gfx_roundtrip_p1(v, w, base);
    lemma_gfx_roundtrip_p2(v, w, base);
    lemma_gfx_roundtrip_p3(v, w, base);
    lemma_gfx_roundtrip_p4(v, w, base);
    lemma_gfx_roundtrip_p5(v, w, base);
    lemma_gfx_roundtrip_p6(v, w, base);
    lemma_gfx_roundtrip_p7(v, w, base);
    lemma_gfx_roundtrip_p8(v, w, base);
    lemma_gfx_roundtrip_p9(v, w, base);
    lemma_gfx_roundtrip_p10(v, w, base);
    lemma_gfx_roundtrip_p11(v, w, base);
    lemma_gfx_roundtrip_p12(v, w, base);
    lemma_gfx_roundtrip_p13(v, w, base);
    lemma_gfx_roundtrip_p14(v, w, base);
    lemma_gfx_roundtrip_p15(v, w, base);
    lemma_gfx_roundtrip_p16(v, w, base);
    lemma_gfx_roundtrip_p17(v, w, base);
    assert(gfx_of_words(w, base) == v);
}

} // verus!
