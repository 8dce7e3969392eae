//! Word-level encoding of physics records for the chunked raw log.
//!
//! A batch payload is a vector of 32-bit words: one count word followed by a
//! fixed number of words per record, each field one word in declaration
//! order.  The sidecar names this encoding; readers use the matching decoder.

use vstd::prelude::*;

use crate::err::TelemetryError;
use crate::frames::{CarDamageRecord, ContactPointRecord, PhysicsRecord, Vector3fRecord, WheelsRecord};
use crate::shm::{i32_as_word, spec_word_to_i32_value, word_as_i32, word_to_i32, i32_to_word};

verus! {

/// Words one physics record occupies in a batch payload.
pub const PHYS_WORDS: usize = 196;

/// Word that encodes a truth value.
pub open spec fn bool_word(x: bool) -> u32 {
    if x {
        1
    } else {
        0
    }
}

/// Exec mirror of [`bool_word`].
pub fn bool_word_exec(x: bool) -> (r: u32)
    ensures
        r == bool_word(x),
{
    if x {
        1
    } else {
        0
    }
}

/// Words of part 1 of a record.
pub open spec fn phys_words_p1(r: PhysicsRecord) -> Seq<u32> {
    seq![
        i32_as_word(r.packet_id),
        r.gas,
        r.brake,
        r.clutch,
        r.steer_angle,
        i32_as_word(r.gear),
        i32_as_word(r.rpm),
        bool_word(r.autoshifter_on),
        bool_word(r.ignition_on),
        bool_word(r.starter_engine_on),
        bool_word(r.is_engine_running),
        r.speed_kmh,
        r.velocity.x,
        r.velocity.y,
        r.velocity.z,
        r.local_velocity.x,
        r.local_velocity.y,
        r.local_velocity.z,
        r.local_angular_vel.x,
        r.local_angular_vel.y,
        r.local_angular_vel.z,
        r.g_force.x,
        r.g_force.y,
        r.g_force.z,
        r.heading,
    ]
}

/// Words of part 2 of a record.
pub open spec fn phys_words_p2(r: PhysicsRecord) -> Seq<u32> {
    seq![
        r.pitch,
        r.roll,
        r.final_ff,
        r.wheel_slip.front_left,
        r.wheel_slip.front_right,
        r.wheel_slip.rear_left,
        r.wheel_slip.rear_right,
        r.wheel_load.front_left,
        r.wheel_load.front_right,
        r.wheel_load.rear_left,
        r.wheel_load.rear_right,
        r.wheel_pressure.front_left,
        r.wheel_pressure.front_right,
        r.wheel_pressure.rear_left,
        r.wheel_pressure.rear_right,
        r.wheel_angular_speed.front_left,
        r.wheel_angular_speed.front_right,
        r.wheel_angular_speed.rear_left,
        r.wheel_angular_speed.rear_right,
        r.tyre_wear.front_left,
        r.tyre_wear.front_right,
        r.tyre_wear.rear_left,
        r.tyre_wear.rear_right,
        r.tyre_dirty_level.front_left,
        r.tyre_dirty_level.front_right,
    ]
}

/// Words of part 3 of a record.
pub open spec fn phys_words_p3(r: PhysicsRecord) -> Seq<u32> {
    seq![
        r.tyre_dirty_level.rear_left,
        r.tyre_dirty_level.rear_right,
        r.tyre_core_temp.front_left,
        r.tyre_core_temp.front_right,
        r.tyre_core_temp.rear_left,
        r.tyre_core_temp.rear_right,
        r.camber_rad.front_left,
        r.camber_rad.front_right,
        r.camber_rad.rear_left,
        r.camber_rad.rear_right,
        r.suspension_travel.front_left,
        r.suspension_travel.front_right,
        r.suspension_travel.rear_left,
        r.suspension_travel.rear_right,
        r.brake_temp.front_left,
        r.brake_temp.front_right,
        r.brake_temp.rear_left,
        r.brake_temp.rear_right,
        r.brake_pressure.front_left,
        r.brake_pressure.front_right,
        r.brake_pressure.rear_left,
        r.brake_pressure.rear_right,
        r.suspension_damage.front_left,
        r.suspension_damage.front_right,
        r.suspension_damage.rear_left,
    ]
}

/// Words of part 4 of a record.
pub open spec fn phys_words_p4(r: PhysicsRecord) -> Seq<u32> {
    seq![
        r.suspension_damage.rear_right,
        r.slip_ratio.front_left,
        r.slip_ratio.front_right,
        r.slip_ratio.rear_left,
        r.slip_ratio.rear_right,
        r.slip_angle.front_left,
        r.slip_angle.front_right,
        r.slip_angle.rear_left,
        r.slip_angle.rear_right,
        r.pad_life.front_left,
        r.pad_life.front_right,
        r.pad_life.rear_left,
        r.pad_life.rear_right,
        r.disc_life.front_left,
        r.disc_life.front_right,
        r.disc_life.rear_left,
        r.disc_life.rear_right,
        i32_as_word(r.front_brake_compound),
        i32_as_word(r.rear_brake_compound),
        r.tyre_temp_i.front_left,
        r.tyre_temp_i.front_right,
        r.tyre_temp_i.rear_left,
        r.tyre_temp_i.rear_right,
        r.tyre_temp_m.front_left,
        r.tyre_temp_m.front_right,
    ]
}

/// Words of part 5 of a record.
pub open spec fn phys_words_p5(r: PhysicsRecord) -> Seq<u32> {
    seq![
        r.tyre_temp_m.rear_left,
        r.tyre_temp_m.rear_right,
        r.tyre_temp_o.front_left,
        r.tyre_temp_o.front_right,
        r.tyre_temp_o.rear_left,
        r.tyre_temp_o.rear_right,
        r.tyre_contact_point.front_left.x,
        r.tyre_contact_point.front_left.y,
        r.tyre_contact_point.front_left.z,
        r.tyre_contact_point.front_right.x,
        r.tyre_contact_point.front_right.y,
        r.tyre_contact_point.front_right.z,
        r.tyre_contact_point.rear_left.x,
        r.tyre_contact_point.rear_left.y,
        r.tyre_contact_point.rear_left.z,
        r.tyre_contact_point.rear_right.x,
        r.tyre_contact_point.rear_right.y,
        r.tyre_contact_point.rear_right.z,
        r.tyre_contact_normal.front_left.x,
        r.tyre_contact_normal.front_left.y,
        r.tyre_contact_normal.front_left.z,
        r.tyre_contact_normal.front_right.x,
        r.tyre_contact_normal.front_right.y,
        r.tyre_contact_normal.front_right.z,
        r.tyre_contact_normal.rear_left.x,
    ]
}

/// Words of part 6 of a record.
pub open spec fn phys_words_p6(r: PhysicsRecord) -> Seq<u32> {
    seq![
        r.tyre_contact_normal.rear_left.y,
        r.tyre_contact_normal.rear_left.z,
        r.tyre_contact_normal.rear_right.x,
        r.tyre_contact_normal.rear_right.y,
        r.tyre_contact_normal.rear_right.z,
        r.tyre_contact_heading.front_left.x,
        r.tyre_contact_heading.front_left.y,
        r.tyre_contact_heading.front_left.z,
        r.tyre_contact_heading.front_right.x,
        r.tyre_contact_heading.front_right.y,
        r.tyre_contact_heading.front_right.z,
        r.tyre_contact_heading.rear_left.x,
        r.tyre_contact_heading.rear_left.y,
        r.tyre_contact_heading.rear_left.z,
        r.tyre_contact_heading.rear_right.x,
        r.tyre_contact_heading.rear_right.y,
        r.tyre_contact_heading.rear_right.z,
        r.fuel,
        r.tc,
        r.abs,
        bool_word(r.pit_limiter_on),
        r.turbo_boost,
        r.air_temp,
        r.road_temp,
        r.water_temp,
    ]
}

/// Words of part 7 of a record.
pub open spec fn phys_words_p7(r: PhysicsRecord) -> Seq<u32> {
    seq![
        r.car_damage.front,
        r.car_damage.rear,
        r.car_damage.left,
        r.car_damage.right,
        r.car_damage.center,
        bool_word(r.is_ai_controlled),
        r.brake_bias,
        bool_word(r.tc_in_action),
        bool_word(r.abs_in_action),
        i32_as_word(r.drs),
        r.cg_height,
        i32_as_word(r.number_of_tyres_out),
        r.kers_charge,
        r.kers_input,
        r.ride_height_front,
        r.ride_height_rear,
        r.ballast,
        r.air_density,
        r.performance_meter,
        i32_as_word(r.engine_brake),
        i32_as_word(r.ers_recovery_level),
        i32_as_word(r.ers_power_level),
        i32_as_word(r.ers_heat_charging),
        i32_as_word(r.ers_is_charging),
        r.kers_current_kj,
    ]
}

/// Words of part 8 of a record.
pub open spec fn phys_words_p8(r: PhysicsRecord) -> Seq<u32> {
    seq![
        i32_as_word(r.drs_available),
        i32_as_word(r.drs_enabled),
        i32_as_word(r.p2p_activation),
        i32_as_word(r.p2p_status),
        i32_as_word(r.current_max_rpm),
        r.mz.front_left,
        r.mz.front_right,
        r.mz.rear_left,
        r.mz.rear_right,
        r.fz.front_left,
        r.fz.front_right,
        r.fz.rear_left,
        r.fz.rear_right,
        r.my.front_left,
        r.my.front_right,
        r.my.rear_left,
        r.my.rear_right,
        r.kerb_vibration,
        r.slip_vibration,
        r.g_vibration,
        r.abs_vibration,
    ]
}

/// All words of one record, in field declaration order.
pub open spec fn phys_words(r: PhysicsRecord) -> Seq<u32> {
    phys_words_p1(r) + phys_words_p2(r) + phys_words_p3(r) + phys_words_p4(r) + phys_words_p5(r) + phys_words_p6(r) + phys_words_p7(r) + phys_words_p8(r)
}

/// One record is always the same number of words.
pub proof fn lemma_phys_words_len(r: PhysicsRecord)
    ensures
        phys_words(r).len() == PHYS_WORDS,
{
}

fn encode_phys_p1(out: &mut Vec<u32>, r: &PhysicsRecord)
    ensures
        final(out)@ == old(out)@ + phys_words_p1(*r),
{
    out.push(i32_to_word(r.packet_id));
    out.push(r.gas);
    out.push(r.brake);
    out.push(r.clutch);
    out.push(r.steer_angle);
    out.push(i32_to_word(r.gear));
    out.push(i32_to_word(r.rpm));
    out.push(bool_word_exec(r.autoshifter_on));
    out.push(bool_word_exec(r.ignition_on));
    out.push(bool_word_exec(r.starter_engine_on));
    out.push(bool_word_exec(r.is_engine_running));
    out.push(r.speed_kmh);
    out.push(r.velocity.x);
    out.push(r.velocity.y);
    out.push(r.velocity.z);
    out.push(r.local_velocity.x);
    out.push(r.local_velocity.y);
    out.push(r.local_velocity.z);
    out.push(r.local_angular_vel.x);
    out.push(r.local_angular_vel.y);
    out.push(r.local_angular_vel.z);
    out.push(r.g_force.x);
    out.push(r.g_force.y);
    out.push(r.g_force.z);
    out.push(r.heading);
    proof {
        assert(out@ =~= old(out)@ + phys_words_p1(*r));
    }
}

fn encode_phys_p2(out: &mut Vec<u32>, r: &PhysicsRecord)
    ensures
        final(out)@ == old(out)@ + phys_words_p2(*r),
{
    out.push(r.pitch);
    out.push(r.roll);
    out.push(r.final_ff);
    out.push(r.wheel_slip.front_left);
    out.push(r.wheel_slip.front_right);
    out.push(r.wheel_slip.rear_left);
    out.push(r.wheel_slip.rear_right);
    out.push(r.wheel_load.front_left);
    out.push(r.wheel_load.front_right);
    out.push(r.wheel_load.rear_left);
    out.push(r.wheel_load.rear_right);
    out.push(r.wheel_pressure.front_left);
    out.push(r.wheel_pressure.front_right);
    out.push(r.wheel_pressure.rear_left);
    out.push(r.wheel_pressure.rear_right);
    out.push(r.wheel_angular_speed.front_left);
    out.push(r.wheel_angular_speed.front_right);
    out.push(r.wheel_angular_speed.rear_left);
    out.push(r.wheel_angular_speed.rear_right);
    out.push(r.tyre_wear.front_left);
    out.push(r.tyre_wear.front_right);
    out.push(r.tyre_wear.rear_left);
    out.push(r.tyre_wear.rear_right);
    out.push(r.tyre_dirty_level.front_left);
    out.push(r.tyre_dirty_level.front_right);
    proof {
        assert(out@ =~= old(out)@ + phys_words_p2(*r));
    }
}

fn encode_phys_p3(out: &mut Vec<u32>, r: &PhysicsRecord)
    ensures
        final(out)@ == old(out)@ + phys_words_p3(*r),
{
    out.push(r.tyre_dirty_level.rear_left);
    out.push(r.tyre_dirty_level.rear_right);
    out.push(r.tyre_core_temp.front_left);
    out.push(r.tyre_core_temp.front_right);
    out.push(r.tyre_core_temp.rear_left);
    out.push(r.tyre_core_temp.rear_right);
    out.push(r.camber_rad.front_left);
    out.push(r.camber_rad.front_right);
    out.push(r.camber_rad.rear_left);
    out.push(r.camber_rad.rear_right);
    out.push(r.suspension_travel.front_left);
    out.push(r.suspension_travel.front_right);
    out.push(r.suspension_travel.rear_left);
    out.push(r.suspension_travel.rear_right);
    out.push(r.brake_temp.front_left);
    out.push(r.brake_temp.front_right);
    out.push(r.brake_temp.rear_left);
    out.push(r.brake_temp.rear_right);
    out.push(r.brake_pressure.front_left);
    out.push(r.brake_pressure.front_right);
    out.push(r.brake_pressure.rear_left);
    out.push(r.brake_pressure.rear_right);
    out.push(r.suspension_damage.front_left);
    out.push(r.suspension_damage.front_right);
    out.push(r.suspension_damage.rear_left);
    proof {
        assert(out@ =~= old(out)@ + phys_words_p3(*r));
    }
}

fn encode_phys_p4(out: &mut Vec<u32>, r: &PhysicsRecord)
    ensures
        final(out)@ == old(out)@ + phys_words_p4(*r),
{
    out.push(r.suspension_damage.rear_right);
    out.push(r.slip_ratio.front_left);
    out.push(r.slip_ratio.front_right);
    out.push(r.slip_ratio.rear_left);
    out.push(r.slip_ratio.rear_right);
    out.push(r.slip_angle.front_left);
    out.push(r.slip_angle.front_right);
    out.push(r.slip_angle.rear_left);
    out.push(r.slip_angle.rear_right);
    out.push(r.pad_life.front_left);
    out.push(r.pad_life.front_right);
    out.push(r.pad_life.rear_left);
    out.push(r.pad_life.rear_right);
    out.push(r.disc_life.front_left);
    out.push(r.disc_life.front_right);
    out.push(r.disc_life.rear_left);
    out.push(r.disc_life.rear_right);
    out.push(i32_to_word(r.front_brake_compound));
    out.push(i32_to_word(r.rear_brake_compound));
    out.push(r.tyre_temp_i.front_left);
    out.push(r.tyre_temp_i.front_right);
    out.push(r.tyre_temp_i.rear_left);
    out.push(r.tyre_temp_i.rear_right);
    out.push(r.tyre_temp_m.front_left);
    out.push(r.tyre_temp_m.front_right);
    proof {
        assert(out@ =~= old(out)@ + phys_words_p4(*r));
    }
}

fn encode_phys_p5(out: &mut Vec<u32>, r: &PhysicsRecord)
    ensures
        final(out)@ == old(out)@ + phys_words_p5(*r),
{
    out.push(r.tyre_temp_m.rear_left);
    out.push(r.tyre_temp_m.rear_right);
    out.push(r.tyre_temp_o.front_left);
    out.push(r.tyre_temp_o.front_right);
    out.push(r.tyre_temp_o.rear_left);
    out.push(r.tyre_temp_o.rear_right);
    out.push(r.tyre_contact_point.front_left.x);
    out.push(r.tyre_contact_point.front_left.y);
    out.push(r.tyre_contact_point.front_left.z);
    out.push(r.tyre_contact_point.front_right.x);
    out.push(r.tyre_contact_point.front_right.y);
    out.push(r.tyre_contact_point.front_right.z);
    out.push(r.tyre_contact_point.rear_left.x);
    out.push(r.tyre_contact_point.rear_left.y);
    out.push(r.tyre_contact_point.rear_left.z);
    out.push(r.tyre_contact_point.rear_right.x);
    out.push(r.tyre_contact_point.rear_right.y);
    out.push(r.tyre_contact_point.rear_right.z);
    out.push(r.tyre_contact_normal.front_left.x);
    out.push(r.tyre_contact_normal.front_left.y);
    out.push(r.tyre_contact_normal.front_left.z);
    out.push(r.tyre_contact_normal.front_right.x);
    out.push(r.tyre_contact_normal.front_right.y);
    out.push(r.tyre_contact_normal.front_right.z);
    out.push(r.tyre_contact_normal.rear_left.x);
    proof {
        assert(out@ =~= old(out)@ + phys_words_p5(*r));
    }
}

fn encode_phys_p6(out: &mut Vec<u32>, r: &PhysicsRecord)
    ensures
        final(out)@ == old(out)@ + phys_words_p6(*r),
{
    out.push(r.tyre_contact_normal.rear_left.y);
    out.push(r.tyre_contact_normal.rear_left.z);
    out.push(r.tyre_contact_normal.rear_right.x);
    out.push(r.tyre_contact_normal.rear_right.y);
    out.push(r.tyre_contact_normal.rear_right.z);
    out.push(r.tyre_contact_heading.front_left.x);
    out.push(r.tyre_contact_heading.front_left.y);
    out.push(r.tyre_contact_heading.front_left.z);
    out.push(r.tyre_contact_heading.front_right.x);
    out.push(r.tyre_contact_heading.front_right.y);
    out.push(r.tyre_contact_heading.front_right.z);
    out.push(r.tyre_contact_heading.rear_left.x);
    out.push(r.tyre_contact_heading.rear_left.y);
    out.push(r.tyre_contact_heading.rear_left.z);
    out.push(r.tyre_contact_heading.rear_right.x);
    out.push(r.tyre_contact_heading.rear_right.y);
    out.push(r.tyre_contact_heading.rear_right.z);
    out.push(r.fuel);
    out.push(r.tc);
    out.push(r.abs);
    out.push(bool_word_exec(r.pit_limiter_on));
    out.push(r.turbo_boost);
    out.push(r.air_temp);
    out.push(r.road_temp);
    out.push(r.water_temp);
    proof {
        assert(out@ =~= old(out)@ + phys_words_p6(*r));
    }
}

fn encode_phys_p7(out: &mut Vec<u32>, r: &PhysicsRecord)
    ensures
        final(out)@ == old(out)@ + phys_words_p7(*r),
{
    out.push(r.car_damage.front);
    out.push(r.car_damage.rear);
    out.push(r.car_damage.left);
    out.push(r.car_damage.right);
    out.push(r.car_damage.center);
    out.push(bool_word_exec(r.is_ai_controlled));
    out.push(r.brake_bias);
    out.push(bool_word_exec(r.tc_in_action));
    out.push(bool_word_exec(r.abs_in_action));
    out.push(i32_to_word(r.drs));
    out.push(r.cg_height);
    out.push(i32_to_word(r.number_of_tyres_out));
    out.push(r.kers_charge);
    out.push(r.kers_input);
    out.push(r.ride_height_front);
    out.push(r.ride_height_rear);
    out.push(r.ballast);
    out.push(r.air_density);
    out.push(r.performance_meter);
    out.push(i32_to_word(r.engine_brake));
    out.push(i32_to_word(r.ers_recovery_level));
    out.push(i32_to_word(r.ers_power_level));
    out.push(i32_to_word(r.ers_heat_charging));
    out.push(i32_to_word(r.ers_is_charging));
    out.push(r.kers_current_kj);
    proof {
        assert(out@ =~= old(out)@ + phys_words_p7(*r));
    }
}

fn encode_phys_p8(out: &mut Vec<u32>, r: &PhysicsRecord)
    ensures
        final(out)@ == old(out)@ + phys_words_p8(*r),
{
    out.push(i32_to_word(r.drs_available));
    out.push(i32_to_word(r.drs_enabled));
    out.push(i32_to_word(r.p2p_activation));
    out.push(i32_to_word(r.p2p_status));
    out.push(i32_to_word(r.current_max_rpm));
    out.push(r.mz.front_left);
    out.push(r.mz.front_right);
    out.push(r.mz.rear_left);
    out.push(r.mz.rear_right);
    out.push(r.fz.front_left);
    out.push(r.fz.front_right);
    out.push(r.fz.rear_left);
    out.push(r.fz.rear_right);
    out.push(r.my.front_left);
    out.push(r.my.front_right);
    out.push(r.my.rear_left);
    out.push(r.my.rear_right);
    out.push(r.kerb_vibration);
    out.push(r.slip_vibration);
    out.push(r.g_vibration);
    out.push(r.abs_vibration);
    proof {
        assert(out@ =~= old(out)@ + phys_words_p8(*r));
    }
}

/// Append the words of one record to `out`.
pub fn encode_phys_record(out: &mut Vec<u32>, r: &PhysicsRecord)
    ensures
        final(out)@ == old(out)@ + phys_words(*r),
        final(out)@.len() == old(out)@.len() + PHYS_WORDS,
{
    encode_phys_p1(out, r);
    encode_phys_p2(out, r);
    encode_phys_p3(out, r);
    encode_phys_p4(out, r);
    encode_phys_p5(out, r);
    encode_phys_p6(out, r);
    encode_phys_p7(out, r);
    encode_phys_p8(out, r);
    proof {
        assert(out@ =~= old(out)@ + phys_words(*r));
        lemma_phys_words_len(*r);
    }
}

/// The record encoded by the words starting at `base`.
pub open spec fn phys_of_words(w: Seq<u32>, base: int) -> PhysicsRecord
    recommends
        0 <= base,
        base + PHYS_WORDS <= w.len(),
{
    PhysicsRecord {
        packet_id: spec_word_to_i32_value(w[base + 0]),
        gas: w[base + 1],
        brake: w[base + 2],
        clutch: w[base + 3],
        steer_angle: w[base + 4],
        gear: spec_word_to_i32_value(w[base + 5]),
        rpm: spec_word_to_i32_value(w[base + 6]),
        autoshifter_on: (w[base + 7] != 0),
        ignition_on: (w[base + 8] != 0),
        starter_engine_on: (w[base + 9] != 0),
        is_engine_running: (w[base + 10] != 0),
        speed_kmh: w[base + 11],
        velocity: Vector3fRecord { x: w[base + 12], y: w[base + 13], z: w[base + 14] },
        local_velocity: Vector3fRecord { x: w[base + 15], y: w[base + 16], z: w[base + 17] },
        local_angular_vel: Vector3fRecord { x: w[base + 18], y: w[base + 19], z: w[base + 20] },
        g_force: Vector3fRecord { x: w[base + 21], y: w[base + 22], z: w[base + 23] },
        heading: w[base + 24],
        pitch: w[base + 25],
        roll: w[base + 26],
        final_ff: w[base + 27],
        wheel_slip: WheelsRecord { front_left: w[base + 28], front_right: w[base + 29], rear_left: w[base + 30], rear_right: w[base + 31] },
        wheel_load: WheelsRecord { front_left: w[base + 32], front_right: w[base + 33], rear_left: w[base + 34], rear_right: w[base + 35] },
        wheel_pressure: WheelsRecord { front_left: w[base + 36], front_right: w[base + 37], rear_left: w[base + 38], rear_right: w[base + 39] },
        wheel_angular_speed: WheelsRecord { front_left: w[base + 40], front_right: w[base + 41], rear_left: w[base + 42], rear_right: w[base + 43] },
        tyre_wear: WheelsRecord { front_left: w[base + 44], front_right: w[base + 45], rear_left: w[base + 46], rear_right: w[base + 47] },
        tyre_dirty_level: WheelsRecord { front_left: w[base + 48], front_right: w[base + 49], rear_left: w[base + 50], rear_right: w[base + 51] },
        tyre_core_temp: WheelsRecord { front_left: w[base + 52], front_right: w[base + 53], rear_left: w[base + 54], rear_right: w[base + 55] },
        camber_rad: WheelsRecord { front_left: w[base + 56], front_right: w[base + 57], rear_left: w[base + 58], rear_right: w[base + 59] },
        suspension_travel: WheelsRecord { front_left: w[base + 60], front_right: w[base + 61], rear_left: w[base + 62], rear_right: w[base + 63] },
        brake_temp: WheelsRecord { front_left: w[base + 64], front_right: w[base + 65], rear_left: w[base + 66], rear_right: w[base + 67] },
        brake_pressure: WheelsRecord { front_left: w[base + 68], front_right: w[base + 69], rear_left: w[base + 70], rear_right: w[base + 71] },
        suspension_damage: WheelsRecord { front_left: w[base + 72], front_right: w[base + 73], rear_left: w[base + 74], rear_right: w[base + 75] },
        slip_ratio: WheelsRecord { front_left: w[base + 76], front_right: w[base + 77], rear_left: w[base + 78], rear_right: w[base + 79] },
        slip_angle: WheelsRecord { front_left: w[base + 80], front_right: w[base + 81], rear_left: w[base + 82], rear_right: w[base + 83] },
        pad_life: WheelsRecord { front_left: w[base + 84], front_right: w[base + 85], rear_left: w[base + 86], rear_right: w[base + 87] },
        disc_life: WheelsRecord { front_left: w[base + 88], front_right: w[base + 89], rear_left: w[base + 90], rear_right: w[base + 91] },
        front_brake_compound: spec_word_to_i32_value(w[base + 92]),
        rear_brake_compound: spec_word_to_i32_value(w[base + 93]),
        tyre_temp_i: WheelsRecord { front_left: w[base + 94], front_right: w[base + 95], rear_left: w[base + 96], rear_right: w[base + 97] },
        tyre_temp_m: WheelsRecord { front_left: w[base + 98], front_right: w[base + 99], rear_left: w[base + 100], rear_right: w[base + 101] },
        tyre_temp_o: WheelsRecord { front_left: w[base + 102], front_right: w[base + 103], rear_left: w[base + 104], rear_right: w[base + 105] },
        tyre_contact_point: ContactPointRecord { front_left: Vector3fRecord { x: w[base + 106], y: w[base + 107], z: w[base + 108] }, front_right: Vector3fRecord { x: w[base + 109], y: w[base + 110], z: w[base + 111] }, rear_left: Vector3fRecord { x: w[base + 112], y: w[base + 113], z: w[base + 114] }, rear_right: Vector3fRecord { x: w[base + 115], y: w[base + 116], z: w[base + 117] } },
        tyre_contact_normal: ContactPointRecord { front_left: Vector3fRecord { x: w[base + 118], y: w[base + 119], z: w[base + 120] }, front_right: Vector3fRecord { x: w[base + 121], y: w[base + 122], z: w[base + 123] }, rear_left: Vector3fRecord { x: w[base + 124], y: w[base + 125], z: w[base + 126] }, rear_right: Vector3fRecord { x: w[base + 127], y: w[base + 128], z: w[base + 129] } },
        tyre_contact_heading: ContactPointRecord { front_left: Vector3fRecord { x: w[base + 130], y: w[base + 131], z: w[base + 132] }, front_right: Vector3fRecord { x: w[base + 133], y: w[base + 134], z: w[base + 135] }, rear_left: Vector3fRecord { x: w[base + 136], y: w[base + 137], z: w[base + 138] }, rear_right: Vector3fRecord { x: w[base + 139], y: w[base + 140], z: w[base + 141] } },
        fuel: w[base + 142],
        tc: w[base + 143],
        abs: w[base + 144],
        pit_limiter_on: (w[base + 145] != 0),
        turbo_boost: w[base + 146],
        air_temp: w[base + 147],
        road_temp: w[base + 148],
        water_temp: w[base + 149],
        car_damage: CarDamageRecord { front: w[base + 150], rear: w[base + 151], left: w[base + 152], right: w[base + 153], center: w[base + 154] },
        is_ai_controlled: (w[base + 155] != 0),
        brake_bias: w[base + 156],
        tc_in_action: (w[base + 157] != 0),
        abs_in_action: (w[base + 158] != 0),
        drs: spec_word_to_i32_value(w[base + 159]),
        cg_height: w[base + 160],
        number_of_tyres_out: spec_word_to_i32_value(w[base + 161]),
        kers_charge: w[base + 162],
        kers_input: w[base + 163],
        ride_height_front: w[base + 164],
        ride_height_rear: w[base + 165],
        ballast: w[base + 166],
        air_density: w[base + 167],
        performance_meter: w[base + 168],
        engine_brake: spec_word_to_i32_value(w[base + 169]),
        ers_recovery_level: spec_word_to_i32_value(w[base + 170]),
        ers_power_level: spec_word_to_i32_value(w[base + 171]),
        ers_heat_charging: spec_word_to_i32_value(w[base + 172]),
        ers_is_charging: spec_word_to_i32_value(w[base + 173]),
        kers_current_kj: w[base + 174],
        drs_available: spec_word_to_i32_value(w[base + 175]),
        drs_enabled: spec_word_to_i32_value(w[base + 176]),
        p2p_activation: spec_word_to_i32_value(w[base + 177]),
        p2p_status: spec_word_to_i32_value(w[base + 178]),
        current_max_rpm: spec_word_to_i32_value(w[base + 179]),
        mz: WheelsRecord { front_left: w[base + 180], front_right: w[base + 181], rear_left: w[base + 182], rear_right: w[base + 183] },
        fz: WheelsRecord { front_left: w[base + 184], front_right: w[base + 185], rear_left: w[base + 186], rear_right: w[base + 187] },
        my: WheelsRecord { front_left: w[base + 188], front_right: w[base + 189], rear_left: w[base + 190], rear_right: w[base + 191] },
        kerb_vibration: w[base + 192],
        slip_vibration: w[base + 193],
        g_vibration: w[base + 194],
        abs_vibration: w[base + 195],
    }
}

/// Decode the record at word offset `base`.
pub fn decode_phys_record(w: &Vec<u32>, base: usize) -> (r: PhysicsRecord)
    requires
        base + PHYS_WORDS <= w@.len(),
    ensures
        r == phys_of_words(w@, base as int),
{
    let n = w.len();
    assert(base + PHYS_WORDS <= n);
    PhysicsRecord {
        packet_id: word_to_i32(w[base + 0]),
        gas: w[base + 1],
        brake: w[base + 2],
        clutch: w[base + 3],
        steer_angle: w[base + 4],
        gear: word_to_i32(w[base + 5]),
        rpm: word_to_i32(w[base + 6]),
        autoshifter_on: w[base + 7] != 0,
        ignition_on: w[base + 8] != 0,
        starter_engine_on: w[base + 9] != 0,
        is_engine_running: w[base + 10] != 0,
        speed_kmh: w[base + 11],
        velocity: Vector3fRecord { x: w[base + 12], y: w[base + 13], z: w[base + 14] },
        local_velocity: Vector3fRecord { x: w[base + 15], y: w[base + 16], z: w[base + 17] },
        local_angular_vel: Vector3fRecord { x: w[base + 18], y: w[base + 19], z: w[base + 20] },
        g_force: Vector3fRecord { x: w[base + 21], y: w[base + 22], z: w[base + 23] },
        heading: w[base + 24],
        pitch: w[base + 25],
        roll: w[base + 26],
        final_ff: w[base + 27],
        wheel_slip: WheelsRecord { front_left: w[base + 28], front_right: w[base + 29], rear_left: w[base + 30], rear_right: w[base + 31] },
        wheel_load: WheelsRecord { front_left: w[base + 32], front_right: w[base + 33], rear_left: w[base + 34], rear_right: w[base + 35] },
        wheel_pressure: WheelsRecord { front_left: w[base + 36], front_right: w[base + 37], rear_left: w[base + 38], rear_right: w[base + 39] },
        wheel_angular_speed: WheelsRecord { front_left: w[base + 40], front_right: w[base + 41], rear_left: w[base + 42], rear_right: w[base + 43] },
        tyre_wear: WheelsRecord { front_left: w[base + 44], front_right: w[base + 45], rear_left: w[base + 46], rear_right: w[base + 47] },
        tyre_dirty_level: WheelsRecord { front_left: w[base + 48], front_right: w[base + 49], rear_left: w[base + 50], rear_right: w[base + 51] },
        tyre_core_temp: WheelsRecord { front_left: w[base + 52], front_right: w[base + 53], rear_left: w[base + 54], rear_right: w[base + 55] },
        camber_rad: WheelsRecord { front_left: w[base + 56], front_right: w[base + 57], rear_left: w[base + 58], rear_right: w[base + 59] },
        suspension_travel: WheelsRecord { front_left: w[base + 60], front_right: w[base + 61], rear_left: w[base + 62], rear_right: w[base + 63] },
        brake_temp: WheelsRecord { front_left: w[base + 64], front_right: w[base + 65], rear_left: w[base + 66], rear_right: w[base + 67] },
        brake_pressure: WheelsRecord { front_left: w[base + 68], front_right: w[base + 69], rear_left: w[base + 70], rear_right: w[base + 71] },
        suspension_damage: WheelsRecord { front_left: w[base + 72], front_right: w[base + 73], rear_left: w[base + 74], rear_right: w[base + 75] },
        slip_ratio: WheelsRecord { front_left: w[base + 76], front_right: w[base + 77], rear_left: w[base + 78], rear_right: w[base + 79] },
        slip_angle: WheelsRecord { front_left: w[base + 80], front_right: w[base + 81], rear_left: w[base + 82], rear_right: w[base + 83] },
        pad_life: WheelsRecord { front_left: w[base + 84], front_right: w[base + 85], rear_left: w[base + 86], rear_right: w[base + 87] },
        disc_life: WheelsRecord { front_left: w[base + 88], front_right: w[base + 89], rear_left: w[base + 90], rear_right: w[base + 91] },
        front_brake_compound: word_to_i32(w[base + 92]),
        rear_brake_compound: word_to_i32(w[base + 93]),
        tyre_temp_i: WheelsRecord { front_left: w[base + 94], front_right: w[base + 95], rear_left: w[base + 96], rear_right: w[base + 97] },
        tyre_temp_m: WheelsRecord { front_left: w[base + 98], front_right: w[base + 99], rear_left: w[base + 100], rear_right: w[base + 101] },
        tyre_temp_o: WheelsRecord { front_left: w[base + 102], front_right: w[base + 103], rear_left: w[base + 104], rear_right: w[base + 105] },
        tyre_contact_point: ContactPointRecord { front_left: Vector3fRecord { x: w[base + 106], y: w[base + 107], z: w[base + 108] }, front_right: Vector3fRecord { x: w[base + 109], y: w[base + 110], z: w[base + 111] }, rear_left: Vector3fRecord { x: w[base + 112], y: w[base + 113], z: w[base + 114] }, rear_right: Vector3fRecord { x: w[base + 115], y: w[base + 116], z: w[base + 117] } },
        tyre_contact_normal: ContactPointRecord { front_left: Vector3fRecord { x: w[base + 118], y: w[base + 119], z: w[base + 120] }, front_right: Vector3fRecord { x: w[base + 121], y: w[base + 122], z: w[base + 123] }, rear_left: Vector3fRecord { x: w[base + 124], y: w[base + 125], z: w[base + 126] }, rear_right: Vector3fRecord { x: w[base + 127], y: w[base + 128], z: w[base + 129] } },
        tyre_contact_heading: ContactPointRecord { front_left: Vector3fRecord { x: w[base + 130], y: w[base + 131], z: w[base + 132] }, front_right: Vector3fRecord { x: w[base + 133], y: w[base + 134], z: w[base + 135] }, rear_left: Vector3fRecord { x: w[base + 136], y: w[base + 137], z: w[base + 138] }, rear_right: Vector3fRecord { x: w[base + 139], y: w[base + 140], z: w[base + 141] } },
        fuel: w[base + 142],
        tc: w[base + 143],
        abs: w[base + 144],
        pit_limiter_on: w[base + 145] != 0,
        turbo_boost: w[base + 146],
        air_temp: w[base + 147],
        road_temp: w[base + 148],
        water_temp: w[base + 149],
        car_damage: CarDamageRecord { front: w[base + 150], rear: w[base + 151], left: w[base + 152], right: w[base + 153], center: w[base + 154] },
        is_ai_controlled: w[base + 155] != 0,
        brake_bias: w[base + 156],
        tc_in_action: w[base + 157] != 0,
        abs_in_action: w[base + 158] != 0,
        drs: word_to_i32(w[base + 159]),
        cg_height: w[base + 160],
        number_of_tyres_out: word_to_i32(w[base + 161]),
        kers_charge: w[base + 162],
        kers_input: w[base + 163],
        ride_height_front: w[base + 164],
        ride_height_rear: w[base + 165],
        ballast: w[base + 166],
        air_density: w[base + 167],
        performance_meter: w[base + 168],
        engine_brake: word_to_i32(w[base + 169]),
        ers_recovery_level: word_to_i32(w[base + 170]),
        ers_power_level: word_to_i32(w[base + 171]),
        ers_heat_charging: word_to_i32(w[base + 172]),
        ers_is_charging: word_to_i32(w[base + 173]),
        kers_current_kj: w[base + 174],
        drs_available: word_to_i32(w[base + 175]),
        drs_enabled: word_to_i32(w[base + 176]),
        p2p_activation: word_to_i32(w[base + 177]),
        p2p_status: word_to_i32(w[base + 178]),
        current_max_rpm: word_to_i32(w[base + 179]),
        mz: WheelsRecord { front_left: w[base + 180], front_right: w[base + 181], rear_left: w[base + 182], rear_right: w[base + 183] },
        fz: WheelsRecord { front_left: w[base + 184], front_right: w[base + 185], rear_left: w[base + 186], rear_right: w[base + 187] },
        my: WheelsRecord { front_left: w[base + 188], front_right: w[base + 189], rear_left: w[base + 190], rear_right: w[base + 191] },
        kerb_vibration: w[base + 192],
        slip_vibration: w[base + 193],
        g_vibration: w[base + 194],
        abs_vibration: w[base + 195],
    }
}

/// Decoding the words of a record yields the record.
pub proof fn lemma_phys_roundtrip(r: PhysicsRecord, w: Seq<u32>, base: int)
    requires
        0 <= base,
        base + PHYS_WORDS <= w.len(),
        w.subrange(base, base + PHYS_WORDS as int) == phys_words(r),
    ensures
        phys_of_words(w, base) == r,
{
    lemma_phys_words_len(r);
    assert forall|j: int| 0 <= j < PHYS_WORDS implies w[base + j] == #[trigger] phys_words(r)[j] by {
        assert(w.subrange(base, base + PHYS_WORDS as int)[j] == w[base + j]);
    }
    assert(w[base + 0] == phys_words(r)[0]);
    assert(w[base + 1] == phys_words(r)[1]);
    assert(w[base + 2] == phys_words(r)[2]);
    assert(w[base + 3] == phys_words(r)[3]);
    assert(w[base + 4] == phys_words(r)[4]);
    assert(w[base + 5] == phys_words(r)[5]);
    assert(w[base + 6] == phys_words(r)[6]);
    assert(w[base + 7] == phys_words(r)[7]);
    assert(w[base + 8] == phys_words(r)[8]);
    assert(w[base + 9] == phys_words(r)[9]);
    assert(w[base + 10] == phys_words(r)[10]);
    assert(w[base + 11] == phys_words(r)[11]);
    assert(w[base + 12] == phys_words(r)[12]);
    assert(w[base + 13] == phys_words(r)[13]);
    assert(w[base + 14] == phys_words(r)[14]);
    assert(w[base + 15] == phys_words(r)[15]);
    assert(w[base + 16] == phys_words(r)[16]);
    assert(w[base + 17] == phys_words(r)[17]);
    assert(w[base + 18] == phys_words(r)[18]);
    assert(w[base + 19] == phys_words(r)[19]);
    assert(w[base + 20] == phys_words(r)[20]);
    assert(w[base + 21] == phys_words(r)[21]);
    assert(w[base + 22] == phys_words(r)[22]);
    assert(w[base + 23] == phys_words(r)[23]);
    assert(w[base + 24] == phys_words(r)[24]);
    assert(w[base + 25] == phys_words(r)[25]);
    assert(w[base + 26] == phys_words(r)[26]);
    assert(w[base + 27] == phys_words(r)[27]);
    assert(w[base + 28] == phys_words(r)[28]);
    assert(w[base + 29] == phys_words(r)[29]);
    assert(w[base + 30] == phys_words(r)[30]);
    assert(w[base + 31] == phys_words(r)[31]);
    assert(w[base + 32] == phys_words(r)[32]);
    assert(w[base + 33] == phys_words(r)[33]);
    assert(w[base + 34] == phys_words(r)[34]);
    assert(w[base + 35] == phys_words(r)[35]);
    assert(w[base + 36] == phys_words(r)[36]);
    assert(w[base + 37] == phys_words(r)[37]);
    assert(w[base + 38] == phys_words(r)[38]);
    assert(w[base + 39] == phys_words(r)[39]);
    assert(w[base + 40] == phys_words(r)[40]);
    assert(w[base + 41] == phys_words(r)[41]);
    assert(w[base + 42] == phys_words(r)[42]);
    assert(w[base + 43] == phys_words(r)[43]);
    assert(w[base + 44] == phys_words(r)[44]);
    assert(w[base + 45] == phys_words(r)[45]);
    assert(w[base + 46] == phys_words(r)[46]);
    assert(w[base + 47] == phys_words(r)[47]);
    assert(w[base + 48] == phys_words(r)[48]);
    assert(w[base + 49] == phys_words(r)[49]);
    assert(w[base + 50] == phys_words(r)[50]);
    assert(w[base + 51] == phys_words(r)[51]);
    assert(w[base + 52] == phys_words(r)[52]);
    assert(w[base + 53] == phys_words(r)[53]);
    assert(w[base + 54] == phys_words(r)[54]);
    assert(w[base + 55] == phys_words(r)[55]);
    assert(w[base + 56] == phys_words(r)[56]);
    assert(w[base + 57] == phys_words(r)[57]);
    assert(w[base + 58] == phys_words(r)[58]);
    assert(w[base + 59] == phys_words(r)[59]);
    assert(w[base + 60] == phys_words(r)[60]);
    assert(w[base + 61] == phys_words(r)[61]);
    assert(w[base + 62] == phys_words(r)[62]);
    assert(w[base + 63] == phys_words(r)[63]);
    assert(w[base + 64] == phys_words(r)[64]);
    assert(w[base + 65] == phys_words(r)[65]);
    assert(w[base + 66] == phys_words(r)[66]);
    assert(w[base + 67] == phys_words(r)[67]);
    assert(w[base + 68] == phys_words(r)[68]);
    assert(w[base + 69] == phys_words(r)[69]);
    assert(w[base + 70] == phys_words(r)[70]);
    assert(w[base + 71] == phys_words(r)[71]);
    assert(w[base + 72] == phys_words(r)[72]);
    assert(w[base + 73] == phys_words(r)[73]);
    assert(w[base + 74] == phys_words(r)[74]);
    assert(w[base + 75] == phys_words(r)[75]);
    assert(w[base + 76] == phys_words(r)[76]);
    assert(w[base + 77] == phys_words(r)[77]);
    assert(w[base + 78] == phys_words(r)[78]);
    assert(w[base + 79] == phys_words(r)[79]);
    assert(w[base + 80] == phys_words(r)[80]);
    assert(w[base + 81] == phys_words(r)[81]);
    assert(w[base + 82] == phys_words(r)[82]);
    assert(w[base + 83] == phys_words(r)[83]);
    assert(w[base + 84] == phys_words(r)[84]);
    assert(w[base + 85] == phys_words(r)[85]);
    assert(w[base + 86] == phys_words(r)[86]);
    assert(w[base + 87] == phys_words(r)[87]);
    assert(w[base + 88] == phys_words(r)[88]);
    assert(w[base + 89] == phys_words(r)[89]);
    assert(w[base + 90] == phys_words(r)[90]);
    assert(w[base + 91] == phys_words(r)[91]);
    assert(w[base + 92] == phys_words(r)[92]);
    assert(w[base + 93] == phys_words(r)[93]);
    assert(w[base + 94] == phys_words(r)[94]);
    assert(w[base + 95] == phys_words(r)[95]);
    assert(w[base + 96] == phys_words(r)[96]);
    assert(w[base + 97] == phys_words(r)[97]);
    assert(w[base + 98] == phys_words(r)[98]);
    assert(w[base + 99] == phys_words(r)[99]);
    assert(w[base + 100] == phys_words(r)[100]);
    assert(w[base + 101] == phys_words(r)[101]);
    assert(w[base + 102] == phys_words(r)[102]);
    assert(w[base + 103] == phys_words(r)[103]);
    assert(w[base + 104] == phys_words(r)[104]);
    assert(w[base + 105] == phys_words(r)[105]);
    assert(w[base + 106] == phys_words(r)[106]);
    assert(w[base + 107] == phys_words(r)[107]);
    assert(w[base + 108] == phys_words(r)[108]);
    assert(w[base + 109] == phys_words(r)[109]);
    assert(w[base + 110] == phys_words(r)[110]);
    assert(w[base + 111] == phys_words(r)[111]);
    assert(w[base + 112] == phys_words(r)[112]);
    assert(w[base + 113] == phys_words(r)[113]);
    assert(w[base + 114] == phys_words(r)[114]);
    assert(w[base + 115] == phys_words(r)[115]);
    assert(w[base + 116] == phys_words(r)[116]);
    assert(w[base + 117] == phys_words(r)[117]);
    assert(w[base + 118] == phys_words(r)[118]);
    assert(w[base + 119] == phys_words(r)[119]);
    assert(w[base + 120] == phys_words(r)[120]);
    assert(w[base + 121] == phys_words(r)[121]);
    assert(w[base + 122] == phys_words(r)[122]);
    assert(w[base + 123] == phys_words(r)[123]);
    assert(w[base + 124] == phys_words(r)[124]);
    assert(w[base + 125] == phys_words(r)[125]);
    assert(w[base + 126] == phys_words(r)[126]);
    assert(w[base + 127] == phys_words(r)[127]);
    assert(w[base + 128] == phys_words(r)[128]);
    assert(w[base + 129] == phys_words(r)[129]);
    assert(w[base + 130] == phys_words(r)[130]);
    assert(w[base + 131] == phys_words(r)[131]);
    assert(w[base + 132] == phys_words(r)[132]);
    assert(w[base + 133] == phys_words(r)[133]);
    assert(w[base + 134] == phys_words(r)[134]);
    assert(w[base + 135] == phys_words(r)[135]);
    assert(w[base + 136] == phys_words(r)[136]);
    assert(w[base + 137] == phys_words(r)[137]);
    assert(w[base + 138] == phys_words(r)[138]);
    assert(w[base + 139] == phys_words(r)[139]);
    assert(w[base + 140] == phys_words(r)[140]);
    assert(w[base + 141] == phys_words(r)[141]);
    assert(w[base + 142] == phys_words(r)[142]);
    assert(w[base + 143] == phys_words(r)[143]);
    assert(w[base + 144] == phys_words(r)[144]);
    assert(w[base + 145] == phys_words(r)[145]);
    assert(w[base + 146] == phys_words(r)[146]);
    assert(w[base + 147] == phys_words(r)[147]);
    assert(w[base + 148] == phys_words(r)[148]);
    assert(w[base + 149] == phys_words(r)[149]);
    assert(w[base + 150] == phys_words(r)[150]);
    assert(w[base + 151] == phys_words(r)[151]);
    assert(w[base + 152] == phys_words(r)[152]);
    assert(w[base + 153] == phys_words(r)[153]);
    assert(w[base + 154] == phys_words(r)[154]);
    assert(w[base + 155] == phys_words(r)[155]);
    assert(w[base + 156] == phys_words(r)[156]);
    assert(w[base + 157] == phys_words(r)[157]);
    assert(w[base + 158] == phys_words(r)[158]);
    assert(w[base + 159] == phys_words(r)[159]);
    assert(w[base + 160] == phys_words(r)[160]);
    assert(w[base + 161] == phys_words(r)[161]);
    assert(w[base + 162] == phys_words(r)[162]);
    assert(w[base + 163] == phys_words(r)[163]);
    assert(w[base + 164] == phys_words(r)[164]);
    assert(w[base + 165] == phys_words(r)[165]);
    assert(w[base + 166] == phys_words(r)[166]);
    assert(w[base + 167] == phys_words(r)[167]);
    assert(w[base + 168] == phys_words(r)[168]);
    assert(w[base + 169] == phys_words(r)[169]);
    assert(w[base + 170] == phys_words(r)[170]);
    assert(w[base + 171] == phys_words(r)[171]);
    assert(w[base + 172] == phys_words(r)[172]);
    assert(w[base + 173] == phys_words(r)[173]);
    assert(w[base + 174] == phys_words(r)[174]);
    assert(w[base + 175] == phys_words(r)[175]);
    assert(w[base + 176] == phys_words(r)[176]);
    assert(w[base + 177] == phys_words(r)[177]);
    assert(w[base + 178] == phys_words(r)[178]);
    assert(w[base + 179] == phys_words(r)[179]);
    assert(w[base + 180] == phys_words(r)[180]);
    assert(w[base + 181] == phys_words(r)[181]);
    assert(w[base + 182] == phys_words(r)[182]);
    assert(w[base + 183] == phys_words(r)[183]);
    assert(w[base + 184] == phys_words(r)[184]);
    assert(w[base + 185] == phys_words(r)[185]);
    assert(w[base + 186] == phys_words(r)[186]);
    assert(w[base + 187] == phys_words(r)[187]);
    assert(w[base + 188] == phys_words(r)[188]);
    assert(w[base + 189] == phys_words(r)[189]);
    assert(w[base + 190] == phys_words(r)[190]);
    assert(w[base + 191] == phys_words(r)[191]);
    assert(w[base + 192] == phys_words(r)[192]);
    assert(w[base + 193] == phys_words(r)[193]);
    assert(w[base + 194] == phys_words(r)[194]);
    assert(w[base + 195] == phys_words(r)[195]);
}

} // verus!
