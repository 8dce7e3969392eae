//! Layout decoders: total parses of the three shared-memory segments.
//!
//! Each decoder walks the producer's documented byte layout at fixed offsets.
//! Strictly range-checked enum fields reject the frame on an out-of-range
//! value; the penalty field admits a catch-all unknown value.  Wide-string
//! fields advance by their full declared extent regardless of where the
//! terminator sits.

use vstd::prelude::*;

use crate::err::TelemetryError;
use crate::frames::{
    CarDamageRecord, ContactPointRecord, GraphicsRecord, GraphicsRecordV, PhysicsRecord,
    StaticsRecord, Vector3fRecord, WheelsRecord, cells_wf,
};
use crate::shm::{
    GRAPHICS_SEGMENT_BYTES, PHYSICS_SEGMENT_BYTES, STATICS_SEGMENT_BYTES, Segment,
    lemma_take_until_nul, spec_wide_read, spec_wide_read_ok, spec_word_to_i32_value, wide_cells,
    word_as_bool, word_as_i32, word_at,
};

verus! {

/// Word read that cannot fail: the offset is known to be in bounds.
fn seg_word(seg: &Segment, off: usize) -> (r: u32)
    requires
        off + 4 <= seg@.len(),
    ensures
        r == word_at(seg@, off as int),
{
    match seg.read_u32_at(off) {
        Ok(w) => w,
        Err(_) => {
            assert(false);
            0
        },
    }
}

/// Signed field read that cannot fail.
fn seg_i32(seg: &Segment, off: usize) -> (r: i32)
    requires
        off + 4 <= seg@.len(),
    ensures
        r == spec_word_to_i32_value(word_at(seg@, off as int)),
        r as int == word_as_i32(word_at(seg@, off as int)),
{
    match seg.read_i32_at(off) {
        Ok(x) => x,
        Err(_) => {
            assert(false);
            0
        },
    }
}

/// Truth-value read that cannot fail.
fn seg_bool(seg: &Segment, off: usize) -> (r: bool)
    requires
        off + 4 <= seg@.len(),
    ensures
        r == word_as_bool(word_at(seg@, off as int)),
{
    match seg.read_bool_at(off) {
        Ok(x) => x,
        Err(_) => {
            assert(false);
            false
        },
    }
}

/// The physics frame a correctly sized segment decodes to.
pub open spec fn spec_physics_frame(b: Seq<u8>) -> PhysicsRecord
    recommends
        b.len() >= PHYSICS_SEGMENT_BYTES,
{
    PhysicsRecord {
        packet_id: spec_word_to_i32_value(word_at(b, 0)),
        gas: word_at(b, 4),
        brake: word_at(b, 8),
        fuel: word_at(b, 12),
        gear: spec_word_to_i32_value(word_at(b, 16)),
        rpm: spec_word_to_i32_value(word_at(b, 20)),
        steer_angle: word_at(b, 24),
        speed_kmh: word_at(b, 28),
        velocity: Vector3fRecord { x: word_at(b, 32), y: word_at(b, 36), z: word_at(b, 40) },
        g_force: Vector3fRecord { x: word_at(b, 44), y: word_at(b, 48), z: word_at(b, 52) },
        wheel_slip: WheelsRecord { front_left: word_at(b, 56), front_right: word_at(b, 60), rear_left: word_at(b, 64), rear_right: word_at(b, 68) },
        wheel_load: WheelsRecord { front_left: word_at(b, 72), front_right: word_at(b, 76), rear_left: word_at(b, 80), rear_right: word_at(b, 84) },
        wheel_pressure: WheelsRecord { front_left: word_at(b, 88), front_right: word_at(b, 92), rear_left: word_at(b, 96), rear_right: word_at(b, 100) },
        wheel_angular_speed: WheelsRecord { front_left: word_at(b, 104), front_right: word_at(b, 108), rear_left: word_at(b, 112), rear_right: word_at(b, 116) },
        tyre_wear: WheelsRecord { front_left: word_at(b, 120), front_right: word_at(b, 124), rear_left: word_at(b, 128), rear_right: word_at(b, 132) },
        tyre_dirty_level: WheelsRecord { front_left: word_at(b, 136), front_right: word_at(b, 140), rear_left: word_at(b, 144), rear_right: word_at(b, 148) },
        tyre_core_temp: WheelsRecord { front_left: word_at(b, 152), front_right: word_at(b, 156), rear_left: word_at(b, 160), rear_right: word_at(b, 164) },
        camber_rad: WheelsRecord { front_left: word_at(b, 168), front_right: word_at(b, 172), rear_left: word_at(b, 176), rear_right: word_at(b, 180) },
        suspension_travel: WheelsRecord { front_left: word_at(b, 184), front_right: word_at(b, 188), rear_left: word_at(b, 192), rear_right: word_at(b, 196) },
        drs: spec_word_to_i32_value(word_at(b, 200)),
        tc: word_at(b, 204),
        heading: word_at(b, 208),
        pitch: word_at(b, 212),
        roll: word_at(b, 216),
        cg_height: word_at(b, 220),
        car_damage: CarDamageRecord { front: word_at(b, 224), rear: word_at(b, 228), left: word_at(b, 232), right: word_at(b, 236), center: word_at(b, 240) },
        number_of_tyres_out: spec_word_to_i32_value(word_at(b, 244)),
        pit_limiter_on: word_as_bool(word_at(b, 248)),
        abs: word_at(b, 252),
        kers_charge: word_at(b, 256),
        kers_input: word_at(b, 260),
        autoshifter_on: word_as_bool(word_at(b, 264)),
        ride_height_front: word_at(b, 268),
        ride_height_rear: word_at(b, 272),
        turbo_boost: word_at(b, 276),
        ballast: word_at(b, 280),
        air_density: word_at(b, 284),
        air_temp: word_at(b, 288),
        road_temp: word_at(b, 292),
        local_angular_vel: Vector3fRecord { x: word_at(b, 296), y: word_at(b, 300), z: word_at(b, 304) },
        final_ff: word_at(b, 308),
        performance_meter: word_at(b, 312),
        engine_brake: spec_word_to_i32_value(word_at(b, 316)),
        ers_recovery_level: spec_word_to_i32_value(word_at(b, 320)),
        ers_power_level: spec_word_to_i32_value(word_at(b, 324)),
        ers_heat_charging: spec_word_to_i32_value(word_at(b, 328)),
        ers_is_charging: spec_word_to_i32_value(word_at(b, 332)),
        kers_current_kj: word_at(b, 336),
        drs_available: spec_word_to_i32_value(word_at(b, 340)),
        drs_enabled: spec_word_to_i32_value(word_at(b, 344)),
        brake_temp: WheelsRecord { front_left: word_at(b, 348), front_right: word_at(b, 352), rear_left: word_at(b, 356), rear_right: word_at(b, 360) },
        clutch: word_at(b, 364),
        tyre_temp_i: WheelsRecord { front_left: word_at(b, 368), front_right: word_at(b, 372), rear_left: word_at(b, 376), rear_right: word_at(b, 380) },
        tyre_temp_m: WheelsRecord { front_left: word_at(b, 384), front_right: word_at(b, 388), rear_left: word_at(b, 392), rear_right: word_at(b, 396) },
        tyre_temp_o: WheelsRecord { front_left: word_at(b, 400), front_right: word_at(b, 404), rear_left: word_at(b, 408), rear_right: word_at(b, 412) },
        is_ai_controlled: word_as_bool(word_at(b, 416)),
        tyre_contact_point: ContactPointRecord { front_left: Vector3fRecord { x: word_at(b, 420), y: word_at(b, 424), z: word_at(b, 428) }, front_right: Vector3fRecord { x: word_at(b, 432), y: word_at(b, 436), z: word_at(b, 440) }, rear_left: Vector3fRecord { x: word_at(b, 444), y: word_at(b, 448), z: word_at(b, 452) }, rear_right: Vector3fRecord { x: word_at(b, 456), y: word_at(b, 460), z: word_at(b, 464) } },
        tyre_contact_normal: ContactPointRecord { front_left: Vector3fRecord { x: word_at(b, 468), y: word_at(b, 472), z: word_at(b, 476) }, front_right: Vector3fRecord { x: word_at(b, 480), y: word_at(b, 484), z: word_at(b, 488) }, rear_left: Vector3fRecord { x: word_at(b, 492), y: word_at(b, 496), z: word_at(b, 500) }, rear_right: Vector3fRecord { x: word_at(b, 504), y: word_at(b, 508), z: word_at(b, 512) } },
        tyre_contact_heading: ContactPointRecord { front_left: Vector3fRecord { x: word_at(b, 516), y: word_at(b, 520), z: word_at(b, 524) }, front_right: Vector3fRecord { x: word_at(b, 528), y: word_at(b, 532), z: word_at(b, 536) }, rear_left: Vector3fRecord { x: word_at(b, 540), y: word_at(b, 544), z: word_at(b, 548) }, rear_right: Vector3fRecord { x: word_at(b, 552), y: word_at(b, 556), z: word_at(b, 560) } },
        brake_bias: word_at(b, 564),
        local_velocity: Vector3fRecord { x: word_at(b, 568), y: word_at(b, 572), z: word_at(b, 576) },
        p2p_activation: spec_word_to_i32_value(word_at(b, 580)),
        p2p_status: spec_word_to_i32_value(word_at(b, 584)),
        current_max_rpm: spec_word_to_i32_value(word_at(b, 588)),
        mz: WheelsRecord { front_left: word_at(b, 592), front_right: word_at(b, 596), rear_left: word_at(b, 600), rear_right: word_at(b, 604) },
        fz: WheelsRecord { front_left: word_at(b, 608), front_right: word_at(b, 612), rear_left: word_at(b, 616), rear_right: word_at(b, 620) },
        my: WheelsRecord { front_left: word_at(b, 624), front_right: word_at(b, 628), rear_left: word_at(b, 632), rear_right: word_at(b, 636) },
        slip_ratio: WheelsRecord { front_left: word_at(b, 640), front_right: word_at(b, 644), rear_left: word_at(b, 648), rear_right: word_at(b, 652) },
        slip_angle: WheelsRecord { front_left: word_at(b, 656), front_right: word_at(b, 660), rear_left: word_at(b, 664), rear_right: word_at(b, 668) },
        tc_in_action: word_as_bool(word_at(b, 672)),
        abs_in_action: word_as_bool(word_at(b, 676)),
        suspension_damage: WheelsRecord { front_left: word_at(b, 680), front_right: word_at(b, 684), rear_left: word_at(b, 688), rear_right: word_at(b, 692) },
        water_temp: word_at(b, 712),
        brake_pressure: WheelsRecord { front_left: word_at(b, 716), front_right: word_at(b, 720), rear_left: word_at(b, 724), rear_right: word_at(b, 728) },
        front_brake_compound: spec_word_to_i32_value(word_at(b, 732)),
        rear_brake_compound: spec_word_to_i32_value(word_at(b, 736)),
        pad_life: WheelsRecord { front_left: word_at(b, 740), front_right: word_at(b, 744), rear_left: word_at(b, 748), rear_right: word_at(b, 752) },
        disc_life: WheelsRecord { front_left: word_at(b, 756), front_right: word_at(b, 760), rear_left: word_at(b, 764), rear_right: word_at(b, 768) },
        ignition_on: word_as_bool(word_at(b, 772)),
        starter_engine_on: word_as_bool(word_at(b, 776)),
        is_engine_running: word_as_bool(word_at(b, 780)),
        kerb_vibration: word_at(b, 784),
        slip_vibration: word_at(b, 788),
        g_vibration: word_at(b, 792),
        abs_vibration: word_at(b, 796),
    }
}

impl PhysicsRecord {
    /// Decode the physics segment.
    ///
    /// Succeeds exactly when the snapshot is at least the declared segment
    /// size; no field of this layout is range-checked.
    pub fn from_physics(seg: &Segment) -> (r: Result<PhysicsRecord, TelemetryError>)
        ensures
            seg@.len() >= PHYSICS_SEGMENT_BYTES ==> r == Ok::<PhysicsRecord, TelemetryError>(spec_physics_frame(seg@)),
            seg@.len() < PHYSICS_SEGMENT_BYTES ==> r == Err::<PhysicsRecord, TelemetryError>(TelemetryError::OutOfBounds),
    {
        if seg.size() < PHYSICS_SEGMENT_BYTES {
            return Err(TelemetryError::OutOfBounds);
        }
        Ok(PhysicsRecord {
            packet_id: seg_i32(seg, 0),
            gas: seg_word(seg, 4),
            brake: seg_word(seg, 8),
            fuel: seg_word(seg, 12),
            gear: seg_i32(seg, 16),
            rpm: seg_i32(seg, 20),
            steer_angle: seg_word(seg, 24),
            speed_kmh: seg_word(seg, 28),
            velocity: Vector3fRecord { x: seg_word(seg, 32), y: seg_word(seg, 36), z: seg_word(seg, 40) },
            g_force: Vector3fRecord { x: seg_word(seg, 44), y: seg_word(seg, 48), z: seg_word(seg, 52) },
            wheel_slip: WheelsRecord { front_left: seg_word(seg, 56), front_right: seg_word(seg, 60), rear_left: seg_word(seg, 64), rear_right: seg_word(seg, 68) },
            wheel_load: WheelsRecord { front_left: seg_word(seg, 72), front_right: seg_word(seg, 76), rear_left: seg_word(seg, 80), rear_right: seg_word(seg, 84) },
            wheel_pressure: WheelsRecord { front_left: seg_word(seg, 88), front_right: seg_word(seg, 92), rear_left: seg_word(seg, 96), rear_right: seg_word(seg, 100) },
            wheel_angular_speed: WheelsRecord { front_left: seg_word(seg, 104), front_right: seg_word(seg, 108), rear_left: seg_word(seg, 112), rear_right: seg_word(seg, 116) },
            tyre_wear: WheelsRecord { front_left: seg_word(seg, 120), front_right: seg_word(seg, 124), rear_left: seg_word(seg, 128), rear_right: seg_word(seg, 132) },
            tyre_dirty_level: WheelsRecord { front_left: seg_word(seg, 136), front_right: seg_word(seg, 140), rear_left: seg_word(seg, 144), rear_right: seg_word(seg, 148) },
            tyre_core_temp: WheelsRecord { front_left: seg_word(seg, 152), front_right: seg_word(seg, 156), rear_left: seg_word(seg, 160), rear_right: seg_word(seg, 164) },
            camber_rad: WheelsRecord { front_left: seg_word(seg, 168), front_right: seg_word(seg, 172), rear_left: seg_word(seg, 176), rear_right: seg_word(seg, 180) },
            suspension_travel: WheelsRecord { front_left: seg_word(seg, 184), front_right: seg_word(seg, 188), rear_left: seg_word(seg, 192), rear_right: seg_word(seg, 196) },
            drs: seg_i32(seg, 200),
            tc: seg_word(seg, 204),
            heading: seg_word(seg, 208),
            pitch: seg_word(seg, 212),
            roll: seg_word(seg, 216),
            cg_height: seg_word(seg, 220),
            car_damage: CarDamageRecord { front: seg_word(seg, 224), rear: seg_word(seg, 228), left: seg_word(seg, 232), right: seg_word(seg, 236), center: seg_word(seg, 240) },
            number_of_tyres_out: seg_i32(seg, 244),
            pit_limiter_on: seg_bool(seg, 248),
            abs: seg_word(seg, 252),
            kers_charge: seg_word(seg, 256),
            kers_input: seg_word(seg, 260),
            autoshifter_on: seg_bool(seg, 264),
            ride_height_front: seg_word(seg, 268),
            ride_height_rear: seg_word(seg, 272),
            turbo_boost: seg_word(seg, 276),
            ballast: seg_word(seg, 280),
            air_density: seg_word(seg, 284),
            air_temp: seg_word(seg, 288),
            road_temp: seg_word(seg, 292),
            local_angular_vel: Vector3fRecord { x: seg_word(seg, 296), y: seg_word(seg, 300), z: seg_word(seg, 304) },
            final_ff: seg_word(seg, 308),
            performance_meter: seg_word(seg, 312),
            engine_brake: seg_i32(seg, 316),
            ers_recovery_level: seg_i32(seg, 320),
            ers_power_level: seg_i32(seg, 324),
            ers_heat_charging: seg_i32(seg, 328),
            ers_is_charging: seg_i32(seg, 332),
            kers_current_kj: seg_word(seg, 336),
            drs_available: seg_i32(seg, 340),
            drs_enabled: seg_i32(seg, 344),
            brake_temp: WheelsRecord { front_left: seg_word(seg, 348), front_right: seg_word(seg, 352), rear_left: seg_word(seg, 356), rear_right: seg_word(seg, 360) },
            clutch: seg_word(seg, 364),
            tyre_temp_i: WheelsRecord { front_left: seg_word(seg, 368), front_right: seg_word(seg, 372), rear_left: seg_word(seg, 376), rear_right: seg_word(seg, 380) },
            tyre_temp_m: WheelsRecord { front_left: seg_word(seg, 384), front_right: seg_word(seg, 388), rear_left: seg_word(seg, 392), rear_right: seg_word(seg, 396) },
            tyre_temp_o: WheelsRecord { front_left: seg_word(seg, 400), front_right: seg_word(seg, 404), rear_left: seg_word(seg, 408), rear_right: seg_word(seg, 412) },
            is_ai_controlled: seg_bool(seg, 416),
            tyre_contact_point: ContactPointRecord { front_left: Vector3fRecord { x: seg_word(seg, 420), y: seg_word(seg, 424), z: seg_word(seg, 428) }, front_right: Vector3fRecord { x: seg_word(seg, 432), y: seg_word(seg, 436), z: seg_word(seg, 440) }, rear_left: Vector3fRecord { x: seg_word(seg, 444), y: seg_word(seg, 448), z: seg_word(seg, 452) }, rear_right: Vector3fRecord { x: seg_word(seg, 456), y: seg_word(seg, 460), z: seg_word(seg, 464) } },
            tyre_contact_normal: ContactPointRecord { front_left: Vector3fRecord { x: seg_word(seg, 468), y: seg_word(seg, 472), z: seg_word(seg, 476) }, front_right: Vector3fRecord { x: seg_word(seg, 480), y: seg_word(seg, 484), z: seg_word(seg, 488) }, rear_left: Vector3fRecord { x: seg_word(seg, 492), y: seg_word(seg, 496), z: seg_word(seg, 500) }, rear_right: Vector3fRecord { x: seg_word(seg, 504), y: seg_word(seg, 508), z: seg_word(seg, 512) } },
            tyre_contact_heading: ContactPointRecord { front_left: Vector3fRecord { x: seg_word(seg, 516), y: seg_word(seg, 520), z: seg_word(seg, 524) }, front_right: Vector3fRecord { x: seg_word(seg, 528), y: seg_word(seg, 532), z: seg_word(seg, 536) }, rear_left: Vector3fRecord { x: seg_word(seg, 540), y: seg_word(seg, 544), z: seg_word(seg, 548) }, rear_right: Vector3fRecord { x: seg_word(seg, 552), y: seg_word(seg, 556), z: seg_word(seg, 560) } },
            brake_bias: seg_word(seg, 564),
            local_velocity: Vector3fRecord { x: seg_word(seg, 568), y: seg_word(seg, 572), z: seg_word(seg, 576) },
            p2p_activation: seg_i32(seg, 580),
            p2p_status: seg_i32(seg, 584),
            current_max_rpm: seg_i32(seg, 588),
            mz: WheelsRecord { front_left: seg_word(seg, 592), front_right: seg_word(seg, 596), rear_left: seg_word(seg, 600), rear_right: seg_word(seg, 604) },
            fz: WheelsRecord { front_left: seg_word(seg, 608), front_right: seg_word(seg, 612), rear_left: seg_word(seg, 616), rear_right: seg_word(seg, 620) },
            my: WheelsRecord { front_left: seg_word(seg, 624), front_right: seg_word(seg, 628), rear_left: seg_word(seg, 632), rear_right: seg_word(seg, 636) },
            slip_ratio: WheelsRecord { front_left: seg_word(seg, 640), front_right: seg_word(seg, 644), rear_left: seg_word(seg, 648), rear_right: seg_word(seg, 652) },
            slip_angle: WheelsRecord { front_left: seg_word(seg, 656), front_right: seg_word(seg, 660), rear_left: seg_word(seg, 664), rear_right: seg_word(seg, 668) },
            tc_in_action: seg_bool(seg, 672),
            abs_in_action: seg_bool(seg, 676),
            suspension_damage: WheelsRecord { front_left: seg_word(seg, 680), front_right: seg_word(seg, 684), rear_left: seg_word(seg, 688), rear_right: seg_word(seg, 692) },
            water_temp: seg_word(seg, 712),
            brake_pressure: WheelsRecord { front_left: seg_word(seg, 716), front_right: seg_word(seg, 720), rear_left: seg_word(seg, 724), rear_right: seg_word(seg, 728) },
            front_brake_compound: seg_i32(seg, 732),
            rear_brake_compound: seg_i32(seg, 736),
            pad_life: WheelsRecord { front_left: seg_word(seg, 740), front_right: seg_word(seg, 744), rear_left: seg_word(seg, 748), rear_right: seg_word(seg, 752) },
            disc_life: WheelsRecord { front_left: seg_word(seg, 756), front_right: seg_word(seg, 760), rear_left: seg_word(seg, 764), rear_right: seg_word(seg, 768) },
            ignition_on: seg_bool(seg, 772),
            starter_engine_on: seg_bool(seg, 776),
            is_engine_running: seg_bool(seg, 780),
            kerb_vibration: seg_word(seg, 784),
            slip_vibration: seg_word(seg, 788),
            g_vibration: seg_word(seg, 792),
            abs_vibration: seg_word(seg, 796),
        })
    }
}

/// Every wide string of the statics layout decodes to scalar cells.
pub open spec fn spec_statics_strings_ok(b: Seq<u8>) -> bool {
    &&& spec_wide_read_ok(b, 0, 15)
    &&& spec_wide_read_ok(b, 30, 15)
    &&& spec_wide_read_ok(b, 68, 33)
    &&& spec_wide_read_ok(b, 134, 33)
    &&& spec_wide_read_ok(b, 200, 33)
    &&& spec_wide_read_ok(b, 266, 33)
    &&& spec_wide_read_ok(b, 332, 33)
    &&& spec_wide_read_ok(b, 688, 33)
    &&& spec_wide_read_ok(b, 754, 33)
}

/// The statics layout parses when the segment has its declared size and
/// every string field decodes.
pub open spec fn spec_statics_ok(b: Seq<u8>) -> bool {
    b.len() >= STATICS_SEGMENT_BYTES && spec_statics_strings_ok(b)
}

impl StaticsRecord {
    /// Decode the statics segment.
    pub fn from_statics(seg: &Segment) -> (r: Result<StaticsRecord, TelemetryError>)
        ensures
            match r {
                Ok(s) => {
                    &&& spec_statics_ok(seg@)
                    &&& s.sm_version@ == spec_wide_read(seg@, 0, 15)
                    &&& cells_wf(s.sm_version@, 15)
                    &&& s.ac_version@ == spec_wide_read(seg@, 30, 15)
                    &&& cells_wf(s.ac_version@, 15)
                    &&& s.number_of_sessions == spec_word_to_i32_value(word_at(seg@, 60))
                    &&& s.num_cars == spec_word_to_i32_value(word_at(seg@, 64))
                    &&& s.car_model@ == spec_wide_read(seg@, 68, 33)
                    &&& cells_wf(s.car_model@, 33)
                    &&& s.track@ == spec_wide_read(seg@, 134, 33)
                    &&& cells_wf(s.track@, 33)
                    &&& s.player_name@ == spec_wide_read(seg@, 200, 33)
                    &&& cells_wf(s.player_name@, 33)
                    &&& s.player_surname@ == spec_wide_read(seg@, 266, 33)
                    &&& cells_wf(s.player_surname@, 33)
                    &&& s.player_nick@ == spec_wide_read(seg@, 332, 33)
                    &&& cells_wf(s.player_nick@, 33)
                    &&& s.sector_count == spec_word_to_i32_value(word_at(seg@, 400))
                    &&& s.max_rpm == spec_word_to_i32_value(word_at(seg@, 412))
                    &&& s.max_fuel == word_at(seg@, 416)
                    &&& s.penalty_enabled == word_as_bool(word_at(seg@, 464))
                    &&& s.aid_fuel_rate == word_at(seg@, 468)
                    &&& s.aid_tyre_rate == word_at(seg@, 472)
                    &&& s.aid_mechanical_damage == word_at(seg@, 476)
                    &&& s.aid_stability == word_at(seg@, 484)
                    &&& s.aid_auto_clutch == word_as_bool(word_at(seg@, 488))
                    &&& s.pit_window_start == spec_word_to_i32_value(word_at(seg@, 676))
                    &&& s.pit_window_end == spec_word_to_i32_value(word_at(seg@, 680))
                    &&& s.is_online == word_as_bool(word_at(seg@, 684))
                    &&& s.dry_tyres_name@ == spec_wide_read(seg@, 688, 33)
                    &&& cells_wf(s.dry_tyres_name@, 33)
                    &&& s.wet_tyres_name@ == spec_wide_read(seg@, 754, 33)
                    &&& cells_wf(s.wet_tyres_name@, 33)
                },
                Err(e) => {
                    &&& !spec_statics_ok(seg@)
                    &&& (e == TelemetryError::OutOfBounds <==> seg@.len() < STATICS_SEGMENT_BYTES)
                    &&& (e == TelemetryError::OutOfBounds || e == TelemetryError::InvalidUtf16)
                },
            },
    {
        if seg.size() < STATICS_SEGMENT_BYTES {
            return Err(TelemetryError::OutOfBounds);
        }
        let sm_version = match seg.read_wide_at(0, 15) {
            Ok(v) => v,
            Err(e) => {
                assert(e == TelemetryError::InvalidUtf16);
                return Err(e);
            },
        };
        proof {
            lemma_take_until_nul(wide_cells(seg@, 0, 14));
        }
        let ac_version = match seg.read_wide_at(30, 15) {
            Ok(v) => v,
            Err(e) => {
                assert(e == TelemetryError::InvalidUtf16);
                return Err(e);
            },
        };
        proof {
            lemma_take_until_nul(wide_cells(seg@, 30, 14));
        }
        let car_model = match seg.read_wide_at(68, 33) {
            Ok(v) => v,
            Err(e) => {
                assert(e == TelemetryError::InvalidUtf16);
                return Err(e);
            },
        };
        proof {
            lemma_take_until_nul(wide_cells(seg@, 68, 32));
        }
        let track = match seg.read_wide_at(134, 33) {
            Ok(v) => v,
            Err(e) => {
                assert(e == TelemetryError::InvalidUtf16);
                return Err(e);
            },
        };
        proof {
            lemma_take_until_nul(wide_cells(seg@, 134, 32));
        }
        let player_name = match seg.read_wide_at(200, 33) {
            Ok(v) => v,
            Err(e) => {
                assert(e == TelemetryError::InvalidUtf16);
                return Err(e);
            },
        };
        proof {
            lemma_take_until_nul(wide_cells(seg@, 200, 32));
        }
        let player_surname = match seg.read_wide_at(266, 33) {
            Ok(v) => v,
            Err(e) => {
                assert(e == TelemetryError::InvalidUtf16);
                return Err(e);
            },
        };
        proof {
            lemma_take_until_nul(wide_cells(seg@, 266, 32));
        }
        let player_nick = match seg.read_wide_at(332, 33) {
            Ok(v) => v,
            Err(e) => {
                assert(e == TelemetryError::InvalidUtf16);
                return Err(e);
            },
        };
        proof {
            lemma_take_until_nul(wide_cells(seg@, 332, 32));
        }
        let dry_tyres_name = match seg.read_wide_at(688, 33) {
            Ok(v) => v,
            Err(e) => {
                assert(e == TelemetryError::InvalidUtf16);
                return Err(e);
            },
        };
        proof {
            lemma_take_until_nul(wide_cells(seg@, 688, 32));
        }
        let wet_tyres_name = match seg.read_wide_at(754, 33) {
            Ok(v) => v,
            Err(e) => {
                assert(e == TelemetryError::InvalidUtf16);
                return Err(e);
            },
        };
        proof {
            lemma_take_until_nul(wide_cells(seg@, 754, 32));
        }
        Ok(StaticsRecord {
            sm_version,
            ac_version,
            number_of_sessions: seg_i32(seg, 60),
            num_cars: seg_i32(seg, 64),
            track,
            sector_count: seg_i32(seg, 400),
            player_name,
            player_surname,
            player_nick,
            car_model,
            max_rpm: seg_i32(seg, 412),
            max_fuel: seg_word(seg, 416),
            penalty_enabled: seg_bool(seg, 464),
            aid_fuel_rate: seg_word(seg, 468),
            aid_tyre_rate: seg_word(seg, 472),
            aid_mechanical_damage: seg_word(seg, 476),
            aid_stability: seg_word(seg, 484),
            aid_auto_clutch: seg_bool(seg, 488),
            pit_window_start: seg_i32(seg, 676),
            pit_window_end: seg_i32(seg, 680),
            is_online: seg_bool(seg, 684),
            dry_tyres_name,
            wet_tyres_name,
        })
    }
}

/// First car slot whose id equals the player id, searching from `k`;
/// 60 slots in all, -1 when none matches.
pub open spec fn first_car_slot_from(b: Seq<u8>, pid: int, k: int) -> int
    decreases 60 - k,
{
    if k < 0 || k >= 60 {
        -1
    } else if word_as_i32(word_at(b, 976 + 4 * k)) == pid {
        k
    } else {
        first_car_slot_from(b, pid, k + 1)
    }
}

/// Slot of the player's car in the coordinate table, -1 when absent.
pub open spec fn spec_player_slot(b: Seq<u8>) -> int {
    first_car_slot_from(b, word_as_i32(word_at(b, 1216)), 0)
}

/// Player coordinates: the slot's 3-vector, or zero when no slot matches.
pub open spec fn spec_player_coord(b: Seq<u8>, axis: int) -> u32 {
    let s = spec_player_slot(b);
    if s == -1 {
        0
    } else {
        word_at(b, 256 + 12 * s + 4 * axis)
    }
}

/// The strictly checked fields of the graphics layout are all in range
/// and every string decodes.
pub open spec fn spec_graphics_fields_ok(b: Seq<u8>) -> bool {
    &&& 0 <= word_as_i32(word_at(b, 4)) <= 3
    &&& -1 <= word_as_i32(word_at(b, 8)) <= 8
    &&& spec_wide_read_ok(b, 12, 15)
    &&& spec_wide_read_ok(b, 42, 15)
    &&& spec_wide_read_ok(b, 72, 15)
    &&& spec_wide_read_ok(b, 102, 15)
    &&& spec_wide_read_ok(b, 176, 33)
    &&& 0 <= word_as_i32(word_at(b, 1224)) <= 8
    &&& spec_wide_read_ok(b, 1328, 15)
    &&& spec_wide_read_ok(b, 1364, 15)
    &&& spec_wide_read_ok(b, 1416, 33)
    &&& 0 <= word_as_i32(word_at(b, 1556)) <= 6
    &&& 0 <= word_as_i32(word_at(b, 1560)) <= 5
    &&& 0 <= word_as_i32(word_at(b, 1564)) <= 5
    &&& 0 <= word_as_i32(word_at(b, 1568)) <= 5
}

/// The graphics layout parses on a segment of the declared size with all
/// checked fields in range.
pub open spec fn spec_graphics_ok(b: Seq<u8>) -> bool {
    b.len() >= GRAPHICS_SEGMENT_BYTES && spec_graphics_fields_ok(b)
}

/// Which error a failed graphics parse reports: the first failure in
/// layout order.
pub open spec fn spec_graphics_err(b: Seq<u8>) -> TelemetryError {
    if b.len() < GRAPHICS_SEGMENT_BYTES {
        TelemetryError::OutOfBounds
    } else if !(0 <= word_as_i32(word_at(b, 4)) <= 3) {
        TelemetryError::InvalidEnumValue
    } else if !(-1 <= word_as_i32(word_at(b, 8)) <= 8) {
        TelemetryError::InvalidEnumValue
    } else if !spec_wide_read_ok(b, 12, 15) {
        TelemetryError::InvalidUtf16
    } else if !spec_wide_read_ok(b, 42, 15) {
        TelemetryError::InvalidUtf16
    } else if !spec_wide_read_ok(b, 72, 15) {
        TelemetryError::InvalidUtf16
    } else if !spec_wide_read_ok(b, 102, 15) {
        TelemetryError::InvalidUtf16
    } else if !spec_wide_read_ok(b, 176, 33) {
        TelemetryError::InvalidUtf16
    } else if !(0 <= word_as_i32(word_at(b, 1224)) <= 8) {
        TelemetryError::InvalidEnumValue
    } else if !spec_wide_read_ok(b, 1328, 15) {
        TelemetryError::InvalidUtf16
    } else if !spec_wide_read_ok(b, 1364, 15) {
        TelemetryError::InvalidUtf16
    } else if !spec_wide_read_ok(b, 1416, 33) {
        TelemetryError::InvalidUtf16
    } else if !(0 <= word_as_i32(word_at(b, 1556)) <= 6) {
        TelemetryError::InvalidEnumValue
    } else if !(0 <= word_as_i32(word_at(b, 1560)) <= 5) {
        TelemetryError::InvalidEnumValue
    } else if !(0 <= word_as_i32(word_at(b, 1564)) <= 5) {
        TelemetryError::InvalidEnumValue
    } else if !(0 <= word_as_i32(word_at(b, 1568)) <= 5) {
        TelemetryError::InvalidEnumValue
    } else {
        TelemetryError::OutOfBounds
    }
}

/// Penalty values outside the producer's published set collapse to the
/// catch-all unknown value.
pub open spec fn spec_penalty_norm(x: int) -> int {
    if -1 <= x <= 22 {
        x
    } else {
        -1
    }
}

/// The graphics frame a valid segment decodes to.
pub open spec fn spec_graphics_frame(b: Seq<u8>) -> GraphicsRecordV
    recommends
        spec_graphics_ok(b),
{
    GraphicsRecordV {
        packet_id: spec_word_to_i32_value(word_at(b, 0)),
        status: spec_word_to_i32_value(word_at(b, 4)),
        session_type: spec_word_to_i32_value(word_at(b, 8)),
        session_index: spec_word_to_i32_value(word_at(b, 1320)),
        current_time_str: spec_wide_read(b, 12, 15),
        last_time_str: spec_wide_read(b, 42, 15),
        best_time_str: spec_wide_read(b, 72, 15),
        last_sector_time_str: spec_wide_read(b, 102, 15),
        completed_lap: spec_word_to_i32_value(word_at(b, 132)),
        position: spec_word_to_i32_value(word_at(b, 136)),
        current_time: spec_word_to_i32_value(word_at(b, 140)),
        last_time: spec_word_to_i32_value(word_at(b, 144)),
        best_time: spec_word_to_i32_value(word_at(b, 148)),
        last_sector_time: spec_word_to_i32_value(word_at(b, 168)),
        number_of_laps: spec_word_to_i32_value(word_at(b, 172)),
        delta_lap_time_str: spec_wide_read(b, 1328, 15),
        estimated_lap_time_str: spec_wide_read(b, 1364, 15),
        delta_lap_time: spec_word_to_i32_value(word_at(b, 1360)),
        estimated_lap_time: spec_word_to_i32_value(word_at(b, 1396)),
        is_delta_positive: word_as_bool(word_at(b, 1400)),
        is_valid_lap: word_as_bool(word_at(b, 1408)),
        fuel_estimated_laps: word_at(b, 1412),
        distance_traveled: word_at(b, 156),
        normalized_car_position: word_at(b, 248),
        session_time_left: word_at(b, 152),
        current_sector_index: spec_word_to_i32_value(word_at(b, 164)),
        is_in_pit: word_as_bool(word_at(b, 160)),
        is_in_pit_lane: word_as_bool(word_at(b, 1236)),
        ideal_line_on: word_as_bool(word_at(b, 1232)),
        mandatory_pit_done: word_as_bool(word_at(b, 1244)),
        missing_mandatory_pits: spec_word_to_i32_value(word_at(b, 1484)),
        penalty_time: word_at(b, 1220),
        penalty: spec_penalty_norm(word_as_i32(word_at(b, 1228))) as i32,
        flag: spec_word_to_i32_value(word_at(b, 1224)),
        player_car_id: spec_word_to_i32_value(word_at(b, 1216)),
        active_cars: spec_word_to_i32_value(word_at(b, 252)),
        car_coordinates_x: spec_player_coord(b, 0),
        car_coordinates_y: spec_player_coord(b, 1),
        car_coordinates_z: spec_player_coord(b, 2),
        wind_speed: word_at(b, 1248),
        wind_direction: word_at(b, 1252),
        rain_intensity: spec_word_to_i32_value(word_at(b, 1560)),
        rain_intensity_in_10min: spec_word_to_i32_value(word_at(b, 1564)),
        rain_intensity_in_30min: spec_word_to_i32_value(word_at(b, 1568)),
        track_grip_status: spec_word_to_i32_value(word_at(b, 1556)),
        track_status: spec_wide_read(b, 1416, 33),
        clock: word_at(b, 1488),
        tc_level: spec_word_to_i32_value(word_at(b, 1268)),
        tc_cut_level: spec_word_to_i32_value(word_at(b, 1272)),
        engine_map: spec_word_to_i32_value(word_at(b, 1276)),
        abs_level: spec_word_to_i32_value(word_at(b, 1280)),
        wiper_stage: spec_word_to_i32_value(word_at(b, 1304)),
        driver_stint_total_time_left: spec_word_to_i32_value(word_at(b, 1308)),
        driver_stint_time_left: spec_word_to_i32_value(word_at(b, 1312)),
        rain_tyres: word_as_bool(word_at(b, 1316)),
        rain_light: word_as_bool(word_at(b, 1288)),
        flashing_light: word_as_bool(word_at(b, 1292)),
        light_stage: spec_word_to_i32_value(word_at(b, 1296)),
        direction_light_left: word_as_bool(word_at(b, 1492)),
        direction_light_right: word_as_bool(word_at(b, 1496)),
        tyre_compound: spec_wide_read(b, 176, 33),
        is_setup_menu_visible: word_as_bool(word_at(b, 1256)),
        main_display_index: spec_word_to_i32_value(word_at(b, 1260)),
        secondary_display_index: spec_word_to_i32_value(word_at(b, 1264)),
        fuel_per_lap: word_at(b, 1284),
        used_fuel: word_at(b, 1324),
        exhaust_temp: word_at(b, 1300),
        gap_ahead: spec_word_to_i32_value(word_at(b, 1580)),
        gap_behind: spec_word_to_i32_value(word_at(b, 1584)),
        global_yellow: word_as_bool(word_at(b, 1500)),
        global_yellow_s1: word_as_bool(word_at(b, 1504)),
        global_yellow_s2: word_as_bool(word_at(b, 1508)),
        global_yellow_s3: word_as_bool(word_at(b, 1512)),
        global_white: word_as_bool(word_at(b, 1516)),
        global_green: word_as_bool(word_at(b, 1520)),
        global_chequered: word_as_bool(word_at(b, 1524)),
        global_red: word_as_bool(word_at(b, 1528)),
        mfd_tyre_set: spec_word_to_i32_value(word_at(b, 1532)),
        mfd_fuel_to_add: word_at(b, 1536),
        mfd_tyre_pressure_fl: word_at(b, 1540),
        mfd_tyre_pressure_fr: word_at(b, 1544),
        mfd_tyre_pressure_rl: word_at(b, 1548),
        mfd_tyre_pressure_rr: word_at(b, 1552),
        current_tyre_set: spec_word_to_i32_value(word_at(b, 1572)),
        strategy_tyre_set: spec_word_to_i32_value(word_at(b, 1576)),
    }
}

impl GraphicsRecord {
    /// Decode the graphics segment.
    ///
    /// Status, session type, flag, track grip and the three rain fields are
    /// strict: an out-of-range value rejects the frame.  The penalty field
    /// admits a catch-all unknown.  The player's coordinates come from the
    /// first car slot whose id matches the player car id.
    pub fn from_graphics(seg: &Segment) -> (r: Result<GraphicsRecord, TelemetryError>)
        ensures
            match r {
                Ok(g) => spec_graphics_ok(seg@) && g@ == spec_graphics_frame(seg@)
                    && g@.strings_wf(),
                Err(e) => !spec_graphics_ok(seg@) && e == spec_graphics_err(seg@),
            },
    {
        if seg.size() < GRAPHICS_SEGMENT_BYTES {
            return Err(TelemetryError::OutOfBounds);
        }
        let status = seg_i32(seg, 4);
        if !(0 <= status && status <= 3) {
            return Err(TelemetryError::InvalidEnumValue);
        }
        let session_type = seg_i32(seg, 8);
        if !(-1 <= session_type && session_type <= 8) {
            return Err(TelemetryError::InvalidEnumValue);
        }
        let current_time_str = match seg.read_wide_at(12, 15) {
            Ok(v) => v,
            Err(e) => {
                assert(e == TelemetryError::InvalidUtf16);
                return Err(e);
            },
        };
        proof {
            lemma_take_until_nul(wide_cells(seg@, 12, 14));
        }
        let last_time_str = match seg.read_wide_at(42, 15) {
            Ok(v) => v,
            Err(e) => {
                assert(e == TelemetryError::InvalidUtf16);
                return Err(e);
            },
        };
        proof {
            lemma_take_until_nul(wide_cells(seg@, 42, 14));
        }
        let best_time_str = match seg.read_wide_at(72, 15) {
            Ok(v) => v,
            Err(e) => {
                assert(e == TelemetryError::InvalidUtf16);
                return Err(e);
            },
        };
        proof {
            lemma_take_until_nul(wide_cells(seg@, 72, 14));
        }
        let last_sector_time_str = match seg.read_wide_at(102, 15) {
            Ok(v) => v,
            Err(e) => {
                assert(e == TelemetryError::InvalidUtf16);
                return Err(e);
            },
        };
        proof {
            lemma_take_until_nul(wide_cells(seg@, 102, 14));
        }
        let tyre_compound = match seg.read_wide_at(176, 33) {
            Ok(v) => v,
            Err(e) => {
                assert(e == TelemetryError::InvalidUtf16);
                return Err(e);
            },
        };
        proof {
            lemma_take_until_nul(wide_cells(seg@, 176, 32));
        }
        let flag = seg_i32(seg, 1224);
        if !(0 <= flag && flag <= 8) {
            return Err(TelemetryError::InvalidEnumValue);
        }
        let delta_lap_time_str = match seg.read_wide_at(1328, 15) {
            Ok(v) => v,
            Err(e) => {
                assert(e == TelemetryError::InvalidUtf16);
                return Err(e);
            },
        };
        proof {
            lemma_take_until_nul(wide_cells(seg@, 1328, 14));
        }
        let estimated_lap_time_str = match seg.read_wide_at(1364, 15) {
            Ok(v) => v,
            Err(e) => {
                assert(e == TelemetryError::InvalidUtf16);
                return Err(e);
            },
        };
        proof {
            lemma_take_until_nul(wide_cells(seg@, 1364, 14));
        }
        let track_status = match seg.read_wide_at(1416, 33) {
            Ok(v) => v,
            Err(e) => {
                assert(e == TelemetryError::InvalidUtf16);
                return Err(e);
            },
        };
        proof {
            lemma_take_until_nul(wide_cells(seg@, 1416, 32));
        }
        let track_grip_status = seg_i32(seg, 1556);
        if !(0 <= track_grip_status && track_grip_status <= 6) {
            return Err(TelemetryError::InvalidEnumValue);
        }
        let rain_intensity = seg_i32(seg, 1560);
        if !(0 <= rain_intensity && rain_intensity <= 5) {
            return Err(TelemetryError::InvalidEnumValue);
        }
        let rain_intensity_in_10min = seg_i32(seg, 1564);
        if !(0 <= rain_intensity_in_10min && rain_intensity_in_10min <= 5) {
            return Err(TelemetryError::InvalidEnumValue);
        }
        let rain_intensity_in_30min = seg_i32(seg, 1568);
        if !(0 <= rain_intensity_in_30min && rain_intensity_in_30min <= 5) {
            return Err(TelemetryError::InvalidEnumValue);
        }
        let penalty_raw = seg_i32(seg, 1228);
        let penalty = if -1 <= penalty_raw && penalty_raw <= 22 {
            penalty_raw
        } else {
            -1
        };
        let player_car_id = seg_i32(seg, 1216);
        let slot = find_player_slot(seg, player_car_id);
        let (car_coordinates_x, car_coordinates_y, car_coordinates_z) = if slot < 60 {
            (
                seg_word(seg, 256 + 12 * slot),
                seg_word(seg, 256 + 12 * slot + 4),
                seg_word(seg, 256 + 12 * slot + 8),
            )
        } else {
            (0u32, 0u32, 0u32)
        };
        let g = GraphicsRecord {
            packet_id: seg_i32(seg, 0),
            status,
            session_type,
            session_index: seg_i32(seg, 1320),
            current_time_str,
            last_time_str,
            best_time_str,
            last_sector_time_str,
            completed_lap: seg_i32(seg, 132),
            position: seg_i32(seg, 136),
            current_time: seg_i32(seg, 140),
            last_time: seg_i32(seg, 144),
            best_time: seg_i32(seg, 148),
            last_sector_time: seg_i32(seg, 168),
            number_of_laps: seg_i32(seg, 172),
            delta_lap_time_str,
            estimated_lap_time_str,
            delta_lap_time: seg_i32(seg, 1360),
            estimated_lap_time: seg_i32(seg, 1396),
            is_delta_positive: seg_bool(seg, 1400),
            is_valid_lap: seg_bool(seg, 1408),
            fuel_estimated_laps: seg_word(seg, 1412),
            distance_traveled: seg_word(seg, 156),
            normalized_car_position: seg_word(seg, 248),
            session_time_left: seg_word(seg, 152),
            current_sector_index: seg_i32(seg, 164),
            is_in_pit: seg_bool(seg, 160),
            is_in_pit_lane: seg_bool(seg, 1236),
            ideal_line_on: seg_bool(seg, 1232),
            mandatory_pit_done: seg_bool(seg, 1244),
            missing_mandatory_pits: seg_i32(seg, 1484),
            penalty_time: seg_word(seg, 1220),
            penalty,
            flag,
            player_car_id,
            active_cars: seg_i32(seg, 252),
            car_coordinates_x,
            car_coordinates_y,
            car_coordinates_z,
            wind_speed: seg_word(seg, 1248),
            wind_direction: seg_word(seg, 1252),
            rain_intensity,
            rain_intensity_in_10min,
            rain_intensity_in_30min,
            track_grip_status,
            track_status,
            clock: seg_word(seg, 1488),
            tc_level: seg_i32(seg, 1268),
            tc_cut_level: seg_i32(seg, 1272),
            engine_map: seg_i32(seg, 1276),
            abs_level: seg_i32(seg, 1280),
            wiper_stage: seg_i32(seg, 1304),
            driver_stint_total_time_left: seg_i32(seg, 1308),
            driver_stint_time_left: seg_i32(seg, 1312),
            rain_tyres: seg_bool(seg, 1316),
            rain_light: seg_bool(seg, 1288),
            flashing_light: seg_bool(seg, 1292),
            light_stage: seg_i32(seg, 1296),
            direction_light_left: seg_bool(seg, 1492),
            direction_light_right: seg_bool(seg, 1496),
            tyre_compound,
            is_setup_menu_visible: seg_bool(seg, 1256),
            main_display_index: seg_i32(seg, 1260),
            secondary_display_index: seg_i32(seg, 1264),
            fuel_per_lap: seg_word(seg, 1284),
            used_fuel: seg_word(seg, 1324),
            exhaust_temp: seg_word(seg, 1300),
            gap_ahead: seg_i32(seg, 1580),
            gap_behind: seg_i32(seg, 1584),
            global_yellow: seg_bool(seg, 1500),
            global_yellow_s1: seg_bool(seg, 1504),
            global_yellow_s2: seg_bool(seg, 1508),
            global_yellow_s3: seg_bool(seg, 1512),
            global_white: seg_bool(seg, 1516),
            global_green: seg_bool(seg, 1520),
            global_chequered: seg_bool(seg, 1524),
            global_red: seg_bool(seg, 1528),
            mfd_tyre_set: seg_i32(seg, 1532),
            mfd_fuel_to_add: seg_word(seg, 1536),
            mfd_tyre_pressure_fl: seg_word(seg, 1540),
            mfd_tyre_pressure_fr: seg_word(seg, 1544),
            mfd_tyre_pressure_rl: seg_word(seg, 1548),
            mfd_tyre_pressure_rr: seg_word(seg, 1552),
            current_tyre_set: seg_i32(seg, 1572),
            strategy_tyre_set: seg_i32(seg, 1576),
        };
        Ok(g)
    }
}

/// First car slot holding the player id; 60 when none does.
fn find_player_slot(seg: &Segment, pid: i32) -> (r: usize)
    requires
        seg@.len() >= GRAPHICS_SEGMENT_BYTES,
    ensures
        r <= 60,
        first_car_slot_from(seg@, pid as int, 0) == if r == 60 { -1 } else { r as int },
{
    let mut k: usize = 0;
    while k < 60
        invariant
            0 <= k <= 60,
            seg@.len() >= GRAPHICS_SEGMENT_BYTES,
            first_car_slot_from(seg@, pid as int, 0) == first_car_slot_from(seg@, pid as int, k as int),
        decreases 60 - k,
    {
        let id = seg_i32(seg, 976 + 4 * k);
        if id == pid {
            return k;
        }
        k = k + 1;
    }
    60
}

} // verus!
