//! Frame record types: flat snapshots of the producer's state at one tick.
//!
//! Every floating-point sample is carried as its raw IEEE-754 single-precision
//! bit pattern (`u32`); wide strings are carried as their decoded UTF-16 cells.
//! Per-wheel groups always appear in the order FL, FR, RL, RR.

use vstd::prelude::*;

verus! {

/// A 3-vector of single-precision bit patterns.
#[derive(Clone, Copy, Debug, PartialEq, Eq, Structural)]
pub struct Vector3fRecord {
    pub x: u32,
    pub y: u32,
    pub z: u32,
}

/// One value per wheel, in the order FL, FR, RL, RR.
#[derive(Clone, Copy, Debug, PartialEq, Eq, Structural)]
pub struct WheelsRecord {
    pub front_left: u32,
    pub front_right: u32,
    pub rear_left: u32,
    pub rear_right: u32,
}

/// A 3-vector per wheel (tyre contact geometry).
#[derive(Clone, Copy, Debug, PartialEq, Eq, Structural)]
pub struct ContactPointRecord {
    pub front_left: Vector3fRecord,
    pub front_right: Vector3fRecord,
    pub rear_left: Vector3fRecord,
    pub rear_right: Vector3fRecord,
}

/// Car damage by zone.
#[derive(Clone, Copy, Debug, PartialEq, Eq, Structural)]
pub struct CarDamageRecord {
    pub front: u32,
    pub rear: u32,
    pub left: u32,
    pub right: u32,
    pub center: u32,
}

/// Complete physics snapshot recorded at the high rate.
#[derive(Clone, Copy, Debug, PartialEq, Eq, Structural)]
pub struct PhysicsRecord {
    pub packet_id: i32,
    pub gas: u32,
    pub brake: u32,
    pub clutch: u32,
    pub steer_angle: u32,
    pub gear: i32,
    pub rpm: i32,
    pub autoshifter_on: bool,
    pub ignition_on: bool,
    pub starter_engine_on: bool,
    pub is_engine_running: bool,
    pub speed_kmh: u32,
    pub velocity: Vector3fRecord,
    pub local_velocity: Vector3fRecord,
    pub local_angular_vel: Vector3fRecord,
    pub g_force: Vector3fRecord,
    pub heading: u32,
    pub pitch: u32,
    pub roll: u32,
    pub final_ff: u32,
    pub wheel_slip: WheelsRecord,
    pub wheel_load: WheelsRecord,
    pub wheel_pressure: WheelsRecord,
    pub wheel_angular_speed: WheelsRecord,
    pub tyre_wear: WheelsRecord,
    pub tyre_dirty_level: WheelsRecord,
    pub tyre_core_temp: WheelsRecord,
    pub camber_rad: WheelsRecord,
    pub suspension_travel: WheelsRecord,
    pub brake_temp: WheelsRecord,
    pub brake_pressure: WheelsRecord,
    pub suspension_damage: WheelsRecord,
    pub slip_ratio: WheelsRecord,
    pub slip_angle: WheelsRecord,
    pub pad_life: WheelsRecord,
    pub disc_life: WheelsRecord,
    pub front_brake_compound: i32,
    pub rear_brake_compound: i32,
    pub tyre_temp_i: WheelsRecord,
    pub tyre_temp_m: WheelsRecord,
    pub tyre_temp_o: WheelsRecord,
    pub tyre_contact_point: ContactPointRecord,
    pub tyre_contact_normal: ContactPointRecord,
    pub tyre_contact_heading: ContactPointRecord,
    pub fuel: u32,
    pub tc: u32,
    pub abs: u32,
    pub pit_limiter_on: bool,
    pub turbo_boost: u32,
    pub air_temp: u32,
    pub road_temp: u32,
    pub water_temp: u32,
    pub car_damage: CarDamageRecord,
    pub is_ai_controlled: bool,
    pub brake_bias: u32,
    pub tc_in_action: bool,
    pub abs_in_action: bool,
    pub drs: i32,
    pub cg_height: u32,
    pub number_of_tyres_out: i32,
    pub kers_charge: u32,
    pub kers_input: u32,
    pub ride_height_front: u32,
    pub ride_height_rear: u32,
    pub ballast: u32,
    pub air_density: u32,
    pub performance_meter: u32,
    pub engine_brake: i32,
    pub ers_recovery_level: i32,
    pub ers_power_level: i32,
    pub ers_heat_charging: i32,
    pub ers_is_charging: i32,
    pub kers_current_kj: u32,
    pub drs_available: i32,
    pub drs_enabled: i32,
    pub p2p_activation: i32,
    pub p2p_status: i32,
    pub current_max_rpm: i32,
    pub mz: WheelsRecord,
    pub fz: WheelsRecord,
    pub my: WheelsRecord,
    pub kerb_vibration: u32,
    pub slip_vibration: u32,
    pub g_vibration: u32,
    pub abs_vibration: u32,
}

/// Session and timing snapshot recorded at the medium rate.
#[derive(Clone, Debug)]
pub struct GraphicsRecord {
    pub packet_id: i32,
    pub status: i32,
    pub session_type: i32,
    pub session_index: i32,
    pub current_time_str: Vec<u16>,
    pub last_time_str: Vec<u16>,
    pub best_time_str: Vec<u16>,
    pub last_sector_time_str: Vec<u16>,
    pub completed_lap: i32,
    pub position: i32,
    pub current_time: i32,
    pub last_time: i32,
    pub best_time: i32,
    pub last_sector_time: i32,
    pub number_of_laps: i32,
    pub delta_lap_time_str: Vec<u16>,
    pub estimated_lap_time_str: Vec<u16>,
    pub delta_lap_time: i32,
    pub estimated_lap_time: i32,
    pub is_delta_positive: bool,
    pub is_valid_lap: bool,
    pub fuel_estimated_laps: u32,
    pub distance_traveled: u32,
    pub normalized_car_position: u32,
    pub session_time_left: u32,
    pub current_sector_index: i32,
    pub is_in_pit: bool,
    pub is_in_pit_lane: bool,
    pub ideal_line_on: bool,
    pub mandatory_pit_done: bool,
    pub missing_mandatory_pits: i32,
    pub penalty_time: u32,
    pub penalty: i32,
    pub flag: i32,
    pub player_car_id: i32,
    pub active_cars: i32,
    pub car_coordinates_x: u32,
    pub car_coordinates_y: u32,
    pub car_coordinates_z: u32,
    pub wind_speed: u32,
    pub wind_direction: u32,
    pub rain_intensity: i32,
    pub rain_intensity_in_10min: i32,
    pub rain_intensity_in_30min: i32,
    pub track_grip_status: i32,
    pub track_status: Vec<u16>,
    pub clock: u32,
    pub tc_level: i32,
    pub tc_cut_level: i32,
    pub engine_map: i32,
    pub abs_level: i32,
    pub wiper_stage: i32,
    pub driver_stint_total_time_left: i32,
    pub driver_stint_time_left: i32,
    pub rain_tyres: bool,
    pub rain_light: bool,
    pub flashing_light: bool,
    pub light_stage: i32,
    pub direction_light_left: bool,
    pub direction_light_right: bool,
    pub tyre_compound: Vec<u16>,
    pub is_setup_menu_visible: bool,
    pub main_display_index: i32,
    pub secondary_display_index: i32,
    pub fuel_per_lap: u32,
    pub used_fuel: u32,
    pub exhaust_temp: u32,
    pub gap_ahead: i32,
    pub gap_behind: i32,
    pub global_yellow: bool,
    pub global_yellow_s1: bool,
    pub global_yellow_s2: bool,
    pub global_yellow_s3: bool,
    pub global_white: bool,
    pub global_green: bool,
    pub global_chequered: bool,
    pub global_red: bool,
    pub mfd_tyre_set: i32,
    pub mfd_fuel_to_add: u32,
    pub mfd_tyre_pressure_fl: u32,
    pub mfd_tyre_pressure_fr: u32,
    pub mfd_tyre_pressure_rl: u32,
    pub mfd_tyre_pressure_rr: u32,
    pub current_tyre_set: i32,
    pub strategy_tyre_set: i32,
}

/// Mathematical value of a [`GraphicsRecord`]: strings as cell sequences.
pub struct GraphicsRecordV {
    pub packet_id: i32,
    pub status: i32,
    pub session_type: i32,
    pub session_index: i32,
    pub current_time_str: Seq<u16>,
    pub last_time_str: Seq<u16>,
    pub best_time_str: Seq<u16>,
    pub last_sector_time_str: Seq<u16>,
    pub completed_lap: i32,
    pub position: i32,
    pub current_time: i32,
    pub last_time: i32,
    pub best_time: i32,
    pub last_sector_time: i32,
    pub number_of_laps: i32,
    pub delta_lap_time_str: Seq<u16>,
    pub estimated_lap_time_str: Seq<u16>,
    pub delta_lap_time: i32,
    pub estimated_lap_time: i32,
    pub is_delta_positive: bool,
    pub is_valid_lap: bool,
    pub fuel_estimated_laps: u32,
    pub distance_traveled: u32,
    pub normalized_car_position: u32,
    pub session_time_left: u32,
    pub current_sector_index: i32,
    pub is_in_pit: bool,
    pub is_in_pit_lane: bool,
    pub ideal_line_on: bool,
    pub mandatory_pit_done: bool,
    pub missing_mandatory_pits: i32,
    pub penalty_time: u32,
    pub penalty: i32,
    pub flag: i32,
    pub player_car_id: i32,
    pub active_cars: i32,
    pub car_coordinates_x: u32,
    pub car_coordinates_y: u32,
    pub car_coordinates_z: u32,
    pub wind_speed: u32,
    pub wind_direction: u32,
    pub rain_intensity: i32,
    pub rain_intensity_in_10min: i32,
    pub rain_intensity_in_30min: i32,
    pub track_grip_status: i32,
    pub track_status: Seq<u16>,
    pub clock: u32,
    pub tc_level: i32,
    pub tc_cut_level: i32,
    pub engine_map: i32,
    pub abs_level: i32,
    pub wiper_stage: i32,
    pub driver_stint_total_time_left: i32,
    pub driver_stint_time_left: i32,
    pub rain_tyres: bool,
    pub rain_light: bool,
    pub flashing_light: bool,
    pub light_stage: i32,
    pub direction_light_left: bool,
    pub direction_light_right: bool,
    pub tyre_compound: Seq<u16>,
    pub is_setup_menu_visible: bool,
    pub main_display_index: i32,
    pub secondary_display_index: i32,
    pub fuel_per_lap: u32,
    pub used_fuel: u32,
    pub exhaust_temp: u32,
    pub gap_ahead: i32,
    pub gap_behind: i32,
    pub global_yellow: bool,
    pub global_yellow_s1: bool,
    pub global_yellow_s2: bool,
    pub global_yellow_s3: bool,
    pub global_white: bool,
    pub global_green: bool,
    pub global_chequered: bool,
    pub global_red: bool,
    pub mfd_tyre_set: i32,
    pub mfd_fuel_to_add: u32,
    pub mfd_tyre_pressure_fl: u32,
    pub mfd_tyre_pressure_fr: u32,
    pub mfd_tyre_pressure_rl: u32,
    pub mfd_tyre_pressure_rr: u32,
    pub current_tyre_set: i32,
    pub strategy_tyre_set: i32,
}

impl View for GraphicsRecord {
    type V = GraphicsRecordV;

    open spec fn view(&self) -> GraphicsRecordV {
        GraphicsRecordV {
            packet_id: self.packet_id,
            status: self.status,
            session_type: self.session_type,
            session_index: self.session_index,
            current_time_str: self.current_time_str@,
            last_time_str: self.last_time_str@,
            best_time_str: self.best_time_str@,
            last_sector_time_str: self.last_sector_time_str@,
            completed_lap: self.completed_lap,
            position: self.position,
            current_time: self.current_time,
            last_time: self.last_time,
            best_time: self.best_time,
            last_sector_time: self.last_sector_time,
            number_of_laps: self.number_of_laps,
            delta_lap_time_str: self.delta_lap_time_str@,
            estimated_lap_time_str: self.estimated_lap_time_str@,
            delta_lap_time: self.delta_lap_time,
            estimated_lap_time: self.estimated_lap_time,
            is_delta_positive: self.is_delta_positive,
            is_valid_lap: self.is_valid_lap,
            fuel_estimated_laps: self.fuel_estimated_laps,
            distance_traveled: self.distance_traveled,
            normalized_car_position: self.normalized_car_position,
            session_time_left: self.session_time_left,
            current_sector_index: self.current_sector_index,
            is_in_pit: self.is_in_pit,
            is_in_pit_lane: self.is_in_pit_lane,
            ideal_line_on: self.ideal_line_on,
            mandatory_pit_done: self.mandatory_pit_done,
            missing_mandatory_pits: self.missing_mandatory_pits,
            penalty_time: self.penalty_time,
            penalty: self.penalty,
            flag: self.flag,
            player_car_id: self.player_car_id,
            active_cars: self.active_cars,
            car_coordinates_x: self.car_coordinates_x,
            car_coordinates_y: self.car_coordinates_y,
            car_coordinates_z: self.car_coordinates_z,
            wind_speed: self.wind_speed,
            wind_direction: self.wind_direction,
            rain_intensity: self.rain_intensity,
            rain_intensity_in_10min: self.rain_intensity_in_10min,
            rain_intensity_in_30min: self.rain_intensity_in_30min,
            track_grip_status: self.track_grip_status,
            track_status: self.track_status@,
            clock: self.clock,
            tc_level: self.tc_level,
            tc_cut_level: self.tc_cut_level,
            engine_map: self.engine_map,
            abs_level: self.abs_level,
            wiper_stage: self.wiper_stage,
            driver_stint_total_time_left: self.driver_stint_total_time_left,
            driver_stint_time_left: self.driver_stint_time_left,
            rain_tyres: self.rain_tyres,
            rain_light: self.rain_light,
            flashing_light: self.flashing_light,
            light_stage: self.light_stage,
            direction_light_left: self.direction_light_left,
            direction_light_right: self.direction_light_right,
            tyre_compound: self.tyre_compound@,
            is_setup_menu_visible: self.is_setup_menu_visible,
            main_display_index: self.main_display_index,
            secondary_display_index: self.secondary_display_index,
            fuel_per_lap: self.fuel_per_lap,
            used_fuel: self.used_fuel,
            exhaust_temp: self.exhaust_temp,
            gap_ahead: self.gap_ahead,
            gap_behind: self.gap_behind,
            global_yellow: self.global_yellow,
            global_yellow_s1: self.global_yellow_s1,
            global_yellow_s2: self.global_yellow_s2,
            global_yellow_s3: self.global_yellow_s3,
            global_white: self.global_white,
            global_green: self.global_green,
            global_chequered: self.global_chequered,
            global_red: self.global_red,
            mfd_tyre_set: self.mfd_tyre_set,
            mfd_fuel_to_add: self.mfd_fuel_to_add,
            mfd_tyre_pressure_fl: self.mfd_tyre_pressure_fl,
            mfd_tyre_pressure_fr: self.mfd_tyre_pressure_fr,
            mfd_tyre_pressure_rl: self.mfd_tyre_pressure_rl,
            mfd_tyre_pressure_rr: self.mfd_tyre_pressure_rr,
            current_tyre_set: self.current_tyre_set,
            strategy_tyre_set: self.strategy_tyre_set,
        }
    }
}

/// Static session and car configuration, captured once per recording.
#[derive(Clone, Debug)]
pub struct StaticsRecord {
    pub sm_version: Vec<u16>,
    pub ac_version: Vec<u16>,
    pub number_of_sessions: i32,
    pub num_cars: i32,
    pub track: Vec<u16>,
    pub sector_count: i32,
    pub player_name: Vec<u16>,
    pub player_surname: Vec<u16>,
    pub player_nick: Vec<u16>,
    pub car_model: Vec<u16>,
    pub max_rpm: i32,
    pub max_fuel: u32,
    pub penalty_enabled: bool,
    pub aid_fuel_rate: u32,
    pub aid_tyre_rate: u32,
    pub aid_mechanical_damage: u32,
    pub aid_stability: u32,
    pub aid_auto_clutch: bool,
    pub pit_window_start: i32,
    pub pit_window_end: i32,
    pub is_online: bool,
    pub dry_tyres_name: Vec<u16>,
    pub wet_tyres_name: Vec<u16>,
}

/// Mathematical value of a [`StaticsRecord`].
pub struct StaticsRecordV {
    pub sm_version: Seq<u16>,
    pub ac_version: Seq<u16>,
    pub number_of_sessions: i32,
    pub num_cars: i32,
    pub track: Seq<u16>,
    pub sector_count: i32,
    pub player_name: Seq<u16>,
    pub player_surname: Seq<u16>,
    pub player_nick: Seq<u16>,
    pub car_model: Seq<u16>,
    pub max_rpm: i32,
    pub max_fuel: u32,
    pub penalty_enabled: bool,
    pub aid_fuel_rate: u32,
    pub aid_tyre_rate: u32,
    pub aid_mechanical_damage: u32,
    pub aid_stability: u32,
    pub aid_auto_clutch: bool,
    pub pit_window_start: i32,
    pub pit_window_end: i32,
    pub is_online: bool,
    pub dry_tyres_name: Seq<u16>,
    pub wet_tyres_name: Seq<u16>,
}

impl View for StaticsRecord {
    type V = StaticsRecordV;

    open spec fn view(&self) -> StaticsRecordV {
        StaticsRecordV {
            sm_version: self.sm_version@,
            ac_version: self.ac_version@,
            number_of_sessions: self.number_of_sessions,
            num_cars: self.num_cars,
            track: self.track@,
            sector_count: self.sector_count,
            player_name: self.player_name@,
            player_surname: self.player_surname@,
            player_nick: self.player_nick@,
            car_model: self.car_model@,
            max_rpm: self.max_rpm,
            max_fuel: self.max_fuel,
            penalty_enabled: self.penalty_enabled,
            aid_fuel_rate: self.aid_fuel_rate,
            aid_tyre_rate: self.aid_tyre_rate,
            aid_mechanical_damage: self.aid_mechanical_damage,
            aid_stability: self.aid_stability,
            aid_auto_clutch: self.aid_auto_clutch,
            pit_window_start: self.pit_window_start,
            pit_window_end: self.pit_window_end,
            is_online: self.is_online,
            dry_tyres_name: self.dry_tyres_name@,
            wet_tyres_name: self.wet_tyres_name@,
        }
    }
}

/// A decoded wide string is zero-free and fits its declared capacity
/// minus the terminator cell.
pub open spec fn cells_wf(cells: Seq<u16>, cap: int) -> bool {
    cells.len() <= cap - 1 && forall|i: int| 0 <= i < cells.len() ==> #[trigger] cells[i] != 0
}

impl GraphicsRecordV {
    /// Every string field of the record is well formed for its capacity.
    pub open spec fn strings_wf(self) -> bool {
        &&& cells_wf(self.current_time_str, 15)
        &&& cells_wf(self.last_time_str, 15)
        &&& cells_wf(self.best_time_str, 15)
        &&& cells_wf(self.last_sector_time_str, 15)
        &&& cells_wf(self.delta_lap_time_str, 15)
        &&& cells_wf(self.estimated_lap_time_str, 15)
        &&& cells_wf(self.track_status, 33)
        &&& cells_wf(self.tyre_compound, 33)
    }
}

/// Copy a cell vector, preserving its contents.
fn clone_cells(v: &Vec<u16>) -> (r: Vec<u16>)
    ensures
        r@ == v@,
{
    vstd::slice::slice_to_vec(v.as_slice())
}

impl GraphicsRecord {
    /// A faithful copy of the record.
    #[verifier::rlimit(90)]
    pub fn duplicate(&self) -> (r: GraphicsRecord)
        ensures
            r@ == self@,
    {
        GraphicsRecord {
            packet_id: self.packet_id,
            status: self.status,
            session_type: self.session_type,
            session_index: self.session_index,
            current_time_str: clone_cells(&self.current_time_str),
            last_time_str: clone_cells(&self.last_time_str),
            best_time_str: clone_cells(&self.best_time_str),
            last_sector_time_str: clone_cells(&self.last_sector_time_str),
            completed_lap: self.completed_lap,
            position: self.position,
            current_time: self.current_time,
            last_time: self.last_time,
            best_time: self.best_time,
            last_sector_time: self.last_sector_time,
            number_of_laps: self.number_of_laps,
            delta_lap_time_str: clone_cells(&self.delta_lap_time_str),
            estimated_lap_time_str: clone_cells(&self.estimated_lap_time_str),
            delta_lap_time: self.delta_lap_time,
            estimated_lap_time: self.estimated_lap_time,
            is_delta_positive: self.is_delta_positive,
            is_valid_lap: self.is_valid_lap,
            fuel_estimated_laps: self.fuel_estimated_laps,
            distance_traveled: self.distance_traveled,
            normalized_car_position: self.normalized_car_position,
            session_time_left: self.session_time_left,
            current_sector_index: self.current_sector_index,
            is_in_pit: self.is_in_pit,
            is_in_pit_lane: self.is_in_pit_lane,
            ideal_line_on: self.ideal_line_on,
            mandatory_pit_done: self.mandatory_pit_done,
            missing_mandatory_pits: self.missing_mandatory_pits,
            penalty_time: self.penalty_time,
            penalty: self.penalty,
            flag: self.flag,
            player_car_id: self.player_car_id,
            active_cars: self.active_cars,
            car_coordinates_x: self.car_coordinates_x,
            car_coordinates_y: self.car_coordinates_y,
            car_coordinates_z: self.car_coordinates_z,
            wind_speed: self.wind_speed,
            wind_direction: self.wind_direction,
            rain_intensity: self.rain_intensity,
            rain_intensity_in_10min: self.rain_intensity_in_10min,
            rain_intensity_in_30min: self.rain_intensity_in_30min,
            track_grip_status: self.track_grip_status,
            track_status: clone_cells(&self.track_status),
            clock: self.clock,
            tc_level: self.tc_level,
            tc_cut_level: self.tc_cut_level,
            engine_map: self.engine_map,
            abs_level: self.abs_level,
            wiper_stage: self.wiper_stage,
            driver_stint_total_time_left: self.driver_stint_total_time_left,
            driver_stint_time_left: self.driver_stint_time_left,
            rain_tyres: self.rain_tyres,
            rain_light: self.rain_light,
            flashing_light: self.flashing_light,
            light_stage: self.light_stage,
            direction_light_left: self.direction_light_left,
            direction_light_right: self.direction_light_right,
            tyre_compound: clone_cells(&self.tyre_compound),
            is_setup_menu_visible: self.is_setup_menu_visible,
            main_display_index: self.main_display_index,
            secondary_display_index: self.secondary_display_index,
            fuel_per_lap: self.fuel_per_lap,
            used_fuel: self.used_fuel,
            exhaust_temp: self.exhaust_temp,
            gap_ahead: self.gap_ahead,
            gap_behind: self.gap_behind,
            global_yellow: self.global_yellow,
            global_yellow_s1: self.global_yellow_s1,
            global_yellow_s2: self.global_yellow_s2,
            global_yellow_s3: self.global_yellow_s3,
            global_white: self.global_white,
            global_green: self.global_green,
            global_chequered: self.global_chequered,
            global_red: self.global_red,
            mfd_tyre_set: self.mfd_tyre_set,
            mfd_fuel_to_add: self.mfd_fuel_to_add,
            mfd_tyre_pressure_fl: self.mfd_tyre_pressure_fl,
            mfd_tyre_pressure_fr: self.mfd_tyre_pressure_fr,
            mfd_tyre_pressure_rl: self.mfd_tyre_pressure_rl,
            mfd_tyre_pressure_rr: self.mfd_tyre_pressure_rr,
            current_tyre_set: self.current_tyre_set,
            strategy_tyre_set: self.strategy_tyre_set,
        }
    }
}

impl StaticsRecord {
    /// A faithful copy of the record.
    #[verifier::rlimit(90)]
    pub fn duplicate(&self) -> (r: StaticsRecord)
        ensures
            r@ == self@,
    {
        StaticsRecord {
            sm_version: clone_cells(&self.sm_version),
            ac_version: clone_cells(&self.ac_version),
            number_of_sessions: self.number_of_sessions,
            num_cars: self.num_cars,
            track: clone_cells(&self.track),
            sector_count: self.sector_count,
            player_name: clone_cells(&self.player_name),
            player_surname: clone_cells(&self.player_surname),
            player_nick: clone_cells(&self.player_nick),
            car_model: clone_cells(&self.car_model),
            max_rpm: self.max_rpm,
            max_fuel: self.max_fuel,
            penalty_enabled: self.penalty_enabled,
            aid_fuel_rate: self.aid_fuel_rate,
            aid_tyre_rate: self.aid_tyre_rate,
            aid_mechanical_damage: self.aid_mechanical_damage,
            aid_stability: self.aid_stability,
            aid_auto_clutch: self.aid_auto_clutch,
            pit_window_start: self.pit_window_start,
            pit_window_end: self.pit_window_end,
            is_online: self.is_online,
            dry_tyres_name: clone_cells(&self.dry_tyres_name),
            wet_tyres_name: clone_cells(&self.wet_tyres_name),
        }
    }
}

} // verus!
