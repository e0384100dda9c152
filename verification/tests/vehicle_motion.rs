use pc_race::fixed::{cos_mrad, isqrt_u128, rem_euclid_i64, sin_mrad};
use pc_race::perf::CarStatus;
use pc_race::session::{GameOverCause, GameSession};
use pc_race::vehicle::{integrate_step, vel_magnitude, DriverInput, Velocity, VehicleBody};

fn coasting() -> DriverInput {
    DriverInput { throttle: false, brake: false, steer_left: false, steer_right: false }
}

fn bare_status() -> CarStatus {
    CarStatus {
        max_speed: 1_000_000_000,
        fuel_capacity: 60_000,
        weight: 1_000_000,
        fuel_consumption: 500,
        acceleration: 2_500,
        braking: 50_000,
        grip: 2_000,
        handling: 0,
        aerodynamics: 0,
        drs_acceleration: 2_500,
        drs_max_speed: 1_000_001_000,
    }
}

#[test]
fn integer_square_root_rounds_down() {
    assert_eq!(isqrt_u128(0), 0);
    assert_eq!(isqrt_u128(1), 1);
    assert_eq!(isqrt_u128(24), 4);
    assert_eq!(isqrt_u128(25), 5);
    assert_eq!(isqrt_u128(26), 5);
    assert_eq!(isqrt_u128(1_000_000_000_000_000_000_000_000_000_000), 1_000_000_000_000_000);
}

#[test]
fn velocity_magnitude_is_euclidean() {
    let v = Velocity { x: 300, y: 400, z: 0 };
    assert_eq!(vel_magnitude(&v), 500);
    let w = Velocity { x: -3, y: 4, z: 12 };
    assert_eq!(vel_magnitude(&w), 13);
    let zero = Velocity { x: 0, y: 0, z: 0 };
    assert_eq!(vel_magnitude(&zero), 0);
}

#[test]
fn sine_kernel_hits_the_landmarks() {
    assert_eq!(sin_mrad(0), 0);
    assert_eq!(sin_mrad(1571), 1000);
    assert_eq!(sin_mrad(3142), 0);
    assert_eq!(sin_mrad(4713), -1000);
    assert_eq!(cos_mrad(0), 1000);
    assert_eq!(cos_mrad(3142), -1000);
    assert!(sin_mrad(785) > 670 && sin_mrad(785) < 740);
}

#[test]
fn euclidean_remainder_wraps_negatives() {
    assert_eq!(rem_euclid_i64(5, 6284), 5);
    assert_eq!(rem_euclid_i64(6284, 6284), 0);
    assert_eq!(rem_euclid_i64(-1, 6284), 6283);
    assert_eq!(rem_euclid_i64(-6285, 6284), 6283);
}

#[test]
fn crash_fires_the_tick_the_offset_appears() {
    // Drifting right at 1 m/s from 35.5 m: one second later the car
    // stands beyond the 35 m hard limit and the run ends in a crash.
    let st = bare_status();
    let mut session = GameSession::default();
    let mut body = VehicleBody::default();
    body.pos_x = 35_500;
    body.velocity = Velocity { x: 1_000, y: 0, z: 0 };
    integrate_step(&mut body, &mut session, &st, &coasting(), 1000);
    assert_eq!(body.pos_x, 36_498);
    assert!(session.is_game_over);
    assert_eq!(session.game_over_cause, GameOverCause::Crash);
    assert_eq!(session.current_speed, 3_600);
    assert_eq!(session.play_time, 2_000);
}

#[test]
fn soft_limit_costs_time_without_crashing() {
    let st = bare_status();
    let mut session = GameSession::default();
    let mut body = VehicleBody::default();
    body.pos_x = 21_000;
    integrate_step(&mut body, &mut session, &st, &coasting(), 1000);
    assert_eq!(session.play_time, 2_000);
    assert!(!session.is_game_over);
    session.play_time = 0;
    body.pos_x = 0;
    integrate_step(&mut body, &mut session, &st, &coasting(), 1000);
    assert_eq!(session.play_time, 0);
}

#[test]
fn gravity_pulls_until_the_ground_snaps() {
    let st = bare_status();
    let mut session = GameSession::default();
    let mut body = VehicleBody::default();
    // One coasting second from 1 m up: gravity pulls the body down,
    // and the re-alignment folds the fall speed into the forward axis.
    integrate_step(&mut body, &mut session, &st, &coasting(), 1000);
    assert_eq!(body.pos_y, 706);
    assert_eq!(body.velocity.y, 0);
    assert_eq!(body.velocity.z, -294);
    // The next second would fall below the ground plus clearance: the
    // body snaps onto it.
    integrate_step(&mut body, &mut session, &st, &coasting(), 1000);
    assert_eq!(body.pos_y, 500);
    assert_eq!(body.velocity.y, 0);
}

#[test]
fn throttle_drives_forward_and_burns_fuel() {
    let st = bare_status();
    let mut session = GameSession::default();
    let mut body = VehicleBody::default();
    let input = DriverInput { throttle: true, brake: false, steer_left: false, steer_right: false };
    integrate_step(&mut body, &mut session, &st, &input, 1000);
    // engine = 2500 * 500 along -z; dv = engine * dt / weight; the
    // re-alignment then folds the fall speed into the forward axis.
    assert_eq!(body.pos_z, -1_250);
    assert_eq!(body.velocity.z, -1_284);
    assert_eq!(session.distance_traveled, 1_284);
    assert_eq!(session.current_fuel, 99_750);
}

#[test]
fn braking_stops_a_crawl() {
    let st = bare_status();
    let mut session = GameSession::default();
    let mut body = VehicleBody::default();
    body.velocity = Velocity { x: 0, y: 0, z: -90 };
    let input = DriverInput { throttle: false, brake: true, steer_left: false, steer_right: false };
    integrate_step(&mut body, &mut session, &st, &input, 1000);
    // The crawl is wiped before the forces act; only this tick's
    // gravity is left, folded forward by the re-alignment.
    assert_eq!(body.velocity.x, 0);
    assert_eq!(body.velocity.y, 0);
    assert_eq!(body.velocity.z, -294);
    assert_eq!(session.current_fuel, 100_000);
}

#[test]
fn speed_is_capped_by_the_gear() {
    let mut st = bare_status();
    st.max_speed = 318_000;
    st.drs_max_speed = 319_000;
    let mut session = GameSession::default();
    session.current_gear = 1;
    let mut body = VehicleBody::default();
    // Far above the first gear's cap of 318/6 km/h = 14722 mm/s.
    body.velocity = Velocity { x: 0, y: 0, z: -800_000 };
    integrate_step(&mut body, &mut session, &st, &coasting(), 10);
    let mag = vel_magnitude(&body.velocity);
    assert!(mag <= 14_722);
    assert!(mag >= 14_000);
}

#[test]
fn drs_boosts_the_drive_force() {
    let st = bare_status();
    let mut plain = GameSession::default();
    let mut body_plain = VehicleBody::default();
    let throttle = DriverInput { throttle: true, brake: false, steer_left: false, steer_right: false };
    integrate_step(&mut body_plain, &mut plain, &st, &throttle, 1000);
    let mut st_drs = bare_status();
    st_drs.drs_acceleration = 3_500;
    st_drs.aerodynamics = 1_000;
    let mut open = GameSession::default();
    open.drs_enabled = true;
    open.current_gear = 6;
    let mut body_open = VehicleBody::default();
    integrate_step(&mut body_open, &mut open, &st_drs, &throttle, 1000);
    assert_eq!(body_plain.pos_z, -1_250);
    assert_eq!(body_open.pos_z, -1_750);
    assert_eq!(open.distance_traveled, 1_774);
    assert!(open.distance_traveled > plain.distance_traveled);
}

#[test]
fn drag_slows_a_coasting_car() {
    let mut st = bare_status();
    st.aerodynamics = 1_000_000;
    let mut session = GameSession::default();
    let mut body = VehicleBody::default();
    body.velocity = Velocity { x: 0, y: 0, z: -10_000 };
    integrate_step(&mut body, &mut session, &st, &coasting(), 1000);
    assert_eq!(body.pos_z, -5_980);
    assert_eq!(body.velocity.z, -5_987);
}

#[test]
fn steering_yaws_and_realigns_the_velocity() {
    let mut st = bare_status();
    st.handling = 1_309;
    let mut session = GameSession::default();
    let mut body = VehicleBody::default();
    body.velocity = Velocity { x: 0, y: 0, z: -1_000 };
    // rot = handling * 6 * dt / 5000 = 1570 mrad: a quarter turn left.
    let input = DriverInput { throttle: false, brake: false, steer_left: true, steer_right: false };
    integrate_step(&mut body, &mut session, &st, &input, 1000);
    assert_eq!(body.yaw, 1570);
    // The velocity follows the new forward direction, magnitude kept
    // up to rounding: forward is now -x.
    assert!(body.velocity.x < -900);
    assert_eq!(body.velocity.y, 0);
    assert!(body.velocity.z.abs() < 20);
}
