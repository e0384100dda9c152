use pc_race::game::tick;
use pc_race::perf::measure_car_status;
use pc_race::profile::BaseCarStatus;
use pc_race::session::{GameOverCause, GameSession};
use pc_race::telemetry::PcStatus;
use pc_race::vehicle::{DriverInput, VehicleBody};

fn quiet_sample() -> PcStatus {
    PcStatus {
        total_memory: 0,
        used_memory: 0,
        cpu_usage: 0,
        cpu_frequency: 3000,
        gpu_usage: 0,
        gpu_temp: 0,
        gpu_clock: 0,
        cpu_temp: 0,
        sensor_error: false,
        cpu_name: String::new(),
        gpu_name: String::new(),
        ssd_available: 0,
    }
}

fn coasting() -> DriverInput {
    DriverInput { throttle: false, brake: false, steer_left: false, steer_right: false }
}

#[test]
fn default_session_is_fresh() {
    let s = GameSession::default();
    assert_eq!(s.play_time, 0);
    assert_eq!(s.current_speed, 0);
    assert_eq!(s.current_fuel, 100_000);
    assert_eq!(s.current_gear, 1);
    assert_eq!(s.current_temp, 60);
    assert!(!s.drs_enabled);
    assert_eq!(s.distance_traveled, 0);
    assert_eq!(s.course_length, 5_000_000);
    assert!(!s.is_game_over);
    assert_eq!(s.game_over_cause, GameOverCause::NotOver);
}

#[test]
fn gear_up_saturates_at_top() {
    let mut s = GameSession::default();
    s.current_gear = 6;
    s.gear_up();
    assert_eq!(s.current_gear, 6);
    s.gear_up();
    s.gear_up();
    assert_eq!(s.current_gear, 6);
}

#[test]
fn gear_down_saturates_at_bottom() {
    let mut s = GameSession::default();
    assert_eq!(s.current_gear, 1);
    s.gear_down();
    assert_eq!(s.current_gear, 1);
    s.gear_down();
    s.gear_down();
    assert_eq!(s.current_gear, 1);
}

#[test]
fn gear_shifts_walk_the_range() {
    let mut s = GameSession::default();
    for expected in [2, 3, 4, 5, 6, 6] {
        s.gear_up();
        assert_eq!(s.current_gear, expected);
    }
    for expected in [5, 4, 3, 2, 1, 1] {
        s.gear_down();
        assert_eq!(s.current_gear, expected);
    }
}

#[test]
fn input_is_ignored_after_game_over() {
    let mut s = GameSession::default();
    s.is_game_over = true;
    s.game_over_cause = GameOverCause::Crash;
    let before = s;
    s.gear_up();
    assert_eq!(s, before);
    s.gear_down();
    assert_eq!(s, before);
    s.set_drs(true);
    assert_eq!(s, before);
}

#[test]
fn drs_toggle() {
    let mut s = GameSession::default();
    s.set_drs(true);
    assert!(s.drs_enabled);
    s.set_drs(false);
    assert!(!s.drs_enabled);
}

#[test]
fn rule_priority_goal_first() {
    let mut s = GameSession::default();
    s.distance_traveled = 5_000_000;
    s.current_fuel = 0;
    s.current_temp = 300;
    assert_eq!(s.check_rules(36_000), GameOverCause::GoalReached);
}

#[test]
fn rule_fuel_before_overheat() {
    let mut s = GameSession::default();
    s.current_fuel = 0;
    s.current_temp = 300;
    assert_eq!(s.check_rules(36_000), GameOverCause::FuelEmpty);
}

#[test]
fn rule_overheat_at_threshold() {
    let mut s = GameSession::default();
    s.current_temp = 255;
    assert_eq!(s.check_rules(0), GameOverCause::Overheat);
    s.current_temp = 254;
    assert_eq!(s.check_rules(0), GameOverCause::NotOver);
}

#[test]
fn rule_crash_beyond_hard_limit() {
    let s = GameSession::default();
    assert_eq!(s.check_rules(35_000), GameOverCause::NotOver);
    assert_eq!(s.check_rules(35_001), GameOverCause::Crash);
    assert_eq!(s.check_rules(-36_000), GameOverCause::Crash);
}

#[test]
fn run_rules_advances_clock_and_freezes() {
    let mut s = GameSession::default();
    s.run_rules(0, 16);
    assert_eq!(s.play_time, 16);
    assert!(!s.is_game_over);
    s.current_fuel = 0;
    s.run_rules(0, 16);
    assert_eq!(s.play_time, 32);
    assert!(s.is_game_over);
    assert_eq!(s.game_over_cause, GameOverCause::FuelEmpty);
    let frozen = s;
    s.run_rules(0, 16);
    assert_eq!(s, frozen);
}

#[test]
fn start_run_resets_for_measured_tank() {
    let mut s = GameSession::default();
    s.play_time = 99_000;
    s.current_speed = 5_000;
    s.current_gear = 4;
    s.distance_traveled = 1_000;
    s.is_game_over = true;
    s.game_over_cause = GameOverCause::Crash;
    s.start_run(18_060_000);
    assert_eq!(s.play_time, 0);
    assert_eq!(s.current_speed, 0);
    assert_eq!(s.current_fuel, 18_060_000);
    assert_eq!(s.current_gear, 1);
    assert_eq!(s.current_temp, 60);
    assert!(!s.drs_enabled);
    assert_eq!(s.distance_traveled, 0);
    assert_eq!(s.course_length, 5_000_000);
    assert!(!s.is_game_over);
    assert_eq!(s.game_over_cause, GameOverCause::NotOver);
}

#[test]
fn terminal_tick_is_a_no_op() {
    let profile = BaseCarStatus::default();
    let sample = quiet_sample();
    let mut status = measure_car_status(&profile, &sample);
    let mut session = GameSession::default();
    let mut body = VehicleBody::default();
    session.is_game_over = true;
    session.game_over_cause = GameOverCause::Overheat;
    session.current_speed = 7_200;
    body.velocity.z = -2_000;
    let s0 = session;
    let b0 = body;
    let st0 = status;
    let input = DriverInput { throttle: true, brake: false, steer_left: true, steer_right: false };
    for _ in 0..5 {
        tick(&mut session, &mut body, &mut status, &profile, &sample, &input, 16);
    }
    assert_eq!(session, s0);
    assert_eq!(body, b0);
    assert_eq!(status, st0);
}

#[test]
fn empty_tank_ends_the_tick_before_integration() {
    let profile = BaseCarStatus::default();
    let sample = quiet_sample();
    let mut status = measure_car_status(&profile, &sample);
    let mut session = GameSession::default();
    session.current_fuel = 0;
    let mut body = VehicleBody::default();
    body.velocity.z = -2_000;
    let b0 = body;
    let st0 = status;
    let input = DriverInput { throttle: true, brake: false, steer_left: false, steer_right: false };
    tick(&mut session, &mut body, &mut status, &profile, &sample, &input, 16);
    assert!(session.is_game_over);
    assert_eq!(session.game_over_cause, GameOverCause::FuelEmpty);
    assert_eq!(body, b0);
    assert_eq!(status, st0);
    assert_eq!(session.play_time, 16);
    assert_eq!(session.distance_traveled, 0);
}

#[test]
fn goal_tick_ends_the_run() {
    let profile = BaseCarStatus::default();
    let sample = quiet_sample();
    let mut status = measure_car_status(&profile, &sample);
    let mut session = GameSession::default();
    session.distance_traveled = 5_000_000;
    let mut body = VehicleBody::default();
    tick(&mut session, &mut body, &mut status, &profile, &sample, &coasting(), 16);
    assert!(session.is_game_over);
    assert_eq!(session.game_over_cause, GameOverCause::GoalReached);
}

#[test]
fn overheated_engine_ends_the_run() {
    let profile = BaseCarStatus::default();
    let sample = quiet_sample();
    let mut status = measure_car_status(&profile, &sample);
    let mut session = GameSession::default();
    session.current_temp = 255;
    let mut body = VehicleBody::default();
    tick(&mut session, &mut body, &mut status, &profile, &sample, &coasting(), 16);
    assert!(session.is_game_over);
    assert_eq!(session.game_over_cause, GameOverCause::Overheat);
    assert_eq!(body, VehicleBody::default());
}

#[test]
fn full_run_reaches_the_goal() {
    let profile = BaseCarStatus::default();
    let sample = quiet_sample();
    let mut status = measure_car_status(&profile, &sample);
    let mut session = GameSession::default();
    session.start_run(status.fuel_capacity);
    session.course_length = 10_000;
    let mut body = VehicleBody::default();
    let input = DriverInput { throttle: true, brake: false, steer_left: false, steer_right: false };
    let mut ticks = 0;
    while !session.is_game_over && ticks < 1_000 {
        tick(&mut session, &mut body, &mut status, &profile, &sample, &input, 16);
        ticks += 1;
    }
    assert!(session.is_game_over);
    assert_eq!(session.game_over_cause, GameOverCause::GoalReached);
    assert!(session.distance_traveled >= 10_000);
    assert_eq!(session.play_time, 16 * ticks);
    assert!(session.current_fuel < status.fuel_capacity);
}

#[test]
fn ticking_burns_fuel_under_throttle() {
    let profile = BaseCarStatus::default();
    let sample = quiet_sample();
    let mut status = measure_car_status(&profile, &sample);
    let mut session = GameSession::default();
    session.current_fuel = status.fuel_capacity;
    let mut body = VehicleBody::default();
    let input = DriverInput { throttle: true, brake: false, steer_left: false, steer_right: false };
    tick(&mut session, &mut body, &mut status, &profile, &sample, &input, 1000);
    // burn = 0.5 * 0.5 * 1 s = 0.25 units.
    assert_eq!(session.current_fuel, 59_750);
    assert!(session.distance_traveled > 0);
    assert!(!session.is_game_over);
}
