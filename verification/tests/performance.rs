use pc_race::perf::{measure_car_status, update_car_status, CarStatus};
use pc_race::profile::{BaseCarStatus, CarKind};
use pc_race::telemetry::PcStatus;

fn quiet_sample() -> PcStatus {
    PcStatus {
        total_memory: 0,
        used_memory: 0,
        cpu_usage: 0,
        cpu_frequency: 3000,
        gpu_usage: 0,
        gpu_temp: 0,
        gpu_clock: 0,
        cpu_temp: 0,
        sensor_error: false,
        cpu_name: String::new(),
        gpu_name: String::new(),
        ssd_available: 0,
    }
}

#[test]
fn max_speed_from_cpu_clock_scenario() {
    // base 300 km/h, cpu impact 20, 3000 MHz, 0% load:
    // 300 * (1 + 20 * 0.000001 * 3000 * 1) = 318 km/h.
    let profile = BaseCarStatus::default();
    let sample = quiet_sample();
    let st = measure_car_status(&profile, &sample);
    assert_eq!(st.max_speed, 318_000);
}

#[test]
fn measured_status_on_quiet_machine() {
    let profile = BaseCarStatus::default();
    let sample = quiet_sample();
    let st = measure_car_status(&profile, &sample);
    assert_eq!(st.fuel_capacity, 60_000);
    assert_eq!(st.weight, 2_000_000);
    assert_eq!(st.fuel_consumption, 500);
    assert_eq!(st.grip, 2_000);
    assert_eq!(st.aerodynamics, 1_000);
    assert_eq!(st.handling, 4);
    assert_eq!(st.braking, 150_000);
    assert_eq!(st.acceleration, 2_500);
    assert_eq!(st.drs_acceleration, 3_500);
    assert_eq!(st.drs_max_speed, 319_000);
}

#[test]
fn grip_follows_free_ram() {
    let profile = BaseCarStatus::default();
    let mut sample = quiet_sample();
    sample.total_memory = 16_000_000_000;
    sample.used_memory = 0;
    // grip = 2 * (1 + 20 * 1e-9 * 16e9) = 2 * 321 = 642.
    let st = measure_car_status(&profile, &sample);
    assert_eq!(st.grip, 642_000);
}

#[test]
fn fuel_capacity_follows_used_ram_and_disk() {
    let profile = BaseCarStatus::default();
    let mut sample = quiet_sample();
    sample.total_memory = 8_000_000_000;
    sample.used_memory = 5_000_000_000;
    sample.ssd_available = 100_000_000_000;
    // 60 * (1 + 20 * 1e-9 * 5e9 + 20 * 1e-10 * 1e11) = 60 * 301 = 18060.
    let st = measure_car_status(&profile, &sample);
    assert_eq!(st.fuel_capacity, 18_060_000);
}

#[test]
fn fuel_consumption_follows_heat_and_gpu_clock() {
    let profile = BaseCarStatus::default();
    let mut sample = quiet_sample();
    sample.cpu_temp = 60;
    sample.gpu_temp = 40;
    sample.gpu_clock = 1500;
    // 0.5 * (1 + 20 * 0.001 * 100 * 20 * 0.00001 * 1500) = 0.5 * 1.6 = 0.8.
    let st = measure_car_status(&profile, &sample);
    assert_eq!(st.fuel_consumption, 800);
}

#[test]
fn weight_rises_with_fuel_ratio() {
    let profile = BaseCarStatus::default();
    let sample = quiet_sample();
    let measured = measure_car_status(&profile, &sample);
    let mut empty_tank = measured;
    update_car_status(&mut empty_tank, &profile, &sample, 0, 0, 1);
    let mut full_tank = measured;
    update_car_status(&mut full_tank, &profile, &sample, 60_000, 0, 1);
    assert_eq!(empty_tank.weight, 1_000_000);
    assert_eq!(full_tank.weight, 2_000_000);
    assert!(empty_tank.weight <= full_tank.weight);
    let mut half_tank = measured;
    update_car_status(&mut half_tank, &profile, &sample, 30_000, 0, 1);
    assert_eq!(half_tank.weight, 1_500_000);
    assert!(empty_tank.weight <= half_tank.weight && half_tank.weight <= full_tank.weight);
}

#[test]
fn negative_fuel_reads_as_empty_tank() {
    let profile = BaseCarStatus::default();
    let sample = quiet_sample();
    let measured = measure_car_status(&profile, &sample);
    let mut st = measured;
    update_car_status(&mut st, &profile, &sample, -5_000, 0, 1);
    assert_eq!(st.weight, 1_000_000);
}

#[test]
fn handling_and_braking_inverse_to_weight() {
    let profile = BaseCarStatus::default();
    let sample = quiet_sample();
    let measured = measure_car_status(&profile, &sample);
    let mut light = measured;
    update_car_status(&mut light, &profile, &sample, 0, 0, 1);
    let mut heavy = measured;
    update_car_status(&mut heavy, &profile, &sample, 60_000, 0, 1);
    assert_eq!(light.handling, 8);
    assert_eq!(heavy.handling, 4);
    assert_eq!(light.braking, 300_000);
    assert_eq!(heavy.braking, 150_000);
    assert_eq!(light.handling * light.weight, heavy.handling * heavy.weight);
    assert_eq!(light.braking as i128 * light.weight as i128, heavy.braking as i128 * heavy.weight as i128);
}

#[test]
fn performance_model_is_deterministic() {
    let profile = BaseCarStatus::default();
    let mut sample = quiet_sample();
    sample.total_memory = 16_000_000_000;
    sample.used_memory = 9_000_000_000;
    sample.cpu_temp = 55;
    sample.gpu_temp = 48;
    sample.gpu_clock = 1700;
    sample.gpu_usage = 40;
    let measured = measure_car_status(&profile, &sample);
    let mut a = measured;
    let mut b = measured;
    update_car_status(&mut a, &profile, &sample, 41_000, 123_456, 3);
    update_car_status(&mut b, &profile, &sample, 41_000, 123_456, 3);
    assert_eq!(a, b);
    let again = measure_car_status(&profile, &sample);
    assert_eq!(measured, again);
}

#[test]
fn suited_gear_doubles_acceleration() {
    let profile = BaseCarStatus::default();
    let sample = quiet_sample();
    let measured = measure_car_status(&profile, &sample);
    // At standstill the ideal gear is 1: first gear is suited, third is not.
    let mut suited = measured;
    update_car_status(&mut suited, &profile, &sample, 0, 0, 1);
    let mut unsuited = measured;
    update_car_status(&mut unsuited, &profile, &sample, 0, 0, 3);
    assert_eq!(suited.acceleration, 5_000);
    assert_eq!(unsuited.acceleration, 2_500);
}

#[test]
fn update_keeps_measured_fuel_capacity() {
    let profile = BaseCarStatus::default();
    let mut sample = quiet_sample();
    sample.total_memory = 8_000_000_000;
    sample.used_memory = 5_000_000_000;
    let measured = measure_car_status(&profile, &sample);
    let mut st = measured;
    let mut drained = quiet_sample();
    drained.total_memory = 8_000_000_000;
    drained.used_memory = 1_000_000_000;
    update_car_status(&mut st, &profile, &drained, 10_000, 0, 1);
    assert_eq!(st.fuel_capacity, measured.fuel_capacity);
}

#[test]
fn car_presets_set_impact_rates() {
    let mut p = BaseCarStatus::default();
    p.apply_preset(CarKind::Speed);
    assert_eq!(p.cpu_impact, 50);
    assert_eq!(p.gpu_impact, 10);
    assert_eq!(p.ram_impact, 10);
    assert_eq!(p.temp_impact, 15);
    assert_eq!(p.ssd_impact, 15);
    assert_eq!(p.base_max_speed, 300_000);
    p.apply_preset(CarKind::Accel);
    assert_eq!(p.cpu_impact, 10);
    assert_eq!(p.gpu_impact, 50);
    p.apply_preset(CarKind::Balance);
    assert_eq!(p.cpu_impact, 20);
    assert_eq!(p.ssd_impact, 20);
}

#[test]
fn derived_figures_saturate_at_the_cap() {
    let mut profile = BaseCarStatus::default();
    profile.base_handling = 1_000_000_000;
    profile.base_grip = 1_000_000_000;
    profile.ram_impact = 1_000;
    profile.base_weight = 1;
    let mut sample = quiet_sample();
    sample.total_memory = 1_125_899_906_842_624;
    sample.used_memory = 0;
    let st = measure_car_status(&profile, &sample);
    assert_eq!(st.grip, 1_000_000_000_000_000);
    assert_eq!(st.handling, 1_000_000_000_000_000);
}

#[test]
fn status_is_plain_data() {
    let st = CarStatus {
        max_speed: 1,
        fuel_capacity: 1,
        weight: 1,
        fuel_consumption: 0,
        acceleration: 0,
        braking: 0,
        grip: 0,
        handling: 0,
        aerodynamics: 0,
        drs_acceleration: 0,
        drs_max_speed: 0,
    };
    let copy = st;
    assert_eq!(st, copy);
}
