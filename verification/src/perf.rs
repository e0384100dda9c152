//! The performance model: hardware telemetry to car figures.
//!
//! Every figure is a base value from the profile scaled by a
//! multiplier around one; the multipliers are rationals whose
//! denominators fold the tuning factors of the model into the
//! fixed-point arithmetic.  The model is a pure function of its
//! inputs and is recomputed every simulation tick, except the tank
//! size, which is fixed when the car is measured before the run.

use crate::fixed::{lemma_mul_le, mul_u128, ACC_MAX, STAT_MAX};
use crate::profile::BaseCarStatus;
use crate::telemetry::PcStatus;
use vstd::arithmetic::div_mod::{
    lemma_div_by_multiple, lemma_div_is_ordered, lemma_div_is_ordered_by_denominator,
    lemma_div_pos_is_pos, lemma_fundamental_div_mod,
};
use vstd::arithmetic::mul::{lemma_mul_inequality, lemma_mul_is_commutative};
use vstd::prelude::*;

verus! {

/// Acceleration granted when the gear suits the speed, against 1
/// when it does not (plain factor).
pub const GEAR_SUITED_FACTOR: i64 = 2;

/// Dynamic attributes of the car, in milli-units, recomputed from the
/// telemetry every tick.
#[derive(Clone, Copy, Debug, PartialEq, Eq, Structural)]
pub struct CarStatus {
    pub max_speed: i64,
    pub fuel_capacity: i64,
    pub weight: i64,
    pub fuel_consumption: i64,
    pub acceleration: i64,
    pub braking: i64,
    pub grip: i64,
    pub handling: i64,
    pub aerodynamics: i64,
    pub drs_acceleration: i64,
    pub drs_max_speed: i64,
}

impl CarStatus {
    /// Ranges every computed status holds to; weight and tank size
    /// are strictly positive, as both are divided by.
    pub open spec fn wf(self) -> bool {
        &&& 0 <= self.max_speed <= STAT_MAX
        &&& 1 <= self.fuel_capacity <= STAT_MAX
        &&& 1 <= self.weight <= STAT_MAX
        &&& 0 <= self.fuel_consumption <= STAT_MAX
        &&& 0 <= self.acceleration <= STAT_MAX
        &&& 0 <= self.braking <= STAT_MAX
        &&& 0 <= self.grip <= STAT_MAX
        &&& 0 <= self.handling <= STAT_MAX
        &&& 0 <= self.aerodynamics <= STAT_MAX
        &&& 0 <= self.drs_acceleration <= STAT_MAX
        &&& 0 <= self.drs_max_speed <= STAT_MAX
    }
}

/// Saturate a derived figure at the model's ceiling.
pub open spec fn stat_cap(v: int) -> int {
    if v > STAT_MAX {
        STAT_MAX as int
    } else {
        v
    }
}

/// Top speed: the base scaled up by CPU clock and load.
pub open spec fn spec_max_speed(base: int, cpu_impact: int, cpu_clock: int, cpu_usage: int) -> int {
    stat_cap(base * (100_000_000 + cpu_impact * cpu_clock * (100 + cpu_usage)) / 100_000_000)
}

/// Tank size: the base scaled up by used RAM and free disk space.
pub open spec fn spec_fuel_capacity(
    base: int,
    ram_impact: int,
    ram_used: int,
    ssd_impact: int,
    ssd_avail: int,
) -> int {
    stat_cap(
        base * (10_000_000_000 + 10 * (ram_impact * ram_used) + ssd_impact * ssd_avail)
            / 10_000_000_000,
    )
}

/// Dynamic weight: the base scaled up by the fuel ratio in [0, 1000].
pub open spec fn spec_weight(base: int, fuel_ratio: int) -> int {
    base * (1000 + fuel_ratio) / 1000
}

/// Burn rate: the base scaled up by temperatures and GPU clock.
pub open spec fn spec_fuel_consumption(
    base: int,
    temp_impact: int,
    cpu_temp: int,
    gpu_temp: int,
    gpu_impact: int,
    gpu_clock: int,
) -> int {
    stat_cap(
        base * (100_000_000 + temp_impact * (cpu_temp + gpu_temp) * gpu_impact * gpu_clock)
            / 100_000_000,
    )
}

/// Grip: the base scaled up by free RAM.
pub open spec fn spec_grip(base: int, ram_impact: int, ram_avail: int) -> int {
    stat_cap(base * (1_000_000_000 + ram_impact * ram_avail) / 1_000_000_000)
}

/// Handling: base times grip over weight, with the handling scale
/// folded in.
pub open spec fn spec_handling(base: int, grip: int, weight: int) -> int {
    stat_cap(base * grip * 2 / weight)
}

/// Braking: base times grip over weight, with the braking scale
/// folded in.
pub open spec fn spec_braking(base: int, grip: int, weight: int) -> int {
    stat_cap(base * grip * 3000 / weight)
}

/// Aerodynamics: the base scaled up by GPU clock and load.
pub open spec fn spec_aerodynamics(base: int, gpu_impact: int, gpu_clock: int, gpu_usage: int) -> int {
    stat_cap(base * (10_000_000 + gpu_impact * gpu_clock * (100 + gpu_usage)) / 10_000_000)
}

/// Acceleration: the base scaled by the GPU multiplier and the gear
/// factor, over the weight, with the engine scale folded in.
pub open spec fn spec_acceleration(
    base: int,
    gpu_impact: int,
    gpu_clock: int,
    gpu_usage: int,
    gear_factor: int,
    weight: int,
) -> int {
    stat_cap(
        base * ((10_000_000 + gpu_impact * gpu_clock * (100 + gpu_usage)) * (gear_factor * 50_000))
            / (10_000_000 * weight),
    )
}

/// The gear best suited to the current speed: the speed ratio rounded
/// up to sixths, clamped to the gear range.
pub open spec fn spec_ideal_gear(current_speed: int, max_speed: int) -> int {
    if max_speed <= 0 {
        1
    } else {
        let c = (6 * current_speed + max_speed - 1) / max_speed;
        if c < 1 {
            1
        } else if c > 6 {
            6
        } else {
            c
        }
    }
}

/// Twice the engine power when the gear is within one of the ideal.
pub open spec fn spec_gear_factor(gear: int, ideal: int) -> int {
    if -1 <= gear - ideal <= 1 {
        GEAR_SUITED_FACTOR as int
    } else {
        1
    }
}

/// Remaining fuel as thousandths of the tank, clamped to [0, 1000].
pub open spec fn spec_fuel_ratio(fuel: int, capacity: int) -> int {
    if fuel <= 0 {
        0
    } else {
        let r = fuel * 1000 / capacity;
        if r > 1000 {
            1000
        } else {
            r
        }
    }
}

/// Saturating division of a non-negative numerator, as every figure
/// of the model computes it.
fn stat_cap_div(num: u128, den: u128) -> (r: i64)
    requires
        1 <= den,
    ensures
        r as int == stat_cap((num as int) / (den as int)),
        0 <= r <= STAT_MAX,
{
    proof {
        lemma_div_pos_is_pos(num as int, den as int);
    }
    let q: u128 = num / den;
    if q > STAT_MAX as u128 {
        STAT_MAX
    } else {
        q as i64
    }
}

fn calc_max_speed(p: &BaseCarStatus, s: &PcStatus) -> (r: i64)
    requires
        p.wf(),
        s.wf(),
    ensures
        r as int == spec_max_speed(
            p.base_max_speed as int,
            p.cpu_impact as int,
            s.cpu_frequency as int,
            s.cpu_usage as int,
        ),
        0 <= r <= STAT_MAX,
{
    proof {
        lemma_mul_le(p.cpu_impact as int, s.cpu_frequency as int, 1_000, 1_000_000);
    }
    let t1: u128 = mul_u128(p.cpu_impact as u128, s.cpu_frequency as u128);
    proof {
        lemma_mul_le(t1 as int, 100 + s.cpu_usage as int, 1_000_000_000, 200);
    }
    let t2: u128 = mul_u128(t1, 100 + s.cpu_usage as u128);
    let m: u128 = 100_000_000 + t2;
    proof {
        lemma_mul_le(p.base_max_speed as int, m as int, 1_000_000_000, 300_000_000_000);
    }
    let num: u128 = mul_u128(p.base_max_speed as u128, m);
    stat_cap_div(num, 100_000_000)
}

fn calc_fuel_capacity(p: &BaseCarStatus, s: &PcStatus) -> (r: i64)
    requires
        p.wf(),
        s.wf(),
    ensures
        r as int == spec_fuel_capacity(
            p.base_fuel_capacity as int,
            p.ram_impact as int,
            s.used_memory as int,
            p.ssd_impact as int,
            s.ssd_available as int,
        ),
        1 <= r <= STAT_MAX,
{
    proof {
        lemma_mul_le(p.ram_impact as int, s.used_memory as int, 1_000, 1_125_899_906_842_624);
    }
    let t1: u128 = mul_u128(p.ram_impact as u128, s.used_memory as u128);
    let t1b: u128 = 10 * t1;
    proof {
        lemma_mul_le(p.ssd_impact as int, s.ssd_available as int, 1_000, 9_007_199_254_740_992);
    }
    let t2: u128 = mul_u128(p.ssd_impact as u128, s.ssd_available as u128);
    let m: u128 = 10_000_000_000 + t1b + t2;
    proof {
        lemma_mul_le(p.base_fuel_capacity as int, m as int, 1_000_000_000, 30_000_000_000_000_000_000);
    }
    let num: u128 = mul_u128(p.base_fuel_capacity as u128, m);
    let r = stat_cap_div(num, 10_000_000_000);
    proof {
        lemma_mul_inequality(10_000_000_000int, m as int, p.base_fuel_capacity as int);
        lemma_mul_is_commutative(10_000_000_000int, p.base_fuel_capacity as int);
        lemma_mul_is_commutative(m as int, p.base_fuel_capacity as int);
        lemma_div_is_ordered(
            (p.base_fuel_capacity as int) * 10_000_000_000,
            num as int,
            10_000_000_000,
        );
        lemma_div_by_multiple(p.base_fuel_capacity as int, 10_000_000_000);
    }
    r
}

fn calc_weight(p: &BaseCarStatus, fuel_ratio: i64) -> (r: i64)
    requires
        p.wf(),
        0 <= fuel_ratio <= 1000,
    ensures
        r as int == spec_weight(p.base_weight as int, fuel_ratio as int),
        1 <= r <= 2_000_000_000,
{
    proof {
        lemma_mul_le(p.base_weight as int, 1000 + fuel_ratio as int, 1_000_000_000, 2_000);
    }
    let num: u128 = mul_u128(p.base_weight as u128, 1000 + fuel_ratio as u128);
    let q: u128 = num / 1000;
    proof {
        lemma_mul_inequality(1000int, 1000 + fuel_ratio as int, p.base_weight as int);
        lemma_mul_is_commutative(1000int, p.base_weight as int);
        lemma_mul_is_commutative(1000 + fuel_ratio as int, p.base_weight as int);
        lemma_div_is_ordered((p.base_weight as int) * 1000, num as int, 1000);
        lemma_div_by_multiple(p.base_weight as int, 1000);
        lemma_div_is_ordered(num as int, 2_000_000_000_000, 1000);
    }
    q as i64
}

fn calc_fuel_consumption(p: &BaseCarStatus, s: &PcStatus) -> (r: i64)
    requires
        p.wf(),
        s.wf(),
    ensures
        r as int == spec_fuel_consumption(
            p.base_fuel_consumption as int,
            p.temp_impact as int,
            s.cpu_temp as int,
            s.gpu_temp as int,
            p.gpu_impact as int,
            s.gpu_clock as int,
        ),
        0 <= r <= STAT_MAX,
{
    proof {
        lemma_mul_le(p.temp_impact as int, s.cpu_temp as int + s.gpu_temp as int, 1_000, 2_000);
    }
    let t1: u128 = mul_u128(p.temp_impact as u128, s.cpu_temp as u128 + s.gpu_temp as u128);
    proof {
        lemma_mul_le(t1 as int, p.gpu_impact as int, 2_000_000, 1_000);
    }
    let t2: u128 = mul_u128(t1, p.gpu_impact as u128);
    proof {
        lemma_mul_le(t2 as int, s.gpu_clock as int, 2_000_000_000, 1_000_000);
    }
    let t3: u128 = mul_u128(t2, s.gpu_clock as u128);
    let m: u128 = 100_000_000 + t3;
    proof {
        lemma_mul_le(p.base_fuel_consumption as int, m as int, 1_000_000_000, 3_000_000_000_000_000);
    }
    let num: u128 = mul_u128(p.base_fuel_consumption as u128, m);
    stat_cap_div(num, 100_000_000)
}

fn calc_grip(p: &BaseCarStatus, s: &PcStatus) -> (r: i64)
    requires
        p.wf(),
        s.wf(),
    ensures
        r as int == spec_grip(
            p.base_grip as int,
            p.ram_impact as int,
            s.total_memory as int - s.used_memory as int,
        ),
        0 <= r <= STAT_MAX,
{
    let avail: u64 = s.total_memory - s.used_memory;
    proof {
        lemma_mul_le(p.ram_impact as int, avail as int, 1_000, 1_125_899_906_842_624);
    }
    let t1: u128 = mul_u128(p.ram_impact as u128, avail as u128);
    let m: u128 = 1_000_000_000 + t1;
    proof {
        lemma_mul_le(p.base_grip as int, m as int, 1_000_000_000, 2_000_000_000_000_000_000);
    }
    let num: u128 = mul_u128(p.base_grip as u128, m);
    stat_cap_div(num, 1_000_000_000)
}

fn calc_grip_quotient(base: i64, grip: i64, scale: u64, weight: i64) -> (r: i64)
    requires
        1 <= base <= 1_000_000_000,
        0 <= grip <= STAT_MAX,
        1 <= scale <= 3000,
        1 <= weight,
    ensures
        r as int == stat_cap((base as int) * (grip as int) * (scale as int) / (weight as int)),
        0 <= r <= STAT_MAX,
{
    proof {
        lemma_mul_le(base as int, grip as int, 1_000_000_000, STAT_MAX as int);
    }
    let t1: u128 = mul_u128(base as u128, grip as u128);
    proof {
        lemma_mul_le(t1 as int, scale as int, 1_000_000_000_000_000_000_000_000, 3000);
    }
    let num: u128 = mul_u128(t1, scale as u128);
    stat_cap_div(num, weight as u128)
}

fn calc_aerodynamics(p: &BaseCarStatus, s: &PcStatus) -> (r: i64)
    requires
        p.wf(),
        s.wf(),
    ensures
        r as int == spec_aerodynamics(
            p.base_aerodynamics as int,
            p.gpu_impact as int,
            s.gpu_clock as int,
            s.gpu_usage as int,
        ),
        0 <= r <= STAT_MAX,
{
    proof {
        lemma_mul_le(p.gpu_impact as int, s.gpu_clock as int, 1_000, 1_000_000);
    }
    let t1: u128 = mul_u128(p.gpu_impact as u128, s.gpu_clock as u128);
    proof {
        lemma_mul_le(t1 as int, 100 + s.gpu_usage as int, 1_000_000_000, 300);
    }
    let t2: u128 = mul_u128(t1, 100 + s.gpu_usage as u128);
    let m: u128 = 10_000_000 + t2;
    proof {
        lemma_mul_le(p.base_aerodynamics as int, m as int, 1_000_000_000, 310_000_000_000);
    }
    let num: u128 = mul_u128(p.base_aerodynamics as u128, m);
    stat_cap_div(num, 10_000_000)
}

fn calc_acceleration(p: &BaseCarStatus, s: &PcStatus, gear_factor: i64, weight: i64) -> (r: i64)
    requires
        p.wf(),
        s.wf(),
        1 <= gear_factor <= 2,
        1 <= weight <= 2_000_000_000,
    ensures
        r as int == spec_acceleration(
            p.base_acceleration as int,
            p.gpu_impact as int,
            s.gpu_clock as int,
            s.gpu_usage as int,
            gear_factor as int,
            weight as int,
        ),
        0 <= r <= STAT_MAX,
{
    proof {
        lemma_mul_le(p.gpu_impact as int, s.gpu_clock as int, 1_000, 1_000_000);
    }
    let t1: u128 = mul_u128(p.gpu_impact as u128, s.gpu_clock as u128);
    proof {
        lemma_mul_le(t1 as int, 100 + s.gpu_usage as int, 1_000_000_000, 300);
    }
    let t2: u128 = mul_u128(t1, 100 + s.gpu_usage as u128);
    let m: u128 = 10_000_000 + t2;
    let k: u128 = (gear_factor as u128) * 50_000;
    proof {
        lemma_mul_le(m as int, k as int, 310_000_000_000, 100_000);
    }
    let t3: u128 = mul_u128(m, k);
    proof {
        lemma_mul_le(p.base_acceleration as int, t3 as int, 1_000_000_000, 31_000_000_000_000_000);
    }
    let num: u128 = mul_u128(p.base_acceleration as u128, t3);
    let den: u128 = 10_000_000 * (weight as u128);
    stat_cap_div(num, den)
}

fn calc_ideal_gear(current_speed: i64, max_speed: i64) -> (g: i64)
    requires
        0 <= current_speed <= ACC_MAX,
        0 <= max_speed <= STAT_MAX,
    ensures
        g == spec_ideal_gear(current_speed as int, max_speed as int),
        1 <= g <= 6,
{
    if max_speed <= 0 {
        return 1;
    }
    let num: u128 = 6 * (current_speed as u128) + (max_speed as u128) - 1;
    let c: u128 = num / (max_speed as u128);
    if c < 1 {
        1
    } else if c > 6 {
        6
    } else {
        c as i64
    }
}

fn calc_fuel_ratio(fuel: i64, capacity: i64) -> (r: i64)
    requires
        -ACC_MAX <= fuel <= ACC_MAX,
        1 <= capacity,
    ensures
        r == spec_fuel_ratio(fuel as int, capacity as int),
        0 <= r <= 1000,
{
    if fuel <= 0 {
        return 0;
    }
    let q: u128 = ((fuel as u128) * 1000) / (capacity as u128);
    if q > 1000 {
        1000
    } else {
        q as i64
    }
}

/// The full status measured before a run: full tank assumed for the
/// weight, the gear assumed suited, and the tank size fixed here for
/// the whole run.
pub open spec fn spec_measured_status(p: BaseCarStatus, s: PcStatus) -> CarStatus {
    let weight = spec_weight(p.base_weight as int, 1000);
    let grip = spec_grip(
        p.base_grip as int,
        p.ram_impact as int,
        s.total_memory as int - s.used_memory as int,
    );
    let max_speed = spec_max_speed(
        p.base_max_speed as int,
        p.cpu_impact as int,
        s.cpu_frequency as int,
        s.cpu_usage as int,
    );
    let aero = spec_aerodynamics(
        p.base_aerodynamics as int,
        p.gpu_impact as int,
        s.gpu_clock as int,
        s.gpu_usage as int,
    );
    let accel = spec_acceleration(
        p.base_acceleration as int,
        p.gpu_impact as int,
        s.gpu_clock as int,
        s.gpu_usage as int,
        GEAR_SUITED_FACTOR as int,
        weight,
    );
    CarStatus {
        max_speed: max_speed as i64,
        fuel_capacity: spec_fuel_capacity(
            p.base_fuel_capacity as int,
            p.ram_impact as int,
            s.used_memory as int,
            p.ssd_impact as int,
            s.ssd_available as int,
        ) as i64,
        weight: weight as i64,
        fuel_consumption: spec_fuel_consumption(
            p.base_fuel_consumption as int,
            p.temp_impact as int,
            s.cpu_temp as int,
            s.gpu_temp as int,
            p.gpu_impact as int,
            s.gpu_clock as int,
        ) as i64,
        acceleration: accel as i64,
        braking: spec_braking(p.base_braking as int, grip, weight) as i64,
        grip: grip as i64,
        handling: spec_handling(p.base_handling as int, grip, weight) as i64,
        aerodynamics: aero as i64,
        drs_acceleration: stat_cap(accel + aero) as i64,
        drs_max_speed: stat_cap(max_speed + aero) as i64,
    }
}

/// The status after one per-tick recomputation: the tank size is
/// kept, the weight follows the remaining fuel, and the gear factor
/// follows the current speed and gear.
pub open spec fn spec_updated_status(
    prev: CarStatus,
    p: BaseCarStatus,
    s: PcStatus,
    current_fuel: int,
    current_speed: int,
    current_gear: int,
) -> CarStatus {
    let fuel_ratio = spec_fuel_ratio(current_fuel, prev.fuel_capacity as int);
    let weight = spec_weight(p.base_weight as int, fuel_ratio);
    let grip = spec_grip(
        p.base_grip as int,
        p.ram_impact as int,
        s.total_memory as int - s.used_memory as int,
    );
    let max_speed = spec_max_speed(
        p.base_max_speed as int,
        p.cpu_impact as int,
        s.cpu_frequency as int,
        s.cpu_usage as int,
    );
    let ideal = spec_ideal_gear(current_speed, max_speed);
    let gear_factor = spec_gear_factor(current_gear, ideal);
    let aero = spec_aerodynamics(
        p.base_aerodynamics as int,
        p.gpu_impact as int,
        s.gpu_clock as int,
        s.gpu_usage as int,
    );
    let accel = spec_acceleration(
        p.base_acceleration as int,
        p.gpu_impact as int,
        s.gpu_clock as int,
        s.gpu_usage as int,
        gear_factor,
        weight,
    );
    CarStatus {
        max_speed: max_speed as i64,
        fuel_capacity: prev.fuel_capacity,
        weight: weight as i64,
        fuel_consumption: spec_fuel_consumption(
            p.base_fuel_consumption as int,
            p.temp_impact as int,
            s.cpu_temp as int,
            s.gpu_temp as int,
            p.gpu_impact as int,
            s.gpu_clock as int,
        ) as i64,
        acceleration: accel as i64,
        braking: spec_braking(p.base_braking as int, grip, weight) as i64,
        grip: grip as i64,
        handling: spec_handling(p.base_handling as int, grip, weight) as i64,
        aerodynamics: aero as i64,
        drs_acceleration: stat_cap(accel + aero) as i64,
        drs_max_speed: stat_cap(max_speed + aero) as i64,
    }
}

/// One-time measurement of the car against the machine, before the
/// run starts.
pub fn measure_car_status(p: &BaseCarStatus, s: &PcStatus) -> (st: CarStatus)
    requires
        p.wf(),
        s.wf(),
    ensures
        st == spec_measured_status(*p, *s),
        st.wf(),
{
    let weight = calc_weight(p, 1000);
    let grip = calc_grip(p, s);
    let max_speed = calc_max_speed(p, s);
    let aero = calc_aerodynamics(p, s);
    let accel = calc_acceleration(p, s, GEAR_SUITED_FACTOR, weight);
    let drs_acceleration = if accel + aero > STAT_MAX {
        STAT_MAX
    } else {
        accel + aero
    };
    let drs_max_speed = if max_speed + aero > STAT_MAX {
        STAT_MAX
    } else {
        max_speed + aero
    };
    CarStatus {
        max_speed,
        fuel_capacity: calc_fuel_capacity(p, s),
        weight,
        fuel_consumption: calc_fuel_consumption(p, s),
        acceleration: accel,
        braking: calc_grip_quotient(p.base_braking, grip, 3000, weight),
        grip,
        handling: calc_grip_quotient(p.base_handling, grip, 2, weight),
        aerodynamics: aero,
        drs_acceleration,
        drs_max_speed,
    }
}

/// Per-tick recomputation of the car's figures from the latest
/// telemetry and session values; the tank size is kept.
pub fn update_car_status(
    st: &mut CarStatus,
    p: &BaseCarStatus,
    s: &PcStatus,
    current_fuel: i64,
    current_speed: i64,
    current_gear: i32,
)
    requires
        old(st).wf(),
        p.wf(),
        s.wf(),
        -ACC_MAX <= current_fuel <= ACC_MAX,
        0 <= current_speed <= ACC_MAX,
        1 <= current_gear <= 6,
    ensures
        *final(st) == spec_updated_status(
            *old(st),
            *p,
            *s,
            current_fuel as int,
            current_speed as int,
            current_gear as int,
        ),
        final(st).wf(),
{
    let fuel_ratio = calc_fuel_ratio(current_fuel, st.fuel_capacity);
    let weight = calc_weight(p, fuel_ratio);
    let grip = calc_grip(p, s);
    let max_speed = calc_max_speed(p, s);
    let ideal = calc_ideal_gear(current_speed, max_speed);
    let gear_factor: i64 = if current_gear as i64 - ideal <= 1 && current_gear as i64 - ideal >= -1 {
        GEAR_SUITED_FACTOR
    } else {
        1
    };
    let aero = calc_aerodynamics(p, s);
    let accel = calc_acceleration(p, s, gear_factor, weight);
    st.max_speed = max_speed;
    st.weight = weight;
    st.fuel_consumption = calc_fuel_consumption(p, s);
    st.acceleration = accel;
    st.braking = calc_grip_quotient(p.base_braking, grip, 3000, weight);
    st.grip = grip;
    st.handling = calc_grip_quotient(p.base_handling, grip, 2, weight);
    st.aerodynamics = aero;
    st.drs_acceleration = if accel + aero > STAT_MAX {
        STAT_MAX
    } else {
        accel + aero
    };
    st.drs_max_speed = if max_speed + aero > STAT_MAX {
        STAT_MAX
    } else {
        max_speed + aero
    };
}

/// Dynamic weight never falls as the fuel ratio rises: for any valid
/// profile base, the weight at a lower ratio is at most the weight at
/// a higher one.
pub proof fn lemma_weight_monotone_in_fuel_ratio(base: int, fr1: int, fr2: int)
    requires
        1 <= base,
        0 <= fr1 <= fr2 <= 1000,
    ensures
        spec_weight(base, fr1) <= spec_weight(base, fr2),
{
    vstd::arithmetic::mul::lemma_mul_left_inequality(base, 1000 + fr1, 1000 + fr2);
    lemma_div_is_ordered(base * (1000 + fr1), base * (1000 + fr2), 1000);
}

/// For a fixed grip, handling and braking never rise with weight.
pub proof fn lemma_handling_braking_antitone_in_weight(
    base_handling: int,
    base_braking: int,
    grip: int,
    w1: int,
    w2: int,
)
    requires
        0 <= base_handling,
        0 <= base_braking,
        0 <= grip,
        1 <= w1 <= w2,
    ensures
        spec_handling(base_handling, grip, w1) >= spec_handling(base_handling, grip, w2),
        spec_braking(base_braking, grip, w1) >= spec_braking(base_braking, grip, w2),
{
    lemma_mul_le(base_handling, grip, base_handling, grip);
    lemma_mul_le(base_handling * grip, 2, base_handling * grip, 2);
    lemma_mul_le(base_braking, grip, base_braking, grip);
    lemma_mul_le(base_braking * grip, 3000, base_braking * grip, 3000);
    lemma_div_is_ordered_by_denominator(base_handling * grip * 2, w1, w2);
    lemma_div_is_ordered_by_denominator(base_braking * grip * 3000, w1, w2);
}

/// For a fixed grip, handling and braking are inversely proportional
/// to weight: wherever the fixed-point divisions are exact and the
/// quotients below the cap, the product of the figure with its weight
/// is the same constant at both weights.
pub proof fn lemma_handling_braking_inverse_proportional(
    base_handling: int,
    base_braking: int,
    grip: int,
    w1: int,
    w2: int,
)
    requires
        0 <= base_handling,
        0 <= base_braking,
        0 <= grip,
        1 <= w1,
        1 <= w2,
        base_handling * grip * 2 % w1 == 0,
        base_handling * grip * 2 % w2 == 0,
        base_braking * grip * 3000 % w1 == 0,
        base_braking * grip * 3000 % w2 == 0,
        base_handling * grip * 2 / w1 <= STAT_MAX,
        base_handling * grip * 2 / w2 <= STAT_MAX,
        base_braking * grip * 3000 / w1 <= STAT_MAX,
        base_braking * grip * 3000 / w2 <= STAT_MAX,
    ensures
        spec_handling(base_handling, grip, w1) * w1 == base_handling * grip * 2,
        spec_handling(base_handling, grip, w1) * w1 == spec_handling(base_handling, grip, w2) * w2,
        spec_braking(base_braking, grip, w1) * w1 == base_braking * grip * 3000,
        spec_braking(base_braking, grip, w1) * w1 == spec_braking(base_braking, grip, w2) * w2,
{
    lemma_exact_quotient_product(base_handling * grip * 2, w1);
    lemma_exact_quotient_product(base_handling * grip * 2, w2);
    lemma_exact_quotient_product(base_braking * grip * 3000, w1);
    lemma_exact_quotient_product(base_braking * grip * 3000, w2);
}

/// Handling and braking are the inverse of the weight up to
/// fixed-point rounding: below the cap, each figure is exactly the
/// floor of its constant numerator over the weight, pinned here from
/// both sides.
pub proof fn lemma_handling_braking_quotient_bounds(
    base_handling: int,
    base_braking: int,
    grip: int,
    w: int,
)
    requires
        0 <= base_handling,
        0 <= base_braking,
        0 <= grip,
        1 <= w,
        base_handling * grip * 2 / w <= STAT_MAX,
        base_braking * grip * 3000 / w <= STAT_MAX,
    ensures
        spec_handling(base_handling, grip, w) * w <= base_handling * grip * 2,
        base_handling * grip * 2 < (spec_handling(base_handling, grip, w) + 1) * w,
        spec_braking(base_braking, grip, w) * w <= base_braking * grip * 3000,
        base_braking * grip * 3000 < (spec_braking(base_braking, grip, w) + 1) * w,
{
    lemma_quotient_bounds(base_handling * grip * 2, w);
    lemma_quotient_bounds(base_braking * grip * 3000, w);
}

/// The floor quotient pinned from both sides by its divisor.
proof fn lemma_quotient_bounds(k: int, w: int)
    requires
        1 <= w,
    ensures
        (k / w) * w <= k < (k / w + 1) * w,
{
    lemma_fundamental_div_mod(k, w);
    vstd::arithmetic::div_mod::lemma_mod_bound(k, w);
    assert(w * (k / w) == (k / w) * w && (k / w + 1) * w == (k / w) * w + w) by (nonlinear_arith);
}

/// An exact quotient multiplied back by the divisor gives the
/// dividend.
proof fn lemma_exact_quotient_product(k: int, w: int)
    requires
        1 <= w,
        k % w == 0,
    ensures
        (k / w) * w == k,
{
    lemma_fundamental_div_mod(k, w);
    lemma_mul_is_commutative(w, k / w);
}

/// The performance model is deterministic: any two statuses computed
/// from the same snapshot, profile and session values are equal, so
/// applying the model twice with identical inputs changes nothing.
pub proof fn lemma_performance_model_deterministic(
    st1: CarStatus,
    st2: CarStatus,
    prev: CarStatus,
    p: BaseCarStatus,
    s: PcStatus,
    current_fuel: int,
    current_speed: int,
    current_gear: int,
)
    requires
        st1 == spec_updated_status(prev, p, s, current_fuel, current_speed, current_gear),
        st2 == spec_updated_status(prev, p, s, current_fuel, current_speed, current_gear),
    ensures
        st1 == st2,
{
}

} // verus!
