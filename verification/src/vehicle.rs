//! The vehicle integrator: one explicit-Euler step per tick.
//!
//! Forces (gravity, engine or brake, drag, ground friction) are summed
//! in fixed point, integrated into the velocity, capped at the
//! gear- and DRS-limited top speed, and applied to the position.
//! Steering yaws the body and re-aligns the velocity with the new
//! forward direction; the terrain height snaps the body above the
//! ground; course boundaries accrue a time penalty or end the run.

use crate::fixed::{
    clamp_i128, clamp_spec, div_tz, div_tz_i128, isqrt_u128, lemma_mul_abs_le, lemma_mul_le,
    lemma_sqrt_floor_bounds, mul_i128, mul_u128, rem_euclid_i64, sin_mrad, cos_mrad, sin_mrad_spec,
    cos_mrad_spec, sqrt_floor, ACC_MAX, DT_MAX_MS, POS_MAX, TAU_MRAD, VEL_MAX,
};
use crate::perf::CarStatus;
use crate::session::{GameOverCause, GameSession, CRASH_LIMIT_MM, ROAD_LIMIT_MM};
use vstd::arithmetic::div_mod::{
    lemma_div_by_multiple, lemma_div_is_ordered, lemma_div_pos_is_pos,
};
use vstd::arithmetic::mul::lemma_mul_is_commutative;
use vstd::prelude::*;

verus! {

/// Gravitational acceleration, in milli-metres per second squared.
pub const GRAVITY_MMSS: i64 = 9_810;

/// Extra pull applied to gravity so the car hugs the hills.
pub const GRAVITY_SCALE: i64 = 3;

/// Engine force per unit of the acceleration figure.
pub const ENGINE_FORCE_SCALE: i64 = 500;

/// Largest magnitude a summed force component can reach, given the
/// field bounds (dominated by the drag term).
pub const FORCE_ABS_MAX: i128 = 1_000_000_000_000_000_000_000_000_000;

/// A velocity, one component per axis, in milli-metres per second.
#[derive(Clone, Copy, Debug, PartialEq, Eq, Structural)]
pub struct Velocity {
    pub x: i64,
    pub y: i64,
    pub z: i64,
}

impl Velocity {
    pub open spec fn wf(self) -> bool {
        &&& -VEL_MAX <= self.x <= VEL_MAX
        &&& -VEL_MAX <= self.y <= VEL_MAX
        &&& -VEL_MAX <= self.z <= VEL_MAX
    }
}

impl Default for Velocity {
    /// At rest.
    fn default() -> (v: Self)
        ensures
            v == (Velocity { x: 0, y: 0, z: 0 }),
            v.wf(),
    {
        Velocity { x: 0, y: 0, z: 0 }
    }
}

/// Pose and motion of the car: position in milli-metres, yaw in
/// milli-radians in [0, TAU_MRAD), and the current velocity.
#[derive(Clone, Copy, Debug, PartialEq, Eq, Structural)]
pub struct VehicleBody {
    pub pos_x: i64,
    pub pos_y: i64,
    pub pos_z: i64,
    pub yaw: i64,
    pub velocity: Velocity,
}

impl VehicleBody {
    pub open spec fn wf(self) -> bool {
        &&& -POS_MAX <= self.pos_x <= POS_MAX
        &&& -POS_MAX <= self.pos_y <= POS_MAX
        &&& -POS_MAX <= self.pos_z <= POS_MAX
        &&& 0 <= self.yaw < TAU_MRAD
        &&& self.velocity.wf()
    }
}

impl Default for VehicleBody {
    /// On the starting line: at the track centre, slightly above the
    /// ground, facing down the course, at rest.
    fn default() -> (b: Self)
        ensures
            b == (VehicleBody {
                pos_x: 0,
                pos_y: 1_000,
                pos_z: 0,
                yaw: 0,
                velocity: Velocity { x: 0, y: 0, z: 0 },
            }),
            b.wf(),
    {
        VehicleBody { pos_x: 0, pos_y: 1_000, pos_z: 0, yaw: 0, velocity: Velocity { x: 0, y: 0, z: 0 } }
    }
}

/// The player's continuous input for one tick.
#[derive(Clone, Copy, Debug, PartialEq, Eq, Structural)]
pub struct DriverInput {
    pub throttle: bool,
    pub brake: bool,
    pub steer_left: bool,
    pub steer_right: bool,
}

/// Downward pull: gravity scaled by the extra pull and the weight.
pub open spec fn spec_gravity_force(weight: int) -> int {
    -(GRAVITY_MMSS * GRAVITY_SCALE * weight / 100_000)
}

/// Signed engine force along the forward direction: drive under
/// throttle, braking while moving, nothing otherwise.
pub open spec fn spec_engine_force(st: CarStatus, drs: bool, input: DriverInput, mag0: int) -> int {
    if input.throttle {
        (if drs {
            st.drs_acceleration as int
        } else {
            st.acceleration as int
        }) * ENGINE_FORCE_SCALE
    } else if input.brake && mag0 > 100 {
        -(st.braking as int)
    } else {
        0
    }
}

/// Drag coefficient: reduced to two fifths while DRS is open.
pub open spec fn spec_drag_coeff(aero: int, drs: bool) -> int {
    if drs {
        aero * 2 / 5
    } else {
        aero
    }
}

/// Net force along one axis: gravity share, engine share along the
/// forward component, drag and ground friction against the motion.
pub open spec fn spec_axis_force(gravity: int, fwd: int, engine: int, v: int, coeff: int) -> int {
    gravity + div_tz(fwd * engine, 1000) - div_tz(v * coeff * 2, 5000) - 2 * v
}

/// One Euler step of a velocity component, clamped to the model's
/// velocity range.
pub open spec fn spec_vel_step(v: int, f: int, weight: int, dt: int) -> int {
    clamp_spec(v + div_tz(f * dt, weight), -(VEL_MAX as int), VEL_MAX as int)
}

/// Squared magnitude of a velocity.
pub open spec fn spec_vmag2(v: Velocity) -> int {
    v.x * v.x + v.y * v.y + v.z * v.z
}

/// Magnitude of a velocity, rounded down.
pub open spec fn spec_vmag(v: Velocity) -> int {
    sqrt_floor(spec_vmag2(v) as nat) as int
}

/// The hard speed cap in milli-metres per second: the gear-limited
/// top speed, no higher than the DRS-state top speed.
pub open spec fn spec_speed_cap_ms(st: CarStatus, gear: int, drs: bool) -> int {
    let top = if drs {
        st.drs_max_speed as int
    } else {
        st.max_speed as int
    };
    let gear_limited = top * gear / 6;
    let lim_kmh = if gear_limited < top {
        gear_limited
    } else {
        top
    };
    let top_ms = top * 5 / 18;
    let lim_ms = lim_kmh * 5 / 18;
    if lim_ms < top_ms {
        lim_ms
    } else {
        top_ms
    }
}

/// The velocity scaled back onto the cap when it exceeds it.
pub open spec fn spec_vel_capped(v: Velocity, cap: int) -> Velocity {
    let mag = spec_vmag(v);
    if mag > cap {
        Velocity {
            x: div_tz(v.x * cap, mag) as i64,
            y: div_tz(v.y * cap, mag) as i64,
            z: div_tz(v.z * cap, mag) as i64,
        }
    } else {
        v
    }
}

/// Yaw change from steering over one step; a right steer wins where
/// both are held.
pub open spec fn spec_yaw_rot(handling: int, input: DriverInput, dt: int) -> int {
    if input.steer_right {
        -(handling * 6 * dt / 5000)
    } else if input.steer_left {
        handling * 6 * dt / 5000
    } else {
        0
    }
}

/// Yaw after steering, wrapped into [0, TAU_MRAD).
pub open spec fn spec_yaw_after(yaw: int, handling: int, input: DriverInput, dt: int) -> int {
    (yaw + spec_yaw_rot(handling, input, dt)) % (TAU_MRAD as int)
}

/// The velocity re-aligned with the forward direction of the new yaw,
/// keeping its magnitude; a crawl keeps its direction.
pub open spec fn spec_vel_aligned(v: Velocity, yaw: int) -> Velocity {
    let mag = spec_vmag(v);
    if mag > 100 {
        Velocity {
            x: clamp_spec(
                div_tz(-sin_mrad_spec(yaw) * mag, 1000),
                -(VEL_MAX as int),
                VEL_MAX as int,
            ) as i64,
            y: 0,
            z: clamp_spec(
                div_tz(-cos_mrad_spec(yaw) * mag, 1000),
                -(VEL_MAX as int),
                VEL_MAX as int,
            ) as i64,
        }
    } else {
        v
    }
}

/// One Euler step of a position coordinate, clamped to the model's
/// range.
pub open spec fn spec_pos_step(pos: int, v: int, dt: int) -> int {
    clamp_spec(pos + div_tz(v * dt, 1000), -(POS_MAX as int), POS_MAX as int)
}

/// Height of the track at a longitudinal position: sine-wave hills
/// along the course, flat behind the start line.
pub open spec fn spec_ground_height(pos_z: int) -> int {
    let zc = -pos_z;
    if zc >= 0 {
        5 * sin_mrad_spec((zc / 1000) % (TAU_MRAD as int))
    } else {
        0
    }
}

/// The body and session after one full integrator step.  A session
/// that is already over freezes both.
pub open spec fn spec_integrated(
    body: VehicleBody,
    session: GameSession,
    st: CarStatus,
    input: DriverInput,
    dt: int,
) -> (VehicleBody, GameSession) {
    if session.is_game_over {
        (body, session)
    } else {
        let mag0 = spec_vmag(body.velocity);
        let kmh = mag0 * 18 / 5;
        let v0 = if input.brake && !input.throttle && mag0 <= 100 {
            Velocity { x: 0, y: 0, z: 0 }
        } else {
            body.velocity
        };
        let engine = spec_engine_force(st, session.drs_enabled, input, mag0);
        let fuel1 = if input.throttle {
            let burned = session.current_fuel - st.fuel_consumption * dt / 2000;
            if burned < -ACC_MAX {
                -(ACC_MAX as int)
            } else {
                burned
            }
        } else {
            session.current_fuel as int
        };
        let coeff = spec_drag_coeff(st.aerodynamics as int, session.drs_enabled);
        let fwd_x = -sin_mrad_spec(body.yaw as int);
        let fwd_z = -cos_mrad_spec(body.yaw as int);
        let fx = spec_axis_force(0, fwd_x, engine, v0.x as int, coeff);
        let fy = spec_axis_force(
            spec_gravity_force(st.weight as int),
            0,
            engine,
            v0.y as int,
            coeff,
        );
        let fz = spec_axis_force(0, fwd_z, engine, v0.z as int, coeff);
        let v1 = Velocity {
            x: spec_vel_step(v0.x as int, fx, st.weight as int, dt) as i64,
            y: spec_vel_step(v0.y as int, fy, st.weight as int, dt) as i64,
            z: spec_vel_step(v0.z as int, fz, st.weight as int, dt) as i64,
        };
        let cap = spec_speed_cap_ms(st, session.current_gear as int, session.drs_enabled);
        let v2 = spec_vel_capped(v1, cap);
        let mag2 = spec_vmag(v2);
        let px1 = spec_pos_step(body.pos_x as int, v2.x as int, dt);
        let py1 = spec_pos_step(body.pos_y as int, v2.y as int, dt);
        let pz1 = spec_pos_step(body.pos_z as int, v2.z as int, dt);
        let dist_raw = session.distance_traveled + mag2 * dt / 1000;
        let dist1 = if dist_raw > ACC_MAX {
            ACC_MAX as int
        } else {
            dist_raw
        };
        let yaw1 = spec_yaw_after(body.yaw as int, st.handling as int, input, dt);
        let v3 = spec_vel_aligned(v2, yaw1);
        let ground = spec_ground_height(pz1);
        let snapped = py1 < ground + 500;
        let py2 = if snapped {
            ground + 500
        } else {
            py1
        };
        let vy4 = if snapped && v3.y < 0 {
            0
        } else {
            v3.y as int
        };
        let off_road = px1 > ROAD_LIMIT_MM || px1 < -ROAD_LIMIT_MM;
        let pt_raw = if off_road {
            session.play_time + 2 * dt
        } else {
            session.play_time as int
        };
        let pt1 = if pt_raw > ACC_MAX {
            ACC_MAX as int
        } else {
            pt_raw
        };
        let crashed = px1 > CRASH_LIMIT_MM || px1 < -CRASH_LIMIT_MM;
        (
            VehicleBody {
                pos_x: px1 as i64,
                pos_y: py2 as i64,
                pos_z: pz1 as i64,
                yaw: yaw1 as i64,
                velocity: Velocity { x: v3.x, y: vy4 as i64, z: v3.z },
            },
            GameSession {
                current_speed: kmh as i64,
                current_fuel: fuel1 as i64,
                play_time: pt1 as i64,
                distance_traveled: dist1 as i64,
                is_game_over: crashed,
                game_over_cause: if crashed {
                    GameOverCause::Crash
                } else {
                    GameOverCause::NotOver
                },
                ..session
            },
        )
    }
}

/// Exact square of a bounded velocity component, widened.
fn square_u128(a: i64) -> (r: u128)
    requires
        -VEL_MAX <= a <= VEL_MAX,
    ensures
        r as int == (a as int) * (a as int),
        r <= 1_000_000_000_000_000_000_000_000_000_000,
{
    let aa: i128 = a as i128;
    let m: i128 = if aa < 0 {
        -aa
    } else {
        aa
    };
    proof {
        assert((m as int) * (m as int) == (a as int) * (a as int)) by (nonlinear_arith)
            requires
                m as int == a as int || m as int == -(a as int);
        lemma_mul_le(m as int, m as int, VEL_MAX as int, VEL_MAX as int);
    }
    let mu: u128 = m as u128;
    mul_u128(mu, mu)
}

/// Magnitude of a velocity, rounded down.
pub fn vel_magnitude(v: &Velocity) -> (r: u64)
    requires
        v.wf(),
    ensures
        r as int == spec_vmag(*v),
        r <= 2_000_000_000_000_000,
{
    let sx = square_u128(v.x);
    let sy = square_u128(v.y);
    let sz = square_u128(v.z);
    let m2: u128 = sx + sy + sz;
    isqrt_u128(m2)
}

/// Every component of a velocity is bounded by its magnitude.
proof fn lemma_component_le_magnitude(v: Velocity)
    requires
        v.wf(),
    ensures
        -spec_vmag(v) <= v.x <= spec_vmag(v),
        -spec_vmag(v) <= v.y <= spec_vmag(v),
        -spec_vmag(v) <= v.z <= spec_vmag(v),
        0 <= spec_vmag(v),
{
    let m2 = spec_vmag2(v);
    lemma_mul_abs_le(v.x as int, v.x as int, VEL_MAX as int, VEL_MAX as int);
    lemma_mul_abs_le(v.y as int, v.y as int, VEL_MAX as int, VEL_MAX as int);
    lemma_mul_abs_le(v.z as int, v.z as int, VEL_MAX as int, VEL_MAX as int);
    assert(v.x * v.x >= 0 && v.y * v.y >= 0 && v.z * v.z >= 0) by (nonlinear_arith);
    lemma_sqrt_floor_bounds(m2 as nat);
    let mag = sqrt_floor(m2 as nat) as int;
    lemma_sq_le_implies_le(v.x as int, mag, m2);
    lemma_sq_le_implies_le(v.y as int, mag, m2);
    lemma_sq_le_implies_le(v.z as int, mag, m2);
}

/// A number whose square stays below a bound stays below the bound's
/// root.
proof fn lemma_sq_le_implies_le(c: int, mag: int, m2: int)
    requires
        0 <= mag,
        c * c <= m2,
        m2 < (mag + 1) * (mag + 1),
    ensures
        -mag <= c <= mag,
{
    if c > mag || c < -mag {
        assert(c * c >= (mag + 1) * (mag + 1)) by (nonlinear_arith)
            requires
                0 <= mag,
                c > mag || c < -mag;
    }
}

/// Quotients by a positive divisor keep the bound of the dividend.
proof fn lemma_div_tz_bound(a: int, m: int, c: int)
    requires
        1 <= m,
        0 <= c,
        -(c * m) <= a <= c * m,
    ensures
        -c <= div_tz(a, m) <= c,
{
    lemma_mul_is_commutative(c, m);
    lemma_div_by_multiple(c, m);
    if a >= 0 {
        lemma_div_is_ordered(a, c * m, m);
        lemma_div_pos_is_pos(a, m);
    } else {
        lemma_div_is_ordered(-a, c * m, m);
        lemma_div_pos_is_pos(-a, m);
    }
}

/// Net force along one axis.
fn axis_force(gravity: i64, fwd: i64, engine: i128, v: i64, coeff: i64) -> (f: i128)
    requires
        -300_000_000_000_000 <= gravity <= 0,
        -1000 <= fwd <= 1000,
        -500_000_000_000_000_000 <= engine <= 500_000_000_000_000_000,
        -VEL_MAX <= v <= VEL_MAX,
        0 <= coeff <= 1_000_000_000_000_000,
    ensures
        f == spec_axis_force(gravity as int, fwd as int, engine as int, v as int, coeff as int),
        -FORCE_ABS_MAX <= f <= FORCE_ABS_MAX,
{
    proof {
        lemma_mul_abs_le(fwd as int, engine as int, 1000, 500_000_000_000_000_000);
    }
    let ep: i128 = mul_i128(fwd as i128, engine);
    let e_term: i128 = div_tz_i128(ep, 1000);
    proof {
        lemma_div_tz_bound(ep as int, 1000, 500_000_000_000_000_000);
        lemma_mul_abs_le(v as int, coeff as int, VEL_MAX as int, 1_000_000_000_000_000);
    }
    let dp: i128 = mul_i128(v as i128, coeff as i128);
    let d_term: i128 = div_tz_i128(dp * 2, 5000);
    proof {
        lemma_div_tz_bound(2 * (dp as int), 5000, 400_000_000_000_000_000_000_000_000);
    }
    (gravity as i128) + e_term - d_term - 2 * (v as i128)
}

/// One Euler step of a velocity component.
fn vel_step(v: i64, f: i128, weight: i64, dt: i64) -> (r: i64)
    requires
        -VEL_MAX <= v <= VEL_MAX,
        -FORCE_ABS_MAX <= f <= FORCE_ABS_MAX,
        1 <= weight,
        0 < dt <= DT_MAX_MS,
    ensures
        r as int == spec_vel_step(v as int, f as int, weight as int, dt as int),
        -VEL_MAX <= r <= VEL_MAX,
{
    proof {
        lemma_mul_abs_le(f as int, dt as int, FORCE_ABS_MAX as int, DT_MAX_MS as int);
    }
    let fd: i128 = mul_i128(f, dt as i128);
    let dv: i128 = div_tz_i128(fd, weight as i128);
    proof {
        vstd::arithmetic::mul::lemma_mul_left_inequality(
            10_000_000_000_000_000_000_000_000_000_000int,
            1,
            weight as int,
        );
        lemma_div_tz_bound(fd as int, weight as int, 10_000_000_000_000_000_000_000_000_000_000);
    }
    clamp_i128((v as i128) + dv, -VEL_MAX, VEL_MAX)
}

/// One Euler step of a position coordinate.
fn pos_step(pos: i64, v: i64, dt: i64) -> (r: i64)
    requires
        -POS_MAX <= pos <= POS_MAX,
        -VEL_MAX <= v <= VEL_MAX,
        0 < dt <= DT_MAX_MS,
    ensures
        r as int == spec_pos_step(pos as int, v as int, dt as int),
        -POS_MAX <= r <= POS_MAX,
{
    proof {
        lemma_mul_abs_le(v as int, dt as int, VEL_MAX as int, DT_MAX_MS as int);
    }
    let vd: i128 = div_tz_i128(mul_i128(v as i128, dt as i128), 1000);
    proof {
        lemma_div_tz_bound(
            (v as int) * (dt as int),
            1000,
            10_000_000_000_000_000,
        );
    }
    clamp_i128((pos as i128) + vd, -POS_MAX, POS_MAX)
}

/// Height of the track under a longitudinal position.
fn ground_height(pos_z: i64) -> (g: i64)
    requires
        -POS_MAX <= pos_z <= POS_MAX,
    ensures
        g == spec_ground_height(pos_z as int),
        -5_000 <= g <= 5_000,
{
    let zc: i64 = -pos_z;
    if zc >= 0 {
        let angle: u64 = (zc as u64) / 1000;
        let red: u64 = angle % (TAU_MRAD as u64);
        5 * sin_mrad(red as i64)
    } else {
        0
    }
}

/// One explicit-Euler step: forces, integration, speed cap, motion,
/// steering, terrain and course-boundary rules, in the fixed order.
/// A session that is already over freezes both the body and itself.
#[verifier::rlimit(100)]
pub fn integrate_step(
    body: &mut VehicleBody,
    session: &mut GameSession,
    st: &CarStatus,
    input: &DriverInput,
    dt_ms: i64,
)
    requires
        old(body).wf(),
        old(session).wf(),
        st.wf(),
        0 < dt_ms <= DT_MAX_MS,
    ensures
        *final(body) == spec_integrated(*old(body), *old(session), *st, *input, dt_ms as int).0,
        *final(session) == spec_integrated(*old(body), *old(session), *st, *input, dt_ms as int).1,
        final(body).wf(),
        final(session).wf(),
        old(session).is_game_over ==> *final(body) == *old(body) && *final(session) == *old(session),
{
    if session.is_game_over {
        return ;
    }
    // Current speed, read off before any force is applied.
    let mag0: u64 = vel_magnitude(&body.velocity);
    let kmh_num: u128 = (mag0 as u128) * 18;
    let kmh: i64 = (kmh_num / 5) as i64;
    proof {
        lemma_div_is_ordered(kmh_num as int, 36_000_000_000_000_000, 5);
    }
    session.current_speed = kmh;
    // A braking crawl comes to a complete stop before the forces act.
    let v0: Velocity = if input.brake && !input.throttle && mag0 <= 100 {
        Velocity { x: 0, y: 0, z: 0 }
    } else {
        body.velocity
    };
    // Engine or brake force, and the fuel burnt while accelerating.
    let engine: i128 = if input.throttle {
        let a: i64 = if session.drs_enabled {
            st.drs_acceleration
        } else {
            st.acceleration
        };
        (a as i128) * (ENGINE_FORCE_SCALE as i128)
    } else if input.brake && mag0 > 100 {
        -(st.braking as i128)
    } else {
        0
    };
    if input.throttle {
        proof {
            lemma_mul_le(st.fuel_consumption as int, dt_ms as int, 1_000_000_000_000_000, 10_000);
        }
        let burn_num: u128 = mul_u128(st.fuel_consumption as u128, dt_ms as u128);
        let burn: u128 = burn_num / 2000;
        proof {
            lemma_div_is_ordered(burn_num as int, 10_000_000_000_000_000_000, 2000);
        }
        let nf: i64 = session.current_fuel - (burn as i64);
        session.current_fuel = if nf < -ACC_MAX {
            -ACC_MAX
        } else {
            nf
        };
    }
    // Drag coefficient, reduced while DRS is open.
    let coeff: i64 = if session.drs_enabled {
        (((st.aerodynamics as u64) * 2) / 5) as i64
    } else {
        st.aerodynamics
    };
    // Forces along each axis, in the car's forward frame.
    let fsin: i64 = sin_mrad(body.yaw);
    let fcos: i64 = cos_mrad(body.yaw);
    let g_num: u128 = 29_430 * (st.weight as u128);
    let g_mag: u128 = g_num / 100_000;
    proof {
        lemma_div_is_ordered(g_num as int, 29_430_000_000_000_000_000, 100_000);
        assert(GRAVITY_MMSS * GRAVITY_SCALE == 29_430);
    }
    let gy: i64 = -((g_mag) as i64);
    let fx: i128 = axis_force(0, -fsin, engine, v0.x, coeff);
    let fy: i128 = axis_force(gy, 0, engine, v0.y, coeff);
    let fz: i128 = axis_force(0, -fcos, engine, v0.z, coeff);
    // Integrate the velocity.
    let v1 = Velocity {
        x: vel_step(v0.x, fx, st.weight, dt_ms),
        y: vel_step(v0.y, fy, st.weight, dt_ms),
        z: vel_step(v0.z, fz, st.weight, dt_ms),
    };
    // Cap the speed at the gear- and DRS-limited maximum.
    let top: i64 = if session.drs_enabled {
        st.drs_max_speed
    } else {
        st.max_speed
    };
    proof {
        lemma_mul_le(top as int, session.current_gear as int, 1_000_000_000_000_000, 6);
    }
    let gl: u128 = mul_u128(top as u128, session.current_gear as u128) / 6;
    let lim_kmh: u128 = if gl < top as u128 {
        gl
    } else {
        top as u128
    };
    let top_ms: u128 = ((top as u128) * 5) / 18;
    let lim_ms: u128 = (lim_kmh * 5) / 18;
    let cap: i64 = (if lim_ms < top_ms {
        lim_ms
    } else {
        top_ms
    }) as i64;
    proof {
        lemma_div_is_ordered((top as int) * 5, 5_000_000_000_000_000, 18);
    }
    let mag1: u64 = vel_magnitude(&v1);
    let v2: Velocity = if (mag1 as i64) > cap {
        proof {
            lemma_component_le_magnitude(v1);
            lemma_mul_abs_le(v1.x as int, cap as int, mag1 as int, cap as int);
            lemma_mul_abs_le(v1.y as int, cap as int, mag1 as int, cap as int);
            lemma_mul_abs_le(v1.z as int, cap as int, mag1 as int, cap as int);
            lemma_mul_le(mag1 as int, cap as int, 2_000_000_000_000_000, 300_000_000_000_000);
            lemma_mul_is_commutative(mag1 as int, cap as int);
            lemma_div_tz_bound((v1.x as int) * (cap as int), mag1 as int, cap as int);
            lemma_div_tz_bound((v1.y as int) * (cap as int), mag1 as int, cap as int);
            lemma_div_tz_bound((v1.z as int) * (cap as int), mag1 as int, cap as int);
        }
        Velocity {
            x: div_tz_i128(mul_i128(v1.x as i128, cap as i128), mag1 as i128) as i64,
            y: div_tz_i128(mul_i128(v1.y as i128, cap as i128), mag1 as i128) as i64,
            z: div_tz_i128(mul_i128(v1.z as i128, cap as i128), mag1 as i128) as i64,
        }
    } else {
        v1
    };
    // Move, and accrue the driven distance.
    let px1: i64 = pos_step(body.pos_x, v2.x, dt_ms);
    let py1: i64 = pos_step(body.pos_y, v2.y, dt_ms);
    let pz1: i64 = pos_step(body.pos_z, v2.z, dt_ms);
    let mag2: u64 = vel_magnitude(&v2);
    proof {
        lemma_mul_le(mag2 as int, dt_ms as int, 2_000_000_000_000_000, 10_000);
    }
    let md_num: u128 = mul_u128(mag2 as u128, dt_ms as u128);
    let md: u128 = md_num / 1000;
    proof {
        lemma_div_is_ordered(md_num as int, 20_000_000_000_000_000_000, 1000);
    }
    let dist_raw: i64 = session.distance_traveled + (md as i64);
    session.distance_traveled = if dist_raw > ACC_MAX {
        ACC_MAX
    } else {
        dist_raw
    };
    // Steer, then re-align the velocity with the new forward.
    let h6: u128 = (st.handling as u128) * 6;
    proof {
        lemma_mul_le(h6 as int, dt_ms as int, 6_000_000_000_000_000, 10_000);
    }
    let rot_num: u128 = mul_u128(h6, dt_ms as u128);
    let rot_mag: u128 = rot_num / 5000;
    proof {
        lemma_div_is_ordered(rot_num as int, 60_000_000_000_000_000_000, 5000);
    }
    let rot: i64 = if input.steer_right {
        -(rot_mag as i64)
    } else if input.steer_left {
        rot_mag as i64
    } else {
        0
    };
    let yaw1: i64 = rem_euclid_i64(body.yaw + rot, TAU_MRAD);
    let v3: Velocity = if (mag2 as i64) > 100 {
        let s1: i64 = sin_mrad(yaw1);
        let c1: i64 = cos_mrad(yaw1);
        proof {
            lemma_mul_abs_le(-(s1 as int), mag2 as int, 1000, 2_000_000_000_000_000);
            lemma_mul_abs_le(-(c1 as int), mag2 as int, 1000, 2_000_000_000_000_000);
        }
        Velocity {
            x: clamp_i128(
                div_tz_i128(mul_i128(-(s1 as i128), mag2 as i128), 1000),
                -VEL_MAX,
                VEL_MAX,
            ),
            y: 0,
            z: clamp_i128(
                div_tz_i128(mul_i128(-(c1 as i128), mag2 as i128), 1000),
                -VEL_MAX,
                VEL_MAX,
            ),
        }
    } else {
        v2
    };
    // Snap the body above the terrain.
    let ground: i64 = ground_height(pz1);
    let snapped = py1 < ground + 500;
    let py2: i64 = if snapped {
        ground + 500
    } else {
        py1
    };
    let vy4: i64 = if snapped && v3.y < 0 {
        0
    } else {
        v3.y
    };
    // Course boundaries: time penalty off the road, crash past the
    // hard limit.
    if px1 > ROAD_LIMIT_MM || px1 < -ROAD_LIMIT_MM {
        let pt_raw: i64 = session.play_time + 2 * dt_ms;
        session.play_time = if pt_raw > ACC_MAX {
            ACC_MAX
        } else {
            pt_raw
        };
    }
    if px1 > CRASH_LIMIT_MM || px1 < -CRASH_LIMIT_MM {
        session.is_game_over = true;
        session.game_over_cause = GameOverCause::Crash;
    }
    body.pos_x = px1;
    body.pos_y = py2;
    body.pos_z = pz1;
    body.yaw = yaw1;
    body.velocity = Velocity { x: v3.x, y: vy4, z: v3.z };
}

} // verus!
