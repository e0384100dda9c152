//! Static tuning profile of a car.
//!
//! Impact rates weight how strongly each hardware metric bends the
//! car's figures; base values are the figures an idle machine would
//! give, in milli-units.  All base values are positive: weight and
//! grip are divided by downstream, so a profile with a zero base is
//! rejected at construction and never reaches the simulation.

use vstd::prelude::*;

verus! {

/// Largest impact rate a profile may carry.
pub const IMPACT_MAX: i64 = 1_000;

/// Largest base figure a profile may carry (milli-units).
pub const BASE_STAT_MAX: i64 = 1_000_000_000;

/// Which tuning preset a player picked at car selection.
#[derive(Clone, Copy, Debug, PartialEq, Eq, Structural)]
pub enum CarKind {
    Balance,
    Speed,
    Accel,
}

/// Base design figures of the car: impact rates, then base stats in
/// milli-units.
#[derive(Clone, Copy, Debug, PartialEq, Eq, Structural)]
pub struct BaseCarStatus {
    pub cpu_impact: i64,
    pub gpu_impact: i64,
    pub ram_impact: i64,
    pub temp_impact: i64,
    pub ssd_impact: i64,
    pub base_max_speed: i64,
    pub base_weight: i64,
    pub base_fuel_consumption: i64,
    pub base_handling: i64,
    pub base_acceleration: i64,
    pub base_braking: i64,
    pub base_grip: i64,
    pub base_aerodynamics: i64,
    pub base_fuel_capacity: i64,
}

/// The profile with the impact rates of the chosen preset and the
/// base figures kept.
pub open spec fn spec_preset_applied(p: BaseCarStatus, kind: CarKind) -> BaseCarStatus {
    match kind {
        CarKind::Balance => (BaseCarStatus {
            cpu_impact: 20,
            gpu_impact: 20,
            ram_impact: 20,
            temp_impact: 20,
            ssd_impact: 20,
            ..p
        }),
        CarKind::Speed => (BaseCarStatus {
            cpu_impact: 50,
            gpu_impact: 10,
            ram_impact: 10,
            temp_impact: 15,
            ssd_impact: 15,
            ..p
        }),
        CarKind::Accel => (BaseCarStatus {
            cpu_impact: 10,
            gpu_impact: 50,
            ram_impact: 10,
            temp_impact: 15,
            ssd_impact: 15,
            ..p
        }),
    }
}

impl BaseCarStatus {
    /// Ranges every profile holds to; every base figure is strictly
    /// positive.
    pub open spec fn wf(self) -> bool {
        &&& 0 <= self.cpu_impact <= IMPACT_MAX
        &&& 0 <= self.gpu_impact <= IMPACT_MAX
        &&& 0 <= self.ram_impact <= IMPACT_MAX
        &&& 0 <= self.temp_impact <= IMPACT_MAX
        &&& 0 <= self.ssd_impact <= IMPACT_MAX
        &&& 1 <= self.base_max_speed <= BASE_STAT_MAX
        &&& 1 <= self.base_weight <= BASE_STAT_MAX
        &&& 1 <= self.base_fuel_consumption <= BASE_STAT_MAX
        &&& 1 <= self.base_handling <= BASE_STAT_MAX
        &&& 1 <= self.base_acceleration <= BASE_STAT_MAX
        &&& 1 <= self.base_braking <= BASE_STAT_MAX
        &&& 1 <= self.base_grip <= BASE_STAT_MAX
        &&& 1 <= self.base_aerodynamics <= BASE_STAT_MAX
        &&& 1 <= self.base_fuel_capacity <= BASE_STAT_MAX
    }

    /// Replace the impact rates with those of the chosen preset; the
    /// base figures are design constants and stay.
    pub fn apply_preset(&mut self, kind: CarKind)
        requires
            old(self).wf(),
        ensures
            *final(self) == spec_preset_applied(*old(self), kind),
            final(self).wf(),
    {
        match kind {
            CarKind::Balance => {
                self.cpu_impact = 20;
                self.gpu_impact = 20;
                self.ram_impact = 20;
                self.temp_impact = 20;
                self.ssd_impact = 20;
            },
            CarKind::Speed => {
                self.cpu_impact = 50;
                self.gpu_impact = 10;
                self.ram_impact = 10;
                self.temp_impact = 15;
                self.ssd_impact = 15;
            },
            CarKind::Accel => {
                self.cpu_impact = 10;
                self.gpu_impact = 50;
                self.ram_impact = 10;
                self.temp_impact = 15;
                self.ssd_impact = 15;
            },
        }
    }
}

impl Default for BaseCarStatus {
    /// The balanced reference car: every impact rate 20, base figures
    /// of a one-tonne, 300 km/h tourer.
    fn default() -> (p: Self)
        ensures
            p == (BaseCarStatus {
                cpu_impact: 20,
                gpu_impact: 20,
                ram_impact: 20,
                temp_impact: 20,
                ssd_impact: 20,
                base_max_speed: 300_000,
                base_weight: 1_000_000,
                base_fuel_consumption: 500,
                base_handling: 2_000,
                base_acceleration: 50_000,
                base_braking: 50_000,
                base_grip: 2_000,
                base_aerodynamics: 1_000,
                base_fuel_capacity: 60_000,
            }),
            p.wf(),
    {
        BaseCarStatus {
            cpu_impact: 20,
            gpu_impact: 20,
            ram_impact: 20,
            temp_impact: 20,
            ssd_impact: 20,
            base_max_speed: 300_000,
            base_weight: 1_000_000,
            base_fuel_consumption: 500,
            base_handling: 2_000,
            base_acceleration: 50_000,
            base_braking: 50_000,
            base_grip: 2_000,
            base_aerodynamics: 1_000,
            base_fuel_capacity: 60_000,
        }
    }
}

} // verus!
