//! State of one racing session and the rules that end it.
//!
//! The session is reset when a run starts, mutated once per tick by the
//! input handler, the integrator and the rule checker, and frozen as
//! soon as `is_game_over` flips to true.

use crate::fixed::{ACC_MAX, DT_MAX_MS, POS_MAX};
use vstd::prelude::*;

verus! {

/// Temperature sum (CPU + GPU, in degrees Celsius) at which the engine
/// overheats and the run ends.
pub const OVERHEAT_LIMIT_C: i64 = 255;

/// Lateral offset from the track centre (milli-metres) beyond which the
/// car crashes and the run ends.
pub const CRASH_LIMIT_MM: i64 = 35_000;

/// Lateral offset (milli-metres) beyond which off-road time penalties
/// accrue.
pub const ROAD_LIMIT_MM: i64 = 20_000;

/// Fuel the default session starts with (milli-units).
pub const DEFAULT_FUEL: i64 = 100_000;

/// Length of the default course (milli-metres).
pub const DEFAULT_COURSE_LENGTH: i64 = 5_000_000;

/// Temperature sum assumed before the first hardware sample (Celsius).
pub const DEFAULT_TEMP_C: i64 = 60;

/// How a run ends.
#[derive(Clone, Copy, Debug, PartialEq, Eq, Structural)]
pub enum GameOverCause {
    NotOver,
    GoalReached,
    FuelEmpty,
    Crash,
    Overheat,
}

impl Default for GameOverCause {
    fn default() -> (c: Self)
        ensures
            c is NotOver,
    {
        GameOverCause::NotOver
    }
}

/// State of the current racing session, in fixed-point units:
/// `play_time` in milliseconds, `current_speed` in milli-km/h,
/// `current_fuel` in milli-units, `current_temp` in whole degrees
/// Celsius, `distance_traveled` and `course_length` in milli-metres.
#[derive(Clone, Copy, Debug, PartialEq, Eq, Structural)]
pub struct GameSession {
    pub play_time: i64,
    pub current_speed: i64,
    pub current_fuel: i64,
    pub current_gear: i32,
    pub current_temp: i64,
    pub drs_enabled: bool,
    pub distance_traveled: i64,
    pub course_length: i64,
    pub is_game_over: bool,
    pub game_over_cause: GameOverCause,
}

impl GameSession {
    /// Ranges every session holds to, and the tie between the
    /// terminal flag and its cause: each is set exactly when the
    /// other is.
    pub open spec fn wf(self) -> bool {
        &&& 0 <= self.play_time <= ACC_MAX
        &&& 0 <= self.current_speed <= ACC_MAX
        &&& -ACC_MAX <= self.current_fuel <= ACC_MAX
        &&& 1 <= self.current_gear <= 6
        &&& 0 <= self.current_temp <= 1_000_000
        &&& 0 <= self.distance_traveled <= ACC_MAX
        &&& 0 <= self.course_length <= ACC_MAX
        &&& (self.is_game_over <==> !(self.game_over_cause is NotOver))
    }

    /// Reset for a new run with a freshly measured tank size.  The
    /// course length is chosen before the run and kept.
    pub fn start_run(&mut self, fuel_capacity: i64)
        requires
            old(self).wf(),
            0 <= fuel_capacity <= ACC_MAX,
        ensures
            *final(self) == (GameSession {
                play_time: 0,
                current_speed: 0,
                current_fuel: fuel_capacity,
                current_gear: 1,
                current_temp: DEFAULT_TEMP_C,
                drs_enabled: false,
                distance_traveled: 0,
                is_game_over: false,
                game_over_cause: GameOverCause::NotOver,
                ..*old(self)
            }),
            final(self).wf(),
    {
        self.play_time = 0;
        self.current_speed = 0;
        self.current_fuel = fuel_capacity;
        self.current_gear = 1;
        self.current_temp = DEFAULT_TEMP_C;
        self.drs_enabled = false;
        self.distance_traveled = 0;
        self.is_game_over = false;
        self.game_over_cause = GameOverCause::NotOver;
    }

    /// Shift one gear up, saturating at the top gear.  Input is
    /// ignored once the run has ended.
    pub fn gear_up(&mut self)
        requires
            old(self).wf(),
        ensures
            *final(self) == (if old(self).is_game_over {
                *old(self)
            } else {
                (GameSession { current_gear: spec_gear_up(old(self).current_gear as int) as i32, ..*old(self) })
            }),
            final(self).wf(),
    {
        if self.is_game_over {
            return ;
        }
        if self.current_gear < 6 {
            self.current_gear = self.current_gear + 1;
        }
    }

    /// Shift one gear down, saturating at the bottom gear.  Input is
    /// ignored once the run has ended.
    pub fn gear_down(&mut self)
        requires
            old(self).wf(),
        ensures
            *final(self) == (if old(self).is_game_over {
                *old(self)
            } else {
                (GameSession { current_gear: spec_gear_down(old(self).current_gear as int) as i32, ..*old(self) })
            }),
            final(self).wf(),
    {
        if self.is_game_over {
            return ;
        }
        if self.current_gear > 1 {
            self.current_gear = self.current_gear - 1;
        }
    }

    /// Toggle the drag-reduction system.  Input is ignored once the
    /// run has ended.
    pub fn set_drs(&mut self, enabled: bool)
        requires
            old(self).wf(),
        ensures
            *final(self) == (if old(self).is_game_over {
                *old(self)
            } else {
                (GameSession { drs_enabled: enabled, ..*old(self) })
            }),
            final(self).wf(),
    {
        if self.is_game_over {
            return ;
        }
        self.drs_enabled = enabled;
    }

    /// First terminal condition the session meets, in the fixed
    /// priority order: goal, fuel, overheat, crash.
    pub fn check_rules(&self, lateral_offset: i64) -> (c: GameOverCause)
        ensures
            c == spec_rule_cause(*self, lateral_offset as int),
    {
        if self.distance_traveled >= self.course_length {
            GameOverCause::GoalReached
        } else if self.current_fuel <= 0 {
            GameOverCause::FuelEmpty
        } else if self.current_temp >= OVERHEAT_LIMIT_C {
            GameOverCause::Overheat
        } else if lateral_offset > CRASH_LIMIT_MM || lateral_offset < -CRASH_LIMIT_MM {
            GameOverCause::Crash
        } else {
            GameOverCause::NotOver
        }
    }

    /// Advance the clock and end the run on the first terminal
    /// condition met, if any.  A session that is already over is left
    /// untouched.
    pub fn run_rules(&mut self, lateral_offset: i64, dt_ms: i64)
        requires
            old(self).wf(),
            0 < dt_ms <= DT_MAX_MS,
            -POS_MAX <= lateral_offset <= POS_MAX,
        ensures
            *final(self) == spec_rules_applied(*old(self), lateral_offset as int, dt_ms as int),
            final(self).wf(),
            old(self).is_game_over ==> *final(self) == *old(self),
            old(self).is_game_over ==> final(self).is_game_over,
    {
        if self.is_game_over {
            return ;
        }
        if self.play_time + dt_ms > ACC_MAX {
            self.play_time = ACC_MAX;
        } else {
            self.play_time = self.play_time + dt_ms;
        }
        let cause = self.check_rules(lateral_offset);
        if !matches!(cause, GameOverCause::NotOver) {
            self.is_game_over = true;
            self.game_over_cause = cause;
        }
    }
}

impl Default for GameSession {
    /// A fresh session before any run: a full default tank, first
    /// gear, the default course, nothing accumulated.
    fn default() -> (s: Self)
        ensures
            s == (GameSession {
                play_time: 0,
                current_speed: 0,
                current_fuel: DEFAULT_FUEL,
                current_gear: 1,
                current_temp: DEFAULT_TEMP_C,
                drs_enabled: false,
                distance_traveled: 0,
                course_length: DEFAULT_COURSE_LENGTH,
                is_game_over: false,
                game_over_cause: GameOverCause::NotOver,
            }),
            s.wf(),
    {
        GameSession {
            play_time: 0,
            current_speed: 0,
            current_fuel: DEFAULT_FUEL,
            current_gear: 1,
            current_temp: DEFAULT_TEMP_C,
            drs_enabled: false,
            distance_traveled: 0,
            course_length: DEFAULT_COURSE_LENGTH,
            is_game_over: false,
            game_over_cause: GameOverCause::NotOver,
        }
    }
}

/// Gear after one upshift: one more, saturated at the top gear.
pub open spec fn spec_gear_up(g: int) -> int {
    if g < 6 {
        g + 1
    } else {
        6
    }
}

/// Gear after one downshift: one less, saturated at the bottom gear.
pub open spec fn spec_gear_down(g: int) -> int {
    if g > 1 {
        g - 1
    } else {
        1
    }
}

/// Shifting is clamped: an upshift in top gear and a downshift in
/// bottom gear change nothing, so any number of repeated shifts stays
/// inside the gear range, and at a boundary stays at the boundary.
pub proof fn lemma_gear_shift_clamped(g: int)
    requires
        1 <= g <= 6,
    ensures
        spec_gear_up(6) == 6,
        spec_gear_down(1) == 1,
        1 <= spec_gear_up(g) <= 6,
        1 <= spec_gear_down(g) <= 6,
        g == 6 ==> spec_gear_up(g) == g,
        g == 1 ==> spec_gear_down(g) == g,
{
}

/// First terminal condition a session meets, checked in fixed
/// priority order: goal reached, fuel empty, overheat, crash.
pub open spec fn spec_rule_cause(s: GameSession, lateral_offset: int) -> GameOverCause {
    if s.distance_traveled >= s.course_length {
        GameOverCause::GoalReached
    } else if s.current_fuel <= 0 {
        GameOverCause::FuelEmpty
    } else if s.current_temp >= OVERHEAT_LIMIT_C {
        GameOverCause::Overheat
    } else if lateral_offset > CRASH_LIMIT_MM || lateral_offset < -CRASH_LIMIT_MM {
        GameOverCause::Crash
    } else {
        GameOverCause::NotOver
    }
}

/// The session after one rule-checker pass: the clock advanced by the
/// step (saturating), then frozen under the first matched cause.
pub open spec fn spec_rules_applied(s: GameSession, lateral_offset: int, dt_ms: int) -> GameSession {
    if s.is_game_over {
        s
    } else {
        let advanced = (GameSession {
            play_time: (if s.play_time + dt_ms > ACC_MAX {
                ACC_MAX as int
            } else {
                s.play_time + dt_ms
            }) as i64,
            ..s
        });
        let cause = spec_rule_cause(advanced, lateral_offset);
        if cause is NotOver {
            advanced
        } else {
            (GameSession { is_game_over: true, game_over_cause: cause, ..advanced })
        }
    }
}

} // verus!
