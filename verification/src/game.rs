//! The per-tick pipeline: rules, performance model, integration.
//!
//! One tick is a fixed sequence: the rule checker first judges the
//! state the previous tick left (so an empty tank ends the run before
//! any further force is applied), then the car's figures are
//! recomputed from the latest telemetry, then the integrator moves
//! the car, ending the run itself if the hard course boundary is
//! crossed.  Once a run is over, a tick changes nothing.

use crate::fixed::DT_MAX_MS;
use crate::perf::{spec_updated_status, update_car_status, CarStatus};
use crate::profile::BaseCarStatus;
use crate::session::{spec_rules_applied, GameSession};
use crate::telemetry::PcStatus;
use crate::vehicle::{integrate_step, spec_integrated, DriverInput, VehicleBody};
use vstd::prelude::*;

verus! {

/// The session, body and status after one full tick.
pub open spec fn spec_tick(
    session: GameSession,
    body: VehicleBody,
    status: CarStatus,
    profile: BaseCarStatus,
    sample: PcStatus,
    input: DriverInput,
    dt: int,
) -> (GameSession, VehicleBody, CarStatus) {
    if session.is_game_over {
        (session, body, status)
    } else {
        let ruled = spec_rules_applied(session, body.pos_x as int, dt);
        if ruled.is_game_over {
            (ruled, body, status)
        } else {
            let recomputed = spec_updated_status(
                status,
                profile,
                sample,
                ruled.current_fuel as int,
                ruled.current_speed as int,
                ruled.current_gear as int,
            );
            let moved = spec_integrated(body, ruled, recomputed, input, dt);
            (moved.1, moved.0, recomputed)
        }
    }
}

/// Advance the simulation by one tick: rule check, performance model,
/// integration, in that order.  A terminal session is left frozen: no
/// field of the session, the body or the status changes after the
/// run has ended.
#[verifier::rlimit(30)]
pub fn tick(
    session: &mut GameSession,
    body: &mut VehicleBody,
    status: &mut CarStatus,
    profile: &BaseCarStatus,
    sample: &PcStatus,
    input: &DriverInput,
    dt_ms: i64,
)
    requires
        old(session).wf(),
        old(body).wf(),
        old(status).wf(),
        profile.wf(),
        sample.wf(),
        0 < dt_ms <= DT_MAX_MS,
    ensures
        (*final(session), *final(body), *final(status)) == spec_tick(
            *old(session),
            *old(body),
            *old(status),
            *profile,
            *sample,
            *input,
            dt_ms as int,
        ),
        final(session).wf(),
        final(body).wf(),
        final(status).wf(),
        old(session).is_game_over ==> *final(session) == *old(session) && *final(body) == *old(
            body,
        ) && *final(status) == *old(status),
        !old(session).is_game_over && spec_rules_applied(
            *old(session),
            old(body).pos_x as int,
            dt_ms as int,
        ).is_game_over ==> *final(body) == *old(body) && *final(status) == *old(status)
            && final(session).is_game_over,
{
    if session.is_game_over {
        return ;
    }
    session.run_rules(body.pos_x, dt_ms);
    if session.is_game_over {
        return ;
    }
    update_car_status(
        status,
        profile,
        sample,
        session.current_fuel,
        session.current_speed,
        session.current_gear,
    );
    integrate_step(body, session, status, input, dt_ms);
}

} // verus!
