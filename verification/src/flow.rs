//! The linear menu flow between the application's screens.
//!
//! The screens form a line from the home menu through mode, course
//! and car selection and the measurement screen into the run, with
//! settings and the formula reference as side trips.  All decisions
//! are here; the shell around the library draws the screens and hands
//! back which control was activated.

use vstd::prelude::*;

verus! {

/// The screens of the application.
#[derive(Clone, Copy, Debug, PartialEq, Eq, Structural)]
pub enum AppState {
    Home,
    ModeSelect,
    CourseSelect,
    CarSelect,
    MeasurePerformance,
    TimeAttackGame,
    Result,
    Settings,
    CalcInfo,
}

impl Default for AppState {
    fn default() -> (s: Self)
        ensures
            s is Home,
    {
        AppState::Home
    }
}

/// A control the player activated on the current screen.
#[derive(Clone, Copy, Debug, PartialEq, Eq, Structural)]
pub enum MenuAction {
    Start,
    OpenSettings,
    OpenCalcInfo,
    Exit,
    TimeAttack,
    Race,
    Back,
    CourseChosen,
    CarChosen,
    MeasureDone,
    RunEnded,
}

/// The screen that follows an action, or nothing when the
/// application exits.  An action foreign to the current screen, and
/// the unimplemented race mode, change nothing.
pub open spec fn spec_next_state(state: AppState, action: MenuAction) -> Option<AppState> {
    match (state, action) {
        (AppState::Home, MenuAction::Start) => Some(AppState::ModeSelect),
        (AppState::Home, MenuAction::OpenSettings) => Some(AppState::Settings),
        (AppState::Home, MenuAction::OpenCalcInfo) => Some(AppState::CalcInfo),
        (AppState::Home, MenuAction::Exit) => None,
        (AppState::ModeSelect, MenuAction::TimeAttack) => Some(AppState::CourseSelect),
        (AppState::ModeSelect, MenuAction::Back) => Some(AppState::Home),
        (AppState::CourseSelect, MenuAction::CourseChosen) => Some(AppState::CarSelect),
        (AppState::CarSelect, MenuAction::CarChosen) => Some(AppState::MeasurePerformance),
        (AppState::MeasurePerformance, MenuAction::MeasureDone) => Some(AppState::TimeAttackGame),
        (AppState::TimeAttackGame, MenuAction::RunEnded) => Some(AppState::Result),
        (AppState::Result, MenuAction::Back) => Some(AppState::Home),
        (AppState::Settings, MenuAction::Back) => Some(AppState::Home),
        (AppState::CalcInfo, MenuAction::Back) => Some(AppState::Home),
        _ => Some(state),
    }
}

/// Decide the screen that follows an action.
pub fn next_state(state: AppState, action: MenuAction) -> (r: Option<AppState>)
    ensures
        r == spec_next_state(state, action),
{
    match (state, action) {
        (AppState::Home, MenuAction::Start) => Some(AppState::ModeSelect),
        (AppState::Home, MenuAction::OpenSettings) => Some(AppState::Settings),
        (AppState::Home, MenuAction::OpenCalcInfo) => Some(AppState::CalcInfo),
        (AppState::Home, MenuAction::Exit) => None,
        (AppState::ModeSelect, MenuAction::TimeAttack) => Some(AppState::CourseSelect),
        (AppState::ModeSelect, MenuAction::Back) => Some(AppState::Home),
        (AppState::CourseSelect, MenuAction::CourseChosen) => Some(AppState::CarSelect),
        (AppState::CarSelect, MenuAction::CarChosen) => Some(AppState::MeasurePerformance),
        (AppState::MeasurePerformance, MenuAction::MeasureDone) => Some(AppState::TimeAttackGame),
        (AppState::TimeAttackGame, MenuAction::RunEnded) => Some(AppState::Result),
        (AppState::Result, MenuAction::Back) => Some(AppState::Home),
        (AppState::Settings, MenuAction::Back) => Some(AppState::Home),
        (AppState::CalcInfo, MenuAction::Back) => Some(AppState::Home),
        (s, _) => Some(s),
    }
}

} // verus!
