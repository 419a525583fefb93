//! The exercise loop as a state machine. The caller performs each action on
//! the page and reports what came of it; the machine decides what is next.

use crate::classifier::{classified, get_challange_type, ChallangeTypes, ClassifyError};
use crate::text::same_text;
use vstd::prelude::*;

verus! {

/// The pause before the first exercise of a lesson is looked at, in
/// milliseconds.
pub const START_DELAY_MILLIS: u64 = 3000;

/// The pause on a page that shows no exercise, in milliseconds.
pub const IGNORE_PAUSE_MILLIS: u64 = 1000;

/// The pause after the page was told to move on, in milliseconds.
pub const SETTLE_MILLIS: u64 = 100;

/// Why the loop stopped for good.
#[derive(Clone, Copy, Debug, PartialEq, Eq, Structural)]
pub enum Failure {
    /// The marker names no known kind of exercise.
    UnknownMarker,
    /// The exercise is of this kind, which is known but has no solver.
    Unsupported(ChallangeTypes),
    /// An event was reported that the state does not wait for.
    OutOfOrder,
}

/// Where the loop stands within one exercise.
#[derive(Clone, Copy, Debug, PartialEq, Eq, Structural)]
pub enum ExerciseState {
    /// Nothing is known of the exercise on the page.
    Idle,
    /// The exercise is of this kind.
    Classified(ChallangeTypes),
    /// The exercise's plan was carried out.
    Solved,
    /// The page was told to move on.
    Advanced,
    /// The lesson is over.
    Finished,
    /// The loop stopped for good.
    Failed(Failure),
}

/// What the caller reports.
#[derive(Clone, Debug, PartialEq, Eq)]
pub enum ExerciseEvent {
    /// The marker was looked for: its text, or `None` where the page holds
    /// no marker element.
    Marker(Option<String>),
    /// The solver's plan was carried out.
    Solved,
    /// The page was told to move on.
    Advanced,
    /// The page's current location was read.
    Location(String),
}

/// What the caller is to do next.
#[derive(Clone, Copy, Debug, PartialEq, Eq, Structural)]
pub enum ExerciseAction {
    /// Look for the marker and report `Marker`.
    ReadMarker,
    /// Run the solver of this kind, carry out its plan and report `Solved`.
    Solve(ChallangeTypes),
    /// Pause this long, tell the page to move on and report `Advanced`.
    Advance { pause_millis: u64 },
    /// Read the page's current location and report `Location`.
    ReadLocation,
    /// Leave the loop: the lesson is over.
    Finish,
    /// Leave the loop: it cannot go on.
    Abort(Failure),
}

/// The location that the page shows between lessons.
pub open spec fn lesson_boundary() -> Seq<char> {
    "https://www.duolingo.com/learn"@
}

/// A failure, and the loop stopped by it.
pub open spec fn stopped(failure: Failure) -> (ExerciseState, ExerciseAction) {
    (ExerciseState::Failed(failure), ExerciseAction::Abort(failure))
}

/// What follows a classification: a solvable kind is solved, a page without
/// exercise is passed over after a pause, and anything else stops the loop.
pub open spec fn after_classification(kind: Result<ChallangeTypes, ClassifyError>) -> (
    ExerciseState,
    ExerciseAction,
) {
    match kind {
        Err(_) => stopped(Failure::UnknownMarker),
        Ok(ChallangeTypes::Name) => stopped(Failure::Unsupported(ChallangeTypes::Name)),
        Ok(ChallangeTypes::ListenOnly) => stopped(
            Failure::Unsupported(ChallangeTypes::ListenOnly),
        ),
        Ok(ChallangeTypes::Ignore) => (
            ExerciseState::Classified(ChallangeTypes::Ignore),
            ExerciseAction::Advance { pause_millis: IGNORE_PAUSE_MILLIS },
        ),
        Ok(kind) => (ExerciseState::Classified(kind), ExerciseAction::Solve(kind)),
    }
}

/// The transition function of the exercise loop.
pub open spec fn next_step(state: ExerciseState, event: ExerciseEvent) -> (
    ExerciseState,
    ExerciseAction,
) {
    match (state, event) {
        (ExerciseState::Idle, ExerciseEvent::Marker(marker)) => after_classification(
            classified(
                match marker {
                    Some(marker) => Some(marker@),
                    None => None,
                },
            ),
        ),
        (ExerciseState::Classified(ChallangeTypes::Ignore), ExerciseEvent::Advanced) => (
            ExerciseState::Advanced,
            ExerciseAction::ReadLocation,
        ),
        (ExerciseState::Classified(ChallangeTypes::Ignore), _) => stopped(Failure::OutOfOrder),
        (ExerciseState::Classified(_), ExerciseEvent::Solved) => (
            ExerciseState::Solved,
            ExerciseAction::Advance { pause_millis: 0 },
        ),
        (ExerciseState::Solved, ExerciseEvent::Advanced) => (
            ExerciseState::Advanced,
            ExerciseAction::ReadLocation,
        ),
        (ExerciseState::Advanced, ExerciseEvent::Location(location)) => if location@
            == lesson_boundary() {
            (ExerciseState::Finished, ExerciseAction::Finish)
        } else {
            (ExerciseState::Idle, ExerciseAction::ReadMarker)
        },
        (ExerciseState::Finished, _) => (ExerciseState::Finished, ExerciseAction::Finish),
        (ExerciseState::Failed(failure), _) => stopped(failure),
        _ => stopped(Failure::OutOfOrder),
    }
}

/// The loop's fixed points and its short cuts: a finished or failed loop
/// stays as it is whatever is reported; the kinds without a solver stop the
/// loop; a page without exercise is passed over without any solving.
pub proof fn lemma_exercise_loop(event: ExerciseEvent, failure: Failure)
    ensures
        next_step(ExerciseState::Finished, event).0 == ExerciseState::Finished,
        next_step(ExerciseState::Failed(failure), event) == stopped(failure),
        after_classification(Ok(ChallangeTypes::Name)).0 is Failed,
        after_classification(Ok(ChallangeTypes::ListenOnly)).0 is Failed,
        after_classification(Err(ClassifyError::UnknownMarker)).0 is Failed,
        after_classification(Ok(ChallangeTypes::Ignore)).1 is Advance,
        next_step(ExerciseState::Classified(ChallangeTypes::Ignore), ExerciseEvent::Advanced).0
            == ExerciseState::Advanced,
{
}

/// Whether there is a solver for exercises of this kind.
pub open spec fn solvable(kind: ChallangeTypes) -> bool {
    match kind {
        ChallangeTypes::Select => true,
        ChallangeTypes::Translate => true,
        ChallangeTypes::Assist => true,
        ChallangeTypes::Match => true,
        ChallangeTypes::PartialReverseTranslate => true,
        ChallangeTypes::Name => false,
        ChallangeTypes::ListenOnly => false,
        ChallangeTypes::Ignore => false,
    }
}

/// The loop never asks for a solver that does not exist, and it asks for a
/// solver only on having classified the exercise as of that kind. It aborts
/// exactly when it fails, with the failure it failed for.
pub proof fn lemma_solver_exists(state: ExerciseState, event: ExerciseEvent)
    ensures
        next_step(state, event).1 matches ExerciseAction::Solve(kind) ==> solvable(kind)
            && state == ExerciseState::Idle && next_step(state, event).0
            == ExerciseState::Classified(kind),
        next_step(state, event).0 matches ExerciseState::Failed(failure) <==> next_step(
            state,
            event,
        ).1 matches ExerciseAction::Abort(_),
        next_step(state, event).0 matches ExerciseState::Failed(failure) ==> next_step(
            state,
            event,
        ).1 == ExerciseAction::Abort(failure),
{
}

/// Whether `location` is the one that the page shows between lessons.
pub fn at_lesson_boundary(location: &str) -> (there: bool)
    ensures
        there == (location@ == lesson_boundary()),
{
    same_text(location, "https://www.duolingo.com/learn")
}

/// Where the loop starts, and what the caller is to do first.
pub fn start() -> (first: (ExerciseState, ExerciseAction))
    ensures
        first == (ExerciseState::Idle, ExerciseAction::ReadMarker),
{
    (ExerciseState::Idle, ExerciseAction::ReadMarker)
}

/// One step of the exercise loop: from the state and what the caller
/// reports to the next state and what the caller is to do next.
pub fn solve_challanges(state: ExerciseState, event: &ExerciseEvent) -> (next: (
    ExerciseState,
    ExerciseAction,
))
    ensures
        next == next_step(state, *event),
{
    match state {
        ExerciseState::Idle => match event {
            ExerciseEvent::Marker(marker) => {
                let marker: Option<&str> = match marker {
                    Some(marker) => Some(marker.as_str()),
                    None => None,
                };
                match get_challange_type(marker) {
                    Err(_) => out_of_service(Failure::UnknownMarker),
                    Ok(ChallangeTypes::Name) => out_of_service(
                        Failure::Unsupported(ChallangeTypes::Name),
                    ),
                    Ok(ChallangeTypes::ListenOnly) => out_of_service(
                        Failure::Unsupported(ChallangeTypes::ListenOnly),
                    ),
                    Ok(ChallangeTypes::Ignore) => (
                        ExerciseState::Classified(ChallangeTypes::Ignore),
                        ExerciseAction::Advance { pause_millis: IGNORE_PAUSE_MILLIS },
                    ),
                    Ok(kind) => (ExerciseState::Classified(kind), ExerciseAction::Solve(kind)),
                }
            },
            _ => out_of_service(Failure::OutOfOrder),
        },
        ExerciseState::Classified(ChallangeTypes::Ignore) => match event {
            ExerciseEvent::Advanced => (ExerciseState::Advanced, ExerciseAction::ReadLocation),
            _ => out_of_service(Failure::OutOfOrder),
        },
        ExerciseState::Classified(_) => match event {
            ExerciseEvent::Solved => (
                ExerciseState::Solved,
                ExerciseAction::Advance { pause_millis: 0 },
            ),
            _ => out_of_service(Failure::OutOfOrder),
        },
        ExerciseState::Solved => match event {
            ExerciseEvent::Advanced => (ExerciseState::Advanced, ExerciseAction::ReadLocation),
            _ => out_of_service(Failure::OutOfOrder),
        },
        ExerciseState::Advanced => match event {
            ExerciseEvent::Location(location) => if at_lesson_boundary(location.as_str()) {
                (ExerciseState::Finished, ExerciseAction::Finish)
            } else {
                (ExerciseState::Idle, ExerciseAction::ReadMarker)
            },
            _ => out_of_service(Failure::OutOfOrder),
        },
        ExerciseState::Finished => (ExerciseState::Finished, ExerciseAction::Finish),
        ExerciseState::Failed(failure) => out_of_service(failure),
    }
}

/// Stops the loop.
fn out_of_service(failure: Failure) -> (next: (ExerciseState, ExerciseAction))
    ensures
        next == stopped(failure),
{
    (ExerciseState::Failed(failure), ExerciseAction::Abort(failure))
}

} // verus!
