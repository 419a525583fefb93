use lesson_solver::classifier::ChallangeTypes;
use lesson_solver::session::{
    at_lesson_boundary, solve_challanges, start, ExerciseAction, ExerciseEvent, ExerciseState,
    Failure, IGNORE_PAUSE_MILLIS, SETTLE_MILLIS, START_DELAY_MILLIS,
};

fn marker(text: &str) -> ExerciseEvent {
    ExerciseEvent::Marker(Some(text.to_string()))
}

fn location(text: &str) -> ExerciseEvent {
    ExerciseEvent::Location(text.to_string())
}

#[test]
fn pauses_are_fixed() {
    assert_eq!(START_DELAY_MILLIS, 3000);
    assert_eq!(IGNORE_PAUSE_MILLIS, 1000);
    assert_eq!(SETTLE_MILLIS, 100);
}

#[test]
fn loop_starts_idle_and_reads_the_marker() {
    assert_eq!(start(), (ExerciseState::Idle, ExerciseAction::ReadMarker));
}

#[test]
fn solvable_exercise_goes_through_every_state() {
    let (state, action) = start();
    assert_eq!(action, ExerciseAction::ReadMarker);
    let (state, action) = solve_challanges(state, &marker("challenge challenge-match"));
    assert_eq!(state, ExerciseState::Classified(ChallangeTypes::Match));
    assert_eq!(action, ExerciseAction::Solve(ChallangeTypes::Match));
    let (state, action) = solve_challanges(state, &ExerciseEvent::Solved);
    assert_eq!(state, ExerciseState::Solved);
    assert_eq!(action, ExerciseAction::Advance { pause_millis: 0 });
    let (state, action) = solve_challanges(state, &ExerciseEvent::Advanced);
    assert_eq!(state, ExerciseState::Advanced);
    assert_eq!(action, ExerciseAction::ReadLocation);
    let (state, action) =
        solve_challanges(state, &location("https://www.duolingo.com/lesson/unit/1"));
    assert_eq!(state, ExerciseState::Idle);
    assert_eq!(action, ExerciseAction::ReadMarker);
}

#[test]
fn every_solvable_kind_is_handed_to_its_solver() {
    for (text, kind) in [
        ("challenge-select", ChallangeTypes::Select),
        ("challenge-translate", ChallangeTypes::Translate),
        ("challenge-assist", ChallangeTypes::Assist),
        ("challenge-match", ChallangeTypes::Match),
        ("challenge-partialReverseTranslate", ChallangeTypes::PartialReverseTranslate),
    ] {
        assert_eq!(
            solve_challanges(ExerciseState::Idle, &marker(text)),
            (ExerciseState::Classified(kind), ExerciseAction::Solve(kind))
        );
    }
}

#[test]
fn page_without_exercise_is_passed_over_after_a_pause() {
    let (state, action) = solve_challanges(ExerciseState::Idle, &ExerciseEvent::Marker(None));
    assert_eq!(state, ExerciseState::Classified(ChallangeTypes::Ignore));
    assert_eq!(action, ExerciseAction::Advance { pause_millis: 1000 });
    let (state, action) = solve_challanges(state, &ExerciseEvent::Advanced);
    assert_eq!(state, ExerciseState::Advanced);
    assert_eq!(action, ExerciseAction::ReadLocation);
}

#[test]
fn lesson_ends_at_the_boundary() {
    assert_eq!(
        solve_challanges(ExerciseState::Advanced, &location("https://www.duolingo.com/learn")),
        (ExerciseState::Finished, ExerciseAction::Finish)
    );
    assert!(at_lesson_boundary("https://www.duolingo.com/learn"));
    assert!(!at_lesson_boundary("https://www.duolingo.com/learn/"));
    assert!(!at_lesson_boundary("https://www.duolingo.com/"));
    assert!(!at_lesson_boundary(""));
}

#[test]
fn kinds_without_solver_stop_the_loop() {
    for (text, kind) in
        [("challenge-name", ChallangeTypes::Name), ("challenge-listen", ChallangeTypes::ListenOnly)]
    {
        assert_eq!(
            solve_challanges(ExerciseState::Idle, &marker(text)),
            (
                ExerciseState::Failed(Failure::Unsupported(kind)),
                ExerciseAction::Abort(Failure::Unsupported(kind))
            )
        );
    }
}

#[test]
fn unknown_marker_stops_the_loop() {
    for text in ["challenge-speak", ""] {
        assert_eq!(
            solve_challanges(ExerciseState::Idle, &marker(text)),
            (
                ExerciseState::Failed(Failure::UnknownMarker),
                ExerciseAction::Abort(Failure::UnknownMarker)
            )
        );
    }
}

#[test]
fn unexpected_event_stops_the_loop() {
    let out_of_order =
        (ExerciseState::Failed(Failure::OutOfOrder), ExerciseAction::Abort(Failure::OutOfOrder));
    assert_eq!(solve_challanges(ExerciseState::Idle, &ExerciseEvent::Solved), out_of_order);
    assert_eq!(solve_challanges(ExerciseState::Idle, &location("x")), out_of_order);
    assert_eq!(
        solve_challanges(
            ExerciseState::Classified(ChallangeTypes::Ignore),
            &ExerciseEvent::Solved
        ),
        out_of_order
    );
    assert_eq!(
        solve_challanges(
            ExerciseState::Classified(ChallangeTypes::Select),
            &ExerciseEvent::Advanced
        ),
        out_of_order
    );
    assert_eq!(solve_challanges(ExerciseState::Solved, &ExerciseEvent::Solved), out_of_order);
    assert_eq!(solve_challanges(ExerciseState::Advanced, &ExerciseEvent::Advanced), out_of_order);
}

#[test]
fn finished_and_failed_loops_stay_as_they_are() {
    for event in [
        marker("challenge-select"),
        ExerciseEvent::Marker(None),
        ExerciseEvent::Solved,
        ExerciseEvent::Advanced,
        location("https://www.duolingo.com/learn"),
    ] {
        assert_eq!(
            solve_challanges(ExerciseState::Finished, &event),
            (ExerciseState::Finished, ExerciseAction::Finish)
        );
        assert_eq!(
            solve_challanges(ExerciseState::Failed(Failure::UnknownMarker), &event),
            (
                ExerciseState::Failed(Failure::UnknownMarker),
                ExerciseAction::Abort(Failure::UnknownMarker)
            )
        );
    }
}
