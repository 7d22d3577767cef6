use arete::review_loop::all_schedulable;
use arete::{Date, Exercise, ReviewAction, ReviewEvent, ReviewPhase, ReviewRun, ReviewSession};

const MINUTE: i64 = 60_000;

fn stored(id: i32, due: i32) -> Exercise {
    let mut e = Exercise::new_on("question", "source", "answer", Date::from_day_number(due));
    e.id = Some(id);
    e
}

#[test]
fn zero_minute_box_leaves_all_three_due() {
    let today = Date::from_day_number(738_000);
    let exercises = vec![stored(3, 737_990), stored(2, 737_995), stored(1, 738_000)];
    let mut run = ReviewRun::with_session(exercises, ReviewSession::started_at(0, Some(0)));
    // the box is exceeded once a whole minute has passed
    let action = run.step_at(ReviewEvent::Start, MINUTE, today);
    assert_eq!(action, ReviewAction::TimeboxExceeded { remaining: 3 });
    assert_eq!(run.phase, ReviewPhase::Done);
    assert_eq!(run.exercises[0].due_at.day_number(), 737_990);
    assert_eq!(run.exercises[1].due_at.day_number(), 737_995);
    assert_eq!(run.exercises[2].due_at.day_number(), 738_000);
    for e in run.exercises.iter() {
        assert_eq!(e.consecutive_successful_reviews, 0);
        assert_eq!(e.update_interval, 0);
    }
}

#[test]
fn one_exercise_known_and_confirmed() {
    let today = Date::from_day_number(738_000);
    let mut run =
        ReviewRun::with_session(vec![stored(9, 737_999)], ReviewSession::started_at(0, None));
    let mut persisted = Vec::new();
    let mut event = ReviewEvent::Start;
    let mut actions = Vec::new();
    loop {
        let action = run.step_at(event, MINUTE, today);
        actions.push(action);
        event = match action {
            ReviewAction::Present { .. } => ReviewEvent::Judgment(Some(0)),
            ReviewAction::RevealAndConfirm { .. } => ReviewEvent::Confirmation(Some(0)),
            ReviewAction::Persist { index, .. } | ReviewAction::RevealAndPersist { index } => {
                persisted.push(index);
                ReviewEvent::Continued
            }
            _ => break,
        };
    }
    assert_eq!(
        actions,
        vec![
            ReviewAction::Present { index: 0 },
            ReviewAction::RevealAndConfirm { index: 0 },
            ReviewAction::Persist { index: 0, correct: true },
            ReviewAction::Finished { reviewed: 1 },
        ]
    );
    assert_eq!(persisted, vec![0]);
    let e = &run.exercises[0];
    assert_eq!(e.due_at, today.plus_days(1));
    assert_eq!(e.consecutive_successful_reviews, 1);
    assert_eq!(e.update_interval, 1);
}

#[test]
fn known_but_not_confirmed_counts_as_incorrect() {
    let today = Date::from_day_number(738_000);
    let mut e = stored(4, 737_000);
    e.consecutive_successful_reviews = 3;
    e.update_interval = 4;
    let mut run = ReviewRun::with_session(vec![e], ReviewSession::started_at(0, None));
    assert_eq!(run.step_at(ReviewEvent::Start, 0, today), ReviewAction::Present { index: 0 });
    assert_eq!(
        run.step_at(ReviewEvent::Judgment(Some(0)), 0, today),
        ReviewAction::RevealAndConfirm { index: 0 }
    );
    assert_eq!(
        run.step_at(ReviewEvent::Confirmation(Some(1)), 0, today),
        ReviewAction::Persist { index: 0, correct: false }
    );
    assert_eq!(run.exercises[0].due_at, today);
    assert_eq!(run.exercises[0].consecutive_successful_reviews, 0);
    assert_eq!(run.exercises[0].update_interval, 0);
}

#[test]
fn not_known_is_rescheduled_for_today() {
    let today = Date::from_day_number(738_000);
    let mut run = ReviewRun::with_session(
        vec![stored(2, 737_000), stored(1, 737_000)],
        ReviewSession::started_at(0, None),
    );
    assert_eq!(run.step_at(ReviewEvent::Start, 0, today), ReviewAction::Present { index: 0 });
    assert_eq!(
        run.step_at(ReviewEvent::Judgment(Some(1)), 0, today),
        ReviewAction::RevealAndPersist { index: 0 }
    );
    assert_eq!(run.exercises[0].due_at, today);
    assert_eq!(run.step_at(ReviewEvent::Continued, 0, today), ReviewAction::Present { index: 1 });
    assert_eq!(run.exercises[1].due_at.day_number(), 737_000);
}

#[test]
fn timebox_checked_before_each_exercise() {
    let today = Date::from_day_number(738_000);
    let mut run = ReviewRun::with_session(
        vec![stored(3, 737_000), stored(2, 737_000), stored(1, 737_000)],
        ReviewSession::started_at(0, Some(5)),
    );
    assert_eq!(run.step_at(ReviewEvent::Start, 0, today), ReviewAction::Present { index: 0 });
    run.step_at(ReviewEvent::Judgment(Some(1)), 0, today);
    assert_eq!(
        run.step_at(ReviewEvent::Continued, 6 * MINUTE, today),
        ReviewAction::TimeboxExceeded { remaining: 2 }
    );
    assert!(run.is_done());
    assert_eq!(run.exercises[1].due_at.day_number(), 737_000);
}

#[test]
fn quit_and_edit_stops_without_scheduling() {
    let today = Date::from_day_number(738_000);
    let mut run =
        ReviewRun::with_session(vec![stored(7, 737_000)], ReviewSession::started_at(0, None));
    run.step_at(ReviewEvent::Start, 0, today);
    assert_eq!(
        run.step_at(ReviewEvent::Judgment(Some(2)), 0, today),
        ReviewAction::ExportAndQuit { index: 0 }
    );
    assert!(run.is_done());
    assert_eq!(run.exercises[0].due_at.day_number(), 737_000);
}

#[test]
fn no_selection_aborts() {
    let today = Date::from_day_number(738_000);
    let mut run =
        ReviewRun::with_session(vec![stored(7, 737_000)], ReviewSession::started_at(0, None));
    run.step_at(ReviewEvent::Start, 0, today);
    assert_eq!(run.step_at(ReviewEvent::Judgment(None), 0, today), ReviewAction::Abort);
    assert!(run.is_done());
    let mut run =
        ReviewRun::with_session(vec![stored(7, 737_000)], ReviewSession::started_at(0, None));
    run.step_at(ReviewEvent::Start, 0, today);
    run.step_at(ReviewEvent::Judgment(Some(0)), 0, today);
    assert_eq!(run.step_at(ReviewEvent::Confirmation(None), 0, today), ReviewAction::Abort);
    assert_eq!(run.exercises[0].due_at.day_number(), 737_000);
}

#[test]
fn events_out_of_turn_are_ignored() {
    let today = Date::from_day_number(738_000);
    let mut run =
        ReviewRun::with_session(vec![stored(7, 737_000)], ReviewSession::started_at(0, None));
    assert_eq!(run.step_at(ReviewEvent::Continued, 0, today), ReviewAction::Ignored);
    assert_eq!(run.phase, ReviewPhase::Ready);
    run.step_at(ReviewEvent::Start, 0, today);
    assert_eq!(run.step_at(ReviewEvent::Confirmation(Some(0)), 0, today), ReviewAction::Ignored);
    assert_eq!(run.phase, ReviewPhase::Judging);
}

#[test]
fn nothing_due_starts_no_run() {
    assert!(ReviewRun::begin(Vec::new(), None).is_none());
    let run = ReviewRun::begin(vec![stored(1, 1)], Some(10)).unwrap();
    assert_eq!(run.session.time_box_minutes(), 10);
    assert_eq!(run.phase, ReviewPhase::Ready);
    assert_eq!(run.position, 0);
}

#[test]
fn schedulable_check() {
    assert!(all_schedulable(&vec![stored(1, 1), stored(2, 2)]));
    let mut bad = stored(3, 3);
    bad.update_interval = -1;
    assert!(!all_schedulable(&vec![stored(1, 1), bad]));
    let mut full = stored(4, 4);
    full.consecutive_successful_reviews = i32::MAX;
    assert!(!all_schedulable(&vec![full]));
}
