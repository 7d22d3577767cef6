use arete::{Date, Exercise, SchedulePolicy, EASINESS_FACTOR, MAX_INTERVAL, ONE_DAY};
use chrono::Datelike;

fn todays_date() -> Date {
    Date::from_day_number(chrono::Local::now().date_naive().num_days_from_ce())
}

// test interval updating
#[test]
fn test_exercise_update_interval_calculations() {
    let mut exercise = Exercise::new("", "", "");

    let today = todays_date();

    assert_eq!(exercise.due_at, today);
    assert_eq!(exercise.consecutive_successful_reviews, 0);
    assert_eq!(exercise.update_interval, 0);

    exercise.update_repetition_interval(true);
    assert_eq!(exercise.due_at, today.plus_days(1));
    assert_eq!(exercise.consecutive_successful_reviews, 1);
    assert_eq!(exercise.update_interval, 1);

    exercise.update_repetition_interval(true);
    assert_eq!(exercise.due_at, today.plus_days(2));
    assert_eq!(exercise.consecutive_successful_reviews, 2);
    assert_eq!(exercise.update_interval, 2);

    exercise.update_repetition_interval(true);
    assert_eq!(exercise.due_at, today.plus_days(4));
    assert_eq!(exercise.consecutive_successful_reviews, 3);
    assert_eq!(exercise.update_interval, 4);

    exercise.update_repetition_interval(true);
    assert_eq!(exercise.due_at, today.plus_days(8));
    assert_eq!(exercise.consecutive_successful_reviews, 4);
    assert_eq!(exercise.update_interval, 8);

    exercise.update_repetition_interval(true);
    assert_eq!(exercise.due_at, today.plus_days(16));
    assert_eq!(exercise.consecutive_successful_reviews, 5);
    assert_eq!(exercise.update_interval, 16);

    exercise.update_repetition_interval(true);
    assert_eq!(exercise.due_at, today.plus_days(32));
    assert_eq!(exercise.consecutive_successful_reviews, 6);
    assert_eq!(exercise.update_interval, 32);

    exercise.update_repetition_interval(true);
    assert_eq!(exercise.due_at, today.plus_days(64));
    assert_eq!(exercise.consecutive_successful_reviews, 7);
    assert_eq!(exercise.update_interval, 64);

    for i in 1..100 {
        exercise.update_repetition_interval(true);
        assert_eq!(exercise.due_at, today.plus_days(90));
        assert_eq!(exercise.consecutive_successful_reviews, 7 + i);
        assert_eq!(exercise.update_interval, 90);
    }

    exercise.update_repetition_interval(false);
    assert_eq!(exercise.due_at, today);
    assert_eq!(exercise.consecutive_successful_reviews, 0);
    assert_eq!(exercise.update_interval, 0);

    exercise.update_repetition_interval(true);
    assert_eq!(exercise.due_at, today.plus_days(1));
    assert_eq!(exercise.consecutive_successful_reviews, 1);
    assert_eq!(exercise.update_interval, 1);
}

// a simulated review update process: the exercise as the store hands it
// back, reviewed, and the id under which it is written back
#[test]
fn test_review_crud_update_process() {
    let today = todays_date();
    let mut saved_exercise = Exercise::new("foo", "bar", "baz");
    saved_exercise.id = Some(1);

    assert_eq!(saved_exercise.id, Some(1));
    assert_eq!(saved_exercise.created_at, today);
    assert_eq!(saved_exercise.due_at, today);
    assert_eq!(saved_exercise.description, "foo");
    assert_eq!(saved_exercise.source, "bar");
    assert_eq!(saved_exercise.reference_answer, "baz");
    assert_eq!(saved_exercise.update_interval, 0);
    assert_eq!(saved_exercise.consecutive_successful_reviews, 0);

    saved_exercise.update_repetition_interval(true);

    assert_eq!(saved_exercise.id, Some(1));
    assert_eq!(saved_exercise.created_at, today);
    assert_eq!(saved_exercise.due_at, today.plus_days(1));
    assert_eq!(saved_exercise.description, "foo");
    assert_eq!(saved_exercise.source, "bar");
    assert_eq!(saved_exercise.reference_answer, "baz");
    assert_eq!(saved_exercise.update_interval, 1);
    assert_eq!(saved_exercise.consecutive_successful_reviews, 1);

    assert_eq!(saved_exercise.id_for_update().unwrap(), 1);
}

#[test]
fn doubling_sequence_on_changing_days() {
    let mut exercise = Exercise::new_on("q", "s", "a", Date::from_day_number(700_000));
    let expected = [1, 2, 4, 8, 16, 32, 64, 90, 90, 90];
    for (k, interval) in expected.iter().enumerate() {
        let day = Date::from_day_number(700_000 + 3 * k as i32);
        exercise.update_repetition_interval_on(true, day);
        assert_eq!(exercise.update_interval, *interval);
        assert_eq!(exercise.due_at, day.plus_days(*interval));
        assert_eq!(exercise.consecutive_successful_reviews, k as i32 + 1);
    }
}

#[test]
fn incorrect_review_resets_at_any_streak() {
    for (streak, interval) in [(0, 0), (1, 1), (3, 4), (7, 64), (250, 90)] {
        let mut exercise = Exercise::new_on("q", "s", "a", Date::from_day_number(10));
        exercise.id = Some(5);
        exercise.consecutive_successful_reviews = streak;
        exercise.update_interval = interval;
        exercise.due_at = Date::from_day_number(40);
        let day = Date::from_day_number(738_000);
        exercise.update_repetition_interval_on(false, day);
        assert_eq!(exercise.consecutive_successful_reviews, 0);
        assert_eq!(exercise.update_interval, 0);
        assert_eq!(exercise.due_at, day);
        assert_eq!(exercise.id, Some(5));
        assert_eq!(exercise.created_at, Date::from_day_number(10));
        assert_eq!(exercise.description, "q");
    }
}

#[test]
fn streak_seven_interval_sixty_four_caps_at_ninety() {
    let day = Date::from_day_number(738_500);
    let mut exercise = Exercise::new_on("q", "s", "a", Date::from_day_number(738_000));
    exercise.consecutive_successful_reviews = 7;
    exercise.update_interval = 64;
    exercise.update_repetition_interval_on(true, day);
    assert_eq!(exercise.update_interval, 90);
    assert_eq!(exercise.due_at, day.plus_days(90));
    assert_eq!(exercise.due_at.day_number(), 738_590);
    assert_eq!(exercise.consecutive_successful_reviews, 8);
}

#[test]
fn due_today_reviewed_incorrect_stays_due_today() {
    let today = Date::from_day_number(738_123);
    let mut exercise = Exercise::new_on("q", "s", "a", today);
    exercise.consecutive_successful_reviews = 2;
    exercise.update_interval = 2;
    exercise.update_repetition_interval_on(false, today);
    assert_eq!(exercise.due_at, today);
    assert_eq!(exercise.consecutive_successful_reviews, 0);
    assert_eq!(exercise.update_interval, 0);
}

#[test]
fn standard_policy_constants() {
    let policy = SchedulePolicy::standard();
    assert_eq!(policy.one_day, ONE_DAY);
    assert_eq!(policy.max_interval, MAX_INTERVAL);
    assert_eq!(policy.easiness_factor, EASINESS_FACTOR);
    assert_eq!((ONE_DAY, MAX_INTERVAL, EASINESS_FACTOR), (1, 90, 2));
    assert_eq!(policy.interval_after_success(1, 77), 1);
    assert_eq!(policy.interval_after_success(2, 1), 2);
    assert_eq!(policy.interval_after_success(5, 45), 90);
    assert_eq!(policy.interval_after_success(5, 44), 88);
    assert_eq!(policy.interval_after_success(9, i32::MAX), 90);
}

#[test]
fn custom_policy_grows_by_its_factor() {
    let policy = SchedulePolicy { one_day: 2, max_interval: 100, easiness_factor: 3 };
    let today = Date::from_day_number(1_000);
    let mut exercise = Exercise::new_on("q", "s", "a", today);
    let mut seen = Vec::new();
    for _ in 0..5 {
        exercise.apply_review(true, today, &policy);
        seen.push(exercise.update_interval);
    }
    assert_eq!(seen, vec![2, 6, 18, 54, 100]);
    assert_eq!(exercise.due_at.day_number(), 1_100);
}

#[test]
fn fresh_exercise_is_due_on_creation_day() {
    let day = Date::from_day_number(738_000);
    let exercise = Exercise::new_on("desc", "src", "answer", day);
    assert_eq!(exercise.id, None);
    assert_eq!(exercise.created_at, day);
    assert_eq!(exercise.due_at, day);
    assert_eq!(exercise.description, "desc");
    assert_eq!(exercise.source, "src");
    assert_eq!(exercise.reference_answer, "answer");
    assert_eq!(exercise.update_interval, 0);
    assert_eq!(exercise.consecutive_successful_reviews, 0);
}

#[test]
fn exercises_are_equal_only_by_stored_id() {
    let day = Date::from_day_number(738_000);
    let mut a = Exercise::new_on("a", "b", "c", day);
    let mut b = Exercise::new_on("x", "y", "z", day);
    assert!(a != b);
    a.id = Some(3);
    assert!(a != b);
    b.id = Some(3);
    assert!(a == b);
    b.id = Some(4);
    assert!(a != b);
}

#[test]
fn date_arithmetic() {
    let d = Date::from_day_number(100);
    assert_eq!(d.plus_days(90).day_number(), 190);
    assert_eq!(d.plus_days(-100).day_number(), 0);
}
