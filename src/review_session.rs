use vstd::prelude::*;
use vstd::string::*;

use crate::clock::now_millis;
use crate::exercise::Exercise;
use crate::text::{push_signed_decimal, push_spaces, signed_decimal, spaces};

verus! {

/// The time box of a session for which none is given, in minutes.
pub const REVIEW_SESSION_TIME_BOX_DEFAULT_MINUTES: i64 = 20;

/// The width of a progress line, in characters.
pub const STANDARD_REVIEW_OUTPUT_WIDTH: usize = 80;

/// Milliseconds in a minute.
pub const MILLIS_PER_MINUTE: i128 = 60_000;

/// Whole minutes in `ms` milliseconds, truncated toward zero.
pub open spec fn whole_minutes(ms: int) -> int {
    if ms >= 0 {
        ms / (MILLIS_PER_MINUTE as int)
    } else {
        -((-ms) / (MILLIS_PER_MINUTE as int))
    }
}

/// A review run's clock: when it started, in milliseconds since the Unix
/// epoch, and how many minutes it may take.
#[derive(Clone, Copy, Debug)]
pub struct ReviewSession {
    pub start_millis: i64,
    pub time_box: i64,
}

impl ReviewSession {
    /// Whole minutes from the start to `now` (milliseconds since the epoch).
    pub open spec fn elapsed_at(self, now: int) -> int {
        whole_minutes(now - self.start_millis)
    }

    /// Whether the whole elapsed minutes at `now` exceed the time box.
    pub open spec fn exceeded_at(self, now: int) -> bool {
        self.elapsed_at(now) > self.time_box
    }

    /// The progress indicator at `now`: `"{elapsed}m/{box}m"` within the
    /// time box, `"<Overtime: {elapsed - box}m>"` past it.
    pub open spec fn display_at(self, now: int) -> Seq<char> {
        let e = self.elapsed_at(now);
        if self.exceeded_at(now) {
            "<Overtime: "@ + signed_decimal(e - self.time_box) + "m>"@
        } else {
            signed_decimal(e) + "m/"@ + signed_decimal(self.time_box as int) + "m"@
        }
    }

    /// The time box that `new` gives when none is asked for, in minutes.
    pub fn time_box_default() -> (r: i64)
        ensures
            r == REVIEW_SESSION_TIME_BOX_DEFAULT_MINUTES,
    {
        REVIEW_SESSION_TIME_BOX_DEFAULT_MINUTES
    }

    /// A session that started at `start_millis`, with a time box of
    /// `time_box_minutes`, or of the default when that is `None`.
    pub fn started_at(start_millis: i64, time_box_minutes: Option<i64>) -> (r: ReviewSession)
        ensures
            r.start_millis == start_millis,
            r.time_box == match time_box_minutes {
                Some(m) => m,
                None => REVIEW_SESSION_TIME_BOX_DEFAULT_MINUTES,
            },
    {
        let time_box = match time_box_minutes {
            Some(m) => m,
            None => ReviewSession::time_box_default(),
        };
        ReviewSession { start_millis, time_box }
    }

    /// A session that starts now.
    pub fn new(time_box_minutes: Option<i64>) -> (r: ReviewSession)
        ensures
            r.start_millis >= 0,
            r.time_box == match time_box_minutes {
                Some(m) => m,
                None => REVIEW_SESSION_TIME_BOX_DEFAULT_MINUTES,
            },
    {
        let now = now_millis();
        ReviewSession::started_at(now, time_box_minutes)
    }

    pub fn time_box_minutes(&self) -> (r: i64)
        ensures
            r == self.time_box,
    {
        self.time_box
    }

    /// Whole minutes from the start to `now`, truncated toward zero.
    pub fn elapsed_minutes_at(&self, now: i64) -> (r: i64)
        ensures
            r == self.elapsed_at(now as int),
    {
        let diff: i128 = now as i128 - self.start_millis as i128;
        if diff >= 0 {
            (diff / MILLIS_PER_MINUTE) as i64
        } else {
            let back: i128 = -diff;
            -((back / MILLIS_PER_MINUTE) as i64)
        }
    }

    /// Whole minutes from the start to the present moment.
    pub fn elapsed_minutes(&self) -> (r: i64)
        ensures
            exists|now: int| now >= 0 && r == #[trigger] self.elapsed_at(now),
    {
        let now = now_millis();
        self.elapsed_minutes_at(now)
    }

    /// Whether the whole minutes elapsed at `now` strictly exceed the time box.
    pub fn has_exceeded_timebox_at(&self, now: i64) -> (r: bool)
        ensures
            r == self.exceeded_at(now as int),
    {
        self.elapsed_minutes_at(now) > self.time_box
    }

    /// Whether the whole minutes elapsed by now strictly exceed the time box.
    pub fn has_exceeded_timebox(&self) -> (r: bool)
        ensures
            exists|now: int| now >= 0 && r == #[trigger] self.exceeded_at(now),
    {
        let now = now_millis();
        self.has_exceeded_timebox_at(now)
    }

    /// Appends the progress indicator at `now` to `out`.
    fn push_display(&self, out: &mut String, now: i64)
        ensures
            final(out)@ == old(out)@ + self.display_at(now as int),
    {
        let e = self.elapsed_minutes_at(now);
        if e > self.time_box {
            out.append("<Overtime: ");
            push_signed_decimal(out, e as i128 - self.time_box as i128);
            out.append("m>");
            assert(final(out)@ =~= old(out)@ + self.display_at(now as int));
        } else {
            push_signed_decimal(out, e as i128);
            out.append("m/");
            push_signed_decimal(out, self.time_box as i128);
            out.append("m");
            assert(final(out)@ =~= old(out)@ + self.display_at(now as int));
        }
    }

    /// The progress indicator at `now`.
    pub fn display_string_at(&self, now: i64) -> (r: String)
        ensures
            r@ == self.display_at(now as int),
    {
        let mut out = String::new();
        self.push_display(&mut out, now);
        assert(out@ =~= self.display_at(now as int));
        out
    }

    /// The progress indicator at the present moment.
    pub fn display_string(&self) -> (r: String)
        ensures
            exists|now: int| now >= 0 && r@ == #[trigger] self.display_at(now),
    {
        let now = now_millis();
        self.display_string_at(now)
    }

    /// The left part of a progress line: the exercise's place in the run
    /// and its id, or -1 when it has none.
    pub open spec fn progress_label(i: int, exercise_cnt: int, id: Option<i32>) -> Seq<char> {
        let shown_id = match id {
            Some(v) => v as int,
            None => -1,
        };
        "Exercise "@ + signed_decimal(i + 1) + "/"@ + signed_decimal(exercise_cnt) + " - ID "@
            + signed_decimal(shown_id)
    }

    /// The spaces between the two parts of a progress line whose parts are
    /// `used` characters long: enough to reach the line width, at least one.
    pub open spec fn padding(used: int) -> nat {
        if used + 1 >= STANDARD_REVIEW_OUTPUT_WIDTH {
            1
        } else {
            (STANDARD_REVIEW_OUTPUT_WIDTH - used) as nat
        }
    }

    /// The progress line at `now` for the `i`-th (from zero) of
    /// `exercise_cnt` exercises: the label, the progress indicator right
    /// aligned to the line width, and a line feed.
    pub open spec fn progress_line_at(
        self,
        i: int,
        exercise_cnt: int,
        id: Option<i32>,
        now: int,
    ) -> Seq<char> {
        let left = Self::progress_label(i, exercise_cnt, id);
        let right = self.display_at(now);
        left + spaces(Self::padding((left.len() + right.len()) as int)) + right + "\n"@
    }

    /// The progress line at `now` for the `i`-th of `exercise_cnt` exercises.
    pub fn exercise_display_str_at(
        &self,
        i: usize,
        exercise_cnt: usize,
        exercise: &Exercise,
        now: i64,
    ) -> (r: String)
        ensures
            r@ == self.progress_line_at(i as int, exercise_cnt as int, exercise.id, now as int),
    {
        let mut left = String::from_str("Exercise ");
        push_signed_decimal(&mut left, i as i128 + 1);
        left.append("/");
        push_signed_decimal(&mut left, exercise_cnt as i128);
        left.append(" - ID ");
        let shown_id: i32 = match exercise.id {
            Some(v) => v,
            None => -1,
        };
        push_signed_decimal(&mut left, shown_id as i128);
        assert(left@ =~= Self::progress_label(i as int, exercise_cnt as int, exercise.id));
        let right = self.display_string_at(now);
        let used = left.as_str().unicode_len() as u128 + right.as_str().unicode_len() as u128;
        let pad: usize = if used + 1 >= STANDARD_REVIEW_OUTPUT_WIDTH as u128 {
            1
        } else {
            STANDARD_REVIEW_OUTPUT_WIDTH - used as usize
        };
        let mut out = left;
        push_spaces(&mut out, pad);
        out.append(right.as_str());
        out.append("\n");
        assert(out@ =~= self.progress_line_at(
            i as int,
            exercise_cnt as int,
            exercise.id,
            now as int,
        ));
        out
    }

    /// The progress line at the present moment.
    pub fn exercise_display_str(&self, i: usize, exercise_cnt: usize, exercise: &Exercise) -> (r:
        String)
        ensures
            exists|now: int|
                now >= 0 && r@ == #[trigger] self.progress_line_at(
                    i as int,
                    exercise_cnt as int,
                    exercise.id,
                    now,
                ),
    {
        let now = now_millis();
        self.exercise_display_str_at(i, exercise_cnt, exercise, now)
    }
}

/// The time box is exceeded only after whole minutes past it: not when
/// exactly the time box has elapsed, nor at any moment of the minute after,
/// and from one further minute on.
pub proof fn lemma_timebox_boundary(s: ReviewSession, d: int)
    requires
        s.time_box >= 0,
    ensures
        !s.exceeded_at(s.start_millis + s.time_box * MILLIS_PER_MINUTE),
        0 <= d < (s.time_box + 1) * MILLIS_PER_MINUTE ==> !s.exceeded_at(s.start_millis + d),
        s.exceeded_at(s.start_millis + (s.time_box + 1) * MILLIS_PER_MINUTE),
        d >= (s.time_box + 1) * MILLIS_PER_MINUTE ==> s.exceeded_at(s.start_millis + d),
{
    let b = s.time_box as int;
    let m = MILLIS_PER_MINUTE as int;
    assert((b * m) / m == b) by (nonlinear_arith)
        requires
            m == 60000,
    ;
    assert(((b + 1) * m) / m == b + 1) by (nonlinear_arith)
        requires
            m == 60000,
    ;
    if 0 <= d < (b + 1) * m {
        assert(d / m <= b) by (nonlinear_arith)
            requires
                m == 60000,
                0 <= d < (b + 1) * m,
        ;
    }
    if d >= (b + 1) * m {
        assert(d / m >= b + 1) by (nonlinear_arith)
            requires
                m == 60000,
                d >= (b + 1) * m,
                b >= 0,
        ;
    }
}

} // verus!
