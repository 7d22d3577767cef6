use vstd::prelude::*;

use crate::clock::{now_millis, todays_date};
use crate::date::Date;
use crate::exercise::{Exercise, SchedulePolicy, MAX_INTERVAL};
use crate::review_session::ReviewSession;

verus! {

/// Where a review run stands.
#[derive(Clone, Copy, Debug, PartialEq, Eq, Structural)]
pub enum ReviewPhase {
    /// Created; waiting for `Start`.
    Ready,
    /// The current exercise is shown; waiting for the know / don't know /
    /// quit choice.
    Judging,
    /// The answer is shown; waiting for the yes / no confirmation.
    Confirming,
    /// The current exercise was rescheduled; waiting until the user moves on.
    Continuing,
    /// The run is over.
    Done,
}

/// What the driver of a run reports back.
#[derive(Clone, Copy, Debug, PartialEq, Eq, Structural)]
pub enum ReviewEvent {
    /// Begin the run.
    Start,
    /// The choice made in the know / don't know / quit menu (`None`: none).
    Judgment(Option<usize>),
    /// The choice made in the yes / no menu (`None`: none).
    Confirmation(Option<usize>),
    /// The user asked for the next exercise.
    Continued,
}

/// What the driver of a run is to do next.
#[derive(Clone, Copy, Debug, PartialEq, Eq, Structural)]
pub enum ReviewAction {
    /// Show the exercise at `index` without its answer and ask for a
    /// judgment.
    Present { index: usize },
    /// Show the answer and source of the exercise at `index` and ask whether
    /// the recollection matched.
    RevealAndConfirm { index: usize },
    /// Show the answer and source of the exercise at `index`, which was
    /// rescheduled as not known; store it and wait for the user to move on.
    RevealAndPersist { index: usize },
    /// Store the exercise at `index`, rescheduled with the outcome `correct`,
    /// report that outcome and wait for the user to move on.
    Persist { index: usize, correct: bool },
    /// Hand the exercise at `index`, unscheduled, to the export for editing;
    /// the run is over.
    ExportAndQuit { index: usize },
    /// The time box ran out with `remaining` exercises left untouched; the
    /// run is over.
    TimeboxExceeded { remaining: usize },
    /// Every exercise was reviewed; the run is over.
    Finished { reviewed: usize },
    /// A menu was left without a choice; the run is over.
    Abort,
    /// The event did not fit the phase; nothing changed.
    Ignored,
}

/// A review run as a value: the due exercises in order, the session's
/// clock, the position of the current exercise and the phase.
pub struct ReviewRunModel {
    pub exercises: Seq<Exercise>,
    pub session: ReviewSession,
    pub position: usize,
    pub phase: ReviewPhase,
}

/// An exercise that a review can reschedule: counters non-negative and a
/// streak that can still grow.
pub open spec fn schedulable(e: Exercise) -> bool {
    e.wf() && e.consecutive_successful_reviews < i32::MAX
}

/// A day on which an exercise can be rescheduled by the full longest
/// interval.
pub open spec fn schedulable_day(today: Date) -> bool {
    today.day_number + MAX_INTERVAL <= i32::MAX
}

impl ReviewRunModel {
    /// The run moved to the exercise at `position`: it ends when none is
    /// left or when the time box is exceeded at `now`, else it presents that
    /// exercise.
    pub open spec fn at_boundary(self, position: usize, now: int) -> (ReviewRunModel, ReviewAction) {
        let n = self.exercises.len();
        if position >= n {
            (
                ReviewRunModel { position, phase: ReviewPhase::Done, ..self },
                ReviewAction::Finished { reviewed: n as usize },
            )
        } else if self.session.exceeded_at(now) {
            (
                ReviewRunModel { position, phase: ReviewPhase::Done, ..self },
                ReviewAction::TimeboxExceeded { remaining: (n - position) as usize },
            )
        } else {
            (
                ReviewRunModel { position, phase: ReviewPhase::Judging, ..self },
                ReviewAction::Present { index: position },
            )
        }
    }

    /// The run with the current exercise reviewed on `today`.
    pub open spec fn with_review(self, correct: bool, today: Date) -> ReviewRunModel {
        ReviewRunModel {
            exercises: self.exercises.update(
                self.position as int,
                self.exercises[self.position as int].reviewed(
                    correct,
                    today,
                    SchedulePolicy::standard_value(),
                ),
            ),
            phase: ReviewPhase::Continuing,
            ..self
        }
    }

    /// The run and the action after `event`, at the moment `now`
    /// (milliseconds since the epoch) on the day `today`.
    pub open spec fn step(self, event: ReviewEvent, now: int, today: Date) -> (
        ReviewRunModel,
        ReviewAction,
    ) {
        let pos = self.position;
        let done = ReviewRunModel { phase: ReviewPhase::Done, ..self };
        match self.phase {
            ReviewPhase::Ready => match event {
                ReviewEvent::Start => self.at_boundary(pos, now),
                _ => (self, ReviewAction::Ignored),
            },
            ReviewPhase::Judging => match event {
                ReviewEvent::Judgment(Some(choice)) => if choice == 0 {
                    (
                        ReviewRunModel { phase: ReviewPhase::Confirming, ..self },
                        ReviewAction::RevealAndConfirm { index: pos },
                    )
                } else if choice == 1 {
                    (self.with_review(false, today), ReviewAction::RevealAndPersist { index: pos })
                } else {
                    (done, ReviewAction::ExportAndQuit { index: pos })
                },
                ReviewEvent::Judgment(None) => (done, ReviewAction::Abort),
                _ => (self, ReviewAction::Ignored),
            },
            ReviewPhase::Confirming => match event {
                ReviewEvent::Confirmation(Some(choice)) => (
                    self.with_review(choice == 0, today),
                    ReviewAction::Persist { index: pos, correct: choice == 0 },
                ),
                ReviewEvent::Confirmation(None) => (done, ReviewAction::Abort),
                _ => (self, ReviewAction::Ignored),
            },
            ReviewPhase::Continuing => match event {
                ReviewEvent::Continued => self.at_boundary((pos + 1) as usize, now),
                _ => (self, ReviewAction::Ignored),
            },
            ReviewPhase::Done => (self, ReviewAction::Ignored),
        }
    }

    /// The position from which exercises are still to be reviewed.
    pub open spec fn first_pending(self) -> int {
        if self.phase == ReviewPhase::Continuing {
            self.position + 1
        } else {
            self.position as int
        }
    }

    /// The position is within the run (on an exercise while one is being
    /// reviewed), every exercise has non-negative counters, and those still
    /// to be reviewed can be rescheduled.
    pub open spec fn wf(self) -> bool {
        &&& self.position <= self.exercises.len()
        &&& (self.phase == ReviewPhase::Judging || self.phase == ReviewPhase::Confirming
            || self.phase == ReviewPhase::Continuing) ==> self.position < self.exercises.len()
        &&& forall|i: int| 0 <= i < self.exercises.len() ==> (#[trigger] self.exercises[i]).wf()
        &&& forall|i: int|
            self.first_pending() <= i < self.exercises.len() ==> schedulable(
                #[trigger] self.exercises[i],
            )
    }
}

/// A review run over the due exercises, driven one event at a time.
pub struct ReviewRun {
    pub exercises: Vec<Exercise>,
    pub session: ReviewSession,
    pub position: usize,
    pub phase: ReviewPhase,
}

impl View for ReviewRun {
    type V = ReviewRunModel;

    open spec fn view(&self) -> ReviewRunModel {
        ReviewRunModel {
            exercises: self.exercises@,
            session: self.session,
            position: self.position,
            phase: self.phase,
        }
    }
}

/// Whether every exercise in `exercises` can be rescheduled.
pub fn all_schedulable(exercises: &Vec<Exercise>) -> (r: bool)
    ensures
        r == forall|i: int| 0 <= i < exercises@.len() ==> schedulable(#[trigger] exercises@[i]),
{
    let mut i: usize = 0;
    while i < exercises.len()
        invariant
            i <= exercises@.len(),
            forall|j: int| 0 <= j < i ==> schedulable(#[trigger] exercises@[j]),
        decreases exercises@.len() - i,
    {
        let e = &exercises[i];
        if !(e.update_interval >= 0 && e.consecutive_successful_reviews >= 0
            && e.consecutive_successful_reviews < i32::MAX) {
            return false;
        }
        i = i + 1;
    }
    true
}

impl ReviewRun {
    /// A run over `exercises` timed by `session`, waiting for `Start`.
    pub fn with_session(exercises: Vec<Exercise>, session: ReviewSession) -> (r: ReviewRun)
        requires
            forall|i: int| 0 <= i < exercises@.len() ==> schedulable(#[trigger] exercises@[i]),
        ensures
            r@ == (ReviewRunModel {
                exercises: exercises@,
                session,
                position: 0,
                phase: ReviewPhase::Ready,
            }),
            r@.wf(),
    {
        ReviewRun { exercises, session, position: 0, phase: ReviewPhase::Ready }
    }

    /// A run over the due `exercises` with a session starting now, or
    /// `None` when nothing is due (and then no session is started).
    pub fn begin(exercises: Vec<Exercise>, time_box_minutes: Option<i64>) -> (r: Option<ReviewRun>)
        requires
            forall|i: int| 0 <= i < exercises@.len() ==> schedulable(#[trigger] exercises@[i]),
        ensures
            exercises@.len() == 0 <==> r is None,
            r matches Some(run) ==> {
                &&& run@.exercises == exercises@
                &&& run@.position == 0
                &&& run@.phase == ReviewPhase::Ready
                &&& run@.session.time_box == match time_box_minutes {
                    Some(m) => m,
                    None => crate::review_session::REVIEW_SESSION_TIME_BOX_DEFAULT_MINUTES,
                }
                &&& run@.wf()
            },
    {
        if exercises.len() == 0 {
            None
        } else {
            let session = ReviewSession::new(time_box_minutes);
            Some(ReviewRun::with_session(exercises, session))
        }
    }

    /// Whether the run is over.
    pub fn is_done(&self) -> (r: bool)
        ensures
            r == (self.phase == ReviewPhase::Done),
    {
        self.phase == ReviewPhase::Done
    }

    fn at_boundary(&mut self, position: usize, now: i64) -> (r: ReviewAction)
        requires
            old(self)@.wf(),
            position <= old(self)@.exercises.len(),
            forall|i: int|
                position <= i < old(self)@.exercises.len() ==> schedulable(
                    #[trigger] old(self)@.exercises[i],
                ),
        ensures
            (final(self)@, r) == old(self)@.at_boundary(position, now as int),
            final(self)@.wf(),
    {
        self.position = position;
        if position >= self.exercises.len() {
            self.phase = ReviewPhase::Done;
            ReviewAction::Finished { reviewed: self.exercises.len() }
        } else if self.session.has_exceeded_timebox_at(now) {
            self.phase = ReviewPhase::Done;
            ReviewAction::TimeboxExceeded { remaining: self.exercises.len() - position }
        } else {
            self.phase = ReviewPhase::Judging;
            ReviewAction::Present { index: position }
        }
    }

    fn review_current(&mut self, correct: bool, today: Date)
        requires
            old(self)@.wf(),
            old(self).phase == ReviewPhase::Judging || old(self).phase == ReviewPhase::Confirming,
            schedulable_day(today),
        ensures
            final(self)@ == old(self)@.with_review(correct, today),
            final(self)@.wf(),
    {
        let pos = self.position;
        self.exercises[pos].update_repetition_interval_on(correct, today);
        self.phase = ReviewPhase::Continuing;
        assert(self.exercises@ =~= old(self)@.with_review(correct, today).exercises);
    }

    /// Applies `event` at the moment `now` (milliseconds since the epoch)
    /// on the day `today`, and says what to do next.
    pub fn step_at(&mut self, event: ReviewEvent, now: i64, today: Date) -> (r: ReviewAction)
        requires
            old(self)@.wf(),
            schedulable_day(today),
        ensures
            (final(self)@, r) == old(self)@.step(event, now as int, today),
            final(self)@.wf(),
    {
        let pos = self.position;
        let n = self.exercises.len();
        match self.phase {
            ReviewPhase::Ready => match event {
                ReviewEvent::Start => self.at_boundary(pos, now),
                _ => ReviewAction::Ignored,
            },
            ReviewPhase::Judging => match event {
                ReviewEvent::Judgment(Some(choice)) => if choice == 0 {
                    self.phase = ReviewPhase::Confirming;
                    ReviewAction::RevealAndConfirm { index: pos }
                } else if choice == 1 {
                    self.review_current(false, today);
                    ReviewAction::RevealAndPersist { index: pos }
                } else {
                    self.phase = ReviewPhase::Done;
                    ReviewAction::ExportAndQuit { index: pos }
                },
                ReviewEvent::Judgment(None) => {
                    self.phase = ReviewPhase::Done;
                    ReviewAction::Abort
                },
                _ => ReviewAction::Ignored,
            },
            ReviewPhase::Confirming => match event {
                ReviewEvent::Confirmation(Some(choice)) => {
                    self.review_current(choice == 0, today);
                    ReviewAction::Persist { index: pos, correct: choice == 0 }
                },
                ReviewEvent::Confirmation(None) => {
                    self.phase = ReviewPhase::Done;
                    ReviewAction::Abort
                },
                _ => ReviewAction::Ignored,
            },
            ReviewPhase::Continuing => match event {
                ReviewEvent::Continued => {
                    assert(pos < n);
                    self.at_boundary(pos + 1, now)
                },
                _ => ReviewAction::Ignored,
            },
            ReviewPhase::Done => ReviewAction::Ignored,
        }
    }

    /// Applies `event` at the present moment, on today's date.
    pub fn step(&mut self, event: ReviewEvent) -> (r: ReviewAction)
        requires
            old(self)@.wf(),
        ensures
            exists|now: int, today: Date|
                (final(self)@, r) == #[trigger] old(self)@.step(event, now, today),
            final(self)@.wf(),
    {
        let now = now_millis();
        let today = todays_date();
        self.step_at(event, now, today)
    }
}

} // verus!
