use vstd::arithmetic::power2::{lemma2_to64, pow2};
use vstd::prelude::*;
use vstd::string::*;

use crate::clock::{todays_date, DAY_NUMBER_BOUND};
use crate::date::Date;
use crate::text::{
    indented_lines, pad_multiline_string, push_signed_decimal, signed_decimal, trim, trimmed,
    yaml_string_is_empty,
};

verus! {

/// The interval, in days, after the first successful review.
pub const ONE_DAY: i32 = 1;

/// The longest interval, in days, that the scheduler ever sets.
pub const MAX_INTERVAL: i32 = ONE_DAY * 90;

/// The factor by which the interval grows after each further success.
pub const EASINESS_FACTOR: i32 = 2;

/// The constants of the interval algorithm, held as a value so that the
/// scheduler can be run with other settings.
#[derive(Clone, Copy, Debug, PartialEq, Eq, Structural)]
pub struct SchedulePolicy {
    pub one_day: i32,
    pub max_interval: i32,
    pub easiness_factor: i32,
}

impl SchedulePolicy {
    /// Non-negative intervals and factor, and a first interval that does not
    /// exceed the longest one.
    pub open spec fn wf(self) -> bool {
        &&& 0 <= self.one_day <= self.max_interval
        &&& self.easiness_factor >= 0
    }

    /// The interval after a successful review that brings the streak to
    /// `streak_after`, when the interval before it was `interval`.
    pub open spec fn next_interval(self, streak_after: int, interval: int) -> int {
        if streak_after == 1 {
            self.one_day as int
        } else {
            let grown = interval * self.easiness_factor;
            if grown < self.max_interval {
                grown
            } else {
                self.max_interval as int
            }
        }
    }

    /// The fixed policy: one day first, then doubling, capped at ninety days.
    pub open spec fn is_standard(self) -> bool {
        &&& self.one_day == ONE_DAY
        &&& self.max_interval == MAX_INTERVAL
        &&& self.easiness_factor == EASINESS_FACTOR
    }

    /// The standard policy as a spec value.
    pub open spec fn standard_value() -> SchedulePolicy {
        SchedulePolicy { one_day: ONE_DAY, max_interval: MAX_INTERVAL, easiness_factor: EASINESS_FACTOR }
    }

    pub fn standard() -> (r: SchedulePolicy)
        ensures
            r == Self::standard_value(),
            r.is_standard(),
            r.wf(),
    {
        SchedulePolicy { one_day: ONE_DAY, max_interval: MAX_INTERVAL, easiness_factor: EASINESS_FACTOR }
    }

    /// The interval after a successful review, as `next_interval` states it.
    pub fn interval_after_success(&self, streak_after: i32, interval: i32) -> (r: i32)
        requires
            self.wf(),
            interval >= 0,
        ensures
            r == self.next_interval(streak_after as int, interval as int),
            0 <= r <= self.max_interval,
    {
        if streak_after == 1 {
            self.one_day
        } else {
            proof {
                let (a, b) = (interval as int, self.easiness_factor as int);
                assert(0 <= a * b <= i32::MAX as int * i32::MAX as int) by (nonlinear_arith)
                    requires
                        0 <= a <= i32::MAX,
                        0 <= b <= i32::MAX,
                ;
            }
            let grown: i64 = (interval as i64) * (self.easiness_factor as i64);
            if grown < self.max_interval as i64 {
                grown as i32
            } else {
                self.max_interval
            }
        }
    }
}

/// A question/answer record and its scheduling state.
#[derive(Debug)]
pub struct Exercise {
    pub id: Option<i32>,
    pub created_at: Date,
    pub due_at: Date,
    pub description: String,
    pub source: String,
    pub reference_answer: String,
    pub update_interval: i32,
    pub consecutive_successful_reviews: i32,
}

/// Two exercises are the same record when both have been stored and their
/// ids agree.
impl PartialEq for Exercise {
    fn eq(&self, other: &Exercise) -> (r: bool) {
        match (self.id, other.id) {
            (Some(a), Some(b)) => a == b,
            _ => false,
        }
    }
}

impl vstd::std_specs::cmp::PartialEqSpecImpl for Exercise {
    open spec fn obeys_eq_spec() -> bool {
        true
    }

    open spec fn eq_spec(&self, other: &Exercise) -> bool {
        self.id is Some && other.id is Some && self.id == other.id
    }
}

/// An error of the exercise logic, with its message.
#[derive(Debug)]
pub struct ExerciseError {
    pub message: String,
}

impl ExerciseError {
    /// The message, as the error is shown to the user.
    pub fn message(&self) -> (r: String)
        ensures
            r@ == self.message@,
    {
        self.message.clone()
    }
}

/// An error with the message `error_string`.
pub fn make_error(error_string: String) -> (r: ExerciseError)
    ensures
        r.message@ == error_string@,
{
    ExerciseError { message: error_string }
}

fn error_from(message: &str) -> (r: ExerciseError)
    ensures
        r.message@ == message@,
{
    make_error(String::from_str(message))
}

/// The content of a stored exercise as it is written out for editing and
/// read back in.
#[derive(Debug)]
pub struct ExportedExercise {
    pub id: i32,
    pub description: String,
    pub source: String,
    pub reference_answer: String,
}

/// The content of a new exercise as an import file gives it.
#[derive(Debug)]
pub struct ImportedExercise {
    pub description: String,
    pub source: String,
    pub reference_answer: String,
}

/// Whether a text field counts as empty in an import or update file.
pub open spec fn is_blank(s: Seq<char>) -> bool {
    trimmed(s).len() == 0 || s == seq!['~']
}

/// The name of the first blank field of a record, checked in the order
/// description, source, reference answer.
pub open spec fn first_blank_field(
    description: Seq<char>,
    source: Seq<char>,
    reference_answer: Seq<char>,
) -> Option<Seq<char>> {
    if is_blank(description) {
        Some("description"@)
    } else if is_blank(source) {
        Some("source"@)
    } else if is_blank(reference_answer) {
        Some("reference answer"@)
    } else {
        None
    }
}

/// The name of the first blank field of `r`, if any.
pub open spec fn imported_blank_field(r: ImportedExercise) -> Option<Seq<char>> {
    first_blank_field(r.description@, r.source@, r.reference_answer@)
}

/// The message for a blank `field` in the record numbered `number` (from
/// one) of an import file.
pub open spec fn import_error_message(number: int, field: Seq<char>) -> Seq<char> {
    "Exercise "@ + signed_decimal(number) + " has a blank or missing "@ + field + "."@
}

/// The message for a blank `field` in an update file.
pub open spec fn update_error_message(field: Seq<char>) -> Seq<char> {
    "Exercise has a blank or missing "@ + field + "."@
}

/// A new, never stored exercise created on `today` with the given content.
pub open spec fn is_fresh(
    e: Exercise,
    description: Seq<char>,
    source: Seq<char>,
    reference_answer: Seq<char>,
    today: Date,
) -> bool {
    &&& e.id is None
    &&& e.created_at == today
    &&& e.due_at == today
    &&& e.description@ == description
    &&& e.source@ == source
    &&& e.reference_answer@ == reference_answer
    &&& e.update_interval == 0
    &&& e.consecutive_successful_reviews == 0
}

/// The YAML document in which an exercise is written out for editing: its
/// id, then each text field as a literal block, indented by two spaces.
pub open spec fn yaml_document(
    id: int,
    description: Seq<char>,
    source: Seq<char>,
    reference_answer: Seq<char>,
) -> Seq<char> {
    "---\nid: "@ + signed_decimal(id) + "\ndescription: |+\n"@ + indented_lines(description)
        + "\nsource: |+\n"@ + indented_lines(source) + "\nreference_answer: |+\n"@
        + indented_lines(reference_answer) + "\n"@
}

impl Exercise {
    /// A new exercise created on `today`: not yet stored, due `today`, with
    /// no reviews behind it.
    pub fn new_on(description: &str, source: &str, reference_answer: &str, today: Date) -> (r:
        Exercise)
        ensures
            is_fresh(r, description@, source@, reference_answer@, today),
            r.wf(),
    {
        Exercise {
            id: None,
            created_at: today,
            due_at: today,
            description: String::from_str(description),
            source: String::from_str(source),
            reference_answer: String::from_str(reference_answer),
            update_interval: 0,
            consecutive_successful_reviews: 0,
        }
    }

    /// A new exercise created today (the local calendar day).
    pub fn new(description: &str, source: &str, reference_answer: &str) -> (r: Exercise)
        ensures
            is_fresh(r, description@, source@, reference_answer@, r.created_at),
            -DAY_NUMBER_BOUND <= r.created_at.day_number <= DAY_NUMBER_BOUND,
            r.wf(),
    {
        let today = todays_date();
        Exercise::new_on(description, source, reference_answer, today)
    }

    /// Takes over the text fields of `updated_exercise`; id and scheduling
    /// stay as they are.
    pub fn update_with_values(&mut self, updated_exercise: &ExportedExercise)
        ensures
            final(self).description@ == updated_exercise.description@,
            final(self).source@ == updated_exercise.source@,
            final(self).reference_answer@ == updated_exercise.reference_answer@,
            final(self).id == old(self).id,
            final(self).created_at == old(self).created_at,
            final(self).due_at == old(self).due_at,
            final(self).update_interval == old(self).update_interval,
            final(self).consecutive_successful_reviews == old(self).consecutive_successful_reviews,
    {
        self.description = updated_exercise.description.clone();
        self.source = updated_exercise.source.clone();
        self.reference_answer = updated_exercise.reference_answer.clone();
    }

    /// The YAML document for editing this exercise, which must have been
    /// stored.
    pub fn yaml_export_text(&self) -> (r: Result<String, ExerciseError>)
        ensures
            self.id is None <==> r is Err,
            r matches Err(e) ==> e.message@ == "Cannot export an exercise that has not been saved"@,
            r matches Ok(text) ==> text@ == yaml_document(
                self.id.unwrap() as int,
                self.description@,
                self.source@,
                self.reference_answer@,
            ),
    {
        match self.id {
            None => Err(error_from("Cannot export an exercise that has not been saved")),
            Some(id) => {
                let mut out = String::from_str("---\nid: ");
                push_signed_decimal(&mut out, id as i128);
                out.append("\ndescription: |+\n");
                let d = pad_multiline_string(self.description.as_str());
                out.append(d.as_str());
                out.append("\nsource: |+\n");
                let s = pad_multiline_string(self.source.as_str());
                out.append(s.as_str());
                out.append("\nreference_answer: |+\n");
                let a = pad_multiline_string(self.reference_answer.as_str());
                out.append(a.as_str());
                out.append("\n");
                assert(out@ =~= yaml_document(
                    id as int,
                    self.description@,
                    self.source@,
                    self.reference_answer@,
                ));
                Ok(out)
            },
        }
    }

    /// The id under which a stored exercise is updated; an exercise that was
    /// never stored has none.
    pub fn id_for_update(&self) -> (r: Result<i32, ExerciseError>)
        ensures
            self.id is None <==> r is Err,
            r matches Ok(id) ==> self.id == Some(id),
            r matches Err(e) ==> e.message@ == "Cannot insert, has no PK"@,
    {
        match self.id {
            Some(id) => Ok(id),
            None => Err(error_from("Cannot insert, has no PK")),
        }
    }

    /// Whether the exercise may be inserted as a new record: only one that
    /// was never stored may.
    pub fn check_insertable(&self) -> (r: Result<(), ExerciseError>)
        ensures
            self.id is None <==> r is Ok,
            r matches Err(e) ==> e.message@ == "Cannot insert, has PK"@,
    {
        match self.id {
            None => Ok(()),
            Some(_) => Err(error_from("Cannot insert, has PK")),
        }
    }

    pub open spec fn wf(&self) -> bool {
        &&& self.update_interval >= 0
        &&& self.consecutive_successful_reviews >= 0
    }

    /// What a review on `today` makes of this exercise: on a success the
    /// streak grows by one, the interval follows `policy` and the exercise
    /// is due that many days after `today`; on a failure streak and interval
    /// drop to zero and the exercise is due `today`. Nothing else changes.
    pub open spec fn reviewed(self, correct: bool, today: Date, policy: SchedulePolicy) -> Exercise {
        if correct {
            let streak = self.consecutive_successful_reviews + 1;
            let interval = policy.next_interval(streak, self.update_interval as int);
            Exercise {
                due_at: Date { day_number: (today.day_number + interval) as i32 },
                update_interval: interval as i32,
                consecutive_successful_reviews: streak as i32,
                ..self
            }
        } else {
            Exercise {
                due_at: today,
                update_interval: 0,
                consecutive_successful_reviews: 0,
                ..self
            }
        }
    }

    /// Records a review on `today` under `policy`.
    pub fn apply_review(&mut self, correct: bool, today: Date, policy: &SchedulePolicy)
        requires
            old(self).wf(),
            policy.wf(),
            today.day_number + policy.max_interval <= i32::MAX,
            correct ==> old(self).consecutive_successful_reviews < i32::MAX,
        ensures
            *final(self) == old(self).reviewed(correct, today, *policy),
            final(self).wf(),
    {
        self.due_at = today;
        if correct {
            self.consecutive_successful_reviews = self.consecutive_successful_reviews + 1;
            self.update_interval = policy.interval_after_success(
                self.consecutive_successful_reviews,
                self.update_interval,
            );
            self.due_at = today.plus_days(self.update_interval);
        } else {
            self.consecutive_successful_reviews = 0;
            self.update_interval = 0;
        }
    }

    /// Records a review on `today` under the standard policy.
    pub fn update_repetition_interval_on(&mut self, correct: bool, today: Date)
        requires
            old(self).wf(),
            today.day_number + MAX_INTERVAL <= i32::MAX,
            correct ==> old(self).consecutive_successful_reviews < i32::MAX,
        ensures
            *final(self) == old(self).reviewed(correct, today, SchedulePolicy::standard_value()),
            final(self).wf(),
            !correct ==> final(self).consecutive_successful_reviews == 0
                && final(self).update_interval == 0 && final(self).due_at == today,
    {
        let policy = SchedulePolicy::standard();
        self.apply_review(correct, today, &policy);
    }

    /// Records a review today (the local calendar day) under the standard
    /// policy.
    pub fn update_repetition_interval(&mut self, correct: bool)
        requires
            old(self).wf(),
            correct ==> old(self).consecutive_successful_reviews < i32::MAX,
        ensures
            exists|today: Date|
                *final(self) == #[trigger] old(self).reviewed(
                    correct,
                    today,
                    SchedulePolicy::standard_value(),
                ),
            final(self).wf(),
    {
        let today = todays_date();
        self.update_repetition_interval_on(correct, today);
    }
}

/// The name of the first blank field of a record, as `first_blank_field`
/// states it.
fn blank_field(description: &String, source: &String, reference_answer: &String) -> (r: Option<
    &'static str,
>)
    ensures
        r is Some <==> first_blank_field(description@, source@, reference_answer@) is Some,
        r matches Some(name) ==> first_blank_field(description@, source@, reference_answer@)
            == Some(name@),
{
    if yaml_string_is_empty(description) {
        Some("description")
    } else if yaml_string_is_empty(source) {
        Some("source")
    } else if yaml_string_is_empty(reference_answer) {
        Some("reference answer")
    } else {
        None
    }
}

/// Turns the records of an import file into new exercises created on
/// `today`, their text fields trimmed. Fails on the first record with a
/// blank field, naming the record (from one) and the field.
pub fn exercises_from_imported(records: &Vec<ImportedExercise>, today: Date) -> (r: Result<
    Vec<Exercise>,
    ExerciseError,
>)
    requires
        records@.len() < i64::MAX,
    ensures
        r is Err <==> exists|i: int|
            0 <= i < records@.len() && (#[trigger] imported_blank_field(records@[i])) is Some,
        r matches Err(e) ==> exists|i: int|
            0 <= i < records@.len() && (forall|j: int|
                0 <= j < i ==> (#[trigger] imported_blank_field(records@[j])) is None)
                && e.message@ == import_error_message(
                i + 1,
                (#[trigger] imported_blank_field(records@[i])).unwrap(),
            ),
        r matches Ok(v) ==> {
            &&& v@.len() == records@.len()
            &&& forall|i: int|
                0 <= i < records@.len() ==> is_fresh(
                    #[trigger] v@[i],
                    trimmed(records@[i].description@),
                    trimmed(records@[i].source@),
                    trimmed(records@[i].reference_answer@),
                    today,
                )
        },
{
    let mut i: usize = 0;
    while i < records.len()
        invariant
            i <= records@.len(),
            records@.len() < i64::MAX,
            forall|j: int| 0 <= j < i ==> (#[trigger] imported_blank_field(records@[j])) is None,
        decreases records@.len() - i,
    {
        let rec = &records[i];
        match blank_field(&rec.description, &rec.source, &rec.reference_answer) {
            Some(field) => {
                let mut message = String::from_str("Exercise ");
                push_signed_decimal(&mut message, i as i128 + 1);
                message.append(" has a blank or missing ");
                message.append(field);
                message.append(".");
                assert(message@ =~= import_error_message(
                    i + 1,
                    imported_blank_field(records@[i as int]).unwrap(),
                ));
                return Err(make_error(message));
            },
            None => {},
        }
        i = i + 1;
    }
    let mut out: Vec<Exercise> = Vec::new();
    let mut k: usize = 0;
    while k < records.len()
        invariant
            k <= records@.len(),
            out@.len() == k,
            forall|i: int|
                0 <= i < k ==> is_fresh(
                    #[trigger] out@[i],
                    trimmed(records@[i].description@),
                    trimmed(records@[i].source@),
                    trimmed(records@[i].reference_answer@),
                    today,
                ),
        decreases records@.len() - k,
    {
        let rec = &records[k];
        let d = trim(rec.description.as_str());
        let s = trim(rec.source.as_str());
        let a = trim(rec.reference_answer.as_str());
        out.push(Exercise::new_on(d.as_str(), s.as_str(), a.as_str(), today));
        k = k + 1;
    }
    Ok(out)
}

/// Checks the content read back from an update file: every text field must
/// be non-blank, and each is trimmed; the id is kept.
pub fn check_updated_exercise(exercise: ExportedExercise) -> (r: Result<
    ExportedExercise,
    ExerciseError,
>)
    ensures
        r is Err <==> first_blank_field(
            exercise.description@,
            exercise.source@,
            exercise.reference_answer@,
        ) is Some,
        r matches Err(e) ==> e.message@ == update_error_message(
            first_blank_field(
                exercise.description@,
                exercise.source@,
                exercise.reference_answer@,
            ).unwrap(),
        ),
        r matches Ok(u) ==> {
            &&& u.id == exercise.id
            &&& u.description@ == trimmed(exercise.description@)
            &&& u.source@ == trimmed(exercise.source@)
            &&& u.reference_answer@ == trimmed(exercise.reference_answer@)
        },
{
    match blank_field(&exercise.description, &exercise.source, &exercise.reference_answer) {
        Some(field) => {
            let mut message = String::from_str("Exercise has a blank or missing ");
            message.append(field);
            message.append(".");
            assert(message@ =~= update_error_message(
                first_blank_field(
                    exercise.description@,
                    exercise.source@,
                    exercise.reference_answer@,
                ).unwrap(),
            ));
            Err(make_error(message))
        },
        None => {
            let description = trim(exercise.description.as_str());
            let source = trim(exercise.source.as_str());
            let reference_answer = trim(exercise.reference_answer.as_str());
            Ok(ExportedExercise { id: exercise.id, description, source, reference_answer })
        },
    }
}

/// The exercise after a successful review on each of `days`, in order.
pub open spec fn reviewed_correctly_on(e: Exercise, days: Seq<Date>, policy: SchedulePolicy) -> Exercise
    decreases days.len(),
{
    if days.len() == 0 {
        e
    } else {
        reviewed_correctly_on(e, days.drop_last(), policy).reviewed(true, days.last(), policy)
    }
}

/// The interval after `k` successes in a row under the standard policy:
/// 1, 2, 4, 8, 16, 32, 64, then 90 for good.
pub open spec fn standard_interval(k: nat) -> int {
    if k == 0 {
        0
    } else if k <= 7 {
        pow2((k - 1) as nat) as int
    } else {
        90
    }
}

/// Successful reviews of a fresh exercise under the standard policy give the
/// intervals 1, 2, 4, 8, 16, 32, 64, 90, 90, ..., and after each the
/// exercise is due that many days after the day of the review.
pub proof fn lemma_correct_reviews_double_then_cap(e: Exercise, days: Seq<Date>)
    requires
        e.consecutive_successful_reviews == 0,
        e.update_interval == 0,
        days.len() < i32::MAX,
        forall|i: int| 0 <= i < days.len() ==> #[trigger] days[i].day_number + MAX_INTERVAL <= i32::MAX,
    ensures
        ({
            let r = reviewed_correctly_on(e, days, SchedulePolicy::standard_value());
            &&& r.consecutive_successful_reviews == days.len()
            &&& r.update_interval == standard_interval(days.len())
            &&& days.len() > 0 ==> r.due_at.day_number == days.last().day_number + r.update_interval
        }),
    decreases days.len(),
{
    lemma2_to64();
    if days.len() > 0 {
        let prefix = days.drop_last();
        assert forall|i: int| 0 <= i < prefix.len() implies #[trigger] prefix[i].day_number
            + MAX_INTERVAL <= i32::MAX by {
            assert(prefix[i] == days[i]);
        }
        lemma_correct_reviews_double_then_cap(e, prefix);
        assert(days.last() == days[days.len() - 1]);
        let k = days.len();
        if 2 <= k <= 7 {
            assert(pow2((k - 1) as nat) == 2 * pow2((k - 2) as nat));
        }
    }
}

} // verus!
