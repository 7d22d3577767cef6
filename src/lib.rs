//! A spaced-repetition flashcard library: scheduling of exercises, the
//! selection and order of due exercises, time-boxed review sessions, a
//! keyboard selection menu and the review run that ties them together.

pub mod clock;
pub mod config;
pub mod date;
pub mod due;
pub mod exercise;
pub mod horizontal_menu;
pub mod review_loop;
pub mod review_session;
pub mod text;

pub use config::DbConfig;
pub use date::Date;
pub use due::select_due;
pub use exercise::{
    check_updated_exercise, exercises_from_imported, make_error, Exercise, ExerciseError,
    ExportedExercise, ImportedExercise, SchedulePolicy, EASINESS_FACTOR, MAX_INTERVAL, ONE_DAY,
};
pub use horizontal_menu::{
    draw_horizontal_menu, HorizontalMenuOption, KeyEffect, MenuKey, MenuSegment, MenuState,
};
pub use review_loop::{ReviewAction, ReviewEvent, ReviewPhase, ReviewRun};
pub use review_session::{ReviewSession, REVIEW_SESSION_TIME_BOX_DEFAULT_MINUTES};
pub use text::{labeled_field, pad_multiline_string, trim, yaml_string_is_empty};
