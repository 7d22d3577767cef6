use arete::{
    check_updated_exercise, exercises_from_imported, make_error, Date, Exercise, ExportedExercise,
    ImportedExercise,
};

fn imported(d: &str, s: &str, r: &str) -> ImportedExercise {
    ImportedExercise {
        description: d.to_string(),
        source: s.to_string(),
        reference_answer: r.to_string(),
    }
}

#[test]
fn test_export_saved_exercise() {
    let mut saved_exercise = Exercise::new("foo", "bar", "baz");
    saved_exercise.id = Some(1);

    let data = saved_exercise.yaml_export_text().expect("Failed to export");
    assert!(data.contains("description: |+\n  foo"));
    assert!(data.contains("source: |+\n  bar"));
    assert!(data.contains("id: 1"));
    assert!(data.contains("reference_answer: |+\n  baz"));

    saved_exercise.description = "quux".to_string();
    saved_exercise.source = "quux 2".to_string();
    saved_exercise.reference_answer = "quux 3".to_string();
    let data = saved_exercise.yaml_export_text().expect("Failed to export");

    assert!(data.contains("description: |+\n  quux"));
    assert!(data.contains("source: |+\n  quux 2"));
    assert!(data.contains("id: 1"));
    assert!(data.contains("reference_answer: |+\n  quux 3"));

    // the content as it comes back from the file
    let read_back = ExportedExercise {
        id: 1,
        description: "quux\n".to_string(),
        source: "quux 2\n".to_string(),
        reference_answer: "quux 3\n".to_string(),
    };
    let parsed_exercise = check_updated_exercise(read_back).expect("should not error out");

    saved_exercise.update_with_values(&parsed_exercise);
    assert_eq!(saved_exercise.id_for_update().expect("update failed"), 1);
    assert_eq!(&saved_exercise.description, "quux");
}

#[test]
fn export_document_layout() {
    let mut e = Exercise::new_on("line one\nline two", "src", "a\n  b", Date::from_day_number(1));
    e.id = Some(42);
    assert_eq!(
        e.yaml_export_text().unwrap(),
        "---\nid: 42\ndescription: |+\n  line one\n  line two\nsource: |+\n  src\nreference_answer: |+\n  a\n    b\n"
    );
}

#[test]
fn unsaved_exercise_cannot_be_exported_or_updated() {
    let e = Exercise::new_on("a", "b", "c", Date::from_day_number(1));
    assert_eq!(
        e.yaml_export_text().unwrap_err().message(),
        "Cannot export an exercise that has not been saved"
    );
    assert_eq!(e.id_for_update().unwrap_err().message(), "Cannot insert, has no PK");
    assert!(e.check_insertable().is_ok());
    let mut saved = Exercise::new_on("a", "b", "c", Date::from_day_number(1));
    saved.id = Some(8);
    assert_eq!(saved.check_insertable().unwrap_err().message(), "Cannot insert, has PK");
}

#[test]
fn imported_records_become_fresh_trimmed_exercises() {
    let today = Date::from_day_number(738_000);
    let records = vec![
        imported("foo\nmore foo\none more, should be trimmed.\n", " here is a single-line source ", "x\n"),
        imported("single-line here", "this is multiple lines\nsee, multiple lines\n", "y"),
    ];
    let exercises = exercises_from_imported(&records, today).unwrap();
    assert_eq!(exercises.len(), 2);
    assert_eq!(exercises[0].description, "foo\nmore foo\none more, should be trimmed.");
    assert_eq!(exercises[0].source, "here is a single-line source");
    assert_eq!(exercises[0].reference_answer, "x");
    assert_eq!(exercises[1].source, "this is multiple lines\nsee, multiple lines");
    for e in exercises.iter() {
        assert_eq!(e.id, None);
        assert_eq!(e.created_at, today);
        assert_eq!(e.due_at, today);
        assert_eq!(e.update_interval, 0);
        assert_eq!(e.consecutive_successful_reviews, 0);
    }
}

#[test]
fn blank_fields_are_reported_by_record_and_field() {
    let today = Date::from_day_number(1);
    let only_tag = vec![imported("~", "", "")];
    assert_eq!(
        exercises_from_imported(&only_tag, today).unwrap_err().message(),
        "Exercise 1 has a blank or missing description."
    );
    let blank_source = vec![imported("d", "  \n", "r")];
    assert_eq!(
        exercises_from_imported(&blank_source, today).unwrap_err().message(),
        "Exercise 1 has a blank or missing source."
    );
    let blank_answer = vec![imported("d", "s", "")];
    assert_eq!(
        exercises_from_imported(&blank_answer, today).unwrap_err().message(),
        "Exercise 1 has a blank or missing reference answer."
    );
    let second = vec![imported("d", "s", "r"), imported("d", "s", "r"), imported("d", "~", "")];
    assert_eq!(
        exercises_from_imported(&second, today).unwrap_err().message(),
        "Exercise 3 has a blank or missing source."
    );
    assert!(exercises_from_imported(&Vec::new(), today).unwrap().is_empty());
}

#[test]
fn updated_exercise_checks() {
    let ok = check_updated_exercise(ExportedExercise {
        id: 5,
        description: "  d  ".to_string(),
        source: "s\n".to_string(),
        reference_answer: "\tr".to_string(),
    })
    .unwrap();
    assert_eq!((ok.id, ok.description.as_str(), ok.source.as_str(), ok.reference_answer.as_str()), (5, "d", "s", "r"));
    let err = |d: &str, s: &str, r: &str| {
        check_updated_exercise(ExportedExercise {
            id: 1,
            description: d.to_string(),
            source: s.to_string(),
            reference_answer: r.to_string(),
        })
        .unwrap_err()
        .message()
    };
    assert_eq!(err("", "s", "r"), "Exercise has a blank or missing description.");
    assert_eq!(err("d", "~", "r"), "Exercise has a blank or missing source.");
    assert_eq!(err("d", "s", " "), "Exercise has a blank or missing reference answer.");
}

#[test]
fn errors_carry_their_message() {
    assert_eq!(make_error("boom".to_string()).message(), "boom");
}
