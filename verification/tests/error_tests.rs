use obj::error::{make_error, LoadError, LoadErrorKind, ObjError, ObjResult};

const ALL_KINDS: [LoadErrorKind; 8] = [
    LoadErrorKind::UnexpectedStatement,
    LoadErrorKind::WrongNumberOfArguments,
    LoadErrorKind::WrongTypeOfArguments,
    LoadErrorKind::UntriangulatedModel,
    LoadErrorKind::InsufficientData,
    LoadErrorKind::IndexOutOfRange,
    LoadErrorKind::BackslashAtEOF,
    LoadErrorKind::TooBigGroupNumber,
];

#[test]
fn kind_accessor_returns_constructed_kind() {
    for kind in ALL_KINDS {
        let e = LoadError::new(kind, "some context");
        assert_eq!(*e.kind(), kind);
    }
}

#[test]
fn equality_respects_kind() {
    for k1 in ALL_KINDS {
        for k2 in ALL_KINDS {
            let e1 = LoadError::new(k1, "same context");
            let e2 = LoadError::new(k2, "same context");
            if k1 == k2 {
                assert_eq!(e1, e2);
            } else {
                assert_ne!(e1, e2);
            }
        }
    }
}

#[test]
fn equality_respects_message() {
    let e1 = LoadError::new(LoadErrorKind::InsufficientData, "normals");
    let e2 = LoadError::new(LoadErrorKind::InsufficientData, "colors");
    let e3 = LoadError::new(LoadErrorKind::InsufficientData, "normals");
    assert_ne!(e1, e2);
    assert_eq!(e1, e3);
}

#[test]
fn every_kind_has_a_nonempty_summary() {
    for kind in ALL_KINDS {
        assert!(!kind.summary().is_empty());
    }
}

#[test]
fn display_is_summary_colon_message_for_every_kind() {
    let expected = [
        "Met unexpected statement",
        "Received wrong number of arguments",
        "Received unexpected type of arguments",
        "Model should be triangulated first to be loaded properly",
        "Model cannot be transformed into requested form",
        "Received index value out of range",
        r"A line is expected after the backslash (\)",
        "Group number exceeded limitation.",
    ];
    for (kind, summary) in ALL_KINDS.into_iter().zip(expected) {
        let e = LoadError::new(kind, "foo");
        assert_eq!(e.to_display_string(), format!("{}: {}", summary, "foo"));
    }
}

#[test]
fn display_example_index_out_of_range() {
    let e = LoadError::new(LoadErrorKind::IndexOutOfRange, "vertex 12");
    assert_eq!(
        e.to_display_string(),
        "Received index value out of range: vertex 12"
    );
}

#[test]
fn io_failure_lifts_to_matching_variant_with_verbatim_display() {
    let cause = std::io::Error::new(std::io::ErrorKind::NotFound, "model file is gone");
    let cause_text = cause.to_string();
    let lifted = ObjError::from(cause);
    assert!(matches!(lifted, ObjError::Io(_)));
    assert_eq!(lifted.to_display_string(), cause_text);
}

#[test]
fn integer_parse_failure_lifts_to_matching_variant_with_verbatim_display() {
    let cause = "twelve".parse::<i32>().unwrap_err();
    let cause_text = cause.to_string();
    let lifted = ObjError::from(cause);
    assert!(matches!(lifted, ObjError::ParseInt(_)));
    assert_eq!(lifted.to_display_string(), cause_text);
}

#[test]
fn float_parse_failure_lifts_to_matching_variant_with_verbatim_display() {
    let cause = "half".parse::<f32>().unwrap_err();
    let cause_text = cause.to_string();
    let lifted = ObjError::from(cause);
    assert!(matches!(lifted, ObjError::ParseFloat(_)));
    assert_eq!(lifted.to_display_string(), cause_text);
}

#[test]
fn semantic_failure_lifts_to_matching_variant_with_verbatim_display() {
    let cause = LoadError::new(LoadErrorKind::UntriangulatedModel, "face with 5 vertices");
    let cause_text = cause.to_display_string();
    let lifted = ObjError::from(cause);
    assert!(matches!(lifted, ObjError::Load(_)));
    assert_eq!(lifted.to_display_string(), cause_text);
}

#[test]
fn semantic_round_trip_preserves_the_error() {
    let original = LoadError::new(LoadErrorKind::WrongNumberOfArguments, "f 1 2");
    let lifted = ObjError::from(original.clone());
    match lifted {
        ObjError::Load(inner) => assert_eq!(inner, original),
        _ => panic!("semantic failure must lift into the semantic variant"),
    }
}

#[test]
fn make_error_returns_the_lifted_semantic_failure() {
    let r: ObjResult<u32> = make_error(LoadErrorKind::TooBigGroupNumber, "g 1 2 3");
    match r {
        Err(ObjError::Load(e)) => {
            assert_eq!(*e.kind(), LoadErrorKind::TooBigGroupNumber);
            assert_eq!(
                e.to_display_string(),
                "Group number exceeded limitation.: g 1 2 3"
            );
        }
        _ => panic!("make_error must return the semantic failure arm"),
    }
}

// A loading operation that raises a semantic failure partway through stops at
// the failure point: statements after it leave no trace in the output.
#[test]
fn failed_load_has_no_effects_past_the_failure_point() {
    fn load_statements(statements: &[&'static str], seen: &mut Vec<&'static str>) -> ObjResult<()> {
        for statement in statements {
            if *statement == "bad" {
                return make_error(LoadErrorKind::UnexpectedStatement, "bad");
            }
            seen.push(statement);
        }
        Ok(())
    }

    let mut seen = Vec::new();
    let r = load_statements(&["v 1", "v 2", "bad", "v 3"], &mut seen);
    assert!(matches!(r, Err(ObjError::Load(_))));
    assert_eq!(seen, vec!["v 1", "v 2"]);
}
