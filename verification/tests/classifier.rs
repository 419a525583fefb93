use lesson_solver::classifier::{
    get_challange_type, token_of, type_of_token, ChallangeTypes, ClassifyError,
};

#[test]
fn every_known_marker_is_classified() {
    let table = [
        ("challenge-translate", ChallangeTypes::Translate),
        ("challenge-select", ChallangeTypes::Select),
        ("challenge-assist", ChallangeTypes::Assist),
        ("challenge-name", ChallangeTypes::Name),
        ("challenge-partialReverseTranslate", ChallangeTypes::PartialReverseTranslate),
        ("challenge-match", ChallangeTypes::Match),
        ("challenge-listen", ChallangeTypes::ListenOnly),
    ];
    for (token, kind) in table {
        assert_eq!(get_challange_type(Some(token)), Ok(kind));
        assert_eq!(type_of_token(token), Some(kind));
        let marker = format!("challenge {}", token);
        assert_eq!(get_challange_type(Some(&marker)), Ok(kind));
        let twice = format!("challenge challenge {}", token);
        assert_eq!(get_challange_type(Some(&twice)), Ok(kind));
    }
}

#[test]
fn absent_marker_means_nothing_to_solve() {
    assert_eq!(get_challange_type(None), Ok(ChallangeTypes::Ignore));
}

#[test]
fn unknown_marker_is_an_error() {
    for marker in [
        "challenge-speak",
        "challenge challenge-speak",
        "challenge-Select",
        "challenge-select ",
        " challenge-select",
        "select",
        "challenge",
        "challenge ",
        "",
    ] {
        assert_eq!(get_challange_type(Some(marker)), Err(ClassifyError::UnknownMarker));
    }
}

#[test]
fn token_is_the_marker_without_its_prefix() {
    assert_eq!(token_of("challenge challenge-select"), "challenge-select");
    assert_eq!(token_of("challenge-select"), "challenge-select");
    assert_eq!(token_of("challenge challenge "), "");
    assert_eq!(type_of_token(""), None);
}
