use lesson_solver::language::{allow_list, classify_detection, DetectError, Language};

#[test]
fn opposite_swaps_the_pair() {
    assert_eq!(Language::En.opposite(), Language::Nl);
    assert_eq!(Language::Nl.opposite(), Language::En);
    assert_eq!(Language::En.opposite().opposite(), Language::En);
}

#[test]
fn allow_list_holds_both_languages() {
    assert_eq!(allow_list(), vec![Language::Nl, Language::En]);
}

#[test]
fn codes_are_classified() {
    assert_eq!(classify_detection(Some("nld".to_string())), Ok(Language::Nl));
    assert_eq!(classify_detection(Some("eng".to_string())), Ok(Language::En));
    assert_eq!(classify_detection(Some("deu".to_string())), Err(DetectError::Unsupported));
    assert_eq!(classify_detection(Some("ENG".to_string())), Err(DetectError::Unsupported));
    assert_eq!(classify_detection(Some("".to_string())), Err(DetectError::Unsupported));
    assert_eq!(classify_detection(None), Err(DetectError::Undecided));
}
