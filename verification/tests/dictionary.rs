use lesson_solver::dictionary::{
    LanguageTranslation, Lookup, LookupAll, ServiceFailure, TranslationDictionary,
};
use lesson_solver::language::{DetectError, Language};

fn words(sentence: &str) -> Vec<String> {
    sentence.split(" ").map(|word| word.to_string()).collect()
}

fn key(text: &str, from_language: Language, to_language: Language) -> LanguageTranslation {
    LanguageTranslation { text: text.to_string(), from_language, to_language }
}

#[test]
fn test_translation_dictionary() {
    let mut translation_dictionary = TranslationDictionary::new();

    let words: Vec<String> = "Have a good night sleep and goodnight"
        .split(" ")
        .map(|word| word.to_string())
        .collect();
    let from_language = Language::En;
    let to_language = Language::Nl;

    // The first lookup misses; the service's answer is handed in.
    let request = match translation_dictionary.lookup(&words, from_language, to_language) {
        Lookup::Miss(request) => request,
        Lookup::Hit(found) => panic!("nothing was stored yet, but found {:?}", found),
    };
    assert_eq!(request, key("Have a good night sleep and goodnight", Language::En, Language::Nl));
    let translation = translation_dictionary
        .resolve(request, Ok("Heb een goede nachtrust en welterusten".to_string()))
        .unwrap();
    assert_eq!(translation, "Heb een goede nachtrust en welterusten");

    // Now the translation is in the dictionary and no service is needed.
    let translation = match translation_dictionary.lookup(&words, from_language, to_language) {
        Lookup::Hit(found) => found,
        Lookup::Miss(request) => panic!("asked the service again for {:?}", request),
    };
    assert_eq!(translation, "Heb een goede nachtrust en welterusten");
}

#[test]
fn new_dictionary_is_empty() {
    let dictionary = TranslationDictionary::new();
    assert_eq!(dictionary.translation("dog", Language::En, Language::Nl), None);
    assert_eq!(
        dictionary.lookup(&words("dog"), Language::En, Language::Nl),
        Lookup::Miss(key("dog", Language::En, Language::Nl))
    );
}

#[test]
fn words_and_whole_sentence_share_one_entry() {
    let mut dictionary = TranslationDictionary::new();
    let split = vec!["Have".to_string(), "a".to_string(), "good".to_string(), "night".to_string()];
    let whole = vec!["Have a good night".to_string()];
    let request = match dictionary.lookup(&split, Language::En, Language::Nl) {
        Lookup::Miss(request) => request,
        Lookup::Hit(_) => panic!("hit in an empty dictionary"),
    };
    assert_eq!(request.text, "Have a good night");
    dictionary.resolve(request, Ok("Slaap lekker".to_string())).unwrap();
    assert_eq!(
        dictionary.lookup(&whole, Language::En, Language::Nl),
        Lookup::Hit("Slaap lekker".to_string())
    );
    assert_eq!(
        dictionary.lookup(&split, Language::En, Language::Nl),
        Lookup::Hit("Slaap lekker".to_string())
    );
}

#[test]
fn key_keeps_the_spaces_inside_a_word() {
    let mut dictionary = TranslationDictionary::new();
    dictionary.insert_translation(
        "good  night".to_string(),
        Language::En,
        Language::Nl,
        "welterusten".to_string(),
    );
    // Joining puts exactly one space between words and touches nothing else.
    let doubled = vec!["good".to_string(), "".to_string(), "night".to_string()];
    assert_eq!(
        dictionary.lookup(&doubled, Language::En, Language::Nl),
        Lookup::Hit("welterusten".to_string())
    );
    assert_eq!(
        dictionary.lookup(&words("good night"), Language::En, Language::Nl),
        Lookup::Miss(key("good night", Language::En, Language::Nl))
    );
}

#[test]
fn no_words_give_the_empty_key() {
    let dictionary = TranslationDictionary::new();
    let none: Vec<String> = Vec::new();
    assert_eq!(
        dictionary.lookup(&none, Language::Nl, Language::En),
        Lookup::Miss(key("", Language::Nl, Language::En))
    );
}

#[test]
fn second_lookup_is_a_hit_with_the_same_text() {
    let mut dictionary = TranslationDictionary::new();
    let mut asked = 0;
    let mut returned = Vec::new();
    for _ in 0..2 {
        match dictionary.lookup(&words("the girl"), Language::En, Language::Nl) {
            Lookup::Hit(found) => returned.push(found),
            Lookup::Miss(request) => {
                asked += 1;
                returned.push(dictionary.resolve(request, Ok("het meisje".to_string())).unwrap());
            },
        }
    }
    assert_eq!(asked, 1);
    assert_eq!(returned, vec!["het meisje".to_string(), "het meisje".to_string()]);
}

#[test]
fn failure_is_returned_and_not_stored() {
    let mut dictionary = TranslationDictionary::new();
    let failure = ServiceFailure { reason: "quota".to_string() };
    let outcome = dictionary.resolve(key("dog", Language::En, Language::Nl), Err(failure.clone()));
    assert_eq!(outcome, Err(failure));
    assert_eq!(dictionary.translation("dog", Language::En, Language::Nl), None);
    assert_eq!(
        dictionary.lookup(&words("dog"), Language::En, Language::Nl),
        Lookup::Miss(key("dog", Language::En, Language::Nl))
    );
}

#[test]
fn insert_translation_replaces_the_entry() {
    let mut dictionary = TranslationDictionary::new();
    dictionary.insert_translation("dog".into(), Language::En, Language::Nl, "hont".into());
    dictionary.insert_translation("dog".into(), Language::En, Language::Nl, "hond".into());
    assert_eq!(
        dictionary.translation("dog", Language::En, Language::Nl),
        Some("hond".to_string())
    );
}

#[test]
fn languages_are_part_of_the_key() {
    let mut dictionary = TranslationDictionary::new();
    dictionary.insert_translation("die".into(), Language::En, Language::Nl, "sterven".into());
    dictionary.insert_translation("die".into(), Language::Nl, Language::En, "that".into());
    dictionary.insert_translation("die".into(), Language::En, Language::En, "die".into());
    dictionary.insert_translation("die".into(), Language::Nl, Language::Nl, "die!".into());
    assert_eq!(dictionary.translation("die", Language::En, Language::Nl), Some("sterven".into()));
    assert_eq!(dictionary.translation("die", Language::Nl, Language::En), Some("that".into()));
    assert_eq!(dictionary.translation("die", Language::En, Language::En), Some("die".into()));
    assert_eq!(dictionary.translation("die", Language::Nl, Language::Nl), Some("die!".into()));
    assert_eq!(dictionary.translation("Die", Language::Nl, Language::Nl), None);
}

#[test]
fn lookup_all_stops_at_the_first_missing_request() {
    let mut dictionary = TranslationDictionary::new();
    dictionary.insert_translation("cat".into(), Language::En, Language::Nl, "kat".into());
    dictionary.insert_translation("bird".into(), Language::En, Language::Nl, "vogel".into());
    let requests = vec![
        key("cat", Language::En, Language::Nl),
        key("dog", Language::En, Language::Nl),
        key("bird", Language::En, Language::Nl),
        key("fish", Language::En, Language::Nl),
    ];
    assert_eq!(
        dictionary.lookup_all(&requests),
        LookupAll::Missing(key("dog", Language::En, Language::Nl))
    );
    dictionary.insert_translation("dog".into(), Language::En, Language::Nl, "hond".into());
    assert_eq!(
        dictionary.lookup_all(&requests),
        LookupAll::Missing(key("fish", Language::En, Language::Nl))
    );
    dictionary.insert_translation("fish".into(), Language::En, Language::Nl, "vis".into());
    assert_eq!(
        dictionary.lookup_all(&requests),
        LookupAll::Complete(vec!["kat".into(), "hond".into(), "vogel".into(), "vis".into()])
    );
    assert_eq!(dictionary.lookup_all(&Vec::new()), LookupAll::Complete(Vec::new()));
}

#[test]
fn detects_dutch_and_english() {
    let dictionary = TranslationDictionary::new();
    assert_eq!(
        dictionary.detect_language(
            "Ik ben een jongen en ik eet een appel met mijn vrienden in het park"
        ),
        Ok(Language::Nl)
    );
    assert_eq!(
        dictionary.detect_language(
            "The quick brown fox jumps over the lazy dog near the river bank"
        ),
        Ok(Language::En)
    );
}

#[test]
fn detection_outside_the_two_languages_is_an_error() {
    let dictionary = TranslationDictionary::new();
    // Greek script has one language only, and it is not on the list.
    assert_eq!(
        dictionary.detect_language("Καλημέρα σας, τι κάνετε σήμερα;"),
        Err(DetectError::Unsupported)
    );
    // Digits and punctuation belong to no script.
    assert_eq!(dictionary.detect_language("12345 ... !!!"), Err(DetectError::Undecided));
    assert_eq!(dictionary.detect_language(""), Err(DetectError::Undecided));
}

#[test]
fn detection_is_remembered() {
    let mut dictionary = TranslationDictionary::new();
    let first = dictionary.find_language("Hallo");
    let second = dictionary.find_language("Hallo");
    assert!(first.is_ok());
    assert_eq!(first, second);
    assert_eq!(first, dictionary.detect_language("Hallo"));
}

#[test]
fn failed_detection_is_returned_each_time() {
    let mut dictionary = TranslationDictionary::new();
    assert_eq!(dictionary.find_language("42"), Err(DetectError::Undecided));
    assert_eq!(dictionary.find_language("42"), Err(DetectError::Undecided));
}

#[test]
fn find_language_leaves_translations_alone() {
    let mut dictionary = TranslationDictionary::new();
    dictionary.insert_translation("Hallo".into(), Language::Nl, Language::En, "Hello".into());
    let _ = dictionary.find_language("Hallo");
    assert_eq!(
        dictionary.translation("Hallo", Language::Nl, Language::En),
        Some("Hello".to_string())
    );
}
