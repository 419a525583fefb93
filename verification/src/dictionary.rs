//! The translation dictionary: translations keyed by text and language pair,
//! and the language once detected for a text.

use crate::bindings::{detect_code, whatlang_detect};
use crate::language::{
    allow_list, classified_detection, classify_detection, supported_languages, DetectError,
    Language,
};
use crate::text::{join, join_words};
use vstd::hash_map::StringHashMap;
use vstd::prelude::*;

verus! {

/// A text with the language it is in and the language it is wanted in: the
/// key of a dictionary entry, and the request put to the translation service.
#[derive(Clone, Debug, PartialEq, Eq, Hash)]
pub struct LanguageTranslation {
    pub text: String,
    pub from_language: Language,
    pub to_language: Language,
}

/// A dictionary key as a mathematical value.
pub type TranslationKey = (Seq<char>, Language, Language);

impl View for LanguageTranslation {
    type V = TranslationKey;

    open spec fn view(&self) -> TranslationKey {
        (self.text@, self.from_language, self.to_language)
    }
}

impl DeepView for LanguageTranslation {
    type V = TranslationKey;

    open spec fn deep_view(&self) -> TranslationKey {
        self@
    }
}

/// What a lookup found.
#[derive(Clone, Debug, PartialEq, Eq)]
pub enum Lookup {
    /// The translation was in the dictionary.
    Hit(String),
    /// The translation was not in the dictionary: this request is to be put
    /// to the translation service, and its outcome handed to
    /// [`TranslationDictionary::resolve`].
    Miss(LanguageTranslation),
}

/// A failure of the translation service, carried through to the caller.
#[derive(Clone, Debug, PartialEq, Eq)]
pub struct ServiceFailure {
    pub reason: String,
}

/// The translations of all requests, or the first request still missing.
#[derive(Clone, Debug, PartialEq, Eq)]
pub enum LookupAll {
    /// Every request was in the dictionary; the translations, in order.
    Complete(Vec<String>),
    /// The first request that was not in the dictionary.
    Missing(LanguageTranslation),
}

/// The entry stored under `key`, if there is one.
pub open spec fn cached(translations: Map<TranslationKey, Seq<char>>, key: TranslationKey)
    -> Option<Seq<char>> {
    if translations.contains_key(key) {
        Some(translations[key])
    } else {
        None
    }
}

/// The key under which a sentence given as words is stored: the words joined
/// by single spaces, with the two languages.
pub open spec fn canonical_key(words: Seq<Seq<char>>, from: Language, to: Language)
    -> TranslationKey {
    (join_words(words), from, to)
}

/// The translations after the service's outcome for `key` has been taken in:
/// a translation is stored under the key, a failure changes nothing.
pub open spec fn resolved(
    translations: Map<TranslationKey, Seq<char>>,
    key: TranslationKey,
    outcome: Option<Seq<char>>,
) -> Map<TranslationKey, Seq<char>> {
    match outcome {
        Some(translated) => translations.insert(key, translated),
        None => translations,
    }
}

/// The position of the first request that has no entry.
pub open spec fn first_missing(
    translations: Map<TranslationKey, Seq<char>>,
    requests: Seq<TranslationKey>,
) -> Option<int>
    decreases requests.len(),
{
    if requests.len() == 0 {
        None
    } else if !translations.contains_key(requests.first()) {
        Some(0)
    } else {
        match first_missing(translations, requests.drop_first()) {
            Some(i) => Some(i + 1),
            None => None,
        }
    }
}

/// The entries stored under `requests`, in order.
pub open spec fn translations_of(
    translations: Map<TranslationKey, Seq<char>>,
    requests: Seq<TranslationKey>,
) -> Seq<Seq<char>> {
    requests.map_values(|key: TranslationKey| translations[key])
}

/// The language that detection gives a text, or why it gives none.
pub open spec fn detected_language(text: Seq<char>) -> Result<Language, DetectError> {
    classified_detection(whatlang_detect(text, supported_languages()))
}

/// What memoized detection does with a text, given what the detector would
/// answer: a remembered language is returned and the detector's answer plays
/// no part; otherwise the answer is returned, and remembered if it is a
/// language.
pub open spec fn remembered(
    languages: Map<Seq<char>, Language>,
    text: Seq<char>,
    detected: Result<Language, DetectError>,
) -> (Map<Seq<char>, Language>, Result<Language, DetectError>) {
    if languages.contains_key(text) {
        (languages, Ok(languages[text]))
    } else {
        match detected {
            Ok(language) => (languages.insert(text, language), detected),
            Err(_) => (languages, detected),
        }
    }
}

/// `first_missing` finds a request without entry, the first of them,
/// whenever there is one.
pub proof fn lemma_first_missing(
    translations: Map<TranslationKey, Seq<char>>,
    requests: Seq<TranslationKey>,
)
    ensures
        match first_missing(translations, requests) {
            Some(i) => 0 <= i < requests.len() && !translations.contains_key(requests[i])
                && forall|j: int| 0 <= j < i ==> translations.contains_key(requests[j]),
            None => forall|j: int|
                0 <= j < requests.len() ==> translations.contains_key(requests[j]),
        },
    decreases requests.len(),
{
    if requests.len() > 0 && translations.contains_key(requests.first()) {
        let rest = requests.drop_first();
        lemma_first_missing(translations, rest);
        assert(forall|j: int| 0 < j < requests.len() ==> requests[j] == rest[j - 1]);
    }
}

/// Two lookups of one key in a row return the same text, and the service is
/// asked at most once for both: if the first lookup is a hit, the dictionary
/// is as it was; if it is a miss and the service answers, the answer is
/// stored. Either way the second lookup is a hit with the text that the first
/// returned.
pub proof fn lemma_lookup_twice(
    translations: Map<TranslationKey, Seq<char>>,
    key: TranslationKey,
    answer: Seq<char>,
)
    ensures
        ({
            let first = cached(translations, key);
            let afterwards = match first {
                Some(_) => translations,
                None => resolved(translations, key, Some(answer)),
            };
            let returned = match first {
                Some(text) => text,
                None => answer,
            };
            cached(afterwards, key) == Some(returned)
        }),
{
}

/// A failure of the service leaves no trace: the next lookup of the key is
/// a miss again.
pub proof fn lemma_failure_not_cached(
    translations: Map<TranslationKey, Seq<char>>,
    key: TranslationKey,
)
    ensures
        cached(resolved(translations, key, None), key) == cached(translations, key),
{
}

/// Storing a translation touches no other key.
pub proof fn lemma_other_keys_kept(
    translations: Map<TranslationKey, Seq<char>>,
    key: TranslationKey,
    answer: Seq<char>,
    other: TranslationKey,
)
    requires
        other != key,
    ensures
        cached(resolved(translations, key, Some(answer)), other) == cached(translations, other),
{
}

/// A sentence given word by word and the same sentence given whole, as one
/// text with single spaces between its words, have the same key.
pub proof fn lemma_canonical_key(words: Seq<Seq<char>>, from: Language, to: Language)
    ensures
        canonical_key(seq![join_words(words)], from, to) == canonical_key(words, from, to),
{
}

/// The first language found for a text sticks: a second call returns it
/// again and changes nothing, whatever the detector would answer now.
pub proof fn lemma_detection_memoized(
    languages: Map<Seq<char>, Language>,
    text: Seq<char>,
    first_answer: Result<Language, DetectError>,
    second_answer: Result<Language, DetectError>,
)
    ensures
        ({
            let first = remembered(languages, text, first_answer);
            first.1 is Ok ==> remembered(first.0, text, second_answer) == first
        }),
{
}

/// Translations obtained so far and languages detected so far.
pub struct TranslationDictionary {
    english_to_english: StringHashMap<String>,
    english_to_dutch: StringHashMap<String>,
    dutch_to_english: StringHashMap<String>,
    dutch_to_dutch: StringHashMap<String>,
    language_detection: StringHashMap<Language>,
}

impl TranslationDictionary {
    spec fn table(&self, from: Language, to: Language) -> StringHashMap<String> {
        match (from, to) {
            (Language::En, Language::En) => self.english_to_english,
            (Language::En, Language::Nl) => self.english_to_dutch,
            (Language::Nl, Language::En) => self.dutch_to_english,
            (Language::Nl, Language::Nl) => self.dutch_to_dutch,
        }
    }

    /// The translations held: at most one for each key.
    pub closed spec fn translations(&self) -> Map<TranslationKey, Seq<char>> {
        Map::new(
            |key: TranslationKey| self.table(key.1, key.2)@.contains_key(key.0),
            |key: TranslationKey| self.table(key.1, key.2)@[key.0]@,
        )
    }

    /// The languages remembered, by the exact text they were detected for.
    pub closed spec fn languages(&self) -> Map<Seq<char>, Language> {
        self.language_detection@
    }

    /// An empty dictionary.
    pub fn new() -> (dictionary: Self)
        ensures
            dictionary.translations() == Map::<TranslationKey, Seq<char>>::empty(),
            dictionary.languages() == Map::<Seq<char>, Language>::empty(),
    {
        let dictionary = TranslationDictionary {
            english_to_english: StringHashMap::new(),
            english_to_dutch: StringHashMap::new(),
            dutch_to_english: StringHashMap::new(),
            dutch_to_dutch: StringHashMap::new(),
            language_detection: StringHashMap::new(),
        };
        assert(dictionary.translations() =~= Map::<TranslationKey, Seq<char>>::empty());
        dictionary
    }

    /// The translation stored for `text` between the two languages.
    pub fn translation(&self, text: &str, from_language: Language, to_language: Language) -> (found:
        Option<String>)
        ensures
            found.deep_view() == cached(self.translations(), (text@, from_language, to_language)),
    {
        let table = match (from_language, to_language) {
            (Language::En, Language::En) => &self.english_to_english,
            (Language::En, Language::Nl) => &self.english_to_dutch,
            (Language::Nl, Language::En) => &self.dutch_to_english,
            (Language::Nl, Language::Nl) => &self.dutch_to_dutch,
        };
        assert(*table == self.table(from_language, to_language));
        match table.get(text) {
            Some(translated) => Some(translated.clone()),
            None => None,
        }
    }

    /// Looks a sentence up, given as words that are joined by single spaces
    /// to form the key. The dictionary is only read: on a miss the caller
    /// puts the returned request to the translation service and hands the
    /// outcome to [`Self::resolve`].
    pub fn lookup(&self, text: &[String], from_language: Language, to_language: Language) -> (found:
        Lookup)
        ensures
            match found {
                Lookup::Hit(translated) => cached(
                    self.translations(),
                    canonical_key(text.deep_view(), from_language, to_language),
                ) == Some(translated@),
                Lookup::Miss(request) => cached(
                    self.translations(),
                    canonical_key(text.deep_view(), from_language, to_language),
                ) is None && request@ == canonical_key(
                    text.deep_view(),
                    from_language,
                    to_language,
                ),
            },
    {
        let sentence = join(text);
        match self.translation(sentence.as_str(), from_language, to_language) {
            Some(translated) => Lookup::Hit(translated),
            None => Lookup::Miss(
                LanguageTranslation { text: sentence, from_language, to_language },
            ),
        }
    }

    /// Stores a translation, replacing the one stored under the same key.
    pub fn insert_translation(
        &mut self,
        from_text: String,
        from_language: Language,
        to_language: Language,
        translated_text: String,
    )
        ensures
            final(self).translations() == old(self).translations().insert(
                (from_text@, from_language, to_language),
                translated_text@,
            ),
            final(self).languages() == old(self).languages(),
    {
        match (from_language, to_language) {
            (Language::En, Language::En) => self.english_to_english.insert(
                from_text,
                translated_text,
            ),
            (Language::En, Language::Nl) => self.english_to_dutch.insert(
                from_text,
                translated_text,
            ),
            (Language::Nl, Language::En) => self.dutch_to_english.insert(
                from_text,
                translated_text,
            ),
            (Language::Nl, Language::Nl) => self.dutch_to_dutch.insert(from_text, translated_text),
        }
        assert(self.translations() =~= old(self).translations().insert(
            (from_text@, from_language, to_language),
            translated_text@,
        ));
    }

    /// Takes in what the translation service answered to `request`. A
    /// translation is stored under the request and returned; a failure is
    /// returned as it came and nothing is stored.
    pub fn resolve(
        &mut self,
        request: LanguageTranslation,
        outcome: Result<String, ServiceFailure>,
    ) -> (translated: Result<String, ServiceFailure>)
        ensures
            match outcome {
                Ok(text) => translated matches Ok(returned) && returned@ == text@,
                Err(failure) => translated == Err::<String, ServiceFailure>(failure),
            },
            final(self).translations() == resolved(
                old(self).translations(),
                request@,
                match outcome {
                    Ok(text) => Some(text@),
                    Err(_) => None,
                },
            ),
            final(self).languages() == old(self).languages(),
    {
        match outcome {
            Ok(text) => {
                let returned = text.clone();
                self.insert_translation(
                    request.text,
                    request.from_language,
                    request.to_language,
                    text,
                );
                Ok(returned)
            },
            Err(failure) => Err(failure),
        }
    }

    /// Detects the language of `text` among the supported languages, without
    /// consulting or changing what is remembered.
    pub fn detect_language(&self, text: &str) -> (language: Result<Language, DetectError>)
        ensures
            language == detected_language(text@),
    {
        let allowed = allow_list();
        classify_detection(detect_code(text, &allowed))
    }

    /// The language of `text`: the one remembered for exactly this text, and
    /// otherwise the one detected now, which is then remembered. A failed
    /// detection is returned and nothing is remembered.
    pub fn find_language(&mut self, text: &str) -> (language: Result<Language, DetectError>)
        ensures
            (final(self).languages(), language) == remembered(
                old(self).languages(),
                text@,
                detected_language(text@),
            ),
            final(self).translations() == old(self).translations(),
    {
        let known = match self.language_detection.get(text) {
            Some(language) => Some(*language),
            None => None,
        };
        match known {
            Some(language) => Ok(language),
            None => {
                let detected = self.detect_language(text);
                match detected {
                    Ok(language) => {
                        self.language_detection.insert(text.to_owned(), language);
                    },
                    Err(_) => {},
                }
                assert(self.translations() =~= old(self).translations());
                detected
            },
        }
    }

    /// Looks every request up, in order, and stops at the first that has no
    /// entry.
    pub fn lookup_all(&self, requests: &Vec<LanguageTranslation>) -> (found: LookupAll)
        ensures
            match found {
                LookupAll::Complete(texts) => first_missing(
                    self.translations(),
                    requests.deep_view(),
                ) is None && texts.deep_view() == translations_of(
                    self.translations(),
                    requests.deep_view(),
                ),
                LookupAll::Missing(request) => first_missing(
                    self.translations(),
                    requests.deep_view(),
                ) matches Some(i) && 0 <= i < requests.len() && request@
                    == requests.deep_view()[i],
            },
    {
        let ghost keys = requests.deep_view();
        let mut texts: Vec<String> = Vec::new();
        let mut i: usize = 0;
        assert(keys.skip(0) == keys);
        assert(texts.deep_view() =~= translations_of(self.translations(), keys.take(0)));
        while i < requests.len()
            invariant
                i <= requests.len(),
                keys == requests.deep_view(),
                first_missing(self.translations(), keys) == match first_missing(
                    self.translations(),
                    keys.skip(i as int),
                ) {
                    Some(k) => Some(k + i),
                    None => None,
                },
                texts.deep_view() == translations_of(self.translations(), keys.take(i as int)),
            decreases requests.len() - i,
        {
            let request = &requests[i];
            proof {
                assert(keys.skip(i as int).first() == request@);
                assert(keys.skip(i as int).drop_first() == keys.skip(i + 1));
            }
            match self.translation(
                request.text.as_str(),
                request.from_language,
                request.to_language,
            ) {
                Some(translated) => {
                    let ghost before = texts.deep_view();
                    texts.push(translated);
                    assert(texts.deep_view() =~= before.push(translated@));
                    assert(texts.deep_view() =~= translations_of(
                        self.translations(),
                        keys.take(i + 1),
                    ));
                },
                None => {
                    return LookupAll::Missing(
                        LanguageTranslation {
                            text: request.text.clone(),
                            from_language: request.from_language,
                            to_language: request.to_language,
                        },
                    );
                },
            }
            i += 1;
        }
        assert(keys.take(i as int) == keys);
        LookupAll::Complete(texts)
    }
}

} // verus!
