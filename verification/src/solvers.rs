//! One solver per exercise kind. A solver reads the scraped texts of an
//! exercise and the dictionary, and answers either with the translation it
//! still needs or with the plan to carry out. It performs nothing itself:
//! the caller obtains the translation, hands it to the dictionary, and asks
//! again.

use crate::bindings::{group_matches, lowercase, regex_group_matches, to_lowercase};
use crate::dictionary::{
    cached, detected_language, first_missing, remembered, translations_of, LanguageTranslation,
    LookupAll, TranslationDictionary, TranslationKey,
};
use crate::language::{DetectError, Language};
use crate::matching::{
    choose_equal, lemma_pairing, pair_equal, pairing, pairs_view, position_or_first,
};
use crate::text::{
    fold_all, folded, leading_stripped, same_text, strip_all_leading, strip_all_trailing,
    trailing_stripped,
};
use vstd::string::*;
use vstd::prelude::*;

verus! {

/// What a solver answers.
#[derive(Clone, Debug, PartialEq, Eq)]
pub enum SolverStep<Plan> {
    /// This translation is not in the dictionary yet.
    Translate(LanguageTranslation),
    /// Everything needed was in the dictionary: the plan to carry out.
    Act(Plan),
}

/// Why an exercise cannot be solved.
#[derive(Clone, Copy, Debug, PartialEq, Eq, Structural)]
pub enum SolveError {
    /// The prompt of a select exercise holds no phrase between curly quotes.
    MissingQuotedPhrase,
    /// The header of a translate exercise names no known direction.
    UnknownHeader,
    /// The language of the exercise's text could not be detected.
    Detection(DetectError),
}

/// The pause after each pair of a match exercise, in milliseconds.
pub const PAIR_PAUSE_MILLIS: u64 = 100;

/// The pause after each typed character, in milliseconds.
pub const KEY_PACING_MILLIS: u64 = 10;

/// A plan to type an answer: the characters of `text` are sent one at a
/// time and in order, with a pause after each; after the last the caller
/// submits the answer.
#[derive(Clone, Debug, PartialEq, Eq)]
pub struct TypingPlan {
    pub text: String,
    pub pacing_millis: u64,
}

/// The language a translate exercise starts from, read off its header once
/// the header is folded to lower case: the header names the language to
/// write in, and the sentence is in the other.
pub open spec fn header_source(folded_header: Seq<char>) -> Option<Language> {
    if folded_header == "write this in english"@ {
        Some(Language::Nl)
    } else if folded_header == "write this in dutch"@ {
        Some(Language::En)
    } else {
        None
    }
}

/// The two headers of a translate exercise: the one that asks for English
/// starts from Dutch, the one that asks for Dutch starts from English.
pub proof fn lemma_known_headers()
    ensures
        header_source("write this in english"@) == Some(Language::Nl),
        header_source("write this in dutch"@) == Some(Language::En),
{
    reveal_strlit("write this in english");
    reveal_strlit("write this in dutch");
    assert("write this in english"@.len() != "write this in dutch"@.len());
}

/// The pattern of the phrase a select exercise asks about: what stands
/// between a left and a right curly double quote.
pub open spec fn quoted_pattern() -> Seq<char> {
    "(?m)“([^”]*)”"@
}

/// The phrase a prompt asks about: the first capture group of the first
/// match of [`quoted_pattern`].
pub open spec fn quoted_phrase(header: Seq<char>) -> Option<Seq<char>> {
    let found = regex_group_matches(quoted_pattern(), header, 1);
    if found.len() > 0 {
        found[0]
    } else {
        None
    }
}

/// The requests of a select exercise: the phrase first, then each choice
/// without its trailing numbering, all from English to Dutch.
pub open spec fn select_requests(phrase: Seq<char>, choices: Seq<Seq<char>>) -> Seq<
    TranslationKey,
> {
    seq![(phrase, Language::En, Language::Nl)] + trailing_stripped(choices).map_values(
        |choice: Seq<char>| (choice, Language::En, Language::Nl),
    )
}

/// The plan of a select exercise: the first choice whose translation equals
/// the translated phrase when both are folded to lower case, and the first
/// choice of all where none does.
pub open spec fn select_plan(
    translations: Map<TranslationKey, Seq<char>>,
    phrase: Seq<char>,
    choices: Seq<Seq<char>>,
) -> int {
    let translated = translations_of(translations, select_requests(phrase, choices));
    position_or_first(lowercase(translated.first()), folded(translated.drop_first()))
}

/// The requests of a match exercise: each card of the first half, from
/// English to Dutch.
pub open spec fn match_requests(cards: Seq<Seq<char>>) -> Seq<TranslationKey> {
    cards.take(cards.len() as int / 2).map_values(
        |card: Seq<char>| (card, Language::En, Language::Nl),
    )
}

/// The plan of a match exercise: each card of the first half, once
/// translated, is paired with the first card of the second half that equals
/// it when both are folded to lower case. Both indices count within their own
/// half.
pub open spec fn match_plan(translations: Map<TranslationKey, Seq<char>>, cards: Seq<Seq<char>>)
    -> Seq<(int, int)> {
    pairing(
        folded(translations_of(translations, match_requests(cards))),
        folded(cards.skip(cards.len() as int / 2)),
    )
}

/// The numbers of the two cards of a pair, as the page numbers its cards:
/// from 1, the second half after the first. `None` where the pair does not
/// lie within `card_count` cards.
pub open spec fn numbers_of_pair(pair: (usize, usize), card_count: usize) -> Option<
    (usize, usize),
> {
    let half = card_count / 2;
    if pair.0 < half && pair.1 < card_count - half {
        Some(((pair.0 + 1) as usize, (pair.1 + 1 + half) as usize))
    } else {
        None
    }
}

/// The numbers of the two cards of a pair.
pub fn card_numbers(pair: (usize, usize), card_count: usize) -> (numbers: Option<(usize, usize)>)
    ensures
        numbers == numbers_of_pair(pair, card_count),
{
    let half = card_count / 2;
    if pair.0 < half && pair.1 < card_count - half {
        Some((pair.0 + 1, pair.1 + 1 + half))
    } else {
        None
    }
}

/// Every pair of a match plan lies within the cards it was made from.
pub proof fn lemma_match_plan_in_range(
    translations: Map<TranslationKey, Seq<char>>,
    cards: Seq<Seq<char>>,
)
    ensures
        forall|k: int|
            0 <= k < match_plan(translations, cards).len() ==> {
                let pair = #[trigger] match_plan(translations, cards)[k];
                &&& 0 <= pair.0 < cards.len() as int / 2
                &&& 0 <= pair.1 < cards.len() - cards.len() as int / 2
            },
{
    lemma_pairing(
        folded(translations_of(translations, match_requests(cards))),
        folded(cards.skip(cards.len() as int / 2)),
    );
}

/// Builds the request to translate `text`.
fn request(text: &String, from_language: Language, to_language: Language) -> (made:
    LanguageTranslation)
    ensures
        made@ == (text@, from_language, to_language),
{
    LanguageTranslation { text: text.clone(), from_language, to_language }
}

/// Reads the language a translate exercise starts from off its header,
/// already folded to lower case.
pub fn source_of_header(folded_header: &str) -> (source: Option<Language>)
    ensures
        source == header_source(folded_header@),
{
    if same_text(folded_header, "write this in english") {
        Some(Language::Nl)
    } else if same_text(folded_header, "write this in dutch") {
        Some(Language::En)
    } else {
        None
    }
}

/// Plans a translate exercise whose sentence is in `from_lang`: what to type
/// is the sentence's translation into the other language, as the dictionary
/// holds it, character by character and nothing more.
pub fn translate_from(
    translation_dictionary: &TranslationDictionary,
    from_lang: Language,
    sentence: &str,
) -> (step: SolverStep<TypingPlan>)
    ensures
        match cached(
            translation_dictionary.translations(),
            (sentence@, from_lang, from_lang.opposite()),
        ) {
            None => step matches SolverStep::Translate(request) && request@ == (
                sentence@,
                from_lang,
                from_lang.opposite(),
            ),
            Some(translated) => step matches SolverStep::Act(plan) && plan.text@ == translated
                && plan.pacing_millis == KEY_PACING_MILLIS,
        },
{
    let to_lang = from_lang.opposite();
    match translation_dictionary.translation(sentence, from_lang, to_lang) {
        None => SolverStep::Translate(
            LanguageTranslation {
                text: sentence.to_owned(),
                from_language: from_lang,
                to_language: to_lang,
            },
        ),
        Some(translated_sentence) => SolverStep::Act(
            TypingPlan { text: translated_sentence, pacing_millis: KEY_PACING_MILLIS },
        ),
    }
}

/// Solves a translate exercise: what to type. The header decides the
/// direction, whatever its case.
pub fn solve_translate_challange(
    translation_dictionary: &TranslationDictionary,
    challange_header: &str,
    sentence: &str,
) -> (step: Result<SolverStep<TypingPlan>, SolveError>)
    ensures
        match header_source(lowercase(challange_header@)) {
            None => step matches Err(error) && error == SolveError::UnknownHeader,
            Some(from_lang) => match cached(
                translation_dictionary.translations(),
                (sentence@, from_lang, from_lang.opposite()),
            ) {
                None => step matches Ok(SolverStep::Translate(request)) && request@ == (
                    sentence@,
                    from_lang,
                    from_lang.opposite(),
                ),
                Some(translated) => step matches Ok(SolverStep::Act(plan)) && plan.text@
                    == translated && plan.pacing_millis == KEY_PACING_MILLIS,
            },
        },
{
    let folded_header = to_lowercase(challange_header);
    match source_of_header(folded_header.as_str()) {
        Some(from_lang) => Ok(translate_from(translation_dictionary, from_lang, sentence)),
        None => Err(SolveError::UnknownHeader),
    }
}

/// Plans an assist exercise whose word is in `from_lang`: the choice whose
/// text, without its leading numbering, is exactly the word's translation
/// into the other language, and the first choice of all where none is.
pub fn assist_choice(
    translation_dictionary: &TranslationDictionary,
    from_lang: Language,
    word: &str,
    choices: &Vec<String>,
) -> (step: SolverStep<usize>)
    ensures
        match cached(
            translation_dictionary.translations(),
            (word@, from_lang, from_lang.opposite()),
        ) {
            None => step matches SolverStep::Translate(request) && request@ == (
                word@,
                from_lang,
                from_lang.opposite(),
            ),
            Some(translated) => step matches SolverStep::Act(index) && index == position_or_first(
                translated,
                leading_stripped(choices.deep_view()),
            ),
        },
{
    let to_lang = from_lang.opposite();
    match translation_dictionary.translation(word, from_lang, to_lang) {
        None => SolverStep::Translate(
            LanguageTranslation {
                text: word.to_owned(),
                from_language: from_lang,
                to_language: to_lang,
            },
        ),
        Some(translated_word) => {
            let choice_texts = strip_all_leading(choices);
            SolverStep::Act(choose_equal(&translated_word, &choice_texts))
        },
    }
}

/// Plans a partial reverse translate exercise whose sentence is in
/// `from_lang`: once the dictionary holds the sentence's translation, what to
/// type is the remainder, character by character and nothing more.
pub fn type_remainder(
    translation_dictionary: &TranslationDictionary,
    from_lang: Language,
    sentence: &str,
    rest_sentence: &str,
) -> (step: SolverStep<TypingPlan>)
    ensures
        match cached(
            translation_dictionary.translations(),
            (sentence@, from_lang, from_lang.opposite()),
        ) {
            None => step matches SolverStep::Translate(request) && request@ == (
                sentence@,
                from_lang,
                from_lang.opposite(),
            ),
            Some(_) => step matches SolverStep::Act(plan) && plan.text@ == rest_sentence@
                && plan.pacing_millis == KEY_PACING_MILLIS,
        },
{
    let to_lang = from_lang.opposite();
    match translation_dictionary.translation(sentence, from_lang, to_lang) {
        None => SolverStep::Translate(
            LanguageTranslation {
                text: sentence.to_owned(),
                from_language: from_lang,
                to_language: to_lang,
            },
        ),
        Some(_) => SolverStep::Act(
            TypingPlan { text: rest_sentence.to_owned(), pacing_millis: KEY_PACING_MILLIS },
        ),
    }
}

/// Solves an assist exercise: which choice to click. The language of the
/// word is detected, or remembered from an earlier detection; the word is
/// translated into the other language; the choice whose text, without its
/// leading numbering, is exactly the translation is the one to click, and the
/// first choice of all where none is.
pub fn solve_assist_challange(
    translation_dictionary: &mut TranslationDictionary,
    word: &str,
    choices: &Vec<String>,
) -> (step: Result<SolverStep<usize>, SolveError>)
    ensures
        final(translation_dictionary).translations() == old(translation_dictionary).translations(),
        final(translation_dictionary).languages() == remembered(
            old(translation_dictionary).languages(),
            word@,
            detected_language(word@),
        ).0,
        match remembered(
            old(translation_dictionary).languages(),
            word@,
            detected_language(word@),
        ).1 {
            Err(failure) => step matches Err(error) && error == SolveError::Detection(failure),
            Ok(from_lang) => match cached(
                old(translation_dictionary).translations(),
                (word@, from_lang, from_lang.opposite()),
            ) {
                None => step matches Ok(SolverStep::Translate(request)) && request@ == (
                    word@,
                    from_lang,
                    from_lang.opposite(),
                ),
                Some(translated) => step matches Ok(SolverStep::Act(index)) && index
                    == position_or_first(translated, leading_stripped(choices.deep_view())),
            },
        },
{
    match translation_dictionary.find_language(word) {
        Ok(from_lang) => Ok(assist_choice(translation_dictionary, from_lang, word, choices)),
        Err(failure) => Err(SolveError::Detection(failure)),
    }
}

/// Solves a partial reverse translate exercise: what to type. The sentence
/// shown is translated only so that the dictionary holds it; what is typed is
/// the remainder that the exercise left open.
pub fn solve_partial_reverse_translate_challange(
    translation_dictionary: &mut TranslationDictionary,
    sentence: &str,
    rest_sentence: &str,
) -> (step: Result<SolverStep<TypingPlan>, SolveError>)
    ensures
        final(translation_dictionary).translations() == old(translation_dictionary).translations(),
        final(translation_dictionary).languages() == remembered(
            old(translation_dictionary).languages(),
            sentence@,
            detected_language(sentence@),
        ).0,
        match remembered(
            old(translation_dictionary).languages(),
            sentence@,
            detected_language(sentence@),
        ).1 {
            Err(failure) => step matches Err(error) && error == SolveError::Detection(failure),
            Ok(from_lang) => match cached(
                old(translation_dictionary).translations(),
                (sentence@, from_lang, from_lang.opposite()),
            ) {
                None => step matches Ok(SolverStep::Translate(request)) && request@ == (
                    sentence@,
                    from_lang,
                    from_lang.opposite(),
                ),
                Some(_) => step matches Ok(SolverStep::Act(plan)) && plan.text@ == rest_sentence@
                    && plan.pacing_millis == KEY_PACING_MILLIS,
            },
        },
{
    match translation_dictionary.find_language(sentence) {
        Ok(from_lang) => Ok(
            type_remainder(translation_dictionary, from_lang, sentence, rest_sentence),
        ),
        Err(failure) => Err(SolveError::Detection(failure)),
    }
}

/// Extracts the phrase that a select exercise asks about from its prompt.
pub fn extract_quoted_phrase(challange_header: &str) -> (phrase: Option<String>)
    ensures
        phrase.deep_view() == quoted_phrase(challange_header@),
{
    let found = group_matches("(?m)“([^”]*)”", challange_header, 1);
    if found.len() > 0 {
        assert(found.deep_view()[0] == found@[0].deep_view());
        match &found[0] {
            Some(phrase) => Some(phrase.clone()),
            None => None,
        }
    } else {
        None
    }
}

/// Plans a select exercise that asks about `phrase`: the first choice whose
/// translation equals the translated phrase when both are folded to lower
/// case, and the first choice of all where none does. The phrase is asked for
/// first, then each choice without its trailing numbering, in order.
pub fn select_choice(
    translation_dictionary: &TranslationDictionary,
    phrase: &str,
    choices: &Vec<String>,
) -> (step: SolverStep<usize>)
    ensures
        match first_missing(
            translation_dictionary.translations(),
            select_requests(phrase@, choices.deep_view()),
        ) {
            Some(i) => step matches SolverStep::Translate(request) && request@ == select_requests(
                phrase@,
                choices.deep_view(),
            )[i],
            None => step matches SolverStep::Act(index) && index == select_plan(
                translation_dictionary.translations(),
                phrase@,
                choices.deep_view(),
            ),
        },
{
    let stripped = strip_all_trailing(choices);
    let ghost wanted = select_requests(phrase@, choices.deep_view());
    let mut requests: Vec<LanguageTranslation> = Vec::new();
    requests.push(
        LanguageTranslation {
            text: phrase.to_owned(),
            from_language: Language::En,
            to_language: Language::Nl,
        },
    );
    assert(requests.deep_view() =~= wanted.take(1));
    let mut i: usize = 0;
    while i < stripped.len()
        invariant
            i <= stripped.len(),
            stripped.deep_view() == trailing_stripped(choices.deep_view()),
            wanted == select_requests(phrase@, choices.deep_view()),
            requests.deep_view() == wanted.take(i + 1),
        decreases stripped.len() - i,
    {
        let ghost before = requests.deep_view();
        let made = request(&stripped[i], Language::En, Language::Nl);
        requests.push(made);
        assert(requests.deep_view() =~= before.push(made@));
        assert(requests.deep_view() =~= wanted.take(i + 2));
        i += 1;
    }
    assert(wanted.take(i + 1) == wanted);
    match translation_dictionary.lookup_all(&requests) {
        LookupAll::Missing(request) => SolverStep::Translate(request),
        LookupAll::Complete(mut translated) => {
            let ghost all = translated.deep_view();
            assert(all.len() == wanted.len());
            let translated_challange_text = to_lowercase(translated.remove(0).as_str());
            assert(translated.deep_view() =~= all.drop_first());
            let translated_choices = fold_all(&translated);
            SolverStep::Act(choose_equal(&translated_challange_text, &translated_choices))
        },
    }
}

/// Solves a select exercise: which choice to click.
pub fn solve_select_challange(
    translation_dictionary: &TranslationDictionary,
    challange_header: &str,
    choices: &Vec<String>,
) -> (step: Result<SolverStep<usize>, SolveError>)
    ensures
        match quoted_phrase(challange_header@) {
            None => step matches Err(error) && error == SolveError::MissingQuotedPhrase,
            Some(phrase) => match first_missing(
                translation_dictionary.translations(),
                select_requests(phrase, choices.deep_view()),
            ) {
                Some(i) => step matches Ok(SolverStep::Translate(request)) && request@
                    == select_requests(phrase, choices.deep_view())[i],
                None => step matches Ok(SolverStep::Act(index)) && index == select_plan(
                    translation_dictionary.translations(),
                    phrase,
                    choices.deep_view(),
                ),
            },
        },
{
    match extract_quoted_phrase(challange_header) {
        Some(challange_text) => Ok(
            select_choice(translation_dictionary, challange_text.as_str(), choices),
        ),
        None => Err(SolveError::MissingQuotedPhrase),
    }
}

/// Solves a match exercise. The cards are split in two halves, the middle
/// card of an odd number going to the second. Unmatched cards of the first
/// half are passed over.
pub fn solve_match_challange(
    translation_dictionary: &TranslationDictionary,
    card_texts: &Vec<String>,
) -> (step: SolverStep<Vec<(usize, usize)>>)
    ensures
        match first_missing(
            translation_dictionary.translations(),
            match_requests(card_texts.deep_view()),
        ) {
            Some(i) => step matches SolverStep::Translate(request) && request@ == match_requests(
                card_texts.deep_view(),
            )[i],
            None => step matches SolverStep::Act(pairs) && pairs_view(pairs@) == match_plan(
                translation_dictionary.translations(),
                card_texts.deep_view(),
            ),
        },
{
    let ghost cards = card_texts.deep_view();
    let half = card_texts.len() / 2;
    let mut requests: Vec<LanguageTranslation> = Vec::new();
    let mut to_cards: Vec<String> = Vec::new();
    let mut i: usize = 0;
    while i < half
        invariant
            i <= half,
            half == card_texts.len() / 2,
            cards == card_texts.deep_view(),
            requests.deep_view() == match_requests(cards).take(i as int),
        decreases half - i,
    {
        let ghost before = requests.deep_view();
        let made = request(&card_texts[i], Language::En, Language::Nl);
        requests.push(made);
        assert(requests.deep_view() =~= before.push(made@));
        assert(requests.deep_view() =~= match_requests(cards).take(i + 1));
        i += 1;
    }
    assert(match_requests(cards).take(half as int) == match_requests(cards));
    while i < card_texts.len()
        invariant
            half <= i <= card_texts.len(),
            cards == card_texts.deep_view(),
            to_cards.deep_view() == cards.subrange(half as int, i as int),
        decreases card_texts.len() - i,
    {
        let ghost before = to_cards.deep_view();
        let card = card_texts[i].clone();
        to_cards.push(card);
        assert(to_cards.deep_view() =~= before.push(card@));
        assert(to_cards.deep_view() =~= cards.subrange(half as int, i + 1));
        i += 1;
    }
    assert(cards.subrange(half as int, i as int) == cards.skip(half as int));
    match translation_dictionary.lookup_all(&requests) {
        LookupAll::Missing(request) => SolverStep::Translate(request),
        LookupAll::Complete(translated_from_cards) => {
            let sources = fold_all(&translated_from_cards);
            let targets = fold_all(&to_cards);
            SolverStep::Act(pair_equal(&sources, &targets))
        },
    }
}

} // verus!
