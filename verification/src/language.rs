//! The two languages, and what a detector's answer means for them.

use crate::text::same_text;
use vstd::prelude::*;
use vstd::string::*;

verus! {

/// Why a text could not be given one of the supported languages.
#[derive(Clone, Copy, Debug, PartialEq, Eq, Structural)]
pub enum DetectError {
    /// The detector could not decide on any language.
    Undecided,
    /// The detector decided on a language that is not supported.
    Unsupported,
}

/// The languages the solver works with.
#[derive(Clone, Copy, Debug, PartialEq, Eq, Hash, Structural)]
pub enum Language {
    En,
    Nl,
}

impl Language {
    /// The other language of the pair.
    pub open spec fn spec_opposite(self) -> Language {
        match self {
            Language::En => Language::Nl,
            Language::Nl => Language::En,
        }
    }

    /// The other language of the pair.
    #[verifier::when_used_as_spec(spec_opposite)]
    pub fn opposite(self) -> (other: Language)
        ensures
            other == self.spec_opposite(),
    {
        match self {
            Language::En => Language::Nl,
            Language::Nl => Language::En,
        }
    }
}

/// The languages that detection may answer with, in the order in which they
/// are offered to the detector.
pub open spec fn supported_languages() -> Seq<Language> {
    seq![Language::Nl, Language::En]
}

/// The supported language that an ISO 639-3 code names, if any.
pub open spec fn language_of_code(code: Seq<char>) -> Option<Language> {
    if code == "nld"@ {
        Some(Language::Nl)
    } else if code == "eng"@ {
        Some(Language::En)
    } else {
        None
    }
}

/// The two codes that name a supported language.
pub proof fn lemma_known_codes()
    ensures
        language_of_code("nld"@) == Some(Language::Nl),
        language_of_code("eng"@) == Some(Language::En),
{
    reveal_strlit("nld");
    reveal_strlit("eng");
    assert("nld"@[0] != "eng"@[0]);
}

/// What a detector's answer means: a supported language, or the reason why
/// there is none.
pub open spec fn classified_detection(code: Option<Seq<char>>) -> Result<Language, DetectError> {
    match code {
        None => Err(DetectError::Undecided),
        Some(code) => match language_of_code(code) {
            Some(language) => Ok(language),
            None => Err(DetectError::Unsupported),
        },
    }
}

/// The languages that detection may answer with.
pub fn allow_list() -> (list: Vec<Language>)
    ensures
        list@ == supported_languages(),
{
    let mut list: Vec<Language> = Vec::new();
    list.push(Language::Nl);
    list.push(Language::En);
    assert(list@ =~= supported_languages());
    list
}

/// Turns a detector's answer, the ISO 639-3 code of a language or nothing,
/// into a supported language. Anything but Dutch and English is an error: no
/// third language can be represented.
pub fn classify_detection(code: Option<String>) -> (language: Result<Language, DetectError>)
    ensures
        language == classified_detection(code.deep_view()),
{
    match code {
        None => Err(DetectError::Undecided),
        Some(code) => {
            if same_text(code.as_str(), "nld") {
                Ok(Language::Nl)
            } else if same_text(code.as_str(), "eng") {
                Ok(Language::En)
            } else {
                Err(DetectError::Unsupported)
            }
        },
    }
}

} // verus!
