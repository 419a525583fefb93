//! The exercise classifier: from the marker scraped off the page to the kind
//! of exercise.

use crate::text::{same_text, strip_leading, without_leading};
use vstd::prelude::*;
use vstd::string::*;

verus! {

/// The kinds of exercise.
#[derive(Clone, Copy, Debug, PartialEq, Eq, Structural)]
pub enum ChallangeTypes {
    Select,
    Translate,
    Assist,
    Match,
    /// Recognised, but there is no solver for it.
    Name,
    PartialReverseTranslate,
    /// Recognised, but there is no solver for it.
    ListenOnly,
    /// Nothing to solve: the page shows no exercise.
    Ignore,
}

/// A marker that names no known kind of exercise.
#[derive(Clone, Copy, Debug, PartialEq, Eq, Structural)]
pub enum ClassifyError {
    UnknownMarker,
}

/// The token of a marker: the marker without any leading `"challenge "`.
pub open spec fn marker_token(marker: Seq<char>) -> Seq<char> {
    without_leading(marker, "challenge "@)
}

/// The table of known tokens.
pub open spec fn known_type(token: Seq<char>) -> Option<ChallangeTypes> {
    if token == "challenge-translate"@ {
        Some(ChallangeTypes::Translate)
    } else if token == "challenge-select"@ {
        Some(ChallangeTypes::Select)
    } else if token == "challenge-assist"@ {
        Some(ChallangeTypes::Assist)
    } else if token == "challenge-name"@ {
        Some(ChallangeTypes::Name)
    } else if token == "challenge-partialReverseTranslate"@ {
        Some(ChallangeTypes::PartialReverseTranslate)
    } else if token == "challenge-match"@ {
        Some(ChallangeTypes::Match)
    } else if token == "challenge-listen"@ {
        Some(ChallangeTypes::ListenOnly)
    } else {
        None
    }
}

/// The kind of exercise that a marker stands for. No marker at all means
/// that there is nothing to solve; a marker whose token is not in the table
/// is an error, the empty marker too.
pub open spec fn classified(marker: Option<Seq<char>>) -> Result<ChallangeTypes, ClassifyError> {
    match marker {
        None => Ok(ChallangeTypes::Ignore),
        Some(marker) => match known_type(marker_token(marker)) {
            Some(kind) => Ok(kind),
            None => Err(ClassifyError::UnknownMarker),
        },
    }
}

/// Every token of the table is classified as the table says, with or
/// without `"challenge "` in front; no marker at all means that there is
/// nothing to solve.
pub proof fn lemma_known_markers()
    ensures
        classified(None) == Ok::<ChallangeTypes, ClassifyError>(ChallangeTypes::Ignore),
        classified(Some("challenge-translate"@)) == Ok::<ChallangeTypes, ClassifyError>(
            ChallangeTypes::Translate,
        ),
        classified(Some("challenge-select"@)) == Ok::<ChallangeTypes, ClassifyError>(
            ChallangeTypes::Select,
        ),
        classified(Some("challenge-assist"@)) == Ok::<ChallangeTypes, ClassifyError>(
            ChallangeTypes::Assist,
        ),
        classified(Some("challenge-name"@)) == Ok::<ChallangeTypes, ClassifyError>(
            ChallangeTypes::Name,
        ),
        classified(Some("challenge-partialReverseTranslate"@)) == Ok::<
            ChallangeTypes,
            ClassifyError,
        >(ChallangeTypes::PartialReverseTranslate),
        classified(Some("challenge-match"@)) == Ok::<ChallangeTypes, ClassifyError>(
            ChallangeTypes::Match,
        ),
        classified(Some("challenge-listen"@)) == Ok::<ChallangeTypes, ClassifyError>(
            ChallangeTypes::ListenOnly,
        ),
        forall|marker: Seq<char>|
            classified(Some(#[trigger] ("challenge "@ + marker))) == classified(Some(marker)),
{
    reveal_strlit("challenge ");
    reveal_strlit("challenge-translate");
    reveal_strlit("challenge-select");
    reveal_strlit("challenge-assist");
    reveal_strlit("challenge-name");
    reveal_strlit("challenge-partialReverseTranslate");
    reveal_strlit("challenge-match");
    reveal_strlit("challenge-listen");
    let lead = "challenge "@;
    assert forall|marker: Seq<char>| marker.len() >= 10 && marker[9] == '-' implies marker_token(
        marker,
    ) == marker by {
        if lead.is_prefix_of(marker) {
            assert(marker.subrange(0, 10)[9] == ' ');
        }
    }
    assert(known_type("challenge-select"@) == Some(ChallangeTypes::Select)) by {
        assert("challenge-select"@[10] != "challenge-translate"@[10]);
    }
    assert(known_type("challenge-assist"@) == Some(ChallangeTypes::Assist)) by {
        assert("challenge-assist"@[10] != "challenge-translate"@[10]);
        assert("challenge-assist"@[10] != "challenge-select"@[10]);
    }
    assert(known_type("challenge-name"@) == Some(ChallangeTypes::Name));
    assert(known_type("challenge-partialReverseTranslate"@) == Some(
        ChallangeTypes::PartialReverseTranslate,
    ));
    assert(known_type("challenge-match"@) == Some(ChallangeTypes::Match)) by {
        assert("challenge-match"@[10] != "challenge-translate"@[10]);
        assert("challenge-match"@[10] != "challenge-select"@[10]);
        assert("challenge-match"@[10] != "challenge-assist"@[10]);
    }
    assert(known_type("challenge-listen"@) == Some(ChallangeTypes::ListenOnly)) by {
        assert("challenge-listen"@[10] != "challenge-translate"@[10]);
        assert("challenge-listen"@[10] != "challenge-select"@[10]);
        assert("challenge-listen"@[10] != "challenge-assist"@[10]);
        assert("challenge-listen"@[10] != "challenge-match"@[10]);
    }
    assert forall|marker: Seq<char>| classified(Some(#[trigger] (lead + marker))) == classified(
        Some(marker),
    ) by {
        assert(lead.is_prefix_of(lead + marker)) by {
            assert((lead + marker).subrange(0, lead.len() as int) == lead);
        }
        assert((lead + marker).skip(lead.len() as int) == marker);
    }
}

/// The token of `marker`.
pub fn token_of(marker: &str) -> (token: String)
    ensures
        token@ == marker_token(marker@),
{
    strip_leading(marker, "challenge ")
}

/// Looks a token up in the table of known tokens.
pub fn type_of_token(token: &str) -> (kind: Option<ChallangeTypes>)
    ensures
        kind == known_type(token@),
{
    if same_text(token, "challenge-translate") {
        Some(ChallangeTypes::Translate)
    } else if same_text(token, "challenge-select") {
        Some(ChallangeTypes::Select)
    } else if same_text(token, "challenge-assist") {
        Some(ChallangeTypes::Assist)
    } else if same_text(token, "challenge-name") {
        Some(ChallangeTypes::Name)
    } else if same_text(token, "challenge-partialReverseTranslate") {
        Some(ChallangeTypes::PartialReverseTranslate)
    } else if same_text(token, "challenge-match") {
        Some(ChallangeTypes::Match)
    } else if same_text(token, "challenge-listen") {
        Some(ChallangeTypes::ListenOnly)
    } else {
        None
    }
}

/// Classifies the exercise on the page from its marker, `None` where the
/// page holds no marker element.
pub fn get_challange_type(marker: Option<&str>) -> (kind: Result<ChallangeTypes, ClassifyError>)
    ensures
        kind == classified(
            match marker {
                Some(marker) => Some(marker@),
                None => None,
            },
        ),
{
    match marker {
        None => Ok(ChallangeTypes::Ignore),
        Some(marker) => {
            let challange_type_str = token_of(marker);
            match type_of_token(challange_type_str.as_str()) {
                Some(kind) => Ok(kind),
                None => Err(ClassifyError::UnknownMarker),
            }
        },
    }
}

} // verus!
