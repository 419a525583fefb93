//! The calls this library makes into code that is not verified here. Each
//! function below is believed on its contract; everything else in the crate
//! is proved from these contracts.

use crate::language::Language;
use vstd::prelude::*;

verus! {

/// The lowercase form of a text, as `str::to_lowercase` computes it.
pub uninterp spec fn lowercase(text: Seq<char>) -> Seq<char>;

/// Whether a character is numeric, as `char::is_numeric` decides it.
pub uninterp spec fn numeric(c: char) -> bool;

/// For every non-overlapping match of `pattern` in `haystack`, in order, the
/// text that capture group `group` matched, or `None` where the group took no
/// part in the match or where `pattern` has no group of that index. Empty
/// where `pattern` is not a valid regular expression.
pub uninterp spec fn regex_group_matches(
    pattern: Seq<char>,
    haystack: Seq<char>,
    group: nat,
) -> Seq<Option<Seq<char>>>;

/// The ISO 639-3 code of the language that whatlang detects in `text` when
/// its candidates are restricted to `allowed`, or `None` where it detects
/// nothing.
pub uninterp spec fn whatlang_detect(text: Seq<char>, allowed: Seq<Language>) -> Option<Seq<char>>;

/// Calls `str::to_lowercase`. Trusted: the result is the text that the name
/// [`lowercase`] stands for; nothing is claimed about what that text is.
#[verifier::external_body]
pub(crate) fn to_lowercase(text: &str) -> (folded: String)
    ensures
        folded@ == lowercase(text@),
{
    text.to_lowercase()
}

/// Calls `char::is_numeric`. Trusted: the answer is the one that the name
/// [`numeric`] stands for.
#[verifier::external_body]
pub(crate) fn is_numeric(c: char) -> (answer: bool)
    ensures
        answer == numeric(c),
{
    c.is_numeric()
}

/// Compiles `pattern` with `regex::Regex::new` and walks
/// `Regex::captures_iter` over `haystack`, keeping from each match the text of
/// capture group `group` (`Captures::get`, which gives nothing for a group
/// that took no part and for an index that names no group). Trusted: the
/// result is what the name [`regex_group_matches`] stands for, a pattern that
/// does not compile giving no matches.
#[verifier::external_body]
pub(crate) fn group_matches(pattern: &str, haystack: &str, group: usize) -> (found: Vec<
    Option<String>,
>)
    ensures
        found.deep_view() == regex_group_matches(pattern@, haystack@, group as nat),
{
    match regex::Regex::new(pattern) {
        Ok(re) => re.captures_iter(haystack).map(
            |c| c.get(group).map(|m| m.as_str().to_owned()),
        ).collect(),
        Err(_) => Vec::new(),
    }
}

/// Builds a `whatlang::Detector` with `allowed` as its allow-list
/// (`Detector::with_allowlist`), runs `Detector::detect` on `text` and hands
/// back the code of the detected language (`Info::lang`, `Lang::code`).
/// Trusted: the result is what the name [`whatlang_detect`] stands for. The
/// detector may report a language outside the allow-list, so nothing is
/// claimed about which code comes back.
#[verifier::external_body]
pub(crate) fn detect_code(text: &str, allowed: &Vec<Language>) -> (code: Option<String>)
    ensures
        code.deep_view() == whatlang_detect(text@, allowed@),
{
    let list = allowed.iter().map(
        |language| match language {
            Language::En => whatlang::Lang::Eng,
            Language::Nl => whatlang::Lang::Nld,
        },
    ).collect();
    whatlang::Detector::with_allowlist(list).detect(text).map(|info| info.lang().code().to_owned())
}

} // verus!
