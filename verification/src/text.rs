//! Text handling shared by the dictionary, the classifier and the solvers.

use crate::bindings::{is_numeric, lowercase, numeric, to_lowercase};
use vstd::prelude::*;
use vstd::string::*;

verus! {

/// The words of a sentence joined by single spaces.
pub open spec fn join_words(words: Seq<Seq<char>>) -> Seq<char>
    decreases words.len(),
{
    if words.len() == 0 {
        Seq::empty()
    } else if words.len() == 1 {
        words[0]
    } else {
        join_words(words.drop_last()) + seq![' '] + words.last()
    }
}

/// What is left of `text` once every trailing numeric character is gone.
pub open spec fn without_trailing_numbers(text: Seq<char>) -> Seq<char>
    decreases text.len(),
{
    if text.len() > 0 && numeric(text.last()) {
        without_trailing_numbers(text.drop_last())
    } else {
        text
    }
}

/// What is left of `text` once every leading numeric character is gone.
pub open spec fn without_leading_numbers(text: Seq<char>) -> Seq<char>
    decreases text.len(),
{
    if text.len() > 0 && numeric(text.first()) {
        without_leading_numbers(text.drop_first())
    } else {
        text
    }
}

/// What is left of `text` once every trailing line feed is gone.
pub open spec fn without_trailing_newlines(text: Seq<char>) -> Seq<char>
    decreases text.len(),
{
    if text.len() > 0 && text.last() == '\n' {
        without_trailing_newlines(text.drop_last())
    } else {
        text
    }
}

/// What is left of `text` once every leading line feed is gone.
pub open spec fn without_leading_newlines(text: Seq<char>) -> Seq<char>
    decreases text.len(),
{
    if text.len() > 0 && text.first() == '\n' {
        without_leading_newlines(text.drop_first())
    } else {
        text
    }
}

/// What is left of `text` once every leading repetition of `prefix` is gone.
pub open spec fn without_leading(text: Seq<char>, prefix: Seq<char>) -> Seq<char>
    decreases text.len(),
{
    if prefix.len() > 0 && prefix.is_prefix_of(text) {
        without_leading(text.skip(prefix.len() as int), prefix)
    } else {
        text
    }
}

/// The value of a decimal digit.
pub open spec fn digit_value(c: char) -> Option<int> {
    if '0' <= c <= '9' {
        Some(c as int - '0' as int)
    } else {
        None
    }
}

/// The number that a run of decimal digits writes, `None` where a character
/// is no digit. The empty run writes 0.
pub open spec fn decimal(digits: Seq<char>) -> Option<int>
    decreases digits.len(),
{
    if digits.len() == 0 {
        Some(0)
    } else {
        match (decimal(digits.drop_last()), digit_value(digits.last())) {
            (Some(high), Some(low)) => Some(10 * high + low),
            _ => None,
        }
    }
}

/// The number below 256 that a text writes: an optional `+`, then one or
/// more decimal digits and nothing else.
pub open spec fn parsed_u8(text: Seq<char>) -> Option<u8> {
    let digits = if text.len() > 0 && text.first() == '+' {
        text.drop_first()
    } else {
        text
    };
    if digits.len() == 0 {
        None
    } else {
        match decimal(digits) {
            Some(value) => if value <= u8::MAX {
                Some(value as u8)
            } else {
                None
            },
            None => None,
        }
    }
}

/// A run of digits writes at least what any of its prefixes writes, and a
/// prefix of a run of digits is a run of digits.
pub proof fn lemma_decimal_prefix(digits: Seq<char>, i: int)
    requires
        0 <= i <= digits.len(),
    ensures
        decimal(digits) matches Some(value) ==> decimal(digits.take(i)) matches Some(prefix)
            && 0 <= prefix <= value,
    decreases digits.len() - i,
{
    if i == digits.len() {
        assert(digits.take(i) == digits);
        lemma_decimal_nonnegative(digits);
    } else {
        lemma_decimal_prefix(digits.drop_last(), i);
        assert(digits.drop_last().take(i) == digits.take(i));
    }
}

/// No run of digits writes a negative number.
pub proof fn lemma_decimal_nonnegative(digits: Seq<char>)
    ensures
        decimal(digits) matches Some(value) ==> 0 <= value,
    decreases digits.len(),
{
    if digits.len() > 0 {
        lemma_decimal_nonnegative(digits.drop_last());
    }
}

/// Every text folded to lower case.
pub open spec fn folded(texts: Seq<Seq<char>>) -> Seq<Seq<char>> {
    texts.map_values(|text: Seq<char>| lowercase(text))
}

/// Every text without the numbering that trails it.
pub open spec fn trailing_stripped(texts: Seq<Seq<char>>) -> Seq<Seq<char>> {
    texts.map_values(
        |text: Seq<char>| without_trailing_newlines(without_trailing_numbers(text)),
    )
}

/// Every text without the numbering that leads it.
pub open spec fn leading_stripped(texts: Seq<Seq<char>>) -> Seq<Seq<char>> {
    texts.map_values(|text: Seq<char>| without_leading_newlines(without_leading_numbers(text)))
}

/// The characters of `text`, in order.
pub fn chars_of(text: &str) -> (chars: Vec<char>)
    ensures
        chars@ == text@,
{
    let mut chars: Vec<char> = Vec::new();
    let n = text.unicode_len();
    let mut i: usize = 0;
    while i < n
        invariant
            n == text@.len(),
            i <= n,
            chars@ == text@.take(i as int),
        decreases n - i,
    {
        chars.push(text.get_char(i));
        i += 1;
    }
    chars
}

/// Whether two texts hold the same characters.
pub fn same_text(a: &str, b: &str) -> (same: bool)
    ensures
        same == (a@ == b@),
{
    let left = a.to_owned();
    let right = b.to_owned();
    left == right
}

/// Joins `words` by single spaces.
pub fn join(words: &[String]) -> (sentence: String)
    ensures
        sentence@ == join_words(words.deep_view()),
{
    let mut sentence = String::new();
    let mut i: usize = 0;
    while i < words.len()
        invariant
            i <= words.len(),
            sentence@ == join_words(words.deep_view().take(i as int)),
        decreases words.len() - i,
    {
        proof {
            let before = words.deep_view().take(i as int);
            let after = words.deep_view().take(i + 1);
            assert(after.drop_last() == before);
            assert(after.last() == words[i as int]@);
        }
        if i > 0 {
            sentence.append(" ");
            proof {
                reveal_strlit(" ");
                assert(" "@ == seq![' ']);
            }
        }
        sentence.append(words[i].as_str());
        i += 1;
    }
    assert(words.deep_view().take(i as int) == words.deep_view());
    sentence
}

/// Strips the numbering that trails a scraped choice: first every trailing
/// numeric character, then every trailing line feed.
pub fn strip_trailing_numbering(text: &str) -> (stripped: String)
    ensures
        stripped@ == without_trailing_newlines(without_trailing_numbers(text@)),
{
    let n = text.unicode_len();
    let mut end: usize = n;
    assert(text@.take(end as int) == text@);
    while end > 0 && is_numeric(text.get_char(end - 1))
        invariant
            end <= n,
            n == text@.len(),
            without_trailing_numbers(text@) == without_trailing_numbers(text@.take(end as int)),
        decreases end,
    {
        assert(text@.take(end as int).drop_last() == text@.take(end - 1));
        end -= 1;
    }
    let ghost middle = text@.take(end as int);
    assert(without_trailing_numbers(text@) == middle);
    while end > 0 && text.get_char(end - 1) == '\n'
        invariant
            end <= n,
            n == text@.len(),
            without_trailing_newlines(middle) == without_trailing_newlines(text@.take(end as int)),
        decreases end,
    {
        assert(text@.take(end as int).drop_last() == text@.take(end - 1));
        end -= 1;
    }
    assert(text@.subrange(0, end as int) == text@.take(end as int));
    text.substring_char(0, end).to_owned()
}

/// Strips the numbering that leads a scraped choice: first every leading
/// numeric character, then every leading line feed.
pub fn strip_leading_numbering(text: &str) -> (stripped: String)
    ensures
        stripped@ == without_leading_newlines(without_leading_numbers(text@)),
{
    let n = text.unicode_len();
    let mut start: usize = 0;
    assert(text@.skip(0) == text@);
    while start < n && is_numeric(text.get_char(start))
        invariant
            start <= n,
            n == text@.len(),
            without_leading_numbers(text@) == without_leading_numbers(text@.skip(start as int)),
        decreases n - start,
    {
        assert(text@.skip(start as int).drop_first() == text@.skip(start + 1));
        start += 1;
    }
    let ghost middle = text@.skip(start as int);
    assert(without_leading_numbers(text@) == middle);
    while start < n && text.get_char(start) == '\n'
        invariant
            start <= n,
            n == text@.len(),
            without_leading_newlines(middle) == without_leading_newlines(text@.skip(start as int)),
        decreases n - start,
    {
        assert(text@.skip(start as int).drop_first() == text@.skip(start + 1));
        start += 1;
    }
    assert(text@.subrange(start as int, n as int) == text@.skip(start as int));
    text.substring_char(start, n).to_owned()
}

/// Whether `prefix` stands in `text` at position `at`.
fn has_prefix_at(text: &Vec<char>, at: usize, prefix: &Vec<char>) -> (found: bool)
    requires
        at <= text.len(),
    ensures
        found == prefix@.is_prefix_of(text@.skip(at as int)),
{
    if prefix.len() > text.len() - at {
        return false;
    }
    let mut i: usize = 0;
    while i < prefix.len()
        invariant
            at <= text.len(),
            prefix.len() <= text.len() - at,
            i <= prefix.len(),
            forall|j: int| 0 <= j < i ==> prefix@[j] == text@[at + j],
        decreases prefix.len() - i,
    {
        if prefix[i] != text[at + i] {
            assert(text@.skip(at as int)[i as int] == text@[at + i]);
            return false;
        }
        i += 1;
    }
    assert(prefix@ =~= text@.skip(at as int).subrange(0, prefix@.len() as int));
    true
}

/// Strips every leading repetition of `prefix` from `text`.
pub fn strip_leading(text: &str, prefix: &str) -> (stripped: String)
    ensures
        stripped@ == without_leading(text@, prefix@),
{
    let chars = chars_of(text);
    let lead = chars_of(prefix);
    let n = chars.len();
    let mut start: usize = 0;
    assert(text@.skip(0) == text@);
    if lead.len() > 0 {
        while has_prefix_at(&chars, start, &lead)
            invariant
                start <= n,
                n == chars.len(),
                lead.len() > 0,
                chars@ == text@,
                lead@ == prefix@,
                without_leading(text@, prefix@) == without_leading(
                    text@.skip(start as int),
                    prefix@,
                ),
            decreases n - start,
        {
            assert(text@.skip(start as int).skip(lead.len() as int) == text@.skip(
                start + lead.len(),
            ));
            start += lead.len();
        }
    }
    assert(text@.subrange(start as int, n as int) == text@.skip(start as int));
    text.substring_char(start, n).to_owned()
}

/// Reads a number below 256 written in decimal, as `u8`'s `FromStr` does:
/// an optional `+`, then digits only, at least one.
pub fn parse_u8(text: &str) -> (value: Option<u8>)
    ensures
        value == parsed_u8(text@),
{
    let n = text.unicode_len();
    let start: usize = if n > 0 && text.get_char(0) == '+' {
        1
    } else {
        0
    };
    let ghost digits = text@.skip(start as int);
    assert(start == 1 ==> text@.drop_first() == digits);
    assert(start == 0 ==> text@ == digits);
    if start == n {
        return None;
    }
    let mut value: u8 = 0;
    let mut i: usize = start;
    assert(digits.take(0) =~= Seq::empty());
    while i < n
        invariant
            start <= i <= n,
            n == text@.len(),
            digits == text@.skip(start as int),
            decimal(digits.take(i - start)) == Some(value as int),
            parsed_u8(text@) == match decimal(digits) {
                Some(all) => if all <= u8::MAX {
                    Some(all as u8)
                } else {
                    None
                },
                None => None,
            },
        decreases n - i,
    {
        let c = text.get_char(i);
        proof {
            lemma_decimal_prefix(digits, i - start + 1);
            assert(digits.take(i - start + 1).drop_last() == digits.take(i - start));
            assert(digits.take(i - start + 1).last() == c);
        }
        if c < '0' || c > '9' {
            return None;
        }
        let low: u8 = (c as u32 - '0' as u32) as u8;
        if value > 25 || (value == 25 && low > 5) {
            return None;
        }
        value = value * 10 + low;
        i += 1;
    }
    assert(digits.take(n - start) == digits);
    Some(value)
}

/// Folds every text to lower case.
pub fn fold_all(texts: &Vec<String>) -> (lower: Vec<String>)
    ensures
        lower.deep_view() == folded(texts.deep_view()),
{
    let mut lower: Vec<String> = Vec::new();
    let mut i: usize = 0;
    while i < texts.len()
        invariant
            i <= texts.len(),
            lower.deep_view() == folded(texts.deep_view().take(i as int)),
        decreases texts.len() - i,
    {
        let ghost before = lower.deep_view();
        let text = to_lowercase(texts[i].as_str());
        lower.push(text);
        assert(lower.deep_view() =~= before.push(text@));
        assert(lower.deep_view() =~= folded(texts.deep_view().take(i + 1)));
        i += 1;
    }
    assert(texts.deep_view().take(i as int) == texts.deep_view());
    lower
}

/// Strips the trailing numbering from every text.
pub fn strip_all_trailing(texts: &Vec<String>) -> (stripped: Vec<String>)
    ensures
        stripped.deep_view() == trailing_stripped(texts.deep_view()),
{
    let mut stripped: Vec<String> = Vec::new();
    let mut i: usize = 0;
    while i < texts.len()
        invariant
            i <= texts.len(),
            stripped.deep_view() == trailing_stripped(texts.deep_view().take(i as int)),
        decreases texts.len() - i,
    {
        let ghost before = stripped.deep_view();
        let text = strip_trailing_numbering(texts[i].as_str());
        stripped.push(text);
        assert(stripped.deep_view() =~= before.push(text@));
        assert(stripped.deep_view() =~= trailing_stripped(texts.deep_view().take(i + 1)));
        i += 1;
    }
    assert(texts.deep_view().take(i as int) == texts.deep_view());
    stripped
}

/// Strips the leading numbering from every text.
pub fn strip_all_leading(texts: &Vec<String>) -> (stripped: Vec<String>)
    ensures
        stripped.deep_view() == leading_stripped(texts.deep_view()),
{
    let mut stripped: Vec<String> = Vec::new();
    let mut i: usize = 0;
    while i < texts.len()
        invariant
            i <= texts.len(),
            stripped.deep_view() == leading_stripped(texts.deep_view().take(i as int)),
        decreases texts.len() - i,
    {
        let ghost before = stripped.deep_view();
        let text = strip_leading_numbering(texts[i].as_str());
        stripped.push(text);
        assert(stripped.deep_view() =~= before.push(text@));
        assert(stripped.deep_view() =~= leading_stripped(texts.deep_view().take(i + 1)));
        i += 1;
    }
    assert(texts.deep_view().take(i as int) == texts.deep_view());
    stripped
}

} // verus!
