//! What the lesson overview tells: how many lessons of a unit are left, and
//! whether hearts have to be earned first.

use crate::bindings::{group_matches, regex_group_matches};
use crate::text::{parse_u8, parsed_u8};
use vstd::prelude::*;

verus! {

/// Below this many hearts a practice session comes before the lessons.
pub const FULL_HEARTS: u8 = 5;

/// The pattern of a number in the progress text: a run of digits.
pub open spec fn number_pattern() -> Seq<char> {
    "(?m)\\d+"@
}

/// The lessons left when `done` of `total` are done; `None` where more are
/// done than there are.
pub open spec fn left_of(done: u8, total: u8) -> Option<u8> {
    if done <= total {
        Some((total - done) as u8)
    } else {
        None
    }
}

/// The lessons left according to the numbers found in a progress text: the
/// first number is the count of lessons done, the second the count of all.
/// `None` where there are fewer than two numbers or one of the two does not
/// fit `u8`.
pub open spec fn left_in(numbers: Seq<Option<Seq<char>>>) -> Option<u8> {
    if numbers.len() < 2 {
        None
    } else {
        match (numbers[0], numbers[1]) {
            (Some(done), Some(total)) => match (parsed_u8(done), parsed_u8(total)) {
                (Some(done), Some(total)) => left_of(done, total),
                _ => None,
            },
            _ => None,
        }
    }
}

/// The lessons left according to a progress text.
pub open spec fn lessons_left(progress: Seq<char>) -> Option<u8> {
    left_in(regex_group_matches(number_pattern(), progress, 0))
}

/// Whether a heart count calls for practice first; `None` where the text is
/// no number below 256.
pub open spec fn practice_needed(hearts: Seq<char>) -> Option<bool> {
    match parsed_u8(hearts) {
        Some(count) => Some(count < FULL_HEARTS),
        None => None,
    }
}

/// The lessons left when `done` of `total` are done.
pub fn remaining(done: u8, total: u8) -> (left: Option<u8>)
    ensures
        left == left_of(done, total),
{
    if done <= total {
        Some(total - done)
    } else {
        None
    }
}

/// The lessons left according to the numbers found in a progress text, each
/// given as the text it was written as.
pub fn remaining_of(numbers: &Vec<Option<String>>) -> (left: Option<u8>)
    ensures
        left == left_in(numbers.deep_view()),
{
    if numbers.len() < 2 {
        return None;
    }
    assert(numbers.deep_view()[0] == numbers@[0].deep_view());
    assert(numbers.deep_view()[1] == numbers@[1].deep_view());
    let lessons_done = match &numbers[0] {
        Some(text) => parse_u8(text.as_str()),
        None => None,
    };
    let lessons_total = match &numbers[1] {
        Some(text) => parse_u8(text.as_str()),
        None => None,
    };
    match (lessons_done, lessons_total) {
        (Some(done), Some(total)) => remaining(done, total),
        _ => None,
    }
}

/// Reads off a unit's progress text how many of its lessons are left.
pub fn do_lessons(amount_of_lessons_text: &str) -> (lessons_left: Option<u8>)
    ensures
        lessons_left == self::lessons_left(amount_of_lessons_text@),
{
    let regex_capture = group_matches("(?m)\\d+", amount_of_lessons_text, 0);
    remaining_of(&regex_capture)
}

/// Whether practice comes first: it does with fewer than five hearts.
pub fn needs_practice(hearts: &str) -> (needed: Option<bool>)
    ensures
        needed == practice_needed(hearts@),
{
    match parse_u8(hearts) {
        Some(amount_of_hearts) => Some(amount_of_hearts < FULL_HEARTS),
        None => None,
    }
}

} // verus!
