//! The checks on the numbers that are given as text on the command line.

use vstd::prelude::*;
use vstd::string::StringExecFns;

verus! {

/// The value of a decimal digit; nothing for any other character.
pub open spec fn digit_value(c: char) -> Option<nat> {
    if c == '0' {
        Some(0)
    } else if c == '1' {
        Some(1)
    } else if c == '2' {
        Some(2)
    } else if c == '3' {
        Some(3)
    } else if c == '4' {
        Some(4)
    } else if c == '5' {
        Some(5)
    } else if c == '6' {
        Some(6)
    } else if c == '7' {
        Some(7)
    } else if c == '8' {
        Some(8)
    } else if c == '9' {
        Some(9)
    } else {
        None
    }
}

/// Whether every character is a decimal digit.
pub open spec fn all_digits(text: Seq<char>) -> bool {
    forall|i: int| 0 <= i < text.len() ==> digit_value(#[trigger] text[i]) is Some
}

/// The number that a run of decimal digits stands for.
pub open spec fn digits_value(digits: Seq<char>) -> nat
    decreases digits.len(),
{
    if digits.len() == 0 {
        0
    } else {
        digits_value(digits.drop_last()) * 10 + digit_value(digits.last()).unwrap_or(0)
    }
}

/// The number that a text stands for: one or more decimal digits, with or
/// without a plus sign in front. Any other text stands for none.
pub open spec fn number_of(text: Seq<char>) -> Option<nat> {
    let digits: Seq<char> = if text.len() > 0 && text[0] == '+' {
        text.skip(1)
    } else {
        text
    };
    if digits.len() > 0 && all_digits(digits) {
        Some(digits_value(digits))
    } else {
        None
    }
}

/// The words in which the standard library refuses a text as a `usize`.
pub uninterp spec fn usize_parse_error(text: Seq<char>) -> Seq<char>;

/// The words in which the standard library refuses a text as a `u32`.
pub uninterp spec fn u32_parse_error(text: Seq<char>) -> Seq<char>;

/// `str::parse::<usize>` of the standard library: the number that the text
/// stands for where it stands for one that fits, else the library's words
/// for what is wrong.
#[verifier::external_body]
fn parse_usize(s: &str) -> (parsed: Result<usize, String>)
    ensures
        parsed matches Ok(number) ==> number_of(s@) == Some(number as nat),
        parsed matches Err(message) ==> message@ == usize_parse_error(s@) && !(number_of(s@)
            matches Some(number) && number <= usize::MAX),
{
    match s.parse::<usize>() {
        Ok(number) => Ok(number),
        Err(error) => Err(error.to_string()),
    }
}

/// `str::parse::<u32>` of the standard library: the number that the text
/// stands for where it stands for one that fits, else the library's words
/// for what is wrong.
#[verifier::external_body]
fn parse_u32(s: &str) -> (parsed: Result<u32, String>)
    ensures
        parsed matches Ok(number) ==> number_of(s@) == Some(number as nat),
        parsed matches Err(message) ==> message@ == u32_parse_error(s@) && !(number_of(s@)
            matches Some(number) && number <= u32::MAX),
{
    match s.parse::<u32>() {
        Ok(number) => Ok(number),
        Err(error) => Err(error.to_string()),
    }
}

/// What is said of a generation size that is too small.
pub open spec fn generation_size_complaint() -> Seq<char> {
    "Generation size cannot be smaller than 3."@
}

/// What is said of a thread count of zero.
pub open spec fn threads_complaint() -> Seq<char> {
    "TNumber of workers cannot be 0."@
}

/// What is said of a gap of zero generations.
pub open spec fn every_complaint() -> Seq<char> {
    "Generation gap must be a positive integer."@
}

/// Whether `answer` accepts where `accepted` holds, and else complains in
/// the given words.
pub open spec fn answers(answer: Result<(), String>, accepted: bool, complaint: Seq<char>) -> bool {
    match answer {
        Ok(_) => accepted,
        Err(message) => !accepted && message@ == complaint,
    }
}

/// Accepts a generation size of three or more; passes on what was wrong with
/// the text where it stood for no size.
pub fn check_generation_size(parsed: Result<usize, String>) -> (answer: Result<(), String>)
    ensures
        match parsed {
            Ok(size) => answers(answer, size > 2, generation_size_complaint()),
            Err(message) => answer == Err::<(), String>(message),
        },
{
    match parsed {
        Ok(size) => {
            if size > 2 {
                Ok(())
            } else {
                Err(String::from_str("Generation size cannot be smaller than 3."))
            }
        },
        Err(msg) => Err(msg),
    }
}

/// Accepts a thread count of one or more; passes on what was wrong with the
/// text where it stood for no count.
pub fn check_threads(parsed: Result<usize, String>) -> (answer: Result<(), String>)
    ensures
        match parsed {
            Ok(threads) => answers(answer, threads > 0, threads_complaint()),
            Err(message) => answer == Err::<(), String>(message),
        },
{
    match parsed {
        Ok(num) => {
            if num > 0 {
                Ok(())
            } else {
                Err(String::from_str("TNumber of workers cannot be 0."))
            }
        },
        Err(msg) => Err(msg),
    }
}

/// Accepts a gap of one generation or more; passes on what was wrong with
/// the text where it stood for no gap.
pub fn check_every(parsed: Result<u32, String>) -> (answer: Result<(), String>)
    ensures
        match parsed {
            Ok(gap) => answers(answer, gap > 0, every_complaint()),
            Err(message) => answer == Err::<(), String>(message),
        },
{
    match parsed {
        Ok(size) => {
            if size > 0 {
                Ok(())
            } else {
                Err(String::from_str("Generation gap must be a positive integer."))
            }
        },
        Err(msg) => Err(msg),
    }
}

/// What a check answers for a text: it accepts a number that fits below
/// `limit` and is at least `least`; of a smaller number it complains in the
/// given words, and of any other text in the words of `refusal`.
pub open spec fn validates(
    answer: Result<(), String>,
    text: Seq<char>,
    least: nat,
    limit: nat,
    complaint: Seq<char>,
    refusal: Seq<char>,
) -> bool {
    match number_of(text) {
        Some(number) if number <= limit => answers(answer, number >= least, complaint),
        _ => answer matches Err(message) && message@ == refusal,
    }
}

/// Accepts a text that stands for a generation size of three or more.
pub fn validate_generation_size(s: &str) -> (answer: Result<(), String>)
    ensures
        validates(
            answer,
            s@,
            3,
            usize::MAX as nat,
            generation_size_complaint(),
            usize_parse_error(s@),
        ),
{
    check_generation_size(parse_usize(s))
}

/// Accepts a text that stands for a thread count of one or more.
pub fn validate_threads(s: &str) -> (answer: Result<(), String>)
    ensures
        validates(answer, s@, 1, usize::MAX as nat, threads_complaint(), usize_parse_error(s@)),
{
    check_threads(parse_usize(s))
}

/// Accepts a text that stands for a gap of one generation or more.
pub fn validate_every(s: &str) -> (answer: Result<(), String>)
    ensures
        validates(answer, s@, 1, u32::MAX as nat, every_complaint(), u32_parse_error(s@)),
{
    check_every(parse_u32(s))
}

} // verus!
