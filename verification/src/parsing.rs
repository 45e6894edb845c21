//! The notation of queues and bags, read with regular expressions.

use regex::Regex;
use vstd::prelude::*;
use vstd::std_specs::convert::IntoSpec;
use vstd::string::*;
use std::collections::VecDeque;
use crate::pattern::{lemma_weight_after_gain, lemma_weight_of_even_bag, weight_before, Pattern};
use crate::queue::Queue;
use crate::tetromino::Tetromino;

verus! {

/// Values that can be read from the queue notation.
pub trait Parsing: Sized {
    fn parse<T: Into<String>>(input: T) -> Result<Self, String>;
}

/// What a search for a named group of a regular expression gave.
pub enum Capture {
    /// The expression is no regular expression.
    Invalid,
    /// The expression matches nowhere in the text.
    Unmatched,
    /// The expression matches, and the group took no part in the match.
    Absent,
    /// The part of the text that the group matched.
    Found(String),
}

/// The notation of one bag: a set of variant letters in brackets, or a
/// star for all variants, and after it the letter p and a number of draws.
pub const PATTERN_EXPRESSION: &'static str = r"^((?<pattern>\[.+?\])|(?<all>\*))(p(?<amount>\d+))?$";

/// What the first match of the regular expression `expression` in `input`
/// gives for the group `name`.
pub uninterp spec fn regex_capture_of(
    expression: Seq<char>,
    input: Seq<char>,
    name: Seq<char>,
) -> Capture;

/// Calls `regex::Regex::new` on `expression`, `Regex::captures` on `input`
/// and `Captures::name` with `name`, and copies the text of the `Match`.
/// The outcome depends on the three texts alone; nothing else is claimed
/// of it.
#[verifier::external_body]
fn regex_capture(expression: &str, input: &str, name: &str) -> (capture: Capture)
    ensures
        capture == regex_capture_of(expression@, input@, name@),
{
    match Regex::new(expression) {
        Err(_) => Capture::Invalid,
        Ok(regex) => match regex.captures(input) {
            None => Capture::Unmatched,
            Some(captures) => match captures.name(name) {
                None => Capture::Absent,
                Some(found) => Capture::Found(found.as_str().to_string()),
            },
        },
    }
}

/// The variant that a letter names.
pub open spec fn letter_variant(letter: char) -> Option<Tetromino> {
    if letter == 'I' {
        Some(Tetromino::I)
    } else if letter == 'O' {
        Some(Tetromino::O)
    } else if letter == 'T' {
        Some(Tetromino::T)
    } else if letter == 'L' {
        Some(Tetromino::L)
    } else if letter == 'S' {
        Some(Tetromino::S)
    } else if letter == 'B' {
        Some(Tetromino::B)
    } else if letter == 'D' {
        Some(Tetromino::D)
    } else if letter == 'F' {
        Some(Tetromino::F)
    } else {
        None
    }
}

/// The message for a text that names no variant.
pub open spec fn stranger_message(text: Seq<char>) -> Seq<char> {
    "Invalid tetromino character '"@ + text + "'"@
}

/// The variant that a text names: the text is one variant letter.
pub open spec fn spec_parse_tetromino(text: Seq<char>) -> Result<Tetromino, Seq<char>> {
    if text.len() == 1 && letter_variant(text[0]).is_some() {
        Ok(letter_variant(text[0]).unwrap())
    } else {
        Err(stranger_message(text))
    }
}

/// Whether `parsed` has the variant or the message of `wanted`.
pub open spec fn is_tetromino_result(
    parsed: Result<Tetromino, String>,
    wanted: Result<Tetromino, Seq<char>>,
) -> bool {
    match wanted {
        Ok(variant) => parsed == Ok::<Tetromino, String>(variant),
        Err(message) => parsed matches Err(text) && text@ == message,
    }
}

impl Tetromino {
    /// The variant that `letter` names.
    pub fn from_letter(letter: char) -> (variant: Option<Self>)
        ensures
            variant == letter_variant(letter),
    {
        if letter == 'I' {
            Some(Tetromino::I)
        } else if letter == 'O' {
            Some(Tetromino::O)
        } else if letter == 'T' {
            Some(Tetromino::T)
        } else if letter == 'L' {
            Some(Tetromino::L)
        } else if letter == 'S' {
            Some(Tetromino::S)
        } else if letter == 'B' {
            Some(Tetromino::B)
        } else if letter == 'D' {
            Some(Tetromino::D)
        } else if letter == 'F' {
            Some(Tetromino::F)
        } else {
            None
        }
    }

    /// The variant that `text` names, or the message that it names none.
    pub fn parse_text(text: &str) -> (parsed: Result<Self, String>)
        ensures
            is_tetromino_result(parsed, spec_parse_tetromino(text@)),
    {
        if text.unicode_len() == 1 {
            if let Some(variant) = Self::from_letter(text.get_char(0)) {
                return Ok(variant);
            }
        }
        Err(String::from_str("Invalid tetromino character '").concat(text).concat("'"))
    }
}

impl Parsing for Tetromino {
    fn parse<T: Into<String>>(input: T) -> (parsed: Result<Self, String>)
        ensures
            T::obeys_into_spec() ==> is_tetromino_result(
                parsed,
                spec_parse_tetromino(T::into_spec(input)@),
            ),
    {
        let text: String = input.into();
        Self::parse_text(text.as_str())
    }
}

/// The number that a decimal digit stands for.
pub open spec fn digit_value(digit: char) -> Option<int> {
    if digit == '0' {
        Some(0)
    } else if digit == '1' {
        Some(1)
    } else if digit == '2' {
        Some(2)
    } else if digit == '3' {
        Some(3)
    } else if digit == '4' {
        Some(4)
    } else if digit == '5' {
        Some(5)
    } else if digit == '6' {
        Some(6)
    } else if digit == '7' {
        Some(7)
    } else if digit == '8' {
        Some(8)
    } else if digit == '9' {
        Some(9)
    } else {
        None
    }
}

/// The number that the digits of `text` from `from` up to `upto` write.
pub open spec fn decimal_value(text: Seq<char>, from: int, upto: int) -> int
    decreases upto - from,
{
    if upto <= from {
        0
    } else {
        decimal_value(text, from, upto - 1) * 10 + match digit_value(text[upto - 1]) {
            Some(value) => value,
            None => 0,
        }
    }
}

/// Whether `text` holds digits only from `from` on.
pub open spec fn digits_from(text: Seq<char>, from: int) -> bool {
    forall|at: int| from <= at < text.len() ==> digit_value(#[trigger] text[at]).is_some()
}

/// The number of draws that `text` asks for: the number that it writes in
/// decimal digits, after a plus sign or none, where it fits a `usize`, and
/// one draw else.
pub open spec fn spec_amount(text: Seq<char>) -> int {
    let from: int = if text.len() > 0 && text[0] == '+' {
        1
    } else {
        0
    };
    if from < text.len() && digits_from(text, from) && decimal_value(text, from, text.len() as int)
        <= usize::MAX {
        decimal_value(text, from, text.len() as int)
    } else {
        1
    }
}

/// A number does not get less by a further digit.
pub proof fn lemma_decimal_grows(text: Seq<char>, from: int, fewer: int, more: int)
    requires
        from <= fewer <= more,
    ensures
        0 <= decimal_value(text, from, fewer) <= decimal_value(text, from, more),
    decreases more - from,
{
    if from < more {
        if fewer < more {
            lemma_decimal_grows(text, from, fewer, more - 1);
        } else {
            lemma_decimal_grows(text, from, fewer - 1, more - 1);
        }
    }
}

fn digit_of(digit: char) -> (value: Option<usize>)
    ensures
        match digit_value(digit) {
            Some(wanted) => value == Some(wanted as usize),
            None => value.is_none(),
        },
{
    if digit == '0' {
        Some(0)
    } else if digit == '1' {
        Some(1)
    } else if digit == '2' {
        Some(2)
    } else if digit == '3' {
        Some(3)
    } else if digit == '4' {
        Some(4)
    } else if digit == '5' {
        Some(5)
    } else if digit == '6' {
        Some(6)
    } else if digit == '7' {
        Some(7)
    } else if digit == '8' {
        Some(8)
    } else if digit == '9' {
        Some(9)
    } else {
        None
    }
}

/// The number of draws that `text` asks for.
pub fn amount_of(text: &str) -> (amount: usize)
    ensures
        amount == spec_amount(text@),
{
    let length = text.unicode_len();
    let from: usize = if length > 0 && text.get_char(0) == '+' {
        1
    } else {
        0
    };
    if from >= length {
        return 1;
    }
    let mut value: usize = 0;
    let mut at = from;
    while at < length
        invariant
            from <= at <= length,
            length == text@.len(),
            from == (if text@.len() > 0 && text@[0] == '+' {
                1int
            } else {
                0int
            }),
            value == decimal_value(text@, from as int, at as int),
            forall|seen: int| from <= seen < at ==> digit_value(#[trigger] text@[seen]).is_some(),
        decreases length - at,
    {
        match digit_of(text.get_char(at)) {
            None => {
                return 1;
            },
            Some(digit) => {
                if value > (usize::MAX - digit) / 10 {
                    proof {
                        lemma_decimal_grows(text@, from as int, at + 1, length as int);
                    }
                    return 1;
                }
                value = value * 10 + digit;
            },
        }
        at += 1;
    }
    value
}

/// The letters of a bag: a set in brackets without its brackets.
pub open spec fn set_letters(set: Capture) -> Option<Seq<char>> {
    match set {
        Capture::Found(text) => if text@.len() >= 2 {
            Some(text@.subrange(1, text@.len() - 1))
        } else {
            None
        },
        _ => None,
    }
}

/// Index of the first letter from `from` on that names no variant, or the
/// number of letters.
pub open spec fn first_stranger(letters: Seq<char>, from: int) -> int
    decreases letters.len() - from,
{
    if from < 0 || from >= letters.len() {
        letters.len() as int
    } else if letter_variant(letters[from]).is_none() {
        from
    } else {
        first_stranger(letters, from + 1)
    }
}

/// How often `variant` is named by the first `upto` letters.
pub open spec fn count_letter(letters: Seq<char>, upto: int, variant: Tetromino) -> int
    decreases upto,
{
    if upto <= 0 {
        0
    } else {
        count_letter(letters, upto - 1, variant) + if letter_variant(letters[upto - 1]) == Some(
            variant,
        ) {
            1int
        } else {
            0int
        }
    }
}

/// The number of draws that the notation asks for: one where it names none.
pub open spec fn pattern_amount(amount: Capture) -> int {
    match amount {
        Capture::Found(text) => spec_amount(text@),
        _ => 1,
    }
}

/// How many pieces of `variant` the notation puts into the bag: one of
/// each for the star, else as many as the set names.
pub open spec fn pattern_count(all: Capture, set: Capture, variant: Tetromino) -> int {
    match all {
        Capture::Found(_) => 1,
        _ => match set_letters(set) {
            Some(letters) => count_letter(letters, letters.len() as int, variant),
            None => 0,
        },
    }
}

/// The message for a notation that gives no bag, or nothing where it gives
/// one. The three groups are the star, the set and the number of draws.
pub open spec fn pattern_failure(all: Capture, set: Capture, amount: Capture) -> Option<Seq<char>> {
    match all {
        Capture::Invalid => Some("Invalid regex pattern!"@),
        Capture::Unmatched => Some("Invalid pattern format!"@),
        Capture::Found(_) => if pattern_amount(amount) > 8 {
            Some("Amount may not be greater than the number of tetrominos in the tetromino set!"@)
        } else {
            None
        },
        Capture::Absent => match set_letters(set) {
            None => Some("Invalid tetromino set!"@),
            Some(letters) => {
                let stranger = first_stranger(letters, 0);
                if stranger < letters.len() {
                    Some(stranger_message(seq![letters[stranger]]))
                } else if pattern_amount(amount) > letters.len() {
                    Some(
                        "Amount may not be greater than the number of tetrominos in the tetromino set!"@,
                    )
                } else {
                    None
                }
            },
        },
    }
}

/// Whether `parsed` is what the three groups of a notation give: the
/// message, or the bag with the pieces and the draws asked for.
pub open spec fn is_pattern_result(
    parsed: Result<Pattern, String>,
    all: Capture,
    set: Capture,
    amount: Capture,
) -> bool {
    match pattern_failure(all, set, amount) {
        Some(message) => parsed matches Err(text) && text@ == message,
        None => parsed matches Ok(pattern) && pattern.draw_count == pattern_amount(amount)
            && forall|variant: Tetromino| #[trigger]
            pattern.tetromino_set[variant.spec_index()] == pattern_count(all, set, variant),
    }
}

/// Whether `parsed` is what the notation `input` of a bag gives.
pub open spec fn is_parsed_pattern(parsed: Result<Pattern, String>, input: Seq<char>) -> bool {
    is_pattern_result(
        parsed,
        regex_capture_of(PATTERN_EXPRESSION@, input, "all"@),
        regex_capture_of(PATTERN_EXPRESSION@, input, "pattern"@),
        regex_capture_of(PATTERN_EXPRESSION@, input, "amount"@),
    )
}

impl Pattern {
    /// The bag that the three groups of a notation give: the star, the set
    /// and the number of draws.
    pub fn from_captures(
        all: &Capture,
        set: &Capture,
        amount: &Capture,
    ) -> (parsed: Result<Self, String>)
        ensures
            is_pattern_result(parsed, *all, *set, *amount),
            parsed matches Ok(pattern) ==> pattern.wf(),
    {
        let mut tetromino_set = [0usize; 8];
        proof {
            lemma_weight_of_even_bag(tetromino_set@, 0);
        }
        let length: usize;
        match all {
            Capture::Invalid => {
                return Err(String::from_str("Invalid regex pattern!"));
            },
            Capture::Unmatched => {
                return Err(String::from_str("Invalid pattern format!"));
            },
            Capture::Found(_) => {
                tetromino_set = [1usize; 8];
                length = 8;
                proof {
                    lemma_weight_of_even_bag(tetromino_set@, 1);
                }
            },
            Capture::Absent => {
                let text = match set {
                    Capture::Found(text) => text.as_str(),
                    _ => {
                        return Err(String::from_str("Invalid tetromino set!"));
                    },
                };
                let count = text.unicode_len();
                if count < 2 {
                    return Err(String::from_str("Invalid tetromino set!"));
                }
                let ghost letters = text@.subrange(1, count - 1);
                let mut at: usize = 1;
                while at < count - 1
                    invariant
                        2 <= count == text@.len(),
                        1 <= at <= count - 1,
                        *all matches Capture::Absent,
                        set_letters(*set) == Some(letters),
                        letters == text@.subrange(1, count - 1),
                        first_stranger(letters, 0) == first_stranger(letters, at - 1),
                        forall|variant: Tetromino| #[trigger]
                            tetromino_set[variant.spec_index()] == count_letter(
                                letters,
                                at - 1,
                                variant,
                            ),
                        forall|index: int| 0 <= index < 8 ==> #[trigger] tetromino_set[index] <= at,
                        weight_before(tetromino_set@, 8) == at - 1,
                    decreases count - at,
                {
                    let letter = text.get_char(at);
                    assert(letters[at - 1] == letter);
                    match Tetromino::from_letter(letter) {
                        None => {
                            let one = text.substring_char(at, at + 1);
                            assert(one@ =~= seq![letter]);
                            assert(first_stranger(letters, at - 1) == at - 1);
                            return Err(
                                String::from_str("Invalid tetromino character '").concat(
                                    one,
                                ).concat("'"),
                            );
                        },
                        Some(found) => {
                            let index = found.index();
                            let ghost before = tetromino_set;
                            tetromino_set[index] = tetromino_set[index] + 1;
                            proof {
                                lemma_weight_after_gain(before@, tetromino_set@, index as int, 8);
                                assert forall|variant: Tetromino| #[trigger]
                                    tetromino_set[variant.spec_index()] == count_letter(
                                    letters,
                                    at as int,
                                    variant,
                                ) by {
                                    assert(before[variant.spec_index()] == count_letter(
                                        letters,
                                        at - 1,
                                        variant,
                                    ));
                                }
                            }
                        },
                    }
                    at += 1;
                }
                length = count - 2;
            },
        }
        let draw_count = match amount {
            Capture::Found(text) => amount_of(text.as_str()),
            _ => 1,
        };
        if draw_count > length {
            return Err(
                String::from_str(
                    "Amount may not be greater than the number of tetrominos in the tetromino set!",
                ),
            );
        }
        Ok(Self { tetromino_set, draw_count })
    }

    /// The bag that the notation `input` gives.
    pub fn parse_text(input: &str) -> (parsed: Result<Self, String>)
        ensures
            is_parsed_pattern(parsed, input@),
            parsed matches Ok(pattern) ==> pattern.wf(),
    {
        let all = regex_capture(PATTERN_EXPRESSION, input, "all");
        let set = regex_capture(PATTERN_EXPRESSION, input, "pattern");
        let amount = regex_capture(PATTERN_EXPRESSION, input, "amount");
        Self::from_captures(&all, &set, &amount)
    }
}

impl Parsing for Pattern {
    fn parse<T: Into<String>>(input: T) -> (parsed: Result<Self, String>)
        ensures
            T::obeys_into_spec() ==> is_parsed_pattern(parsed, T::into_spec(input)@),
            parsed matches Ok(pattern) ==> pattern.wf(),
    {
        let text: String = input.into();
        Self::parse_text(text.as_str())
    }
}

/// The notation of a queue from its start: the held variant and a colon,
/// or neither, and the first bag.
pub const QUEUE_EXPRESSION: &'static str = r"^((?<hold>.):)?(?<pattern>((\[.+?\])|\*)(p\d+)?)";

/// The notation of a bag anywhere in the notation of a queue.
pub const SEQUENCE_EXPRESSION: &'static str = r"(?<pattern>((\[.+?\])|\*)(p\d+)?)";

/// What the matches of the regular expression `expression` in `input`
/// give for the group `name`, one after another, or nothing where the
/// expression is no regular expression.
pub uninterp spec fn regex_captures_all_of(
    expression: Seq<char>,
    input: Seq<char>,
    name: Seq<char>,
) -> Option<Vec<Option<String>>>;

/// Calls `regex::Regex::new` on `expression`, `Regex::captures_iter` on
/// `input` and, for each match, `Captures::name` with `name`, and copies
/// the text of each `Match`. The outcome depends on the three texts alone;
/// nothing else is claimed of it.
#[verifier::external_body]
fn regex_captures_all(
    expression: &str,
    input: &str,
    name: &str,
) -> (found: Option<Vec<Option<String>>>)
    ensures
        found == regex_captures_all_of(expression@, input@, name@),
{
    match Regex::new(expression) {
        Err(_) => None,
        Ok(regex) => Some(
            regex.captures_iter(input).map(
                |captures| captures.name(name).map(|found| found.as_str().to_string()),
            ).collect(),
        ),
    }
}

/// The decimal digit for a number below ten.
pub open spec fn digit_char(digit: int) -> char {
    if digit == 0 {
        '0'
    } else if digit == 1 {
        '1'
    } else if digit == 2 {
        '2'
    } else if digit == 3 {
        '3'
    } else if digit == 4 {
        '4'
    } else if digit == 5 {
        '5'
    } else if digit == 6 {
        '6'
    } else if digit == 7 {
        '7'
    } else if digit == 8 {
        '8'
    } else {
        '9'
    }
}

/// The decimal digits of a number.
pub open spec fn decimal_of(number: int) -> Seq<char>
    decreases number,
{
    if number < 10 {
        seq![digit_char(number)]
    } else {
        decimal_of(number / 10) + seq![digit_char(number % 10)]
    }
}

fn digit_text(digit: usize) -> (text: &'static str)
    requires
        digit < 10,
    ensures
        text@ == seq![digit_char(digit as int)],
{
    if digit == 0 {
        proof {
            reveal_strlit("0");
            assert("0"@ =~= seq!['0']);
        }
        "0"
    } else if digit == 1 {
        proof {
            reveal_strlit("1");
            assert("1"@ =~= seq!['1']);
        }
        "1"
    } else if digit == 2 {
        proof {
            reveal_strlit("2");
            assert("2"@ =~= seq!['2']);
        }
        "2"
    } else if digit == 3 {
        proof {
            reveal_strlit("3");
            assert("3"@ =~= seq!['3']);
        }
        "3"
    } else if digit == 4 {
        proof {
            reveal_strlit("4");
            assert("4"@ =~= seq!['4']);
        }
        "4"
    } else if digit == 5 {
        proof {
            reveal_strlit("5");
            assert("5"@ =~= seq!['5']);
        }
        "5"
    } else if digit == 6 {
        proof {
            reveal_strlit("6");
            assert("6"@ =~= seq!['6']);
        }
        "6"
    } else if digit == 7 {
        proof {
            reveal_strlit("7");
            assert("7"@ =~= seq!['7']);
        }
        "7"
    } else if digit == 8 {
        proof {
            reveal_strlit("8");
            assert("8"@ =~= seq!['8']);
        }
        "8"
    } else {
        proof {
            reveal_strlit("9");
            assert("9"@ =~= seq!['9']);
        }
        "9"
    }
}

/// Writes a number in decimal digits.
pub fn decimal(number: usize) -> (text: String)
    ensures
        text@ == decimal_of(number as int),
    decreases number,
{
    if number < 10 {
        String::from_str(digit_text(number))
    } else {
        decimal(number / 10).concat(digit_text(number % 10))
    }
}

/// The message for the notation `input` of a bag that gives no bag.
pub open spec fn pattern_text_failure(input: Seq<char>) -> Option<Seq<char>> {
    pattern_failure(
        regex_capture_of(PATTERN_EXPRESSION@, input, "all"@),
        regex_capture_of(PATTERN_EXPRESSION@, input, "pattern"@),
        regex_capture_of(PATTERN_EXPRESSION@, input, "amount"@),
    )
}

/// What the held variant is read from: the first character that the group
/// of the hold matched.
pub open spec fn hold_letter(text: Seq<char>) -> Seq<char> {
    if text.len() >= 1 {
        text.subrange(0, 1)
    } else {
        text
    }
}

/// The held variant that the notation of a queue gives.
pub open spec fn hold_variant(hold: Capture) -> Option<Tetromino> {
    match hold {
        Capture::Found(text) => match spec_parse_tetromino(hold_letter(text@)) {
            Ok(variant) => Some(variant),
            Err(_) => None,
        },
        _ => None,
    }
}

/// The message for a hold that gives no queue.
pub open spec fn hold_failure(hold: Capture) -> Option<Seq<char>> {
    match hold {
        Capture::Invalid => Some("Invalid regex pattern!"@),
        Capture::Unmatched => Some("Invalid queue format!"@),
        Capture::Absent => None,
        Capture::Found(text) => match spec_parse_tetromino(hold_letter(text@)) {
            Ok(_) => None,
            Err(message) => Some(message + " at hold!"@),
        },
    }
}

/// Index of the first bag from `from` on whose notation gives no bag, or
/// the number of matches.
pub open spec fn first_bad_bag(bags: Seq<Option<String>>, from: int) -> int
    decreases bags.len() - from,
{
    if from < 0 || from >= bags.len() {
        bags.len() as int
    } else if bags[from] matches Some(text) && pattern_text_failure(text@).is_some() {
        from
    } else {
        first_bad_bag(bags, from + 1)
    }
}

/// Number of bags among the first `upto` matches.
pub open spec fn bags_before(bags: Seq<Option<String>>, upto: int) -> int
    decreases upto,
{
    if upto <= 0 {
        0
    } else {
        bags_before(bags, upto - 1) + if bags[upto - 1].is_some() {
            1int
        } else {
            0int
        }
    }
}

/// The message for a notation that gives no queue, or nothing where it
/// gives one: the hold is looked at first, then the bags in their order.
pub open spec fn queue_failure(hold: Capture, found: Option<Vec<Option<String>>>) -> Option<
    Seq<char>,
> {
    match hold_failure(hold) {
        Some(message) => Some(message),
        None => match found {
            None => Some("Invalid regex pattern!"@),
            Some(bags) => {
                let bad = first_bad_bag(bags@, 0);
                if bad < bags@.len() {
                    Some(
                        pattern_text_failure(bags@[bad].unwrap()@).unwrap() + " at pattern "@
                            + decimal_of(bad + 1) + "!"@,
                    )
                } else {
                    None
                }
            },
        },
    }
}

/// Whether `parsed` is what the hold and the matched bags of a notation
/// give: the message, or the queue of the bags in their order, which can
/// still swap.
pub open spec fn is_queue_result(
    parsed: Result<Queue, String>,
    hold: Capture,
    found: Option<Vec<Option<String>>>,
) -> bool {
    match queue_failure(hold, found) {
        Some(message) => parsed matches Err(text) && text@ == message,
        None => {
            let bags = found.unwrap()@;
            &&& parsed matches Ok(queue)
            &&& parsed.unwrap().hold == hold_variant(hold)
            &&& parsed.unwrap().can_swap
            &&& parsed.unwrap().sequence@.len() == bags_before(bags, bags.len() as int)
            &&& forall|at: int|
                0 <= at < bags.len() && (#[trigger] bags[at]).is_some() ==> is_parsed_pattern(
                    Ok(parsed.unwrap().sequence@[bags_before(bags, at)]),
                    bags[at].unwrap()@,
                )
        },
    }
}

/// Whether `parsed` is what the notation `input` of a queue gives.
pub open spec fn is_parsed_queue(parsed: Result<Queue, String>, input: Seq<char>) -> bool {
    is_queue_result(
        parsed,
        regex_capture_of(QUEUE_EXPRESSION@, input, "hold"@),
        regex_captures_all_of(SEQUENCE_EXPRESSION@, input, "pattern"@),
    )
}

/// No more bags stand before a match than matches.
pub proof fn lemma_bags_before(bags: Seq<Option<String>>, upto: int)
    requires
        0 <= upto,
    ensures
        0 <= bags_before(bags, upto) <= upto,
    decreases upto,
{
    if upto > 0 {
        lemma_bags_before(bags, upto - 1);
    }
}

impl Queue {
    /// The queue that the hold and the matched bags of a notation give.
    pub fn from_captures(
        hold: &Capture,
        found: &Option<Vec<Option<String>>>,
    ) -> (parsed: Result<Self, String>)
        ensures
            is_queue_result(parsed, *hold, *found),
            parsed matches Ok(queue) ==> queue.wf(),
    {
        let held = match hold {
            Capture::Invalid => {
                return Err(String::from_str("Invalid regex pattern!"));
            },
            Capture::Unmatched => {
                return Err(String::from_str("Invalid queue format!"));
            },
            Capture::Absent => None,
            Capture::Found(text) => {
                let text = text.as_str();
                let first = if text.unicode_len() >= 1 {
                    text.substring_char(0, 1)
                } else {
                    text
                };
                match Tetromino::parse_text(first) {
                    Ok(variant) => Some(variant),
                    Err(message) => {
                        return Err(message.concat(" at hold!"));
                    },
                }
            },
        };
        let bags = match found {
            None => {
                return Err(String::from_str("Invalid regex pattern!"));
            },
            Some(bags) => bags,
        };
        let mut sequence: VecDeque<Pattern> = VecDeque::new();
        let mut at: usize = 0;
        while at < bags.len()
            invariant
                at <= bags@.len(),
                hold_failure(*hold).is_none(),
                held == hold_variant(*hold),
                *found == Some(*bags),
                first_bad_bag(bags@, 0) == first_bad_bag(bags@, at as int),
                sequence@.len() == bags_before(bags@, at as int),
                forall|bag: int| 0 <= bag < sequence@.len() ==> (#[trigger] sequence@[bag]).wf(),
                forall|seen: int|
                    0 <= seen < at && (#[trigger] bags@[seen]).is_some() ==> is_parsed_pattern(
                        Ok(sequence@[bags_before(bags@, seen)]),
                        bags@[seen].unwrap()@,
                    ),
            decreases bags@.len() - at,
        {
            let ghost before = sequence@;
            if let Some(text) = &bags[at] {
                match Pattern::parse_text(text.as_str()) {
                    Ok(pattern) => {
                        sequence.push_back(pattern);
                    },
                    Err(message) => {
                        assert(first_bad_bag(bags@, at as int) == at);
                        return Err(
                            message.concat(" at pattern ").concat(decimal(at + 1).as_str()).concat(
                                "!",
                            ),
                        );
                    },
                }
            }
            proof {
                assert forall|seen: int|
                    0 <= seen < at + 1 && (#[trigger] bags@[seen]).is_some() implies is_parsed_pattern(
                    Ok(sequence@[bags_before(bags@, seen)]),
                    bags@[seen].unwrap()@,
                ) by {
                    lemma_bags_before(bags@, seen);
                    if seen < at {
                        lemma_bags_between(bags@, seen, at as int);
                        assert(sequence@[bags_before(bags@, seen)] == before[bags_before(
                            bags@,
                            seen,
                        )]);
                    }
                }
            }
            at += 1;
        }
        Ok(Self { sequence, hold: held, can_swap: true })
    }

    /// The queue that the notation `input` gives.
    pub fn parse_text(input: &str) -> (parsed: Result<Self, String>)
        ensures
            is_parsed_queue(parsed, input@),
            parsed matches Ok(queue) ==> queue.wf(),
    {
        let hold = regex_capture(QUEUE_EXPRESSION, input, "hold");
        let found = regex_captures_all(SEQUENCE_EXPRESSION, input, "pattern");
        Self::from_captures(&hold, &found)
    }
}

/// A bag at a match stands before the bags of the later matches.
pub proof fn lemma_bags_between(bags: Seq<Option<String>>, first: int, second: int)
    requires
        0 <= first < second,
        bags[first].is_some(),
    ensures
        bags_before(bags, first) < bags_before(bags, second),
    decreases second - first,
{
    if first + 1 < second {
        lemma_bags_between(bags, first, second - 1);
    }
}

impl Parsing for Queue {
    fn parse<T: Into<String>>(value: T) -> (parsed: Result<Self, String>)
        ensures
            T::obeys_into_spec() ==> is_parsed_queue(parsed, T::into_spec(value)@),
            parsed matches Ok(queue) ==> queue.wf(),
    {
        let text: String = value.into();
        Self::parse_text(text.as_str())
    }
}

} // verus!
