//! The high score as it is kept between sessions: a number written in
//! decimal digits. The host reads and writes the file; the library reads
//! the number out of what the file holds, decides whether a session's score
//! replaces it, and writes the digits.

use vstd::prelude::*;

verus! {

pub open spec fn is_digit(byte: u8) -> bool {
    48 <= byte <= 57
}

pub open spec fn all_digits(text: Seq<u8>) -> bool {
    forall|i: int| 0 <= i < text.len() ==> is_digit(#[trigger] text[i])
}

/// The number that a run of decimal digits stands for.
pub open spec fn decimal_value(digits: Seq<u8>) -> nat
    decreases digits.len(),
{
    if digits.len() == 0 {
        0
    } else {
        decimal_value(digits.drop_last()) * 10 + (digits.last() - 48) as nat
    }
}

/// The text without the plus sign that may stand in front of a number.
pub open spec fn without_sign(text: Seq<u8>) -> Seq<u8> {
    if text.len() > 0 && text[0] == 43 {
        text.subrange(1, text.len() as int)
    } else {
        text
    }
}

/// The number that the text holds: the text is a run of digits, at least
/// one, with or without a plus sign in front and nothing else, and the
/// number fits. No other text holds a number.
pub open spec fn parsed(text: Seq<u8>) -> Option<u64> {
    let digits = without_sign(text);
    if digits.len() > 0 && all_digits(digits) && decimal_value(digits) <= u64::MAX {
        Some(decimal_value(digits) as u64)
    } else {
        None
    }
}

/// The high score that is kept: the number in the file, and zero where
/// there is no file or it holds no number.
pub open spec fn stored(contents: Option<&[u8]>) -> u64 {
    match contents {
        Some(text) => match parsed(text@) {
            Some(value) => value,
            None => 0,
        },
        None => 0,
    }
}

/// The decimal digits of a number, the highest first, without zeros in
/// front.
pub open spec fn digits_of(n: nat) -> Seq<u8>
    decreases n,
{
    if n < 10 {
        seq![(48 + n) as u8]
    } else {
        digits_of(n / 10).push((48 + n % 10) as u8)
    }
}

/// The high score that is kept once a session has ended with `score`: the
/// greater of the two.
pub open spec fn kept(stored: u64, score: u64) -> u64 {
    if stored < score {
        score
    } else {
        stored
    }
}

/// A run of digits stands for at least as much as any of its beginnings.
pub proof fn lemma_value_grows(digits: Seq<u8>, n: int)
    requires
        0 <= n <= digits.len(),
        all_digits(digits),
    ensures
        decimal_value(digits.take(n)) <= decimal_value(digits),
    decreases digits.len(),
{
    if n == digits.len() {
        assert(digits.take(n) =~= digits);
    } else {
        assert(digits.take(n) =~= digits.drop_last().take(n));
        assert(is_digit(digits[digits.len() - 1]));
        lemma_value_grows(digits.drop_last(), n);
    }
}

/// The digits of a number are digits, and stand for that number.
pub proof fn lemma_digits_of(n: nat)
    ensures
        digits_of(n).len() > 0,
        all_digits(digits_of(n)),
        decimal_value(digits_of(n)) == n,
    decreases n,
{
    if n < 10 {
        let digits = digits_of(n);
        assert(digits.drop_last() =~= Seq::<u8>::empty());
        assert(decimal_value(digits.drop_last()) == 0);
    } else {
        lemma_digits_of(n / 10);
        let digits = digits_of(n);
        assert(digits.drop_last() =~= digits_of(n / 10));
        assert(digits.last() == (48 + n % 10) as u8);
        assert forall|i: int| 0 <= i < digits.len() implies is_digit(#[trigger] digits[i]) by {
            if i < digits.len() - 1 {
                assert(digits[i] == digits_of(n / 10)[i]);
            }
        }
    }
}

/// What is written for a score is read back as that score.
pub proof fn lemma_written_score_is_read_back(score: u64)
    ensures
        parsed(digits_of(score as nat)) == Some(score),
{
    lemma_digits_of(score as nat);
    let digits = digits_of(score as nat);
    assert(is_digit(digits[0]));
    assert(without_sign(digits) == digits);
}

/// The high score that is kept never falls, and a session's score that is
/// not above it leaves it as it is.
pub proof fn lemma_high_score_never_falls(stored: u64, score: u64)
    ensures
        kept(stored, score) >= stored,
        kept(stored, score) >= score,
        score <= stored ==> kept(stored, score) == stored,
{
}

/// The number that the text holds, if it holds one.
pub fn parse_high_score(text: &[u8]) -> (value: Option<u64>)
    ensures
        value == parsed(text@),
{
    let length: usize = text.len();
    let start: usize = if length > 0 && text[0] == 43 {
        1
    } else {
        0
    };
    let ghost digits = without_sign(text@);
    assert(digits =~= text@.subrange(start as int, length as int));
    if start == length {
        return None;
    }
    let mut value: u64 = 0;
    let mut i: usize = start;
    proof {
        assert(digits.take(0) =~= Seq::<u8>::empty());
    }
    while i < length
        invariant
            start <= i <= length,
            length == text@.len(),
            digits == text@.subrange(start as int, length as int),
            digits == without_sign(text@),
            all_digits(digits.take(i - start)),
            value == decimal_value(digits.take(i - start)),
        decreases length - i,
    {
        let byte: u8 = text[i];
        let ghost n = i - start;
        proof {
            assert(digits[n] == byte);
            assert(digits.take(n + 1).drop_last() =~= digits.take(n));
            assert(digits.take(n + 1).last() == byte);
        }
        if byte < 48 || byte > 57 {
            proof {
                assert(!is_digit(digits[n]));
            }
            return None;
        }
        proof {
            assert forall|k: int| 0 <= k < n + 1 implies is_digit(
                #[trigger] digits.take(n + 1)[k],
            ) by {
                if k < n {
                    assert(digits.take(n + 1)[k] == digits.take(n)[k]);
                }
            }
        }
        let digit: u64 = (byte - 48) as u64;
        if value > (u64::MAX - digit) / 10 {
            proof {
                assert(decimal_value(digits.take(n + 1)) > u64::MAX);
                if all_digits(digits) {
                    lemma_value_grows(digits, n + 1);
                }
            }
            return None;
        }
        value = value * 10 + digit;
        i = i + 1;
    }
    proof {
        assert(digits.take(length - start) =~= digits);
    }
    Some(value)
}

/// The high score that is kept: the number in the file, and zero where
/// there is no file or it holds no number.
pub fn get_high_score(contents: Option<&[u8]>) -> (score: u64)
    ensures
        score == stored(contents),
{
    match contents {
        Some(text) => match parse_high_score(text) {
            Some(value) => value,
            None => 0,
        },
        None => 0,
    }
}

/// The decimal digits of a number.
pub fn format_decimal(n: u64) -> (digits: Vec<u8>)
    ensures
        digits@ == digits_of(n as nat),
        parsed(digits@) == Some(n),
    decreases n,
{
    proof {
        lemma_written_score_is_read_back(n);
    }
    if n < 10 {
        let mut digits: Vec<u8> = Vec::new();
        digits.push(48 + (n as u8));
        assert(digits@ =~= digits_of(n as nat));
        digits
    } else {
        let mut digits: Vec<u8> = format_decimal(n / 10);
        digits.push(48 + ((n % 10) as u8));
        digits
    }
}

/// What is to be written when a session ends with `score`: its digits
/// where it is above the high score that is kept, and nothing where it is
/// not.
pub fn save_high_score(contents: Option<&[u8]>, score: u64) -> (text: Option<Vec<u8>>)
    ensures
        text is Some <==> stored(contents) < score,
        text matches Some(digits) ==> digits@ == digits_of(score as nat) && parsed(digits@)
            == Some(score),
{
    if get_high_score(contents) < score {
        Some(format_decimal(score))
    } else {
        None
    }
}

} // verus!
