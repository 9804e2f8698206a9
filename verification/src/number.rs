//! Unsigned numbers as decimal text, both ways.
//!
//! Reading follows the rules of the standard integer parser: an optional
//! leading `+`, then one or more ASCII digits, nothing else; the text is read
//! left to right and the first character that cannot be taken decides the
//! failure.

use vstd::prelude::*;

verus! {

/// Why a text is not a number.
#[derive(Clone, Copy, Debug, PartialEq, Eq, Structural)]
pub enum NumberError {
    /// The text is empty.
    Empty,
    /// A character is no decimal digit (a lone sign counts as one).
    InvalidDigit,
    /// The digits read so far no longer fit the target type.
    PosOverflow,
}

/// Whether a character is one of the ten decimal digits.
pub open spec fn is_digit(c: char) -> bool {
    '0' <= c && c <= '9'
}

/// The number a decimal digit stands for.
pub open spec fn digit_value(c: char) -> nat
    recommends
        is_digit(c),
{
    (c as u32 - '0' as u32) as nat
}

/// The decimal digit of a number below ten.
pub open spec fn digit_char(d: nat) -> char
    recommends
        d < 10,
{
    if d == 0 {
        '0'
    } else if d == 1 {
        '1'
    } else if d == 2 {
        '2'
    } else if d == 3 {
        '3'
    } else if d == 4 {
        '4'
    } else if d == 5 {
        '5'
    } else if d == 6 {
        '6'
    } else if d == 7 {
        '7'
    } else if d == 8 {
        '8'
    } else {
        '9'
    }
}

/// A number in decimal, without sign or leading zeros.
pub open spec fn decimal_text(n: nat) -> Seq<char>
    decreases n,
{
    if n < 10 {
        seq![digit_char(n)]
    } else {
        decimal_text(n / 10).push(digit_char(n % 10))
    }
}

/// Whether every character is a decimal digit.
pub open spec fn all_digits(s: Seq<char>) -> bool {
    forall|i: int| 0 <= i < s.len() ==> is_digit(#[trigger] s[i])
}

/// The number that a run of decimal digits denotes.
pub open spec fn digits_value(s: Seq<char>) -> nat
    decreases s.len(),
{
    if s.len() == 0 {
        0
    } else {
        digits_value(s.drop_last()) * 10 + digit_value(s.last())
    }
}

/// Reading `digits` left to right into a number of at most `limit`: the
/// first character that is no digit, or that takes the number past the
/// limit, ends the reading with its failure.
pub open spec fn scan(digits: Seq<char>, limit: nat) -> Result<nat, NumberError>
    decreases digits.len(),
{
    if digits.len() == 0 {
        Ok(0)
    } else {
        match scan(digits.drop_last(), limit) {
            Err(e) => Err(e),
            Ok(v) => if !is_digit(digits.last()) {
                Err(NumberError::InvalidDigit)
            } else if v * 10 + digit_value(digits.last()) > limit {
                Err(NumberError::PosOverflow)
            } else {
                Ok(v * 10 + digit_value(digits.last()))
            },
        }
    }
}

/// The digits of a number text: what follows an optional leading `+`.
pub open spec fn number_body(s: Seq<char>) -> Seq<char> {
    if s.len() > 0 && s[0] == '+' {
        s.skip(1)
    } else {
        s
    }
}

/// What reading `s` as an unsigned number of at most `limit` gives.
pub open spec fn parsed(s: Seq<char>, limit: nat) -> Result<nat, NumberError> {
    if s.len() == 0 {
        Err(NumberError::Empty)
    } else if number_body(s).len() == 0 {
        Err(NumberError::InvalidDigit)
    } else {
        scan(number_body(s), limit)
    }
}

/// A reading succeeds exactly on a run of digits whose value is within the
/// limit, and then gives that value.
pub proof fn lemma_scan_ok(digits: Seq<char>, limit: nat)
    ensures
        scan(digits, limit) is Ok <==> all_digits(digits) && digits_value(digits) <= limit,
        scan(digits, limit) matches Ok(v) ==> v == digits_value(digits),
    decreases digits.len(),
{
    if digits.len() > 0 {
        let front = digits.drop_last();
        lemma_scan_ok(front, limit);
        if all_digits(digits) {
            assert(all_digits(front));
        }
        if scan(digits, limit) is Ok {
            assert forall|i: int| 0 <= i < digits.len() implies is_digit(#[trigger] digits[i]) by {
                if i < front.len() {
                    assert(front[i] == digits[i]);
                }
            }
        }
    }
}

/// A number text is accepted exactly when its body is a non-empty run of
/// digits whose value is within the limit; the result is that value.
pub proof fn lemma_parsed_ok(s: Seq<char>, limit: nat)
    ensures
        parsed(s, limit) is Ok <==> number_body(s).len() > 0 && all_digits(number_body(s))
            && digits_value(number_body(s)) <= limit,
        parsed(s, limit) matches Ok(v) ==> v == digits_value(number_body(s)),
{
    lemma_scan_ok(number_body(s), limit);
}

/// The decimal text of a number is a non-empty run of digits that denotes it.
pub proof fn lemma_decimal_text_digits(n: nat)
    ensures
        decimal_text(n).len() > 0,
        all_digits(decimal_text(n)),
        digits_value(decimal_text(n)) == n,
        decimal_text(n)[0] != '+',
    decreases n,
{
    if n < 10 {
        let t = decimal_text(n);
        assert(digits_value(t.drop_last()) == 0);
    } else {
        lemma_decimal_text_digits(n / 10);
        let front = decimal_text(n / 10);
        let t = decimal_text(n);
        assert(t.drop_last() =~= front);
        assert(all_digits(t));
    }
}

/// Writing a number and reading the text back gives the number.
pub proof fn lemma_decimal_round_trip(n: nat, limit: nat)
    requires
        n <= limit,
    ensures
        parsed(decimal_text(n), limit) == Ok::<nat, NumberError>(n),
{
    lemma_decimal_text_digits(n);
    lemma_parsed_ok(decimal_text(n), limit);
}

fn digit_str(d: u64) -> (out: &'static str)
    requires
        d < 10,
    ensures
        out@ == seq![digit_char(d as nat)],
{
    proof {
        reveal_strlit("0");
        reveal_strlit("1");
        reveal_strlit("2");
        reveal_strlit("3");
        reveal_strlit("4");
        reveal_strlit("5");
        reveal_strlit("6");
        reveal_strlit("7");
        reveal_strlit("8");
        reveal_strlit("9");
    }
    let out = if d == 0 {
        "0"
    } else if d == 1 {
        "1"
    } else if d == 2 {
        "2"
    } else if d == 3 {
        "3"
    } else if d == 4 {
        "4"
    } else if d == 5 {
        "5"
    } else if d == 6 {
        "6"
    } else if d == 7 {
        "7"
    } else if d == 8 {
        "8"
    } else {
        "9"
    };
    out
}

/// The decimal text of `n`.
pub fn decimal_string(n: u64) -> (out: String)
    ensures
        out@ == decimal_text(n as nat),
    decreases n,
{
    if n < 10 {
        String::from_str(digit_str(n))
    } else {
        let mut out = decimal_string(n / 10);
        out.append(digit_str(n % 10));
        out
    }
}

fn digit_of(c: char) -> (d: Option<u64>)
    ensures
        d is Some <==> is_digit(c),
        d matches Some(v) ==> v == digit_value(c),
{
    if '0' <= c && c <= '9' {
        Some((c as u32 - '0' as u32) as u64)
    } else {
        None
    }
}

/// Reads `s` as an unsigned number of at most `limit`.
fn parse_within(s: &str, limit: u64) -> (out: Result<u64, NumberError>)
    ensures
        match out {
            Ok(v) => parsed(s@, limit as nat) == Ok::<nat, NumberError>(v as nat),
            Err(e) => parsed(s@, limit as nat) == Err::<nat, NumberError>(e),
        },
{
    let n: usize = s.unicode_len();
    if n == 0 {
        return Err(NumberError::Empty);
    }
    let start: usize = if s.get_char(0) == '+' {
        1
    } else {
        0
    };
    if start == n {
        return Err(NumberError::InvalidDigit);
    }
    let ghost body = number_body(s@);
    let mut value: u64 = 0;
    let mut i: usize = start;
    while i < n
        invariant
            start <= i <= n,
            n == s@.len(),
            s@.len() > 0,
            body == number_body(s@),
            body =~= s@.skip(start as int),
            body.len() == n - start,
            value <= limit,
            scan(body.take(i - start), limit as nat) == Ok::<nat, NumberError>(value as nat),
        decreases n - i,
    {
        let c = s.get_char(i);
        let ghost read = body.take(i - start + 1);
        proof {
            assert(read.drop_last() =~= body.take(i - start));
            lemma_scan_sticks(read, body, limit as nat);
        }
        let d: u64 = match digit_of(c) {
            Some(d) => d,
            None => {
                return Err(NumberError::InvalidDigit);
            },
        };
        let shifted: u64 = match value.checked_mul(10) {
            Some(v) => v,
            None => {
                return Err(NumberError::PosOverflow);
            },
        };
        let sum: u64 = match shifted.checked_add(d) {
            Some(v) => v,
            None => {
                return Err(NumberError::PosOverflow);
            },
        };
        if sum > limit {
            return Err(NumberError::PosOverflow);
        }
        value = sum;
        i = i + 1;
    }
    assert(body.take(n - start) =~= body);
    Ok(value)
}

/// Once the reading of a prefix has failed, the reading of the whole fails
/// the same way.
proof fn lemma_scan_sticks(prefix: Seq<char>, whole: Seq<char>, limit: nat)
    requires
        prefix.len() <= whole.len(),
        prefix =~= whole.take(prefix.len() as int),
    ensures
        scan(prefix, limit) matches Err(e) ==> scan(whole, limit) == Err::<nat, NumberError>(e),
    decreases whole.len() - prefix.len(),
{
    if prefix.len() < whole.len() {
        lemma_scan_sticks(prefix, whole.drop_last(), limit);
    } else {
        assert(prefix =~= whole);
    }
}

/// Reads a number text as a `u64`.
pub fn parse_u64(s: &str) -> (out: Result<u64, NumberError>)
    ensures
        match out {
            Ok(v) => parsed(s@, u64::MAX as nat) == Ok::<nat, NumberError>(v as nat),
            Err(e) => parsed(s@, u64::MAX as nat) == Err::<nat, NumberError>(e),
        },
{
    parse_within(s, u64::MAX)
}

/// Reads a number text as a `u32`.
pub fn parse_u32(s: &str) -> (out: Result<u32, NumberError>)
    ensures
        match out {
            Ok(v) => parsed(s@, u32::MAX as nat) == Ok::<nat, NumberError>(v as nat),
            Err(e) => parsed(s@, u32::MAX as nat) == Err::<nat, NumberError>(e),
        },
{
    match parse_within(s, 0xffff_ffff) {
        Ok(v) => Ok(v as u32),
        Err(e) => Err(e),
    }
}

/// The words in which a failed reading is reported.
pub open spec fn number_error_text(e: NumberError) -> Seq<char> {
    match e {
        NumberError::Empty => "cannot parse integer from empty string"@,
        NumberError::InvalidDigit => "invalid digit found in string"@,
        NumberError::PosOverflow => "number too large to fit in target type"@,
    }
}

impl NumberError {
    /// The failure in words.
    pub fn describe(&self) -> (out: String)
        ensures
            out@ == number_error_text(*self),
    {
        match self {
            NumberError::Empty => String::from_str("cannot parse integer from empty string"),
            NumberError::InvalidDigit => String::from_str("invalid digit found in string"),
            NumberError::PosOverflow => String::from_str("number too large to fit in target type"),
        }
    }
}

} // verus!
