//! Small helpers on strings.

use vstd::prelude::*;
use vstd::string::StringExecFns;

verus! {

/// The text that `String::from_utf8_lossy` reads from `bytes`: its UTF-8
/// decoding, with U+FFFD in place of each invalid sequence.
pub uninterp spec fn utf8_lossy(bytes: Seq<u8>) -> Seq<char>;

/// Calls `String::from_utf8_lossy`.
///
/// Trusted: the result is the named value [`utf8_lossy`] of the argument.
#[verifier::external_body]
pub(crate) fn lossy_text(bytes: &[u8]) -> (text: String)
    ensures
        text@ == utf8_lossy(bytes@),
{
    String::from_utf8_lossy(bytes).into_owned()
}

/// Whether two strings hold the same characters.
pub fn same_text(a: &str, b: &str) -> (same: bool)
    ensures
        same == (a@ == b@),
{
    a.to_owned() == b.to_owned()
}

/// Whether `c` is one of the digits `0` to `9`.
pub open spec fn is_digit(c: char) -> bool {
    '0' <= c && c <= '9'
}

/// The number that the digit `c` stands for.
pub open spec fn digit_of(c: char) -> nat {
    (c as int - '0' as int) as nat
}

/// The number that a string of digits stands for, read in base ten.
pub open spec fn number_of(digits: Seq<char>) -> nat
    decreases digits.len(),
{
    if digits.len() == 0 {
        0
    } else {
        number_of(digits.drop_last()) * 10 + digit_of(digits.last())
    }
}

/// Whether every character of `s` is a digit.
pub open spec fn all_digits(s: Seq<char>) -> bool {
    forall|i: int| 0 <= i < s.len() ==> is_digit(#[trigger] s[i])
}

/// `s` without one leading `+`, if it has one.
pub open spec fn unsigned_digits(s: Seq<char>) -> Seq<char> {
    if s.len() > 0 && s[0] == '+' {
        s.skip(1)
    } else {
        s
    }
}

/// The number that `s` is read as: an optional `+`, then one or more digits
/// and nothing else, whose value fits 64 bits.
pub open spec fn parse_u64_spec(s: Seq<char>) -> Option<u64> {
    let digits = unsigned_digits(s);
    if digits.len() > 0 && all_digits(digits) && number_of(digits) <= u64::MAX {
        Some(number_of(digits) as u64)
    } else {
        None
    }
}

/// A number does not shrink when digits are written behind it.
pub proof fn lemma_number_of_prefix(digits: Seq<char>, k: int)
    requires
        0 <= k <= digits.len(),
    ensures
        number_of(digits.subrange(0, k)) <= number_of(digits),
    decreases digits.len() - k,
{
    if k < digits.len() {
        lemma_number_of_prefix(digits, k + 1);
        let longer = digits.subrange(0, k + 1);
        assert(longer.drop_last() =~= digits.subrange(0, k));
    } else {
        assert(digits.subrange(0, k) =~= digits);
    }
}

/// Reads a number written in base ten.
pub fn parse_u64(s: &str) -> (n: Option<u64>)
    ensures
        n == parse_u64_spec(s@),
{
    let ghost digits = unsigned_digits(s@);
    if !s.is_ascii() {
        proof {
            let i = choose|i: int| 0 <= i < s@.len() && !('\0' <= #[trigger] s@[i] <= '\u{7f}');
            if i > 0 || s@[0] != '+' {
                let k = if s@[0] == '+' {
                    i - 1
                } else {
                    i
                };
                assert(digits[k] == s@[i]);
                assert(!is_digit(digits[k]));
            }
        }
        return None;
    }
    let bytes = s.as_bytes();
    proof {
        vstd::string::is_ascii_spec_bytes(s);
    }
    let len: usize = bytes.len();
    if len == 0 {
        return None;
    }
    let start: usize = if bytes[0] == 43 {
        1
    } else {
        0
    };
    if start == len {
        return None;
    }
    assert(digits =~= s@.skip(start as int));
    let mut value: u64 = 0;
    let mut i: usize = start;
    while i < len
        invariant
            start <= i <= len,
            len == s@.len(),
            bytes@.len() == len,
            forall|k: int| 0 <= k < len ==> bytes@[k] == #[trigger] s@[k] as u8,
            forall|k: int| 0 <= k < len ==> '\0' <= #[trigger] s@[k] <= '\u{7f}',
            digits == unsigned_digits(s@),
            digits == s@.skip(start as int),
            digits.len() == len - start,
            all_digits(digits.subrange(0, i - start)),
            value == number_of(digits.subrange(0, i - start)),
        decreases len - i,
    {
        let code: u8 = bytes[i];
        let ghost c = s@[i as int];
        let ghost seen = digits.subrange(0, i - start);
        let ghost next = digits.subrange(0, i - start + 1);
        assert(next.drop_last() =~= seen);
        assert(next.last() == c);
        assert(digits[i - start] == c);
        assert(code == c as u8);
        if code < 48 || code > 57 {
            assert(!is_digit(digits[i - start]));
            return None;
        }
        let digit: u64 = (code - 48) as u64;
        assert(digit == digit_of(c));
        proof {
            lemma_number_of_prefix(digits, i - start + 1);
            assert(number_of(next) == value * 10 + digit);
        }
        let tens = match value.checked_mul(10) {
            Some(t) => t,
            None => {
                return None;
            },
        };
        value = match tens.checked_add(digit) {
            Some(v) => v,
            None => {
                return None;
            },
        };
        assert forall|j: int| 0 <= j < next.len() implies is_digit(#[trigger] next[j]) by {
            if j < seen.len() {
                assert(next[j] == seen[j]);
            }
        }
        i = i + 1;
    }
    assert(digits.subrange(0, len - start) =~= digits);
    Some(value)
}

/// The text of one digit.
pub open spec fn digit_text(d: nat) -> Seq<char> {
    if d == 0 {
        "0"@
    } else if d == 1 {
        "1"@
    } else if d == 2 {
        "2"@
    } else if d == 3 {
        "3"@
    } else if d == 4 {
        "4"@
    } else if d == 5 {
        "5"@
    } else if d == 6 {
        "6"@
    } else if d == 7 {
        "7"@
    } else if d == 8 {
        "8"@
    } else {
        "9"@
    }
}

/// The text of a number in base ten, without leading zeros.
pub open spec fn decimal(n: nat) -> Seq<char>
    decreases n,
{
    if n < 10 {
        digit_text(n)
    } else {
        decimal(n / 10) + digit_text(n % 10)
    }
}

/// The text of a digit is that digit.
pub proof fn lemma_digit_text(d: nat)
    requires
        d < 10,
    ensures
        digit_text(d).len() == 1,
        is_digit(digit_text(d)[0]),
        digit_of(digit_text(d)[0]) == d,
{
    reveal_strlit("0");
    reveal_strlit("1");
    reveal_strlit("2");
    reveal_strlit("3");
    reveal_strlit("4");
    reveal_strlit("5");
    reveal_strlit("6");
    reveal_strlit("7");
    reveal_strlit("8");
    reveal_strlit("9");
}

/// The text of a number is made of digits and stands for that number.
pub proof fn lemma_decimal_digits(n: nat)
    ensures
        decimal(n).len() > 0,
        all_digits(decimal(n)),
        number_of(decimal(n)) == n,
    decreases n,
{
    if n < 10 {
        lemma_digit_text(n);
        assert(decimal(n).drop_last() =~= Seq::<char>::empty());
        assert(number_of(decimal(n).drop_last()) == 0);
        assert(number_of(decimal(n)) == 0 * 10 + digit_of(decimal(n).last()));
    } else {
        lemma_decimal_digits(n / 10);
        lemma_digit_text(n % 10);
        let head = decimal(n / 10);
        let text = decimal(n);
        assert(text.drop_last() =~= head);
        assert(text.last() == digit_text(n % 10)[0]);
        assert(number_of(text) == number_of(head) * 10 + digit_of(text.last()));
        assert forall|i: int| 0 <= i < text.len() implies is_digit(#[trigger] text[i]) by {
            if i < head.len() {
                assert(text[i] == head[i]);
            }
        }
    }
}

/// A number is read back from its text: writing loses nothing.
pub proof fn lemma_decimal_reads_back(n: u64)
    ensures
        parse_u64_spec(decimal(n as nat)) == Some(n),
{
    lemma_decimal_digits(n as nat);
    assert(is_digit(decimal(n as nat)[0]));
}

/// The text of one digit.
fn digit_str(d: u64) -> (text: &'static str)
    requires
        d < 10,
    ensures
        text@ == digit_text(d as nat),
{
    match d {
        0 => "0",
        1 => "1",
        2 => "2",
        3 => "3",
        4 => "4",
        5 => "5",
        6 => "6",
        7 => "7",
        8 => "8",
        _ => "9",
    }
}

/// Writes a number in base ten.
pub fn decimal_text(n: u64) -> (text: String)
    ensures
        text@ == decimal(n as nat),
    decreases n,
{
    if n < 10 {
        digit_str(n).to_owned()
    } else {
        let mut text = decimal_text(n / 10);
        text.append(digit_str(n % 10));
        text
    }
}

} // verus!
