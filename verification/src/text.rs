//! Text helpers: decimal rendering, decimal parsing, message composition.
use vstd::prelude::*;
use vstd::string::*;

verus! {

/// The character of a decimal digit.
pub open spec fn digit_char(d: nat) -> char {
    if d == 0 { '0' }
    else if d == 1 { '1' }
    else if d == 2 { '2' }
    else if d == 3 { '3' }
    else if d == 4 { '4' }
    else if d == 5 { '5' }
    else if d == 6 { '6' }
    else if d == 7 { '7' }
    else if d == 8 { '8' }
    else { '9' }
}

/// The value of a decimal digit character, if it is one.
pub open spec fn digit_value(c: char) -> Option<nat> {
    if c == '0' { Some(0nat) }
    else if c == '1' { Some(1nat) }
    else if c == '2' { Some(2nat) }
    else if c == '3' { Some(3nat) }
    else if c == '4' { Some(4nat) }
    else if c == '5' { Some(5nat) }
    else if c == '6' { Some(6nat) }
    else if c == '7' { Some(7nat) }
    else if c == '8' { Some(8nat) }
    else if c == '9' { Some(9nat) }
    else { None }
}

/// Shortest decimal rendering of a natural number (no sign, no leading zeros).
pub open spec fn decimal(n: nat) -> Seq<char>
    decreases n,
{
    if n < 10 {
        seq![digit_char(n)]
    } else {
        decimal(n / 10).push(digit_char(n % 10))
    }
}

/// Decimal rendering of an integer, with a leading `-` when negative.
pub open spec fn signed_decimal(i: int) -> Seq<char> {
    if i < 0 {
        seq!['-'] + decimal((-i) as nat)
    } else {
        decimal(i as nat)
    }
}

/// A digit of the Bitcoin Base58 alphabet: `1`-`9`, `A`-`Z` and `a`-`z` without `O`, `I`
/// and `l`.
pub open spec fn base58_digit(c: char) -> bool {
    let n = c as u32;
    ||| 49 <= n <= 57
    ||| 65 <= n <= 72
    ||| 74 <= n <= 78
    ||| 80 <= n <= 90
    ||| 97 <= n <= 107
    ||| 109 <= n <= 122
}

/// A non-empty text made of Base58 digits.
pub open spec fn base58_text(s: Seq<char>) -> bool {
    s.len() > 0 && forall|i: int| 0 <= i < s.len() ==> #[trigger] base58_digit(s[i])
}

proof fn lemma_decimal_shape(n: nat)
    ensures
        decimal(n).len() >= 1,
        n < 10 <==> decimal(n).len() == 1,
        forall|k: int| 0 <= k < decimal(n).len() ==> (#[trigger] digit_value(decimal(n)[k])) is Some,
    decreases n,
{
    if n >= 10 {
        lemma_decimal_shape(n / 10);
        let d = decimal(n);
        assert forall|k: int| 0 <= k < d.len() implies (#[trigger] digit_value(d[k])) is Some by {
            if k < d.len() - 1 {
                assert(d[k] == decimal(n / 10)[k]);
            }
        }
    }
}

proof fn lemma_digit_char_injective(a: nat, b: nat)
    requires
        a < 10,
        b < 10,
        digit_char(a) == digit_char(b),
    ensures
        a == b,
{
}

/// Decimal renderings of different numbers differ.
pub proof fn lemma_decimal_injective(a: nat, b: nat)
    requires
        decimal(a) == decimal(b),
    ensures
        a == b,
    decreases a,
{
    lemma_decimal_shape(a);
    lemma_decimal_shape(b);
    if a < 10 {
        assert(b < 10);
        assert(decimal(a)[0] == digit_char(a));
        assert(decimal(b)[0] == digit_char(b));
        lemma_digit_char_injective(a, b);
    } else {
        assert(b >= 10);
        let da = decimal(a);
        let db = decimal(b);
        assert(da.last() == digit_char(a % 10));
        assert(db.last() == digit_char(b % 10));
        lemma_digit_char_injective(a % 10, b % 10);
        assert(da.drop_last() =~= decimal(a / 10));
        assert(db.drop_last() =~= decimal(b / 10));
        lemma_decimal_injective(a / 10, b / 10);
    }
}

/// Signed decimal renderings of different integers differ.
pub proof fn lemma_signed_decimal_injective(a: int, b: int)
    ensures
        a != b ==> signed_decimal(a) != signed_decimal(b),
{
    if a != b && signed_decimal(a) == signed_decimal(b) {
        if a < 0 && b < 0 {
            assert(signed_decimal(a).subrange(1, signed_decimal(a).len() as int) =~= decimal((-a) as nat));
            assert(signed_decimal(b).subrange(1, signed_decimal(b).len() as int) =~= decimal((-b) as nat));
            lemma_decimal_injective((-a) as nat, (-b) as nat);
        } else if a >= 0 && b >= 0 {
            lemma_decimal_injective(a as nat, b as nat);
        } else if a < 0 {
            lemma_decimal_shape(b as nat);
            assert(signed_decimal(a)[0] == '-');
            assert(digit_value(decimal(b as nat)[0]) is Some);
        } else {
            lemma_decimal_shape(a as nat);
            assert(signed_decimal(b)[0] == '-');
            assert(digit_value(decimal(a as nat)[0]) is Some);
        }
    }
}

/// Appends one character to a string (`String::push`).
#[verifier::external_body]
pub(crate) fn push_char(s: &mut String, c: char)
    ensures
        final(s)@ == old(s)@.push(c),
{
    s.push(c)
}

fn digit_to_char(d: u64) -> (c: char)
    requires
        d < 10,
    ensures
        c == digit_char(d as nat),
{
    if d == 0 { '0' }
    else if d == 1 { '1' }
    else if d == 2 { '2' }
    else if d == 3 { '3' }
    else if d == 4 { '4' }
    else if d == 5 { '5' }
    else if d == 6 { '6' }
    else if d == 7 { '7' }
    else if d == 8 { '8' }
    else { '9' }
}

/// Appends the decimal rendering of `n` to `out`.
pub fn write_decimal(out: &mut String, n: u64)
    ensures
        final(out)@ == old(out)@ + decimal(n as nat),
    decreases n,
{
    if n < 10 {
        let c = digit_to_char(n);
        push_char(out, c);
        assert(decimal(n as nat) == seq![digit_char(n as nat)]);
    } else {
        write_decimal(out, n / 10);
        let c = digit_to_char(n % 10);
        push_char(out, c);
        assert(decimal(n as nat) == decimal((n / 10) as nat).push(digit_char((n % 10) as nat)));
    }
}

/// Appends the decimal rendering of a signed integer to `out`.
pub fn write_signed_decimal(out: &mut String, i: i32)
    ensures
        final(out)@ == old(out)@ + signed_decimal(i as int),
{
    if i < 0 {
        push_char(out, '-');
        let wide: i64 = i as i64;
        let magnitude: u64 = (-wide) as u64;
        write_decimal(out, magnitude);
    } else {
        write_decimal(out, i as u64);
    }
}

/// Is `s` empty, or exactly the given two-character text?
pub fn is_empty_or_pair(s: &str, open: char, close: char) -> (b: bool)
    ensures
        b == (s@.len() == 0 || s@ == seq![open, close]),
{
    let n = s.unicode_len();
    if n == 0 {
        true
    } else if n == 2 {
        let a = s.get_char(0);
        let b = s.get_char(1);
        if a == open && b == close {
            assert(s@ =~= seq![open, close]);
            true
        } else {
            false
        }
    } else {
        false
    }
}

/// Why a decimal parse of an unsigned integer failed (as `core::num::IntErrorKind`).
#[derive(Clone, Copy, Debug, PartialEq, Eq, Structural)]
pub enum IntParseError {
    Empty,
    InvalidDigit,
    PosOverflow,
}

impl IntParseError {
    /// The text that the standard library prints for this error.
    pub fn message(&self) -> (s: String)
        ensures
            s@ == int_parse_error_text(*self),
    {
        match self {
            IntParseError::Empty => String::from_str("cannot parse integer from empty string"),
            IntParseError::InvalidDigit => String::from_str("invalid digit found in string"),
            IntParseError::PosOverflow => String::from_str("number too large to fit in target type"),
        }
    }
}

pub open spec fn int_parse_error_text(e: IntParseError) -> Seq<char> {
    match e {
        IntParseError::Empty => "cannot parse integer from empty string"@,
        IntParseError::InvalidDigit => "invalid digit found in string"@,
        IntParseError::PosOverflow => "number too large to fit in target type"@,
    }
}

/// Left-to-right accumulation of the digits `s[i..]` onto `acc`, failing on the first
/// character that is not a digit or on the first step that exceeds `usize::MAX`.
pub open spec fn accumulate_digits(s: Seq<char>, i: int, acc: nat) -> Result<nat, IntParseError>
    decreases s.len() - i,
{
    if i >= s.len() {
        Ok(acc)
    } else {
        match digit_value(s[i]) {
            None => Err(IntParseError::InvalidDigit),
            Some(d) => {
                let next = acc * 10 + d;
                if next > usize::MAX {
                    Err(IntParseError::PosOverflow)
                } else {
                    accumulate_digits(s, i + 1, next)
                }
            },
        }
    }
}

/// What `s.parse::<usize>()` gives: an optional leading `+`, then decimal digits only.
pub open spec fn parse_usize_spec(s: Seq<char>) -> Result<nat, IntParseError> {
    if s.len() == 0 {
        Err(IntParseError::Empty)
    } else if (s[0] == '+' || s[0] == '-') && s.len() == 1 {
        Err(IntParseError::InvalidDigit)
    } else if s[0] == '+' {
        accumulate_digits(s, 1, 0)
    } else {
        accumulate_digits(s, 0, 0)
    }
}

fn char_digit(c: char) -> (r: Option<usize>)
    ensures
        match digit_value(c) {
            Some(d) => r == Some(d as usize),
            None => r is None,
        },
{
    if c == '0' { Some(0) }
    else if c == '1' { Some(1) }
    else if c == '2' { Some(2) }
    else if c == '3' { Some(3) }
    else if c == '4' { Some(4) }
    else if c == '5' { Some(5) }
    else if c == '6' { Some(6) }
    else if c == '7' { Some(7) }
    else if c == '8' { Some(8) }
    else if c == '9' { Some(9) }
    else { None }
}

/// Decimal parse of an unsigned machine integer, as `str::parse::<usize>` does it.
pub fn parse_usize(s: &str) -> (r: Result<usize, IntParseError>)
    ensures
        match parse_usize_spec(s@) {
            Ok(v) => r == Ok::<usize, IntParseError>(v as usize),
            Err(e) => r == Err::<usize, IntParseError>(e),
        },
        r matches Ok(v) ==> parse_usize_spec(s@) == Ok::<nat, IntParseError>(v as nat),
{
    let n = s.unicode_len();
    if n == 0 {
        return Err(IntParseError::Empty);
    }
    let first = s.get_char(0);
    if (first == '+' || first == '-') && n == 1 {
        return Err(IntParseError::InvalidDigit);
    }
    let start: usize = if first == '+' { 1 } else { 0 };
    assert(parse_usize_spec(s@) == accumulate_digits(s@, start as int, 0));
    let mut i: usize = start;
    let mut acc: usize = 0;
    while i < n
        invariant
            n == s@.len(),
            start <= i <= n,
            parse_usize_spec(s@) == accumulate_digits(s@, start as int, 0),
            accumulate_digits(s@, start as int, 0) == accumulate_digits(s@, i as int, acc as nat),
        decreases n - i,
    {
        let c = s.get_char(i);
        match char_digit(c) {
            None => {
                assert(accumulate_digits(s@, i as int, acc as nat) == Err::<nat, IntParseError>(IntParseError::InvalidDigit));
                return Err(IntParseError::InvalidDigit);
            },
            Some(d) => {
                assert(accumulate_digits(s@, i as int, acc as nat) == (if acc * 10 + d > usize::MAX {
                    Err::<nat, IntParseError>(IntParseError::PosOverflow)
                } else {
                    accumulate_digits(s@, i + 1, (acc * 10 + d) as nat)
                }));
                match acc.checked_mul(10) {
                    None => {
                        return Err(IntParseError::PosOverflow);
                    },
                    Some(m) => {
                        match m.checked_add(d) {
                            None => {
                                return Err(IntParseError::PosOverflow);
                            },
                            Some(next) => {
                                acc = next;
                            },
                        }
                    },
                }
            },
        }
        i = i + 1;
    }
    assert(accumulate_digits(s@, i as int, acc as nat) == Ok::<nat, IntParseError>(acc as nat));
    Ok(acc)
}

} // verus!
