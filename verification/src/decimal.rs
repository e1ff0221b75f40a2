use crate::text::chars_of;
use vstd::prelude::*;

verus! {

/// The character that writes the digit `d`.
pub open spec fn digit_char(d: int) -> char {
    if d == 0 {
        '0'
    } else if d == 1 {
        '1'
    } else if d == 2 {
        '2'
    } else if d == 3 {
        '3'
    } else if d == 4 {
        '4'
    } else if d == 5 {
        '5'
    } else if d == 6 {
        '6'
    } else if d == 7 {
        '7'
    } else if d == 8 {
        '8'
    } else {
        '9'
    }
}

/// The digit that `c` writes, if it writes one.
pub open spec fn digit_value(c: char) -> Option<int> {
    if c == '0' {
        Some(0int)
    } else if c == '1' {
        Some(1int)
    } else if c == '2' {
        Some(2int)
    } else if c == '3' {
        Some(3int)
    } else if c == '4' {
        Some(4int)
    } else if c == '5' {
        Some(5int)
    } else if c == '6' {
        Some(6int)
    } else if c == '7' {
        Some(7int)
    } else if c == '8' {
        Some(8int)
    } else if c == '9' {
        Some(9int)
    } else {
        None
    }
}

/// The digits of `n` in base ten, most significant first, without leading zeros.
pub open spec fn nat_digits(n: nat) -> Seq<char>
    decreases n,
{
    if n < 10 {
        seq![digit_char(n as int)]
    } else {
        nat_digits(n / 10).push(digit_char((n % 10) as int))
    }
}

/// `n` written in base ten, with a leading `-` when it is negative.
pub open spec fn decimal(n: int) -> Seq<char> {
    if n < 0 {
        seq!['-'] + nat_digits((-n) as nat)
    } else {
        nat_digits(n as nat)
    }
}

fn digit_text(d: u64) -> (r: &'static str)
    requires
        d < 10,
    ensures
        r@ == seq![digit_char(d as int)],
{
    proof {
        reveal_strlit("0");
        reveal_strlit("1");
        reveal_strlit("2");
        reveal_strlit("3");
        reveal_strlit("4");
        reveal_strlit("5");
        reveal_strlit("6");
        reveal_strlit("7");
        reveal_strlit("8");
        reveal_strlit("9");
    }
    let r = if d == 0 {
        "0"
    } else if d == 1 {
        "1"
    } else if d == 2 {
        "2"
    } else if d == 3 {
        "3"
    } else if d == 4 {
        "4"
    } else if d == 5 {
        "5"
    } else if d == 6 {
        "6"
    } else if d == 7 {
        "7"
    } else if d == 8 {
        "8"
    } else {
        "9"
    };
    assert(r@ =~= seq![digit_char(d as int)]);
    r
}

fn append_nat(out: &mut String, n: u64)
    ensures
        final(out)@ == old(out)@ + nat_digits(n as nat),
    decreases n,
{
    if n >= 10 {
        append_nat(out, n / 10);
    }
    out.append(digit_text(n % 10));
    assert(final(out)@ =~= old(out)@ + nat_digits(n as nat));
}

/// Writes `n` in base ten.
pub fn render_i64(n: i64) -> (r: String)
    ensures
        r@ == decimal(n as int),
{
    let mut out = String::new();
    if n < 0 {
        proof {
            reveal_strlit("-");
        }
        out.append("-");
        assert(out@ =~= seq!['-']);
        let magnitude: u64 = ((-(n + 1)) as u64) + 1;
        append_nat(&mut out, magnitude);
    } else {
        append_nat(&mut out, n as u64);
        assert(out@ =~= nat_digits(n as nat));
    }
    out
}

/// Why a text is not the decimal writing of an `i64`.
#[derive(Debug, Clone, Copy, PartialEq, Eq, Structural)]
pub enum IntErrorKind {
    /// The text is empty.
    Empty,
    /// A character is not a digit, or a sign stands alone.
    InvalidDigit,
    /// The number is above `i64::MAX`.
    PosOverflow,
    /// The number is below `i64::MIN`.
    NegOverflow,
}

impl IntErrorKind {
    /// What the error says.
    pub open spec fn describe(self) -> Seq<char> {
        match self {
            IntErrorKind::Empty => "cannot parse integer from empty string"@,
            IntErrorKind::InvalidDigit => "invalid digit found in string"@,
            IntErrorKind::PosOverflow => "number too large to fit in target type"@,
            IntErrorKind::NegOverflow => "number too small to fit in target type"@,
        }
    }

    /// What the error says.
    pub fn message(self) -> (text: &'static str)
        ensures
            text@ == self.describe(),
    {
        match self {
            IntErrorKind::Empty => "cannot parse integer from empty string",
            IntErrorKind::InvalidDigit => "invalid digit found in string",
            IntErrorKind::PosOverflow => "number too large to fit in target type",
            IntErrorKind::NegOverflow => "number too small to fit in target type",
        }
    }
}

/// Reads `digits` from the left, as the digits of a number of the given sign.
/// The first character that is no digit, or that takes the number out of the
/// range of `i64`, ends the reading with its error.
pub open spec fn scan_digits(digits: Seq<char>, negative: bool) -> Result<int, IntErrorKind>
    decreases digits.len(),
{
    if digits.len() == 0 {
        Ok(0int)
    } else {
        match scan_digits(digits.drop_last(), negative) {
            Err(kind) => Err(kind),
            Ok(acc) => match digit_value(digits.last()) {
                None => Err(IntErrorKind::InvalidDigit),
                Some(d) => if negative {
                    if acc * 10 - d < i64::MIN {
                        Err(IntErrorKind::NegOverflow)
                    } else {
                        Ok(acc * 10 - d)
                    }
                } else {
                    if acc * 10 + d > i64::MAX {
                        Err(IntErrorKind::PosOverflow)
                    } else {
                        Ok(acc * 10 + d)
                    }
                },
            },
        }
    }
}

/// The number that `text` writes in base ten: an optional `+` or `-`, then one
/// digit or more, and nothing else.
pub open spec fn parse_decimal(text: Seq<char>) -> Result<int, IntErrorKind> {
    if text.len() == 0 {
        Err(IntErrorKind::Empty)
    } else if text[0] == '-' || text[0] == '+' {
        if text.len() == 1 {
            Err(IntErrorKind::InvalidDigit)
        } else {
            scan_digits(text.drop_first(), text[0] == '-')
        }
    } else {
        scan_digits(text, false)
    }
}

fn digit_of(c: char) -> (r: Option<i64>)
    ensures
        match r {
            Some(d) => digit_value(c) == Some(d as int) && 0 <= d <= 9,
            None => digit_value(c) is None,
        },
{
    if c == '0' {
        Some(0)
    } else if c == '1' {
        Some(1)
    } else if c == '2' {
        Some(2)
    } else if c == '3' {
        Some(3)
    } else if c == '4' {
        Some(4)
    } else if c == '5' {
        Some(5)
    } else if c == '6' {
        Some(6)
    } else if c == '7' {
        Some(7)
    } else if c == '8' {
        Some(8)
    } else if c == '9' {
        Some(9)
    } else {
        None
    }
}

/// Reads an `i64` written in base ten.
pub fn parse_i64(text: &str) -> (r: Result<i64, IntErrorKind>)
    ensures
        match r {
            Ok(n) => parse_decimal(text@) == Ok::<int, IntErrorKind>(n as int),
            Err(kind) => parse_decimal(text@) == Err::<int, IntErrorKind>(kind),
        },
{
    let chars = chars_of(text);
    if chars.len() == 0 {
        return Err(IntErrorKind::Empty);
    }
    let negative = chars[0] == '-';
    let signed = negative || chars[0] == '+';
    if signed && chars.len() == 1 {
        return Err(IntErrorKind::InvalidDigit);
    }
    let start: usize = if signed { 1 } else { 0 };
    let ghost digits = chars@.subrange(start as int, chars.len() as int);
    assert(digits == if signed { text@.drop_first() } else { text@ }) by {
        assert(chars@.subrange(0, chars.len() as int) =~= chars@);
    }
    assert(parse_decimal(text@) == scan_digits(digits, negative));
    let mut acc: i64 = 0;
    let mut i: usize = start;
    assert(digits.take(0) =~= Seq::<char>::empty());
    while i < chars.len()
        invariant
            start <= i <= chars.len(),
            digits == chars@.subrange(start as int, chars.len() as int),
            parse_decimal(text@) == scan_digits(digits, negative),
            scan_digits(digits.take(i - start), negative) == Ok::<int, IntErrorKind>(acc as int),
        decreases chars.len() - i,
    {
        let ghost prefix = digits.take(i - start + 1);
        assert(prefix.drop_last() =~= digits.take(i - start));
        assert(prefix.last() == chars@[i as int]);
        match digit_of(chars[i]) {
            None => {
                proof {
                    lemma_scan_error_stays(digits, (i - start + 1) as int, negative);
                }
                return Err(IntErrorKind::InvalidDigit);
            },
            Some(d) => {
                let next = if negative {
                    match acc.checked_mul(10) {
                        Some(m) => m.checked_sub(d),
                        None => None,
                    }
                } else {
                    match acc.checked_mul(10) {
                        Some(m) => m.checked_add(d),
                        None => None,
                    }
                };
                match next {
                    Some(v) => {
                        acc = v;
                    },
                    None => {
                        proof {
                            lemma_scan_sign(digits.take(i - start), negative);
                            lemma_scan_error_stays(digits, (i - start + 1) as int, negative);
                        }
                        return Err(
                            if negative {
                                IntErrorKind::NegOverflow
                            } else {
                                IntErrorKind::PosOverflow
                            },
                        );
                    },
                }
            },
        }
        proof {
            lemma_scan_sign(digits.take(i - start), negative);
        }
        i += 1;
    }
    assert(digits.take(i - start) =~= digits);
    Ok(acc)
}

/// What has been read so far has the sign that was asked for.
proof fn lemma_scan_sign(digits: Seq<char>, negative: bool)
    ensures
        match scan_digits(digits, negative) {
            Ok(v) => if negative {
                i64::MIN <= v <= 0
            } else {
                0 <= v <= i64::MAX
            },
            Err(_) => true,
        },
    decreases digits.len(),
{
    if digits.len() > 0 {
        lemma_scan_sign(digits.drop_last(), negative);
    }
}

/// Once a prefix fails to read, the whole text fails with the same error.
proof fn lemma_scan_error_stays(digits: Seq<char>, upto: int, negative: bool)
    requires
        0 <= upto <= digits.len(),
        scan_digits(digits.take(upto), negative) is Err,
    ensures
        scan_digits(digits, negative) == scan_digits(digits.take(upto), negative),
    decreases digits.len() - upto,
{
    if upto == digits.len() {
        assert(digits.take(upto) =~= digits);
    } else {
        assert(digits.take(upto + 1).drop_last() =~= digits.take(upto));
        lemma_scan_error_stays(digits, upto + 1, negative);
    }
}

} // verus!
