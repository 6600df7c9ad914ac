//! Decimal text of unsigned integers: formatting a `u64` the way `Display`
//! writes it, and reading one back the way `str::parse::<u64>` does.
use vstd::prelude::*;

verus! {

/// Why a text is not the decimal form of a `u64`; the same kinds that
/// `std::num::IntErrorKind` reports for an unsigned parse.
#[derive(Clone, Copy, Debug, PartialEq, Eq, Structural)]
pub enum IntErrorKind {
    /// The text is empty.
    Empty,
    /// The text holds a character that is not a decimal digit (a lone sign counts).
    InvalidDigit,
    /// The number is larger than `u64::MAX`.
    PosOverflow,
}

/// The character of the decimal digit `d`.
pub open spec fn digit_char(d: int) -> char {
    (48 + d) as char
}

/// `c` is one of `'0'..='9'`.
pub open spec fn is_digit(c: char) -> bool {
    48 <= (c as u32) <= 57
}

/// The value of the digit character `c`.
pub open spec fn digit_value(c: char) -> int {
    (c as u32) - 48
}

/// The decimal text of `n`, most significant digit first, with no leading zero.
pub open spec fn decimal(n: nat) -> Seq<char>
    decreases n,
{
    if n < 10 {
        seq![digit_char(n as int)]
    } else {
        decimal(n / 10).push(digit_char((n % 10) as int))
    }
}

/// Reading the digits `d` from left to right onto the value `acc`: the first
/// character that is not a digit is an `InvalidDigit`, and the first digit
/// after which the value passes `u64::MAX` is a `PosOverflow`.
pub open spec fn scan_digits(d: Seq<char>, acc: int) -> Result<int, IntErrorKind>
    decreases d.len(),
{
    if d.len() == 0 {
        Ok(acc)
    } else if !is_digit(d[0]) {
        Err(IntErrorKind::InvalidDigit)
    } else {
        let a = acc * 10 + digit_value(d[0]);
        if a > u64::MAX {
            Err(IntErrorKind::PosOverflow)
        } else {
            scan_digits(d.drop_first(), a)
        }
    }
}

/// What `str::parse::<u64>` returns for the text `s`: an optional leading
/// `'+'` (a lone sign is an invalid digit), then decimal digits.
pub open spec fn parse_u64(s: Seq<char>) -> Result<u64, IntErrorKind> {
    if s.len() == 0 {
        Err(IntErrorKind::Empty)
    } else if s.len() == 1 && (s[0] == '+' || s[0] == '-') {
        Err(IntErrorKind::InvalidDigit)
    } else {
        let d = if s[0] == '+' {
            s.drop_first()
        } else {
            s
        };
        match scan_digits(d, 0) {
            Ok(v) => Ok(v as u64),
            Err(e) => Err(e),
        }
    }
}

proof fn lemma_scan_bounded(d: Seq<char>, acc: int)
    requires
        0 <= acc <= u64::MAX,
    ensures
        scan_digits(d, acc) matches Ok(v) ==> 0 <= v <= u64::MAX,
    decreases d.len(),
{
    if d.len() > 0 && is_digit(d[0]) {
        let a = acc * 10 + digit_value(d[0]);
        if a <= u64::MAX {
            lemma_scan_bounded(d.drop_first(), a);
        }
    }
}

/// Reading `a + b` is reading `a`, then reading `b` onto its value.
proof fn lemma_scan_concat(a: Seq<char>, b: Seq<char>, acc: int)
    requires
        scan_digits(a, acc) is Ok,
    ensures
        scan_digits(a + b, acc) == scan_digits(b, scan_digits(a, acc)->Ok_0),
    decreases a.len(),
{
    if a.len() == 0 {
        assert(a + b =~= b);
    } else {
        let x = acc * 10 + digit_value(a[0]);
        assert((a + b)[0] == a[0]);
        assert((a + b).drop_first() =~= a.drop_first() + b);
        lemma_scan_concat(a.drop_first(), b, x);
    }
}

pub proof fn lemma_decimal_shape(n: nat)
    ensures
        decimal(n).len() >= 1,
        forall|i: int| 0 <= i < decimal(n).len() ==> is_digit(#[trigger] decimal(n)[i]),
    decreases n,
{
    if n >= 10 {
        lemma_decimal_shape(n / 10);
    }
}

/// Reading back the decimal text of a number gives the number.
pub proof fn lemma_scan_decimal(n: nat)
    requires
        n <= u64::MAX,
    ensures
        scan_digits(decimal(n), 0) == Ok::<int, IntErrorKind>(n as int),
    decreases n,
{
    if n < 10 {
        lemma_scan_one(0, n as int);
        assert(decimal(n) =~= seq![digit_char(n as int)]);
    } else {
        let q = n / 10;
        let r = n % 10;
        lemma_scan_decimal(q);
        let last = seq![digit_char(r as int)];
        assert(decimal(n) =~= decimal(q) + last);
        lemma_scan_concat(decimal(q), last, 0);
        assert(q * 10 + r == n);
        lemma_scan_one(q as int, r as int);
    }
}

/// Reading one digit character onto `acc`.
proof fn lemma_scan_one(acc: int, d: int)
    requires
        0 <= d < 10,
        0 <= acc,
        acc * 10 + d <= u64::MAX,
    ensures
        scan_digits(seq![digit_char(d)], acc) == Ok::<int, IntErrorKind>(acc * 10 + d),
{
    let s = seq![digit_char(d)];
    assert((48 + d) as char as u32 == 48 + d);
    assert(is_digit(s[0]));
    assert(digit_value(s[0]) == d);
    assert(s.drop_first() =~= Seq::<char>::empty());
    assert(scan_digits(s.drop_first(), acc * 10 + d) == Ok::<int, IntErrorKind>(acc * 10 + d));
}

/// Parsing the decimal text of a `u64` gives that `u64` back.
pub proof fn lemma_parse_decimal(n: u64)
    ensures
        parse_u64(decimal(n as nat)) == Ok::<u64, IntErrorKind>(n),
{
    lemma_scan_decimal(n as nat);
    lemma_decimal_shape(n as nat);
    let s = decimal(n as nat);
    assert(is_digit(s[0]));
}

/// The character of the digit `d`.
fn digit_to_char(d: u64) -> (c: char)
    requires
        d < 10,
    ensures
        c == digit_char(d as int),
{
    let b: u8 = 48u8 + (d as u8);
    b as char
}

/// The decimal text of `n`, as `Display` writes it.
pub fn format_u64(n: u64) -> (r: Vec<char>)
    ensures
        r@ == decimal(n as nat),
    decreases n,
{
    if n < 10 {
        let mut v: Vec<char> = Vec::new();
        v.push(digit_to_char(n));
        assert(v@ =~= decimal(n as nat));
        v
    } else {
        let mut v = format_u64(n / 10);
        v.push(digit_to_char(n % 10));
        v
    }
}

/// Reads a `u64` from its decimal text, as `str::parse::<u64>` does.
pub fn parse_u64_chars(s: &[char]) -> (r: Result<u64, IntErrorKind>)
    ensures
        r == parse_u64(s@),
{
    let n = s.len();
    if n == 0 {
        return Err(IntErrorKind::Empty);
    }
    if n == 1 && (s[0] == '+' || s[0] == '-') {
        return Err(IntErrorKind::InvalidDigit);
    }
    let start: usize = if s[0] == '+' {
        1
    } else {
        0
    };
    let ghost d = if s@[0] == '+' {
        s@.drop_first()
    } else {
        s@
    };
    assert(d =~= s@.skip(start as int));
    let mut acc: u64 = 0;
    let mut i: usize = start;
    while i < n
        invariant
            n == s@.len(),
            start <= i <= n,
            n >= 1,
            !(n == 1 && (s@[0] == '+' || s@[0] == '-')),
            d == (if s@[0] == '+' {
                s@.drop_first()
            } else {
                s@
            }),
            scan_digits(d, 0) == scan_digits(s@.skip(i as int), acc as int),
        decreases n - i,
    {
        let c = s[i];
        let ghost rest = s@.skip(i as int);
        assert(rest[0] == c);
        assert(rest.drop_first() =~= s@.skip(i + 1));
        let cu: u32 = c as u32;
        assert(rest.len() > 0);
        if !(48 <= cu && cu <= 57) {
            assert(!is_digit(rest[0]));
            return Err(IntErrorKind::InvalidDigit);
        }
        let v = (cu - 48) as u64;
        assert(digit_value(rest[0]) == v);
        if acc > (u64::MAX - v) / 10 {
            assert(acc * 10 + v > u64::MAX) by (nonlinear_arith)
                requires
                    acc > (u64::MAX - v) / 10,
                    v <= 9,
            ;
            return Err(IntErrorKind::PosOverflow);
        }
        assert(acc * 10 + v <= u64::MAX) by (nonlinear_arith)
            requires
                acc <= (u64::MAX - v) / 10,
                v <= 9,
        ;
        acc = acc * 10 + v;
        i = i + 1;
    }
    assert(s@.skip(n as int) =~= Seq::<char>::empty());
    Ok(acc)
}

} // verus!
