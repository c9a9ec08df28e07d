//! Exact decimal numbers, read from the text of a number.
use vstd::prelude::*;
use crate::scan::{chars_of, find, first_index, slice_of};

verus! {

/// Most digits after the point that a `Decimal` carries.
pub const MAX_SCALE: u32 = 18;

/// Most digits that `Decimal::parse` reads.
pub const MAX_DIGITS: usize = 18;

/// The number `mantissa / 10^scale`.
#[derive(Clone, Copy, Debug, PartialEq, Eq, Structural)]
pub struct Decimal {
    pub mantissa: i64,
    pub scale: u32,
}

pub open spec fn pow10(n: nat) -> int
    decreases n,
{
    if n == 0 {
        1
    } else {
        10 * pow10((n - 1) as nat)
    }
}

pub open spec fn is_digit(c: char) -> bool {
    '0' <= c && c <= '9'
}

pub open spec fn all_digits(d: Seq<char>) -> bool {
    forall|i: int| 0 <= i < d.len() ==> #[trigger] is_digit(d[i])
}

/// The value of a string of decimal digits.
pub open spec fn digits_value(d: Seq<char>) -> int
    decreases d.len(),
{
    if d.len() == 0 {
        0
    } else {
        digits_value(d.drop_last()) * 10 + (d.last() as int - '0' as int)
    }
}

/// Where the integer part of `body` ends: at its first `.`, or at its end.
pub open spec fn point_index(body: Seq<char>) -> int {
    if first_index(body, seq!['.']) >= 0 {
        first_index(body, seq!['.'])
    } else {
        body.len() as int
    }
}

/// The text of a number: an optional `-`, digits, and at most one `.` among
/// them, with at least one and at most `MAX_DIGITS` digits. Its value keeps
/// every digit, and its scale is the count of digits after the point.
pub open spec fn parse_spec(s: Seq<char>) -> Option<Decimal> {
    let neg = s.len() > 0 && s[0] == '-';
    let body = if neg { s.drop_first() } else { s };
    let k = point_index(body);
    let int_part = body.take(k);
    let frac_part = if k < body.len() { body.skip(k + 1) } else { Seq::<char>::empty() };
    let digits = int_part + frac_part;
    if all_digits(digits) && 1 <= digits.len() <= MAX_DIGITS {
        let v = digits_value(digits);
        Some(Decimal { mantissa: (if neg { -v } else { v }) as i64, scale: frac_part.len() as u32 })
    } else {
        None
    }
}

pub proof fn lemma_pow10_bounds(n: nat)
    requires
        n <= 18,
    ensures
        1 <= pow10(n) <= 1_000_000_000_000_000_000,
{
    lemma_pow10_grows(n, 18);
    reveal_with_fuel(pow10, 19);
}

pub proof fn lemma_pow10_grows(a: nat, b: nat)
    requires
        a <= b,
    ensures
        1 <= pow10(a) <= pow10(b),
    decreases b,
{
    if b > a {
        lemma_pow10_grows(a, (b - 1) as nat);
    } else if a > 0 {
        lemma_pow10_grows((a - 1) as nat, (a - 1) as nat);
    }
}

/// `10^n`.
pub fn pow10_exec(n: u32) -> (r: i64)
    requires
        n <= MAX_SCALE,
    ensures
        r == pow10(n as nat),
{
    let mut r: i64 = 1;
    let mut j: u32 = 0;
    while j < n
        invariant
            j <= n <= 18,
            r == pow10(j as nat),
        decreases n - j,
    {
        proof {
            lemma_pow10_bounds((j + 1) as nat);
        }
        r = r * 10;
        j = j + 1;
    }
    r
}

impl Decimal {
    /// The scale is small enough for `10^scale` to fit in an `i64`.
    pub open spec fn wf(self) -> bool {
        self.scale <= MAX_SCALE
    }

    /// The whole number `v`.
    pub fn from_int(v: i32) -> (r: Decimal)
        ensures
            r == (Decimal { mantissa: v as i64, scale: 0 }),
            r.wf(),
    {
        Decimal { mantissa: v as i64, scale: 0 }
    }

    /// Reads the text of a number; `None` where `text` is no such text.
    pub fn parse(text: &str) -> (r: Option<Decimal>)
        ensures
            r == parse_spec(text@),
            r matches Some(d) ==> d.wf(),
    {
        let s = chars_of(text);
        parse_chars(&s)
    }
}

/// Reads the text of a number held as characters.
pub fn parse_chars(s: &Vec<char>) -> (r: Option<Decimal>)
    ensures
        r == parse_spec(s@),
        r matches Some(d) ==> d.wf(),
{
    let neg = s.len() > 0 && s[0] == '-';
    let body = if neg {
        slice_of(s, 1, s.len())
    } else {
        slice_of(s, 0, s.len())
    };
    assert(neg ==> body@ =~= s@.drop_first());
    assert(!neg ==> body@ =~= s@);
    let point = vec!['.'];
    assert(point@ =~= seq!['.']);
    let k: usize = match find(&body, &point) {
        Some(i) => i,
        None => body.len(),
    };
    proof {
        crate::scan::lemma_find_from_bounds(body@, seq!['.'], 0);
    }
    let mut digits = slice_of(&body, 0, k);
    let mut frac = if k < body.len() {
        slice_of(&body, k + 1, body.len())
    } else {
        Vec::new()
    };
    let scale: usize = frac.len();
    let ghost frac_part = frac@;
    digits.append(&mut frac);
    let ghost d = digits@;
    assert(d =~= body@.take(k as int) + frac_part);
    assert(k < body@.len() ==> frac_part =~= body@.skip(k + 1));
    assert(k == point_index(body@));
    if digits.len() < 1 || digits.len() > MAX_DIGITS {
        return None;
    }
    let mut v: i64 = 0;
    let mut j: usize = 0;
    while j < digits.len()
        invariant
            digits@ == d,
            1 <= d.len() <= 18,
            j <= d.len(),
            all_digits(d.take(j as int)),
            parse_spec(s@) is Some ==> all_digits(d),
            v == digits_value(d.take(j as int)),
            0 <= v < pow10(j as nat),
        decreases d.len() - j,
    {
        let c = digits[j];
        if !('0' <= c && c <= '9') {
            assert(!is_digit(d[j as int]));
            return None;
        }
        let dv: i64 = (c as u32 - '0' as u32) as i64;
        proof {
            lemma_pow10_bounds((j + 1) as nat);
            assert(pow10((j + 1) as nat) == 10 * pow10(j as nat));
            assert(v * 10 + dv < 10 * pow10(j as nat)) by (nonlinear_arith)
                requires
                    0 <= v < pow10(j as nat),
                    0 <= dv <= 9,
            ;
            assert(d.take(j + 1).drop_last() =~= d.take(j as int));
            assert(d.take(j + 1).last() == c);
            assert(all_digits(d.take(j + 1)));
        }
        v = v * 10 + dv;
        j = j + 1;
    }
    assert(d.take(j as int) =~= d);
    let m: i64 = if neg {
        -v
    } else {
        v
    };
    Some(Decimal { mantissa: m, scale: scale as u32 })
}

} // verus!
