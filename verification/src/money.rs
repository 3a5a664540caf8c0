//! Exact decimal money values and the amount parser.
//!
//! Amounts are stored as an integer count of millionths of a currency unit,
//! so monetary arithmetic is exact integer arithmetic: no binary floating
//! point is involved anywhere.  The parser accepts plain decimal numerals
//! with up to four fractional digits; keeping two spare places below that
//! input precision lets 75% of any parsed amount be represented exactly.

use vstd::prelude::*;

verus! {

/// Number of internal units in one whole currency unit.
pub const UNIT_SCALE: u64 = 1_000_000;

/// Largest representable amount, in units (100 billion currency units).
pub const MAX_UNITS: u64 = 100_000_000_000_000_000;

/// Largest value a run of integer digits may denote: `MAX_UNITS / UNIT_SCALE`.
pub const MAX_WHOLE: u64 = 100_000_000_000;

/// An exact, non-negative decimal amount of money, stored as an integer
/// count of millionths of a currency unit.
#[derive(Clone, Copy, Debug, PartialEq, Eq, Structural)]
pub struct Money {
    pub units: u64,
}

impl Money {
    /// Bounded, so that four times one amount against three times another
    /// can be compared without overflow.
    pub open spec fn wf(self) -> bool {
        self.units <= MAX_UNITS
    }
}

/// A decimal digit.
pub open spec fn is_digit(c: char) -> bool {
    '0' <= c && c <= '9'
}

/// Numeric value of a digit character.
pub open spec fn digit_val(c: char) -> int {
    c as u32 - '0' as u32
}

/// Every character of `s` in `[from, to)` is a decimal digit.
pub open spec fn all_digits_in(s: Seq<char>, from: int, to: int) -> bool {
    forall|j: int| from <= j < to ==> is_digit(s[j])
}

/// Value of the digit run `s[from..to]` read as a base-10 numeral.
pub open spec fn digits_val(s: Seq<char>, from: int, to: int) -> int
    decreases to - from,
{
    if to <= from {
        0
    } else {
        digits_val(s, from, to - 1) * 10 + digit_val(s[to - 1])
    }
}

/// Index of the first `'.'` in `s`, or `s.len()` when there is none.
pub open spec fn first_dot(s: Seq<char>) -> int
    decreases s.len(),
{
    if s.len() == 0 {
        0
    } else if s[0] == '.' {
        0
    } else {
        1 + first_dot(s.skip(1))
    }
}

/// Units contributed per fractional digit when `len` fractional digits are
/// present (`len` between 1 and 4): ten to the power of `6 - len`.
pub open spec fn fraction_scale(len: int) -> int {
    if len == 1 {
        100_000
    } else if len == 2 {
        10_000
    } else if len == 3 {
        1_000
    } else {
        100
    }
}

/// `Some(v)` when `v` is small enough to be a money value.
pub open spec fn bounded_units(v: int) -> Option<int> {
    if v <= MAX_UNITS {
        Some(v)
    } else {
        None
    }
}

/// What an amount string denotes, in units: `None` unless the string has the
/// form `digits` or `digits.digits` with one to four fractional digits and
/// denotes at most `MAX_UNITS`.
pub open spec fn spec_amount_units(s: Seq<char>) -> Option<int> {
    let n = s.len() as int;
    let d = first_dot(s);
    if n == 0 {
        None
    } else if d == n {
        if all_digits_in(s, 0, n) {
            bounded_units(digits_val(s, 0, n) * UNIT_SCALE)
        } else {
            None
        }
    } else if 1 <= d && d + 1 < n && n - (d + 1) <= 4 && all_digits_in(s, 0, d)
        && all_digits_in(s, d + 1, n) {
        bounded_units(
            digits_val(s, 0, d) * UNIT_SCALE + digits_val(s, d + 1, n) * fraction_scale(
                n - (d + 1),
            ),
        )
    } else {
        None
    }
}

/// `first_dot` is pinned down by what a scan observes: no dot before `d`,
/// and a dot at `d` unless `d` is the length.
pub proof fn lemma_first_dot_is(s: Seq<char>, d: int)
    requires
        0 <= d <= s.len(),
        forall|j: int| 0 <= j < d ==> s[j] != '.',
        d < s.len() ==> s[d] == '.',
    ensures
        first_dot(s) == d,
    decreases s.len(),
{
    if s.len() == 0 {
    } else if s[0] == '.' {
        assert(d == 0);
    } else {
        assert(d >= 1) by {
            if d == 0 {
                assert(s[0] == '.');
            }
        }
        assert forall|j: int| 0 <= j < d - 1 implies s.skip(1)[j] != '.' by {
            assert(s.skip(1)[j] == s[j + 1]);
        }
        if d - 1 < s.skip(1).len() {
            assert(s.skip(1)[d - 1] == s[d]);
        }
        lemma_first_dot_is(s.skip(1), d - 1);
    }
}

/// A run of digits denotes a non-negative value.
pub proof fn lemma_digits_val_nonneg(s: Seq<char>, from: int, to: int)
    requires
        all_digits_in(s, from, to),
    ensures
        digits_val(s, from, to) >= 0,
    decreases to - from,
{
    if to > from {
        lemma_digits_val_nonneg(s, from, to - 1);
    }
}

/// Extending a run of digits to the right never shrinks its value.
pub proof fn lemma_digits_val_grows(s: Seq<char>, from: int, mid: int, to: int)
    requires
        from <= mid <= to,
        all_digits_in(s, from, to),
    ensures
        digits_val(s, from, to) >= digits_val(s, from, mid),
    decreases to - mid,
{
    if to > mid {
        lemma_digits_val_grows(s, from, mid, to - 1);
        lemma_digits_val_nonneg(s, from, to - 1);
    }
}

/// Ten to the power of `k`.
pub open spec fn pow10(k: nat) -> int
    decreases k,
{
    if k == 0 {
        1
    } else {
        10 * pow10((k - 1) as nat)
    }
}

/// A run of `to - from` digits denotes less than ten to that power.
pub proof fn lemma_digits_val_upper(s: Seq<char>, from: int, to: int)
    requires
        from <= to,
        all_digits_in(s, from, to),
    ensures
        0 <= digits_val(s, from, to) < pow10((to - from) as nat),
    decreases to - from,
{
    if to > from {
        lemma_digits_val_upper(s, from, to - 1);
    }
}

/// Any amount the parser accepts is a whole number of ten-thousandths of a
/// currency unit, hence divisible by four: 75% of it is exact in units.
pub proof fn lemma_amount_units_mod(s: Seq<char>)
    requires
        spec_amount_units(s) is Some,
    ensures
        0 <= spec_amount_units(s)->Some_0 <= MAX_UNITS,
        spec_amount_units(s)->Some_0 % 100 == 0,
{
    let n = s.len() as int;
    let d = first_dot(s);
    if d == n {
        let w = digits_val(s, 0, n);
        lemma_digits_val_nonneg(s, 0, n);
        assert(w * 1_000_000 == 100 * (w * 10_000));
        assert(100 * (w * 10_000) % 100 == 0) by (nonlinear_arith);
    } else {
        let w = digits_val(s, 0, d);
        let f = digits_val(s, d + 1, n);
        let len = n - (d + 1);
        lemma_digits_val_nonneg(s, 0, d);
        lemma_digits_val_nonneg(s, d + 1, n);
        if len == 1 {
            assert(w * 1_000_000 + f * 100_000 == 100 * (w * 10_000 + f * 1_000));
            lemma_times_100_mod(w * 10_000 + f * 1_000);
        } else if len == 2 {
            assert(w * 1_000_000 + f * 10_000 == 100 * (w * 10_000 + f * 100));
            lemma_times_100_mod(w * 10_000 + f * 100);
        } else if len == 3 {
            assert(w * 1_000_000 + f * 1_000 == 100 * (w * 10_000 + f * 10));
            lemma_times_100_mod(w * 10_000 + f * 10);
        } else {
            assert(w * 1_000_000 + f * 100 == 100 * (w * 10_000 + f * 1));
            lemma_times_100_mod(w * 10_000 + f * 1);
        }
    }
}

/// A hundredfold is divisible by one hundred.
proof fn lemma_times_100_mod(k: int)
    ensures
        (100 * k) % 100 == 0,
        k >= 0 ==> 100 * k >= 0,
{
    assert((100 * k) % 100 == 0) by (nonlinear_arith);
}

/// Index of the first `'.'` in `s`, or its length when there is none.
fn find_first_dot(s: &str) -> (d: usize)
    ensures
        d as int == first_dot(s@),
        d as int <= s@.len(),
{
    let n = s.unicode_len();
    let mut i: usize = 0;
    while i < n
        invariant
            0 <= i <= n,
            n as int == s@.len(),
            forall|j: int| 0 <= j < i ==> s@[j] != '.',
        decreases n - i,
    {
        if s.get_char(i) == '.' {
            proof {
                lemma_first_dot_is(s@, i as int);
            }
            return i;
        }
        i = i + 1;
    }
    proof {
        lemma_first_dot_is(s@, n as int);
    }
    n
}

/// Reads `s[from..to]` as a decimal numeral; refuses a non-digit and any
/// value above `MAX_WHOLE`.
fn digits_value(s: &str, from: usize, to: usize) -> (r: Option<u64>)
    requires
        from <= to,
        to as int <= s@.len(),
    ensures
        match r {
            Some(v) => all_digits_in(s@, from as int, to as int) && v as int == digits_val(
                s@,
                from as int,
                to as int,
            ) && v <= MAX_WHOLE,
            None => !all_digits_in(s@, from as int, to as int) || digits_val(
                s@,
                from as int,
                to as int,
            ) > MAX_WHOLE,
        },
{
    let mut acc: u64 = 0;
    let mut i: usize = from;
    while i < to
        invariant
            from <= i <= to,
            to as int <= s@.len(),
            all_digits_in(s@, from as int, i as int),
            acc as int == digits_val(s@, from as int, i as int),
            acc <= MAX_WHOLE,
        decreases to - i,
    {
        let c = s.get_char(i);
        if c < '0' || c > '9' {
            assert(!is_digit(s@[i as int]));
            return None;
        }
        let dv: u64 = (c as u32 - '0' as u32) as u64;
        let next: u64 = acc * 10 + dv;
        assert(next as int == digits_val(s@, from as int, i + 1 as int));
        if next > MAX_WHOLE {
            proof {
                if all_digits_in(s@, from as int, to as int) {
                    lemma_digits_val_grows(s@, from as int, i + 1 as int, to as int);
                }
            }
            return None;
        }
        acc = next;
        i = i + 1;
    }
    Some(acc)
}

/// Parses a decimal amount string into an exact money value.
///
/// Returns `None` exactly when the string is not of the form `digits` or
/// `digits.digits` (one to four fractional digits) or denotes more than
/// `MAX_UNITS`: an unparseable amount is reported, never coerced to zero.
pub fn parse_amount(s: &str) -> (r: Option<Money>)
    ensures
        match r {
            Some(m) => m.wf() && spec_amount_units(s@) == Some(m.units as int),
            None => spec_amount_units(s@) is None,
        },
{
    let n = s.unicode_len();
    if n == 0 {
        return None;
    }
    let d = find_first_dot(s);
    if d == n {
        let whole = match digits_value(s, 0, n) {
            Some(v) => v,
            None => {
                proof {
                    if all_digits_in(s@, 0, n as int) {
                        assert(digits_val(s@, 0, n as int) * 1_000_000 > MAX_UNITS);
                    }
                }
                return None;
            },
        };
        let units: u64 = whole * UNIT_SCALE;
        return Some(Money { units });
    }
    if d == 0 {
        return None;
    }
    let frac_len: usize = n - d - 1;
    if frac_len == 0 || frac_len > 4 {
        return None;
    }
    let whole = match digits_value(s, 0, d) {
        Some(v) => v,
        None => {
            proof {
                if all_digits_in(s@, 0, d as int) && all_digits_in(s@, d + 1 as int, n as int) {
                    lemma_digits_val_nonneg(s@, d + 1 as int, n as int);
                    let w = digits_val(s@, 0, d as int);
                    let f = digits_val(s@, d + 1 as int, n as int);
                    let scale = fraction_scale(n - (d + 1));
                    assert(w * 1_000_000 + f * scale > MAX_UNITS) by (nonlinear_arith)
                        requires
                            w > MAX_WHOLE,
                            f >= 0,
                            scale >= 100,
                    ;
                }
            }
            return None;
        },
    };
    let frac = match digits_value(s, d + 1, n) {
        Some(v) => v,
        None => {
            proof {
                if all_digits_in(s@, d + 1 as int, n as int) {
                    lemma_digits_val_upper(s@, d + 1 as int, n as int);
                    reveal_with_fuel(pow10, 5);
                }
            }
            return None;
        },
    };
    proof {
        lemma_digits_val_upper(s@, d + 1 as int, n as int);
        reveal_with_fuel(pow10, 5);
    }
    let scale: u64 = if frac_len == 1 {
        100_000
    } else if frac_len == 2 {
        10_000
    } else if frac_len == 3 {
        1_000
    } else {
        100
    };
    let units: u64 = whole * UNIT_SCALE + frac * scale;
    if units > MAX_UNITS {
        return None;
    }
    Some(Money { units })
}

} // verus!
