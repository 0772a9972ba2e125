use vstd::prelude::*;
use vstd::string::StrSliceExecFns;

verus! {

/// Scaled prices carry eight decimal places: a price text denotes
/// `scaled / PRICE_SCALE` units of currency.
pub const PRICE_SCALE: u64 = 100_000_000;

/// Digits kept after the decimal point.
pub const FRAC_DIGITS: usize = 8;

/// Most digits accepted before the decimal point.
pub const INT_DIGITS: usize = 8;

pub open spec fn is_digit(c: char) -> bool {
    48 <= c as u32 && c as u32 <= 57
}

pub open spec fn digit_val(c: char) -> int {
    c as u32 - 48
}

pub open spec fn all_digits(s: Seq<char>) -> bool {
    forall|i: int| 0 <= i < s.len() ==> is_digit(s[i])
}

/// The number a digit string denotes, most significant digit first.
pub open spec fn digits_val(s: Seq<char>) -> int
    decreases s.len(),
{
    if s.len() == 0 {
        0
    } else {
        digits_val(s.take(s.len() - 1)) * 10 + digit_val(s[s.len() - 1])
    }
}

pub open spec fn pow10(n: int) -> int
    decreases n,
{
    if n <= 0 {
        1
    } else {
        10 * pow10(n - 1)
    }
}

/// Index of the first '.', or the length when there is none.
pub open spec fn first_dot(s: Seq<char>) -> int
    decreases s.len(),
{
    if s.len() == 0 {
        0
    } else if s[0] == '.' {
        0
    } else {
        1 + first_dot(s.skip(1))
    }
}

/// A non-negative decimal numeral: one to eight digits, then optionally a
/// point and one to eight more digits. No sign, no exponent.
pub open spec fn valid_price_text(s: Seq<char>) -> bool {
    let d = first_dot(s);
    &&& 0 < d <= INT_DIGITS
    &&& all_digits(s.take(d))
    &&& (d < s.len() ==> {
        let frac = s.skip(d + 1);
        &&& 0 < frac.len() <= FRAC_DIGITS
        &&& all_digits(frac)
    })
}

/// The scaled value a price text denotes, or `None` where the text is not
/// a decimal numeral the library accepts.
pub open spec fn scaled_price_of(s: Seq<char>) -> Option<int> {
    if valid_price_text(s) {
        let d = first_dot(s);
        if d == s.len() {
            Some(digits_val(s) * PRICE_SCALE)
        } else {
            let frac = s.skip(d + 1);
            Some(
                digits_val(s.take(d)) * PRICE_SCALE + digits_val(frac) * pow10(
                    FRAC_DIGITS - frac.len(),
                ),
            )
        }
    } else {
        None
    }
}

proof fn lemma_pow10_mono(a: int, b: int)
    requires
        0 <= a <= b,
    ensures
        0 < pow10(a) <= pow10(b),
    decreases b,
{
    if b > 0 {
        if a == b {
            lemma_pow10_mono(a - 1, b - 1);
        } else {
            lemma_pow10_mono(a, b - 1);
        }
    }
}

proof fn lemma_pow10_add(a: int, b: int)
    requires
        0 <= a,
        0 <= b,
    ensures
        pow10(a + b) == pow10(a) * pow10(b),
    decreases a,
{
    if a > 0 {
        lemma_pow10_add(a - 1, b);
        assert(10 * (pow10(a - 1) * pow10(b)) == (10 * pow10(a - 1)) * pow10(b))
            by (nonlinear_arith);
    }
}

proof fn lemma_frac_part_bound(fv: int, sc: int, fl: int)
    by (nonlinear_arith)
    requires
        0 <= fv < pow10(fl),
        0 < sc,
        sc == pow10(8 - fl),
        pow10(fl) * pow10(8 - fl) == 100000000,
    ensures
        fv * sc < 100000000,
{
}

proof fn lemma_digits_bound(s: Seq<char>, n: int)
    requires
        all_digits(s),
        s.len() <= n,
    ensures
        0 <= digits_val(s) < pow10(n),
    decreases s.len(),
{
    if s.len() == 0 {
        lemma_pow10_mono(0, n);
    } else {
        assert(all_digits(s.take(s.len() - 1)));
        lemma_digits_bound(s.take(s.len() - 1), n - 1);
        lemma_pow10_mono(n - 1, n);
    }
}

/// Pins `first_dot` down from what a scan shows: no '.' before `d`, and a
/// '.' at `d` unless `d` is the length.
proof fn lemma_first_dot_at(s: Seq<char>, d: int)
    requires
        0 <= d <= s.len(),
        d < s.len() ==> s[d] == '.',
        forall|j: int| 0 <= j < d ==> s[j] != '.',
    ensures
        first_dot(s) == d,
    decreases s.len(),
{
    if s.len() > 0 && d > 0 {
        lemma_first_dot_at(s.skip(1), d - 1);
    }
}

fn pow10_exec(n: usize) -> (r: u64)
    requires
        n <= 8,
    ensures
        r as int == pow10(n as int),
{
    proof {
        reveal_with_fuel(pow10, 10);
    }
    match n {
        0 => 1,
        1 => 10,
        2 => 100,
        3 => 1000,
        4 => 10000,
        5 => 100000,
        6 => 1000000,
        7 => 10000000,
        _ => 100000000,
    }
}

/// Reads the digit run `s[from..to]`; `None` exactly where some character
/// in that range is not a digit.
fn parse_digits(s: &str, from: usize, to: usize) -> (r: Option<u64>)
    requires
        from <= to <= s@.len(),
        to - from <= 8,
    ensures
        match r {
            Some(v) => all_digits(s@.subrange(from as int, to as int)) && v as int == digits_val(
                s@.subrange(from as int, to as int),
            ),
            None => !all_digits(s@.subrange(from as int, to as int)),
        },
{
    let ghost whole = s@.subrange(from as int, to as int);
    let mut val: u64 = 0;
    let mut i: usize = from;
    proof {
        reveal_with_fuel(pow10, 10);
        assert(whole.take(0) =~= Seq::<char>::empty());
    }
    while i < to
        invariant
            from <= i <= to <= s@.len(),
            to - from <= 8,
            whole == s@.subrange(from as int, to as int),
            all_digits(whole.take(i - from)),
            val as int == digits_val(whole.take(i - from)),
            val < 100000000,
        decreases to - i,
    {
        let c = s.get_char(i);
        let u = c as u32;
        if u < 48 || u > 57 {
            proof {
                assert(whole[i - from] == s@[i as int]);
                assert(!is_digit(whole[i - from]));
            }
            return None;
        }
        proof {
            reveal_with_fuel(pow10, 10);
            let k = i - from;
            assert(whole.take(k + 1).take(k) =~= whole.take(k));
            assert(whole.take(k + 1)[k] == whole[k]);
            assert(whole[k] == s@[i as int]);
            assert(all_digits(whole.take(k)));
            lemma_digits_bound(whole.take(k), 7);
        }
        val = val * 10 + (u - 48) as u64;
        i = i + 1;
        proof {
            let k = i - from;
            assert(all_digits(whole.take(k))) by {
                assert(forall|j: int| 0 <= j < k ==> whole.take(k)[j] == whole[j]);
            }
        }
    }
    proof {
        assert(whole.take(to - from) =~= whole);
    }
    Some(val)
}

/// Parses a price text into its scaled value. Returns `Some` exactly on
/// the decimal numerals `valid_price_text` admits, and then the value that
/// `scaled_price_of` gives, always below 10^16.
pub fn parse_price(s: &str) -> (r: Option<u64>)
    ensures
        match r {
            Some(v) => scaled_price_of(s@) == Some(v as int) && v < 10000000000000000,
            None => scaled_price_of(s@) is None,
        },
{
    let len = s.unicode_len();
    // find the first '.'
    let mut d: usize = 0;
    while d < len && s.get_char(d) != '.'
        invariant
            0 <= d <= len,
            len == s@.len(),
            forall|j: int| 0 <= j < d ==> s@[j] != '.',
        decreases len - d,
    {
        d = d + 1;
    }
    proof {
        lemma_first_dot_at(s@, d as int);
    }
    if d == 0 || d > INT_DIGITS {
        return None;
    }
    let int_val = match parse_digits(s, 0, d) {
        Some(v) => v,
        None => {
            proof {
                assert(s@.subrange(0, d as int) =~= s@.take(d as int));
            }
            return None;
        },
    };
    proof {
        assert(s@.subrange(0, d as int) =~= s@.take(d as int));
        reveal_with_fuel(pow10, 10);
        lemma_digits_bound(s@.take(d as int), 8);
    }
    if d == len {
        proof {
            assert(s@.take(d as int) =~= s@);
        }
        return Some(int_val * PRICE_SCALE);
    }
    let flen = len - (d + 1);
    if flen == 0 || flen > FRAC_DIGITS {
        return None;
    }
    let frac_val = match parse_digits(s, d + 1, len) {
        Some(v) => v,
        None => {
            proof {
                assert(s@.subrange(d + 1, len as int) =~= s@.skip(d + 1));
            }
            return None;
        },
    };
    let scale = pow10_exec(FRAC_DIGITS - flen);
    proof {
        assert(s@.subrange(d + 1, len as int) =~= s@.skip(d + 1));
        reveal_with_fuel(pow10, 10);
        lemma_digits_bound(s@.skip(d + 1), flen as int);
        lemma_pow10_mono(0, 8 - flen as int);
        lemma_pow10_add(flen as int, 8 - flen as int);
        lemma_frac_part_bound(frac_val as int, scale as int, flen as int);
    }
    Some(int_val * PRICE_SCALE + frac_val * scale)
}

} // verus!
