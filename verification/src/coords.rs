//! Coordinates as fixed-point numbers.
//!
//! Every provider interface the library talks to uses coordinates rounded
//! to four decimal places, so latitude and longitude are carried as `i64`
//! counts of one ten-thousandth of a degree. This module formats such a
//! value in the `-122.3000` style the providers expect and reads one back
//! from a decimal string, rounding at the fourth fraction digit.

use vstd::prelude::*;

use crate::text::{
    all_digits, dec_digits, dec_value, digit_char, digit_val, format_u64, is_digit, parse_u64,
};
use crate::text::{lemma_dec_value_nonneg, lemma_dec_value_step};

verus! {

/// One ten-thousandth, the resolution of a coordinate.
pub open spec fn pow10(n: int) -> int
    decreases n,
{
    if n <= 0 {
        1
    } else {
        10 * pow10(n - 1)
    }
}

/// A fraction value, zero-padded to exactly four digit characters.
pub open spec fn pad4(m: int) -> Seq<char>
    recommends
        0 <= m < 10000,
{
    seq![
        digit_char(m / 1000),
        digit_char((m / 100) % 10),
        digit_char((m / 10) % 10),
        digit_char(m % 10),
    ]
}

/// The canonical text of a coordinate: optional minus sign, integer part,
/// a dot, and exactly four fraction digits.
pub open spec fn coord_chars(v: int) -> Seq<char> {
    let a = if v < 0 {
        -v
    } else {
        v
    };
    (if v < 0 {
        seq!['-']
    } else {
        Seq::<char>::empty()
    }) + dec_digits(a / 10000) + seq!['.'] + pad4(a % 10000)
}

/// Format a fixed-point coordinate with four decimal places.
pub fn format_coord_e4(v: i64) -> (r: Vec<char>)
    requires
        v > i64::MIN,
    ensures
        r@ == coord_chars(v as int),
{
    let a: u64 = if v < 0 {
        (-v) as u64
    } else {
        v as u64
    };
    let mut r: Vec<char> = Vec::new();
    if v < 0 {
        r.push('-');
    }
    let mut whole = format_u64(a / 10000);
    r.append(&mut whole);
    r.push('.');
    let frac = a % 10000;
    r.push((48 + (frac / 1000) as u8) as char);
    r.push((48 + ((frac / 100) % 10) as u8) as char);
    r.push((48 + ((frac / 10) % 10) as u8) as char);
    r.push((48 + (frac % 10) as u8) as char);
    proof {
        assert(r@ =~= coord_chars(v as int));
    }
    r
}

/// The sign a decimal string denotes.
pub open spec fn sign_of(s: Seq<char>) -> int {
    if s.len() > 0 && s[0] == '-' {
        -1
    } else {
        1
    }
}

/// The string with its sign character removed, if it has one.
pub open spec fn unsigned_part(s: Seq<char>) -> Seq<char> {
    if s.len() > 0 && (s[0] == '-' || s[0] == '+') {
        s.drop_first()
    } else {
        s
    }
}

/// The position of the first dot, or the length when there is none.
pub open spec fn dot_pos(t: Seq<char>) -> int
    decreases t.len(),
{
    if t.len() == 0 {
        0
    } else if t[0] == '.' {
        0
    } else {
        1 + dot_pos(t.drop_first())
    }
}

/// `dot_pos` is the first index holding a dot.
pub proof fn lemma_dot_pos(t: Seq<char>)
    ensures
        0 <= dot_pos(t) <= t.len(),
        dot_pos(t) < t.len() ==> t[dot_pos(t)] == '.',
        forall|j: int| 0 <= j < dot_pos(t) ==> t[j] != '.',
    decreases t.len(),
{
    if t.len() > 0 && t[0] != '.' {
        lemma_dot_pos(t.drop_first());
        assert forall|j: int| 0 <= j < dot_pos(t) implies t[j] != '.' by {
            if j >= 1 {
                assert(t.drop_first()[j - 1] != '.');
            }
        }
    }
}

/// The digits before the dot.
pub open spec fn int_part(t: Seq<char>) -> Seq<char> {
    t.subrange(0, dot_pos(t))
}

/// The digits after the dot, empty when there is no dot.
pub open spec fn frac_part(t: Seq<char>) -> Seq<char> {
    if dot_pos(t) < t.len() {
        t.subrange(dot_pos(t) + 1, t.len() as int)
    } else {
        Seq::<char>::empty()
    }
}

/// Whether a string is a plain signed decimal number: an optional sign,
/// digits, and at most one dot, with at least one digit overall.
pub open spec fn coord_grammar_ok(s: Seq<char>) -> bool {
    let t = unsigned_part(s);
    all_digits(int_part(t)) && all_digits(frac_part(t)) && int_part(t).len() + frac_part(
        t,
    ).len() > 0
}

/// The fraction digits scaled to ten-thousandths, rounded half away
/// from zero at the fourth digit.
pub open spec fn frac_e4(f: Seq<char>) -> int {
    if f.len() >= 4 {
        dec_value(f.subrange(0, 4)) + (if f.len() >= 5 && digit_val(f[4]) >= 5 {
            1int
        } else {
            0int
        })
    } else {
        dec_value(f) * pow10(4 - f.len())
    }
}

/// The coordinate a decimal string denotes, in ten-thousandths.
pub open spec fn coord_value_e4(s: Seq<char>) -> int {
    let t = unsigned_part(s);
    sign_of(s) * (dec_value(int_part(t)) * 10000 + frac_e4(frac_part(t)))
}

/// The magnitude of the coordinate a string denotes, in ten-thousandths.
pub open spec fn coord_magnitude_e4(s: Seq<char>) -> int {
    let t = unsigned_part(s);
    dec_value(int_part(t)) * 10000 + frac_e4(frac_part(t))
}

/// Read a coordinate from a decimal string into ten-thousandths of a
/// degree, rounding half away from zero at the fourth fraction digit.
/// Succeeds exactly on plain signed decimal numbers whose value fits.
pub fn parse_coord_e4(s: &Vec<char>) -> (r: Option<i64>)
    ensures
        r is Some <==> (coord_grammar_ok(s@) && coord_magnitude_e4(s@) <= i64::MAX),
        r matches Some(v) ==> v == coord_value_e4(s@),
{
    let n = s.len();
    let mut i: usize = 0;
    let mut negative: bool = false;
    if n > 0 && (s[0] == '-' || s[0] == '+') {
        negative = s[0] == '-';
        i = 1;
    }
    let ghost t = unsigned_part(s@);
    proof {
        assert(t =~= s@.subrange(i as int, n as int));
        lemma_dot_pos(t);
    }
    // Collect the digits before the dot.
    let mut int_digits: Vec<char> = Vec::new();
    while i < n && s[i] != '.'
        invariant
            n == s@.len(),
            i <= n,
            t == unsigned_part(s@),
            t =~= s@.subrange(n - t.len(), n as int),
            i >= n - t.len(),
            int_digits@ =~= t.subrange(0, i - (n - t.len())),
            forall|j: int| 0 <= j < i - (n - t.len()) ==> t[j] != '.',
        decreases n - i,
    {
        int_digits.push(s[i]);
        i = i + 1;
        proof {
            assert(int_digits@ =~= t.subrange(0, i - (n - t.len())));
        }
    }
    proof {
        assert(dot_pos(t) == i - (n - t.len())) by {
            lemma_dot_pos(t);
            if dot_pos(t) < i - (n - t.len()) {
                assert(t[dot_pos(t)] == '.');
            }
            if dot_pos(t) > i - (n - t.len()) {
                assert(i < n);
                assert(t[i - (n - t.len())] == s@[i as int]);
            }
        }
        assert(int_digits@ =~= int_part(t));
    }
    // Collect the digits after the dot.
    let mut frac_digits: Vec<char> = Vec::new();
    let ghost dp = dot_pos(t);
    if i < n {
        // Skip the dot itself.
        i = i + 1;
        while i < n
            invariant
                n == s@.len(),
                i <= n,
                t == unsigned_part(s@),
                t.len() <= n,
                t =~= s@.subrange(n - t.len(), n as int),
                0 <= dp == dot_pos(t),
                dp < t.len(),
                i >= n - t.len() + dp + 1,
                frac_digits@ =~= t.subrange(dp + 1, i - (n - t.len())),
            decreases n - i,
        {
            proof {
                assert(t[i - (n - t.len())] == s@[i as int]);
            }
            frac_digits.push(s[i]);
            i = i + 1;
            proof {
                assert(frac_digits@ =~= t.subrange(dp + 1, i - (n - t.len())));
            }
        }
        proof {
            assert(frac_digits@ =~= frac_part(t));
        }
    } else {
        proof {
            assert(frac_digits@ =~= frac_part(t));
        }
    }
    if int_digits.len() == 0 && frac_digits.len() == 0 {
        return None;
    }
    // Validate and evaluate both digit runs.
    let whole: u64 = if int_digits.len() == 0 {
        proof {
            lemma_dec_value_nonneg(int_digits@);
        }
        0
    } else {
        match parse_u64(&int_digits) {
            Some(w) => w,
            None => {
                proof {
                    if coord_grammar_ok(s@) {
                        // The integer part alone already exceeds any `i64`.
                        lemma_dec_value_nonneg(frac_part(t));
                        crate::coords::lemma_frac_e4_bounds(frac_part(t));
                    }
                }
                return None;
            },
        }
    };
    let frac: u64 = match eval_frac_e4(&frac_digits) {
        Some(f) => f,
        None => {
            return None;
        },
    };
    if whole > ((i64::MAX as u64) - frac) / 10000 {
        proof {
            lemma_frac_e4_bounds(frac_digits@);
        }
        return None;
    }
    let magnitude: i64 = (whole * 10000 + frac) as i64;
    proof {
        lemma_frac_e4_bounds(frac_digits@);
        assert(dec_value(int_part(t)) == whole) by {
            if int_digits@.len() == 0 {
                assert(dec_value(int_digits@) == 0);
            }
        }
        assert(frac == frac_e4(frac_part(t)));
        assert(magnitude == coord_magnitude_e4(s@));
        if negative {
            assert(sign_of(s@) == -1);
        } else {
            assert(sign_of(s@) == 1);
        }
    }
    if negative {
        Some(-magnitude)
    } else {
        Some(magnitude)
    }
}

/// The scaled fraction of a digit run never exceeds one whole unit.
pub proof fn lemma_frac_e4_bounds(f: Seq<char>)
    requires
        all_digits(f),
    ensures
        0 <= frac_e4(f) <= 10000,
    decreases f.len(),
{
    lemma_pow10_small();
    if f.len() >= 4 {
        let p = f.subrange(0, 4);
        assert(all_digits(p)) by {
            assert(forall|i: int| 0 <= i < 4 ==> p[i] == #[trigger] f[i]);
        }
        lemma_dec_value_upper(p);
        lemma_dec_value_nonneg(p);
    } else {
        lemma_dec_value_upper(f);
        lemma_dec_value_nonneg(f);
        if f.len() == 0 {
        } else if f.len() == 1 {
            assert(dec_value(f) * pow10(3) <= 9 * 1000);
        } else if f.len() == 2 {
            assert(dec_value(f) * pow10(2) <= 99 * 100);
        } else {
            assert(dec_value(f) * pow10(1) <= 999 * 10);
        }
    }
}

/// A digit run's value is below ten to its length.
pub proof fn lemma_dec_value_upper(s: Seq<char>)
    requires
        all_digits(s),
    ensures
        dec_value(s) < pow10(s.len() as int),
    decreases s.len(),
{
    if s.len() > 0 {
        assert(all_digits(s.drop_last())) by {
            assert(forall|i: int| 0 <= i < s.len() - 1 ==> s.drop_last()[i] == #[trigger] s[i]);
        }
        lemma_dec_value_upper(s.drop_last());
        assert(digit_val(s.last()) <= 9);
    }
}

/// The first few powers of ten, spelled out.
proof fn lemma_pow10_small()
    ensures
        pow10(0) == 1,
        pow10(1) == 10,
        pow10(2) == 100,
        pow10(3) == 1000,
        pow10(4) == 10000,
{
    assert(pow10(0) == 1);
    assert(pow10(1) == 10);
    assert(pow10(2) == 100);
    assert(pow10(3) == 1000);
    assert(pow10(4) == 10000);
}

/// The value of at most four digit characters, unfolded digit by digit.
proof fn lemma_dec_value_unfold(s: Seq<char>)
    requires
        1 <= s.len() <= 4,
    ensures
        s.len() == 1 ==> dec_value(s) == digit_val(s[0]),
        s.len() == 2 ==> dec_value(s) == digit_val(s[0]) * 10 + digit_val(s[1]),
        s.len() == 3 ==> dec_value(s) == (digit_val(s[0]) * 10 + digit_val(s[1])) * 10
            + digit_val(s[2]),
        s.len() == 4 ==> dec_value(s) == ((digit_val(s[0]) * 10 + digit_val(s[1])) * 10
            + digit_val(s[2])) * 10 + digit_val(s[3]),
    decreases s.len(),
{
    if s.len() == 1 {
        assert(s.drop_last() =~= Seq::<char>::empty());
        assert(dec_value(s.drop_last()) == 0);
        assert(dec_value(s) == dec_value(s.drop_last()) * 10 + digit_val(s.last()));
        assert(s.last() == s[0]);
    } else {
        lemma_dec_value_unfold(s.drop_last());
        assert(forall|i: int| 0 <= i < s.len() - 1 ==> s.drop_last()[i] == #[trigger] s[i]);
        assert(s.last() == s[s.len() - 1]);
    }
}

/// Evaluate fraction digits as ten-thousandths, rounding half away from
/// zero at the fourth. Fails exactly when some character is not a digit.
fn eval_frac_e4(f: &Vec<char>) -> (r: Option<u64>)
    ensures
        r is Some <==> all_digits(f@),
        r matches Some(v) ==> v == frac_e4(f@),
        r matches Some(v) ==> v <= 10000,
{
    let n = f.len();
    // Check every character, not only the four that count.
    let mut i: usize = 0;
    while i < n
        invariant
            n == f@.len(),
            i <= n,
            forall|j: int| 0 <= j < i ==> is_digit(#[trigger] f@[j]),
        decreases n - i,
    {
        let c = f[i];
        if !('0' <= c && c <= '9') {
            return None;
        }
        i = i + 1;
    }
    // At most four digits count; missing ones count as zero.
    let g0: u64 = if n > 0 {
        (f[0] as u8 - 48) as u64
    } else {
        0
    };
    let g1: u64 = if n > 1 {
        (f[1] as u8 - 48) as u64
    } else {
        0
    };
    let g2: u64 = if n > 2 {
        (f[2] as u8 - 48) as u64
    } else {
        0
    };
    let g3: u64 = if n > 3 {
        (f[3] as u8 - 48) as u64
    } else {
        0
    };
    // A fifth digit of five or more rounds the kept four up by one.
    let carry: u64 = if n > 4 && f[4] >= '5' {
        1
    } else {
        0
    };
    let v = g0 * 1000 + g1 * 100 + g2 * 10 + g3 + carry;
    proof {
        lemma_pow10_small();
        if n >= 4 {
            let p = f@.subrange(0, 4);
            lemma_dec_value_unfold(p);
        } else if n >= 1 {
            lemma_dec_value_unfold(f@);
        }
    }
    Some(v)
}

} // verus!
