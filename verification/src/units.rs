//! Human-readable byte counts.
//!
//! The value shown for KiB, MiB and GiB is the one that `{:.2}` prints for
//! `bytes as f64 / unit as f64`: the integer is first rounded to the nearest
//! double (ties to even), the division by a power of two is exact, and the
//! quotient is rounded to two decimals, ties to even.  All of it is computed
//! here with integers.
use vstd::prelude::*;
use crate::text::{decimal, digit_char, push_decimal, digit, digits_value, lemma_decimal_reads_back, lemma_decimal_len};

verus! {

/// Bytes in a kibibyte.
pub const KIB: u64 = 1024;

/// Bytes in a mebibyte.
pub const MIB: u64 = 1048576;

/// Bytes in a gibibyte.
pub const GIB: u64 = 1073741824;

/// The largest integer below which every integer is a double.
pub const EXACT_LIMIT: u64 = 0x20_0000_0000_0000;

/// The distance between neighbouring doubles around the integer `n`.
pub open spec fn f64_spacing(n: nat) -> nat
    decreases n,
{
    if n < EXACT_LIMIT {
        1
    } else {
        2 * f64_spacing(n / 2)
    }
}

/// `num / den` rounded to the nearest integer, ties to the even one.
pub open spec fn round_half_even(num: nat, den: nat) -> nat
    recommends
        den > 0,
{
    let q = num / den;
    let r = num % den;
    if 2 * r > den || (2 * r == den && q % 2 == 1) {
        q + 1
    } else {
        q
    }
}

/// The value of `n as f64`: the nearest double, ties to even.
pub open spec fn f64_nearest(n: nat) -> nat {
    round_half_even(n, f64_spacing(n)) * f64_spacing(n)
}

/// `bytes as f64 / unit as f64` in hundredths, rounded as `{:.2}` rounds.
pub open spec fn scaled_hundredths(bytes: nat, unit: nat) -> nat {
    round_half_even(f64_nearest(bytes) * 100, unit)
}

/// A count of hundredths written with exactly two decimals.
pub open spec fn fixed2(h: nat) -> Seq<char> {
    decimal(h / 100) + seq!['.', digit_char((h % 100) / 10), digit_char(h % 10)]
}

/// What `format_bytes` prints for `bytes`.
pub open spec fn format_bytes_spec(bytes: nat) -> Seq<char> {
    if bytes >= GIB {
        fixed2(scaled_hundredths(bytes, GIB as nat)) + seq![' ', 'G', 'i', 'B']
    } else if bytes >= MIB {
        fixed2(scaled_hundredths(bytes, MIB as nat)) + seq![' ', 'M', 'i', 'B']
    } else if bytes >= KIB {
        fixed2(scaled_hundredths(bytes, KIB as nat)) + seq![' ', 'K', 'i', 'B']
    } else {
        decimal(bytes) + seq![' ', 'B']
    }
}

proof fn lemma_spacing_step(n: nat)
    requires
        n >= EXACT_LIMIT,
    ensures
        f64_spacing(n) == 2 * f64_spacing(n / 2),
{
}

/// `round_half_even(n, den)` computed with machine integers.
fn round_half_even_u128(num: u128, den: u128) -> (q: u128)
    requires
        den > 0,
        num / den < u128::MAX,
    ensures
        q == round_half_even(num as nat, den as nat),
{
    let q = num / den;
    let r = num % den;
    assert(r < den);
    if (r > den - r) || (r == den - r && q % 2 == 1) {
        q + 1
    } else {
        q
    }
}

/// The value of `bytes as f64`, as an integer.
fn nearest_double(bytes: u64) -> (x: u128)
    ensures
        x == f64_nearest(bytes as nat),
        x <= 0x1_0000_0000_0000_1000,
{
    let mut p: u64 = 1;
    let mut m: u64 = bytes;
    while m >= EXACT_LIMIT
        invariant
            1 <= p <= 4096,
            m == bytes / p,
            p * m <= bytes,
            f64_spacing(bytes as nat) == p * f64_spacing(m as nat),
        decreases m,
    {
        assert(p < 2048) by (nonlinear_arith)
            requires
                p * m <= bytes,
                m >= EXACT_LIMIT,
                bytes <= u64::MAX,
        ;
        proof {
            lemma_spacing_step(m as nat);
            vstd::arithmetic::div_mod::lemma_div_denominator(bytes as int, p as int, 2);
            vstd::arithmetic::mul::lemma_mul_is_associative(p as int, 2, f64_spacing((m / 2) as nat) as int);
        }
        let ghost old_p = p;
        let ghost old_m = m;
        m = m / 2;
        p = p * 2;
        assert(p * m <= bytes) by (nonlinear_arith)
            requires
                p == old_p * 2,
                m == old_m / 2,
                old_p * old_m <= bytes,
                old_p >= 1,
        {
        }
    }
    assert(f64_spacing(m as nat) == 1);
    assert(f64_spacing(bytes as nat) == p) by {
        vstd::arithmetic::mul::lemma_mul_basics(p as int);
    }
    let q = round_half_even_u128(bytes as u128, p as u128);
    proof {
        vstd::arithmetic::div_mod::lemma_fundamental_div_mod(bytes as int, p as int);
    }
    assert(q * p <= 0x1_0000_0000_0000_1000) by (nonlinear_arith)
        requires
            q <= bytes / p + 1,
            p * (bytes / p) <= bytes,
            p >= 1,
            bytes <= u64::MAX,
            p <= 4096,
    {
    }
    q * (p as u128)
}

/// Appends `h` hundredths written with two decimals.
fn push_fixed2(out: &mut String, h: u64)
    ensures
        final(out)@ == old(out)@ + fixed2(h as nat),
{
    push_decimal(out, h / 100);
    out.push('.');
    out.push(digit((h % 100) / 10));
    out.push(digit(h % 10));
    assert(final(out)@ =~= old(out)@ + fixed2(h as nat));
}

/// Formats a byte count in B, KiB, MiB or GiB, whichever is the largest
/// unit not above it, with two decimals for the binary units.
pub fn format_bytes(bytes: u64) -> (s: String)
    ensures
        s@ == format_bytes_spec(bytes as nat),
{
    let mut s = String::new();
    if bytes < KIB {
        push_decimal(&mut s, bytes);
        s.append(" B");
        proof {
            reveal_strlit(" B");
        }
        assert(s@ =~= format_bytes_spec(bytes as nat));
        return s;
    }
    let unit: u64 = if bytes >= GIB {
        GIB
    } else if bytes >= MIB {
        MIB
    } else {
        KIB
    };
    let x = nearest_double(bytes);
    let num: u128 = x * 100;
    proof {
        vstd::arithmetic::div_mod::lemma_div_is_ordered(num as int, 0x1_0000_0000_0000_1000int * 100, unit as int);
        vstd::arithmetic::div_mod::lemma_div_is_ordered_by_denominator(0x1_0000_0000_0000_1000int * 100, 1024, unit as int);
    }
    let h = round_half_even_u128(num, unit as u128);
    assert(h <= u64::MAX);
    push_fixed2(&mut s, h as u64);
    if unit == GIB {
        s.append(" GiB");
        proof {
            reveal_strlit(" GiB");
        }
    } else if unit == MIB {
        s.append(" MiB");
        proof {
            reveal_strlit(" MiB");
        }
    } else {
        s.append(" KiB");
        proof {
            reveal_strlit(" KiB");
        }
    }
    assert(s@ =~= format_bytes_spec(bytes as nat));
    s
}

/// Rounding to the nearest multiple is off by at most half the divisor.
pub proof fn lemma_round_half_even_error(num: nat, den: nat)
    requires
        den > 0,
    ensures
        2 * (round_half_even(num, den) * den - num) <= den,
        2 * (num - round_half_even(num, den) * den) <= den,
{
    let q = num / den;
    let r = num % den;
    vstd::arithmetic::div_mod::lemma_fundamental_div_mod(num as int, den as int);
    assert((q + 1) * den == q * den + den) by (nonlinear_arith);
}

/// Every integer below 2^53 is a double, so converting it loses nothing.
pub proof fn lemma_f64_exact(n: nat)
    requires
        n < EXACT_LIMIT,
    ensures
        f64_nearest(n) == n,
{
    assert(f64_spacing(n) == 1);
    assert(n / 1 == n && n % 1 == 0) by (nonlinear_arith);
}

/// Below 2^53 bytes, the two decimals shown are the exact quotient
/// `bytes / unit` rounded to the nearest hundredth: the figure times the
/// unit is within half a hundredth of a unit of the byte count.
pub proof fn lemma_format_bytes_accuracy(bytes: nat, unit: nat)
    requires
        bytes < EXACT_LIMIT,
        unit > 0,
    ensures
        2 * (scaled_hundredths(bytes, unit) * unit - 100 * bytes) <= unit,
        2 * (100 * bytes - scaled_hundredths(bytes, unit) * unit) <= unit,
{
    lemma_f64_exact(bytes);
    lemma_round_half_even_error(bytes * 100, unit);
}

/// The unit shown is the largest of B, KiB, MiB and GiB that is not above
/// the byte count, and byte counts below one KiB are shown exactly.
pub proof fn lemma_format_bytes_unit(bytes: nat)
    ensures
        bytes < KIB ==> format_bytes_spec(bytes) == decimal(bytes) + seq![' ', 'B'],
        KIB <= bytes < MIB ==> format_bytes_spec(bytes) == fixed2(scaled_hundredths(bytes, KIB as nat)) + seq![' ', 'K', 'i', 'B'],
        MIB <= bytes < GIB ==> format_bytes_spec(bytes) == fixed2(scaled_hundredths(bytes, MIB as nat)) + seq![' ', 'M', 'i', 'B'],
        GIB <= bytes ==> format_bytes_spec(bytes) == fixed2(scaled_hundredths(bytes, GIB as nat)) + seq![' ', 'G', 'i', 'B'],
{
}

/// A count of hundredths written with two decimals reads back as that
/// count: the whole part before the point, then exactly two digits.
pub proof fn lemma_fixed2_reads_back(h: nat)
    ensures
        fixed2(h).len() >= 4,
        fixed2(h)[fixed2(h).len() - 3] == '.',
        digits_value(fixed2(h).subrange(0, fixed2(h).len() - 3)) == h / 100,
        digits_value(fixed2(h).subrange(fixed2(h).len() - 2, fixed2(h).len() as int)) == h % 100,
{
    lemma_decimal_reads_back(h / 100);
    lemma_decimal_len(h / 100);
    let f = fixed2(h);
    let n = f.len();
    assert(f.subrange(0, n - 3) =~= decimal(h / 100));
    let t = f.subrange(n - 2, n as int);
    assert(t =~= seq![digit_char((h % 100) / 10), digit_char(h % 10)]);
    assert(t.drop_last() =~= seq![digit_char((h % 100) / 10)]);
    assert(t.drop_last().drop_last() =~= Seq::<char>::empty());
    assert(digit_char((h % 100) / 10) as int == (h % 100) / 10 + 48);
    assert(digit_char(h % 10) as int == h % 10 + 48);
    assert(((h % 100) / 10) * 10 + h % 10 == h % 100) by {
        vstd::arithmetic::div_mod::lemma_fundamental_div_mod((h % 100) as int, 10);
        vstd::arithmetic::div_mod::lemma_mod_mod(h as int, 10, 10);
    }
    assert(digits_value(t.drop_last().drop_last()) == 0);
    assert(digits_value(t.drop_last()) == (h % 100) / 10);
    assert(digits_value(t) == ((h % 100) / 10) * 10 + h % 10);
}

/// Below 2^53 bytes, a byte count is shown in bytes below 1024, else in
/// KiB below 1048576, else in MiB below 1073741824, else in GiB, and the
/// figure shown, in hundredths of that unit, is within half a hundredth
/// of the exact quotient.
pub proof fn lemma_format_bytes_value(bytes: nat)
    requires
        bytes < 0x20_0000_0000_0000,
    ensures
        bytes < 1024 ==> format_bytes_spec(bytes) == decimal(bytes) + " B"@,
        1024 <= bytes < 1048576 ==> exists|h: nat|
            format_bytes_spec(bytes) == #[trigger] fixed2(h) + " KiB"@ && 2 * (h * 1024 - 100 * bytes) <= 1024 && 2 * (
            100 * bytes - h * 1024) <= 1024,
        1048576 <= bytes < 1073741824 ==> exists|h: nat|
            format_bytes_spec(bytes) == #[trigger] fixed2(h) + " MiB"@ && 2 * (h * 1048576 - 100 * bytes) <= 1048576
                && 2 * (100 * bytes - h * 1048576) <= 1048576,
        1073741824 <= bytes ==> exists|h: nat|
            format_bytes_spec(bytes) == #[trigger] fixed2(h) + " GiB"@ && 2 * (h * 1073741824 - 100 * bytes)
                <= 1073741824 && 2 * (100 * bytes - h * 1073741824) <= 1073741824,
{
    reveal_strlit(" B");
    reveal_strlit(" KiB");
    reveal_strlit(" MiB");
    reveal_strlit(" GiB");
    assert(" B"@ =~= seq![' ', 'B']);
    assert(" KiB"@ =~= seq![' ', 'K', 'i', 'B']);
    assert(" MiB"@ =~= seq![' ', 'M', 'i', 'B']);
    assert(" GiB"@ =~= seq![' ', 'G', 'i', 'B']);
    if 1024 <= bytes < 1048576 {
        lemma_format_bytes_accuracy(bytes, 1024);
        let h = scaled_hundredths(bytes, 1024);
        assert(format_bytes_spec(bytes) == fixed2(h) + " KiB"@);
    } else if 1048576 <= bytes < 1073741824 {
        lemma_format_bytes_accuracy(bytes, 1048576);
        let h = scaled_hundredths(bytes, 1048576);
        assert(format_bytes_spec(bytes) == fixed2(h) + " MiB"@);
    } else if 1073741824 <= bytes {
        lemma_format_bytes_accuracy(bytes, 1073741824);
        let h = scaled_hundredths(bytes, 1073741824);
        assert(format_bytes_spec(bytes) == fixed2(h) + " GiB"@);
    }
}

} // verus!
