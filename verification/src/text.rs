//! Character-level building blocks for the textual output: decimal
//! rendering of integers and the width padding that `{:>w}` / `{:<w}`
//! perform (width counted in characters, padded with spaces).
use vstd::prelude::*;

verus! {

/// `String::push` appends one character at the end of the string
/// (std documentation: "Appends the given char to the end of this String").
pub assume_specification[ String::push ](s: &mut String, ch: char)
    ensures
        final(s)@ == old(s)@.push(ch),
;

/// The ASCII character of a decimal digit.
pub open spec fn digit_char(d: nat) -> char {
    (d + 48) as char
}

/// The decimal representation of `n`, most significant digit first,
/// without leading zeros (what `{}` prints for an unsigned integer).
pub open spec fn decimal(n: nat) -> Seq<char>
    decreases n,
{
    if n < 10 {
        seq![digit_char(n)]
    } else {
        decimal(n / 10).push(digit_char(n % 10))
    }
}

/// `count` space characters.
pub open spec fn spaces(count: nat) -> Seq<char> {
    Seq::new(count, |i: int| ' ')
}

/// Right alignment in a field of `width` characters (`{:>width}`).
pub open spec fn pad_left(s: Seq<char>, width: nat) -> Seq<char> {
    if s.len() >= width {
        s
    } else {
        spaces((width - s.len()) as nat) + s
    }
}

/// Left alignment in a field of `width` characters (`{:<width}`).
pub open spec fn pad_right(s: Seq<char>, width: nat) -> Seq<char> {
    if s.len() >= width {
        s
    } else {
        s + spaces((width - s.len()) as nat)
    }
}

/// The decimal representation is never empty.
pub proof fn lemma_decimal_len(n: nat)
    ensures
        decimal(n).len() >= 1,
        n < 10 ==> decimal(n).len() == 1,
        10 <= n < 100 ==> decimal(n).len() == 2,
    decreases n,
{
    if n >= 10 {
        lemma_decimal_len(n / 10);
    }
}

/// The character of the decimal digit `d`.
pub fn digit(d: u64) -> (c: char)
    requires
        d < 10,
    ensures
        c == digit_char(d as nat),
{
    let b: u8 = d as u8 + 48;
    b as char
}

/// Appends the decimal representation of `n` to `out`.
pub fn push_decimal(out: &mut String, n: u64)
    ensures
        final(out)@ == old(out)@ + decimal(n as nat),
    decreases n,
{
    if n >= 10 {
        push_decimal(out, n / 10);
    }
    let c = digit(n % 10);
    out.push(c);
    assert(final(out)@ =~= old(out)@ + decimal(n as nat));
}

/// The decimal representation of `n` as a new string.
pub fn decimal_string(n: u64) -> (s: String)
    ensures
        s@ == decimal(n as nat),
{
    let mut s = String::new();
    push_decimal(&mut s, n);
    assert(s@ =~= decimal(n as nat));
    s
}

/// Appends `count` spaces to `out`.
pub fn push_spaces(out: &mut String, count: usize)
    ensures
        final(out)@ == old(out)@ + spaces(count as nat),
{
    let mut i: usize = 0;
    while i < count
        invariant
            i <= count,
            out@ == old(out)@ + spaces(i as nat),
        decreases count - i,
    {
        out.push(' ');
        i = i + 1;
        assert(out@ =~= old(out)@ + spaces(i as nat));
    }
}

/// Appends `s` aligned to the right of a field of `width` characters.
pub fn push_padded_left(out: &mut String, s: &str, width: usize)
    ensures
        final(out)@ == old(out)@ + pad_left(s@, width as nat),
{
    let n = s.unicode_len();
    if n < width {
        push_spaces(out, width - n);
    }
    out.append(s);
    assert(final(out)@ =~= old(out)@ + pad_left(s@, width as nat));
}

/// Appends `s` aligned to the left of a field of `width` characters.
pub fn push_padded_right(out: &mut String, s: &str, width: usize)
    ensures
        final(out)@ == old(out)@ + pad_right(s@, width as nat),
{
    let n = s.unicode_len();
    out.append(s);
    if n < width {
        push_spaces(out, width - n);
    }
    assert(final(out)@ =~= old(out)@ + pad_right(s@, width as nat));
}

/// The number that a sequence of decimal digits reads as, most
/// significant digit first.
pub open spec fn digits_value(s: Seq<char>) -> int
    decreases s.len(),
{
    if s.len() == 0 {
        0
    } else {
        digits_value(s.drop_last()) * 10 + (s.last() as int - 48)
    }
}

/// The decimal representation of `n` is made of the digits `0` to `9`,
/// starts with a digit other than `0` unless `n` is zero, and reads back
/// as `n`.
pub proof fn lemma_decimal_reads_back(n: nat)
    ensures
        forall|i: int| 0 <= i < decimal(n).len() ==> '0' <= #[trigger] decimal(n)[i] <= '9',
        n > 0 ==> decimal(n)[0] != '0',
        digits_value(decimal(n)) == n,
    decreases n,
{
    assert(digit_char(n % 10) as int == n % 10 + 48);
    if n < 10 {
        assert(decimal(n).drop_last() =~= Seq::<char>::empty());
        assert(digits_value(Seq::<char>::empty()) == 0);
    } else {
        lemma_decimal_reads_back(n / 10);
        let p = decimal(n / 10);
        assert(decimal(n).drop_last() =~= p);
        assert(decimal(n).last() == digit_char(n % 10));
        vstd::arithmetic::div_mod::lemma_fundamental_div_mod(n as int, 10);
        assert(decimal(n)[0] == p[0]);
        assert forall|i: int| 0 <= i < decimal(n).len() implies '0' <= #[trigger] decimal(n)[i] <= '9' by {
            if i < p.len() {
                assert(decimal(n)[i] == p[i]);
            }
        }
    }
}

/// Right alignment gives a field of at least `width` characters that ends
/// with `s` and holds only spaces before it.
pub proof fn lemma_pad_left_shape(s: Seq<char>, width: nat)
    ensures
        pad_left(s, width).len() == if s.len() >= width { s.len() } else { width },
        pad_left(s, width).subrange(pad_left(s, width).len() - s.len(), pad_left(s, width).len() as int) == s,
        forall|i: int| 0 <= i < pad_left(s, width).len() - s.len() ==> #[trigger] pad_left(s, width)[i] == ' ',
{
    let p = pad_left(s, width);
    assert(p.subrange(p.len() - s.len(), p.len() as int) =~= s);
}

/// Left alignment gives a field of at least `width` characters that starts
/// with `s` and holds only spaces after it.
pub proof fn lemma_pad_right_shape(s: Seq<char>, width: nat)
    ensures
        pad_right(s, width).len() == if s.len() >= width { s.len() } else { width },
        pad_right(s, width).subrange(0, s.len() as int) == s,
        forall|i: int| s.len() <= i < pad_right(s, width).len() ==> #[trigger] pad_right(s, width)[i] == ' ',
{
    let p = pad_right(s, width);
    assert(p.subrange(0, s.len() as int) =~= s);
}

} // verus!
