//! Zero-padded decimal rendering of integers as ASCII bytes.

use vstd::prelude::*;

verus! {

/// ASCII code of `'0'`.
pub const ASCII_ZERO: u8 = 48;

/// ASCII code of `'-'`.
pub const ASCII_MINUS: u8 = 45;

/// The ASCII digit for `d`, meant for `d < 10`.
pub open spec fn digit(d: nat) -> u8 {
    (ASCII_ZERO + d) as u8
}

/// The decimal digits of `n`, most significant first, without padding.
pub open spec fn decimal(n: nat) -> Seq<u8>
    decreases n,
{
    if n < 10 {
        seq![digit(n)]
    } else {
        decimal(n / 10).push(digit(n % 10))
    }
}

/// `count` ASCII zeros.
pub open spec fn zeros(count: nat) -> Seq<u8> {
    Seq::new(count, |i: int| ASCII_ZERO)
}

/// The decimal digits of `n`, with zeros in front of them until there are at
/// least `width` bytes. A number with more digits than `width` is not cut.
pub open spec fn zero_padded(n: nat, width: nat) -> Seq<u8> {
    if decimal(n).len() >= width {
        decimal(n)
    } else {
        zeros((width - decimal(n).len()) as nat) + decimal(n)
    }
}

/// A signed number in at least `width` bytes: a negative one starts with `-`,
/// and the zeros stand between the sign and the digits.
pub open spec fn signed_zero_padded(v: int, width: nat) -> Seq<u8> {
    if v < 0 {
        seq![ASCII_MINUS] + zero_padded((-v) as nat, if width >= 1 {
            (width - 1) as nat
        } else {
            0nat
        })
    } else {
        zero_padded(v as nat, width)
    }
}

/// True when every byte of `s` is an ASCII digit.
pub open spec fn all_digits(s: Seq<u8>) -> bool {
    forall|i: int| 0 <= i < s.len() ==> ASCII_ZERO <= #[trigger] s[i] <= ASCII_ZERO + 9
}

/// The number that a sequence of ASCII digits denotes.
pub open spec fn value_of(s: Seq<u8>) -> nat
    decreases s.len(),
{
    if s.len() == 0 {
        0
    } else {
        (10 * value_of(s.drop_last()) + (s.last() - ASCII_ZERO)) as nat
    }
}

/// Ten to the power `k`.
pub open spec fn pow10(k: nat) -> nat
    decreases k,
{
    if k == 0 {
        1
    } else {
        10 * pow10((k - 1) as nat)
    }
}

/// A number below `10^k` has at most `k` digits.
pub proof fn lemma_decimal_len(n: nat, k: nat)
    requires
        k >= 1,
    ensures
        n < pow10(k) ==> decimal(n).len() <= k,
    decreases k,
{
    reveal_with_fuel(pow10, 2);
    if k > 1 {
        lemma_decimal_len(n / 10, (k - 1) as nat);
    }
}

/// A decimal rendering is never empty and holds digits only; its length is
/// given for the small numbers, and is at most ten for a 32-bit number.
pub proof fn lemma_decimal_shape(n: nat)
    ensures
        decimal(n).len() >= 1,
        all_digits(decimal(n)),
        n < 10 ==> decimal(n).len() == 1,
        10 <= n < 100 ==> decimal(n).len() == 2,
        100 <= n < 1000 ==> decimal(n).len() == 3,
        1000 <= n < 10000 ==> decimal(n).len() == 4,
        n >= 10000 ==> decimal(n).len() >= 5,
        n <= u32::MAX ==> decimal(n).len() <= 10,
    decreases n,
{
    if n >= 10 {
        lemma_decimal_shape(n / 10);
    }
    assert(pow10(10) == 10_000_000_000) by {
        reveal_with_fuel(pow10, 11);
    }
    lemma_decimal_len(n, 10);
}

/// Reading the digits of `n` back gives `n`.
pub proof fn lemma_value_of_decimal(n: nat)
    ensures
        value_of(decimal(n)) == n,
    decreases n,
{
    if n < 10 {
        assert(value_of(decimal(n).drop_last()) == 0);
    } else {
        lemma_value_of_decimal(n / 10);
        assert(decimal(n).drop_last() =~= decimal(n / 10));
    }
}

/// Zeros in front of digits do not change the number they denote.
pub proof fn lemma_value_of_zeros(count: nat, s: Seq<u8>)
    ensures
        value_of(zeros(count) + s) == value_of(s),
    decreases s.len(),
{
    if s.len() == 0 {
        lemma_value_of_all_zeros(count);
    } else {
        lemma_value_of_zeros(count, s.drop_last());
        assert((zeros(count) + s).drop_last() =~= zeros(count) + s.drop_last());
    }
}

/// A run of zeros denotes zero.
pub proof fn lemma_value_of_all_zeros(count: nat)
    ensures
        value_of(zeros(count)) == 0,
    decreases count,
{
    if count > 0 {
        lemma_value_of_all_zeros((count - 1) as nat);
        assert(zeros(count).drop_last() =~= zeros((count - 1) as nat));
    }
}

/// A zero-padded rendering has at least `width` bytes, exactly `width` when
/// the number has no more digits than that, holds digits only, and denotes
/// the number it was made from.
pub proof fn lemma_zero_padded_shape(n: nat, width: nat)
    ensures
        zero_padded(n, width).len() >= width,
        decimal(n).len() <= width ==> zero_padded(n, width).len() == width,
        all_digits(zero_padded(n, width)),
        value_of(zero_padded(n, width)) == n,
{
    lemma_decimal_shape(n);
    lemma_value_of_decimal(n);
    if decimal(n).len() < width {
        lemma_value_of_zeros((width - decimal(n).len()) as nat, decimal(n));
    }
}

/// Appends the decimal digits of `n` to `out`.
pub fn push_decimal(out: &mut Vec<u8>, n: u32)
    ensures
        final(out)@ == old(out)@ + decimal(n as nat),
    decreases n,
{
    if n < 10 {
        out.push(ASCII_ZERO + (n as u8));
    } else {
        push_decimal(out, n / 10);
        out.push(ASCII_ZERO + ((n % 10) as u8));
    }
}

/// The number of decimal digits of `n`.
pub fn decimal_len(n: u32) -> (len: usize)
    ensures
        len == decimal(n as nat).len(),
        1 <= len <= 10,
    decreases n,
{
    proof {
        lemma_decimal_shape(n as nat);
    }
    if n < 10 {
        1
    } else {
        decimal_len(n / 10) + 1
    }
}

/// Appends `n` to `out` in decimal, with zeros in front until the number
/// takes at least `width` bytes.
pub fn push_zero_padded(out: &mut Vec<u8>, n: u32, width: usize)
    ensures
        final(out)@ == old(out)@ + zero_padded(n as nat, width as nat),
{
    let len: usize = decimal_len(n);
    let mut written: usize = len;
    while written < width
        invariant
            len == decimal(n as nat).len(),
            len <= written,
            written <= width || written == len,
            out@ == old(out)@ + zeros((written - len) as nat),
        decreases width - written,
    {
        out.push(ASCII_ZERO);
        written = written + 1;
    }
    push_decimal(out, n);
}

/// Appends a signed number to `out` in at least `width` bytes: the sign of a
/// negative number first, then zeros, then the digits.
pub fn push_signed_zero_padded(out: &mut Vec<u8>, v: i32, width: usize)
    ensures
        final(out)@ == old(out)@ + signed_zero_padded(v as int, width as nat),
{
    if v < 0 {
        let wide: i64 = v as i64;
        let magnitude: u32 = (-wide) as u32;
        out.push(ASCII_MINUS);
        let rest: usize = if width >= 1 {
            width - 1
        } else {
            0
        };
        push_zero_padded(out, magnitude, rest);
    } else {
        push_zero_padded(out, v as u32, width);
    }
}

} // verus!
