//! Decimal rendering of integers with zero padding, as Rust's `{:0w}`
//! formats them.

use vstd::prelude::*;

verus! {

/// The character of a decimal digit `d` (`0 <= d < 10`).
pub open spec fn digit_char(d: int) -> char {
    if d == 0 {
        '0'
    } else if d == 1 {
        '1'
    } else if d == 2 {
        '2'
    } else if d == 3 {
        '3'
    } else if d == 4 {
        '4'
    } else if d == 5 {
        '5'
    } else if d == 6 {
        '6'
    } else if d == 7 {
        '7'
    } else if d == 8 {
        '8'
    } else {
        '9'
    }
}

/// The decimal digits of `n`, most significant first, with no leading zero
/// (zero itself is the single digit `'0'`).
pub open spec fn decimal(n: nat) -> Seq<char>
    decreases n,
{
    if n < 10 {
        seq![digit_char(n as int)]
    } else {
        decimal(n / 10).push(digit_char((n % 10) as int))
    }
}

/// `count` zeros.
pub open spec fn zeros(count: nat) -> Seq<char> {
    Seq::new(count, |_i: int| '0')
}

/// `n` in decimal, with zeros in front up to `width` characters; never
/// truncated when the digits are more than `width`.
pub open spec fn zero_padded(n: nat, width: nat) -> Seq<char> {
    let digits = decimal(n);
    if digits.len() < width {
        zeros((width - digits.len()) as nat) + digits
    } else {
        digits
    }
}

/// `n` as `{:0width$}` writes a signed integer: a minus sign for a negative
/// value, then the magnitude padded with zeros so that the whole is `width`
/// characters long.
pub open spec fn signed_padded(n: int, width: nat) -> Seq<char> {
    if n < 0 {
        seq!['-'] + zero_padded((-n) as nat, if width > 0 { (width - 1) as nat } else { 0 })
    } else {
        zero_padded(n as nat, width)
    }
}

/// A decimal rendering is never empty and holds digits only.
pub proof fn lemma_decimal_digits(n: nat)
    ensures
        decimal(n).len() >= 1,
        forall|i: int| 0 <= i < decimal(n).len() ==> '0' <= #[trigger] decimal(n)[i] <= '9',
    decreases n,
{
    if n >= 10 {
        lemma_decimal_digits(n / 10);
    }
}

/// Numbers below 100 have at most two digits.
pub proof fn lemma_decimal_len_below_100(n: nat)
    requires
        n < 100,
    ensures
        decimal(n).len() <= 2,
{
    if n >= 10 {
        let q = n / 10;
        assert(q < 10);
        assert(decimal(q).len() == 1);
    }
}

/// Padding only puts zeros in front: the result is as long as the wider of
/// `width` and the digits, and ends with every digit of `n`.
pub proof fn lemma_zero_padded_keeps_digits(n: nat, width: nat)
    ensures
        zero_padded(n, width).len() == if decimal(n).len() < width {
            width
        } else {
            decimal(n).len()
        },
        zero_padded(n, width).subrange(zero_padded(n, width).len() - decimal(n).len(), zero_padded(n, width).len() as int)
            == decimal(n),
{
    let d = decimal(n);
    let p = zero_padded(n, width);
    if d.len() < width {
        assert(p.subrange(p.len() - d.len(), p.len() as int) =~= d);
    } else {
        assert(p.subrange(0, p.len() as int) =~= d);
    }
}

/// Relies on `String::push`: appends the one character `c` to `s`.
#[verifier::external_body]
pub(crate) fn push_char(s: &mut String, c: char)
    ensures
        final(s)@ == old(s)@.push(c),
{
    s.push(c);
}

fn digit_to_char(d: u64) -> (c: char)
    requires
        d < 10,
    ensures
        c == digit_char(d as int),
{
    if d == 0 {
        '0'
    } else if d == 1 {
        '1'
    } else if d == 2 {
        '2'
    } else if d == 3 {
        '3'
    } else if d == 4 {
        '4'
    } else if d == 5 {
        '5'
    } else if d == 6 {
        '6'
    } else if d == 7 {
        '7'
    } else if d == 8 {
        '8'
    } else {
        '9'
    }
}

/// Appends the decimal digits of `n` to `out`.
pub fn write_decimal(out: &mut String, n: u64)
    ensures
        final(out)@ == old(out)@ + decimal(n as nat),
    decreases n,
{
    let ghost start = out@;
    if n >= 10 {
        write_decimal(out, n / 10);
    }
    push_char(out, digit_to_char(n % 10));
    assert(out@ =~= start + decimal(n as nat));
}

/// Appends `n` zero-padded to `width` characters to `out`.
pub fn write_zero_padded(out: &mut String, n: u64, width: usize)
    ensures
        final(out)@ == old(out)@ + zero_padded(n as nat, width as nat),
{
    let ghost start = out@;
    let mut digits = String::new();
    write_decimal(&mut digits, n);
    assert(digits@ =~= decimal(n as nat));
    let len = digits.as_str().unicode_len();
    let mut i: usize = len;
    while i < width
        invariant
            len == decimal(n as nat).len(),
            len <= i,
            i <= width || i == len,
            out@ == start + zeros((i - len) as nat),
        decreases width - i,
    {
        push_char(out, '0');
        i = i + 1;
        assert(out@ =~= start + zeros((i - len) as nat));
    }
    out.append(digits.as_str());
    proof {
        if len < width {
            assert(i == width);
        } else {
            assert(zeros((i - len) as nat) =~= Seq::<char>::empty());
        }
        assert(out@ =~= start + zero_padded(n as nat, width as nat));
    }
}

/// Appends `n` written as `{:0width$}` writes it to `out`.
pub fn write_signed_padded(out: &mut String, n: i64, width: usize)
    ensures
        final(out)@ == old(out)@ + signed_padded(n as int, width as nat),
{
    let ghost start = out@;
    if n < 0 {
        push_char(out, '-');
        let magnitude: u64 = if n == i64::MIN {
            9223372036854775808u64
        } else {
            (-n) as u64
        };
        let w: usize = if width > 0 {
            width - 1
        } else {
            0
        };
        write_zero_padded(out, magnitude, w);
        assert(out@ =~= start + signed_padded(n as int, width as nat));
    } else {
        write_zero_padded(out, n as u64, width);
    }
}

} // verus!
