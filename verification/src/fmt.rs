//! Number formatting: decimal and hexadecimal digits, zero padding.
use vstd::prelude::*;
use crate::chars::push_char;

verus! {

/// The ASCII digit for `d` (0–15), lowercase or uppercase for 10–15.
pub open spec fn digit_char(d: nat, upper: bool) -> char {
    if d < 10 {
        (48 + d) as char
    } else if upper {
        (55 + d) as char
    } else {
        (87 + d) as char
    }
}

/// The digits of `n` in base `b` (2–16), most significant first, without leading zeros
/// (`0` is one digit).
pub open spec fn digits_of(n: nat, b: nat, upper: bool) -> Seq<char>
    decreases n,
{
    if b < 2 || n < b {
        seq![digit_char(n % 16, upper)]
    } else {
        proof {
            lemma_div_smaller(n, b);
        }
        digits_of(n / b, b, upper).push(digit_char(n % b, upper))
    }
}

/// Dividing by at least 2 makes a positive number smaller.
pub proof fn lemma_div_smaller(n: nat, b: nat)
    requires
        2 <= b <= n,
    ensures
        n / b < n,
{
    assert(n / b < n) by (nonlinear_arith)
        requires
            2 <= b <= n,
    ;
}

/// `s` padded on the left with `'0'` to at least `width` characters.
pub open spec fn zero_padded(s: Seq<char>, width: nat) -> Seq<char> {
    if s.len() >= width {
        s
    } else {
        Seq::new((width - s.len()) as nat, |i: int| '0') + s
    }
}

/// The decimal form of an integer, with a leading `-` when negative.
pub open spec fn decimal(n: int) -> Seq<char> {
    if n < 0 {
        seq!['-'] + digits_of((-n) as nat, 10, false)
    } else {
        digits_of(n as nat, 10, false)
    }
}

proof fn lemma_digits_len(n: nat, b: nat, upper: bool)
    requires
        2 <= b <= 16,
    ensures
        digits_of(n, b, upper).len() >= 1,
    decreases n,
{
    if n >= b {
        lemma_div_smaller(n, b);
        lemma_digits_len(n / b, b, upper);
    }
}

fn digit(d: u64, upper: bool) -> (c: char)
    requires
        d < 16,
    ensures
        c == digit_char(d as nat, upper),
{
    if d < 10 {
        ((48 + d) as u8) as char
    } else if upper {
        ((55 + d) as u8) as char
    } else {
        ((87 + d) as u8) as char
    }
}

/// The digits of `n` in base `b`.
pub fn digits(n: u128, b: u128, upper: bool) -> (v: Vec<char>)
    requires
        2 <= b <= 16,
    ensures
        v@ == digits_of(n as nat, b as nat, upper),
    decreases n,
{
    if n < b {
        let mut v: Vec<char> = Vec::new();
        v.push(digit((n % 16) as u64, upper));
        v
    } else {
        proof {
            lemma_div_smaller(n as nat, b as nat);
        }
        let mut v = digits(n / b, b, upper);
        v.push(digit((n % b) as u64, upper));
        v
    }
}

/// Appends `n` in base `b`, zero-padded to `width`.
pub fn push_number(out: &mut String, n: u128, b: u128, upper: bool, width: usize)
    requires
        2 <= b <= 16,
    ensures
        final(out)@ == old(out)@ + zero_padded(digits_of(n as nat, b as nat, upper), width as nat),
{
    let v = digits(n, b, upper);
    let ghost start = out@;
    let mut k: usize = v.len();
    while k < width
        invariant
            v.len() <= k <= width || (k == v.len() && v.len() >= width),
            out@ == start + Seq::new((k - v.len()) as nat, |i: int| '0'),
        decreases width - k,
    {
        push_char(out, '0');
        assert(Seq::new((k + 1 - v.len()) as nat, |i: int| '0') == Seq::new(
            (k - v.len()) as nat,
            |i: int| '0',
        ).push('0'));
        k = k + 1;
    }
    let ghost mid = out@;
    for i in 0..v.len()
        invariant
            out@ == mid + v@.take(i as int),
    {
        push_char(out, v[i]);
        assert(v@.take(i + 1) == v@.take(i as int).push(v@[i as int]));
    }
    assert(v@.take(v.len() as int) == v@);
    proof {
        if v.len() >= width {
            assert(Seq::new(0, |i: int| '0') == Seq::<char>::empty());
            assert(mid == start);
        }
    }
}

/// Appends the decimal form of `n`.
pub fn push_decimal(out: &mut String, n: i128)
    requires
        n > i128::MIN,
    ensures
        final(out)@ == old(out)@ + decimal(n as int),
{
    let ghost start = out@;
    if n < 0 {
        push_char(out, '-');
        push_number(out, (-n) as u128, 10, false, 0);
    } else {
        push_number(out, n as u128, 10, false, 0);
    }
    proof {
        lemma_digits_len(if n < 0 { (-n) as nat } else { n as nat }, 10, false);
    }
}

/// The decimal form of `n`.
pub fn decimal_string(n: i128) -> (s: String)
    requires
        n > i128::MIN,
    ensures
        s@ == decimal(n as int),
{
    let mut s = String::new();
    push_decimal(&mut s, n);
    s
}

} // verus!
