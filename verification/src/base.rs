//! Faker's `BaseProvider`: random primitives and placeholder substitution.
use vstd::prelude::*;
use crate::chars::{chars_of, push_char, push_chars};
use crate::error::{invalid, Error, Result};
use crate::fmt::{decimal, push_decimal};
use crate::generator::{lemma_generator_views, Generator};
use crate::rng::{pcg_draw_u64, randint_draw, randint_u128_draw, Rng};
use crate::text::string_from;

verus! {

broadcast use lemma_generator_views;

/// `c` is an ASCII digit of value at least `low`.
pub open spec fn digit_at_least(c: char, low: nat) -> bool {
    48 + low <= (c as u32) && (c as u32) <= 57
}

/// `c` is an ASCII letter (a–z, A–Z).
pub open spec fn ascii_letter(c: char) -> bool {
    (97 <= (c as u32) && (c as u32) <= 122) || (65 <= (c as u32) && (c as u32) <= 90)
}

/// `c` is a hexadecimal digit, lowercase or uppercase as asked.
pub open spec fn hex_digit(c: char, upper: bool) -> bool {
    (48 <= (c as u32) && (c as u32) <= 57) || (if upper {
        65 <= (c as u32) && (c as u32) <= 70
    } else {
        97 <= (c as u32) && (c as u32) <= 102
    })
}

/// The pieces joined in order.
pub open spec fn flatten(ps: Seq<Seq<char>>) -> Seq<char>
    decreases ps.len(),
{
    if ps.len() == 0 {
        Seq::empty()
    } else {
        flatten(ps.drop_last()) + ps.last()
    }
}

/// A single digit of value at least `low`.
pub open spec fn one_digit(p: Seq<char>, low: nat) -> bool {
    p.len() == 1 && digit_at_least(p[0], low)
}

/// What `numerify` may turn one character into: `#` a digit 0–9, `%` 1–9, `$` 2–9,
/// `!` a digit 0–9 or nothing, `@` a digit 1–9 or nothing; anything else itself.
pub open spec fn numerify_piece(c: char, p: Seq<char>) -> bool {
    if c == '#' {
        one_digit(p, 0)
    } else if c == '%' {
        one_digit(p, 1)
    } else if c == '$' {
        one_digit(p, 2)
    } else if c == '!' {
        p.len() == 0 || one_digit(p, 0)
    } else if c == '@' {
        p.len() == 0 || one_digit(p, 1)
    } else {
        p == seq![c]
    }
}

/// `out` is a possible result of `numerify(text)`.
pub open spec fn numerified(text: Seq<char>, out: Seq<char>) -> bool {
    exists|ps: Seq<Seq<char>>|
        ps.len() == text.len() && out == flatten(ps) && forall|i: int|
            0 <= i < text.len() ==> numerify_piece(text[i], #[trigger] ps[i])
}

/// What the default `bothify` may turn one character into: `?` an ASCII letter, the
/// `numerify` placeholders as there, anything else itself.
pub open spec fn bothify_piece(c: char, p: Seq<char>) -> bool {
    if c == '?' {
        p.len() == 1 && ascii_letter(p[0])
    } else {
        numerify_piece(c, p)
    }
}

/// `out` is a possible result of `bothify(text)` with the default letters.
pub open spec fn bothified(text: Seq<char>, out: Seq<char>) -> bool {
    exists|ps: Seq<Seq<char>>|
        ps.len() == text.len() && out == flatten(ps) && forall|i: int|
            0 <= i < text.len() ==> bothify_piece(text[i], #[trigger] ps[i])
}

/// `out` is `text` with each `marker` replaced by a character that `allowed` accepts.
pub open spec fn replaced(text: Seq<char>, out: Seq<char>, marker: char, allowed: spec_fn(char) -> bool) -> bool {
    &&& out.len() == text.len()
    &&& forall|i: int|
        0 <= i < text.len() ==> if text[i] == marker {
            allowed(#[trigger] out[i])
        } else {
            out[i] == text[i]
        }
}

/// The characters `lexify` draws from: `letters`, or the ASCII letters by default.
pub open spec fn lexify_pool(letters: Option<Seq<char>>) -> spec_fn(char) -> bool {
    |c: char| match letters {
        Some(l) => l.contains(c),
        None => ascii_letter(c),
    }
}

/// The number of values in `range(start, max + 1, step)`.
pub open spec fn range_count(min: int, max: int, step: int) -> int {
    if step > 0 {
        if max + 1 - min > 0 {
            (max + 1 - min + step - 1) / step
        } else {
            0
        }
    } else if step < 0 {
        if min - (max + 1) > 0 {
            (min - (max + 1) - step - 1) / (-step)
        } else {
            0
        }
    } else {
        0
    }
}

/// `code` is the language of `entry`, followed by `_` and one of its regions when it has any.
pub open spec fn locale_code_from(entry: (String, Vec<String>), code: Seq<char>) -> bool {
    if entry.1.len() == 0 {
        code == entry.0@
    } else {
        exists|j: int| 0 <= j < entry.1.len() && code == entry.0@ + seq!['_'] + #[trigger] entry.1@[j]@
    }
}

/// The `k`-th value of `range(min, .., step)`.
pub open spec fn nth_in_range(min: int, step: int, k: int) -> int {
    min + step * k
}

/// `10^n`.
pub open spec fn pow10(n: nat) -> nat
    decreases n,
{
    if n == 0 {
        1
    } else {
        10 * pow10((n - 1) as nat)
    }
}

/// Division rounding toward zero, as Rust's integer `/` does.
pub open spec fn div_trunc(a: int, b: int) -> int {
    if a >= 0 {
        a / b
    } else {
        -((-a) / b)
    }
}

/// `v` limited to the range of `i64`, as a float-to-integer `as` cast does.
pub open spec fn saturate_i64(v: int) -> int {
    if v > i64::MAX {
        i64::MAX as int
    } else if v < i64::MIN {
        i64::MIN as int
    } else {
        v
    }
}

/// `v` clamped to the optional bounds, `min` first.
pub open spec fn clamp_opt(v: int, min: Option<i64>, max: Option<i64>) -> int {
    let lo = match min {
        Some(m) => if v < m {
            m as int
        } else {
            v
        },
        None => v,
    };
    match max {
        Some(m) => if lo > m {
            m as int
        } else {
            lo
        },
        None => lo,
    }
}

/// No value occurs twice.
pub open spec fn distinct(v: Seq<usize>) -> bool {
    forall|i: int, j: int| 0 <= i < j < v.len() ==> v[i] != v[j]
}

/// The sum of the weights.
pub open spec fn weight_sum(w: Seq<u64>) -> nat
    decreases w.len(),
{
    if w.len() == 0 {
        0
    } else {
        weight_sum(w.drop_last()) + w.last() as nat
    }
}

/// The weights as a plain sequence.
pub open spec fn weights_view(weights: Option<&Vec<u64>>) -> Option<Seq<u64>> {
    match weights {
        Some(w) => Some(w@),
        None => None,
    }
}

/// When `random_element_indices` refuses its arguments: weights of the wrong length, no
/// length over an empty collection, a unique sample longer than the collection, items
/// asked of an empty collection, or weights that sum to zero.
pub open spec fn indices_rejected(
    len: usize,
    weights: Option<Seq<u64>>,
    length: Option<usize>,
    unique: bool,
) -> bool {
    ||| (weights matches Some(w) && w.len() != len)
    ||| (length is None && len == 0)
    ||| (length matches Some(l) && ((unique && l > len) || (l > 0 && len == 0)))
    ||| (weights matches Some(w) && len > 0 && weight_sum(w) == 0)
}

/// The message of a refusal other than an `EmptySequence`.
pub open spec fn indices_message(len: usize, weights: Option<Seq<u64>>, length: Option<usize>, unique: bool) -> Seq<
    char,
> {
    if (weights matches Some(w) && w.len() != len) {
        "weights must have the same length as elements"@
    } else if length is None && len == 0 {
        "empty range in randrange(1, 1)"@
    } else if (length matches Some(l) && unique && l > len) {
        "Sample length cannot be longer than the number of unique elements to pick from."@
    } else {
        "Total of weights must be greater than zero"@
    }
}

/// The one refusal that is an `EmptySequence`: items asked of an empty collection, the
/// weights (if any) fitting it.
pub open spec fn indices_from_nothing(
    len: usize,
    weights: Option<Seq<u64>>,
    length: Option<usize>,
    unique: bool,
) -> bool {
    &&& (weights matches Some(w) ==> w.len() == len)
    &&& length matches Some(l) && !(unique && l > len) && l > 0 && len == 0
}

/// `v` is a possible result of `random_element_indices`: of the asked length (1 to `len`
/// when none is asked), indices below `len`, distinct when unique, and never of weight
/// zero, except, when unique, once every index not yet drawn has weight zero.
pub open spec fn indices_fit(
    v: Seq<usize>,
    len: usize,
    weights: Option<Seq<u64>>,
    length: Option<usize>,
    unique: bool,
) -> bool {
    &&& match length {
        Some(l) => v.len() == l,
        None => 1 <= v.len() <= len,
    }
    &&& forall|k: int| 0 <= k < v.len() ==> #[trigger] v[k] < len
    &&& unique ==> distinct(v)
    &&& match weights {
        Some(w) => if unique {
            forall|k: int|
                0 <= k < v.len() ==> w[#[trigger] v[k] as int] > 0 || forall|j: int|
                    0 <= j < len && !v.take(k).contains(j as usize) ==> w[j] == 0
        } else {
            forall|k: int| 0 <= k < v.len() ==> w[#[trigger] v[k] as int] > 0
        },
        None => true,
    }
}

proof fn lemma_weight_sum_bound(w: Seq<u64>)
    ensures
        weight_sum(w) <= w.len() * 0x1_0000_0000_0000_0000,
    decreases w.len(),
{
    if w.len() > 0 {
        lemma_weight_sum_bound(w.drop_last());
    }
}

proof fn lemma_pow10_positive(n: nat)
    ensures
        pow10(n) >= 1,
    decreases n,
{
    if n > 0 {
        lemma_pow10_positive((n - 1) as nat);
    }
}

pub(crate) proof fn lemma_pow10_mono(n: nat, m: nat)
    requires
        n <= m,
    ensures
        1 <= pow10(n) <= pow10(m),
    decreases m,
{
    lemma_pow10_positive(n);
    if n < m {
        lemma_pow10_mono(n, (m - 1) as nat);
        assert(pow10(m) == 10 * pow10((m - 1) as nat));
    }
}

pub(crate) proof fn lemma_pow10_38()
    ensures
        pow10(29) == 100_000_000_000_000_000_000_000_000_000,
        pow10(38) == 100_000_000_000_000_000_000_000_000_000_000_000_000,
{
    assert(pow10(0) == 1);
    assert(pow10(1) == 10);
    assert(pow10(2) == 100);
    assert(pow10(3) == 1000);
    assert(pow10(4) == 10000);
    assert(pow10(5) == 100000);
    assert(pow10(6) == 1000000);
    assert(pow10(7) == 10000000);
    assert(pow10(8) == 100000000);
    assert(pow10(9) == 1000000000);
    assert(pow10(10) == 10000000000);
    assert(pow10(11) == 100000000000);
    assert(pow10(12) == 1000000000000);
    assert(pow10(13) == 10000000000000);
    assert(pow10(14) == 100000000000000);
    assert(pow10(15) == 1000000000000000);
    assert(pow10(16) == 10000000000000000);
    assert(pow10(17) == 100000000000000000);
    assert(pow10(18) == 1000000000000000000);
    assert(pow10(19) == 10000000000000000000);
    assert(pow10(20) == 100000000000000000000);
    assert(pow10(21) == 1000000000000000000000);
    assert(pow10(22) == 10000000000000000000000);
    assert(pow10(23) == 100000000000000000000000);
    assert(pow10(24) == 1000000000000000000000000);
    assert(pow10(25) == 10000000000000000000000000);
    assert(pow10(26) == 100000000000000000000000000);
    assert(pow10(27) == 1000000000000000000000000000);
    assert(pow10(28) == 10000000000000000000000000000);
    assert(pow10(29) == 100000000000000000000000000000);
    assert(pow10(30) == 1000000000000000000000000000000);
    assert(pow10(31) == 10000000000000000000000000000000);
    assert(pow10(32) == 100000000000000000000000000000000);
    assert(pow10(33) == 1000000000000000000000000000000000);
    assert(pow10(34) == 10000000000000000000000000000000000);
    assert(pow10(35) == 100000000000000000000000000000000000);
    assert(pow10(36) == 1000000000000000000000000000000000000);
    assert(pow10(37) == 10000000000000000000000000000000000000);
    assert(pow10(38) == 100000000000000000000000000000000000000);
}

pub(crate) proof fn lemma_pow10_bound(n: nat)
    requires
        n <= 38,
    ensures
        1 <= pow10(n) <= 100_000_000_000_000_000_000_000_000_000_000_000_000,
{
    lemma_pow10_mono(n, 38);
    lemma_pow10_38();
}

/// `(digit, next state)` of a uniform digit in `low..=9` drawn from `state`.
pub open spec fn digit_draw(state: u128, low: u8) -> (u8, u128) {
    let (v, next) = randint_draw(state, low as i64, 9);
    (v as u8, next)
}

/// `(digit or nothing, next state)`: a fair coin from `state`, then on heads a digit in
/// `low..=9`.
pub open spec fn digit_or_empty_draw(state: u128, low: u8) -> (Option<u8>, u128) {
    let (coin, after_coin) = randint_draw(state, 0, 1);
    if coin == 1 {
        let (d, next) = digit_draw(after_coin, low);
        (Some(d), next)
    } else {
        (None, after_coin)
    }
}

/// One digit at least `low`, drawn from `rng`.
fn digit_from(rng: &mut Rng, low: u8) -> (d: u8)
    requires
        low <= 9,
    ensures
        low <= d <= 9,
        (d, final(rng).state_view()) == digit_draw(old(rng).state_view(), low),
{
    rng.randint(low as i64, 9) as u8
}

/// The character of a digit value.
fn digit_char_of(d: u8) -> (c: char)
    requires
        d <= 9,
    ensures
        (c as u32) == 48 + d,
{
    ((48 + d) as u8) as char
}

/// `(replacement, next state)` of one character under `numerify` from `state`.
pub open spec fn numerify_step(c: char, state: u128) -> (Seq<char>, u128) {
    if c == '#' || c == '%' || c == '$' {
        let low: u8 = if c == '#' { 0 } else if c == '%' { 1 } else { 2 };
        let (d, next) = digit_draw(state, low);
        (seq![(48 + d) as char], next)
    } else if c == '!' || c == '@' {
        let (o, next) = digit_or_empty_draw(state, if c == '!' { 0 } else { 1 });
        match o {
            Some(d) => (seq![(48 + d) as char], next),
            None => (Seq::empty(), next),
        }
    } else {
        (seq![c], state)
    }
}

/// `(text, next state)` of `numerify` over `text` from `state`, left to right.
pub open spec fn numerify_run(text: Seq<char>, state: u128) -> (Seq<char>, u128)
    decreases text.len(),
{
    if text.len() == 0 {
        (Seq::empty(), state)
    } else {
        let (x, mid) = numerify_run(text.drop_last(), state);
        let (p, next) = numerify_step(text.last(), mid);
        (x + p, next)
    }
}

/// `(letter, next state)` of one ASCII letter drawn from `state`: index `i` of 52 gives
/// `a`–`z` then `A`–`Z`.
pub open spec fn letter_draw(state: u128) -> (char, u128) {
    let (i, next) = pcg_draw_u64(state, 51);
    (if i < 26 { (97 + i) as char } else { (65 + (i - 26)) as char }, next)
}

/// `(replacement, next state)` of one character under the default `bothify` from `state`.
pub open spec fn bothify_step(c: char, state: u128) -> (Seq<char>, u128) {
    if c == '?' {
        let (l, next) = letter_draw(state);
        (seq![l], next)
    } else {
        numerify_step(c, state)
    }
}

/// `(text, next state)` of the default `bothify` over `text` from `state`, left to right.
pub open spec fn bothify_run(text: Seq<char>, state: u128) -> (Seq<char>, u128)
    decreases text.len(),
{
    if text.len() == 0 {
        (Seq::empty(), state)
    } else {
        let (x, mid) = bothify_run(text.drop_last(), state);
        let (p, next) = bothify_step(text.last(), mid);
        (x + p, next)
    }
}

/// Appends the `numerify` replacement for `text` to `out`.
pub fn numerify_into(rng: &mut Rng, text: &Vec<char>, out: &mut String)
    ensures
        exists|x: Seq<char>| final(out)@ == old(out)@ + x && numerified(text@, x),
        final(out)@ == old(out)@ + numerify_run(text@, old(rng).state_view()).0,
        final(rng).state_view() == numerify_run(text@, old(rng).state_view()).1,
{
    let ghost start = out@;
    let ghost s0 = rng.state_view();
    let ghost mut ps: Seq<Seq<char>> = Seq::empty();
    for i in 0..text.len()
        invariant
            ps.len() == i,
            out@ == start + flatten(ps),
            forall|j: int| 0 <= j < i ==> numerify_piece(text@[j], #[trigger] ps[j]),
            s0 == old(rng).state_view(),
            start == old(out)@,
            flatten(ps) == numerify_run(text@.take(i as int), s0).0,
            rng.state_view() == numerify_run(text@.take(i as int), s0).1,
    {
        let c = text[i];
        let ghost before = rng.state_view();
        let mut piece: Vec<char> = Vec::new();
        if c == '#' {
            piece.push(digit_char_of(digit_from(rng, 0)));
        } else if c == '%' {
            piece.push(digit_char_of(digit_from(rng, 1)));
        } else if c == '$' {
            piece.push(digit_char_of(digit_from(rng, 2)));
        } else if c == '!' {
            if rng.randint(0, 1) == 1 {
                piece.push(digit_char_of(digit_from(rng, 0)));
            }
        } else if c == '@' {
            if rng.randint(0, 1) == 1 {
                piece.push(digit_char_of(digit_from(rng, 1)));
            }
        } else {
            piece.push(c);
        }
        proof {
            assert(numerify_piece(c, piece@));
            assert(ps.push(piece@).drop_last() == ps);
            assert((piece@, rng.state_view()) == numerify_step(c, before));
            assert(text@.take(i + 1).drop_last() == text@.take(i as int));
            assert(text@.take(i + 1).last() == c);
        }
        push_chars(out, &piece);
        proof {
            ps = ps.push(piece@);
        }
    }
    assert(text@.take(text.len() as int) == text@);
    assert(numerified(text@, flatten(ps)));
}

/// Appends `text` with the `bothify` placeholders (default letters) replaced to `out`.
pub fn bothify_into(rng: &mut Rng, text: &Vec<char>, out: &mut String)
    ensures
        exists|x: Seq<char>| final(out)@ == old(out)@ + x && bothified(text@, x),
        final(out)@ == old(out)@ + bothify_run(text@, old(rng).state_view()).0,
        final(rng).state_view() == bothify_run(text@, old(rng).state_view()).1,
{
    let ghost start = out@;
    let ghost s0 = rng.state_view();
    let ghost mut ps: Seq<Seq<char>> = Seq::empty();
    for i in 0..text.len()
        invariant
            ps.len() == i,
            out@ == start + flatten(ps),
            forall|j: int| 0 <= j < i ==> bothify_piece(text@[j], #[trigger] ps[j]),
            s0 == old(rng).state_view(),
            start == old(out)@,
            flatten(ps) == bothify_run(text@.take(i as int), s0).0,
            rng.state_view() == bothify_run(text@.take(i as int), s0).1,
    {
        let c = text[i];
        let ghost before = out@;
        let ghost st = rng.state_view();
        if c == '?' {
            push_char(out, letter_from(rng));
        } else {
            let mut one: Vec<char> = Vec::new();
            one.push(c);
            numerify_into(rng, &one, out);
        }
        proof {
            let p = out@.subrange(before.len() as int, out@.len() as int);
            assert(out@ == before + p);
            if c != '?' {
                let x = choose|x: Seq<char>| out@ == before + x && numerified(seq![c], x);
                assert(x == p);
                let qs = choose|qs: Seq<Seq<char>>|
                    qs.len() == 1 && x == flatten(qs) && forall|j: int|
                        0 <= j < 1 ==> numerify_piece(seq![c][j], #[trigger] qs[j]);
                assert(numerify_piece(seq![c][0], qs[0]));
                assert(qs.drop_last().len() == 0);
                assert(flatten(qs) == flatten(qs.drop_last()) + qs[0]);
                assert(flatten(qs.drop_last()) == Seq::<char>::empty());
                assert(x == qs[0]);
            }
            assert(bothify_piece(c, p));
            if c != '?' {
                let one = seq![c];
                assert(one.drop_last() =~= Seq::<char>::empty());
                assert(one.last() == c);
                assert(numerify_run(Seq::<char>::empty(), st) == (Seq::<char>::empty(), st));
                assert(numerify_run(one, st) == (Seq::<char>::empty() + numerify_step(c, st).0, numerify_step(
                    c,
                    st,
                ).1));
                assert(Seq::<char>::empty() + numerify_step(c, st).0 =~= numerify_step(c, st).0);
            }
            assert((p, rng.state_view()) == bothify_step(c, st));
            assert(ps.push(p).drop_last() == ps);
            assert(text@.take(i + 1).drop_last() == text@.take(i as int));
            assert(text@.take(i + 1).last() == c);
            ps = ps.push(p);
        }
    }
    assert(text@.take(text.len() as int) == text@);
    assert(bothified(text@, flatten(ps)));
}

/// The weights as `u128` running total, summed in order.
fn weights_total(w: &Vec<u64>) -> (t: u128)
    ensures
        t == weight_sum(w@),
{
    let mut t: u128 = 0;
    for i in 0..w.len()
        invariant
            t == weight_sum(w@.take(i as int)),
    {
        proof {
            lemma_weight_sum_take_step(w@, i as int);
            lemma_weight_sum_bound(w@.take(i + 1));
            assert((i + 1) * 0x1_0000_0000_0000_0000 <= 0xffff_ffff_ffff_ffff * 0x1_0000_0000_0000_0000) by (nonlinear_arith)
                requires
                    i + 1 <= 0xffff_ffff_ffff_ffff,
            ;
        }
        t = t + w[i] as u128;
    }
    assert(w@.take(w.len() as int) == w@);
    t
}

/// Extending a prefix by one item adds that item's weight.
proof fn lemma_weight_sum_take_step(w: Seq<u64>, i: int)
    requires
        0 <= i < w.len(),
    ensures
        weight_sum(w.take(i + 1)) == weight_sum(w.take(i)) + w[i],
{
    assert(w.take(i + 1).drop_last() == w.take(i));
}

/// A sum of weights is zero only when every weight is zero.
proof fn lemma_weight_sum_zero(w: Seq<u64>)
    requires
        weight_sum(w) == 0,
    ensures
        forall|i: int| 0 <= i < w.len() ==> w[i] == 0,
    decreases w.len(),
{
    if w.len() > 0 {
        lemma_weight_sum_zero(w.drop_last());
        assert forall|i: int| 0 <= i < w.len() implies w[i] == 0 by {
            if i < w.len() - 1 {
                assert(w.drop_last()[i] == w[i]);
            }
        }
    }
}

/// The item whose share of the running total holds `x`: the first `i` with
/// `x < w[0] + .. + w[i]` (Python's `bisect_right` over the running totals).
fn locate(w: &Vec<u64>, x: u128) -> (i: usize)
    requires
        x < weight_sum(w@),
    ensures
        i < w.len(),
        weight_sum(w@.take(i as int)) <= x < weight_sum(w@.take(i + 1)),
        w@[i as int] > 0,
{
    let mut acc: u128 = 0;
    let mut i: usize = 0;
    proof {
        assert(w@.take(w.len() as int) == w@);
    }
    while i < w.len()
        invariant
            i <= w.len(),
            acc == weight_sum(w@.take(i as int)),
            acc <= x,
            x < weight_sum(w@),
            w@.take(w.len() as int) == w@,
        decreases w.len() - i,
    {
        proof {
            lemma_weight_sum_take_step(w@, i as int);
            lemma_weight_sum_bound(w@.take(i + 1));
            assert((i + 1) * 0x1_0000_0000_0000_0000 <= 0xffff_ffff_ffff_ffff * 0x1_0000_0000_0000_0000) by (nonlinear_arith)
                requires
                    i + 1 <= 0xffff_ffff_ffff_ffff,
            ;
        }
        if x < acc + w[i] as u128 {
            return i;
        }
        acc = acc + w[i] as u128;
        i = i + 1;
    }
    i
}

/// `length` indices drawn with replacement, each with probability proportional to its
/// weight; an index of weight zero is never drawn.
fn weighted_choices(rng: &mut Rng, w: &Vec<u64>, length: usize) -> (r: Vec<usize>)
    requires
        weight_sum(w@) > 0,
    ensures
        r.len() == length,
        forall|k: int| 0 <= k < length ==> #[trigger] r@[k] < w.len() && w@[r@[k] as int] > 0,
{
    let total = weights_total(w);
    let mut r: Vec<usize> = Vec::new();
    for k in 0..length
        invariant
            total == weight_sum(w@),
            total > 0,
            r.len() == k,
            forall|j: int| 0 <= j < k ==> #[trigger] r@[j] < w.len() && w@[r@[j] as int] > 0,
    {
        let x = rng.upto_u128(total - 1);
        r.push(locate(w, x));
    }
    r
}

/// `length` distinct indices drawn without replacement, each draw weighted among the
/// indices not drawn yet. An index of weight zero is drawn only once every index not yet
/// drawn has weight zero.
fn weighted_unique(rng: &mut Rng, w: &Vec<u64>, length: usize) -> (r: Vec<usize>)
    requires
        length <= w.len(),
    ensures
        r.len() == length,
        distinct(r@),
        forall|k: int| 0 <= k < length ==> #[trigger] r@[k] < w.len(),
        forall|k: int|
            0 <= k < length ==> w@[#[trigger] r@[k] as int] > 0 || forall|j: int|
                0 <= j < w.len() && !r@.take(k).contains(j as usize) ==> w@[j] == 0,
{
    let n = w.len();
    let mut rem_idx: Vec<usize> = Vec::new();
    let mut rem_w: Vec<u64> = Vec::new();
    for i in 0..n
        invariant
            n == w.len(),
            rem_idx.len() == i,
            rem_w.len() == i,
            forall|j: int| 0 <= j < i ==> #[trigger] rem_idx@[j] == j,
            forall|j: int| 0 <= j < i ==> #[trigger] rem_w@[j] == w@[j],
    {
        rem_idx.push(i);
        rem_w.push(w[i]);
    }
    let mut chosen: Vec<usize> = Vec::new();
    proof {
        assert forall|j: int| 0 <= j < n implies (#[trigger] rem_idx@.contains(j as usize)
            || chosen@.contains(j as usize)) by {
            assert(rem_idx@[j] == j);
        }
    }
    for k in 0..length
        invariant
            n == w.len(),
            length <= n,
            chosen.len() == k,
            rem_idx.len() == n - k,
            rem_w.len() == n - k,
            forall|i: int| 0 <= i < rem_idx.len() ==> #[trigger] rem_idx@[i] < n,
            forall|i: int| 0 <= i < rem_idx.len() ==> #[trigger] rem_w@[i] == w@[rem_idx@[i] as int],
            distinct(rem_idx@),
            distinct(chosen@),
            forall|i: int| 0 <= i < chosen.len() ==> #[trigger] chosen@[i] < n,
            forall|i: int, m: int|
                0 <= i < rem_idx.len() && 0 <= m < chosen.len() ==> #[trigger] rem_idx@[i]
                    != #[trigger] chosen@[m],
            forall|j: int| 0 <= j < n ==> (#[trigger] rem_idx@.contains(j as usize)
                || chosen@.contains(j as usize)),
            forall|m: int|
                0 <= m < chosen.len() ==> w@[#[trigger] chosen@[m] as int] > 0 || forall|j: int|
                    0 <= j < n && !chosen@.take(m).contains(j as usize) ==> w@[j] == 0,
    {
        let total = weights_total(&rem_w);
        let pos: usize = if total > 0 {
            let x = rng.upto_u128(total - 1);
            locate(&rem_w, x)
        } else {
            rem_w.len() - 1
        };
        let ghost old_idx = rem_idx@;
        let ghost old_w = rem_w@;
        let ghost old_chosen = chosen@;
        proof {
            if total == 0 {
                lemma_weight_sum_zero(rem_w@);
            }
        }
        let picked = rem_idx.remove(pos);
        let _ = rem_w.remove(pos);
        chosen.push(picked);
        proof {
            old_idx.remove_ensures(pos as int);
            old_w.remove_ensures(pos as int);
            assert(chosen@.take(k as int) == old_chosen);
            assert forall|i: int| 0 <= i < rem_idx.len() implies #[trigger] rem_idx@[i] < n
                && rem_w@[i] == w@[rem_idx@[i] as int] by {
                if i < pos {
                    assert(rem_idx@[i] == old_idx[i]);
                } else {
                    assert(rem_idx@[i] == old_idx[i + 1]);
                }
            }
            assert forall|a: int, b: int| 0 <= a < b < rem_idx.len() implies rem_idx@[a]
                != rem_idx@[b] by {
                let a2 = if a < pos { a } else { a + 1 };
                let b2 = if b < pos { b } else { b + 1 };
                assert(rem_idx@[a] == old_idx[a2]);
                assert(rem_idx@[b] == old_idx[b2]);
            }
            assert forall|a: int, b: int| 0 <= a < b < chosen.len() implies chosen@[a]
                != chosen@[b] by {
                if b == k {
                    assert(old_idx[pos as int] != old_chosen[a]);
                }
            }
            assert forall|i: int, m: int|
                0 <= i < rem_idx.len() && 0 <= m < chosen.len() implies #[trigger] rem_idx@[i]
                != #[trigger] chosen@[m] by {
                let i2 = if i < pos { i } else { i + 1 };
                assert(rem_idx@[i] == old_idx[i2]);
                if m == k {
                    assert(i2 != pos);
                } else {
                    assert(chosen@[m] == old_chosen[m]);
                }
            }
            assert forall|j: int| 0 <= j < n implies (#[trigger] rem_idx@.contains(j as usize)
                || chosen@.contains(j as usize)) by {
                if old_idx.contains(j as usize) {
                    let i = choose|i: int| 0 <= i < old_idx.len() && old_idx[i] == j as usize;
                    if i == pos {
                        assert(chosen@[k as int] == j as usize);
                    } else if i < pos {
                        assert(rem_idx@[i] == j as usize);
                    } else {
                        assert(rem_idx@[i - 1] == j as usize);
                    }
                } else {
                    assert(old_chosen.contains(j as usize));
                    let m = choose|m: int| 0 <= m < old_chosen.len() && old_chosen[m] == j as usize;
                    assert(chosen@[m] == j as usize);
                }
            }
            assert forall|m: int|
                0 <= m < chosen.len() implies w@[#[trigger] chosen@[m] as int] > 0 || forall|j: int|
                0 <= j < n && !chosen@.take(m).contains(j as usize) ==> w@[j] == 0 by {
                if m < k {
                    assert(chosen@[m] == old_chosen[m]);
                    assert(chosen@.take(m) == old_chosen.take(m));
                } else if w@[picked as int] == 0 {
                    assert(old_w[pos as int] == 0);
                    assert(total == 0);
                    assert forall|j: int|
                        0 <= j < n && !chosen@.take(m).contains(j as usize) implies w@[j] == 0 by {
                        assert(m == k);
                        assert(chosen@.take(m) == old_chosen);
                        assert(!old_chosen.contains(j as usize));
                        assert(old_idx.contains(j as usize));
                        let i = choose|i: int| 0 <= i < old_idx.len() && old_idx[i] == j as usize;
                        assert(old_w[i] == 0);
                    }
                }
            }
        }
    }
    chosen
}

/// An ASCII letter drawn from `rng`.
fn letter_from(rng: &mut Rng) -> (c: char)
    ensures
        ascii_letter(c),
        (c, final(rng).state_view()) == letter_draw(old(rng).state_view()),
{
    let i = rng.index(52) as u8;
    if i < 26 {
        ((97 + i) as u8) as char
    } else {
        ((65 + (i - 26)) as u8) as char
    }
}

/// `(text, next state)` of `lexify` over `text` from `state`, left to right: each `?`
/// becomes a drawn character of `pool` (ASCII letters when none is given).
pub open spec fn lexify_run(text: Seq<char>, pool: Option<Seq<char>>, state: u128) -> (Seq<char>, u128)
    decreases text.len(),
{
    if text.len() == 0 {
        (Seq::empty(), state)
    } else {
        let (x, mid) = lexify_run(text.drop_last(), pool, state);
        if text.last() == '?' {
            match pool {
                Some(p) => {
                    let (k, next) = pcg_draw_u64(mid, (p.len() - 1) as u64);
                    (x.push(p[k as int]), next)
                },
                None => {
                    let (c, next) = letter_draw(mid);
                    (x.push(c), next)
                },
            }
        } else {
            (x.push(text.last()), mid)
        }
    }
}

/// Text without `?` comes through `lexify` unchanged, drawing nothing.
proof fn lemma_lexify_run_plain(text: Seq<char>, pool: Option<Seq<char>>, state: u128)
    requires
        !text.contains('?'),
    ensures
        lexify_run(text, pool, state) == (text, state),
    decreases text.len(),
{
    if text.len() > 0 {
        assert(!text.drop_last().contains('?')) by {
            if text.drop_last().contains('?') {
                let j = choose|j: int| 0 <= j < text.drop_last().len() && text.drop_last()[j] == '?';
                assert(text[j] == '?');
            }
        }
        assert(text[text.len() - 1] != '?');
        lemma_lexify_run_plain(text.drop_last(), pool, state);
        assert(text.drop_last().push(text.last()) == text);
    }
}

/// Appends `text` with each `?` replaced by a character of `pool` (or an ASCII letter
/// when `pool` is `None`).
fn replace_into(rng: &mut Rng, text: &Vec<char>, pool: Option<&Vec<char>>, out: &mut String)
    requires
        pool matches Some(p) ==> p.len() > 0,
    ensures
        exists|x: Seq<char>|
            final(out)@ == old(out)@ + x && replaced(
                text@,
                x,
                '?',
                lexify_pool(
                    match pool {
                        Some(p) => Some(p@),
                        None => None,
                    },
                ),
            ),
        final(out)@ == old(out)@ + lexify_run(
            text@,
            match pool {
                Some(p) => Some(p@),
                None => None,
            },
            old(rng).state_view(),
        ).0,
        final(rng).state_view() == lexify_run(
            text@,
            match pool {
                Some(p) => Some(p@),
                None => None,
            },
            old(rng).state_view(),
        ).1,
{
    let ghost start = out@;
    let ghost pv = match pool {
        Some(p) => Some(p@),
        None => None,
    };
    let ghost s0 = rng.state_view();
    let ghost allowed = lexify_pool(
        match pool {
            Some(p) => Some(p@),
            None => None,
        },
    );
    for i in 0..text.len()
        invariant
            pool matches Some(p) ==> p.len() > 0,
            allowed == lexify_pool(
                match pool {
                    Some(p) => Some(p@),
                    None => None,
                },
            ),
            out@.len() == start.len() + i,
            out@.subrange(0, start.len() as int) == start,
            forall|j: int|
                0 <= j < i ==> if text@[j] == '?' {
                    allowed(#[trigger] out@[start.len() + j])
                } else {
                    out@[start.len() + j] == text@[j]
                },
            pv == (match pool {
                Some(p) => Some(p@),
                None => None,
            }),
            out@ == start + lexify_run(text@.take(i as int), pv, s0).0,
            rng.state_view() == lexify_run(text@.take(i as int), pv, s0).1,
    {
        assert(text@.take(i + 1).drop_last() == text@.take(i as int));
        let c = text[i];
        if c == '?' {
            let r = match pool {
                Some(p) => {
                    let k = rng.index(p.len());
                    p[k]
                },
                None => letter_from(rng),
            };
            push_char(out, r);
        } else {
            push_char(out, c);
        }
    }
    assert(text@.take(text.len() as int) == text@);
    let ghost x = out@.subrange(start.len() as int, out@.len() as int);
    assert(out@ == start + x);
    assert forall|j: int| 0 <= j < text@.len() implies (if text@[j] == '?' {
        allowed(#[trigger] x[j])
    } else {
        x[j] == text@[j]
    }) by {
        assert(x[j] == out@[start.len() + j]);
    }
    assert(replaced(text@, x, '?', allowed));
}

impl Generator {
    /// Random integer from `range(min, max + 1, step)` (Python `randrange` semantics).
    pub fn random_int(&mut self, min: i64, max: i64, step: i64) -> (r: Result<i64>)
        ensures
            old(self).same_config(final(self)),
            r is Ok <==> step != 0 && 0 < range_count(min as int, max as int, step as int)
                <= u64::MAX,
            step == 0 ==> (r matches Err(Error::InvalidArgument(m)) && m@ == "zero step for randrange()"@),
            step != 0 && range_count(min as int, max as int, step as int) <= 0 ==> (r matches Err(
                Error::InvalidArgument(m),
            ) && m@ == "empty range in randrange("@ + decimal(min as int) + ", "@ + decimal(max + 1) + ", "@ + decimal(
                step as int,
            ) + ")"@),
            range_count(min as int, max as int, step as int) > u64::MAX ==> (r matches Err(Error::Overflow(m)) && m@
                == "range too large"@),
            r matches Ok(n) ==> exists|k: int|
                0 <= k < range_count(min as int, max as int, step as int) && n == #[trigger] nth_in_range(
                    min as int,
                    step as int,
                    k,
                ),
            r is Err ==> final(self).stream().state_view() == old(self).stream().state_view(),
            r matches Ok(n) ==> ({
                let c = range_count(min as int, max as int, step as int);
                let hi: i64 = if c - 1 <= i64::MAX { (c - 1) as i64 } else { i64::MAX };
                let (k, next) = if c == 1 {
                    (0i64, old(self).stream().state_view())
                } else {
                    randint_draw(old(self).stream().state_view(), 0, hi)
                };
                n == nth_in_range(min as int, step as int, k as int) && final(self).stream().state_view() == next
            }),
    {
        proof {
            use_type_invariant(&*self);
        }
        let start = min as i128;
        let stop = max as i128 + 1;
        let step_w = step as i128;
        if step == 0 {
            return Err(invalid("zero step for randrange()"));
        }
        let count: i128 = if step_w > 0 {
            if stop - start > 0 {
                (stop - start + step_w - 1) / step_w
            } else {
                0
            }
        } else {
            if start - stop > 0 {
                (start - stop - step_w - 1) / (-step_w)
            } else {
                0
            }
        };
        if count <= 0 {
            let mut msg = "empty range in randrange(".to_owned();
            push_decimal(&mut msg, start);
            msg.append(", ");
            push_decimal(&mut msg, stop);
            msg.append(", ");
            push_decimal(&mut msg, step_w);
            msg.append(")");
            return Err(Error::InvalidArgument(msg));
        }
        if count > u64::MAX as i128 {
            return Err(Error::Overflow("range too large".to_owned()));
        }
        let offset: i128 = if count == 1 {
            0
        } else {
            let hi: i64 = if count - 1 <= i64::MAX as i128 {
                (count - 1) as i64
            } else {
                i64::MAX
            };
            self.randint(0, hi) as i128
        };
        proof {
            assert(0 <= offset < count);
            if step_w > 0 {
                assert(step_w * offset <= step_w * (count - 1)) by (nonlinear_arith)
                    requires
                        step_w > 0,
                        0 <= offset <= count - 1,
                ;
                assert(step_w * (count - 1) <= stop - start - 1) by (nonlinear_arith)
                    requires
                        step_w > 0,
                        count as int == (stop - start + step_w - 1) as int / step_w as int,
                        stop - start > 0,
                ;
                assert(step_w * offset >= 0) by (nonlinear_arith)
                    requires
                        step_w > 0,
                        offset >= 0,
                ;
            } else {
                assert((-step_w) * offset <= (-step_w) * (count - 1)) by (nonlinear_arith)
                    requires
                        step_w < 0,
                        0 <= offset <= count - 1,
                ;
                assert((-step_w) * (count - 1) <= start - stop - 1) by (nonlinear_arith)
                    requires
                        step_w < 0,
                        count as int == (start - stop - step_w - 1) as int / (-step_w) as int,
                        start - stop > 0,
                ;
                assert((-step_w) * offset >= 0) by (nonlinear_arith)
                    requires
                        step_w < 0,
                        offset >= 0,
                ;
                assert(step_w * offset == -((-step_w) * offset)) by (nonlinear_arith);
            }
        }
        let n = start + step_w * offset;
        assert(n == nth_in_range(min as int, step as int, offset as int));
        Ok(n as i64)
    }

    /// Digit 0–9.
    pub fn random_digit(&mut self) -> (r: u8)
        ensures
            old(self).same_config(final(self)),
            r <= 9,
            (r, final(self).stream().state_view()) == digit_draw(old(self).stream().state_view(), 0),
    {
        proof {
            use_type_invariant(&*self);
        }
        let mut rng = self.rng();
        let d = digit_from(&mut rng, 0);
        self.set_rng(rng);
        d
    }

    /// Digit 1–9.
    pub fn random_digit_not_null(&mut self) -> (r: u8)
        ensures
            old(self).same_config(final(self)),
            1 <= r <= 9,
            (r, final(self).stream().state_view()) == digit_draw(old(self).stream().state_view(), 1),
    {
        proof {
            use_type_invariant(&*self);
        }
        let mut rng = self.rng();
        let d = digit_from(&mut rng, 1);
        self.set_rng(rng);
        d
    }

    /// Digit 2–9.
    pub fn random_digit_above_two(&mut self) -> (r: u8)
        ensures
            old(self).same_config(final(self)),
            2 <= r <= 9,
            (r, final(self).stream().state_view()) == digit_draw(old(self).stream().state_view(), 2),
    {
        proof {
            use_type_invariant(&*self);
        }
        let mut rng = self.rng();
        let d = digit_from(&mut rng, 2);
        self.set_rng(rng);
        d
    }

    /// Digit 0–9 half of the time, otherwise `None` (Faker returns `""`).
    pub fn random_digit_or_empty(&mut self) -> (r: Option<u8>)
        ensures
            old(self).same_config(final(self)),
            r matches Some(d) ==> d <= 9,
            (r, final(self).stream().state_view()) == digit_or_empty_draw(
                old(self).stream().state_view(),
                0,
            ),
    {
        proof {
            use_type_invariant(&*self);
        }
        if self.randint(0, 1) == 1 {
            let mut rng = self.rng();
            let d = digit_from(&mut rng, 0);
            self.set_rng(rng);
            Some(d)
        } else {
            None
        }
    }

    /// Digit 1–9 half of the time, otherwise `None` (Faker returns `""`).
    pub fn random_digit_not_null_or_empty(&mut self) -> (r: Option<u8>)
        ensures
            old(self).same_config(final(self)),
            r matches Some(d) ==> 1 <= d <= 9,
            (r, final(self).stream().state_view()) == digit_or_empty_draw(
                old(self).stream().state_view(),
                1,
            ),
    {
        proof {
            use_type_invariant(&*self);
        }
        if self.randint(0, 1) == 1 {
            let mut rng = self.rng();
            let d = digit_from(&mut rng, 1);
            self.set_rng(rng);
            Some(d)
        } else {
            None
        }
    }

    /// Random number with up to (or, with `fix_len`, exactly) `digits` digits.
    /// `digits` defaults to a random 1–9. At most 38 digits are supported.
    pub fn random_number(&mut self, digits: Option<i64>, fix_len: bool) -> (r: Result<u128>)
        ensures
            old(self).same_config(final(self)),
            digits matches Some(d) ==> (d < 0 ==> (r matches Err(Error::InvalidArgument(m)) && m@
                == "The digit parameter must be greater than or equal to 0."@)),
            digits matches Some(d) ==> (d > 38 ==> (r matches Err(Error::Overflow(m)) && m@
                == "at most 38 digits are supported"@)),
            digits matches Some(d) ==> (d == 0 && fix_len ==> (r matches Err(Error::InvalidArgument(m)) && m@
                == "A number of fixed length cannot have less than 1 digit in it."@)),
            digits matches Some(d) ==> (0 <= d <= 38 && !(d == 0 && fix_len) ==> r is Ok),
            digits is None ==> r is Ok,
            r matches Ok(n) ==> exists|d: nat|
                d <= 38 && (digits matches Some(dd) ==> dd == d) && (digits is None ==> 1 <= d
                    <= 9) && n < #[trigger] pow10(d) && (fix_len ==> d >= 1 && n >= pow10((d - 1) as nat)),
            r matches Ok(n) ==> (n, final(self).stream().state_view()) == number_draw(digits, fix_len, old(self).stream().state_view()),
    {
        proof {
            use_type_invariant(&*self);
        }
        let d: i64 = match digits {
            Some(d) => d,
            None => {
                let mut rng = self.rng();
                let d = digit_from(&mut rng, 1);
                self.set_rng(rng);
                d as i64
            },
        };
        if d < 0 {
            return Err(invalid("The digit parameter must be greater than or equal to 0."));
        }
        if d > 38 {
            return Err(Error::Overflow("at most 38 digits are supported".to_owned()));
        }
        if fix_len && d == 0 {
            return Err(invalid("A number of fixed length cannot have less than 1 digit in it."));
        }
        let mut upper_bound: u128 = 1;
        let mut k: i64 = 0;
        while k < d
            invariant
                0 <= k <= d <= 38,
                upper_bound == pow10(k as nat),
            decreases d - k,
        {
            proof {
                lemma_pow10_bound((k + 1) as nat);
            }
            upper_bound = upper_bound * 10;
            k = k + 1;
        }
        let lower: u128 = if fix_len {
            upper_bound / 10
        } else {
            0
        };
        proof {
            lemma_pow10_bound(d as nat);
            if fix_len {
                assert(pow10(d as nat) == 10 * pow10((d - 1) as nat));
            }
        }
        let n = self.randint_u128(lower, upper_bound - 1);
        proof {
            assert(n < pow10(d as nat));
        }
        Ok(n)
    }

    /// Random ASCII letter (a–z, A–Z).
    pub fn random_letter(&mut self) -> (r: char)
        ensures
            old(self).same_config(final(self)),
            ascii_letter(r),
            (r, final(self).stream().state_view()) == letter_draw(old(self).stream().state_view()),
    {
        proof {
            use_type_invariant(&*self);
        }
        let mut rng = self.rng();
        let c = letter_from(&mut rng);
        self.set_rng(rng);
        c
    }

    /// `length` random ASCII letters (with replacement).
    pub fn random_letters(&mut self, length: usize) -> (r: Vec<char>)
        ensures
            old(self).same_config(final(self)),
            r.len() == length,
            forall|i: int| 0 <= i < length ==> ascii_letter(#[trigger] r@[i]),
            (r@, final(self).stream().state_view()) == letters_draw(length as nat, old(self).stream().state_view()),
    {
        proof {
            use_type_invariant(&*self);
        }
        let mut v: Vec<char> = Vec::new();
        let ghost g0 = *old(self);
        for i in 0..length
            invariant
                g0.same_config(self),
                v.len() == i,
                forall|j: int| 0 <= j < i ==> ascii_letter(#[trigger] v@[j]),
                (v@, self.stream().state_view()) == letters_draw(i as nat, g0.stream().state_view()),
        {
            let mut rng = self.rng();
            v.push(letter_from(&mut rng));
            self.set_rng(rng);
        }
        v
    }

    /// Random lowercase ASCII letter.
    pub fn random_lowercase_letter(&mut self) -> (r: char)
        ensures
            old(self).same_config(final(self)),
            97 <= (r as u32) <= 122,
            (r, final(self).stream().state_view()) == case_letter_draw(97, old(self).stream().state_view()),
    {
        proof {
            use_type_invariant(&*self);
        }
        let i = self.index(26) as u8;
        ((97 + i) as u8) as char
    }

    /// Random uppercase ASCII letter.
    pub fn random_uppercase_letter(&mut self) -> (r: char)
        ensures
            old(self).same_config(final(self)),
            65 <= (r as u32) <= 90,
            (r, final(self).stream().state_view()) == case_letter_draw(65, old(self).stream().state_view()),
    {
        proof {
            use_type_invariant(&*self);
        }
        let i = self.index(26) as u8;
        ((65 + i) as u8) as char
    }

    /// Indices for Faker's `random_elements` over a collection of `len` items.
    ///
    /// * `length`: `None` picks a random length from 1 to `len`.
    /// * `unique`: sample without replacement (weighted when `weights` is given).
    /// * `weights`: per-item integer weights; `None` means uniform.
    pub fn random_element_indices(
        &mut self,
        len: usize,
        weights: Option<&Vec<u64>>,
        length: Option<usize>,
        unique: bool,
    ) -> (r: Result<Vec<usize>>)
        ensures
            old(self).same_config(final(self)),
            r is Err <==> indices_rejected(len, weights_view(weights), length, unique),
            r matches Err(e) ==> if indices_from_nothing(len, weights_view(weights), length, unique) {
                e == Error::EmptySequence
            } else {
                e matches Error::InvalidArgument(m) && m@ == indices_message(len, weights_view(weights), length, unique)
            },
            r matches Ok(v) ==> indices_fit(v@, len, weights_view(weights), length, unique),
    {
        proof {
            use_type_invariant(&*self);
        }
        match weights {
            Some(w) => {
                if w.len() != len {
                    return Err(invalid("weights must have the same length as elements"));
                }
            },
            None => {},
        }
        let length: usize = match length {
            Some(l) => l,
            None => {
                if len == 0 {
                    return Err(invalid("empty range in randrange(1, 1)"));
                }
                let hi: i64 = if len as u128 <= i64::MAX as u128 {
                    len as i64
                } else {
                    i64::MAX
                };
                self.randint(1, hi) as usize
            },
        };
        if unique && length > len {
            return Err(
                invalid(
                    "Sample length cannot be longer than the number of unique elements to pick from.",
                ),
            );
        }
        if length > 0 && len == 0 {
            return Err(Error::EmptySequence);
        }
        match weights {
            Some(w) => {
                let total = weights_total(w);
                if total == 0 && len > 0 {
                    return Err(invalid("Total of weights must be greater than zero"));
                }
                let mut rng = self.rng();
                let v = if unique {
                    weighted_unique(&mut rng, w, length)
                } else if length == 0 {
                    Vec::new()
                } else {
                    weighted_choices(&mut rng, w, length)
                };
                self.set_rng(rng);
                Ok(v)
            },
            None => {
                if unique {
                    Ok(self.sample_indices(len, length))
                } else {
                    let mut v: Vec<usize> = Vec::new();
                    let ghost g0 = *old(self);
                    for k in 0..length
                        invariant
                            g0.same_config(self),
                            len > 0 || length == 0,
                            v.len() == k,
                            forall|j: int| 0 <= j < k ==> #[trigger] v@[j] < len,
                    {
                        v.push(self.index(len));
                    }
                    Ok(v)
                }
            },
        }
    }

    /// `length` distinct indices from `0..len` in random order (partial Fisher–Yates).
    pub fn sample_indices(&mut self, len: usize, length: usize) -> (r: Vec<usize>)
        ensures
            old(self).same_config(final(self)),
            r.len() == if length < len {
                length
            } else {
                len
            },
            distinct(r@),
            forall|i: int| 0 <= i < r.len() ==> #[trigger] r@[i] < len,
            (r@, final(self).stream().state_view()) == sample_draw(len, length, old(self).stream().state_view()),
    {
        proof {
            use_type_invariant(&*self);
        }
        let mut rng = self.rng();
        let r = sample_from(&mut rng, len, length);
        self.set_rng(rng);
        r
    }

    /// Faker's `randomize_nb_elements`: `number` scaled by a random 60–140%.
    pub fn randomize_nb_elements(
        &mut self,
        number: i64,
        le: bool,
        ge: bool,
        min: Option<i64>,
        max: Option<i64>,
    ) -> (r: i64)
        ensures
            old(self).same_config(final(self)),
            le && ge ==> r == number,
            !(le && ge) ==> exists|p: int|
                (if ge {
                    100int
                } else {
                    60int
                }) <= p <= (if le {
                    100int
                } else {
                    140int
                }) && r == #[trigger] clamp_opt(saturate_i64(div_trunc(number * p, 100)), min, max),
            (r, final(self).stream().state_view()) == randomize_draw(number, le, ge, min, max, old(self).stream().state_view()),
    {
        proof {
            use_type_invariant(&*self);
        }
        if le && ge {
            return number;
        }
        let low: i64 = if ge {
            100
        } else {
            60
        };
        let high: i64 = if le {
            100
        } else {
            140
        };
        let percent = self.randint(low, high);
        assert(-0x8000_0000_0000_0000 * 140 <= number as i128 * percent as i128 <= 0x7fff_ffff_ffff_ffff * 140) by (nonlinear_arith)
            requires
                60 <= percent <= 140,
                -0x8000_0000_0000_0000 <= number <= 0x7fff_ffff_ffff_ffff,
        ;
        let scaled = number as i128 * percent as i128;
        let q: i128 = if scaled >= 0 {
            scaled / 100
        } else {
            -((-scaled) / 100)
        };
        let mut nb: i64 = if q > i64::MAX as i128 {
            i64::MAX
        } else if q < i64::MIN as i128 {
            i64::MIN
        } else {
            q as i64
        };
        let ghost p = percent as int;
        match min {
            Some(m) => {
                if nb < m {
                    nb = m;
                }
            },
            None => {},
        }
        match max {
            Some(m) => {
                if nb > m {
                    nb = m;
                }
            },
            None => {},
        }
        assert(nb == clamp_opt(saturate_i64(div_trunc(number * p, 100)), min, max));
        nb
    }

    /// Replaces `#` (0–9), `%` (1–9), `$` (2–9), `!` (0–9 or nothing) and `@` (1–9 or nothing).
    pub fn numerify(&mut self, text: &str) -> (r: String)
        ensures
            old(self).same_config(final(self)),
            numerified(text@, r@),
            (r@, final(self).stream().state_view()) == numerify_run(text@, old(self).stream().state_view()),
    {
        proof {
            use_type_invariant(&*self);
        }
        let mut out = String::new();
        let mut rng = self.rng();
        numerify_into(&mut rng, &chars_of(text), &mut out);
        self.set_rng(rng);
        out
    }

    /// Appends `numerify(text)` to `out`.
    pub(crate) fn write_numerify(&mut self, text: &str, out: &mut String)
        ensures
            old(self).same_config(final(self)),
            exists|x: Seq<char>| final(out)@ == old(out)@ + x && numerified(text@, x),
            final(out)@ == old(out)@ + numerify_run(text@, old(self).stream().state_view()).0,
            final(self).stream().state_view() == numerify_run(text@, old(self).stream().state_view()).1,
    {
        proof {
            use_type_invariant(&*self);
        }
        let mut rng = self.rng();
        numerify_into(&mut rng, &chars_of(text), out);
        self.set_rng(rng);
    }

    /// Appends `bothify(text)` with the default letters, which cannot fail, to `out`.
    pub(crate) fn write_bothify_default(&mut self, text: &str, out: &mut String)
        ensures
            old(self).same_config(final(self)),
            exists|x: Seq<char>| final(out)@ == old(out)@ + x && bothified(text@, x),
            final(out)@ == old(out)@ + bothify_run(text@, old(self).stream().state_view()).0,
            final(self).stream().state_view() == bothify_run(text@, old(self).stream().state_view()).1,
    {
        proof {
            use_type_invariant(&*self);
        }
        let mut rng = self.rng();
        bothify_into(&mut rng, &chars_of(text), out);
        self.set_rng(rng);
    }

    /// Replaces `?` with a random character from `letters` (default: ASCII letters).
    pub fn lexify(&mut self, text: &str, letters: Option<&str>) -> (r: Result<String>)
        ensures
            old(self).same_config(final(self)),
            r is Err <==> (letters matches Some(l) && l@.len() == 0 && text@.contains('?')),
            r matches Err(e) ==> e == Error::EmptySequence,
            r matches Ok(out) ==> replaced(
                text@,
                out@,
                '?',
                lexify_pool(
                    match letters {
                        Some(l) => Some(l@),
                        None => None,
                    },
                ),
            ),
            r matches Ok(out) ==> (out@, final(self).stream().state_view()) == lexify_run(
                text@,
                match letters {
                    Some(l) => Some(l@),
                    None => None,
                },
                old(self).stream().state_view(),
            ),
    {
        proof {
            use_type_invariant(&*self);
        }
        let v = chars_of(text);
        let pool = match letters {
            Some(l) => Some(chars_of(l)),
            None => None,
        };
        let mut has_marker = false;
        for i in 0..v.len()
            invariant
                v@ == text@,
                has_marker == exists|j: int| 0 <= j < i && v@[j] == '?',
        {
            if v[i] == '?' {
                has_marker = true;
            }
        }
        assert(has_marker == text@.contains('?'));
        let mut out = String::new();
        if !has_marker {
            for i in 0..v.len()
                invariant
                    out@ == v@.take(i as int),
            {
                push_char(&mut out, v[i]);
                assert(v@.take(i + 1) == v@.take(i as int).push(v@[i as int]));
            }
            assert(v@.take(v.len() as int) == v@);
            let ghost allowed = lexify_pool(
                match letters {
                    Some(l) => Some(l@),
                    None => None,
                },
            );
            assert(replaced(text@, out@, '?', allowed));
            proof {
                lemma_lexify_run_plain(
                    text@,
                    match letters {
                        Some(l) => Some(l@),
                        None => None,
                    },
                    self.stream().state_view(),
                );
            }
            return Ok(out);
        }
        match &pool {
            Some(p) => {
                if p.len() == 0 {
                    return Err(Error::EmptySequence);
                }
                let mut rng = self.rng();
                replace_into(&mut rng, &v, Some(p), &mut out);
                self.set_rng(rng);
            },
            None => {
                let mut rng = self.rng();
                replace_into(&mut rng, &v, None, &mut out);
                self.set_rng(rng);
            },
        }
        Ok(out)
    }

    /// `numerify` followed by `lexify`.
    pub fn bothify(&mut self, text: &str, letters: Option<&str>) -> (r: Result<String>)
        ensures
            old(self).same_config(final(self)),
            r matches Err(e) ==> e == Error::EmptySequence && (letters matches Some(l) && l@.len() == 0),
            letters is None ==> r is Ok,
            r matches Ok(out) ==> exists|mid: Seq<char>|
                numerified(text@, mid) && replaced(
                    mid,
                    out@,
                    '?',
                    lexify_pool(
                        match letters {
                            Some(l) => Some(l@),
                            None => None,
                        },
                    ),
                ),
            r matches Ok(out) ==> ({
                let (mid, s1) = numerify_run(text@, old(self).stream().state_view());
                (out@, final(self).stream().state_view()) == lexify_run(
                    mid,
                    match letters {
                        Some(l) => Some(l@),
                        None => None,
                    },
                    s1,
                )
            }),
    {
        let numbered = self.numerify(text);
        self.lexify(numbered.as_str(), letters)
    }

    /// Replaces `^` with a random hex digit.
    pub fn hexify(&mut self, text: &str, upper: bool) -> (r: String)
        ensures
            old(self).same_config(final(self)),
            replaced(text@, r@, '^', |c: char| hex_digit(c, upper)),
            (r@, final(self).stream().state_view()) == hexify_run(text@, upper, old(self).stream().state_view()),
    {
        proof {
            use_type_invariant(&*self);
        }
        let v = chars_of(text);
        let mut out: Vec<char> = Vec::new();
        let ghost g0 = *old(self);
        for i in 0..v.len()
            invariant
                g0.same_config(self),
                v@ == text@,
                out.len() == i,
                forall|j: int|
                    0 <= j < i ==> if v@[j] == '^' {
                        hex_digit(#[trigger] out@[j], upper)
                    } else {
                        out@[j] == v@[j]
                    },
                (out@, self.stream().state_view()) == hexify_run(v@.take(i as int), upper, g0.stream().state_view()),
        {
            assert(v@.take(i + 1).drop_last() == v@.take(i as int));
            if v[i] == '^' {
                let d = self.index(16) as u8;
                let c = if d < 10 {
                    ((48 + d) as u8) as char
                } else if upper {
                    ((55 + d) as u8) as char
                } else {
                    ((87 + d) as u8) as char
                };
                out.push(c);
            } else {
                out.push(v[i]);
            }
        }
        assert(v@.take(v.len() as int) == v@);
        string_from(&out)
    }

    /// Random language code from the locale's `language_locale_codes` (e.g. `de`).
    pub fn language_code(&mut self) -> (r: String)
        ensures
            old(self).same_config(final(self)),
            exists|i: int|
                0 <= i < old(self).data().base.language_locale_codes.len() && r@
                    == old(self).data().base.language_locale_codes@[i].0@,
            (r@, final(self).stream().state_view()) == (
                old(self).data().base.language_locale_codes@[pcg_draw_u64(
                    old(self).stream().state_view(),
                    (old(self).data().base.language_locale_codes.len() - 1) as u64,
                ).0 as int].0@,
                pcg_draw_u64(
                    old(self).stream().state_view(),
                    (old(self).data().base.language_locale_codes.len() - 1) as u64,
                ).1,
            ),
    {
        proof {
            use_type_invariant(&*self);
        }
        let data = self.shared();
        let codes = &data.base.language_locale_codes;
        let i = self.index(codes.len());
        codes[i].0.clone()
    }

    /// Random locale code such as `de_AT`: a language code, then `_` and one of its
    /// regions when it has any.
    pub fn locale(&mut self) -> (r: String)
        ensures
            old(self).same_config(final(self)),
            exists|i: int|
                0 <= i < old(self).data().base.language_locale_codes.len() && #[trigger] locale_code_from(
                    old(self).data().base.language_locale_codes@[i],
                    r@,
                ),
            (r@, final(self).stream().state_view()) == locale_draw(
                old(self).data().base.language_locale_codes@,
                old(self).stream().state_view(),
            ),
    {
        proof {
            use_type_invariant(&*self);
        }
        let data = self.shared();
        let codes = &data.base.language_locale_codes;
        let i = self.index(codes.len());
        let language = &codes[i].0;
        let regions = &codes[i].1;
        let mut out = language.clone();
        if regions.len() > 0 {
            let j = self.index(regions.len());
            push_char(&mut out, '_');
            out.append(regions[j].as_str());
            assert(out@ == language@ + seq!['_'] + regions@[j as int]@);
        }
        assert(locale_code_from(codes@[i as int], out@));
        out
    }
}

/// `(letters, next state)` of `n` ASCII letters drawn in turn from `state`.
pub open spec fn letters_draw(n: nat, state: u128) -> (Seq<char>, u128)
    decreases n,
{
    if n == 0 {
        (Seq::empty(), state)
    } else {
        let (first, s1) = letters_draw((n - 1) as nat, state);
        let (c, s2) = letter_draw(s1);
        (first.push(c), s2)
    }
}

/// `(letter, next state)` of one of the 26 letters from `base` (`a` or `A`) drawn from `state`.
pub open spec fn case_letter_draw(base: u32, state: u128) -> (char, u128) {
    let (i, next) = pcg_draw_u64(state, 25);
    ((base + i) as char, next)
}

/// `(number, next state)` of `random_number` from `state` when it succeeds: the digit count,
/// drawn in 1..=9 when not given, then a number below `10^d` (from `10^(d-1)` with `fix_len`).
pub open spec fn number_draw(digits: Option<i64>, fix_len: bool, state: u128) -> (u128, u128) {
    let (d, s1) = match digits {
        Some(d) => (d, state),
        None => {
            let (x, next) = digit_draw(state, 1);
            (x as i64, next)
        },
    };
    let lower: u128 = if fix_len { pow10((d - 1) as nat) as u128 } else { 0 };
    randint_u128_draw(s1, lower, (pow10(d as nat) - 1) as u128)
}

/// The hexadecimal digit of value `d` (below 16), in upper or lower case.
pub open spec fn hex_char(d: u64, upper: bool) -> char {
    if d < 10 {
        (48 + d) as char
    } else if upper {
        (55 + d) as char
    } else {
        (87 + d) as char
    }
}

/// `(text, next state)` of `hexify` over `text` from `state`, left to right.
pub open spec fn hexify_run(text: Seq<char>, upper: bool, state: u128) -> (Seq<char>, u128)
    decreases text.len(),
{
    if text.len() == 0 {
        (Seq::empty(), state)
    } else {
        let (x, mid) = hexify_run(text.drop_last(), upper, state);
        if text.last() == '^' {
            let (d, next) = pcg_draw_u64(mid, 15);
            (x.push(hex_char(d, upper)), next)
        } else {
            (x.push(text.last()), mid)
        }
    }
}

/// `(code, next state)` of `locale` from `state`: a drawn language, then `_` and a drawn
/// region when it has any.
pub open spec fn locale_draw(codes: Seq<(String, Vec<String>)>, state: u128) -> (Seq<char>, u128) {
    let (i, s1) = pcg_draw_u64(state, (codes.len() - 1) as u64);
    let entry = codes[i as int];
    if entry.1.len() == 0 {
        (entry.0@, s1)
    } else {
        let (j, s2) = pcg_draw_u64(s1, (entry.1.len() - 1) as u64);
        (entry.0@ + seq!['_'] + entry.1@[j as int]@, s2)
    }
}

/// `(count, next state)` of `randomize_nb_elements` from `state`: `number` itself when
/// both bounds hold it, else `number` scaled by a drawn percentage and clamped.
pub open spec fn randomize_draw(number: i64, le: bool, ge: bool, min: Option<i64>, max: Option<i64>, state: u128) -> (i64, u128) {
    if le && ge {
        (number, state)
    } else {
        let (p, next) = randint_draw(state, if ge { 100 } else { 60 }, if le { 100 } else { 140 });
        (clamp_opt(saturate_i64(div_trunc(number * p, 100)), min, max) as i64, next)
    }
}

/// The partial Fisher–Yates shuffle of `pool` from position `i` up to `take`, drawing from
/// `state`: each step swaps position `i` with a drawn position in `i..pool.len()`.
pub open spec fn shuffle_draw(pool: Seq<usize>, i: nat, take: nat, state: u128) -> (Seq<usize>, u128)
    decreases take - i,
{
    if i >= take || i >= pool.len() {
        (pool, state)
    } else {
        let (v, next) = pcg_draw_u64(state, (pool.len() - i - 1) as u64);
        let j = i + v;
        shuffle_draw(pool.update(i as int, pool[j]).update(j, pool[i as int]), i + 1, take, next)
    }
}

/// `(indices, next state)` of drawing `length` distinct indices below `len` from `state`.
pub open spec fn sample_draw(len: usize, length: usize, state: u128) -> (Seq<usize>, u128) {
    let take: nat = if length < len {
        length as nat
    } else {
        len as nat
    };
    let (p, next) = shuffle_draw(Seq::new(len as nat, |k: int| k as usize), 0, take, state);
    (p.take(take as int), next)
}

/// `length` distinct indices below `len`, by a partial Fisher–Yates shuffle.
fn sample_from(rng: &mut Rng, len: usize, length: usize) -> (r: Vec<usize>)
    ensures
        r.len() == if length < len {
            length
        } else {
            len
        },
        distinct(r@),
        forall|i: int| 0 <= i < r.len() ==> #[trigger] r@[i] < len,
        (r@, final(rng).state_view()) == sample_draw(len, length, old(rng).state_view()),
{
    let take = if length < len {
        length
    } else {
        len
    };
    let mut pool: Vec<usize> = Vec::new();
    for i in 0..len
        invariant
            pool.len() == i,
            forall|j: int| 0 <= j < i ==> #[trigger] pool@[j] == j,
    {
        pool.push(i);
    }
    let ghost init = pool@;
    assert(init == Seq::new(len as nat, |k: int| k as usize));
    let ghost s0 = rng.state_view();
    for i in 0..take
        invariant
            take <= len,
            pool.len() == len,
            distinct(pool@),
            forall|j: int| 0 <= j < len ==> #[trigger] pool@[j] < len,
            shuffle_draw(pool@, i as nat, take as nat, rng.state_view()) == shuffle_draw(init, 0, take as nat, s0),
    {
        let ghost before = pool@;
        let ghost st = rng.state_view();
        let j = i + rng.index(len - i);
        let a = pool[i];
        let b = pool[j];
        pool.set(i, b);
        pool.set(j, a);
        assert(pool@ == before.update(i as int, before[j as int]).update(j as int, before[i as int]));
    }
    pool.truncate(take);
    pool
}

} // verus!
