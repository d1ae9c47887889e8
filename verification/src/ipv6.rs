//! IPv6 addresses: random ones above the IPv4 range, written as RFC 5952 text.
use vstd::prelude::*;
use crate::chars::push_char;
use crate::fmt::{decimal, digits_of, push_decimal, push_number};
use crate::generator::Generator;
use crate::internet::ipv4_text;
use crate::rng::{randint_draw, randint_u128_draw};

verus! {

/// The eight 16-bit groups of an address, most significant first.
pub open spec fn groups(a: u128) -> Seq<u16> {
    Seq::new(8, |i: int| ((a >> ((112 - 16 * i) as u32)) & 0xffff) as u16)
}

/// Groups `s .. s + l` of `g` are all zero.
pub open spec fn zeros_at(g: Seq<u16>, s: int, l: int) -> bool {
    &&& 0 <= s
    &&& 0 <= l
    &&& s + l <= g.len()
    &&& forall|k: int| s <= k < s + l ==> g[k] == 0
}

/// `(s, l)` is the longest run of zero groups of `g`, the first one when several are
/// longest (`(0, 0)` when there is none).
pub open spec fn first_longest_zeros(g: Seq<u16>, s: int, l: int) -> bool {
    &&& zeros_at(g, s, l)
    &&& forall|t: int, m: int| #[trigger] zeros_at(g, t, m) ==> m <= l
    &&& forall|t: int| 0 <= t < s ==> !#[trigger] zeros_at(g, t, l)
}

/// The first longest run of zero groups of `g`.
pub open spec fn zero_span(g: Seq<u16>) -> (int, int) {
    choose|p: (int, int)| first_longest_zeros(g, p.0, p.1)
}

/// Groups in lowercase hexadecimal without leading zeros, joined by `:`.
pub open spec fn hex_groups(g: Seq<u16>) -> Seq<char>
    decreases g.len(),
{
    if g.len() == 0 {
        Seq::empty()
    } else if g.len() == 1 {
        digits_of(g[0] as nat, 16, false)
    } else {
        hex_groups(g.drop_last()) + seq![':'] + digits_of(g.last() as nat, 16, false)
    }
}

/// Whether the address is an IPv4 address mapped into IPv6 (`::ffff:a.b.c.d`).
pub open spec fn ipv4_mapped(g: Seq<u16>) -> bool {
    g[0] == 0 && g[1] == 0 && g[2] == 0 && g[3] == 0 && g[4] == 0 && g[5] == 0xffff
}

/// The text of an IPv6 address as Rust's `Ipv6Addr` writes it (RFC 5952): an IPv4-mapped
/// address as `::ffff:` and a dotted quad; otherwise hexadecimal groups, with the first
/// longest run of two or more zero groups written `::`.
pub open spec fn ipv6_text(a: u128) -> Seq<char> {
    let g = groups(a);
    if ipv4_mapped(g) {
        "::ffff:"@ + ipv4_text(a as u32)
    } else {
        let (s, l) = zero_span(g);
        if l > 1 {
            hex_groups(g.subrange(0, s)) + "::"@ + hex_groups(g.subrange(s + l, 8))
        } else {
            hex_groups(g)
        }
    }
}

/// The address with only its first `p` bits kept.
pub open spec fn net_prefix(a: u128, p: u32) -> u128 {
    if p == 0 {
        0
    } else {
        a & (u128::MAX << ((128 - p) as u32))
    }
}

/// The text of the network of `a` with prefix length `p`.
pub open spec fn ipv6_net_text(a: u128, p: u32) -> Seq<char> {
    ipv6_text(net_prefix(a, p)) + seq!['/'] + decimal(p as int)
}

/// `r` is the text of `a`, or of its network with some prefix length when `network`.
pub open spec fn ipv6_yields(network: bool, a: u128, r: Seq<char>) -> bool {
    if network {
        exists|p: u32| p <= 128 && r == #[trigger] ipv6_net_text(a, p)
    } else {
        r == ipv6_text(a)
    }
}

/// Zero groups from `i` on, up to the first non-zero one.
pub open spec fn run_len(g: Seq<u16>, i: int) -> nat
    decreases g.len() - i,
{
    if 0 <= i < g.len() && g[i] == 0 {
        1 + run_len(g, i + 1)
    } else {
        0
    }
}

/// The run of zeros from `i` is all zero, and no zero run from `i` is longer.
proof fn lemma_run_len(g: Seq<u16>, i: int)
    requires
        0 <= i <= g.len(),
    ensures
        zeros_at(g, i, run_len(g, i) as int),
        forall|m: int| #[trigger] zeros_at(g, i, m) ==> m <= run_len(g, i),
    decreases g.len() - i,
{
    if i < g.len() && g[i] == 0 {
        lemma_run_len(g, i + 1);
        assert forall|m: int| #[trigger] zeros_at(g, i, m) implies m <= run_len(g, i) by {
            if m > 0 {
                assert(zeros_at(g, i + 1, m - 1));
            }
        }
    } else {
        assert forall|m: int| #[trigger] zeros_at(g, i, m) implies m <= run_len(g, i) by {
            if m > 0 {
                assert(g[i] == 0);
            }
        }
    }
}

/// Only one run is the first longest.
proof fn lemma_zero_span_unique(g: Seq<u16>, s: int, l: int)
    requires
        first_longest_zeros(g, s, l),
    ensures
        zero_span(g) == (s, l),
{
    let w = (s, l);
    assert(first_longest_zeros(g, w.0, w.1));
    let p = zero_span(g);
    assert(first_longest_zeros(g, p.0, p.1));
    assert(zeros_at(g, s, l));
    assert(zeros_at(g, p.0, p.1));
    assert(p.1 == l);
    if p.0 < s {
        assert(!zeros_at(g, p.0, l));
    }
    if s < p.0 {
        assert(!zeros_at(g, s, p.1));
    }
}

/// The groups of an address.
fn groups_of(a: u128) -> (r: Vec<u16>)
    ensures
        r@ == groups(a),
{
    let mut v: Vec<u16> = Vec::new();
    for i in 0..8u32
        invariant
            v@.len() == i,
            forall|k: int| 0 <= k < i ==> v@[k] == ((a >> ((112 - 16 * k) as u32)) & 0xffff) as u16,
    {
        v.push(((a >> (112 - 16 * i)) & 0xffff) as u16);
    }
    assert(v@ == groups(a));
    v
}

/// The first longest run of zero groups.
fn longest_zeros(g: &Vec<u16>) -> (r: (usize, usize))
    requires
        g.len() == 8,
    ensures
        first_longest_zeros(g@, r.0 as int, r.1 as int),
{
    let mut runs: Vec<usize> = Vec::new();
    let mut k: usize = 0;
    while k < 8
        invariant
            g.len() == 8,
            k <= 8,
            runs@.len() == k,
            forall|j: int| 0 <= j < k ==> #[trigger] runs@[j] == run_len(g@, 7 - j),
            forall|j: int| 0 <= j < k ==> runs@[j] <= j + 1,
        decreases 8 - k,
    {
        let i = 7 - k;
        let r: usize = if g[i] == 0 {
            if k == 0 {
                1
            } else {
                runs[k - 1] + 1
            }
        } else {
            0
        };
        proof {
            if k > 0 {
                assert(runs@[k - 1] == run_len(g@, 7 - (k - 1)));
            } else {
                assert(run_len(g@, 8) == 0);
            }
        }
        runs.push(r);
        k = k + 1;
    }
    let mut best_start: usize = 0;
    let mut best_len: usize = runs[7];
    let mut t: usize = 1;
    while t < 8
        invariant
            g.len() == 8,
            runs@.len() == 8,
            forall|j: int| 0 <= j < 8 ==> #[trigger] runs@[j] == run_len(g@, 7 - j),
            1 <= t <= 8,
            best_start < t,
            best_len == run_len(g@, best_start as int),
            forall|j: int| 0 <= j < t ==> run_len(g@, j) <= best_len,
            forall|j: int| 0 <= j < best_start ==> run_len(g@, j) < best_len,
        decreases 8 - t,
    {
        assert(runs@[7 - t as int] == run_len(g@, t as int));
        if runs[7 - t] > best_len {
            best_start = t;
            best_len = runs[7 - t];
        }
        t = t + 1;
    }
    proof {
        assert(runs@[7 - 0] == run_len(g@, 0));
        lemma_run_len(g@, best_start as int);
        assert forall|u: int, m: int| #[trigger] zeros_at(g@, u, m) implies m <= best_len by {
            if u < 8 {
                lemma_run_len(g@, u);
            }
        }
        assert forall|u: int| 0 <= u < best_start implies !#[trigger] zeros_at(g@, u, best_len as int) by {
            lemma_run_len(g@, u);
        }
    }
    (best_start, best_len)
}

/// Appends groups `from .. to` of `g`, joined by `:`.
fn push_groups(out: &mut String, g: &Vec<u16>, from: usize, to: usize)
    requires
        from <= to <= g.len(),
    ensures
        final(out)@ == old(out)@ + hex_groups(g@.subrange(from as int, to as int)),
{
    let ghost start = out@;
    let mut k = from;
    assert(g@.subrange(from as int, from as int).len() == 0);
    while k < to
        invariant
            from <= k <= to <= g.len(),
            out@ == start + hex_groups(g@.subrange(from as int, k as int)),
        decreases to - k,
    {
        if k > from {
            push_char(out, ':');
        }
        push_number(out, g[k] as u128, 16, false, 0);
        proof {
            let next = g@.subrange(from as int, k + 1);
            assert(next.drop_last() == g@.subrange(from as int, k as int));
            if k == from {
                assert(next.len() == 1);
            }
        }
        k = k + 1;
    }
}

/// Writes an IPv6 address as Rust's `Ipv6Addr` displays it.
pub fn format_ipv6(a: u128) -> (r: String)
    ensures
        r@ == ipv6_text(a),
{
    let g = groups_of(a);
    if g[0] == 0 && g[1] == 0 && g[2] == 0 && g[3] == 0 && g[4] == 0 && g[5] == 0xffff {
        let mut out = "::ffff:".to_owned();
        crate::internet::push_ipv4(&mut out, a as u32);
        proof {
            reveal_strlit("::ffff:");
        }
        return out;
    }
    let (s, l) = longest_zeros(&g);
    proof {
        lemma_zero_span_unique(g@, s as int, l as int);
    }
    let mut out = String::new();
    if l > 1 {
        push_groups(&mut out, &g, 0, s);
        push_char(&mut out, ':');
        push_char(&mut out, ':');
        push_groups(&mut out, &g, s + l, 8);
        proof {
            reveal_strlit("::");
        }
    } else {
        push_groups(&mut out, &g, 0, 8);
        assert(g@.subrange(0, 8) == g@);
    }
    out
}

/// `(text, next state)` of `ipv6` from `state`: an address above the IPv4 range and, for a
/// network, a drawn prefix length.
pub open spec fn ipv6_draw(network: bool, state: u128) -> (Seq<char>, u128) {
    let (a, s1) = randint_u128_draw(state, 0x1_0000_0000, u128::MAX);
    if !network {
        (ipv6_text(a), s1)
    } else {
        let (p, s2) = randint_draw(s1, 0, 128);
        (ipv6_net_text(a, p as u32), s2)
    }
}

impl Generator {
    /// A random IPv6 address above the IPv4 range, or a network with a random prefix
    /// length.
    pub fn ipv6(&mut self, network: bool) -> (r: String)
        ensures
            old(self).same_config(final(self)),
            exists|a: u128| a >= 0x1_0000_0000 && #[trigger] ipv6_yields(network, a, r@),
            (r@, final(self).stream().state_view()) == ipv6_draw(network, old(self).stream().state_view()),
    {
        let a = self.randint_u128(0x1_0000_0000, u128::MAX);
        if !network {
            let out = format_ipv6(a);
            assert(ipv6_yields(network, a, out@));
            return out;
        }
        let p = self.randint(0, 128) as u32;
        let base = if p == 0 {
            0
        } else {
            a & (u128::MAX << (128 - p))
        };
        let mut out = format_ipv6(base);
        push_char(&mut out, '/');
        push_decimal(&mut out, p as i128);
        assert(0 <= p <= 128);
        assert(base == net_prefix(a, p));
        assert(out@ == ipv6_text(base) + seq!['/'] + decimal(p as int));
        assert(out@ == ipv6_net_text(a, p));
        assert(ipv6_yields(network, a, out@));
        out
    }
}


} // verus!
