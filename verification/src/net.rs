//! IPv4 networks: containment, halving, Python's `address_exclude`, and the address
//! pools the `internet` provider draws from.
use vstd::prelude::*;
use vstd::arithmetic::div_mod::{lemma_fundamental_div_mod, lemma_mod_multiples_basic};
use vstd::arithmetic::power2::{lemma2_to64, lemma_pow2_adds, lemma_pow2_pos, lemma_pow2_strictly_increases, pow2};
use vstd::bits::{lemma_u32_pow2_no_overflow, lemma_u32_shl_is_mul, lemma_u64_pow2_no_overflow, lemma_u64_shl_is_mul};

verus! {

/// The number of addresses in a network with this prefix length.
pub open spec fn block(prefix: u8) -> nat {
    pow2((32 - prefix) as nat)
}

/// An IPv4 network as (address, prefix length).
#[derive(Debug, Clone, Copy, PartialEq, Eq, Structural)]
pub struct Net {
    pub addr: u32,
    pub prefix: u8,
}

impl Net {
    /// A proper network: a prefix of at most 32 bits and an address aligned to its size.
    pub open spec fn wf(self) -> bool {
        &&& self.prefix <= 32
        &&& self.addr as int % block(self.prefix) as int == 0
    }

    /// The last address, counted without wrapping.
    pub open spec fn top(self) -> int {
        self.addr + block(self.prefix) - 1
    }

    /// Whether address `a` lies in the network.
    pub open spec fn has(self, a: int) -> bool {
        self.addr <= a <= self.top()
    }

    /// Every address of `self` lies in `outer`.
    pub open spec fn within(self, outer: Net) -> bool {
        outer.addr <= self.addr && self.top() <= outer.top()
    }

    /// The last address as the code computes it: wrapping at 2^32.
    pub open spec fn last_spec(self) -> int {
        (self.addr + block(self.prefix) - 1) % 0x1_0000_0000
    }

    /// What `contains` computes.
    pub open spec fn contains_spec(self, other: Net) -> bool {
        other.prefix >= self.prefix && other.addr >= self.addr && other.last_spec() <= self.last_spec()
    }

    /// A network from its four address bytes and prefix length.
    pub fn new(a: u8, b: u8, c: u8, d: u8, prefix: u8) -> (r: Net)
        ensures
            r.addr == a * 0x100_0000 + b * 0x1_0000 + c * 0x100 + d,
            r.prefix == prefix,
    {
        let addr = (a as u32) * 0x100_0000 + (b as u32) * 0x1_0000 + (c as u32) * 0x100 + (d as u32);
        Net { addr, prefix }
    }

    /// The number of addresses, 2^(32 - prefix).
    pub fn size(self) -> (r: u64)
        requires
            self.prefix <= 32,
        ensures
            r == block(self.prefix),
    {
        let shift: u64 = 32 - self.prefix as u64;
        proof {
            lemma_u64_pow2_no_overflow(shift as nat);
            lemma_u64_shl_is_mul(1, shift);
        }
        1u64 << shift
    }

    /// The last address (wrapping at 2^32; a proper network never wraps).
    pub fn last(self) -> (r: u32)
        requires
            self.prefix <= 32,
        ensures
            r == self.last_spec(),
            self.wf() ==> r == self.top(),
    {
        proof {
            lemma_block_bounds(self.prefix);
            if self.wf() {
                lemma_wf_fits(self);
            }
        }
        self.addr.wrapping_add((self.size() - 1) as u32)
    }

    /// Whether `other` lies inside this network.
    pub fn contains(self, other: Net) -> (r: bool)
        requires
            self.prefix <= 32,
            other.prefix <= 32,
        ensures
            r == self.contains_spec(other),
            self.wf() && other.wf() ==> (r <==> other.within(self)),
    {
        proof {
            if self.wf() && other.wf() && other.within(self) {
                lemma_within_prefix(other, self);
            }
            if self.wf() && other.wf() {
                lemma_wf_fits(self);
                lemma_wf_fits(other);
            }
        }
        other.prefix >= self.prefix && other.addr >= self.addr && other.last() <= self.last()
    }

    /// Whether either network lies inside the other.
    pub fn overlaps(self, other: Net) -> (r: bool)
        requires
            self.prefix <= 32,
            other.prefix <= 32,
        ensures
            r == (self.contains_spec(other) || other.contains_spec(self)),
            self.wf() && other.wf() ==> (r <==> (other.within(self) || self.within(other))),
    {
        self.contains(other) || other.contains(self)
    }

    /// The two halves of this network (only valid for prefix < 32).
    pub fn split(self) -> (r: (Net, Net))
        requires
            self.prefix < 32,
        ensures
            r.0 == (Net { addr: self.addr, prefix: (self.prefix + 1) as u8 }),
            r.1.prefix == self.prefix + 1,
            r.1.addr == self.addr | (1u32 << (31 - self.prefix) as u32),
            self.wf() ==> r.0.wf() && r.1.wf() && r.1.addr == self.addr + block(r.1.prefix)
                && block(self.prefix) == 2 * block(r.1.prefix),
    {
        let prefix = self.prefix + 1;
        let shift: u32 = 32 - prefix as u32;
        let bit: u32 = 1u32 << shift;
        assert(shift == 31 - self.prefix);
        let low = Net { addr: self.addr, prefix };
        let high = Net { addr: self.addr | bit, prefix };
        proof {
            lemma_u32_pow2_no_overflow(shift as nat);
            lemma_u32_shl_is_mul(1, shift);
            assert(bit == pow2(shift as nat));
            lemma_pow2_adds(shift as nat, 1);
            lemma2_to64();
            assert(block(self.prefix) == 2 * block(prefix));
            if self.wf() {
                let a = self.addr;
                let h = bit;
                assert(a as int % (2 * h as int) == 0);
                let a64 = a as u64;
                let h64 = h as u64;
                let s64 = shift as u64;
                lemma_u64_shl_is_mul(h64, 1);
                lemma_u64_pow2_no_overflow(s64 as nat);
                lemma_u64_shl_is_mul(1, s64);
                assert(h64 << 1u64 == 2 * h);
                assert((a64 | h64) == a64 + h64) by (bit_vector)
                    requires
                        h64 == 1u64 << s64,
                        s64 < 32,
                        a64 % (h64 << 1u64) == 0,
                ;
                assert((a | h) as u64 == a64 | h64);
                assert((a as int + h as int) % (h as int) == 0) by {
                    lemma_mult_of_double(a as int, h as int);
                }
                assert(a as int % (h as int) == 0) by {
                    lemma_mult_of_double(a as int, h as int);
                }
            }
        }
        (low, high)
    }

    /// Python's `address_exclude`: this network minus `other`, which must lie inside it.
    /// The pieces are proper networks inside `self`, apart from each other and from
    /// `other`; together with `other` they cover `self` exactly. There is one piece per
    /// halving, largest first: piece `i` is the half of `other`'s ancestor of prefix
    /// `self.prefix + i` that does not hold `other`.
    pub fn exclude(self, other: Net) -> (r: Vec<Net>)
        requires
            self.wf(),
            other.wf(),
            other.within(self),
        ensures
            exclusion_of(self, other, r@),
            r@.len() == other.prefix - self.prefix,
            forall|i: int| 0 <= i < r@.len() ==> (#[trigger] r@[i]).prefix == self.prefix + 1 + i,
            forall|i: int| 0 <= i < r@.len() ==> (#[trigger] r@[i]).within(ancestor(other, (self.prefix + i) as u8)),
            r@ == exclude_pieces(self, other),
    {
        let mut out: Vec<Net> = Vec::new();
        let mut current = self;
        proof {
            lemma_block_bounds(self.prefix);
        }
        while current != other
            invariant
                self.wf(),
                other.wf(),
                current.wf(),
                other.within(current),
                current.within(self),
                forall|i: int| 0 <= i < out.len() ==> (#[trigger] out@[i]).wf() && out@[i].within(self)
                    && apart(out@[i], current),
                pairwise_apart(out@),
                size_sum(out@) + block(current.prefix) == block(self.prefix),
                forall|a: int| self.has(a) <==> (current.has(a) || #[trigger] covered(out@, a)),
                out@.len() == current.prefix - self.prefix,
                forall|i: int| 0 <= i < out@.len() ==> (#[trigger] out@[i]).prefix == self.prefix + 1 + i,
                forall|i: int| 0 <= i < out@.len() ==> (#[trigger] out@[i]).within(ancestor(other, (self.prefix + i) as u8)),
                out@ + exclude_pieces(current, other) == exclude_pieces(self, other),
            decreases 32 - current.prefix,
        {
            proof {
                lemma_within_prefix(other, current);
                if current.prefix == other.prefix {
                    lemma_same_prefix_equal(other, current);
                }
            }
            let (low, high) = current.split();
            let ghost before = out@;
            proof {
                lemma_split_halves(current, low, high);
                lemma_is_ancestor(current, other);
                assert(current.prefix == self.prefix + before.len());
            }
            proof {
                assert(current.prefix < 32);
                assert(high == (Net { addr: (current.addr + block(low.prefix)) as u32, prefix: low.prefix }));
            }
            if low.contains(other) {
                out.push(high);
                proof {
                    lemma_exclude_step(self, before, current, high, low);
                    assert(exclude_pieces(current, other) == seq![high] + exclude_pieces(low, other));
                    assert(before + (seq![high] + exclude_pieces(low, other)) =~= out@ + exclude_pieces(low, other));
                }
                current = low;
            } else {
                proof {
                    lemma_other_in_half(current, low, high, other);
                }
                out.push(low);
                proof {
                    lemma_exclude_step(self, before, current, low, high);
                    assert(exclude_pieces(current, other) == seq![low] + exclude_pieces(high, other));
                    assert(before + (seq![low] + exclude_pieces(high, other)) =~= out@ + exclude_pieces(high, other));
                }
                current = high;
            }
        }
        assert(out@ + Seq::<Net>::empty() =~= out@);
        out
    }
}

/// Python's `address_exclude` as a function: halve `outer` until the half that holds
/// `inner` is `inner` itself, keeping each other half in turn.
pub open spec fn exclude_pieces(outer: Net, inner: Net) -> Seq<Net>
    decreases 32 - outer.prefix,
{
    if outer.prefix >= 32 || outer == inner {
        Seq::empty()
    } else {
        let p = (outer.prefix + 1) as u8;
        let low = Net { addr: outer.addr, prefix: p };
        let high = Net { addr: (outer.addr + block(p)) as u32, prefix: p };
        if low.contains_spec(inner) {
            seq![high] + exclude_pieces(low, inner)
        } else {
            seq![low] + exclude_pieces(high, inner)
        }
    }
}

/// `exclude_one` as a function: each network holding `e` becomes its pieces without `e`,
/// one inside `e` goes, the others stay.
pub open spec fn exclude_one_spec(nets: Seq<Net>, e: Net) -> Seq<Net>
    decreases nets.len(),
{
    if nets.len() == 0 {
        Seq::empty()
    } else {
        let before = exclude_one_spec(nets.drop_last(), e);
        let n = nets.last();
        if n.contains_spec(e) {
            before + exclude_pieces(n, e)
        } else if e.contains_spec(n) {
            before
        } else {
            before.push(n)
        }
    }
}

/// One pass of `exclude_networks`: the networks of `es` of prefix `p`, from position `k`
/// on, removed in order.
pub open spec fn exclude_at(nets: Seq<Net>, es: Seq<Net>, p: int, k: int) -> Seq<Net>
    decreases es.len() - k,
{
    if k < 0 || k >= es.len() {
        nets
    } else {
        let next = if es[k].prefix == p {
            exclude_one_spec(nets, es[k])
        } else {
            nets
        };
        exclude_at(next, es, p, k + 1)
    }
}

/// `exclude_networks` as a function: the passes for prefixes `p` to 32 in turn.
pub open spec fn exclude_from(nets: Seq<Net>, es: Seq<Net>, p: int) -> Seq<Net>
    decreases 33 - p,
{
    if p < 0 || p > 32 {
        nets
    } else {
        exclude_from(exclude_at(nets, es, p, 0), es, p + 1)
    }
}

/// The two networks share no address.
pub open spec fn apart(x: Net, y: Net) -> bool {
    x.top() < y.addr || y.top() < x.addr
}

/// No two networks of `nets` share an address.
pub open spec fn pairwise_apart(nets: Seq<Net>) -> bool {
    forall|i: int, j: int| 0 <= i < j < nets.len() ==> apart(#[trigger] nets[i], #[trigger] nets[j])
}

/// Some network of `nets` holds address `a`.
pub open spec fn covered(nets: Seq<Net>, a: int) -> bool {
    exists|i: int| 0 <= i < nets.len() && (#[trigger] nets[i]).has(a)
}

/// The total number of addresses of the networks.
pub open spec fn size_sum(nets: Seq<Net>) -> nat
    decreases nets.len(),
{
    if nets.len() == 0 {
        0
    } else {
        size_sum(nets.drop_last()) + block(nets.last().prefix)
    }
}

/// `pieces` is `outer` minus `inner`: proper networks inside `outer`, apart from each other
/// and from `inner`, holding exactly the addresses of `outer` that `inner` lacks, and as
/// many of them.
pub open spec fn exclusion_of(outer: Net, inner: Net, pieces: Seq<Net>) -> bool {
    &&& forall|i: int| 0 <= i < pieces.len() ==> (#[trigger] pieces[i]).wf() && pieces[i].within(outer)
        && apart(pieces[i], inner)
    &&& pairwise_apart(pieces)
    &&& forall|a: int| (outer.has(a) && !inner.has(a)) <==> #[trigger] covered(pieces, a)
    &&& size_sum(pieces) + block(inner.prefix) == block(outer.prefix)
}

proof fn lemma_block_bounds(prefix: u8)
    requires
        prefix <= 32,
    ensures
        1 <= block(prefix) <= 0x1_0000_0000,
{
    lemma_pow2_pos((32 - prefix) as nat);
    lemma2_to64();
    if prefix > 0 {
        lemma_pow2_strictly_increases((32 - prefix) as nat, 32);
    }
}

/// A proper network ends within the 32-bit address space.
pub proof fn lemma_wf_fits(n: Net)
    requires
        n.wf(),
    ensures
        n.addr + block(n.prefix) <= 0x1_0000_0000,
        1 <= block(n.prefix),
{
    lemma_block_bounds(n.prefix);
    let b = block(n.prefix) as int;
    lemma_pow2_adds((32 - n.prefix) as nat, n.prefix as nat);
    lemma2_to64();
    let m = pow2(n.prefix as nat) as int;
    assert(b * m == 0x1_0000_0000);
    lemma_fundamental_div_mod(n.addr as int, b);
    let k = n.addr as int / b;
    assert(n.addr == b * k);
    assert(k < m) by (nonlinear_arith)
        requires
            n.addr == b * k,
            n.addr < 0x1_0000_0000,
            b * m == 0x1_0000_0000,
            b >= 1,
    ;
    assert(b * k + b <= b * m) by (nonlinear_arith)
        requires
            k < m,
            b >= 1,
    ;
}

/// A multiple of `2h` is a multiple of `h`, and so is that plus `h`.
proof fn lemma_mult_of_double(a: int, h: int)
    requires
        h > 0,
        a % (2 * h) == 0,
    ensures
        a % h == 0,
        (a + h) % h == 0,
{
    lemma_fundamental_div_mod(a, 2 * h);
    let k = a / (2 * h);
    assert(a == (2 * k) * h) by (nonlinear_arith)
        requires
            a == (2 * h) * k + 0,
    ;
    lemma_mod_multiples_basic(2 * k, h);
    assert(a + h == (2 * k + 1) * h) by (nonlinear_arith)
        requires
            a == (2 * k) * h,
    ;
    lemma_mod_multiples_basic(2 * k + 1, h);
}

/// A network inside another has at least its prefix length.
proof fn lemma_within_prefix(inner: Net, outer: Net)
    requires
        inner.wf(),
        outer.wf(),
        inner.within(outer),
    ensures
        inner.prefix >= outer.prefix,
{
    if inner.prefix < outer.prefix {
        lemma_pow2_strictly_increases((32 - outer.prefix) as nat, (32 - inner.prefix) as nat);
    }
}

/// Two proper networks of one prefix length, one inside the other, are the same.
proof fn lemma_same_prefix_equal(inner: Net, outer: Net)
    requires
        inner.wf(),
        outer.wf(),
        inner.within(outer),
        inner.prefix == outer.prefix,
    ensures
        inner == outer,
{
}

/// The network of prefix `p` that holds the start of `n`.
pub open spec fn ancestor(n: Net, p: u8) -> Net {
    Net { addr: ((n.addr as int / block(p) as int) * block(p) as int) as u32, prefix: p }
}

/// An aligned start `a` of a block of `b` addresses is the start of the block any of its
/// addresses lies in.
proof fn lemma_aligned_start(x: int, a: int, b: int)
    requires
        b > 0,
        a >= 0,
        a % b == 0,
        a <= x < a + b,
    ensures
        (x / b) * b == a,
{
    lemma_fundamental_div_mod(a, b);
    lemma_fundamental_div_mod(x, b);
    let q = a / b;
    assert(a == b * q);
    assert(x / b == q) by (nonlinear_arith)
        requires
            a == b * q,
            a <= x < a + b,
            x == b * (x / b) + x % b,
            0 <= x % b < b,
            b > 0,
    ;
    assert((x / b) * b == a) by (nonlinear_arith)
        requires
            x / b == q,
            a == b * q,
    ;
}

/// A proper network that holds `o` starts where `o`'s ancestor of its prefix starts.
proof fn lemma_is_ancestor(c: Net, o: Net)
    requires
        c.wf(),
        o.wf(),
        o.within(c),
    ensures
        c == ancestor(o, c.prefix),
{
    lemma_block_bounds(c.prefix);
    lemma_block_bounds(o.prefix);
    lemma_aligned_start(o.addr as int, c.addr as int, block(c.prefix) as int);
}

/// Splitting a proper network gives two proper halves that share nothing and hold,
/// between them, exactly its addresses.
proof fn lemma_split_halves(c: Net, low: Net, high: Net)
    requires
        c.wf(),
        c.prefix < 32,
        low == (Net { addr: c.addr, prefix: (c.prefix + 1) as u8 }),
        high.prefix == c.prefix + 1,
        low.wf() && high.wf() && high.addr == c.addr + block(high.prefix) && block(c.prefix) == 2
            * block(high.prefix),
    ensures
        forall|a: int| c.has(a) <==> (low.has(a) || high.has(a)),
        apart(low, high),
        low.within(c),
        high.within(c),
{
    lemma_block_bounds(high.prefix);
}

/// A proper network inside `c` and smaller than it lies in one of `c`'s halves.
proof fn lemma_other_in_half(c: Net, low: Net, high: Net, o: Net)
    requires
        c.wf(),
        o.wf(),
        o.within(c),
        o.prefix > c.prefix,
        c.prefix < 32,
        low == (Net { addr: c.addr, prefix: (c.prefix + 1) as u8 }),
        high.prefix == c.prefix + 1,
        high.addr == c.addr + block(high.prefix),
        block(c.prefix) == 2 * block(high.prefix),
        !o.within(low),
    ensures
        o.within(high),
{
    let h = block(high.prefix) as int;
    let s = block(o.prefix) as int;
    lemma_block_bounds(o.prefix);
    lemma_block_bounds(high.prefix);
    // h is a multiple of s
    lemma_pow2_adds((32 - o.prefix) as nat, (o.prefix - high.prefix) as nat);
    let m = pow2((o.prefix - high.prefix) as nat) as int;
    lemma_pow2_pos((o.prefix - high.prefix) as nat);
    assert(h == s * m);
    // c.addr is a multiple of 2h, hence of s; so is c.addr + h
    lemma_fundamental_div_mod(c.addr as int, 2 * h);
    let kc = c.addr as int / (2 * h);
    assert(c.addr == kc * (2 * m) * s) by (nonlinear_arith)
        requires
            c.addr == (2 * h) * kc + 0,
            h == s * m,
    ;
    lemma_fundamental_div_mod(o.addr as int, s);
    let ko = o.addr as int / s;
    let km = kc * (2 * m) + m;
    assert(c.addr + h == km * s) by (nonlinear_arith)
        requires
            c.addr == kc * (2 * m) * s,
            h == s * m,
            km == kc * (2 * m) + m,
    ;
    assert(o.addr == s * ko);
    if o.addr < c.addr + h {
        assert(ko < km) by (nonlinear_arith)
            requires
                o.addr == s * ko,
                c.addr + h == km * s,
                o.addr < c.addr + h,
                s >= 1,
        ;
        assert(s * ko + s <= km * s) by (nonlinear_arith)
            requires
                ko < km,
                s >= 1,
        ;
        assert(o.within(low));
    }
}

/// One step of `exclude`: handing one half of the current network to the pieces and
/// keeping the other keeps the pieces proper, apart, counted, and covering.
proof fn lemma_exclude_step(outer: Net, before: Seq<Net>, c: Net, pushed: Net, kept: Net)
    requires
        c.wf(),
        c.within(outer),
        forall|i: int| 0 <= i < before.len() ==> (#[trigger] before[i]).wf() && before[i].within(outer)
            && apart(before[i], c),
        pairwise_apart(before),
        size_sum(before) + block(c.prefix) == block(outer.prefix),
        forall|a: int| outer.has(a) <==> (c.has(a) || #[trigger] covered(before, a)),
        pushed.wf(),
        kept.wf(),
        pushed.within(c),
        kept.within(c),
        apart(pushed, kept),
        block(c.prefix) == block(pushed.prefix) + block(kept.prefix),
        forall|a: int| c.has(a) <==> (pushed.has(a) || kept.has(a)),
    ensures
        ({
            let after = before.push(pushed);
            &&& forall|i: int| 0 <= i < after.len() ==> (#[trigger] after[i]).wf() && after[i].within(outer)
                && apart(after[i], kept)
            &&& pairwise_apart(after)
            &&& size_sum(after) + block(kept.prefix) == block(outer.prefix)
            &&& forall|a: int| outer.has(a) <==> (kept.has(a) || #[trigger] covered(after, a))
        }),
{
    let after = before.push(pushed);
    assert(after.drop_last() == before);
    assert forall|i: int| 0 <= i < after.len() implies (#[trigger] after[i]).wf() && after[i].within(outer)
        && apart(after[i], kept) by {
        if i < before.len() {
            assert(after[i] == before[i]);
        }
    }
    assert forall|i: int, j: int| 0 <= i < j < after.len() implies apart(
        #[trigger] after[i],
        #[trigger] after[j],
    ) by {
        if j == before.len() {
            assert(after[i] == before[i]);
            assert(apart(before[i], c));
        } else {
            assert(after[i] == before[i] && after[j] == before[j]);
        }
    }
    assert forall|a: int| outer.has(a) <==> (kept.has(a) || #[trigger] covered(after, a)) by {
        if covered(before, a) {
            let i = choose|i: int| 0 <= i < before.len() && (#[trigger] before[i]).has(a);
            assert(after[i] == before[i]);
        }
        if pushed.has(a) {
            assert(after[before.len() as int] == pushed);
        }
        if covered(after, a) {
            let i = choose|i: int| 0 <= i < after.len() && (#[trigger] after[i]).has(a);
            if i < before.len() {
                assert(after[i] == before[i]);
                assert(covered(before, a));
            } else {
                assert(pushed.has(a));
            }
        }
    }
}


/// The addresses of a concatenation are counted part by part.
pub proof fn lemma_size_sum_concat(s: Seq<Net>, t: Seq<Net>)
    ensures
        size_sum(s + t) == size_sum(s) + size_sum(t),
    decreases t.len(),
{
    if t.len() == 0 {
        assert(s + t == s);
    } else {
        lemma_size_sum_concat(s, t.drop_last());
        assert((s + t).drop_last() == s + t.drop_last());
    }
}

/// Covering by a concatenation is covering by either part.
proof fn lemma_covered_concat(s: Seq<Net>, t: Seq<Net>)
    ensures
        forall|a: int| #[trigger] covered(s + t, a) <==> (covered(s, a) || covered(t, a)),
{
    assert forall|a: int| #[trigger] covered(s + t, a) <==> (covered(s, a) || covered(t, a)) by {
        let st = s + t;
        if covered(st, a) {
            let i = choose|i: int| 0 <= i < st.len() && (#[trigger] st[i]).has(a);
            if i < s.len() {
                assert(st[i] == s[i]);
            } else {
                assert(st[i] == t[i - s.len()]);
            }
        }
        if covered(s, a) {
            let i = choose|i: int| 0 <= i < s.len() && (#[trigger] s[i]).has(a);
            assert(st[i] == s[i]);
        }
        if covered(t, a) {
            let i = choose|i: int| 0 <= i < t.len() && (#[trigger] t[i]).has(a);
            assert(st[s.len() + i] == t[i]);
        }
    }
}

/// Two proper networks are nested or share no address.
proof fn lemma_nested_or_apart(x: Net, y: Net)
    requires
        x.wf(),
        y.wf(),
    ensures
        x.within(y) || y.within(x) || apart(x, y),
{
    if x.prefix >= y.prefix {
        lemma_nested_or_apart_ordered(x, y);
    } else {
        lemma_nested_or_apart_ordered(y, x);
    }
}

proof fn lemma_nested_or_apart_ordered(x: Net, y: Net)
    requires
        x.wf(),
        y.wf(),
        x.prefix >= y.prefix,
    ensures
        x.within(y) || apart(x, y),
{
    let b = block(x.prefix) as int;
    let bb = block(y.prefix) as int;
    lemma_block_bounds(x.prefix);
    lemma_block_bounds(y.prefix);
    lemma_pow2_adds((32 - x.prefix) as nat, (x.prefix - y.prefix) as nat);
    let m = pow2((x.prefix - y.prefix) as nat) as int;
    lemma_pow2_pos((x.prefix - y.prefix) as nat);
    assert(bb == b * m);
    lemma_fundamental_div_mod(x.addr as int, b);
    lemma_fundamental_div_mod(y.addr as int, bb);
    let kx = x.addr as int / b;
    let ky = y.addr as int / bb;
    let kt = ky * m + m;
    assert(y.addr == (ky * m) * b) by (nonlinear_arith)
        requires
            y.addr == bb * ky + 0,
            bb == b * m,
    ;
    assert(y.addr + bb == kt * b) by (nonlinear_arith)
        requires
            y.addr == (ky * m) * b,
            bb == b * m,
            kt == ky * m + m,
    ;
    assert(x.addr == b * kx);
    if !apart(x, y) {
        if x.addr < y.addr {
            // y.addr would fall strictly inside x, between two multiples of b
            assert(kx < ky * m) by (nonlinear_arith)
                requires
                    x.addr == b * kx,
                    y.addr == (ky * m) * b,
                    x.addr < y.addr,
                    b >= 1,
            ;
            assert(b * kx + b <= (ky * m) * b) by (nonlinear_arith)
                requires
                    kx < ky * m,
                    b >= 1,
            ;
        } else {
            assert(kx < kt) by (nonlinear_arith)
                requires
                    x.addr == b * kx,
                    y.addr + bb == kt * b,
                    x.addr < y.addr + bb,
                    b >= 1,
            ;
            assert(b * kx + b <= kt * b) by (nonlinear_arith)
                requires
                    kx < kt,
                    b >= 1,
            ;
        }
    }
}

/// Networks inside two networks that share no address share none either.
proof fn lemma_within_apart(x: Net, y: Net, outer_x: Net, outer_y: Net)
    requires
        x.within(outer_x),
        y.within(outer_y),
        apart(outer_x, outer_y),
    ensures
        apart(x, y),
{
}

/// Removes the addresses of `e` from the networks: a network holding `e` is replaced by
/// what is left of it, one inside `e` is dropped, and the others stay.
pub fn exclude_one(nets: &Vec<Net>, e: Net) -> (r: Vec<Net>)
    requires
        forall|i: int| 0 <= i < nets.len() ==> (#[trigger] nets@[i]).wf(),
        e.wf(),
    ensures
        forall|i: int| 0 <= i < r.len() ==> (#[trigger] r@[i]).wf(),
        forall|a: int| #[trigger] covered(r@, a) <==> (covered(nets@, a) && !e.has(a)),
        size_sum(r@) <= size_sum(nets@),
        pairwise_apart(nets@) ==> pairwise_apart(r@),
        r@ == exclude_one_spec(nets@, e),
{
    let mut out: Vec<Net> = Vec::new();
    let ghost mut src: Seq<int> = Seq::empty();
    for i in 0..nets.len()
        invariant
            e.wf(),
            forall|j: int| 0 <= j < nets.len() ==> (#[trigger] nets@[j]).wf(),
            forall|j: int| 0 <= j < out.len() ==> (#[trigger] out@[j]).wf(),
            src.len() == out.len(),
            forall|j: int| 0 <= j < out.len() ==> 0 <= #[trigger] src[j] < i && out@[j].within(nets@[src[j]]),
            pairwise_apart(nets@) ==> pairwise_apart(out@),
            forall|a: int| #[trigger] covered(out@, a) <==> (covered(nets@.take(i as int), a) && !e.has(a)),
            size_sum(out@) <= size_sum(nets@.take(i as int)),
            out@ == exclude_one_spec(nets@.take(i as int), e),
    {
        let n = nets[i];
        let ghost before = out@;
        let ghost one = seq![n];
        proof {
            assert(nets@.take(i + 1) == nets@.take(i as int) + one);
            assert(nets@.take(i + 1).drop_last() == nets@.take(i as int));
            assert(nets@.take(i + 1).last() == n);
            assert(exclude_one_spec(nets@.take(i + 1), e) == (if n.contains_spec(e) {
                exclude_one_spec(nets@.take(i as int), e) + exclude_pieces(n, e)
            } else if e.contains_spec(n) {
                exclude_one_spec(nets@.take(i as int), e)
            } else {
                exclude_one_spec(nets@.take(i as int), e).push(n)
            }));
            assert(size_sum(nets@.take(i + 1)) == size_sum(nets@.take(i as int)) + block(n.prefix));
            assert(one.drop_last() == Seq::<Net>::empty());
            assert(size_sum(one.drop_last()) == 0);
            assert(size_sum(one) == block(n.prefix));
            lemma_covered_concat(nets@.take(i as int), one);
            assert forall|a: int| covered(one, a) <==> n.has(a) by {
                if n.has(a) {
                    assert(one[0] == n);
                }
            }
        }
        if n.contains(e) {
            let mut pieces = n.exclude(e);
            let ghost ps = pieces@;
            out.append(&mut pieces);
            proof {
                lemma_covered_concat(before, ps);
                lemma_size_sum_concat(before, ps);
                assert forall|j: int| 0 <= j < out.len() implies (#[trigger] out@[j]).wf() by {
                    if j >= before.len() {
                        assert(out@[j] == ps[j - before.len()]);
                    }
                }
                if pairwise_apart(nets@) {
                    assert forall|j1: int, j2: int| 0 <= j1 < j2 < out@.len() implies apart(
                        #[trigger] out@[j1],
                        #[trigger] out@[j2],
                    ) by {
                        if j2 < before.len() {
                            assert(out@[j1] == before[j1] && out@[j2] == before[j2]);
                        } else if j1 >= before.len() {
                            assert(out@[j1] == ps[j1 - before.len()] && out@[j2] == ps[j2 - before.len()]);
                        } else {
                            assert(out@[j1] == before[j1]);
                            assert(out@[j2] == ps[j2 - before.len()]);
                            let m = src[j1];
                            lemma_within_apart(out@[j1], out@[j2], nets@[m], nets@[i as int]);
                        }
                    }
                }
                let old_src = src;
                src = src + Seq::new(ps.len(), |_k: int| i as int);
                assert forall|j: int| 0 <= j < out.len() implies 0 <= #[trigger] src[j] < i + 1 && out@[j].within(
                    nets@[src[j]],
                ) by {
                    if j >= before.len() {
                        assert(out@[j] == ps[j - before.len()]);
                    } else {
                        assert(out@[j] == before[j] && src[j] == old_src[j]);
                    }
                }
            }
        } else if n.overlaps(e) {
            proof {
                assert(n.within(e));
            }
        } else {
            out.push(n);
            proof {
                lemma_nested_or_apart(n, e);
                assert(out@ == before + one);
                lemma_covered_concat(before, one);
                lemma_size_sum_concat(before, one);
                if pairwise_apart(nets@) {
                    assert forall|j1: int, j2: int| 0 <= j1 < j2 < out@.len() implies apart(
                        #[trigger] out@[j1],
                        #[trigger] out@[j2],
                    ) by {
                        if j2 < before.len() {
                            assert(out@[j1] == before[j1] && out@[j2] == before[j2]);
                        } else {
                            assert(out@[j1] == before[j1]);
                            assert(out@[j2] == n);
                            let m = src[j1];
                            lemma_within_apart(out@[j1], n, nets@[m], nets@[i as int]);
                        }
                    }
                }
                let old_src = src;
                src = src.push(i as int);
                assert forall|j: int| 0 <= j < out.len() implies 0 <= #[trigger] src[j] < i + 1 && out@[j].within(
                    nets@[src[j]],
                ) by {
                    if j < before.len() {
                        assert(out@[j] == before[j] && src[j] == old_src[j]);
                    }
                }
            }
        }
    }
    proof {
        assert(nets@.take(nets.len() as int) == nets@);
    }
    out
}

/// Some network of `es` of prefix below `p`, or of prefix `p` and position below `k`,
/// holds `a`: the exclusions made so far.
pub open spec fn excluded_so_far(es: Seq<Net>, a: int, p: int, k: int) -> bool {
    exists|j: int|
        0 <= j < es.len() && (es[j].prefix < p || (es[j].prefix == p && j < k)) && (#[trigger] es[j]).has(a)
}

/// Faker's `_exclude_ipv4_networks`: the networks' addresses minus those of every network
/// in `to_exclude`, taken from the shortest prefix to the longest.
pub fn exclude_networks(networks: Vec<Net>, to_exclude: &Vec<Net>) -> (r: Vec<Net>)
    requires
        forall|i: int| 0 <= i < networks.len() ==> (#[trigger] networks@[i]).wf(),
        forall|i: int| 0 <= i < to_exclude.len() ==> (#[trigger] to_exclude@[i]).wf(),
    ensures
        forall|i: int| 0 <= i < r.len() ==> (#[trigger] r@[i]).wf(),
        forall|a: int| #[trigger] covered(r@, a) <==> (covered(networks@, a) && !covered(to_exclude@, a)),
        size_sum(r@) <= size_sum(networks@),
        pairwise_apart(networks@) ==> pairwise_apart(r@),
        r@ == exclude_from(networks@, to_exclude@, 0),
{
    let ghost start = networks@;
    let mut nets = networks;
    let mut p: u8 = 0;
    while p <= 32
        invariant
            p <= 33,
            forall|i: int| 0 <= i < to_exclude.len() ==> (#[trigger] to_exclude@[i]).wf(),
            forall|i: int| 0 <= i < nets.len() ==> (#[trigger] nets@[i]).wf(),
            forall|a: int| #[trigger] covered(nets@, a) <==> (covered(start, a) && !excluded_so_far(
                to_exclude@,
                a,
                p as int,
                0,
            )),
            size_sum(nets@) <= size_sum(start),
            pairwise_apart(start) ==> pairwise_apart(nets@),
            exclude_from(nets@, to_exclude@, p as int) == exclude_from(start, to_exclude@, 0),
        decreases 33 - p,
    {
        proof {
            assert(exclude_from(nets@, to_exclude@, p as int) == exclude_from(
                exclude_at(nets@, to_exclude@, p as int, 0),
                to_exclude@,
                p + 1,
            ));
        }
        for k in 0..to_exclude.len()
            invariant
                p <= 32,
                forall|i: int| 0 <= i < to_exclude.len() ==> (#[trigger] to_exclude@[i]).wf(),
                forall|i: int| 0 <= i < nets.len() ==> (#[trigger] nets@[i]).wf(),
                forall|a: int| #[trigger] covered(nets@, a) <==> (covered(start, a) && !excluded_so_far(
                    to_exclude@,
                    a,
                    p as int,
                    k as int,
                )),
                size_sum(nets@) <= size_sum(start),
                pairwise_apart(start) ==> pairwise_apart(nets@),
                exclude_from(exclude_at(nets@, to_exclude@, p as int, k as int), to_exclude@, p + 1) == exclude_from(
                    start,
                    to_exclude@,
                    0,
                ),
        {
            let e = to_exclude[k];
            let ghost before = nets@;
            proof {
                assert(to_exclude@[k as int] == e);
                assert(exclude_at(before, to_exclude@, p as int, k as int) == exclude_at(
                    if e.prefix == p {
                        exclude_one_spec(before, e)
                    } else {
                        before
                    },
                    to_exclude@,
                    p as int,
                    k + 1,
                ));
            }
            if e.prefix == p {
                nets = exclude_one(&nets, e);
                proof {
                    assert forall|a: int| excluded_so_far(to_exclude@, a, p as int, k + 1) <==> (
                    excluded_so_far(to_exclude@, a, p as int, k as int) || e.has(a)) by {
                        if e.has(a) {
                            assert(to_exclude@[k as int] == e);
                        }
                    }
                }
            } else {
                proof {
                    assert forall|a: int| excluded_so_far(to_exclude@, a, p as int, k + 1) ==
                    excluded_so_far(to_exclude@, a, p as int, k as int) by {
                        if excluded_so_far(to_exclude@, a, p as int, k + 1) {
                            let j = choose|j: int|
                                0 <= j < to_exclude@.len() && (to_exclude@[j].prefix < p || (
                                to_exclude@[j].prefix == p && j < k + 1)) && (#[trigger] to_exclude@[j]).has(a);
                            assert(to_exclude@[k as int] == e);
                            assert(to_exclude@[j].prefix < p || (to_exclude@[j].prefix == p && j < k));
                        }
                    }
                }
            }
        }
        proof {
            assert forall|a: int| excluded_so_far(to_exclude@, a, p + 1, 0) == excluded_so_far(
                to_exclude@,
                a,
                p as int,
                to_exclude.len() as int,
            ) by {
                if excluded_so_far(to_exclude@, a, p + 1, 0) {
                    let j = choose|j: int|
                        0 <= j < to_exclude@.len() && (to_exclude@[j].prefix < p + 1 || (
                        to_exclude@[j].prefix == p + 1 && j < 0)) && (#[trigger] to_exclude@[j]).has(a);
                }
            }
        }
        proof {
            assert(exclude_at(nets@, to_exclude@, p as int, to_exclude.len() as int) == nets@);
        }
        p = p + 1;
    }
    proof {
        assert(exclude_from(nets@, to_exclude@, p as int) == nets@);
    }
    proof {
        assert forall|a: int| excluded_so_far(to_exclude@, a, 33, 0) == covered(to_exclude@, a) by {
            if covered(to_exclude@, a) {
                let j = choose|j: int| 0 <= j < to_exclude@.len() && (#[trigger] to_exclude@[j]).has(a);
                assert(to_exclude@[j].wf());
            }
        }
    }
    nets
}

/// Networks plus running address counts, so one draw picks a uniformly random address.
#[derive(Debug)]
pub struct Pool {
    pub nets: Vec<Net>,
    pub cum: Vec<u64>,
}

impl Pool {
    /// The networks are proper and the counts are their running totals.
    pub open spec fn wf(&self) -> bool {
        &&& self.nets.len() == self.cum.len()
        &&& forall|i: int| 0 <= i < self.nets.len() ==> (#[trigger] self.nets@[i]).wf()
        &&& forall|i: int| 0 <= i < self.cum.len() ==> #[trigger] self.cum@[i] == size_sum(self.nets@.take(i + 1))
    }

    pub fn new(nets: Vec<Net>) -> (r: Pool)
        requires
            forall|i: int| 0 <= i < nets.len() ==> (#[trigger] nets@[i]).wf(),
            size_sum(nets@) <= u64::MAX,
        ensures
            r.wf(),
            r.nets@ == nets@,
    {
        let mut cum: Vec<u64> = Vec::new();
        let mut total: u64 = 0;
        for i in 0..nets.len()
            invariant
                size_sum(nets@) <= u64::MAX,
                forall|j: int| 0 <= j < nets.len() ==> (#[trigger] nets@[j]).wf(),
                cum.len() == i,
                total == size_sum(nets@.take(i as int)),
                forall|j: int| 0 <= j < i ==> #[trigger] cum@[j] == size_sum(nets@.take(j + 1)),
        {
            proof {
                assert(nets@.take(i + 1).drop_last() == nets@.take(i as int));
                lemma_size_sum_concat(nets@.take(i + 1), nets@.skip(i + 1));
                assert(nets@.take(i + 1) + nets@.skip(i + 1) == nets@);
            }
            total = total + nets[i].size();
            cum.push(total);
        }
        Pool { nets, cum }
    }

    /// The number of addresses in the pool.
    pub fn total(&self) -> (r: u64)
        requires
            self.wf(),
        ensures
            r == size_sum(self.nets@),
    {
        if self.cum.len() == 0 {
            0
        } else {
            assert(self.nets@.take(self.cum.len() as int) == self.nets@);
            self.cum[self.cum.len() - 1]
        }
    }
}

/// A list of networks holds at most 2^32 addresses per network.
proof fn lemma_size_sum_bound(nets: Seq<Net>)
    requires
        forall|i: int| 0 <= i < nets.len() ==> (#[trigger] nets[i]).prefix <= 32,
    ensures
        size_sum(nets) <= nets.len() * 0x1_0000_0000,
    decreases nets.len(),
{
    if nets.len() > 0 {
        let init = nets.drop_last();
        assert forall|i: int| 0 <= i < init.len() implies (#[trigger] init[i]).prefix <= 32 by {
            assert(init[i] == nets[i]);
        }
        lemma_size_sum_bound(init);
        lemma_block_bounds(nets.last().prefix);
    }
}

/// Faker's IPv4 network classes a, b and c.
pub open spec fn network_classes_spec() -> Seq<(char, Net)> {
    seq![
        ('a', Net { addr: 0x00000000, prefix: 1 }),
        ('b', Net { addr: 0x80000000, prefix: 2 }),
        ('c', Net { addr: 0xC0000000, prefix: 3 }),
    ]
}

/// The private networks (10/8, 172.16/12, 192.168/16).
pub open spec fn private_networks_spec() -> Seq<Net> {
    seq![
        Net { addr: 0x0A000000, prefix: 8 },
        Net { addr: 0xAC100000, prefix: 12 },
        Net { addr: 0xC0A80000, prefix: 16 },
    ]
}

/// The reserved networks Faker never draws from.
pub open spec fn excluded_networks_spec() -> Seq<Net> {
    seq![
        Net { addr: 0x00000000, prefix: 8 },
        Net { addr: 0x64400000, prefix: 10 },
        Net { addr: 0x7F000000, prefix: 8 },
        Net { addr: 0xA9FE0000, prefix: 16 },
        Net { addr: 0xC0000000, prefix: 24 },
        Net { addr: 0xC0000200, prefix: 24 },
        Net { addr: 0xC01FC400, prefix: 24 },
        Net { addr: 0xC034C100, prefix: 24 },
        Net { addr: 0xC0586300, prefix: 24 },
        Net { addr: 0xC0AF3000, prefix: 24 },
        Net { addr: 0xC6120000, prefix: 15 },
        Net { addr: 0xC6336400, prefix: 24 },
        Net { addr: 0xCB007100, prefix: 24 },
        Net { addr: 0xE0000000, prefix: 4 },
        Net { addr: 0xF0000000, prefix: 4 },
        Net { addr: 0xFFFFFFFF, prefix: 32 },
    ]
}

/// Faker's IPv4 network classes a, b and c.
pub fn network_classes() -> (r: Vec<(char, Net)>)
    ensures
        r@ == network_classes_spec(),
{
    let mut v: Vec<(char, Net)> = Vec::new();
    v.push(('a', Net::new(0, 0, 0, 0, 1)));
    v.push(('b', Net::new(128, 0, 0, 0, 2)));
    v.push(('c', Net::new(192, 0, 0, 0, 3)));
    v
}

/// The private networks (10/8, 172.16/12, 192.168/16).
pub fn private_networks() -> (r: Vec<Net>)
    ensures
        r@ == private_networks_spec(),
{
    let mut v: Vec<Net> = Vec::new();
    v.push(Net::new(10, 0, 0, 0, 8));
    v.push(Net::new(172, 16, 0, 0, 12));
    v.push(Net::new(192, 168, 0, 0, 16));
    v
}

/// The reserved networks Faker never draws from.
pub fn excluded_networks() -> (r: Vec<Net>)
    ensures
        r@ == excluded_networks_spec(),
{
    let mut v: Vec<Net> = Vec::new();
    v.push(Net::new(0, 0, 0, 0, 8));
    v.push(Net::new(100, 64, 0, 0, 10));
    v.push(Net::new(127, 0, 0, 0, 8));
    v.push(Net::new(169, 254, 0, 0, 16));
    v.push(Net::new(192, 0, 0, 0, 24));
    v.push(Net::new(192, 0, 2, 0, 24));
    v.push(Net::new(192, 31, 196, 0, 24));
    v.push(Net::new(192, 52, 193, 0, 24));
    v.push(Net::new(192, 88, 99, 0, 24));
    v.push(Net::new(192, 175, 48, 0, 24));
    v.push(Net::new(198, 18, 0, 0, 15));
    v.push(Net::new(198, 51, 100, 0, 24));
    v.push(Net::new(203, 0, 113, 0, 24));
    v.push(Net::new(224, 0, 0, 0, 4));
    v.push(Net::new(240, 0, 0, 0, 4));
    v.push(Net::new(255, 255, 255, 255, 32));
    v
}

/// All the fixed networks are proper.
#[verifier::spinoff_prover]
proof fn lemma_constants_wf()
    ensures
        forall|i: int| 0 <= i < 3 ==> (#[trigger] network_classes_spec()[i]).1.wf(),
        forall|i: int| 0 <= i < 3 ==> (#[trigger] private_networks_spec()[i]).wf(),
        forall|i: int| 0 <= i < 16 ==> (#[trigger] excluded_networks_spec()[i]).wf(),
        (Net { addr: 0, prefix: 0 }).wf(),
        pairwise_apart(private_networks_spec()),
{
    lemma2_to64();
    assert(block(0) == 0x100000000);
    let z = Net { addr: 0, prefix: 0 };
    assert(z.addr == 0);
    assert(block(z.prefix) == 0x100000000);
    assert(0int % 0x100000000int == 0);
    assert(z.wf());
    assert(block(1) == 0x80000000);
    assert(block(2) == 0x40000000);
    assert(block(3) == 0x20000000);
    assert(block(4) == 0x10000000);
    assert(block(8) == 0x1000000);
    assert(block(10) == 0x400000);
    assert(block(12) == 0x100000);
    assert(block(15) == 0x20000);
    assert(block(16) == 0x10000);
    assert(block(24) == 0x100);
    assert(block(32) == 0x1);
    assert(network_classes_spec()[0].1 == Net { addr: 0, prefix: 1 });
    assert(network_classes_spec()[0].1.wf());
    assert(network_classes_spec()[1].1.wf());
    assert(network_classes_spec()[2].1.wf());
    assert(private_networks_spec()[0].wf());
    assert(private_networks_spec()[1].wf());
    assert(private_networks_spec()[2].wf());
    assert(apart(private_networks_spec()[0], private_networks_spec()[1]));
    assert(apart(private_networks_spec()[0], private_networks_spec()[2]));
    assert(apart(private_networks_spec()[1], private_networks_spec()[2]));
    assert(excluded_networks_spec()[0].wf());
    assert(excluded_networks_spec()[1].wf());
    assert(excluded_networks_spec()[2].wf());
    assert(excluded_networks_spec()[3].wf());
    assert(excluded_networks_spec()[4].wf());
    assert(excluded_networks_spec()[5].wf());
    assert(excluded_networks_spec()[6].wf());
    assert(excluded_networks_spec()[7].wf());
    assert(excluded_networks_spec()[8].wf());
    assert(excluded_networks_spec()[9].wf());
    assert(excluded_networks_spec()[10].wf());
    assert(excluded_networks_spec()[11].wf());
    assert(excluded_networks_spec()[12].wf());
    assert(excluded_networks_spec()[13].wf());
    assert(excluded_networks_spec()[14].wf());
    assert(excluded_networks_spec()[15].wf());
}

/// Which addresses a pool holds.
#[derive(Debug, Clone, Copy)]
pub enum PoolKind {
    All,
    Private,
    Public,
}

/// The network of class index `class` (1–3 for a–c); the whole space for 0.
pub open spec fn class_net(class: usize) -> Net {
    if class == 0 {
        Net { addr: 0, prefix: 0 }
    } else {
        network_classes_spec()[class - 1].1
    }
}

/// The network private and public pools are taken from: class `class`, or class a for 0.
pub open spec fn supernet(class: usize) -> Net {
    if class == 0 {
        network_classes_spec()[0].1
    } else {
        network_classes_spec()[class - 1].1
    }
}

/// Whether the proper networks `x` and `y` are nested.
pub open spec fn nested(x: Net, y: Net) -> bool {
    x.within(y) || y.within(x)
}

/// The addresses of the pool of kind `kind` and class index `class`: none reserved; for
/// `All` inside the class, for `Private` inside a private network that meets the class,
/// for `Public` inside the class and no private network.
pub open spec fn pool_has(kind: PoolKind, class: usize, a: int) -> bool {
    match kind {
        PoolKind::All => class_net(class).has(a) && !covered(excluded_networks_spec(), a),
        PoolKind::Private => (exists|i: int|
            0 <= i < 3 && nested(private_networks_spec()[i], supernet(class)) && (#[trigger] private_networks_spec()[i]).has(a))
            && !covered(excluded_networks_spec(), a),
        PoolKind::Public => supernet(class).has(a) && !covered(private_networks_spec(), a) && !covered(
            excluded_networks_spec(),
            a,
        ),
    }
}

/// The networks of `nets` that are nested with `sup` (one inside the other), in order.
pub open spec fn nested_with(nets: Seq<Net>, sup: Net) -> Seq<Net>
    decreases nets.len(),
{
    if nets.len() == 0 {
        Seq::empty()
    } else {
        let before = nested_with(nets.drop_last(), sup);
        let n = nets.last();
        if n.contains_spec(sup) || sup.contains_spec(n) {
            before.push(n)
        } else {
            before
        }
    }
}

/// The networks of the pool of kind `kind` and class index `class`: the starting networks
/// (the class, the private networks nested with it, or its supernet) with the reserved
/// (and, for `Public`, the private) networks excluded.
pub open spec fn pool_nets(kind: PoolKind, class: usize) -> Seq<Net> {
    match kind {
        PoolKind::All => exclude_from(seq![class_net(class)], excluded_networks_spec(), 0),
        PoolKind::Private => exclude_from(
            nested_with(private_networks_spec(), supernet(class)),
            excluded_networks_spec(),
            0,
        ),
        PoolKind::Public => exclude_from(
            seq![supernet(class)],
            private_networks_spec() + excluded_networks_spec(),
            0,
        ),
    }
}

/// The address pool of a kind and class index (0 for any class, 1–3 for a–c).
pub fn pool(kind: PoolKind, class: usize) -> (r: Pool)
    requires
        class <= 3,
    ensures
        r.wf(),
        r.nets@ == pool_nets(kind, class),
        pairwise_apart(r.nets@),
        forall|a: int| #[trigger] covered(r.nets@, a) <==> pool_has(kind, class, a),
{
    proof {
        lemma_constants_wf();
    }
    let classes = network_classes();
    let excluded = excluded_networks();
    let nets = match kind {
        PoolKind::All => {
            let net = if class == 0 {
                Net::new(0, 0, 0, 0, 0)
            } else {
                classes[class - 1].1
            };
            let mut v: Vec<Net> = Vec::new();
            v.push(net);
            proof {
                assert forall|a: int| covered(v@, a) <==> net.has(a) by {
                    if net.has(a) {
                        assert(v@[0] == net);
                    }
                }
            }
            proof {
                assert(v@.drop_last() == Seq::<Net>::empty());
                lemma_block_bounds(net.prefix);
                assert(size_sum(v@.drop_last()) == 0);
                assert(size_sum(v@) <= 0x1_0000_0000);
            }
            proof {
                assert(v@ =~= seq![class_net(class)]);
            }
            exclude_networks(v, &excluded)
        },
        PoolKind::Private => {
            let sup = if class == 0 {
                classes[0].1
            } else {
                classes[class - 1].1
            };
            let private = private_networks();
            let mut v: Vec<Net> = Vec::new();
            let ghost mut src: Seq<int> = Seq::empty();
            for i in 0..private.len()
                invariant
                    private@ == private_networks_spec(),
                    pairwise_apart(private_networks_spec()),
                    src.len() == v.len(),
                    forall|k: int| 0 <= k < v.len() ==> 0 <= #[trigger] src[k] < i && v@[k] == private@[src[k]],
                    forall|k1: int, k2: int| 0 <= k1 < k2 < v.len() ==> #[trigger] src[k1] < #[trigger] src[k2],
                    pairwise_apart(v@),
                    v@ == nested_with(private@.take(i as int), sup),
                    sup == supernet(class),
                    sup.wf(),
                    forall|j: int| 0 <= j < 3 ==> (#[trigger] private_networks_spec()[j]).wf(),
                    forall|j: int| 0 <= j < v.len() ==> (#[trigger] v@[j]).wf(),
                    v.len() <= i,
                    forall|a: int| #[trigger] covered(v@, a) <==> exists|j: int|
                        0 <= j < i && nested(private@[j], sup) && (#[trigger] private@[j]).has(a),
            {
                let n = private[i];
                let ghost before = v@;
                let ghost old_src = src;
                proof {
                    assert(private@.take(i + 1).drop_last() == private@.take(i as int));
                    assert(private@.take(i + 1).last() == n);
                }
                if n.overlaps(sup) {
                    v.push(n);
                    proof {
                        src = src.push(i as int);
                        assert forall|k: int| 0 <= k < v.len() implies 0 <= #[trigger] src[k] < i + 1 && v@[k]
                            == private@[src[k]] by {
                            if k < before.len() {
                                assert(src[k] == old_src[k] && v@[k] == before[k]);
                            }
                        }
                        assert forall|k1: int, k2: int| 0 <= k1 < k2 < v.len() implies apart(
                            #[trigger] v@[k1],
                            #[trigger] v@[k2],
                        ) by {
                            if k2 < before.len() {
                                assert(v@[k1] == before[k1] && v@[k2] == before[k2]);
                            } else {
                                assert(v@[k1] == private@[src[k1]]);
                                assert(src[k1] < i);
                                assert(apart(private@[src[k1]], private@[i as int]));
                            }
                        }
                        assert forall|k1: int, k2: int| 0 <= k1 < k2 < v.len() implies #[trigger] src[k1]
                            < #[trigger] src[k2] by {
                            if k2 < before.len() {
                                assert(src[k1] == old_src[k1] && src[k2] == old_src[k2]);
                            } else {
                                assert(src[k1] == old_src[k1]);
                            }
                        }
                    }
                }
                proof {
                    assert forall|a: int| #[trigger] covered(v@, a) <==> exists|j: int|
                        0 <= j < i + 1 && nested(private@[j], sup) && (#[trigger] private@[j]).has(a) by {
                        if covered(v@, a) {
                            let k = choose|k: int| 0 <= k < v@.len() && (#[trigger] v@[k]).has(a);
                            if k < before.len() {
                                assert(v@[k] == before[k]);
                                assert(covered(before, a));
                            } else {
                                assert(v@[k] == n);
                                assert(private@[i as int] == n);
                            }
                        }
                        if exists|j: int| 0 <= j < i + 1 && nested(private@[j], sup) && (#[trigger] private@[j]).has(a) {
                            let j = choose|j: int| 0 <= j < i + 1 && nested(private@[j], sup) && (#[trigger] private@[j]).has(a);
                            if j < i {
                                assert(covered(before, a));
                                let k = choose|k: int| 0 <= k < before.len() && (#[trigger] before[k]).has(a);
                                assert(v@[k] == before[k]);
                            } else {
                                assert(v@[before.len() as int] == n);
                            }
                        }
                    }
                }
            }
            proof {
                lemma_size_sum_bound(v@);
                assert(size_sum(v@) <= 3 * 0x1_0000_0000);
            }
            proof {
                assert(private@.take(private.len() as int) == private@);
            }
            exclude_networks(v, &excluded)
        },
        PoolKind::Public => {
            let sup = if class == 0 {
                classes[0].1
            } else {
                classes[class - 1].1
            };
            let mut all_excluded = private_networks();
            let ghost private = all_excluded@;
            let mut rest = excluded_networks();
            all_excluded.append(&mut rest);
            proof {
                lemma_covered_concat(private, excluded_networks_spec());
                assert forall|i: int| 0 <= i < all_excluded.len() implies (#[trigger] all_excluded@[i]).wf() by {
                    if i < 3 {
                        assert(all_excluded@[i] == private_networks_spec()[i]);
                    } else {
                        assert(all_excluded@[i] == excluded_networks_spec()[i - 3]);
                    }
                }
            }
            let mut v: Vec<Net> = Vec::new();
            v.push(sup);
            proof {
                assert(v@.drop_last() == Seq::<Net>::empty());
                lemma_block_bounds(sup.prefix);
                assert(size_sum(v@.drop_last()) == 0);
                assert(size_sum(v@) <= 0x1_0000_0000);
                assert forall|a: int| covered(v@, a) <==> sup.has(a) by {
                    if sup.has(a) {
                        assert(v@[0] == sup);
                    }
                }
            }
            proof {
                assert(v@ =~= seq![supernet(class)]);
                assert(all_excluded@ =~= private_networks_spec() + excluded_networks_spec());
            }
            exclude_networks(v, &all_excluded)
        },
    };
    proof {
        lemma2_to64();
    }
    Pool::new(nets)
}


/// The class index Faker's `address_class` names: 1–3 for `a`–`c`, none otherwise.
pub open spec fn class_of(address_class: Option<Seq<char>>) -> Option<usize> {
    match address_class {
        Some(c) => if c == seq!['a'] {
            Some(1usize)
        } else if c == seq!['b'] {
            Some(2usize)
        } else if c == seq!['c'] {
            Some(3usize)
        } else {
            None
        },
        None => None,
    }
}

/// The class index of `address_class` (`a`, `b` or `c`), if it names one.
pub fn class_index(address_class: Option<&str>) -> (r: Option<usize>)
    ensures
        r == class_of(
            match address_class {
                Some(c) => Some(c@),
                None => None,
            },
        ),
{
    match address_class {
        None => None,
        Some(c) => {
            let v = crate::chars::chars_of(c);
            if v.len() != 1 {
                return None;
            }
            assert(c@ == seq![v@[0]]);
            if v[0] == 'a' {
                Some(1)
            } else if v[0] == 'b' {
                Some(2)
            } else if v[0] == 'c' {
                Some(3)
            } else {
                None
            }
        },
    }
}

/// No network of `nets` holds `a` (checked one by one).
pub open spec fn none_has(nets: Seq<Net>, a: int) -> bool
    decreases nets.len(),
{
    nets.len() == 0 || (!nets[0].has(a) && none_has(nets.drop_first(), a))
}

proof fn lemma_none_has(nets: Seq<Net>, a: int)
    requires
        none_has(nets, a),
    ensures
        !covered(nets, a),
    decreases nets.len(),
{
    if nets.len() > 0 {
        lemma_none_has(nets.drop_first(), a);
        if covered(nets, a) {
            let i = choose|i: int| 0 <= i < nets.len() && (#[trigger] nets[i]).has(a);
            if i > 0 {
                assert(nets.drop_first()[i - 1] == nets[i]);
            }
        }
    }
}

/// Every pool holds some address.
pub proof fn lemma_pool_nonempty(kind: PoolKind, class: usize)
    requires
        class <= 3,
    ensures
        exists|a: int| pool_has(kind, class, a),
{
    lemma2_to64();
    assert(block(0) == 0x100000000);
    assert(block(1) == 0x80000000);
    assert(block(2) == 0x40000000);
    assert(block(3) == 0x20000000);
    assert(block(4) == 0x10000000);
    assert(block(8) == 0x1000000);
    assert(block(10) == 0x400000);
    assert(block(12) == 0x100000);
    assert(block(15) == 0x20000);
    assert(block(16) == 0x10000);
    assert(block(24) == 0x100);
    assert(block(32) == 0x1);
    let a1 = 0x0100_0000int;
    let a128 = 0x8000_0000int;
    let a193 = 0xC100_0000int;
    let a10 = 0x0A00_0000int;
    let a172 = 0xAC10_0000int;
    let a192 = 0xC0A8_0000int;
    assert(none_has(excluded_networks_spec(), a1)) by {
        reveal_with_fuel(none_has, 17);
    }
    assert(none_has(excluded_networks_spec(), a128)) by {
        reveal_with_fuel(none_has, 17);
    }
    assert(none_has(excluded_networks_spec(), a193)) by {
        reveal_with_fuel(none_has, 17);
    }
    assert(none_has(excluded_networks_spec(), a10)) by {
        reveal_with_fuel(none_has, 17);
    }
    assert(none_has(excluded_networks_spec(), a172)) by {
        reveal_with_fuel(none_has, 17);
    }
    assert(none_has(excluded_networks_spec(), a192)) by {
        reveal_with_fuel(none_has, 17);
    }
    assert(none_has(private_networks_spec(), a1)) by {
        reveal_with_fuel(none_has, 4);
    }
    assert(none_has(private_networks_spec(), a128)) by {
        reveal_with_fuel(none_has, 4);
    }
    assert(none_has(private_networks_spec(), a193)) by {
        reveal_with_fuel(none_has, 4);
    }
    lemma_none_has(excluded_networks_spec(), a1);
    lemma_none_has(excluded_networks_spec(), a128);
    lemma_none_has(excluded_networks_spec(), a193);
    lemma_none_has(excluded_networks_spec(), a10);
    lemma_none_has(excluded_networks_spec(), a172);
    lemma_none_has(excluded_networks_spec(), a192);
    lemma_none_has(private_networks_spec(), a1);
    lemma_none_has(private_networks_spec(), a128);
    lemma_none_has(private_networks_spec(), a193);
    match kind {
        PoolKind::All => {
            if class == 0 || class == 1 {
                assert(pool_has(kind, class, a1));
            } else if class == 2 {
                assert(pool_has(kind, class, a128));
            } else {
                assert(pool_has(kind, class, a193));
            }
        },
        PoolKind::Private => {
            if class == 0 || class == 1 {
                assert(private_networks_spec()[0].has(a10));
                assert(pool_has(kind, class, a10));
            } else if class == 2 {
                assert(private_networks_spec()[1].has(a172));
                assert(pool_has(kind, class, a172));
            } else {
                assert(private_networks_spec()[2].has(a192));
                assert(pool_has(kind, class, a192));
            }
        },
        PoolKind::Public => {
            if class == 0 || class == 1 {
                assert(pool_has(kind, class, a1));
            } else if class == 2 {
                assert(pool_has(kind, class, a128));
            } else {
                assert(pool_has(kind, class, a193));
            }
        },
    }
}

/// A network list holding some address holds at least one address in all.
pub proof fn lemma_covered_positive(nets: Seq<Net>, a: int)
    requires
        covered(nets, a),
        forall|i: int| 0 <= i < nets.len() ==> (#[trigger] nets[i]).prefix <= 32,
    ensures
        size_sum(nets) >= 1,
{
    let i = choose|i: int| 0 <= i < nets.len() && (#[trigger] nets[i]).has(a);
    lemma_size_sum_concat(nets.take(i), nets.skip(i));
    assert(nets.take(i) + nets.skip(i) == nets);
    let rest = nets.skip(i);
    lemma_size_sum_concat(seq![rest[0]], rest.drop_first());
    assert(seq![rest[0]] + rest.drop_first() == rest);
    assert(seq![rest[0]].drop_last() == Seq::<Net>::empty());
    assert(size_sum(Seq::<Net>::empty()) == 0);
    lemma_block_bounds(rest[0].prefix);
}

/// The running totals of a pool never decrease.
pub proof fn lemma_pool_sorted(p: &Pool)
    requires
        p.wf(),
    ensures
        forall|i: int, j: int| 0 <= i <= j < p.cum.len() ==> p.cum@[i] <= p.cum@[j],
{
    assert forall|i: int, j: int| 0 <= i <= j < p.cum.len() implies p.cum@[i] <= p.cum@[j] by {
        let a = p.nets@.take(i + 1);
        let b = p.nets@.subrange(i + 1, j + 1);
        assert(a + b == p.nets@.take(j + 1));
        lemma_size_sum_concat(a, b);
    }
}

/// The addresses before network `i` of a pool: the running total up to it.
pub proof fn lemma_pool_start(p: &Pool, i: int)
    requires
        p.wf(),
        0 <= i < p.nets.len(),
    ensures
        p.cum@[i] == size_sum(p.nets@.take(i)) + block(p.nets@[i].prefix),
        i > 0 ==> p.cum@[i - 1] == size_sum(p.nets@.take(i)),
{
    assert(p.nets@.take(i + 1).drop_last() == p.nets@.take(i));
}
} // verus!
