//! The generator's source of randomness: a PCG-64 (MCG) state driven through `rand`.
use vstd::prelude::*;
use rand::{RngExt, SeedableRng};
use rand_pcg::Pcg64Mcg;

verus! {

/// The state `rand_pcg::Pcg64Mcg::seed_from_u64(seed)` starts from.
pub uninterp spec fn pcg_seed_state(seed: u64) -> u128;

/// `(value, next state)` of `Pcg64Mcg::random_range(0..=max)` from a `u64` range.
pub uninterp spec fn pcg_draw_u64(state: u128, max: u64) -> (u64, u128);

/// `(value, next state)` of `Pcg64Mcg::random_range(0..=max)` from a `u128` range.
pub uninterp spec fn pcg_draw_u128(state: u128, max: u128) -> (u128, u128);

/// `Pcg64Mcg::seed_from_u64`, read back through `state()` (documented to be odd).
#[verifier::external_body]
fn seed_state(seed: u64) -> (s: u128)
    ensures
        s == pcg_seed_state(seed),
{
    Pcg64Mcg::seed_from_u64(seed).state()
}

/// `rand::make_rng::<Pcg64Mcg>()`, read back through `state()`: an entropy-seeded state.
#[verifier::external_body]
fn entropy_state() -> (s: u128) {
    rand::make_rng::<Pcg64Mcg>().state()
}

/// `Pcg64Mcg::new(state).random_range(0..=max)` over `u64`, with the state afterwards.
#[verifier::external_body]
fn draw_u64(state: u128, max: u64) -> (r: (u64, u128))
    ensures
        r.0 <= max,
        r == pcg_draw_u64(state, max),
{
    let mut rng = Pcg64Mcg::new(state);
    let value: u64 = rng.random_range(0..=max);
    (value, rng.state())
}

/// `Pcg64Mcg::new(state).random_range(0..=max)` over `u128`, with the state afterwards.
#[verifier::external_body]
fn draw_u128(state: u128, max: u128) -> (r: (u128, u128))
    ensures
        r.0 <= max,
        r == pcg_draw_u128(state, max),
{
    let mut rng = Pcg64Mcg::new(state);
    let value: u128 = rng.random_range(0..=max);
    (value, rng.state())
}

/// `(value, next state)` of a uniform draw in `lo..=hi` from `state`: `lo` and the state
/// unchanged when the range is empty, else `lo` plus a draw in `0..=hi - lo`.
pub open spec fn randint_draw(state: u128, lo: i64, hi: i64) -> (i64, u128) {
    if hi <= lo {
        (lo, state)
    } else {
        let (v, next) = pcg_draw_u64(state, (hi - lo) as u64);
        ((lo + v) as i64, next)
    }
}

/// `(value, next state)` of a uniform draw in `lo..=hi` over `u128` from `state`.
pub open spec fn randint_u128_draw(state: u128, lo: u128, hi: u128) -> (u128, u128) {
    if hi <= lo {
        (lo, state)
    } else {
        let (v, next) = pcg_draw_u128(state, (hi - lo) as u128);
        ((lo + v) as u128, next)
    }
}

/// A deterministic random stream: the state of a PCG-64 (MCG) generator.
#[derive(Debug, Clone, Copy)]
pub struct Rng {
    state: u128,
}

impl Rng {
    /// The current state.
    pub closed spec fn state_view(&self) -> u128 {
        self.state
    }

    /// The stream `Pcg64Mcg::seed_from_u64(seed)` produces.
    pub fn seeded(seed: u64) -> (r: Rng)
        ensures
            r.state_view() == pcg_seed_state(seed),
    {
        Rng { state: seed_state(seed) }
    }

    /// A stream seeded from OS entropy.
    pub fn from_entropy() -> (r: Rng) {
        Rng { state: entropy_state() }
    }

    /// Uniform integer in `0..=max`.
    pub fn upto(&mut self, max: u64) -> (r: u64)
        ensures
            r <= max,
            (r, final(self).state_view()) == pcg_draw_u64(old(self).state_view(), max),
    {
        let (value, next) = draw_u64(self.state, max);
        self.state = next;
        value
    }

    /// Uniform integer in `0..=max` over `u128`.
    pub fn upto_u128(&mut self, max: u128) -> (r: u128)
        ensures
            r <= max,
            (r, final(self).state_view()) == pcg_draw_u128(old(self).state_view(), max),
    {
        let (value, next) = draw_u128(self.state, max);
        self.state = next;
        value
    }

    /// Uniform integer in `0..bound`.
    pub fn below(&mut self, bound: u64) -> (r: u64)
        requires
            bound > 0,
        ensures
            r < bound,
            (r, final(self).state_view()) == pcg_draw_u64(old(self).state_view(), (bound - 1) as u64),
    {
        self.upto(bound - 1)
    }

    /// Uniform index in `0..len`. `len` must be non-zero.
    pub fn index(&mut self, len: usize) -> (r: usize)
        requires
            len > 0,
        ensures
            r < len,
            (r as u64, final(self).state_view()) == pcg_draw_u64(old(self).state_view(), (len - 1) as u64),
    {
        let r = self.below(len as u64);
        r as usize
    }

    /// Uniform integer in `lo..=hi`; `lo` when the range is empty.
    pub fn randint(&mut self, lo: i64, hi: i64) -> (r: i64)
        ensures
            hi <= lo ==> r == lo,
            lo < hi ==> lo <= r <= hi,
            (r, final(self).state_view()) == randint_draw(old(self).state_view(), lo, hi),
    {
        if hi <= lo {
            return lo;
        }
        let span = (hi as i128 - lo as i128) as u64;
        let offset = self.upto(span);
        (lo as i128 + offset as i128) as i64
    }

    /// Uniform integer in `lo..=hi` over `u128`; `lo` when the range is empty.
    pub fn randint_u128(&mut self, lo: u128, hi: u128) -> (r: u128)
        ensures
            hi <= lo ==> r == lo,
            lo < hi ==> lo <= r <= hi,
            (r, final(self).state_view()) == randint_u128_draw(old(self).state_view(), lo, hi),
    {
        if hi <= lo {
            return lo;
        }
        let offset = self.upto_u128(hi - lo);
        lo + offset
    }
}

} // verus!
