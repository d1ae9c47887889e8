//! The generator: a random stream bound to one locale's data.
use vstd::prelude::*;
use crate::chars::str_eq;
use crate::en_us::{en_us, en_us_contents};
use crate::error::{Error, Result};
use crate::locale::Locale;
use crate::rng::{pcg_draw_u64, pcg_seed_state, randint_draw, randint_u128_draw, Rng};
use crate::table::{pick_item, Table};
use std::sync::Arc;

verus! {

/// Codes of all compiled-in locales, sorted.
pub fn locale_codes() -> (v: Vec<&'static str>)
    ensures
        v.len() == 1,
        v@[0]@ == "en_US"@,
{
    let mut v: Vec<&'static str> = Vec::new();
    v.push("en_US");
    v
}

/// Looks up a compiled-in locale by its code (e.g. `en_US`).
pub fn find_locale(code: &str) -> (r: Option<Locale>)
    ensures
        r is Some <==> code@ == "en_US"@,
        r matches Some(l) ==> l.code@ == code@ && l.wf() && en_us_contents(l),
{
    if str_eq(code, "en_US") {
        en_us()
    } else {
        None
    }
}

/// Generates fake data for one locale.
///
/// Not thread-safe by itself (`&mut self`), matching Faker, whose generators are not
/// thread-safe either.
#[derive(Debug)]
pub struct Generator {
    pub(crate) rng: Rng,
    pub(crate) locale: Arc<Locale>,
    pub(crate) use_weighting: bool,
}

impl Generator {
    /// Every generator's locale data fits the providers.
    #[verifier::type_invariant]
    pub(crate) open spec fn inv(self) -> bool {
        self.locale.wf()
    }

    /// The locale data this generator draws from.
    pub closed spec fn data(&self) -> Locale {
        *self.locale
    }

    /// Whether weighted tables honor their weights.
    pub closed spec fn weighting(&self) -> bool {
        self.use_weighting
    }

    /// The random stream.
    pub closed spec fn stream(&self) -> Rng {
        self.rng
    }

    /// `other` draws from the same data, with the same weighting, as `self`.
    pub open spec fn same_config(&self, other: &Generator) -> bool {
        &&& other.data() == self.data()
        &&& other.weighting() == self.weighting()
    }

    /// Creates a generator for already-resolved locale data, seeded from OS entropy.
    pub fn for_locale(locale: Locale) -> (g: Generator)
        requires
            locale.wf(),
        ensures
            g.data() == locale,
            g.weighting(),
    {
        Generator { rng: Rng::from_entropy(), locale: Arc::new(locale), use_weighting: true }
    }

    /// Creates a generator seeded from OS entropy.
    pub fn new(locale: &str) -> (r: Result<Generator>)
        ensures
            locale@ != "en_US"@ ==> (r matches Err(Error::UnknownLocale(c)) && c@ == locale@),
            locale@ == "en_US"@ ==> r is Ok,
            r matches Ok(g) ==> g.data().code@ == locale@ && g.weighting() && en_us_contents(g.data()),
    {
        match find_locale(locale) {
            None => Err(Error::UnknownLocale(locale.to_owned())),
            Some(data) => Ok(Generator::for_locale(data)),
        }
    }

    /// Creates a deterministic generator.
    pub fn seeded(locale: &str, seed: u64) -> (r: Result<Generator>)
        ensures
            locale@ != "en_US"@ ==> (r matches Err(Error::UnknownLocale(c)) && c@ == locale@),
            locale@ == "en_US"@ ==> r is Ok,
            r matches Ok(g) ==> g.data().code@ == locale@ && g.weighting() && en_us_contents(g.data())
                && g.stream().state_view() == pcg_seed_state(seed),
    {
        let mut generator = Generator::new(locale)?;
        generator.seed(seed);
        Ok(generator)
    }

    /// Reseeds deterministically.
    pub fn seed(&mut self, seed: u64)
        ensures
            old(self).same_config(final(self)),
            final(self).stream().state_view() == pcg_seed_state(seed),
    {
        proof {
            use_type_invariant(&*self);
        }
        self.rng = Rng::seeded(seed);
    }

    /// Reseeds from OS entropy.
    pub fn reseed_from_entropy(&mut self)
        ensures
            old(self).same_config(final(self)),
    {
        proof {
            use_type_invariant(&*self);
        }
        self.rng = Rng::from_entropy();
    }

    /// The locale data this generator draws from.
    pub fn locale_data(&self) -> (r: &Locale)
        ensures
            *r == self.data(),
            r.wf(),
    {
        proof {
            use_type_invariant(self);
        }
        &self.locale
    }

    /// Whether weighted tables honor their weights (Faker's `use_weighting`, default `true`).
    pub fn use_weighting(&self) -> (r: bool)
        ensures
            r == self.weighting(),
    {
        self.use_weighting
    }

    pub fn set_use_weighting(&mut self, use_weighting: bool)
        ensures
            final(self).data() == old(self).data(),
            final(self).weighting() == use_weighting,
            final(self).stream() == old(self).stream(),
    {
        proof {
            use_type_invariant(&*self);
        }
        self.use_weighting = use_weighting;
    }
}

impl Generator {
    /// A shared handle on the locale data, so that tables can be read while drawing.
    pub(crate) fn shared(&self) -> (r: Arc<Locale>)
        ensures
            *r == self.data(),
            r.wf(),
    {
        proof {
            use_type_invariant(self);
        }
        share(&self.locale)
    }

    /// A copy of the random stream, for callers composing their own values; hand it back
    /// with `set_rng` to continue from where it stopped.
    pub fn rng(&self) -> (r: Rng)
        ensures
            r == self.stream(),
    {
        self.rng
    }

    /// Continues from the given random stream.
    pub fn set_rng(&mut self, rng: Rng)
        ensures
            old(self).same_config(final(self)),
            final(self).stream() == rng,
    {
        proof {
            use_type_invariant(&*self);
        }
        self.rng = rng;
    }

    /// Uniform integer in `lo..=hi`; `lo` when the range is empty.
    pub(crate) fn randint(&mut self, lo: i64, hi: i64) -> (r: i64)
        ensures
            old(self).same_config(final(self)),
            hi <= lo ==> r == lo,
            lo < hi ==> lo <= r <= hi,
            (r, final(self).stream().state_view()) == randint_draw(old(self).stream().state_view(), lo, hi),
    {
        let mut rng = self.rng();
        let r = rng.randint(lo, hi);
        self.set_rng(rng);
        r
    }

    /// Uniform integer in `lo..=hi` over `u128`; `lo` when the range is empty.
    pub(crate) fn randint_u128(&mut self, lo: u128, hi: u128) -> (r: u128)
        ensures
            old(self).same_config(final(self)),
            hi <= lo ==> r == lo,
            lo < hi ==> lo <= r <= hi,
            (r, final(self).stream().state_view()) == randint_u128_draw(old(self).stream().state_view(), lo, hi),
    {
        let mut rng = self.rng();
        let r = rng.randint_u128(lo, hi);
        self.set_rng(rng);
        r
    }

    /// Uniform index in `0..len`. `len` must be non-zero.
    pub(crate) fn index(&mut self, len: usize) -> (r: usize)
        requires
            len > 0,
        ensures
            old(self).same_config(final(self)),
            r < len,
            (r as u64, final(self).stream().state_view()) == pcg_draw_u64(
                old(self).stream().state_view(),
                (len - 1) as u64,
            ),
    {
        let mut rng = self.rng();
        let r = rng.index(len);
        self.set_rng(rng);
        r
    }

    /// Picks an index of `table`, honoring weights when the generator does.
    pub(crate) fn pick<T>(&mut self, table: &Table<T>) -> (r: usize)
        requires
            table.wf(),
        ensures
            old(self).same_config(final(self)),
            table.can_pick(r as int, old(self).weighting()),
            (r as int, final(self).stream().state_view()) == table.pick_draw(
                old(self).stream().state_view(),
                old(self).weighting(),
            ),
    {
        let mut rng = self.rng();
        let r = table.pick(&mut rng, self.use_weighting);
        self.set_rng(rng);
        r
    }

    /// Picks an item of a table of strings, honoring weights when the generator does.
    pub(crate) fn pick_str(&mut self, table: &Table<String>) -> (r: String)
        requires
            table.wf(),
        ensures
            old(self).same_config(final(self)),
            table.yields(r@, old(self).weighting()),
            (r@, final(self).stream().state_view()) == table.draw(
                old(self).stream().state_view(),
                old(self).weighting(),
            ),
    {
        let mut rng = self.rng();
        let r = pick_item(table, &mut rng, self.use_weighting);
        self.set_rng(rng);
        r
    }
}

/// `Arc::clone`: another pointer to the same locale data.
#[verifier::external_body]
fn share(data: &Arc<Locale>) -> (r: Arc<Locale>)
    ensures
        *r == **data,
{
    Arc::clone(data)
}

impl Clone for Generator {
    /// An independent generator with the same data, weighting and random state.
    fn clone(&self) -> (r: Generator)
        ensures
            self.same_config(&r),
            r.stream() == self.stream(),
    {
        proof {
            use_type_invariant(self);
        }
        Generator { rng: self.rng, locale: share(&self.locale), use_weighting: self.use_weighting }
    }
}

/// Inside the crate, the generator's views are its fields.
pub(crate) broadcast proof fn lemma_generator_views(g: Generator)
    ensures
        #[trigger] g.data() == *g.locale,
        g.weighting() == g.use_weighting,
        g.stream() == g.rng,
{
}

/// Table draws replay: two generators with the same data and weighting whose streams are in
/// the same state draw the same item from any table and go on from the same next state, so
/// their sequences of table draws agree.
pub proof fn lemma_draws_replay(a: Generator, b: Generator, t: Table<String>)
    requires
        a.same_config(&b),
        a.stream().state_view() == b.stream().state_view(),
    ensures
        t.draw(a.stream().state_view(), a.weighting()) == t.draw(b.stream().state_view(), b.weighting()),
{
}

} // verus!
