//! Faker's `address` provider (including the `en_US` overrides).
use vstd::prelude::*;
use crate::chars::{chars_of, push_char, str_eq};
use crate::error::{invalid, Error, Result};
use crate::fmt::{digits_of, push_number, zero_padded};
use crate::generator::{lemma_generator_views, Generator};
use crate::locale::{AddressData, LocaleId};
use crate::render::{
    fmt_draw, render_pick_draw, numerify_opt, opt_draw, secondary_draw,
    fill_rel, lvl0, lvl1, military_yields, numerified_from, opt_yields, postcode_yields,
    renders_from, secondary_yields, state_abbr_yields, state_tables, zip5,
};
use crate::table::{concat_draw, pick_concat, Country, Table};
use crate::base::numerify_run;
use crate::rng::randint_draw;

verus! {

/// `(abbreviation, next state)` of `state_abbr` from `state`: one pick over the state
/// tables taken together, or nothing (and no draw) without states.
pub open spec fn state_abbr_draw(a: AddressData, include_t: bool, include_f: bool, state: u128, w: bool) -> (
    Seq<char>,
    u128,
) {
    match a.states_abbr {
        Some(_) => {
            let tabs = state_tables(&a, include_t, include_f);
            let (ki, next) = concat_draw(tabs, state, w);
            (tabs[ki.0].items@[ki.1]@, next)
        },
        None => (Seq::empty(), state),
    }
}

/// `(text, next state)` of drawing a pattern from `t` and numerifying it, from `state`.
pub open spec fn numerify_drawn(t: Table<String>, state: u128, w: bool) -> (Seq<char>, u128) {
    let (pattern, mid) = t.draw(state, w);
    numerify_run(pattern, mid)
}

broadcast use lemma_generator_views;

/// The error for a method whose data the locale lacks.
pub fn missing(method: &str) -> (e: Error)
    ensures
        e matches Error::Unsupported(m) && m@ == method@ + " is not available for this locale"@,
{
    let mut m = method.to_owned();
    m.append(" is not available for this locale");
    Error::Unsupported(m)
}

/// `s` is one of the items of `t`, when the locale has `t`.
pub open spec fn opt_holds(t: Option<Table<String>>, s: Seq<char>) -> bool {
    t matches Some(table) && table.holds(s)
}

/// `s` is a state, territory or freely associated state abbreviation of the locale.
pub open spec fn listed_state(a: AddressData, s: Seq<char>) -> bool {
    opt_holds(a.states_abbr, s) || opt_holds(a.territories_abbr, s) || opt_holds(
        a.freely_associated_states_abbr,
        s,
    )
}

/// The position of the first ZIP range for state `s`, if any.
pub open spec fn range_of(ranges: Seq<(String, u32, u32)>, s: Seq<char>) -> Option<int> {
    if exists|k: int| 0 <= k < ranges.len() && (#[trigger] ranges[k]).0@ == s {
        Some(
            choose|k: int|
                0 <= k < ranges.len() && (#[trigger] ranges[k]).0@ == s && forall|j: int|
                    0 <= j < k ==> (#[trigger] ranges[j]).0@ != s,
        )
    } else {
        None
    }
}

/// A 5-digit ZIP from `lo` to `hi` (just `lo` when the range is empty).
pub open spec fn zip_in(lo: u32, hi: u32, x: Seq<char>) -> bool {
    exists|n: nat| (if lo < hi { lo <= n <= hi } else { n == lo }) && x == #[trigger] zip5(n)
}

/// `(ZIP code or nothing, next state)` of `postcode_in_state` from `state`: the state is
/// the one given or one drawn from the state table; a listed state with a range gets a ZIP
/// drawn from its first range, any other none.
pub open spec fn state_zip_draw(
    a: AddressData,
    ranges: Seq<(String, u32, u32)>,
    abbr: Option<Seq<char>>,
    state: u128,
    w: bool,
) -> (Option<Seq<char>>, u128) {
    let chosen: Option<(Seq<char>, u128)> = match abbr {
        Some(s) => Some((s, state)),
        None => match a.states_abbr {
            Some(t) => Some(t.draw(state, w)),
            None => None,
        },
    };
    match chosen {
        None => (None, state),
        Some((s, mid)) => if listed_state(a, s) && range_of(ranges, s) is Some {
            let k = range_of(ranges, s)->0;
            let (n, next) = randint_draw(mid, ranges[k].1 as i64, ranges[k].2 as i64);
            (Some(zip5(n as nat)), next)
        } else {
            (None, mid)
        },
    }
}

/// What `postcode_in_state` gives for state `s`, the ranges `ranges`: a ZIP from the
/// first range of `s` when `s` is listed and has one, else `StateNotFound`.
pub open spec fn postcode_for_state(
    a: AddressData,
    ranges: Seq<(String, u32, u32)>,
    s: Seq<char>,
    r: Result<String>,
) -> bool {
    if listed_state(a, s) && range_of(ranges, s) is Some {
        let k = range_of(ranges, s)->0;
        r matches Ok(x) && zip_in(ranges[k].1, ranges[k].2, x@)
    } else {
        r == Err::<String, Error>(Error::StateNotFound)
    }
}

/// The field after the first `sep` (`str::split(sep).nth(1)`), if there is one.
pub open spec fn field_after(s: Seq<char>, sep: char) -> Option<Seq<char>>
    decreases s.len(),
{
    if s.len() == 0 {
        None
    } else if s[0] == sep {
        Some(first_field(s.drop_first(), sep))
    } else {
        field_after(s.drop_first(), sep)
    }
}

/// The text before the first `sep` (all of it when there is none).
pub open spec fn first_field(s: Seq<char>, sep: char) -> Seq<char>
    decreases s.len(),
{
    if s.len() == 0 {
        s
    } else if s[0] == sep {
        Seq::empty()
    } else {
        seq![s[0]] + first_field(s.drop_first(), sep)
    }
}

/// How many countries have the alpha-2 code `c`.
pub open spec fn code_count(cs: Seq<Country>, c: Seq<char>) -> nat
    decreases cs.len(),
{
    if cs.len() == 0 {
        0
    } else {
        code_count(cs.drop_last(), c) + if cs.last().alpha_2_code@ == c {
            1nat
        } else {
            0nat
        }
    }
}

/// A ZIP code followed by `-` and the 4-digit add-on `n`.
pub open spec fn plus4(zip: Seq<char>, n: nat) -> Seq<char> {
    zip + seq!['-'] + zero_padded(digits_of(n, 10, false), 4)
}

/// Where the first `sep` at or after `from` is in `v` (its length when there is none).
pub fn field_end(v: &Vec<char>, from: usize, sep: char) -> (r: usize)
    requires
        from <= v.len(),
    ensures
        from <= r <= v.len(),
        v@.subrange(from as int, r as int) == first_field(v@.subrange(from as int, v.len() as int), sep),
{
    let mut j = from;
    while j < v.len() && v[j] != sep
        invariant
            from <= j <= v.len(),
            first_field(v@.subrange(from as int, v.len() as int), sep) == v@.subrange(from as int, j as int)
                + first_field(v@.subrange(j as int, v.len() as int), sep),
        decreases v.len() - j,
    {
        proof {
            let rest = v@.subrange(j as int, v.len() as int);
            assert(rest.drop_first() == v@.subrange(j + 1, v.len() as int));
            assert(v@.subrange(from as int, j + 1) == v@.subrange(from as int, j as int) + seq![v@[j as int]]);
        }
        j = j + 1;
    }
    proof {
        let rest = v@.subrange(j as int, v.len() as int);
        assert(first_field(rest, sep) == Seq::<char>::empty());
    }
    j
}

/// Where the field after the first `sep` starts and ends in `v`, if there is one.
pub fn second_field(v: &Vec<char>, sep: char) -> (r: Option<(usize, usize)>)
    ensures
        field_after(v@, sep) is None <==> r is None,
        r matches Some((a, b)) ==> a <= b <= v.len() && field_after(v@, sep) == Some(v@.subrange(a as int, b as int)),
{
    let mut i: usize = 0;
    assert(v@.subrange(0, v.len() as int) == v@);
    while i < v.len() && v[i] != sep
        invariant
            i <= v.len(),
            field_after(v@, sep) == field_after(v@.subrange(i as int, v.len() as int), sep),
        decreases v.len() - i,
    {
        proof {
            let rest = v@.subrange(i as int, v.len() as int);
            assert(rest.drop_first() == v@.subrange(i + 1, v.len() as int));
        }
        i = i + 1;
    }
    if i == v.len() {
        return None;
    }
    proof {
        let rest = v@.subrange(i as int, v.len() as int);
        assert(rest.drop_first() == v@.subrange(i + 1, v.len() as int));
    }
    let e = field_end(v, i + 1, sep);
    Some((i + 1, e))
}

impl Generator {
    pub fn address(&mut self) -> (r: String)
        ensures
            old(self).same_config(final(self)),
            renders_from(old(self).data().address.address_formats, old(self).weighting(), r@, fill_rel(old(self).data(), old(self).weighting())),
            (r@, final(self).stream().state_view()) == render_pick_draw(old(self).data(), old(self).weighting(), old(self).data().address.address_formats, old(self).stream().state_view(), 3),
    {
        proof {
            use_type_invariant(&*self);
        }
        let data = self.shared();
        self.render_pick(&data.address.address_formats)
    }

    /// A state or other first-level administrative unit.
    pub fn administrative_unit(&mut self) -> (r: Result<String>)
        ensures
            old(self).same_config(final(self)),
            old(self).data().address.states is None ==> (r matches Err(Error::Unsupported(m)) && m@
                == "administrative_unit is not available for this locale"@),
            old(self).data().address.states matches Some(t) ==> (r matches Ok(s) && t.yields(s@, old(self).weighting())),
            old(self).data().address.states matches Some(t) ==> (r matches Ok(s) && (s@, final(self).stream().state_view())
                == t.draw(old(self).stream().state_view(), old(self).weighting())),
    {
        proof {
            use_type_invariant(&*self);
        }
        proof {
            reveal_strlit("administrative_unit");
            reveal_strlit(" is not available for this locale");
            reveal_strlit("administrative_unit is not available for this locale");
        }
        let data = self.shared();
        match &data.address.states {
            Some(t) => Ok(self.pick_str(t)),
            None => Err(missing("administrative_unit")),
        }
    }

    /// Alias of [`Generator::administrative_unit`].
    pub fn state(&mut self) -> (r: Result<String>)
        ensures
            old(self).same_config(final(self)),
            old(self).data().address.states is None ==> (r matches Err(Error::Unsupported(m)) && m@
                == "administrative_unit is not available for this locale"@),
            old(self).data().address.states matches Some(t) ==> (r matches Ok(s) && t.yields(s@, old(self).weighting())),
            old(self).data().address.states matches Some(t) ==> (r matches Ok(s) && (s@, final(self).stream().state_view())
                == t.draw(old(self).stream().state_view(), old(self).weighting())),
    {
        self.administrative_unit()
    }

    pub fn building_number(&mut self) -> (r: String)
        ensures
            old(self).same_config(final(self)),
            numerified_from(old(self).data().address.building_number_formats, old(self).weighting(), r@),
            (r@, final(self).stream().state_view()) == numerify_drawn(
                old(self).data().address.building_number_formats,
                old(self).stream().state_view(),
                old(self).weighting(),
            ),
    {
        let mut out = String::new();
        self.write_building_number(&mut out);
        out
    }

    pub(crate) fn write_building_number(&mut self, out: &mut String)
        ensures
            old(self).same_config(final(self)),
            exists|x: Seq<char>|
                final(out)@ == old(out)@ + x && numerified_from(old(self).data().address.building_number_formats, old(self).weighting(), x),
            final(out)@ == old(out)@ + numerify_drawn(
                old(self).data().address.building_number_formats,
                old(self).stream().state_view(),
                old(self).weighting(),
            ).0,
            final(self).stream().state_view() == numerify_drawn(
                old(self).data().address.building_number_formats,
                old(self).stream().state_view(),
                old(self).weighting(),
            ).1,
    {
        proof {
            use_type_invariant(&*self);
        }
        let data = self.shared();
        let format = self.pick_str(&data.address.building_number_formats);
        self.write_numerify(format.as_str(), out);
    }

    pub fn city(&mut self) -> (r: String)
        ensures
            old(self).same_config(final(self)),
            renders_from(old(self).data().address.city_formats, old(self).weighting(), r@, lvl0(old(self).data(), old(self).weighting())),
            (r@, final(self).stream().state_view()) == fmt_draw(old(self).data(), old(self).weighting(), crate::template::Formatter::City, old(self).stream().state_view()),
        decreases 1nat, 2nat,
    {
        proof {
            use_type_invariant(&*self);
        }
        let data = self.shared();
        self.render_pick_at(&data.address.city_formats, 1)
    }

    /// City prefix such as `North`; empty when the locale has none.
    pub fn city_prefix(&mut self) -> (r: String)
        ensures
            old(self).same_config(final(self)),
            opt_yields(old(self).data().address.city_prefixes, r@, old(self).weighting()),
            (r@, final(self).stream().state_view()) == opt_draw(old(self).data().address.city_prefixes, old(self).stream().state_view(), old(self).weighting()),
    {
        proof {
            use_type_invariant(&*self);
        }
        let data = self.shared();
        match &data.address.city_prefixes {
            Some(t) => self.pick_str(t),
            None => String::new(),
        }
    }

    pub fn city_suffix(&mut self) -> (r: String)
        ensures
            old(self).same_config(final(self)),
            old(self).data().address.city_suffixes.yields(r@, old(self).weighting()),
            (r@, final(self).stream().state_view()) == old(self).data().address.city_suffixes.draw(
                old(self).stream().state_view(),
                old(self).weighting(),
            ),
    {
        proof {
            use_type_invariant(&*self);
        }
        let data = self.shared();
        self.pick_str(&data.address.city_suffixes)
    }

    pub fn street_suffix(&mut self) -> (r: String)
        ensures
            old(self).same_config(final(self)),
            old(self).data().address.street_suffixes.yields(r@, old(self).weighting()),
            (r@, final(self).stream().state_view()) == old(self).data().address.street_suffixes.draw(
                old(self).stream().state_view(),
                old(self).weighting(),
            ),
    {
        proof {
            use_type_invariant(&*self);
        }
        let data = self.shared();
        self.pick_str(&data.address.street_suffixes)
    }

    pub fn country(&mut self) -> (r: String)
        ensures
            old(self).same_config(final(self)),
            old(self).data().address.countries.yields(r@, old(self).weighting()),
            (r@, final(self).stream().state_view()) == old(self).data().address.countries.draw(
                old(self).stream().state_view(),
                old(self).weighting(),
            ),
    {
        proof {
            use_type_invariant(&*self);
        }
        let data = self.shared();
        self.pick_str(&data.address.countries)
    }

    /// Random country code; `representation` is `alpha-2` or `alpha-3`.
    pub fn country_code(&mut self, representation: &str) -> (r: Result<String>)
        ensures
            old(self).same_config(final(self)),
            representation@ == "alpha-2"@ ==> (r matches Ok(s) && old(self).data().address.alpha_2_country_codes.yields(s@, old(self).weighting())
                && (s@, final(self).stream().state_view()) == old(self).data().address.alpha_2_country_codes.draw(
                old(self).stream().state_view(),
                old(self).weighting(),
            )),
            representation@ == "alpha-3"@ ==> (r matches Ok(s) && old(self).data().address.alpha_3_country_codes.yields(s@, old(self).weighting())
                && (s@, final(self).stream().state_view()) == old(self).data().address.alpha_3_country_codes.draw(
                old(self).stream().state_view(),
                old(self).weighting(),
            )),
            representation@ != "alpha-2"@ && representation@ != "alpha-3"@ ==> (r matches Err(Error::InvalidArgument(m))
                && m@ == "`representation` must be one of `alpha-2` or `alpha-3`."@),
    {
        proof {
            use_type_invariant(&*self);
        }
        proof {
            reveal_strlit("alpha-2");
            reveal_strlit("alpha-3");
            assert("alpha-2"@ != "alpha-3"@) by {
                assert("alpha-2"@[6] != "alpha-3"@[6]);
            }
        }
        let data = self.shared();
        if str_eq(representation, "alpha-2") {
            Ok(self.pick_str(&data.address.alpha_2_country_codes))
        } else if str_eq(representation, "alpha-3") {
            Ok(self.pick_str(&data.address.alpha_3_country_codes))
        } else {
            Err(invalid("`representation` must be one of `alpha-2` or `alpha-3`."))
        }
    }

    /// The region part of the generator's locale code (e.g. `US`).
    pub fn current_country_code(&self) -> (r: Result<String>)
        ensures
            field_after(self.data().code@, '_') matches Some(c) ==> (r matches Ok(s) && s@ == c),
            field_after(self.data().code@, '_') is None ==> (r matches Err(Error::Unsupported(m)) && m@
                == "Country code cannot be determined from locale"@),
    {
        let v = chars_of(self.locale.code.as_str());
        match second_field(&v, '_') {
            Some((a, b)) => Ok(crate::chars::string_of_range(&v, a, b)),
            None => Err(Error::Unsupported("Country code cannot be determined from locale".to_owned())),
        }
    }

    /// The country name for the generator's locale.
    pub fn current_country(&self) -> (r: Result<String>)
        ensures
            field_after(self.data().code@, '_') is None ==> (r matches Err(Error::Unsupported(m)) && m@
                == "Country code cannot be determined from locale"@),
            field_after(self.data().code@, '_') matches Some(c) ==> {
                let cs = self.data().date_time.countries@;
                &&& code_count(cs, c) == 1 ==> (r matches Ok(name) && exists|i: int|
                    0 <= i < cs.len() && cs[i].alpha_2_code@ == c && name@ == #[trigger] cs[i].name@)
                &&& code_count(cs, c) == 0 ==> (r matches Err(Error::InvalidArgument(m)) && m@
                    == "No appropriate country for country code "@ + c)
                &&& code_count(cs, c) >= 2 ==> (r matches Err(Error::InvalidArgument(m)) && m@
                    == "Ambiguous country for country code "@ + c)
            },
    {
        let code = self.current_country_code()?;
        let countries = &self.locale.date_time.countries;
        let mut count: usize = 0;
        let mut found: usize = 0;
        for i in 0..countries.len()
            invariant
                count == code_count(countries@.take(i as int), code@) || (count == 2 && code_count(
                    countries@.take(i as int),
                    code@,
                ) >= 2),
                count <= 2,
                count >= 1 ==> found < i && countries@[found as int].alpha_2_code@ == code@,
        {
            proof {
                assert(countries@.take(i + 1).drop_last() == countries@.take(i as int));
            }
            if str_eq(countries[i].alpha_2_code.as_str(), code.as_str()) {
                if count == 0 {
                    found = i;
                }
                if count < 2 {
                    count = count + 1;
                }
            }
        }
        assert(countries@.take(countries.len() as int) == countries@);
        assert(countries@ == self.data().date_time.countries@);
        if count == 1 {
            assert(countries@[found as int].name@ == countries@[found as int].name@);
            Ok(countries[found].name.clone())
        } else if count == 2 {
            let mut m = "Ambiguous country for country code ".to_owned();
            m.append(code.as_str());
            Err(Error::InvalidArgument(m))
        } else {
            let mut m = "No appropriate country for country code ".to_owned();
            m.append(code.as_str());
            Err(Error::InvalidArgument(m))
        }
    }

    pub fn military_apo(&mut self) -> (r: String)
        ensures
            old(self).same_config(final(self)),
            military_yields(old(self).data().address.military_apo_format, r@),
            (r@, final(self).stream().state_view()) == numerify_opt(old(self).data().address.military_apo_format, old(self).stream().state_view()),
    {
        let mut out = String::new();
        self.write_military_apo(&mut out);
        out
    }

    pub(crate) fn write_military_apo(&mut self, out: &mut String)
        ensures
            old(self).same_config(final(self)),
            exists|x: Seq<char>| final(out)@ == old(out)@ + x && military_yields(old(self).data().address.military_apo_format, x),
            final(out)@ == old(out)@ + numerify_opt(old(self).data().address.military_apo_format, old(self).stream().state_view()).0,
            final(self).stream().state_view() == numerify_opt(old(self).data().address.military_apo_format, old(self).stream().state_view()).1,
    {
        let data = self.shared();
        match &data.address.military_apo_format {
            Some(f) => self.write_numerify(f.as_str(), out),
            None => {
                assert(out@ == out@ + Seq::<char>::empty());
            },
        }
    }

    pub fn military_dpo(&mut self) -> (r: String)
        ensures
            old(self).same_config(final(self)),
            military_yields(old(self).data().address.military_dpo_format, r@),
            (r@, final(self).stream().state_view()) == numerify_opt(old(self).data().address.military_dpo_format, old(self).stream().state_view()),
    {
        let mut out = String::new();
        self.write_military_dpo(&mut out);
        out
    }

    pub(crate) fn write_military_dpo(&mut self, out: &mut String)
        ensures
            old(self).same_config(final(self)),
            exists|x: Seq<char>| final(out)@ == old(out)@ + x && military_yields(old(self).data().address.military_dpo_format, x),
            final(out)@ == old(out)@ + numerify_opt(old(self).data().address.military_dpo_format, old(self).stream().state_view()).0,
            final(self).stream().state_view() == numerify_opt(old(self).data().address.military_dpo_format, old(self).stream().state_view()).1,
    {
        let data = self.shared();
        match &data.address.military_dpo_format {
            Some(f) => self.write_numerify(f.as_str(), out),
            None => {
                assert(out@ == out@ + Seq::<char>::empty());
            },
        }
    }

    pub fn military_ship(&mut self) -> (r: String)
        ensures
            old(self).same_config(final(self)),
            opt_yields(old(self).data().address.military_ship_prefix, r@, old(self).weighting()),
            (r@, final(self).stream().state_view()) == opt_draw(old(self).data().address.military_ship_prefix, old(self).stream().state_view(), old(self).weighting()),
    {
        proof {
            use_type_invariant(&*self);
        }
        let data = self.shared();
        match &data.address.military_ship_prefix {
            Some(t) => self.pick_str(t),
            None => String::new(),
        }
    }

    pub fn military_state(&mut self) -> (r: String)
        ensures
            old(self).same_config(final(self)),
            opt_yields(old(self).data().address.military_state_abbr, r@, old(self).weighting()),
            (r@, final(self).stream().state_view()) == opt_draw(old(self).data().address.military_state_abbr, old(self).stream().state_view(), old(self).weighting()),
    {
        proof {
            use_type_invariant(&*self);
        }
        let data = self.shared();
        match &data.address.military_state_abbr {
            Some(t) => self.pick_str(t),
            None => String::new(),
        }
    }

    /// Postal code. `en_US` draws a 5-digit ZIP; other locales bothify `postcode_formats`.
    pub fn postcode(&mut self) -> (r: String)
        ensures
            old(self).same_config(final(self)),
            postcode_yields(old(self).data(), old(self).weighting(), r@),
            r@ == zip5(randint_draw(old(self).stream().state_view(), 501, 99950).0 as nat),
            final(self).stream().state_view() == randint_draw(old(self).stream().state_view(), 501, 99950).1,
    {
        let mut out = String::new();
        self.write_postcode(&mut out);
        out
    }

    pub(crate) fn write_postcode(&mut self, out: &mut String)
        ensures
            old(self).same_config(final(self)),
            exists|x: Seq<char>| final(out)@ == old(out)@ + x && postcode_yields(old(self).data(), old(self).weighting(), x),
            final(out)@ == old(out)@ + zip5(randint_draw(old(self).stream().state_view(), 501, 99950).0 as nat),
            final(self).stream().state_view() == randint_draw(old(self).stream().state_view(), 501, 99950).1,
    {
        proof {
            use_type_invariant(&*self);
        }
        let ghost start = out@;
        let data = self.shared();
        match data.id {
            LocaleId::EnUs => {
                let n = self.randint(501, 99950);
                push_number(out, n as u128, 10, false, 5);
                assert(out@ == start + zip5(n as nat));
            },
        }
    }

    /// Postal code inside a state (random state when `None`).
    pub fn postcode_in_state(&mut self, state_abbr: Option<&str>) -> (r: Result<String>)
        ensures
            old(self).same_config(final(self)),
            old(self).data().address.states_postcode is None ==> (r matches Err(Error::Unsupported(m))
                && m@ == "postcode_in_state is not available for this locale"@),
            old(self).data().address.states_postcode matches Some(ranges) ==> match state_abbr {
                Some(s) => postcode_for_state(old(self).data().address, ranges@, s@, r),
                None => match old(self).data().address.states_abbr {
                    None => r matches Err(Error::Unsupported(m)) && m@
                        == "postcode_in_state is not available for this locale"@,
                    Some(t) => exists|s: Seq<char>|
                        t.yields(s, old(self).weighting()) && #[trigger] postcode_for_state(
                            old(self).data().address,
                            ranges@,
                            s,
                            r,
                        ),
                },
            },
            old(self).data().address.states_postcode matches Some(ranges) ==> ({
                let (z, next) = state_zip_draw(
                    old(self).data().address,
                    ranges@,
                    match state_abbr {
                        Some(s) => Some(s@),
                        None => None,
                    },
                    old(self).stream().state_view(),
                    old(self).weighting(),
                );
                &&& final(self).stream().state_view() == next
                &&& (r matches Ok(x) ==> z == Some(x@))
            }),
    {
        proof {
            use_type_invariant(&*self);
        }
        proof {
            reveal_strlit("postcode_in_state");
            reveal_strlit(" is not available for this locale");
            reveal_strlit("postcode_in_state is not available for this locale");
        }
        let data = self.shared();
        let address = &data.address;
        let ranges = match &address.states_postcode {
            Some(r) => r,
            None => {
                return Err(missing("postcode_in_state"));
            },
        };
        let state: String = match state_abbr {
            Some(s) => s.to_owned(),
            None => match &address.states_abbr {
                Some(t) => self.pick_str(t),
                None => {
                    return Err(missing("postcode_in_state"));
                },
            },
        };
        let known = table_has(&address.states_abbr, state.as_str()) || table_has(
            &address.territories_abbr,
            state.as_str(),
        ) || table_has(&address.freely_associated_states_abbr, state.as_str());
        if !known {
            return Err(Error::StateNotFound);
        }
        let r = match find_range(ranges, state.as_str()) {
            Some(k) => {
                let lo = ranges[k].1;
                let hi = ranges[k].2;
                let n = self.randint(lo as i64, hi as i64);
                let mut out = String::new();
                push_number(&mut out, n as u128, 10, false, 5);
                assert(out@ == zip5(n as nat));
                assert(zip_in(lo, hi, out@));
                Ok(out)
            },
            None => Err(Error::StateNotFound),
        };
        assert(postcode_for_state(data.address, ranges@, state@, r));
        r
    }

    /// ZIP+4 code such as `12345-6789`.
    pub fn zipcode_plus4(&mut self) -> (r: String)
        ensures
            old(self).same_config(final(self)),
            exists|zip: Seq<char>, n: nat|
                postcode_yields(old(self).data(), old(self).weighting(), zip) && 1 <= n <= 9999 && r@
                    == #[trigger] plus4(zip, n),
            ({
                let (z, s1) = randint_draw(old(self).stream().state_view(), 501, 99950);
                let (n, s2) = randint_draw(s1, 1, 9999);
                r@ == plus4(zip5(z as nat), n as nat) && final(self).stream().state_view() == s2
            }),
    {
        let mut out = self.postcode();
        let ghost zip = out@;
        push_char(&mut out, '-');
        let n = self.randint(1, 9999);
        push_number(&mut out, n as u128, 10, false, 4);
        assert(out@ == plus4(zip, n as nat));
        out
    }

    pub fn secondary_address(&mut self) -> (r: String)
        ensures
            old(self).same_config(final(self)),
            secondary_yields(old(self).data().address, old(self).weighting(), r@),
            (r@, final(self).stream().state_view()) == secondary_draw(old(self).data().address, old(self).stream().state_view(), old(self).weighting()),
    {
        let mut out = String::new();
        self.write_secondary_address(&mut out);
        out
    }

    pub(crate) fn write_secondary_address(&mut self, out: &mut String)
        ensures
            old(self).same_config(final(self)),
            exists|x: Seq<char>| final(out)@ == old(out)@ + x && secondary_yields(old(self).data().address, old(self).weighting(), x),
            final(out)@ == old(out)@ + secondary_draw(old(self).data().address, old(self).stream().state_view(), old(self).weighting()).0,
            final(self).stream().state_view() == secondary_draw(old(self).data().address, old(self).stream().state_view(), old(self).weighting()).1,
    {
        proof {
            use_type_invariant(&*self);
        }
        let data = self.shared();
        match &data.address.secondary_address_formats {
            Some(t) => {
                let format = self.pick_str(t);
                self.write_numerify(format.as_str(), out);
            },
            None => {
                assert(out@ == out@ + Seq::<char>::empty());
            },
        }
    }

    /// Two-letter state code, optionally including territories and freely associated states.
    pub fn state_abbr(&mut self, include_territories: bool, include_freely_associated_states: bool) -> (r: String)
        ensures
            old(self).same_config(final(self)),
            state_abbr_yields(
                old(self).data().address,
                include_territories,
                include_freely_associated_states,
                r@,
                old(self).weighting(),
            ),
            (r@, final(self).stream().state_view()) == state_abbr_draw(
                old(self).data().address,
                include_territories,
                include_freely_associated_states,
                old(self).stream().state_view(),
                old(self).weighting(),
            ),
    {
        proof {
            use_type_invariant(&*self);
        }
        let data = self.shared();
        let address = &data.address;
        let states = match &address.states_abbr {
            Some(s) => s,
            None => {
                return String::new();
            },
        };
        let mut tables: Vec<&Table<String>> = Vec::new();
        tables.push(states);
        if include_territories {
            match &address.territories_abbr {
                Some(t) => tables.push(t),
                None => {},
            }
        }
        if include_freely_associated_states {
            match &address.freely_associated_states_abbr {
                Some(t) => tables.push(t),
                None => {},
            }
        }
        assert(tables@ == state_tables(address, include_territories, include_freely_associated_states));
        let use_weighting = self.use_weighting;
        let mut rng = self.rng();
        let picked = pick_concat(&tables, &mut rng, use_weighting);
        self.set_rng(rng);
        match picked {
            Some((k, i)) => {
                let r = tables[k].items[i].clone();
                assert(tables@[k as int].items@[i as int]@ == r@);
                r
            },
            None => String::new(),
        }
    }

    pub fn street_address(&mut self) -> (r: String)
        ensures
            old(self).same_config(final(self)),
            renders_from(old(self).data().address.street_address_formats, old(self).weighting(), r@, lvl1(old(self).data(), old(self).weighting())),
            (r@, final(self).stream().state_view()) == fmt_draw(old(self).data(), old(self).weighting(), crate::template::Formatter::StreetAddress, old(self).stream().state_view()),
        decreases 2nat, 2nat,
    {
        proof {
            use_type_invariant(&*self);
        }
        let data = self.shared();
        self.render_pick_at(&data.address.street_address_formats, 2)
    }

    pub fn street_name(&mut self) -> (r: String)
        ensures
            old(self).same_config(final(self)),
            renders_from(old(self).data().address.street_name_formats, old(self).weighting(), r@, lvl0(old(self).data(), old(self).weighting())),
            (r@, final(self).stream().state_view()) == fmt_draw(old(self).data(), old(self).weighting(), crate::template::Formatter::StreetName, old(self).stream().state_view()),
        decreases 1nat, 2nat,
    {
        proof {
            use_type_invariant(&*self);
        }
        let data = self.shared();
        self.render_pick_at(&data.address.street_name_formats, 1)
    }
}

/// The position of the first range for state `s`.
fn find_range(ranges: &Vec<(String, u32, u32)>, s: &str) -> (r: Option<usize>)
    ensures
        r is None <==> range_of(ranges@, s@) is None,
        r matches Some(k) ==> range_of(ranges@, s@) == Some(k as int) && k < ranges.len(),
{
    for k in 0..ranges.len()
        invariant
            forall|j: int| 0 <= j < k ==> (#[trigger] ranges@[j]).0@ != s@,
    {
        if str_eq(ranges[k].0.as_str(), s) {
            proof {
                let kk = range_of(ranges@, s@)->0;
                assert(ranges@[k as int].0@ == s@);
                assert(kk == k) by {
                    if kk < k {
                        assert(ranges@[kk].0@ != s@);
                    }
                    if kk > k {
                        assert(ranges@[k as int].0@ == s@);
                    }
                }
            }
            return Some(k);
        }
    }
    None
}

/// Whether the optional table `t` has `s` among its items.
fn table_has(t: &Option<Table<String>>, s: &str) -> (r: bool)
    ensures
        r == opt_holds(*t, s@),
{
    match t {
        Some(table) => {
            for i in 0..table.items.len()
                invariant
                    *t == Some(*table),
                    forall|j: int| 0 <= j < i ==> (#[trigger] table.items@[j])@ != s@,
            {
                if str_eq(table.items[i].as_str(), s) {
                    assert(table.items@[i as int]@ == s@);
                    return true;
                }
            }
            false
        },
        None => false,
    }
}

} // verus!
