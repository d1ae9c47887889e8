//! Rendering `{{ token }}` templates: what each formatter may produce, and the renderer.
use vstd::prelude::*;
use crate::base::{bothified, bothify_run, flatten, numerified, numerify_run};
use crate::address::{numerify_drawn, state_abbr_draw};
use crate::person::table_or;
use crate::rng::{pcg_draw_u64, randint_draw};
use crate::chars::{chars_of, push_char, string_of_range, unicode_str_upper};
use crate::error::{Error, Result};
use crate::fmt::{digits_of, zero_padded};
use crate::generator::{lemma_generator_views, Generator};
use crate::locale::{template_below, templates_ok, AddressData, Locale, PersonData};
use crate::table::{all_weighted, concat_draw, Table};
use crate::template::{
    all_known, formatter_named, known_name, lemma_token_at_bounds, match_token, pieces, pieces_from,
    Formatter, Piece, Segment, Template,
};
use crate::text::{ascii_form, lemma_slug_charset, lower_of, slug_of, slug_safe};
use crate::chars::{all_ascii, ascii_char, ascii_lower};

verus! {

broadcast use lemma_generator_views;

/// What one segment of a template may become: a literal stays itself, a token becomes
/// an output its formatter may give (as `sub` says).
pub open spec fn seg_fills(seg: Segment, x: Seq<char>, rel: spec_fn(Formatter, Seq<char>) -> bool) -> bool {
    match seg {
        Segment::Literal(l) => x == l@,
        Segment::Token(f) => rel(f, x),
    }
}

/// `x` is a rendering of template `t`: the segments' outputs, in order.
pub open spec fn rendered_with(
    t: Seq<Segment>,
    x: Seq<char>,
    rel: spec_fn(Formatter, Seq<char>) -> bool,
) -> bool {
    exists|parts: Seq<Seq<char>>|
        parts.len() == t.len() && x == flatten(parts) && forall|i: int|
            0 <= i < t.len() ==> seg_fills(t[i], #[trigger] parts[i], rel)
}

/// `x` is a rendering of a template that a draw from `table` may give.
pub open spec fn renders_from(
    table: Table<Template>,
    w: bool,
    x: Seq<char>,
    rel: spec_fn(Formatter, Seq<char>) -> bool,
) -> bool {
    exists|i: int| table.can_pick(i, w) && rendered_with(#[trigger] table.items@[i]@, x, rel)
}

/// A draw from an optional table; the empty string when the locale has none.
pub open spec fn opt_yields(t: Option<Table<String>>, x: Seq<char>, w: bool) -> bool {
    match t {
        Some(table) => table.yields(x, w),
        None => x.len() == 0,
    }
}

/// A draw from `t`, or from `fallback` when the locale has no `t`.
pub open spec fn yields_or(t: Option<Table<String>>, fallback: Table<String>, x: Seq<char>, w: bool) -> bool {
    match t {
        Some(table) => table.yields(x, w),
        None => fallback.yields(x, w),
    }
}

/// `numerify` applied to a format drawn from `table`.
pub open spec fn numerified_from(table: Table<String>, w: bool, x: Seq<char>) -> bool {
    exists|f: Seq<char>| table.yields(f, w) && #[trigger] numerified(f, x)
}

/// A draw from several tables taken as one (weights count only when all carry them).
pub open spec fn concat_yields(tables: Seq<&Table<String>>, x: Seq<char>, w: bool) -> bool {
    exists|k: int, i: int|
        0 <= k < tables.len() && tables[k].can_pick(i, w && all_weighted(tables)) && #[trigger] tables[k].items@[i]@ == x
}

/// Faker's prefix/suffix fallback: the combined table, else all gendered tables merged,
/// else the male or the female table, else the empty string.
pub open spec fn gendered_yields(
    combined: Option<Table<String>>,
    male: Option<Table<String>>,
    female: Option<Table<String>>,
    nonbinary: Option<Table<String>>,
    x: Seq<char>,
    w: bool,
) -> bool {
    match combined {
        Some(t) => t.yields(x, w),
        None => match (male, female, nonbinary) {
            (Some(m), Some(f), Some(n)) => concat_yields(seq![&m, &f, &n], x, w),
            (Some(m), Some(f), None) => m.yields(x, w) || f.yields(x, w),
            _ => x.len() == 0,
        },
    }
}

/// A name prefix of any gender.
pub open spec fn prefix_yields(p: PersonData, x: Seq<char>, w: bool) -> bool {
    gendered_yields(p.prefixes, p.prefixes_male, p.prefixes_female, p.prefixes_nonbinary, x, w)
}

/// A name suffix of any gender.
pub open spec fn suffix_yields(p: PersonData, x: Seq<char>, w: bool) -> bool {
    gendered_yields(p.suffixes, p.suffixes_male, p.suffixes_female, p.suffixes_nonbinary, x, w)
}

/// A gendered prefix or suffix table, falling back to `any` when the locale has none.
pub open spec fn gendered_or(t: Option<Table<String>>, any: bool, x: Seq<char>, w: bool) -> bool {
    match t {
        Some(table) => table.yields(x, w),
        None => any,
    }
}

/// The tables `state_abbr` draws from: the states, then the territories and freely
/// associated states when asked for and present.
pub open spec fn state_tables<'a>(a: &'a AddressData, include_t: bool, include_f: bool) -> Seq<&'a Table<String>> {
    match &a.states_abbr {
        Some(s) => seq![s] + match &a.territories_abbr {
            Some(t) => if include_t {
                seq![t]
            } else {
                Seq::empty()
            },
            None => Seq::empty(),
        } + match &a.freely_associated_states_abbr {
            Some(f) => if include_f {
                seq![f]
            } else {
                Seq::empty()
            },
            None => Seq::empty(),
        },
        None => Seq::empty(),
    }
}

/// A state abbreviation; the empty string when the locale has none.
pub open spec fn state_abbr_yields(a: AddressData, include_t: bool, include_f: bool, x: Seq<char>, w: bool) -> bool {
    match a.states_abbr {
        Some(_) => concat_yields(state_tables(&a, include_t, include_f), x, w),
        None => x.len() == 0,
    }
}

/// The 5-digit ZIP code of `n`.
pub open spec fn zip5(n: nat) -> Seq<char> {
    zero_padded(digits_of(n, 10, false), 5)
}

/// A postcode: for `en_US` a 5-digit ZIP from 00501 to 99950, elsewhere a format drawn
/// from the table with `bothify` applied and the result uppercased.
pub open spec fn postcode_yields(d: Locale, w: bool, x: Seq<char>) -> bool {
    if d.id is EnUs {
        exists|n: nat| 501 <= n <= 99950 && x == #[trigger] zip5(n)
    } else {
        exists|f: Seq<char>, b: Seq<char>|
            d.address.postcode_formats.yields(f, w) && #[trigger] bothified(f, b) && x == unicode_str_upper(b)
    }
}

/// A military address line: the locale's format with `numerify` applied, or nothing.
pub open spec fn military_yields(format: Option<String>, x: Seq<char>) -> bool {
    match format {
        Some(f) => numerified(f@, x),
        None => x.len() == 0,
    }
}

/// A secondary address (apartment, suite); the empty string when the locale has none.
pub open spec fn secondary_yields(a: AddressData, w: bool, x: Seq<char>) -> bool {
    match a.secondary_address_formats {
        Some(t) => numerified_from(t, w, x),
        None => x.len() == 0,
    }
}

/// What a plain (level 0) formatter may give. Formatters of higher level give nothing here.
pub open spec fn out0(d: Locale, w: bool, f: Formatter, x: Seq<char>) -> bool {
    let p = d.person;
    let a = d.address;
    match f {
        Formatter::BuildingNumber => numerified_from(a.building_number_formats, w, x),
        Formatter::CityPrefix => opt_yields(a.city_prefixes, x, w),
        Formatter::CitySuffix => a.city_suffixes.yields(x, w),
        Formatter::CompanySuffix => d.company.company_suffixes.yields(x, w),
        Formatter::FirstName => p.first_names.yields(x, w),
        Formatter::FirstNameFemale => yields_or(p.first_names_female, p.first_names, x, w),
        Formatter::FirstNameMale => yields_or(p.first_names_male, p.first_names, x, w),
        Formatter::FirstNameNonbinary => yields_or(p.first_names_nonbinary, p.first_names, x, w),
        Formatter::FreeEmailDomain => d.internet.free_email_domains.yields(x, w),
        Formatter::LastName => p.last_names.yields(x, w),
        Formatter::MilitaryApo => military_yields(a.military_apo_format, x),
        Formatter::MilitaryDpo => military_yields(a.military_dpo_format, x),
        Formatter::MilitaryShip => opt_yields(a.military_ship_prefix, x, w),
        Formatter::MilitaryState => opt_yields(a.military_state_abbr, x, w),
        Formatter::Postcode => postcode_yields(d, w, x),
        Formatter::PrefixFemale => gendered_or(p.prefixes_female, prefix_yields(p, x, w), x, w),
        Formatter::PrefixMale => gendered_or(p.prefixes_male, prefix_yields(p, x, w), x, w),
        Formatter::PrefixNonbinary => gendered_or(p.prefixes_nonbinary, prefix_yields(p, x, w), x, w),
        Formatter::SecondaryAddress => secondary_yields(a, w, x),
        Formatter::StateAbbr => state_abbr_yields(a, true, true, x, w),
        Formatter::StreetSuffix => a.street_suffixes.yields(x, w),
        Formatter::SuffixFemale => gendered_or(p.suffixes_female, suffix_yields(p, x, w), x, w),
        Formatter::SuffixMale => gendered_or(p.suffixes_male, suffix_yields(p, x, w), x, w),
        Formatter::SuffixNonbinary => gendered_or(p.suffixes_nonbinary, suffix_yields(p, x, w), x, w),
        _ => false,
    }
}

/// Outputs of plain formatters, as a relation for the tokens of level-1 templates.
pub open spec fn lvl0(d: Locale, w: bool) -> spec_fn(Formatter, Seq<char>) -> bool {
    |f: Formatter, x: Seq<char>| out0(d, w, f, x)
}

/// A company name: a drawn company template, rendered.
pub open spec fn company_yields(d: Locale, w: bool, x: Seq<char>) -> bool {
    renders_from(d.company.formats, w, x, lvl0(d, w))
}

/// A user name: a drawn user-name template, rendered, with `bothify` applied, lowercased,
/// made ASCII and slugified.
pub open spec fn user_name_yields(d: Locale, w: bool, x: Seq<char>) -> bool {
    exists|r: Seq<char>, b: Seq<char>|
        renders_from(d.internet.user_name_formats, w, r, lvl0(d, w)) && #[trigger] bothified(r, b)
            && x == slug_of(ascii_form(lower_of(b)), true)
}

/// What a formatter of level at most 1 may give.
pub open spec fn out1(d: Locale, w: bool, f: Formatter, x: Seq<char>) -> bool {
    match f {
        Formatter::City => renders_from(d.address.city_formats, w, x, lvl0(d, w)),
        Formatter::StreetName => renders_from(d.address.street_name_formats, w, x, lvl0(d, w)),
        Formatter::UserName => user_name_yields(d, w, x),
        _ => out0(d, w, f, x),
    }
}

/// Outputs of formatters of level at most 1, as a relation for level-2 templates.
pub open spec fn lvl1(d: Locale, w: bool) -> spec_fn(Formatter, Seq<char>) -> bool {
    |f: Formatter, x: Seq<char>| out1(d, w, f, x)
}

/// The text before the first space (all of it when there is none).
pub open spec fn first_word(s: Seq<char>) -> Seq<char>
    decreases s.len(),
{
    if s.len() == 0 {
        s
    } else if s[0] == ' ' {
        Seq::empty()
    } else {
        seq![s[0]] + first_word(s.drop_first())
    }
}

/// The domain word made from a company name: its first word, made ASCII, slugified,
/// lowercased.
pub open spec fn domain_word_of(company: Seq<char>) -> Seq<char> {
    lower_of(slug_of(ascii_form(first_word(company)), true))
}

/// A domain word: made from a company name the generator may give.
pub open spec fn domain_word_yields(d: Locale, w: bool, x: Seq<char>) -> bool {
    exists|c: Seq<char>| company_yields(d, w, c) && x == #[trigger] domain_word_of(c)
}

/// The labels joined by dots.
pub open spec fn dotted(labels: Seq<Seq<char>>) -> Seq<char>
    decreases labels.len(),
{
    if labels.len() == 0 {
        Seq::empty()
    } else if labels.len() == 1 {
        labels[0]
    } else {
        dotted(labels.drop_last()) + seq!['.'] + labels.last()
    }
}

/// A domain name of `levels` words (at least one) before a lowercased top-level domain.
pub open spec fn domain_name_yields(d: Locale, w: bool, levels: nat, x: Seq<char>) -> bool {
    exists|labels: Seq<Seq<char>>, tld: Seq<char>|
        labels.len() == (if levels >= 1 {
            levels
        } else {
            1
        }) && (forall|i: int| 0 <= i < labels.len() ==> domain_word_yields(d, w, #[trigger] labels[i]))
            && d.internet.tlds.yields(tld, w) && x == #[trigger] domain_of(labels, tld)
}

/// The labels and the lowercased top-level domain, dot-separated.
pub open spec fn domain_of(labels: Seq<Seq<char>>, tld: Seq<char>) -> Seq<char> {
    dotted(labels) + seq!['.'] + lower_of(tld)
}

/// The number of `.` in `s`.
pub open spec fn dot_count(s: Seq<char>) -> nat
    decreases s.len(),
{
    if s.len() == 0 {
        0
    } else {
        dot_count(s.drop_last()) + if s.last() == '.' { 1nat } else { 0nat }
    }
}

proof fn lemma_dot_count_add(a: Seq<char>, b: Seq<char>)
    ensures
        dot_count(a + b) == dot_count(a) + dot_count(b),
    decreases b.len(),
{
    if b.len() == 0 {
        assert(a + b == a);
    } else {
        lemma_dot_count_add(a, b.drop_last());
        assert((a + b).drop_last() == a + b.drop_last());
    }
}

proof fn lemma_dot_count_dot()
    ensures
        dot_count(seq!['.']) == 1,
{
    assert(seq!['.'].drop_last() =~= Seq::<char>::empty());
    assert(dot_count(Seq::<char>::empty()) == 0);
    assert(seq!['.'].last() == '.');
}

proof fn lemma_dot_count_none(s: Seq<char>)
    requires
        forall|i: int| 0 <= i < s.len() ==> #[trigger] s[i] != '.',
    ensures
        dot_count(s) == 0,
    decreases s.len(),
{
    if s.len() > 0 {
        lemma_dot_count_none(s.drop_last());
    }
}

/// A domain name of labels and a top-level domain that hold no `.` (the TLD in ASCII) has
/// exactly one `.` per label: one between each two labels and one before the TLD.
pub proof fn lemma_domain_dots(labels: Seq<Seq<char>>, tld: Seq<char>)
    requires
        labels.len() >= 1,
        forall|i: int, j: int| 0 <= i < labels.len() && 0 <= j < labels[i].len() ==> #[trigger] labels[i][j] != '.',
        all_ascii(tld),
        forall|j: int| 0 <= j < tld.len() ==> #[trigger] tld[j] != '.',
    ensures
        dot_count(domain_of(labels, tld)) == labels.len(),
    decreases labels.len(),
{
    lemma_dotted_dots(labels);
    let t = lower_of(tld);
    assert(t == tld.map_values(|c: char| ascii_lower(c)));
    assert forall|j: int| 0 <= j < t.len() implies #[trigger] t[j] != '.' by {
        assert(t[j] == ascii_lower(tld[j]));
    }
    lemma_dot_count_none(t);
    lemma_dot_count_add(dotted(labels) + seq!['.'], t);
    lemma_dot_count_add(dotted(labels), seq!['.']);
    assert(seq!['.'].drop_last() =~= Seq::<char>::empty());
    lemma_dot_count_dot();
    assert(domain_of(labels, tld) == dotted(labels) + seq!['.'] + t);
}

proof fn lemma_dotted_dots(labels: Seq<Seq<char>>)
    requires
        labels.len() >= 1,
        forall|i: int, j: int| 0 <= i < labels.len() && 0 <= j < labels[i].len() ==> #[trigger] labels[i][j] != '.',
    ensures
        dot_count(dotted(labels)) == labels.len() - 1,
    decreases labels.len(),
{
    let last = labels.last();
    assert forall|j: int| 0 <= j < last.len() implies #[trigger] last[j] != '.' by {
        assert(labels[labels.len() - 1][j] != '.');
    }
    lemma_dot_count_none(last);
    if labels.len() >= 2 {
        let init = labels.drop_last();
        assert forall|i: int, j: int| 0 <= i < init.len() && 0 <= j < init[i].len() implies #[trigger] init[i][j]
            != '.' by {
            assert(init[i] == labels[i]);
        }
        lemma_dotted_dots(init);
        lemma_dot_count_add(dotted(init) + seq!['.'], last);
        lemma_dot_count_add(dotted(init), seq!['.']);
        assert(seq!['.'].drop_last() =~= Seq::<char>::empty());
        lemma_dot_count_dot();
        assert(dotted(labels) == dotted(init) + seq!['.'] + last);
    } else {
        assert(dotted(labels) == last);
    }
}

/// A domain word made from a company name whose first word is ASCII holds no `.`.
pub proof fn lemma_domain_word_no_dot(company: Seq<char>)
    requires
        all_ascii(first_word(company)),
    ensures
        forall|j: int| 0 <= j < domain_word_of(company).len() ==> #[trigger] domain_word_of(company)[j] != '.',
{
    let v = first_word(company);
    assert(ascii_form(v) == v);
    assert(slug_of(v, true) == slug_of(v, false));
    lemma_slug_charset(v);
    let y = slug_of(v, false);
    assert(all_ascii(y)) by {
        assert forall|i: int| 0 <= i < y.len() implies ascii_char(#[trigger] y[i]) by {
            assert(slug_safe(y[i]));
        }
    }
    let l = lower_of(y);
    assert(l == y.map_values(|c: char| ascii_lower(c)));
    assert forall|j: int| 0 <= j < l.len() implies #[trigger] l[j] != '.' by {
        assert(slug_safe(y[j]));
        assert(l[j] == ascii_lower(y[j]));
    }
}

/// What a formatter may give, whatever its level.
pub open spec fn fill(d: Locale, w: bool, f: Formatter, x: Seq<char>) -> bool {
    match f {
        Formatter::StreetAddress => renders_from(d.address.street_address_formats, w, x, lvl1(d, w)),
        Formatter::DomainName => domain_name_yields(d, w, 1, x),
        _ => out1(d, w, f, x),
    }
}

/// Outputs of all formatters, as a relation for top-level templates.
pub open spec fn fill_rel(d: Locale, w: bool) -> spec_fn(Formatter, Seq<char>) -> bool {
    |f: Formatter, x: Seq<char>| fill(d, w, f, x)
}

/// The relation for tokens of a template whose tokens all have level below `k`.
pub open spec fn rel_at(d: Locale, w: bool, k: nat) -> spec_fn(Formatter, Seq<char>) -> bool {
    if k <= 1 {
        lvl0(d, w)
    } else if k == 2 {
        lvl1(d, w)
    } else {
        fill_rel(d, w)
    }
}

/// `(text, next state)` of a draw from an optional table: nothing, and no draw, without it.
pub open spec fn opt_draw(t: Option<Table<String>>, state: u128, w: bool) -> (Seq<char>, u128) {
    match t {
        Some(table) => table.draw(state, w),
        None => (Seq::empty(), state),
    }
}

/// `(text, next state)` of `numerify` on an optional format: nothing without it.
pub open spec fn numerify_opt(format: Option<String>, state: u128) -> (Seq<char>, u128) {
    match format {
        Some(f) => numerify_run(f@, state),
        None => (Seq::empty(), state),
    }
}

/// `(text, next state)` of a secondary address: a drawn format, numerified.
pub open spec fn secondary_draw(a: AddressData, state: u128, w: bool) -> (Seq<char>, u128) {
    match a.secondary_address_formats {
        Some(t) => numerify_drawn(t, state, w),
        None => (Seq::empty(), state),
    }
}

/// `(text, next state)` of Faker's prefix/suffix fallback from `state`: the combined
/// table, else one pick over all three gendered tables, else a coin between the male and
/// female tables, else nothing.
pub open spec fn gendered_draw(
    combined: Option<Table<String>>,
    male: Option<Table<String>>,
    female: Option<Table<String>>,
    nonbinary: Option<Table<String>>,
    state: u128,
    w: bool,
) -> (Seq<char>, u128) {
    match combined {
        Some(t) => t.draw(state, w),
        None => match (male, female, nonbinary) {
            (Some(m), Some(f), Some(n)) => {
                let tabs = seq![&m, &f, &n];
                let (ki, next) = concat_draw(tabs, state, w);
                (tabs[ki.0].items@[ki.1]@, next)
            },
            (Some(m), Some(f), None) => {
                let (i, mid) = pcg_draw_u64(state, 1);
                if i == 0 {
                    m.draw(mid, w)
                } else {
                    f.draw(mid, w)
                }
            },
            _ => (Seq::empty(), state),
        },
    }
}

/// `(prefix, next state)` of a prefix of any gender.
pub open spec fn prefix_draw(p: PersonData, state: u128, w: bool) -> (Seq<char>, u128) {
    gendered_draw(p.prefixes, p.prefixes_male, p.prefixes_female, p.prefixes_nonbinary, state, w)
}

/// `(suffix, next state)` of a suffix of any gender.
pub open spec fn suffix_draw(p: PersonData, state: u128, w: bool) -> (Seq<char>, u128) {
    gendered_draw(p.suffixes, p.suffixes_male, p.suffixes_female, p.suffixes_nonbinary, state, w)
}

/// `(text, next state)` of a gendered table, or of `any` when the locale has none.
pub open spec fn gendered_or_draw(t: Option<Table<String>>, any: (Seq<char>, u128), state: u128, w: bool) -> (
    Seq<char>,
    u128,
) {
    match t {
        Some(table) => table.draw(state, w),
        None => any,
    }
}

/// `(ZIP code, next state)` of an `en_US` postcode.
pub open spec fn postcode_draw(state: u128) -> (Seq<char>, u128) {
    let (n, next) = randint_draw(state, 501, 99950);
    (zip5(n as nat), next)
}

/// `(text, next state)` of a plain (level 0) formatter from `state`.
pub open spec fn out0_draw(d: Locale, w: bool, f: Formatter, state: u128) -> (Seq<char>, u128) {
    let p = d.person;
    let a = d.address;
    match f {
        Formatter::BuildingNumber => numerify_drawn(a.building_number_formats, state, w),
        Formatter::CityPrefix => opt_draw(a.city_prefixes, state, w),
        Formatter::CitySuffix => a.city_suffixes.draw(state, w),
        Formatter::CompanySuffix => d.company.company_suffixes.draw(state, w),
        Formatter::FirstName => p.first_names.draw(state, w),
        Formatter::FirstNameFemale => table_or(p.first_names_female, p.first_names).draw(state, w),
        Formatter::FirstNameMale => table_or(p.first_names_male, p.first_names).draw(state, w),
        Formatter::FirstNameNonbinary => table_or(p.first_names_nonbinary, p.first_names).draw(state, w),
        Formatter::FreeEmailDomain => d.internet.free_email_domains.draw(state, w),
        Formatter::LastName => p.last_names.draw(state, w),
        Formatter::MilitaryApo => numerify_opt(a.military_apo_format, state),
        Formatter::MilitaryDpo => numerify_opt(a.military_dpo_format, state),
        Formatter::MilitaryShip => opt_draw(a.military_ship_prefix, state, w),
        Formatter::MilitaryState => opt_draw(a.military_state_abbr, state, w),
        Formatter::Postcode => postcode_draw(state),
        Formatter::PrefixFemale => gendered_or_draw(p.prefixes_female, prefix_draw(p, state, w), state, w),
        Formatter::PrefixMale => gendered_or_draw(p.prefixes_male, prefix_draw(p, state, w), state, w),
        Formatter::PrefixNonbinary => gendered_or_draw(p.prefixes_nonbinary, prefix_draw(p, state, w), state, w),
        Formatter::SecondaryAddress => secondary_draw(a, state, w),
        Formatter::StateAbbr => state_abbr_draw(a, true, true, state, w),
        Formatter::StreetSuffix => a.street_suffixes.draw(state, w),
        Formatter::SuffixFemale => gendered_or_draw(p.suffixes_female, suffix_draw(p, state, w), state, w),
        Formatter::SuffixMale => gendered_or_draw(p.suffixes_male, suffix_draw(p, state, w), state, w),
        Formatter::SuffixNonbinary => gendered_or_draw(p.suffixes_nonbinary, suffix_draw(p, state, w), state, w),
        _ => (Seq::empty(), state),
    }
}

/// `(text, next state)` of a formatter from `state`: the stream is threaded through every
/// draw its output takes, nested templates included.
pub open spec fn fmt_draw(d: Locale, w: bool, f: Formatter, state: u128) -> (Seq<char>, u128)
    decreases f.level() + 1, 0nat,
{
    match f {
        Formatter::City => {
            let t = d.address.city_formats;
            let (i, mid) = t.pick_draw(state, w);
            render_draw(d, w, t.items@[i]@, mid, 1)
        },
        Formatter::StreetName => {
            let t = d.address.street_name_formats;
            let (i, mid) = t.pick_draw(state, w);
            render_draw(d, w, t.items@[i]@, mid, 1)
        },
        Formatter::UserName => {
            let t = d.internet.user_name_formats;
            let (i, s1) = t.pick_draw(state, w);
            let (r, s2) = render_draw(d, w, t.items@[i]@, s1, 1);
            let (b, s3) = bothify_run(r, s2);
            (slug_of(ascii_form(lower_of(b)), true), s3)
        },
        Formatter::StreetAddress => {
            let t = d.address.street_address_formats;
            let (i, mid) = t.pick_draw(state, w);
            render_draw(d, w, t.items@[i]@, mid, 2)
        },
        Formatter::DomainName => {
            let t = d.company.formats;
            let (i, s1) = t.pick_draw(state, w);
            let (c, s2) = render_draw(d, w, t.items@[i]@, s1, 1);
            let (tld, s3) = d.internet.tlds.draw(s2, w);
            (domain_of(seq![domain_word_of(c)], tld), s3)
        },
        _ => out0_draw(d, w, f, state),
    }
}

/// `(text, next state)` of rendering template `t` from `state`, each token through
/// `fmt_draw` in turn (tokens of level `k` or more render as nothing).
pub open spec fn render_draw(d: Locale, w: bool, t: Seq<Segment>, state: u128, k: nat) -> (Seq<char>, u128)
    decreases k, t.len(),
{
    if t.len() == 0 {
        (Seq::empty(), state)
    } else {
        let (x, mid) = render_draw(d, w, t.drop_last(), state, k);
        match t.last() {
            Segment::Literal(l) => (x + l@, mid),
            Segment::Token(g) => if g.level() < k {
                let (y, next) = fmt_draw(d, w, g, mid);
                (x + y, next)
            } else {
                (x, mid)
            },
        }
    }
}

/// `(text, next state)` of picking a template from `table` and rendering it.
pub open spec fn render_pick_draw(d: Locale, w: bool, table: Table<Template>, state: u128, k: nat) -> (
    Seq<char>,
    u128,
) {
    let (i, mid) = table.pick_draw(state, w);
    render_draw(d, w, table.items@[i]@, mid, k)
}

/// `(domain word, next state)`: a company name rendered from `state`, made into a word.
pub open spec fn domain_word_draw(d: Locale, w: bool, state: u128) -> (Seq<char>, u128) {
    let (c, next) = render_pick_draw(d, w, d.company.formats, state, 1);
    (domain_word_of(c), next)
}

/// `(labels, next state)` of `n` domain words drawn in turn from `state`.
pub open spec fn domain_labels_draw(d: Locale, w: bool, n: nat, state: u128) -> (Seq<Seq<char>>, u128)
    decreases n,
{
    if n == 0 {
        (Seq::empty(), state)
    } else {
        let (labels, mid) = domain_labels_draw(d, w, (n - 1) as nat, state);
        let (x, next) = domain_word_draw(d, w, mid);
        (labels.push(x), next)
    }
}

/// `(domain name, next state)` of `levels` words (at least one) and a drawn TLD.
pub open spec fn domain_name_draw(d: Locale, w: bool, levels: nat, state: u128) -> (Seq<char>, u128) {
    let n: nat = if levels >= 1 { levels } else { 1 };
    let (labels, mid) = domain_labels_draw(d, w, n, state);
    let (tld, next) = d.internet.tlds.draw(mid, w);
    (domain_of(labels, tld), next)
}

/// What `Generator.parse` may turn `text` into: each literal character stays, each token
/// becomes an output of the formatter it names.
pub open spec fn parsed(d: Locale, w: bool, ps: Seq<Piece>, x: Seq<char>) -> bool {
    exists|parts: Seq<Seq<char>>|
        parts.len() == ps.len() && x == flatten(parts) && forall|i: int|
            0 <= i < ps.len() ==> piece_fills(d, w, ps[i], #[trigger] parts[i])
}

/// What one scanned piece may become.
pub open spec fn piece_fills(d: Locale, w: bool, p: Piece, x: Seq<char>) -> bool {
    match p {
        Piece::Text(c) => x == seq![c],
        Piece::Name(n) => exists|f: Formatter| f.name_spec() == n && #[trigger] fill(d, w, f, x),
    }
}

/// A formatter's output is the right kind for any template it may stand in.
proof fn lemma_fill_at(d: Locale, w: bool, f: Formatter, x: Seq<char>, k: nat)
    requires
        fill(d, w, f, x),
        f.level() < k,
    ensures
        (rel_at(d, w, k))(f, x),
{
}

/// `(text, next state)` of `parse` over the pieces `ps` from `state`, left to right: text
/// stays, a name is filled by its formatter (an unknown one adds nothing).
pub open spec fn pieces_draw(d: Locale, w: bool, ps: Seq<Piece>, state: u128) -> (Seq<char>, u128)
    decreases ps.len(),
{
    if ps.len() == 0 {
        (Seq::empty(), state)
    } else {
        let (x, s1) = pieces_draw(d, w, ps.drop_last(), state);
        match ps.last() {
            Piece::Text(c) => (x.push(c), s1),
            Piece::Name(n) => match formatter_named(n) {
                Some(f) => {
                    let (y, s2) = fmt_draw(d, w, f, s1);
                    (x + y, s2)
                },
                None => (x, s1),
            },
        }
    }
}

/// The first name in `ps` that no formatter has is `n`.
pub open spec fn first_unknown_is(ps: Seq<Piece>, n: Seq<char>) -> bool {
    exists|k: int|
        0 <= k < ps.len() && #[trigger] ps[k] == Piece::Name(n) && !known_name(n) && all_known(ps.take(k))
}

impl Generator {
    /// Appends a rendering of template `t`, whose tokens all have level below `k`.
    pub(crate) fn render_at(&mut self, t: &Template, out: &mut String, k: u8)
        requires
            1 <= k <= 3,
            template_below(t@, k as nat),
        ensures
            old(self).same_config(final(self)),
            exists|x: Seq<char>|
                final(out)@ == old(out)@ + x && rendered_with(
                    t@,
                    x,
                    rel_at(old(self).data(), old(self).weighting(), k as nat),
                ),
            final(out)@ == old(out)@ + render_draw(old(self).data(), old(self).weighting(), t@, old(self).stream().state_view(), k as nat).0,
            final(self).stream().state_view() == render_draw(old(self).data(), old(self).weighting(), t@, old(self).stream().state_view(), k as nat).1,
        decreases k - 1, 4nat,
    {
        let ghost d = self.data();
        let ghost w = self.weighting();
        let ghost g0 = *old(self);
        let ghost start = out@;
        let ghost s0 = self.stream().state_view();
        let ghost mut parts: Seq<Seq<char>> = Seq::empty();
        for i in 0..t.len()
            invariant
                1 <= k <= 3,
                template_below(t@, k as nat),
                g0.same_config(self),
                d == g0.data(),
                w == g0.weighting(),
                s0 == g0.stream().state_view(),
                parts.len() == i,
                out@ == start + flatten(parts),
                forall|j: int| 0 <= j < i ==> seg_fills(t@[j], #[trigger] parts[j], rel_at(d, w, k as nat)),
                flatten(parts) == render_draw(d, w, t@.take(i as int), s0, k as nat).0,
                self.stream().state_view() == render_draw(d, w, t@.take(i as int), s0, k as nat).1,
        {
            let ghost before = out@;
            let ghost sb = self.stream().state_view();
            match &t[i] {
                Segment::Literal(l) => {
                    out.append(l.as_str());
                },
                Segment::Token(f) => {
                    assert(t@[i as int] matches Segment::Token(g) && g.level() < k);
                    self.write_formatter(*f, out);
                },
            }
            proof {
                let p = out@.subrange(before.len() as int, out@.len() as int);
                assert(out@ == before + p);
                match t@[i as int] {
                    Segment::Token(f) => {
                        let y = choose|y: Seq<char>| out@ == before + y && fill(d, w, f, y);
                        assert(y == p);
                        lemma_fill_at(d, w, f, p, k as nat);
                    },
                    Segment::Literal(l) => {
                        assert(out@ == before + l@);
                        assert(p == l@);
                    },
                }
                assert(seg_fills(t@[i as int], p, rel_at(d, w, k as nat)));
                assert(parts.push(p).drop_last() == parts);
                assert(t@.take(i + 1).drop_last() == t@.take(i as int));
                assert(t@.take(i + 1).last() == t@[i as int]);
                parts = parts.push(p);
            }
        }
        assert(t@.take(t.len() as int) == t@);
        assert(rendered_with(t@, flatten(parts), rel_at(d, w, k as nat)));
    }

    /// Appends a rendered template to `out`.
    pub fn render(&mut self, template: &Template, out: &mut String)
        ensures
            old(self).same_config(final(self)),
            exists|x: Seq<char>|
                final(out)@ == old(out)@ + x && rendered_with(
                    template@,
                    x,
                    fill_rel(old(self).data(), old(self).weighting()),
                ),
            final(out)@ == old(out)@ + render_draw(old(self).data(), old(self).weighting(), template@, old(self).stream().state_view(), 3).0,
            final(self).stream().state_view() == render_draw(old(self).data(), old(self).weighting(), template@, old(self).stream().state_view(), 3).1,
    {
        assert forall|j: int| 0 <= j < template@.len() implies (#[trigger] template@[j] matches Segment::Token(
            f,
        ) ==> f.level() < 3) by {}
        self.render_at(template, out, 3);
    }

    /// Picks a template from `table` (whose tokens have level below `k`) and renders it.
    pub(crate) fn render_pick_at(&mut self, table: &Table<Template>, k: u8) -> (r: String)
        requires
            1 <= k <= 3,
            templates_ok(table, k as nat),
        ensures
            old(self).same_config(final(self)),
            renders_from(*table, old(self).weighting(), r@, rel_at(old(self).data(), old(self).weighting(), k as nat)),
            (r@, final(self).stream().state_view()) == render_pick_draw(old(self).data(), old(self).weighting(), *table, old(self).stream().state_view(), k as nat),
        decreases k - 1, 5nat,
    {
        let i = self.pick(table);
        let mut out = String::new();
        assert(template_below(table.items@[i as int]@, k as nat));
        self.render_at(&table.items[i], &mut out, k);
        assert(out@ == Seq::<char>::empty() + out@);
        out
    }

    /// Picks a template from `table` and renders it into a new string.
    pub(crate) fn render_pick(&mut self, table: &Table<Template>) -> (r: String)
        requires
            table.wf(),
        ensures
            old(self).same_config(final(self)),
            renders_from(*table, old(self).weighting(), r@, fill_rel(old(self).data(), old(self).weighting())),
            (r@, final(self).stream().state_view()) == render_pick_draw(old(self).data(), old(self).weighting(), *table, old(self).stream().state_view(), 3),
    {
        assert forall|i: int| 0 <= i < table.items.len() implies template_below(
            #[trigger] table.items@[i]@,
            3,
        ) by {
            assert forall|j: int| 0 <= j < table.items@[i]@.len() implies (
            #[trigger] table.items@[i]@[j] matches Segment::Token(f) ==> f.level() < 3) by {}
        }
        self.render_pick_at(table, 3)
    }

    /// Appends the output of a zero-argument formatter to `out`.
    pub fn write_formatter(&mut self, formatter: Formatter, out: &mut String)
        ensures
            old(self).same_config(final(self)),
            exists|x: Seq<char>|
                final(out)@ == old(out)@ + x && fill(old(self).data(), old(self).weighting(), formatter, x),
            final(out)@ == old(out)@ + fmt_draw(old(self).data(), old(self).weighting(), formatter, old(self).stream().state_view()).0,
            final(self).stream().state_view() == fmt_draw(old(self).data(), old(self).weighting(), formatter, old(self).stream().state_view()).1,
        decreases formatter.level(), 3nat,
    {
        let ghost before = out@;
        let ghost d = self.data();
        let ghost w = self.weighting();
        let ghost s0 = self.stream().state_view();
        proof {
            if formatter.level() == 0 {
                assert(fmt_draw(d, w, formatter, s0) == out0_draw(d, w, formatter, s0));
            }
        }
        match formatter {
            Formatter::BuildingNumber => {
                self.write_building_number(out);
            },
            Formatter::City => {
                let s = self.city();
                out.append(s.as_str());
                assert(out@ == before + fmt_draw(d, w, formatter, s0).0 && self.stream().state_view() == fmt_draw(d, w, formatter, s0).1);
            },
            Formatter::CityPrefix => {
                let s = self.city_prefix();
                out.append(s.as_str());
                assert(out@ == before + fmt_draw(d, w, formatter, s0).0 && self.stream().state_view() == fmt_draw(d, w, formatter, s0).1);
            },
            Formatter::CitySuffix => {
                let s = self.city_suffix();
                out.append(s.as_str());
                assert(out@ == before + fmt_draw(d, w, formatter, s0).0 && self.stream().state_view() == fmt_draw(d, w, formatter, s0).1);
            },
            Formatter::CompanySuffix => {
                let s = self.company_suffix();
                out.append(s.as_str());
                assert(out@ == before + fmt_draw(d, w, formatter, s0).0 && self.stream().state_view() == fmt_draw(d, w, formatter, s0).1);
            },
            Formatter::DomainName => {
                self.write_domain_name(1, out);
                proof {
                    let (x, s1) = domain_word_draw(d, w, s0);
                    assert(domain_labels_draw(d, w, 0, s0) == (Seq::<Seq<char>>::empty(), s0));
                    assert(domain_labels_draw(d, w, 1, s0) == (Seq::<Seq<char>>::empty().push(x), s1));
                    assert(Seq::<Seq<char>>::empty().push(x) =~= seq![x]);
                }
                assert(out@ == before + fmt_draw(d, w, formatter, s0).0 && self.stream().state_view() == fmt_draw(d, w, formatter, s0).1);
            },
            Formatter::FirstName => {
                let s = self.first_name();
                out.append(s.as_str());
                assert(out@ == before + fmt_draw(d, w, formatter, s0).0 && self.stream().state_view() == fmt_draw(d, w, formatter, s0).1);
            },
            Formatter::FirstNameFemale => {
                let s = self.first_name_female();
                out.append(s.as_str());
                assert(out@ == before + fmt_draw(d, w, formatter, s0).0 && self.stream().state_view() == fmt_draw(d, w, formatter, s0).1);
            },
            Formatter::FirstNameMale => {
                let s = self.first_name_male();
                out.append(s.as_str());
                assert(out@ == before + fmt_draw(d, w, formatter, s0).0 && self.stream().state_view() == fmt_draw(d, w, formatter, s0).1);
            },
            Formatter::FirstNameNonbinary => {
                let s = self.first_name_nonbinary();
                out.append(s.as_str());
                assert(out@ == before + fmt_draw(d, w, formatter, s0).0 && self.stream().state_view() == fmt_draw(d, w, formatter, s0).1);
            },
            Formatter::FreeEmailDomain => {
                let s = self.free_email_domain();
                out.append(s.as_str());
                assert(out@ == before + fmt_draw(d, w, formatter, s0).0 && self.stream().state_view() == fmt_draw(d, w, formatter, s0).1);
            },
            Formatter::LastName => {
                let s = self.last_name();
                out.append(s.as_str());
                assert(out@ == before + fmt_draw(d, w, formatter, s0).0 && self.stream().state_view() == fmt_draw(d, w, formatter, s0).1);
            },
            Formatter::MilitaryApo => {
                self.write_military_apo(out);
                assert(out@ == before + fmt_draw(d, w, formatter, s0).0 && self.stream().state_view() == fmt_draw(d, w, formatter, s0).1);
            },
            Formatter::MilitaryDpo => {
                self.write_military_dpo(out);
                assert(out@ == before + fmt_draw(d, w, formatter, s0).0 && self.stream().state_view() == fmt_draw(d, w, formatter, s0).1);
            },
            Formatter::MilitaryShip => {
                let s = self.military_ship();
                out.append(s.as_str());
                assert(out@ == before + fmt_draw(d, w, formatter, s0).0 && self.stream().state_view() == fmt_draw(d, w, formatter, s0).1);
            },
            Formatter::MilitaryState => {
                let s = self.military_state();
                out.append(s.as_str());
                assert(out@ == before + fmt_draw(d, w, formatter, s0).0 && self.stream().state_view() == fmt_draw(d, w, formatter, s0).1);
            },
            Formatter::Postcode => {
                self.write_postcode(out);
                assert(out@ == before + fmt_draw(d, w, formatter, s0).0 && self.stream().state_view() == fmt_draw(d, w, formatter, s0).1);
            },
            Formatter::PrefixFemale => {
                let s = self.prefix_female();
                out.append(s.as_str());
                assert(out@ == before + fmt_draw(d, w, formatter, s0).0 && self.stream().state_view() == fmt_draw(d, w, formatter, s0).1);
            },
            Formatter::PrefixMale => {
                let s = self.prefix_male();
                out.append(s.as_str());
                assert(out@ == before + fmt_draw(d, w, formatter, s0).0 && self.stream().state_view() == fmt_draw(d, w, formatter, s0).1);
            },
            Formatter::PrefixNonbinary => {
                let s = self.prefix_nonbinary();
                out.append(s.as_str());
                assert(out@ == before + fmt_draw(d, w, formatter, s0).0 && self.stream().state_view() == fmt_draw(d, w, formatter, s0).1);
            },
            Formatter::SecondaryAddress => {
                self.write_secondary_address(out);
                assert(out@ == before + fmt_draw(d, w, formatter, s0).0 && self.stream().state_view() == fmt_draw(d, w, formatter, s0).1);
            },
            Formatter::StateAbbr => {
                let s = self.state_abbr(true, true);
                out.append(s.as_str());
                assert(out@ == before + fmt_draw(d, w, formatter, s0).0 && self.stream().state_view() == fmt_draw(d, w, formatter, s0).1);
            },
            Formatter::StreetAddress => {
                let s = self.street_address();
                out.append(s.as_str());
                assert(out@ == before + fmt_draw(d, w, formatter, s0).0 && self.stream().state_view() == fmt_draw(d, w, formatter, s0).1);
            },
            Formatter::StreetName => {
                let s = self.street_name();
                out.append(s.as_str());
                assert(out@ == before + fmt_draw(d, w, formatter, s0).0 && self.stream().state_view() == fmt_draw(d, w, formatter, s0).1);
            },
            Formatter::StreetSuffix => {
                let s = self.street_suffix();
                out.append(s.as_str());
                assert(out@ == before + fmt_draw(d, w, formatter, s0).0 && self.stream().state_view() == fmt_draw(d, w, formatter, s0).1);
            },
            Formatter::SuffixFemale => {
                let s = self.suffix_female();
                out.append(s.as_str());
                assert(out@ == before + fmt_draw(d, w, formatter, s0).0 && self.stream().state_view() == fmt_draw(d, w, formatter, s0).1);
            },
            Formatter::SuffixMale => {
                let s = self.suffix_male();
                out.append(s.as_str());
                assert(out@ == before + fmt_draw(d, w, formatter, s0).0 && self.stream().state_view() == fmt_draw(d, w, formatter, s0).1);
            },
            Formatter::SuffixNonbinary => {
                let s = self.suffix_nonbinary();
                out.append(s.as_str());
                assert(out@ == before + fmt_draw(d, w, formatter, s0).0 && self.stream().state_view() == fmt_draw(d, w, formatter, s0).1);
            },
            Formatter::UserName => {
                let s = self.user_name();
                out.append(s.as_str());
                assert(out@ == before + fmt_draw(d, w, formatter, s0).0 && self.stream().state_view() == fmt_draw(d, w, formatter, s0).1);
            },
        }
    }

    /// Replaces `{{ token }}` occurrences in arbitrary text, like Faker's `Generator.parse`.
    /// Unmatched braces are kept verbatim; argument groups are not supported here. A name
    /// that no formatter has is an `UnknownFormatter` error.
    pub fn parse(&mut self, text: &str) -> (r: Result<String>)
        ensures
            old(self).same_config(final(self)),
            r is Ok <==> all_known(pieces(text@)),
            r matches Ok(s) ==> parsed(old(self).data(), old(self).weighting(), pieces(text@), s@),
            r matches Err(e) ==> e matches Error::UnknownFormatter(n) && first_unknown_is(pieces(text@), n@),
            r matches Ok(s) ==> (s@, final(self).stream().state_view()) == pieces_draw(
                old(self).data(),
                old(self).weighting(),
                pieces(text@),
                old(self).stream().state_view(),
            ),
    {
        let ghost d = self.data();
        let ghost w = self.weighting();
        let ghost g0 = *old(self);
        let v = chars_of(text);
        let mut out = String::new();
        let ghost mut done: Seq<Piece> = Seq::empty();
        let ghost mut parts: Seq<Seq<char>> = Seq::empty();
        let mut p: usize = 0;
        while p < v.len()
            invariant
                v@ == text@,
                p <= v.len(),
                g0 == *old(self),
                g0.same_config(self),
                d == g0.data(),
                w == g0.weighting(),
                pieces(v@) == done + pieces_from(v@, p as int),
                parts.len() == done.len(),
                out@ == flatten(parts),
                forall|i: int| 0 <= i < done.len() ==> piece_fills(d, w, done[i], #[trigger] parts[i]),
                all_known(done),
                (out@, self.stream().state_view()) == pieces_draw(d, w, done, g0.stream().state_view()),
            decreases v.len() - p,
        {
            let ghost rest = pieces_from(v@, p as int);
            let ghost before = out@;
            let ghost st = self.stream().state_view();
            let ghost done0 = done;
            if p + 1 < v.len() && v[p] == '{' && v[p + 1] == '{' {
                proof {
                    lemma_token_at_bounds(v@, p + 2);
                }
                match match_token(&v, p + 2) {
                    Some((a, b, e)) => {
                        let name = string_of_range(&v, a, b);
                        assert(rest == seq![Piece::Name(v@.subrange(a as int, b as int))] + pieces_from(v@, e as int));
                        match Formatter::from_name(name.as_str()) {
                            Some(f) => {
                                self.write_formatter(f, &mut out);
                                proof {
                                    let x = out@.subrange(before.len() as int, out@.len() as int);
                                    assert(out@ == before + x);
                                    let y = choose|y: Seq<char>| out@ == before + y && fill(d, w, f, y);
                                    assert(y == x);
                                    assert(piece_fills(d, w, rest[0], x));
                                    assert(parts.push(x).drop_last() == parts);
                                    parts = parts.push(x);
                                    done = done.push(rest[0]);
                                    assert(all_known(done)) by {
                                        assert(f.name_spec() == name@);
                                    }
                                    assert(done.drop_last() == done0);
                                    assert(x == fmt_draw(d, w, f, st).0);
                                    assert(pieces(v@) == done + pieces_from(v@, e as int));
                                }
                                p = e;
                            },
                            None => {
                                proof {
                                    assert(pieces(v@)[done.len() as int] == Piece::Name(name@));
                                    assert(pieces(v@).take(done.len() as int) == done);
                                    assert(first_unknown_is(pieces(v@), name@));
                                    assert(!all_known(pieces(v@))) by {
                                        assert(pieces(v@)[done.len() as int] matches Piece::Name(n) && !known_name(n));
                                    }
                                }
                                return Err(Error::UnknownFormatter(name));
                            },
                        }
                    },
                    None => {
                        push_char(&mut out, '{');
                        proof {
                            assert(rest == seq![Piece::Text('{')] + pieces_from(v@, p + 1));
                            let x = seq!['{'];
                            assert(parts.push(x).drop_last() == parts);
                            parts = parts.push(x);
                            done = done.push(rest[0]);
                            assert(done.drop_last() == done0);
                            assert(pieces(v@) == done + pieces_from(v@, p + 1));
                        }
                        p = p + 1;
                    },
                }
            } else {
                push_char(&mut out, v[p]);
                proof {
                    let pi = p as int;
                    assert(!(p + 1 < v@.len() && v@[pi] == '{' && v@[pi + 1] == '{'));
                    assert(pieces_from(v@, pi) == seq![Piece::Text(v@[pi])] + pieces_from(v@, pi + 1));
                    let x = seq![v@[pi]];
                    assert(parts.push(x).drop_last() == parts);
                    parts = parts.push(x);
                    done = done.push(rest[0]);
                    assert(done.drop_last() == done0);
                    assert(pieces(v@) == done + pieces_from(v@, p + 1));
                }
                p = p + 1;
            }
        }
        assert(pieces(v@) == done);
        assert(parsed(d, w, pieces(text@), out@));
        Ok(out)
    }
}

} // verus!
