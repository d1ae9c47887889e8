//! The data of one locale: the tables every provider draws from.
use vstd::prelude::*;
use crate::table::{running_totals_ok, Country, Table};
use crate::template::{Segment, Template};

verus! {

/// Every token in `t` names a formatter of level below `d`.
pub open spec fn template_below(t: Seq<Segment>, d: nat) -> bool {
    forall|j: int| 0 <= j < t.len() ==> (#[trigger] t[j] matches Segment::Token(f) ==> f.level() < d)
}

/// A drawable table of templates whose tokens all have level below `d`.
pub open spec fn templates_ok(t: &Table<Template>, d: nat) -> bool {
    &&& t.wf()
    &&& forall|i: int| 0 <= i < t.items.len() ==> template_below(#[trigger] t.items@[i]@, d)
}

/// An optional table that is drawable when present.
pub open spec fn opt_ok<T>(t: &Option<Table<T>>) -> bool {
    t matches Some(table) ==> table.wf()
}

/// An optional template table that is usable when present.
pub open spec fn opt_templates_ok(t: &Option<Table<Template>>, d: nat) -> bool {
    t matches Some(table) ==> templates_ok(&table, d)
}

/// Tables for the `base` provider.
#[derive(Debug, Clone)]
pub struct BaseData {
    pub language_locale_codes: Vec<(String, Vec<String>)>,
}

/// Tables for the `person` provider.
#[derive(Debug, Clone)]
pub struct PersonData {
    pub formats: Table<Template>,
    pub formats_female: Option<Table<Template>>,
    pub formats_male: Option<Table<Template>>,
    pub formats_nonbinary: Option<Table<Template>>,
    pub first_names: Table<String>,
    pub first_names_female: Option<Table<String>>,
    pub first_names_male: Option<Table<String>>,
    pub first_names_nonbinary: Option<Table<String>>,
    pub last_names: Table<String>,
    pub last_names_female: Option<Table<String>>,
    pub last_names_male: Option<Table<String>>,
    pub last_names_nonbinary: Option<Table<String>>,
    pub prefixes: Option<Table<String>>,
    pub prefixes_female: Option<Table<String>>,
    pub prefixes_male: Option<Table<String>>,
    pub prefixes_nonbinary: Option<Table<String>>,
    pub suffixes: Option<Table<String>>,
    pub suffixes_female: Option<Table<String>>,
    pub suffixes_male: Option<Table<String>>,
    pub suffixes_nonbinary: Option<Table<String>>,
    pub language_names: Table<String>,
}

/// Tables for the `address` provider.
#[derive(Debug, Clone)]
pub struct AddressData {
    pub address_formats: Table<Template>,
    pub building_number_formats: Table<String>,
    pub city_formats: Table<Template>,
    pub city_prefixes: Option<Table<String>>,
    pub city_suffixes: Table<String>,
    pub countries: Table<String>,
    pub alpha_2_country_codes: Table<String>,
    pub alpha_3_country_codes: Table<String>,
    pub freely_associated_states_abbr: Option<Table<String>>,
    pub military_apo_format: Option<String>,
    pub military_dpo_format: Option<String>,
    pub military_ship_prefix: Option<Table<String>>,
    pub military_state_abbr: Option<Table<String>>,
    pub postcode_formats: Table<String>,
    pub secondary_address_formats: Option<Table<String>>,
    pub states: Option<Table<String>>,
    pub states_abbr: Option<Table<String>>,
    pub states_postcode: Option<Vec<(String, u32, u32)>>,
    pub street_address_formats: Table<Template>,
    pub street_name_formats: Table<Template>,
    pub street_suffixes: Table<String>,
    pub territories_abbr: Option<Table<String>>,
}

/// Tables for the `company` provider.
#[derive(Debug, Clone)]
pub struct CompanyData {
    pub formats: Table<Template>,
    pub company_suffixes: Table<String>,
    pub catch_phrase_words: Vec<Table<String>>,
    pub bs_words: Vec<Table<String>>,
}

/// Tables for the `internet` provider.
#[derive(Debug, Clone)]
pub struct InternetData {
    pub email_formats: Table<Template>,
    pub free_email_domains: Table<String>,
    pub hostname_prefixes: Table<String>,
    pub http_assigned_codes: Vec<u32>,
    pub http_methods: Table<String>,
    pub image_placeholder_services: Table<String>,
    pub safe_domain_names: Table<String>,
    pub tlds: Table<String>,
    pub uri_extensions: Table<String>,
    pub uri_pages: Table<String>,
    pub uri_paths: Table<String>,
    pub url_formats: Table<Template>,
    pub user_name_formats: Table<Template>,
}

/// Tables for the `phone_number` provider.
#[derive(Debug, Clone)]
pub struct PhoneNumberData {
    pub basic_formats: Option<Table<Template>>,
    pub country_calling_codes: Table<String>,
    pub formats: Table<String>,
    pub msisdn_formats: Table<String>,
}

/// Tables for the `lorem` provider.
#[derive(Debug, Clone)]
pub struct LoremData {
    pub parts_of_speech: Option<Vec<(String, Vec<String>)>>,
    pub sentence_punctuation: String,
    pub word_connector: String,
    pub word_list: Table<String>,
}

/// Tables for the `date_time` provider.
#[derive(Debug, Clone)]
pub struct DateTimeData {
    pub centuries: Table<String>,
    pub countries: Vec<Country>,
}

/// Locales compiled into this build.
#[derive(Debug, Clone, Copy, PartialEq, Eq, Hash)]
pub enum LocaleId {
    EnUs,
}

/// All data for one locale.
#[derive(Debug, Clone)]
pub struct Locale {
    pub id: LocaleId,
    pub code: String,
    pub base: BaseData,
    pub person: PersonData,
    pub address: AddressData,
    pub company: CompanyData,
    pub internet: InternetData,
    pub phone_number: PhoneNumberData,
    pub lorem: LoremData,
    pub date_time: DateTimeData,
}

/// How deep the templates a provider renders directly may nest.
pub open spec fn top_level() -> nat {
    3
}

impl BaseData {
    pub open spec fn wf(&self) -> bool {
        self.language_locale_codes.len() > 0
    }
}

impl PersonData {
    pub open spec fn wf(&self) -> bool {
        &&& templates_ok(&self.formats, top_level())
        &&& opt_templates_ok(&self.formats_female, top_level())
        &&& opt_templates_ok(&self.formats_male, top_level())
        &&& opt_templates_ok(&self.formats_nonbinary, top_level())
        &&& self.first_names.wf()
        &&& opt_ok(&self.first_names_female)
        &&& opt_ok(&self.first_names_male)
        &&& opt_ok(&self.first_names_nonbinary)
        &&& self.last_names.wf()
        &&& opt_ok(&self.last_names_female)
        &&& opt_ok(&self.last_names_male)
        &&& opt_ok(&self.last_names_nonbinary)
        &&& opt_ok(&self.prefixes)
        &&& opt_ok(&self.prefixes_female)
        &&& opt_ok(&self.prefixes_male)
        &&& opt_ok(&self.prefixes_nonbinary)
        &&& opt_ok(&self.suffixes)
        &&& opt_ok(&self.suffixes_female)
        &&& opt_ok(&self.suffixes_male)
        &&& opt_ok(&self.suffixes_nonbinary)
        &&& self.language_names.wf()
    }
}

impl AddressData {
    pub open spec fn wf(&self) -> bool {
        &&& templates_ok(&self.address_formats, top_level())
        &&& self.building_number_formats.wf()
        &&& templates_ok(&self.city_formats, 1)
        &&& opt_ok(&self.city_prefixes)
        &&& self.city_suffixes.wf()
        &&& self.countries.wf()
        &&& self.alpha_2_country_codes.wf()
        &&& self.alpha_3_country_codes.wf()
        &&& opt_ok(&self.freely_associated_states_abbr)
        &&& opt_ok(&self.military_ship_prefix)
        &&& opt_ok(&self.military_state_abbr)
        &&& self.postcode_formats.wf()
        &&& opt_ok(&self.secondary_address_formats)
        &&& opt_ok(&self.states)
        &&& opt_ok(&self.states_abbr)
        &&& templates_ok(&self.street_address_formats, 2)
        &&& templates_ok(&self.street_name_formats, 1)
        &&& self.street_suffixes.wf()
        &&& opt_ok(&self.territories_abbr)
    }
}

impl CompanyData {
    pub open spec fn wf(&self) -> bool {
        &&& templates_ok(&self.formats, 1)
        &&& self.company_suffixes.wf()
        &&& forall|i: int| 0 <= i < self.catch_phrase_words.len() ==> (#[trigger] self.catch_phrase_words@[i]).wf()
        &&& forall|i: int| 0 <= i < self.bs_words.len() ==> (#[trigger] self.bs_words@[i]).wf()
    }
}

impl InternetData {
    pub open spec fn wf(&self) -> bool {
        &&& templates_ok(&self.email_formats, top_level())
        &&& self.free_email_domains.wf()
        &&& self.hostname_prefixes.wf()
        &&& self.http_assigned_codes.len() > 0
        &&& self.http_methods.wf()
        &&& self.image_placeholder_services.wf()
        &&& self.safe_domain_names.wf()
        &&& self.tlds.wf()
        &&& self.uri_extensions.wf()
        &&& self.uri_pages.wf()
        &&& self.uri_paths.wf()
        &&& templates_ok(&self.url_formats, top_level())
        &&& templates_ok(&self.user_name_formats, 1)
    }
}

impl PhoneNumberData {
    pub open spec fn wf(&self) -> bool {
        &&& opt_templates_ok(&self.basic_formats, top_level())
        &&& self.country_calling_codes.wf()
        &&& self.formats.wf()
        &&& self.msisdn_formats.wf()
    }
}

impl LoremData {
    pub open spec fn wf(&self) -> bool {
        &&& self.word_list.wf()
        &&& no_empty(self.word_list.items@)
    }
}

/// No string of `v` is empty.
pub open spec fn no_empty(v: Seq<String>) -> bool {
    forall|i: int| 0 <= i < v.len() ==> (#[trigger] v[i])@.len() > 0
}

/// Checks that no string of `v` is empty.
pub fn check_no_empty(v: &Vec<String>) -> (r: bool)
    ensures
        r == no_empty(v@),
{
    for i in 0..v.len()
        invariant
            forall|j: int| 0 <= j < i ==> (#[trigger] v@[j])@.len() > 0,
    {
        if v[i].as_str().is_empty() {
            return false;
        }
    }
    true
}

impl DateTimeData {
    pub open spec fn wf(&self) -> bool {
        &&& self.centuries.wf()
        &&& self.countries.len() > 0
    }
}

impl Locale {
    /// The data fits the providers: every table a provider draws from has items (and
    /// sound weights), and templates only name formatters of lower level.
    pub open spec fn wf(&self) -> bool {
        &&& self.base.wf()
        &&& self.person.wf()
        &&& self.address.wf()
        &&& self.company.wf()
        &&& self.internet.wf()
        &&& self.phone_number.wf()
        &&& self.lorem.wf()
        &&& self.date_time.wf()
    }
}

/// Checks that a table can be drawn from.
pub fn check_table<T>(t: &Table<T>) -> (r: bool)
    ensures
        r == t.wf(),
{
    if t.items.len() == 0 {
        return false;
    }
    match &t.cum_weights {
        None => true,
        Some(c) => {
            if c.len() != t.items.len() {
                return false;
            }
            for k in 1..c.len()
                invariant
                    c.len() >= 1,
                    c.len() == t.items.len(),
                    t.cum_weights == Some(*c),
                    forall|i: int, j: int| 0 <= i <= j < k ==> c@[i] <= c@[j],
            {
                if c[k - 1] > c[k] {
                    assert(!running_totals_ok(c@, c.len() as nat));
                    return false;
                }
            }
            c[c.len() - 1] > 0
        },
    }
}

/// Checks an optional table.
pub fn check_opt<T>(t: &Option<Table<T>>) -> (r: bool)
    ensures
        r == opt_ok(t),
{
    match t {
        Some(table) => check_table(table),
        None => true,
    }
}

/// Checks that every token of a template has level below `d`.
pub fn check_template(t: &Template, d: u8) -> (r: bool)
    ensures
        r == template_below(t@, d as nat),
{
    for j in 0..t.len()
        invariant
            forall|k: int| 0 <= k < j ==> (#[trigger] t@[k] matches Segment::Token(f) ==> f.level() < d),
    {
        match &t[j] {
            Segment::Token(f) => {
                if f.level_exec() >= d {
                    return false;
                }
            },
            Segment::Literal(_) => {},
        }
    }
    true
}

/// Checks a template table.
pub fn check_templates(t: &Table<Template>, d: u8) -> (r: bool)
    ensures
        r == templates_ok(t, d as nat),
{
    if !check_table(t) {
        return false;
    }
    for i in 0..t.items.len()
        invariant
            t.wf(),
            forall|k: int| 0 <= k < i ==> template_below(#[trigger] t.items@[k]@, d as nat),
    {
        if !check_template(&t.items[i], d) {
            return false;
        }
    }
    true
}

/// Checks an optional template table.
pub fn check_opt_templates(t: &Option<Table<Template>>, d: u8) -> (r: bool)
    ensures
        r == opt_templates_ok(t, d as nat),
{
    match t {
        Some(table) => check_templates(table, d),
        None => true,
    }
}

/// Checks every table in a group list.
pub fn check_groups(groups: &Vec<Table<String>>) -> (r: bool)
    ensures
        r == forall|i: int| 0 <= i < groups.len() ==> (#[trigger] groups@[i]).wf(),
{
    for i in 0..groups.len()
        invariant
            forall|k: int| 0 <= k < i ==> (#[trigger] groups@[k]).wf(),
    {
        if !check_table(&groups[i]) {
            return false;
        }
    }
    true
}

impl Locale {
    /// Whether the data fits the providers (see [`Locale::wf`]).
    pub fn is_well_formed(&self) -> (r: bool)
        ensures
            r == self.wf(),
    {
        let p = &self.person;
        let a = &self.address;
        let c = &self.company;
        let i = &self.internet;
        let ph = &self.phone_number;
        let person_ok = check_templates(&p.formats, 3) && check_opt_templates(&p.formats_female, 3)
            && check_opt_templates(&p.formats_male, 3) && check_opt_templates(
            &p.formats_nonbinary,
            3,
        ) && check_table(&p.first_names) && check_opt(&p.first_names_female) && check_opt(
            &p.first_names_male,
        ) && check_opt(&p.first_names_nonbinary) && check_table(&p.last_names) && check_opt(
            &p.last_names_female,
        ) && check_opt(&p.last_names_male) && check_opt(&p.last_names_nonbinary) && check_opt(
            &p.prefixes,
        ) && check_opt(&p.prefixes_female) && check_opt(&p.prefixes_male) && check_opt(
            &p.prefixes_nonbinary,
        ) && check_opt(&p.suffixes) && check_opt(&p.suffixes_female) && check_opt(
            &p.suffixes_male,
        ) && check_opt(&p.suffixes_nonbinary) && check_table(&p.language_names);
        let address_ok = check_templates(&a.address_formats, 3) && check_table(
            &a.building_number_formats,
        ) && check_templates(&a.city_formats, 1) && check_opt(&a.city_prefixes) && check_table(
            &a.city_suffixes,
        ) && check_table(&a.countries) && check_table(&a.alpha_2_country_codes) && check_table(
            &a.alpha_3_country_codes,
        ) && check_opt(&a.freely_associated_states_abbr) && check_opt(&a.military_ship_prefix)
            && check_opt(&a.military_state_abbr) && check_table(&a.postcode_formats) && check_opt(
            &a.secondary_address_formats,
        ) && check_opt(&a.states) && check_opt(&a.states_abbr) && check_templates(
            &a.street_address_formats,
            2,
        ) && check_templates(&a.street_name_formats, 1) && check_table(&a.street_suffixes)
            && check_opt(&a.territories_abbr);
        let company_ok = check_templates(&c.formats, 1) && check_table(&c.company_suffixes)
            && check_groups(&c.catch_phrase_words) && check_groups(&c.bs_words);
        let internet_ok = check_templates(&i.email_formats, 3) && check_table(
            &i.free_email_domains,
        ) && check_table(&i.hostname_prefixes) && i.http_assigned_codes.len() > 0 && check_table(
            &i.http_methods,
        ) && check_table(&i.image_placeholder_services) && check_table(&i.safe_domain_names)
            && check_table(&i.tlds) && check_table(&i.uri_extensions) && check_table(&i.uri_pages)
            && check_table(&i.uri_paths) && check_templates(&i.url_formats, 3) && check_templates(
            &i.user_name_formats,
            1,
        );
        let phone_ok = check_opt_templates(&ph.basic_formats, 3) && check_table(
            &ph.country_calling_codes,
        ) && check_table(&ph.formats) && check_table(&ph.msisdn_formats);
        let rest_ok = self.base.language_locale_codes.len() > 0 && check_table(
            &self.lorem.word_list,
        ) && check_no_empty(&self.lorem.word_list.items) && check_table(&self.date_time.centuries) && self.date_time.countries.len() > 0;
        person_ok && address_ok && company_ok && internet_ok && phone_ok && rest_ok
    }
}

} // verus!
