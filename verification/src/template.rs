//! Faker's `{{ token }}` templates: the formatters they may name, and their tokenizer.
use vstd::prelude::*;
use crate::chars::{ascii_alphanumeric, ascii_char, ascii_whitespace, chars_of, is_alphanumeric, is_whitespace, push_char, str_eq, string_of_range, unicode_alphanumeric, unicode_whitespace};
use crate::error::{Error, Result};

verus! {

/// Zero-argument formatters that templates can reference.
#[derive(Debug, Clone, Copy, PartialEq, Eq, Hash)]
pub enum Formatter {
    BuildingNumber,
    City,
    CityPrefix,
    CitySuffix,
    CompanySuffix,
    DomainName,
    FirstName,
    FirstNameFemale,
    FirstNameMale,
    FirstNameNonbinary,
    FreeEmailDomain,
    LastName,
    MilitaryApo,
    MilitaryDpo,
    MilitaryShip,
    MilitaryState,
    Postcode,
    PrefixFemale,
    PrefixMale,
    PrefixNonbinary,
    SecondaryAddress,
    StateAbbr,
    StreetAddress,
    StreetName,
    StreetSuffix,
    SuffixFemale,
    SuffixMale,
    SuffixNonbinary,
    UserName,
}

/// One piece of a template.
#[derive(Debug, Clone)]
pub enum Segment {
    Literal(String),
    Token(Formatter),
}

/// A pre-tokenized template.
pub type Template = Vec<Segment>;

/// All formatters, in declaration order.
pub open spec fn all_formatters() -> Seq<Formatter> {
    seq![Formatter::BuildingNumber, Formatter::City, Formatter::CityPrefix, Formatter::CitySuffix, Formatter::CompanySuffix, Formatter::DomainName, Formatter::FirstName, Formatter::FirstNameFemale, Formatter::FirstNameMale, Formatter::FirstNameNonbinary, Formatter::FreeEmailDomain, Formatter::LastName, Formatter::MilitaryApo, Formatter::MilitaryDpo, Formatter::MilitaryShip, Formatter::MilitaryState, Formatter::Postcode, Formatter::PrefixFemale, Formatter::PrefixMale, Formatter::PrefixNonbinary, Formatter::SecondaryAddress, Formatter::StateAbbr, Formatter::StreetAddress, Formatter::StreetName, Formatter::StreetSuffix, Formatter::SuffixFemale, Formatter::SuffixMale, Formatter::SuffixNonbinary, Formatter::UserName]
}

/// The first formatter of `fs` from index `i` on whose name is `n`.
pub open spec fn first_named_from(fs: Seq<Formatter>, n: Seq<char>, i: int) -> Option<Formatter>
    decreases fs.len() - i,
{
    if i >= fs.len() || i < 0 {
        None
    } else if fs[i].name_spec() == n {
        Some(fs[i])
    } else {
        first_named_from(fs, n, i + 1)
    }
}

/// The formatter named `n`, if any.
pub open spec fn formatter_named(n: Seq<char>) -> Option<Formatter> {
    first_named_from(all_formatters(), n, 0)
}

impl Formatter {
    /// Faker's method name for this formatter.
    pub open spec fn name_spec(self) -> Seq<char> {
        match self {
            Formatter::BuildingNumber => "building_number"@,
            Formatter::City => "city"@,
            Formatter::CityPrefix => "city_prefix"@,
            Formatter::CitySuffix => "city_suffix"@,
            Formatter::CompanySuffix => "company_suffix"@,
            Formatter::DomainName => "domain_name"@,
            Formatter::FirstName => "first_name"@,
            Formatter::FirstNameFemale => "first_name_female"@,
            Formatter::FirstNameMale => "first_name_male"@,
            Formatter::FirstNameNonbinary => "first_name_nonbinary"@,
            Formatter::FreeEmailDomain => "free_email_domain"@,
            Formatter::LastName => "last_name"@,
            Formatter::MilitaryApo => "military_apo"@,
            Formatter::MilitaryDpo => "military_dpo"@,
            Formatter::MilitaryShip => "military_ship"@,
            Formatter::MilitaryState => "military_state"@,
            Formatter::Postcode => "postcode"@,
            Formatter::PrefixFemale => "prefix_female"@,
            Formatter::PrefixMale => "prefix_male"@,
            Formatter::PrefixNonbinary => "prefix_nonbinary"@,
            Formatter::SecondaryAddress => "secondary_address"@,
            Formatter::StateAbbr => "state_abbr"@,
            Formatter::StreetAddress => "street_address"@,
            Formatter::StreetName => "street_name"@,
            Formatter::StreetSuffix => "street_suffix"@,
            Formatter::SuffixFemale => "suffix_female"@,
            Formatter::SuffixMale => "suffix_male"@,
            Formatter::SuffixNonbinary => "suffix_nonbinary"@,
            Formatter::UserName => "user_name"@,
        }
    }

    /// How deep the templates behind this formatter nest: plain table draws are level 0,
    /// formatters that render level-0 templates are level 1, and so on.
    pub open spec fn level(self) -> nat {
        match self {
            Formatter::City | Formatter::StreetName | Formatter::UserName => 1,
            Formatter::StreetAddress | Formatter::DomainName => 2,
            _ => 0,
        }
    }

    /// How deep the templates behind this formatter nest.
    pub fn level_exec(self) -> (r: u8)
        ensures
            r == self.level(),
    {
        match self {
            Formatter::City | Formatter::StreetName | Formatter::UserName => 1,
            Formatter::StreetAddress | Formatter::DomainName => 2,
            _ => 0,
        }
    }

    /// Faker's method name for this formatter.
    pub fn name(self) -> (r: &'static str)
        ensures
            r@ == self.name_spec(),
    {
        match self {
            Formatter::BuildingNumber => "building_number",
            Formatter::City => "city",
            Formatter::CityPrefix => "city_prefix",
            Formatter::CitySuffix => "city_suffix",
            Formatter::CompanySuffix => "company_suffix",
            Formatter::DomainName => "domain_name",
            Formatter::FirstName => "first_name",
            Formatter::FirstNameFemale => "first_name_female",
            Formatter::FirstNameMale => "first_name_male",
            Formatter::FirstNameNonbinary => "first_name_nonbinary",
            Formatter::FreeEmailDomain => "free_email_domain",
            Formatter::LastName => "last_name",
            Formatter::MilitaryApo => "military_apo",
            Formatter::MilitaryDpo => "military_dpo",
            Formatter::MilitaryShip => "military_ship",
            Formatter::MilitaryState => "military_state",
            Formatter::Postcode => "postcode",
            Formatter::PrefixFemale => "prefix_female",
            Formatter::PrefixMale => "prefix_male",
            Formatter::PrefixNonbinary => "prefix_nonbinary",
            Formatter::SecondaryAddress => "secondary_address",
            Formatter::StateAbbr => "state_abbr",
            Formatter::StreetAddress => "street_address",
            Formatter::StreetName => "street_name",
            Formatter::StreetSuffix => "street_suffix",
            Formatter::SuffixFemale => "suffix_female",
            Formatter::SuffixMale => "suffix_male",
            Formatter::SuffixNonbinary => "suffix_nonbinary",
            Formatter::UserName => "user_name",
        }
    }

    /// All formatters, in declaration order.
    pub fn all() -> (v: Vec<Formatter>)
        ensures
            v@ == all_formatters(),
            v.len() == 29,
            forall|f: Formatter| v@.contains(f),
    {
    let mut v: Vec<Formatter> = Vec::new();
    v.push(Formatter::BuildingNumber);
    v.push(Formatter::City);
    v.push(Formatter::CityPrefix);
    v.push(Formatter::CitySuffix);
    v.push(Formatter::CompanySuffix);
    v.push(Formatter::DomainName);
    v.push(Formatter::FirstName);
    v.push(Formatter::FirstNameFemale);
    v.push(Formatter::FirstNameMale);
    v.push(Formatter::FirstNameNonbinary);
    v.push(Formatter::FreeEmailDomain);
    v.push(Formatter::LastName);
    v.push(Formatter::MilitaryApo);
    v.push(Formatter::MilitaryDpo);
    v.push(Formatter::MilitaryShip);
    v.push(Formatter::MilitaryState);
    v.push(Formatter::Postcode);
    v.push(Formatter::PrefixFemale);
    v.push(Formatter::PrefixMale);
    v.push(Formatter::PrefixNonbinary);
    v.push(Formatter::SecondaryAddress);
    v.push(Formatter::StateAbbr);
    v.push(Formatter::StreetAddress);
    v.push(Formatter::StreetName);
    v.push(Formatter::StreetSuffix);
    v.push(Formatter::SuffixFemale);
    v.push(Formatter::SuffixMale);
    v.push(Formatter::SuffixNonbinary);
    v.push(Formatter::UserName);
    assert(v@ =~= all_formatters());
    assert forall|f: Formatter| v@.contains(f) by {
        match f {
            Formatter::BuildingNumber => assert(v@[0] == f),
            Formatter::City => assert(v@[1] == f),
            Formatter::CityPrefix => assert(v@[2] == f),
            Formatter::CitySuffix => assert(v@[3] == f),
            Formatter::CompanySuffix => assert(v@[4] == f),
            Formatter::DomainName => assert(v@[5] == f),
            Formatter::FirstName => assert(v@[6] == f),
            Formatter::FirstNameFemale => assert(v@[7] == f),
            Formatter::FirstNameMale => assert(v@[8] == f),
            Formatter::FirstNameNonbinary => assert(v@[9] == f),
            Formatter::FreeEmailDomain => assert(v@[10] == f),
            Formatter::LastName => assert(v@[11] == f),
            Formatter::MilitaryApo => assert(v@[12] == f),
            Formatter::MilitaryDpo => assert(v@[13] == f),
            Formatter::MilitaryShip => assert(v@[14] == f),
            Formatter::MilitaryState => assert(v@[15] == f),
            Formatter::Postcode => assert(v@[16] == f),
            Formatter::PrefixFemale => assert(v@[17] == f),
            Formatter::PrefixMale => assert(v@[18] == f),
            Formatter::PrefixNonbinary => assert(v@[19] == f),
            Formatter::SecondaryAddress => assert(v@[20] == f),
            Formatter::StateAbbr => assert(v@[21] == f),
            Formatter::StreetAddress => assert(v@[22] == f),
            Formatter::StreetName => assert(v@[23] == f),
            Formatter::StreetSuffix => assert(v@[24] == f),
            Formatter::SuffixFemale => assert(v@[25] == f),
            Formatter::SuffixMale => assert(v@[26] == f),
            Formatter::SuffixNonbinary => assert(v@[27] == f),
            Formatter::UserName => assert(v@[28] == f),
        }
    }
    v
    }

    /// Resolves a Faker method name.
    pub fn from_name(name: &str) -> (r: Option<Formatter>)
        ensures
            r == formatter_named(name@),
            r matches Some(f) ==> f.name_spec() == name@,
            r is None ==> forall|f: Formatter| f.name_spec() != name@,
    {
        let all = Formatter::all();
        for i in 0..all.len()
            invariant
                all.len() == 29,
                forall|f: Formatter| all@.contains(f),
                forall|j: int| 0 <= j < i ==> (#[trigger] all@[j]).name_spec() != name@,
                all@ == all_formatters(),
                first_named_from(all@, name@, 0) == first_named_from(all@, name@, i as int),
        {
            if str_eq(all[i].name(), name) {
                return Some(all[i]);
            }
        }
        assert forall|f: Formatter| f.name_spec() != name@ by {
            assert(all@.contains(f));
            let j = choose|j: int| 0 <= j < all@.len() && all@[j] == f;
            assert(all@[j].name_spec() != name@);
        }
        None
    }
}

/// Distinct formatters have distinct names.
#[verifier::rlimit(50)]
pub proof fn lemma_names_distinct(f: Formatter, g: Formatter)
    requires
        f != g,
    ensures
        f.name_spec() != g.name_spec(),
{
        reveal_strlit("building_number");
        reveal_strlit("city");
        reveal_strlit("city_prefix");
        reveal_strlit("city_suffix");
        reveal_strlit("company_suffix");
        reveal_strlit("domain_name");
        reveal_strlit("first_name");
        reveal_strlit("first_name_female");
        reveal_strlit("first_name_male");
        reveal_strlit("first_name_nonbinary");
        reveal_strlit("free_email_domain");
        reveal_strlit("last_name");
        reveal_strlit("military_apo");
        reveal_strlit("military_dpo");
        reveal_strlit("military_ship");
        reveal_strlit("military_state");
        reveal_strlit("postcode");
        reveal_strlit("prefix_female");
        reveal_strlit("prefix_male");
        reveal_strlit("prefix_nonbinary");
        reveal_strlit("secondary_address");
        reveal_strlit("state_abbr");
        reveal_strlit("street_address");
        reveal_strlit("street_name");
        reveal_strlit("street_suffix");
        reveal_strlit("suffix_female");
        reveal_strlit("suffix_male");
        reveal_strlit("suffix_nonbinary");
        reveal_strlit("user_name");
    match f {
        Formatter::BuildingNumber => match g {
            Formatter::BuildingNumber => {},
            Formatter::City => assert(f.name_spec().len() != g.name_spec().len()),
            Formatter::CityPrefix => assert(f.name_spec().len() != g.name_spec().len()),
            Formatter::CitySuffix => assert(f.name_spec().len() != g.name_spec().len()),
            Formatter::CompanySuffix => assert(f.name_spec().len() != g.name_spec().len()),
            Formatter::DomainName => assert(f.name_spec().len() != g.name_spec().len()),
            Formatter::FirstName => assert(f.name_spec().len() != g.name_spec().len()),
            Formatter::FirstNameFemale => assert(f.name_spec().len() != g.name_spec().len()),
            Formatter::FirstNameMale => assert(f.name_spec()[0] != g.name_spec()[0]),
            Formatter::FirstNameNonbinary => assert(f.name_spec().len() != g.name_spec().len()),
            Formatter::FreeEmailDomain => assert(f.name_spec().len() != g.name_spec().len()),
            Formatter::LastName => assert(f.name_spec().len() != g.name_spec().len()),
            Formatter::MilitaryApo => assert(f.name_spec().len() != g.name_spec().len()),
            Formatter::MilitaryDpo => assert(f.name_spec().len() != g.name_spec().len()),
            Formatter::MilitaryShip => assert(f.name_spec().len() != g.name_spec().len()),
            Formatter::MilitaryState => assert(f.name_spec().len() != g.name_spec().len()),
            Formatter::Postcode => assert(f.name_spec().len() != g.name_spec().len()),
            Formatter::PrefixFemale => assert(f.name_spec().len() != g.name_spec().len()),
            Formatter::PrefixMale => assert(f.name_spec().len() != g.name_spec().len()),
            Formatter::PrefixNonbinary => assert(f.name_spec().len() != g.name_spec().len()),
            Formatter::SecondaryAddress => assert(f.name_spec().len() != g.name_spec().len()),
            Formatter::StateAbbr => assert(f.name_spec().len() != g.name_spec().len()),
            Formatter::StreetAddress => assert(f.name_spec().len() != g.name_spec().len()),
            Formatter::StreetName => assert(f.name_spec().len() != g.name_spec().len()),
            Formatter::StreetSuffix => assert(f.name_spec().len() != g.name_spec().len()),
            Formatter::SuffixFemale => assert(f.name_spec().len() != g.name_spec().len()),
            Formatter::SuffixMale => assert(f.name_spec().len() != g.name_spec().len()),
            Formatter::SuffixNonbinary => assert(f.name_spec().len() != g.name_spec().len()),
            Formatter::UserName => assert(f.name_spec().len() != g.name_spec().len()),
        },
        Formatter::City => match g {
            Formatter::BuildingNumber => assert(f.name_spec().len() != g.name_spec().len()),
            Formatter::City => {},
            Formatter::CityPrefix => assert(f.name_spec().len() != g.name_spec().len()),
            Formatter::CitySuffix => assert(f.name_spec().len() != g.name_spec().len()),
            Formatter::CompanySuffix => assert(f.name_spec().len() != g.name_spec().len()),
            Formatter::DomainName => assert(f.name_spec().len() != g.name_spec().len()),
            Formatter::FirstName => assert(f.name_spec().len() != g.name_spec().len()),
            Formatter::FirstNameFemale => assert(f.name_spec().len() != g.name_spec().len()),
            Formatter::FirstNameMale => assert(f.name_spec().len() != g.name_spec().len()),
            Formatter::FirstNameNonbinary => assert(f.name_spec().len() != g.name_spec().len()),
            Formatter::FreeEmailDomain => assert(f.name_spec().len() != g.name_spec().len()),
            Formatter::LastName => assert(f.name_spec().len() != g.name_spec().len()),
            Formatter::MilitaryApo => assert(f.name_spec().len() != g.name_spec().len()),
            Formatter::MilitaryDpo => assert(f.name_spec().len() != g.name_spec().len()),
            Formatter::MilitaryShip => assert(f.name_spec().len() != g.name_spec().len()),
            Formatter::MilitaryState => assert(f.name_spec().len() != g.name_spec().len()),
            Formatter::Postcode => assert(f.name_spec().len() != g.name_spec().len()),
            Formatter::PrefixFemale => assert(f.name_spec().len() != g.name_spec().len()),
            Formatter::PrefixMale => assert(f.name_spec().len() != g.name_spec().len()),
            Formatter::PrefixNonbinary => assert(f.name_spec().len() != g.name_spec().len()),
            Formatter::SecondaryAddress => assert(f.name_spec().len() != g.name_spec().len()),
            Formatter::StateAbbr => assert(f.name_spec().len() != g.name_spec().len()),
            Formatter::StreetAddress => assert(f.name_spec().len() != g.name_spec().len()),
            Formatter::StreetName => assert(f.name_spec().len() != g.name_spec().len()),
            Formatter::StreetSuffix => assert(f.name_spec().len() != g.name_spec().len()),
            Formatter::SuffixFemale => assert(f.name_spec().len() != g.name_spec().len()),
            Formatter::SuffixMale => assert(f.name_spec().len() != g.name_spec().len()),
            Formatter::SuffixNonbinary => assert(f.name_spec().len() != g.name_spec().len()),
            Formatter::UserName => assert(f.name_spec().len() != g.name_spec().len()),
        },
        Formatter::CityPrefix => match g {
            Formatter::BuildingNumber => assert(f.name_spec().len() != g.name_spec().len()),
            Formatter::City => assert(f.name_spec().len() != g.name_spec().len()),
            Formatter::CityPrefix => {},
            Formatter::CitySuffix => assert(f.name_spec()[5] != g.name_spec()[5]),
            Formatter::CompanySuffix => assert(f.name_spec().len() != g.name_spec().len()),
            Formatter::DomainName => assert(f.name_spec()[0] != g.name_spec()[0]),
            Formatter::FirstName => assert(f.name_spec().len() != g.name_spec().len()),
            Formatter::FirstNameFemale => assert(f.name_spec().len() != g.name_spec().len()),
            Formatter::FirstNameMale => assert(f.name_spec().len() != g.name_spec().len()),
            Formatter::FirstNameNonbinary => assert(f.name_spec().len() != g.name_spec().len()),
            Formatter::FreeEmailDomain => assert(f.name_spec().len() != g.name_spec().len()),
            Formatter::LastName => assert(f.name_spec().len() != g.name_spec().len()),
            Formatter::MilitaryApo => assert(f.name_spec().len() != g.name_spec().len()),
            Formatter::MilitaryDpo => assert(f.name_spec().len() != g.name_spec().len()),
            Formatter::MilitaryShip => assert(f.name_spec().len() != g.name_spec().len()),
            Formatter::MilitaryState => assert(f.name_spec().len() != g.name_spec().len()),
            Formatter::Postcode => assert(f.name_spec().len() != g.name_spec().len()),
            Formatter::PrefixFemale => assert(f.name_spec().len() != g.name_spec().len()),
            Formatter::PrefixMale => assert(f.name_spec()[0] != g.name_spec()[0]),
            Formatter::PrefixNonbinary => assert(f.name_spec().len() != g.name_spec().len()),
            Formatter::SecondaryAddress => assert(f.name_spec().len() != g.name_spec().len()),
            Formatter::StateAbbr => assert(f.name_spec().len() != g.name_spec().len()),
            Formatter::StreetAddress => assert(f.name_spec().len() != g.name_spec().len()),
            Formatter::StreetName => assert(f.name_spec()[0] != g.name_spec()[0]),
            Formatter::StreetSuffix => assert(f.name_spec().len() != g.name_spec().len()),
            Formatter::SuffixFemale => assert(f.name_spec().len() != g.name_spec().len()),
            Formatter::SuffixMale => assert(f.name_spec()[0] != g.name_spec()[0]),
            Formatter::SuffixNonbinary => assert(f.name_spec().len() != g.name_spec().len()),
            Formatter::UserName => assert(f.name_spec().len() != g.name_spec().len()),
        },
        Formatter::CitySuffix => match g {
            Formatter::BuildingNumber => assert(f.name_spec().len() != g.name_spec().len()),
            Formatter::City => assert(f.name_spec().len() != g.name_spec().len()),
            Formatter::CityPrefix => assert(f.name_spec()[5] != g.name_spec()[5]),
            Formatter::CitySuffix => {},
            Formatter::CompanySuffix => assert(f.name_spec().len() != g.name_spec().len()),
            Formatter::DomainName => assert(f.name_spec()[0] != g.name_spec()[0]),
            Formatter::FirstName => assert(f.name_spec().len() != g.name_spec().len()),
            Formatter::FirstNameFemale => assert(f.name_spec().len() != g.name_spec().len()),
            Formatter::FirstNameMale => assert(f.name_spec().len() != g.name_spec().len()),
            Formatter::FirstNameNonbinary => assert(f.name_spec().len() != g.name_spec().len()),
            Formatter::FreeEmailDomain => assert(f.name_spec().len() != g.name_spec().len()),
            Formatter::LastName => assert(f.name_spec().len() != g.name_spec().len()),
            Formatter::MilitaryApo => assert(f.name_spec().len() != g.name_spec().len()),
            Formatter::MilitaryDpo => assert(f.name_spec().len() != g.name_spec().len()),
            Formatter::MilitaryShip => assert(f.name_spec().len() != g.name_spec().len()),
            Formatter::MilitaryState => assert(f.name_spec().len() != g.name_spec().len()),
            Formatter::Postcode => assert(f.name_spec().len() != g.name_spec().len()),
            Formatter::PrefixFemale => assert(f.name_spec().len() != g.name_spec().len()),
            Formatter::PrefixMale => assert(f.name_spec()[0] != g.name_spec()[0]),
            Formatter::PrefixNonbinary => assert(f.name_spec().len() != g.name_spec().len()),
            Formatter::SecondaryAddress => assert(f.name_spec().len() != g.name_spec().len()),
            Formatter::StateAbbr => assert(f.name_spec().len() != g.name_spec().len()),
            Formatter::StreetAddress => assert(f.name_spec().len() != g.name_spec().len()),
            Formatter::StreetName => assert(f.name_spec()[0] != g.name_spec()[0]),
            Formatter::StreetSuffix => assert(f.name_spec().len() != g.name_spec().len()),
            Formatter::SuffixFemale => assert(f.name_spec().len() != g.name_spec().len()),
            Formatter::SuffixMale => assert(f.name_spec()[0] != g.name_spec()[0]),
            Formatter::SuffixNonbinary => assert(f.name_spec().len() != g.name_spec().len()),
            Formatter::UserName => assert(f.name_spec().len() != g.name_spec().len()),
        },
        Formatter::CompanySuffix => match g {
            Formatter::BuildingNumber => assert(f.name_spec().len() != g.name_spec().len()),
            Formatter::City => assert(f.name_spec().len() != g.name_spec().len()),
            Formatter::CityPrefix => assert(f.name_spec().len() != g.name_spec().len()),
            Formatter::CitySuffix => assert(f.name_spec().len() != g.name_spec().len()),
            Formatter::CompanySuffix => {},
            Formatter::DomainName => assert(f.name_spec().len() != g.name_spec().len()),
            Formatter::FirstName => assert(f.name_spec().len() != g.name_spec().len()),
            Formatter::FirstNameFemale => assert(f.name_spec().len() != g.name_spec().len()),
            Formatter::FirstNameMale => assert(f.name_spec().len() != g.name_spec().len()),
            Formatter::FirstNameNonbinary => assert(f.name_spec().len() != g.name_spec().len()),
            Formatter::FreeEmailDomain => assert(f.name_spec().len() != g.name_spec().len()),
            Formatter::LastName => assert(f.name_spec().len() != g.name_spec().len()),
            Formatter::MilitaryApo => assert(f.name_spec().len() != g.name_spec().len()),
            Formatter::MilitaryDpo => assert(f.name_spec().len() != g.name_spec().len()),
            Formatter::MilitaryShip => assert(f.name_spec().len() != g.name_spec().len()),
            Formatter::MilitaryState => assert(f.name_spec()[0] != g.name_spec()[0]),
            Formatter::Postcode => assert(f.name_spec().len() != g.name_spec().len()),
            Formatter::PrefixFemale => assert(f.name_spec().len() != g.name_spec().len()),
            Formatter::PrefixMale => assert(f.name_spec().len() != g.name_spec().len()),
            Formatter::PrefixNonbinary => assert(f.name_spec().len() != g.name_spec().len()),
            Formatter::SecondaryAddress => assert(f.name_spec().len() != g.name_spec().len()),
            Formatter::StateAbbr => assert(f.name_spec().len() != g.name_spec().len()),
            Formatter::StreetAddress => assert(f.name_spec()[0] != g.name_spec()[0]),
            Formatter::StreetName => assert(f.name_spec().len() != g.name_spec().len()),
            Formatter::StreetSuffix => assert(f.name_spec().len() != g.name_spec().len()),
            Formatter::SuffixFemale => assert(f.name_spec().len() != g.name_spec().len()),
            Formatter::SuffixMale => assert(f.name_spec().len() != g.name_spec().len()),
            Formatter::SuffixNonbinary => assert(f.name_spec().len() != g.name_spec().len()),
            Formatter::UserName => assert(f.name_spec().len() != g.name_spec().len()),
        },
        Formatter::DomainName => match g {
            Formatter::BuildingNumber => assert(f.name_spec().len() != g.name_spec().len()),
            Formatter::City => assert(f.name_spec().len() != g.name_spec().len()),
            Formatter::CityPrefix => assert(f.name_spec()[0] != g.name_spec()[0]),
            Formatter::CitySuffix => assert(f.name_spec()[0] != g.name_spec()[0]),
            Formatter::CompanySuffix => assert(f.name_spec().len() != g.name_spec().len()),
            Formatter::DomainName => {},
            Formatter::FirstName => assert(f.name_spec().len() != g.name_spec().len()),
            Formatter::FirstNameFemale => assert(f.name_spec().len() != g.name_spec().len()),
            Formatter::FirstNameMale => assert(f.name_spec().len() != g.name_spec().len()),
            Formatter::FirstNameNonbinary => assert(f.name_spec().len() != g.name_spec().len()),
            Formatter::FreeEmailDomain => assert(f.name_spec().len() != g.name_spec().len()),
            Formatter::LastName => assert(f.name_spec().len() != g.name_spec().len()),
            Formatter::MilitaryApo => assert(f.name_spec().len() != g.name_spec().len()),
            Formatter::MilitaryDpo => assert(f.name_spec().len() != g.name_spec().len()),
            Formatter::MilitaryShip => assert(f.name_spec().len() != g.name_spec().len()),
            Formatter::MilitaryState => assert(f.name_spec().len() != g.name_spec().len()),
            Formatter::Postcode => assert(f.name_spec().len() != g.name_spec().len()),
            Formatter::PrefixFemale => assert(f.name_spec().len() != g.name_spec().len()),
            Formatter::PrefixMale => assert(f.name_spec()[0] != g.name_spec()[0]),
            Formatter::PrefixNonbinary => assert(f.name_spec().len() != g.name_spec().len()),
            Formatter::SecondaryAddress => assert(f.name_spec().len() != g.name_spec().len()),
            Formatter::StateAbbr => assert(f.name_spec().len() != g.name_spec().len()),
            Formatter::StreetAddress => assert(f.name_spec().len() != g.name_spec().len()),
            Formatter::StreetName => assert(f.name_spec()[0] != g.name_spec()[0]),
            Formatter::StreetSuffix => assert(f.name_spec().len() != g.name_spec().len()),
            Formatter::SuffixFemale => assert(f.name_spec().len() != g.name_spec().len()),
            Formatter::SuffixMale => assert(f.name_spec()[0] != g.name_spec()[0]),
            Formatter::SuffixNonbinary => assert(f.name_spec().len() != g.name_spec().len()),
            Formatter::UserName => assert(f.name_spec().len() != g.name_spec().len()),
        },
        Formatter::FirstName => match g {
            Formatter::BuildingNumber => assert(f.name_spec().len() != g.name_spec().len()),
            Formatter::City => assert(f.name_spec().len() != g.name_spec().len()),
            Formatter::CityPrefix => assert(f.name_spec().len() != g.name_spec().len()),
            Formatter::CitySuffix => assert(f.name_spec().len() != g.name_spec().len()),
            Formatter::CompanySuffix => assert(f.name_spec().len() != g.name_spec().len()),
            Formatter::DomainName => assert(f.name_spec().len() != g.name_spec().len()),
            Formatter::FirstName => {},
            Formatter::FirstNameFemale => assert(f.name_spec().len() != g.name_spec().len()),
            Formatter::FirstNameMale => assert(f.name_spec().len() != g.name_spec().len()),
            Formatter::FirstNameNonbinary => assert(f.name_spec().len() != g.name_spec().len()),
            Formatter::FreeEmailDomain => assert(f.name_spec().len() != g.name_spec().len()),
            Formatter::LastName => assert(f.name_spec().len() != g.name_spec().len()),
            Formatter::MilitaryApo => assert(f.name_spec().len() != g.name_spec().len()),
            Formatter::MilitaryDpo => assert(f.name_spec().len() != g.name_spec().len()),
            Formatter::MilitaryShip => assert(f.name_spec().len() != g.name_spec().len()),
            Formatter::MilitaryState => assert(f.name_spec().len() != g.name_spec().len()),
            Formatter::Postcode => assert(f.name_spec().len() != g.name_spec().len()),
            Formatter::PrefixFemale => assert(f.name_spec().len() != g.name_spec().len()),
            Formatter::PrefixMale => assert(f.name_spec().len() != g.name_spec().len()),
            Formatter::PrefixNonbinary => assert(f.name_spec().len() != g.name_spec().len()),
            Formatter::SecondaryAddress => assert(f.name_spec().len() != g.name_spec().len()),
            Formatter::StateAbbr => assert(f.name_spec()[0] != g.name_spec()[0]),
            Formatter::StreetAddress => assert(f.name_spec().len() != g.name_spec().len()),
            Formatter::StreetName => assert(f.name_spec().len() != g.name_spec().len()),
            Formatter::StreetSuffix => assert(f.name_spec().len() != g.name_spec().len()),
            Formatter::SuffixFemale => assert(f.name_spec().len() != g.name_spec().len()),
            Formatter::SuffixMale => assert(f.name_spec().len() != g.name_spec().len()),
            Formatter::SuffixNonbinary => assert(f.name_spec().len() != g.name_spec().len()),
            Formatter::UserName => assert(f.name_spec().len() != g.name_spec().len()),
        },
        Formatter::FirstNameFemale => match g {
            Formatter::BuildingNumber => assert(f.name_spec().len() != g.name_spec().len()),
            Formatter::City => assert(f.name_spec().len() != g.name_spec().len()),
            Formatter::CityPrefix => assert(f.name_spec().len() != g.name_spec().len()),
            Formatter::CitySuffix => assert(f.name_spec().len() != g.name_spec().len()),
            Formatter::CompanySuffix => assert(f.name_spec().len() != g.name_spec().len()),
            Formatter::DomainName => assert(f.name_spec().len() != g.name_spec().len()),
            Formatter::FirstName => assert(f.name_spec().len() != g.name_spec().len()),
            Formatter::FirstNameFemale => {},
            Formatter::FirstNameMale => assert(f.name_spec().len() != g.name_spec().len()),
            Formatter::FirstNameNonbinary => assert(f.name_spec().len() != g.name_spec().len()),
            Formatter::FreeEmailDomain => assert(f.name_spec()[1] != g.name_spec()[1]),
            Formatter::LastName => assert(f.name_spec().len() != g.name_spec().len()),
            Formatter::MilitaryApo => assert(f.name_spec().len() != g.name_spec().len()),
            Formatter::MilitaryDpo => assert(f.name_spec().len() != g.name_spec().len()),
            Formatter::MilitaryShip => assert(f.name_spec().len() != g.name_spec().len()),
            Formatter::MilitaryState => assert(f.name_spec().len() != g.name_spec().len()),
            Formatter::Postcode => assert(f.name_spec().len() != g.name_spec().len()),
            Formatter::PrefixFemale => assert(f.name_spec().len() != g.name_spec().len()),
            Formatter::PrefixMale => assert(f.name_spec().len() != g.name_spec().len()),
            Formatter::PrefixNonbinary => assert(f.name_spec().len() != g.name_spec().len()),
            Formatter::SecondaryAddress => assert(f.name_spec()[0] != g.name_spec()[0]),
            Formatter::StateAbbr => assert(f.name_spec().len() != g.name_spec().len()),
            Formatter::StreetAddress => assert(f.name_spec().len() != g.name_spec().len()),
            Formatter::StreetName => assert(f.name_spec().len() != g.name_spec().len()),
            Formatter::StreetSuffix => assert(f.name_spec().len() != g.name_spec().len()),
            Formatter::SuffixFemale => assert(f.name_spec().len() != g.name_spec().len()),
            Formatter::SuffixMale => assert(f.name_spec().len() != g.name_spec().len()),
            Formatter::SuffixNonbinary => assert(f.name_spec().len() != g.name_spec().len()),
            Formatter::UserName => assert(f.name_spec().len() != g.name_spec().len()),
        },
        Formatter::FirstNameMale => match g {
            Formatter::BuildingNumber => assert(f.name_spec()[0] != g.name_spec()[0]),
            Formatter::City => assert(f.name_spec().len() != g.name_spec().len()),
            Formatter::CityPrefix => assert(f.name_spec().len() != g.name_spec().len()),
            Formatter::CitySuffix => assert(f.name_spec().len() != g.name_spec().len()),
            Formatter::CompanySuffix => assert(f.name_spec().len() != g.name_spec().len()),
            Formatter::DomainName => assert(f.name_spec().len() != g.name_spec().len()),
            Formatter::FirstName => assert(f.name_spec().len() != g.name_spec().len()),
            Formatter::FirstNameFemale => assert(f.name_spec().len() != g.name_spec().len()),
            Formatter::FirstNameMale => {},
            Formatter::FirstNameNonbinary => assert(f.name_spec().len() != g.name_spec().len()),
            Formatter::FreeEmailDomain => assert(f.name_spec().len() != g.name_spec().len()),
            Formatter::LastName => assert(f.name_spec().len() != g.name_spec().len()),
            Formatter::MilitaryApo => assert(f.name_spec().len() != g.name_spec().len()),
            Formatter::MilitaryDpo => assert(f.name_spec().len() != g.name_spec().len()),
            Formatter::MilitaryShip => assert(f.name_spec().len() != g.name_spec().len()),
            Formatter::MilitaryState => assert(f.name_spec().len() != g.name_spec().len()),
            Formatter::Postcode => assert(f.name_spec().len() != g.name_spec().len()),
            Formatter::PrefixFemale => assert(f.name_spec().len() != g.name_spec().len()),
            Formatter::PrefixMale => assert(f.name_spec().len() != g.name_spec().len()),
            Formatter::PrefixNonbinary => assert(f.name_spec().len() != g.name_spec().len()),
            Formatter::SecondaryAddress => assert(f.name_spec().len() != g.name_spec().len()),
            Formatter::StateAbbr => assert(f.name_spec().len() != g.name_spec().len()),
            Formatter::StreetAddress => assert(f.name_spec().len() != g.name_spec().len()),
            Formatter::StreetName => assert(f.name_spec().len() != g.name_spec().len()),
            Formatter::StreetSuffix => assert(f.name_spec().len() != g.name_spec().len()),
            Formatter::SuffixFemale => assert(f.name_spec().len() != g.name_spec().len()),
            Formatter::SuffixMale => assert(f.name_spec().len() != g.name_spec().len()),
            Formatter::SuffixNonbinary => assert(f.name_spec().len() != g.name_spec().len()),
            Formatter::UserName => assert(f.name_spec().len() != g.name_spec().len()),
        },
        Formatter::FirstNameNonbinary => match g {
            Formatter::BuildingNumber => assert(f.name_spec().len() != g.name_spec().len()),
            Formatter::City => assert(f.name_spec().len() != g.name_spec().len()),
            Formatter::CityPrefix => assert(f.name_spec().len() != g.name_spec().len()),
            Formatter::CitySuffix => assert(f.name_spec().len() != g.name_spec().len()),
            Formatter::CompanySuffix => assert(f.name_spec().len() != g.name_spec().len()),
            Formatter::DomainName => assert(f.name_spec().len() != g.name_spec().len()),
            Formatter::FirstName => assert(f.name_spec().len() != g.name_spec().len()),
            Formatter::FirstNameFemale => assert(f.name_spec().len() != g.name_spec().len()),
            Formatter::FirstNameMale => assert(f.name_spec().len() != g.name_spec().len()),
            Formatter::FirstNameNonbinary => {},
            Formatter::FreeEmailDomain => assert(f.name_spec().len() != g.name_spec().len()),
            Formatter::LastName => assert(f.name_spec().len() != g.name_spec().len()),
            Formatter::MilitaryApo => assert(f.name_spec().len() != g.name_spec().len()),
            Formatter::MilitaryDpo => assert(f.name_spec().len() != g.name_spec().len()),
            Formatter::MilitaryShip => assert(f.name_spec().len() != g.name_spec().len()),
            Formatter::MilitaryState => assert(f.name_spec().len() != g.name_spec().len()),
            Formatter::Postcode => assert(f.name_spec().len() != g.name_spec().len()),
            Formatter::PrefixFemale => assert(f.name_spec().len() != g.name_spec().len()),
            Formatter::PrefixMale => assert(f.name_spec().len() != g.name_spec().len()),
            Formatter::PrefixNonbinary => assert(f.name_spec().len() != g.name_spec().len()),
            Formatter::SecondaryAddress => assert(f.name_spec().len() != g.name_spec().len()),
            Formatter::StateAbbr => assert(f.name_spec().len() != g.name_spec().len()),
            Formatter::StreetAddress => assert(f.name_spec().len() != g.name_spec().len()),
            Formatter::StreetName => assert(f.name_spec().len() != g.name_spec().len()),
            Formatter::StreetSuffix => assert(f.name_spec().len() != g.name_spec().len()),
            Formatter::SuffixFemale => assert(f.name_spec().len() != g.name_spec().len()),
            Formatter::SuffixMale => assert(f.name_spec().len() != g.name_spec().len()),
            Formatter::SuffixNonbinary => assert(f.name_spec().len() != g.name_spec().len()),
            Formatter::UserName => assert(f.name_spec().len() != g.name_spec().len()),
        },
        Formatter::FreeEmailDomain => match g {
            Formatter::BuildingNumber => assert(f.name_spec().len() != g.name_spec().len()),
            Formatter::City => assert(f.name_spec().len() != g.name_spec().len()),
            Formatter::CityPrefix => assert(f.name_spec().len() != g.name_spec().len()),
            Formatter::CitySuffix => assert(f.name_spec().len() != g.name_spec().len()),
            Formatter::CompanySuffix => assert(f.name_spec().len() != g.name_spec().len()),
            Formatter::DomainName => assert(f.name_spec().len() != g.name_spec().len()),
            Formatter::FirstName => assert(f.name_spec().len() != g.name_spec().len()),
            Formatter::FirstNameFemale => assert(f.name_spec()[1] != g.name_spec()[1]),
            Formatter::FirstNameMale => assert(f.name_spec().len() != g.name_spec().len()),
            Formatter::FirstNameNonbinary => assert(f.name_spec().len() != g.name_spec().len()),
            Formatter::FreeEmailDomain => {},
            Formatter::LastName => assert(f.name_spec().len() != g.name_spec().len()),
            Formatter::MilitaryApo => assert(f.name_spec().len() != g.name_spec().len()),
            Formatter::MilitaryDpo => assert(f.name_spec().len() != g.name_spec().len()),
            Formatter::MilitaryShip => assert(f.name_spec().len() != g.name_spec().len()),
            Formatter::MilitaryState => assert(f.name_spec().len() != g.name_spec().len()),
            Formatter::Postcode => assert(f.name_spec().len() != g.name_spec().len()),
            Formatter::PrefixFemale => assert(f.name_spec().len() != g.name_spec().len()),
            Formatter::PrefixMale => assert(f.name_spec().len() != g.name_spec().len()),
            Formatter::PrefixNonbinary => assert(f.name_spec().len() != g.name_spec().len()),
            Formatter::SecondaryAddress => assert(f.name_spec()[0] != g.name_spec()[0]),
            Formatter::StateAbbr => assert(f.name_spec().len() != g.name_spec().len()),
            Formatter::StreetAddress => assert(f.name_spec().len() != g.name_spec().len()),
            Formatter::StreetName => assert(f.name_spec().len() != g.name_spec().len()),
            Formatter::StreetSuffix => assert(f.name_spec().len() != g.name_spec().len()),
            Formatter::SuffixFemale => assert(f.name_spec().len() != g.name_spec().len()),
            Formatter::SuffixMale => assert(f.name_spec().len() != g.name_spec().len()),
            Formatter::SuffixNonbinary => assert(f.name_spec().len() != g.name_spec().len()),
            Formatter::UserName => assert(f.name_spec().len() != g.name_spec().len()),
        },
        Formatter::LastName => match g {
            Formatter::BuildingNumber => assert(f.name_spec().len() != g.name_spec().len()),
            Formatter::City => assert(f.name_spec().len() != g.name_spec().len()),
            Formatter::CityPrefix => assert(f.name_spec().len() != g.name_spec().len()),
            Formatter::CitySuffix => assert(f.name_spec().len() != g.name_spec().len()),
            Formatter::CompanySuffix => assert(f.name_spec().len() != g.name_spec().len()),
            Formatter::DomainName => assert(f.name_spec().len() != g.name_spec().len()),
            Formatter::FirstName => assert(f.name_spec().len() != g.name_spec().len()),
            Formatter::FirstNameFemale => assert(f.name_spec().len() != g.name_spec().len()),
            Formatter::FirstNameMale => assert(f.name_spec().len() != g.name_spec().len()),
            Formatter::FirstNameNonbinary => assert(f.name_spec().len() != g.name_spec().len()),
            Formatter::FreeEmailDomain => assert(f.name_spec().len() != g.name_spec().len()),
            Formatter::LastName => {},
            Formatter::MilitaryApo => assert(f.name_spec().len() != g.name_spec().len()),
            Formatter::MilitaryDpo => assert(f.name_spec().len() != g.name_spec().len()),
            Formatter::MilitaryShip => assert(f.name_spec().len() != g.name_spec().len()),
            Formatter::MilitaryState => assert(f.name_spec().len() != g.name_spec().len()),
            Formatter::Postcode => assert(f.name_spec().len() != g.name_spec().len()),
            Formatter::PrefixFemale => assert(f.name_spec().len() != g.name_spec().len()),
            Formatter::PrefixMale => assert(f.name_spec().len() != g.name_spec().len()),
            Formatter::PrefixNonbinary => assert(f.name_spec().len() != g.name_spec().len()),
            Formatter::SecondaryAddress => assert(f.name_spec().len() != g.name_spec().len()),
            Formatter::StateAbbr => assert(f.name_spec().len() != g.name_spec().len()),
            Formatter::StreetAddress => assert(f.name_spec().len() != g.name_spec().len()),
            Formatter::StreetName => assert(f.name_spec().len() != g.name_spec().len()),
            Formatter::StreetSuffix => assert(f.name_spec().len() != g.name_spec().len()),
            Formatter::SuffixFemale => assert(f.name_spec().len() != g.name_spec().len()),
            Formatter::SuffixMale => assert(f.name_spec().len() != g.name_spec().len()),
            Formatter::SuffixNonbinary => assert(f.name_spec().len() != g.name_spec().len()),
            Formatter::UserName => assert(f.name_spec()[0] != g.name_spec()[0]),
        },
        Formatter::MilitaryApo => match g {
            Formatter::BuildingNumber => assert(f.name_spec().len() != g.name_spec().len()),
            Formatter::City => assert(f.name_spec().len() != g.name_spec().len()),
            Formatter::CityPrefix => assert(f.name_spec().len() != g.name_spec().len()),
            Formatter::CitySuffix => assert(f.name_spec().len() != g.name_spec().len()),
            Formatter::CompanySuffix => assert(f.name_spec().len() != g.name_spec().len()),
            Formatter::DomainName => assert(f.name_spec().len() != g.name_spec().len()),
            Formatter::FirstName => assert(f.name_spec().len() != g.name_spec().len()),
            Formatter::FirstNameFemale => assert(f.name_spec().len() != g.name_spec().len()),
            Formatter::FirstNameMale => assert(f.name_spec().len() != g.name_spec().len()),
            Formatter::FirstNameNonbinary => assert(f.name_spec().len() != g.name_spec().len()),
            Formatter::FreeEmailDomain => assert(f.name_spec().len() != g.name_spec().len()),
            Formatter::LastName => assert(f.name_spec().len() != g.name_spec().len()),
            Formatter::MilitaryApo => {},
            Formatter::MilitaryDpo => assert(f.name_spec()[9] != g.name_spec()[9]),
            Formatter::MilitaryShip => assert(f.name_spec().len() != g.name_spec().len()),
            Formatter::MilitaryState => assert(f.name_spec().len() != g.name_spec().len()),
            Formatter::Postcode => assert(f.name_spec().len() != g.name_spec().len()),
            Formatter::PrefixFemale => assert(f.name_spec().len() != g.name_spec().len()),
            Formatter::PrefixMale => assert(f.name_spec().len() != g.name_spec().len()),
            Formatter::PrefixNonbinary => assert(f.name_spec().len() != g.name_spec().len()),
            Formatter::SecondaryAddress => assert(f.name_spec().len() != g.name_spec().len()),
            Formatter::StateAbbr => assert(f.name_spec().len() != g.name_spec().len()),
            Formatter::StreetAddress => assert(f.name_spec().len() != g.name_spec().len()),
            Formatter::StreetName => assert(f.name_spec().len() != g.name_spec().len()),
            Formatter::StreetSuffix => assert(f.name_spec().len() != g.name_spec().len()),
            Formatter::SuffixFemale => assert(f.name_spec().len() != g.name_spec().len()),
            Formatter::SuffixMale => assert(f.name_spec().len() != g.name_spec().len()),
            Formatter::SuffixNonbinary => assert(f.name_spec().len() != g.name_spec().len()),
            Formatter::UserName => assert(f.name_spec().len() != g.name_spec().len()),
        },
        Formatter::MilitaryDpo => match g {
            Formatter::BuildingNumber => assert(f.name_spec().len() != g.name_spec().len()),
            Formatter::City => assert(f.name_spec().len() != g.name_spec().len()),
            Formatter::CityPrefix => assert(f.name_spec().len() != g.name_spec().len()),
            Formatter::CitySuffix => assert(f.name_spec().len() != g.name_spec().len()),
            Formatter::CompanySuffix => assert(f.name_spec().len() != g.name_spec().len()),
            Formatter::DomainName => assert(f.name_spec().len() != g.name_spec().len()),
            Formatter::FirstName => assert(f.name_spec().len() != g.name_spec().len()),
            Formatter::FirstNameFemale => assert(f.name_spec().len() != g.name_spec().len()),
            Formatter::FirstNameMale => assert(f.name_spec().len() != g.name_spec().len()),
            Formatter::FirstNameNonbinary => assert(f.name_spec().len() != g.name_spec().len()),
            Formatter::FreeEmailDomain => assert(f.name_spec().len() != g.name_spec().len()),
            Formatter::LastName => assert(f.name_spec().len() != g.name_spec().len()),
            Formatter::MilitaryApo => assert(f.name_spec()[9] != g.name_spec()[9]),
            Formatter::MilitaryDpo => {},
            Formatter::MilitaryShip => assert(f.name_spec().len() != g.name_spec().len()),
            Formatter::MilitaryState => assert(f.name_spec().len() != g.name_spec().len()),
            Formatter::Postcode => assert(f.name_spec().len() != g.name_spec().len()),
            Formatter::PrefixFemale => assert(f.name_spec().len() != g.name_spec().len()),
            Formatter::PrefixMale => assert(f.name_spec().len() != g.name_spec().len()),
            Formatter::PrefixNonbinary => assert(f.name_spec().len() != g.name_spec().len()),
            Formatter::SecondaryAddress => assert(f.name_spec().len() != g.name_spec().len()),
            Formatter::StateAbbr => assert(f.name_spec().len() != g.name_spec().len()),
            Formatter::StreetAddress => assert(f.name_spec().len() != g.name_spec().len()),
            Formatter::StreetName => assert(f.name_spec().len() != g.name_spec().len()),
            Formatter::StreetSuffix => assert(f.name_spec().len() != g.name_spec().len()),
            Formatter::SuffixFemale => assert(f.name_spec().len() != g.name_spec().len()),
            Formatter::SuffixMale => assert(f.name_spec().len() != g.name_spec().len()),
            Formatter::SuffixNonbinary => assert(f.name_spec().len() != g.name_spec().len()),
            Formatter::UserName => assert(f.name_spec().len() != g.name_spec().len()),
        },
        Formatter::MilitaryShip => match g {
            Formatter::BuildingNumber => assert(f.name_spec().len() != g.name_spec().len()),
            Formatter::City => assert(f.name_spec().len() != g.name_spec().len()),
            Formatter::CityPrefix => assert(f.name_spec().len() != g.name_spec().len()),
            Formatter::CitySuffix => assert(f.name_spec().len() != g.name_spec().len()),
            Formatter::CompanySuffix => assert(f.name_spec().len() != g.name_spec().len()),
            Formatter::DomainName => assert(f.name_spec().len() != g.name_spec().len()),
            Formatter::FirstName => assert(f.name_spec().len() != g.name_spec().len()),
            Formatter::FirstNameFemale => assert(f.name_spec().len() != g.name_spec().len()),
            Formatter::FirstNameMale => assert(f.name_spec().len() != g.name_spec().len()),
            Formatter::FirstNameNonbinary => assert(f.name_spec().len() != g.name_spec().len()),
            Formatter::FreeEmailDomain => assert(f.name_spec().len() != g.name_spec().len()),
            Formatter::LastName => assert(f.name_spec().len() != g.name_spec().len()),
            Formatter::MilitaryApo => assert(f.name_spec().len() != g.name_spec().len()),
            Formatter::MilitaryDpo => assert(f.name_spec().len() != g.name_spec().len()),
            Formatter::MilitaryShip => {},
            Formatter::MilitaryState => assert(f.name_spec().len() != g.name_spec().len()),
            Formatter::Postcode => assert(f.name_spec().len() != g.name_spec().len()),
            Formatter::PrefixFemale => assert(f.name_spec()[0] != g.name_spec()[0]),
            Formatter::PrefixMale => assert(f.name_spec().len() != g.name_spec().len()),
            Formatter::PrefixNonbinary => assert(f.name_spec().len() != g.name_spec().len()),
            Formatter::SecondaryAddress => assert(f.name_spec().len() != g.name_spec().len()),
            Formatter::StateAbbr => assert(f.name_spec().len() != g.name_spec().len()),
            Formatter::StreetAddress => assert(f.name_spec().len() != g.name_spec().len()),
            Formatter::StreetName => assert(f.name_spec().len() != g.name_spec().len()),
            Formatter::StreetSuffix => assert(f.name_spec()[0] != g.name_spec()[0]),
            Formatter::SuffixFemale => assert(f.name_spec()[0] != g.name_spec()[0]),
            Formatter::SuffixMale => assert(f.name_spec().len() != g.name_spec().len()),
            Formatter::SuffixNonbinary => assert(f.name_spec().len() != g.name_spec().len()),
            Formatter::UserName => assert(f.name_spec().len() != g.name_spec().len()),
        },
        Formatter::MilitaryState => match g {
            Formatter::BuildingNumber => assert(f.name_spec().len() != g.name_spec().len()),
            Formatter::City => assert(f.name_spec().len() != g.name_spec().len()),
            Formatter::CityPrefix => assert(f.name_spec().len() != g.name_spec().len()),
            Formatter::CitySuffix => assert(f.name_spec().len() != g.name_spec().len()),
            Formatter::CompanySuffix => assert(f.name_spec()[0] != g.name_spec()[0]),
            Formatter::DomainName => assert(f.name_spec().len() != g.name_spec().len()),
            Formatter::FirstName => assert(f.name_spec().len() != g.name_spec().len()),
            Formatter::FirstNameFemale => assert(f.name_spec().len() != g.name_spec().len()),
            Formatter::FirstNameMale => assert(f.name_spec().len() != g.name_spec().len()),
            Formatter::FirstNameNonbinary => assert(f.name_spec().len() != g.name_spec().len()),
            Formatter::FreeEmailDomain => assert(f.name_spec().len() != g.name_spec().len()),
            Formatter::LastName => assert(f.name_spec().len() != g.name_spec().len()),
            Formatter::MilitaryApo => assert(f.name_spec().len() != g.name_spec().len()),
            Formatter::MilitaryDpo => assert(f.name_spec().len() != g.name_spec().len()),
            Formatter::MilitaryShip => assert(f.name_spec().len() != g.name_spec().len()),
            Formatter::MilitaryState => {},
            Formatter::Postcode => assert(f.name_spec().len() != g.name_spec().len()),
            Formatter::PrefixFemale => assert(f.name_spec().len() != g.name_spec().len()),
            Formatter::PrefixMale => assert(f.name_spec().len() != g.name_spec().len()),
            Formatter::PrefixNonbinary => assert(f.name_spec().len() != g.name_spec().len()),
            Formatter::SecondaryAddress => assert(f.name_spec().len() != g.name_spec().len()),
            Formatter::StateAbbr => assert(f.name_spec().len() != g.name_spec().len()),
            Formatter::StreetAddress => assert(f.name_spec()[0] != g.name_spec()[0]),
            Formatter::StreetName => assert(f.name_spec().len() != g.name_spec().len()),
            Formatter::StreetSuffix => assert(f.name_spec().len() != g.name_spec().len()),
            Formatter::SuffixFemale => assert(f.name_spec().len() != g.name_spec().len()),
            Formatter::SuffixMale => assert(f.name_spec().len() != g.name_spec().len()),
            Formatter::SuffixNonbinary => assert(f.name_spec().len() != g.name_spec().len()),
            Formatter::UserName => assert(f.name_spec().len() != g.name_spec().len()),
        },
        Formatter::Postcode => match g {
            Formatter::BuildingNumber => assert(f.name_spec().len() != g.name_spec().len()),
            Formatter::City => assert(f.name_spec().len() != g.name_spec().len()),
            Formatter::CityPrefix => assert(f.name_spec().len() != g.name_spec().len()),
            Formatter::CitySuffix => assert(f.name_spec().len() != g.name_spec().len()),
            Formatter::CompanySuffix => assert(f.name_spec().len() != g.name_spec().len()),
            Formatter::DomainName => assert(f.name_spec().len() != g.name_spec().len()),
            Formatter::FirstName => assert(f.name_spec().len() != g.name_spec().len()),
            Formatter::FirstNameFemale => assert(f.name_spec().len() != g.name_spec().len()),
            Formatter::FirstNameMale => assert(f.name_spec().len() != g.name_spec().len()),
            Formatter::FirstNameNonbinary => assert(f.name_spec().len() != g.name_spec().len()),
            Formatter::FreeEmailDomain => assert(f.name_spec().len() != g.name_spec().len()),
            Formatter::LastName => assert(f.name_spec().len() != g.name_spec().len()),
            Formatter::MilitaryApo => assert(f.name_spec().len() != g.name_spec().len()),
            Formatter::MilitaryDpo => assert(f.name_spec().len() != g.name_spec().len()),
            Formatter::MilitaryShip => assert(f.name_spec().len() != g.name_spec().len()),
            Formatter::MilitaryState => assert(f.name_spec().len() != g.name_spec().len()),
            Formatter::Postcode => {},
            Formatter::PrefixFemale => assert(f.name_spec().len() != g.name_spec().len()),
            Formatter::PrefixMale => assert(f.name_spec().len() != g.name_spec().len()),
            Formatter::PrefixNonbinary => assert(f.name_spec().len() != g.name_spec().len()),
            Formatter::SecondaryAddress => assert(f.name_spec().len() != g.name_spec().len()),
            Formatter::StateAbbr => assert(f.name_spec().len() != g.name_spec().len()),
            Formatter::StreetAddress => assert(f.name_spec().len() != g.name_spec().len()),
            Formatter::StreetName => assert(f.name_spec().len() != g.name_spec().len()),
            Formatter::StreetSuffix => assert(f.name_spec().len() != g.name_spec().len()),
            Formatter::SuffixFemale => assert(f.name_spec().len() != g.name_spec().len()),
            Formatter::SuffixMale => assert(f.name_spec().len() != g.name_spec().len()),
            Formatter::SuffixNonbinary => assert(f.name_spec().len() != g.name_spec().len()),
            Formatter::UserName => assert(f.name_spec().len() != g.name_spec().len()),
        },
        Formatter::PrefixFemale => match g {
            Formatter::BuildingNumber => assert(f.name_spec().len() != g.name_spec().len()),
            Formatter::City => assert(f.name_spec().len() != g.name_spec().len()),
            Formatter::CityPrefix => assert(f.name_spec().len() != g.name_spec().len()),
            Formatter::CitySuffix => assert(f.name_spec().len() != g.name_spec().len()),
            Formatter::CompanySuffix => assert(f.name_spec().len() != g.name_spec().len()),
            Formatter::DomainName => assert(f.name_spec().len() != g.name_spec().len()),
            Formatter::FirstName => assert(f.name_spec().len() != g.name_spec().len()),
            Formatter::FirstNameFemale => assert(f.name_spec().len() != g.name_spec().len()),
            Formatter::FirstNameMale => assert(f.name_spec().len() != g.name_spec().len()),
            Formatter::FirstNameNonbinary => assert(f.name_spec().len() != g.name_spec().len()),
            Formatter::FreeEmailDomain => assert(f.name_spec().len() != g.name_spec().len()),
            Formatter::LastName => assert(f.name_spec().len() != g.name_spec().len()),
            Formatter::MilitaryApo => assert(f.name_spec().len() != g.name_spec().len()),
            Formatter::MilitaryDpo => assert(f.name_spec().len() != g.name_spec().len()),
            Formatter::MilitaryShip => assert(f.name_spec()[0] != g.name_spec()[0]),
            Formatter::MilitaryState => assert(f.name_spec().len() != g.name_spec().len()),
            Formatter::Postcode => assert(f.name_spec().len() != g.name_spec().len()),
            Formatter::PrefixFemale => {},
            Formatter::PrefixMale => assert(f.name_spec().len() != g.name_spec().len()),
            Formatter::PrefixNonbinary => assert(f.name_spec().len() != g.name_spec().len()),
            Formatter::SecondaryAddress => assert(f.name_spec().len() != g.name_spec().len()),
            Formatter::StateAbbr => assert(f.name_spec().len() != g.name_spec().len()),
            Formatter::StreetAddress => assert(f.name_spec().len() != g.name_spec().len()),
            Formatter::StreetName => assert(f.name_spec().len() != g.name_spec().len()),
            Formatter::StreetSuffix => assert(f.name_spec()[0] != g.name_spec()[0]),
            Formatter::SuffixFemale => assert(f.name_spec()[0] != g.name_spec()[0]),
            Formatter::SuffixMale => assert(f.name_spec().len() != g.name_spec().len()),
            Formatter::SuffixNonbinary => assert(f.name_spec().len() != g.name_spec().len()),
            Formatter::UserName => assert(f.name_spec().len() != g.name_spec().len()),
        },
        Formatter::PrefixMale => match g {
            Formatter::BuildingNumber => assert(f.name_spec().len() != g.name_spec().len()),
            Formatter::City => assert(f.name_spec().len() != g.name_spec().len()),
            Formatter::CityPrefix => assert(f.name_spec()[0] != g.name_spec()[0]),
            Formatter::CitySuffix => assert(f.name_spec()[0] != g.name_spec()[0]),
            Formatter::CompanySuffix => assert(f.name_spec().len() != g.name_spec().len()),
            Formatter::DomainName => assert(f.name_spec()[0] != g.name_spec()[0]),
            Formatter::FirstName => assert(f.name_spec().len() != g.name_spec().len()),
            Formatter::FirstNameFemale => assert(f.name_spec().len() != g.name_spec().len()),
            Formatter::FirstNameMale => assert(f.name_spec().len() != g.name_spec().len()),
            Formatter::FirstNameNonbinary => assert(f.name_spec().len() != g.name_spec().len()),
            Formatter::FreeEmailDomain => assert(f.name_spec().len() != g.name_spec().len()),
            Formatter::LastName => assert(f.name_spec().len() != g.name_spec().len()),
            Formatter::MilitaryApo => assert(f.name_spec().len() != g.name_spec().len()),
            Formatter::MilitaryDpo => assert(f.name_spec().len() != g.name_spec().len()),
            Formatter::MilitaryShip => assert(f.name_spec().len() != g.name_spec().len()),
            Formatter::MilitaryState => assert(f.name_spec().len() != g.name_spec().len()),
            Formatter::Postcode => assert(f.name_spec().len() != g.name_spec().len()),
            Formatter::PrefixFemale => assert(f.name_spec().len() != g.name_spec().len()),
            Formatter::PrefixMale => {},
            Formatter::PrefixNonbinary => assert(f.name_spec().len() != g.name_spec().len()),
            Formatter::SecondaryAddress => assert(f.name_spec().len() != g.name_spec().len()),
            Formatter::StateAbbr => assert(f.name_spec().len() != g.name_spec().len()),
            Formatter::StreetAddress => assert(f.name_spec().len() != g.name_spec().len()),
            Formatter::StreetName => assert(f.name_spec()[0] != g.name_spec()[0]),
            Formatter::StreetSuffix => assert(f.name_spec().len() != g.name_spec().len()),
            Formatter::SuffixFemale => assert(f.name_spec().len() != g.name_spec().len()),
            Formatter::SuffixMale => assert(f.name_spec()[0] != g.name_spec()[0]),
            Formatter::SuffixNonbinary => assert(f.name_spec().len() != g.name_spec().len()),
            Formatter::UserName => assert(f.name_spec().len() != g.name_spec().len()),
        },
        Formatter::PrefixNonbinary => match g {
            Formatter::BuildingNumber => assert(f.name_spec().len() != g.name_spec().len()),
            Formatter::City => assert(f.name_spec().len() != g.name_spec().len()),
            Formatter::CityPrefix => assert(f.name_spec().len() != g.name_spec().len()),
            Formatter::CitySuffix => assert(f.name_spec().len() != g.name_spec().len()),
            Formatter::CompanySuffix => assert(f.name_spec().len() != g.name_spec().len()),
            Formatter::DomainName => assert(f.name_spec().len() != g.name_spec().len()),
            Formatter::FirstName => assert(f.name_spec().len() != g.name_spec().len()),
            Formatter::FirstNameFemale => assert(f.name_spec().len() != g.name_spec().len()),
            Formatter::FirstNameMale => assert(f.name_spec().len() != g.name_spec().len()),
            Formatter::FirstNameNonbinary => assert(f.name_spec().len() != g.name_spec().len()),
            Formatter::FreeEmailDomain => assert(f.name_spec().len() != g.name_spec().len()),
            Formatter::LastName => assert(f.name_spec().len() != g.name_spec().len()),
            Formatter::MilitaryApo => assert(f.name_spec().len() != g.name_spec().len()),
            Formatter::MilitaryDpo => assert(f.name_spec().len() != g.name_spec().len()),
            Formatter::MilitaryShip => assert(f.name_spec().len() != g.name_spec().len()),
            Formatter::MilitaryState => assert(f.name_spec().len() != g.name_spec().len()),
            Formatter::Postcode => assert(f.name_spec().len() != g.name_spec().len()),
            Formatter::PrefixFemale => assert(f.name_spec().len() != g.name_spec().len()),
            Formatter::PrefixMale => assert(f.name_spec().len() != g.name_spec().len()),
            Formatter::PrefixNonbinary => {},
            Formatter::SecondaryAddress => assert(f.name_spec().len() != g.name_spec().len()),
            Formatter::StateAbbr => assert(f.name_spec().len() != g.name_spec().len()),
            Formatter::StreetAddress => assert(f.name_spec().len() != g.name_spec().len()),
            Formatter::StreetName => assert(f.name_spec().len() != g.name_spec().len()),
            Formatter::StreetSuffix => assert(f.name_spec().len() != g.name_spec().len()),
            Formatter::SuffixFemale => assert(f.name_spec().len() != g.name_spec().len()),
            Formatter::SuffixMale => assert(f.name_spec().len() != g.name_spec().len()),
            Formatter::SuffixNonbinary => assert(f.name_spec()[0] != g.name_spec()[0]),
            Formatter::UserName => assert(f.name_spec().len() != g.name_spec().len()),
        },
        Formatter::SecondaryAddress => match g {
            Formatter::BuildingNumber => assert(f.name_spec().len() != g.name_spec().len()),
            Formatter::City => assert(f.name_spec().len() != g.name_spec().len()),
            Formatter::CityPrefix => assert(f.name_spec().len() != g.name_spec().len()),
            Formatter::CitySuffix => assert(f.name_spec().len() != g.name_spec().len()),
            Formatter::CompanySuffix => assert(f.name_spec().len() != g.name_spec().len()),
            Formatter::DomainName => assert(f.name_spec().len() != g.name_spec().len()),
            Formatter::FirstName => assert(f.name_spec().len() != g.name_spec().len()),
            Formatter::FirstNameFemale => assert(f.name_spec()[0] != g.name_spec()[0]),
            Formatter::FirstNameMale => assert(f.name_spec().len() != g.name_spec().len()),
            Formatter::FirstNameNonbinary => assert(f.name_spec().len() != g.name_spec().len()),
            Formatter::FreeEmailDomain => assert(f.name_spec()[0] != g.name_spec()[0]),
            Formatter::LastName => assert(f.name_spec().len() != g.name_spec().len()),
            Formatter::MilitaryApo => assert(f.name_spec().len() != g.name_spec().len()),
            Formatter::MilitaryDpo => assert(f.name_spec().len() != g.name_spec().len()),
            Formatter::MilitaryShip => assert(f.name_spec().len() != g.name_spec().len()),
            Formatter::MilitaryState => assert(f.name_spec().len() != g.name_spec().len()),
            Formatter::Postcode => assert(f.name_spec().len() != g.name_spec().len()),
            Formatter::PrefixFemale => assert(f.name_spec().len() != g.name_spec().len()),
            Formatter::PrefixMale => assert(f.name_spec().len() != g.name_spec().len()),
            Formatter::PrefixNonbinary => assert(f.name_spec().len() != g.name_spec().len()),
            Formatter::SecondaryAddress => {},
            Formatter::StateAbbr => assert(f.name_spec().len() != g.name_spec().len()),
            Formatter::StreetAddress => assert(f.name_spec().len() != g.name_spec().len()),
            Formatter::StreetName => assert(f.name_spec().len() != g.name_spec().len()),
            Formatter::StreetSuffix => assert(f.name_spec().len() != g.name_spec().len()),
            Formatter::SuffixFemale => assert(f.name_spec().len() != g.name_spec().len()),
            Formatter::SuffixMale => assert(f.name_spec().len() != g.name_spec().len()),
            Formatter::SuffixNonbinary => assert(f.name_spec().len() != g.name_spec().len()),
            Formatter::UserName => assert(f.name_spec().len() != g.name_spec().len()),
        },
        Formatter::StateAbbr => match g {
            Formatter::BuildingNumber => assert(f.name_spec().len() != g.name_spec().len()),
            Formatter::City => assert(f.name_spec().len() != g.name_spec().len()),
            Formatter::CityPrefix => assert(f.name_spec().len() != g.name_spec().len()),
            Formatter::CitySuffix => assert(f.name_spec().len() != g.name_spec().len()),
            Formatter::CompanySuffix => assert(f.name_spec().len() != g.name_spec().len()),
            Formatter::DomainName => assert(f.name_spec().len() != g.name_spec().len()),
            Formatter::FirstName => assert(f.name_spec()[0] != g.name_spec()[0]),
            Formatter::FirstNameFemale => assert(f.name_spec().len() != g.name_spec().len()),
            Formatter::FirstNameMale => assert(f.name_spec().len() != g.name_spec().len()),
            Formatter::FirstNameNonbinary => assert(f.name_spec().len() != g.name_spec().len()),
            Formatter::FreeEmailDomain => assert(f.name_spec().len() != g.name_spec().len()),
            Formatter::LastName => assert(f.name_spec().len() != g.name_spec().len()),
            Formatter::MilitaryApo => assert(f.name_spec().len() != g.name_spec().len()),
            Formatter::MilitaryDpo => assert(f.name_spec().len() != g.name_spec().len()),
            Formatter::MilitaryShip => assert(f.name_spec().len() != g.name_spec().len()),
            Formatter::MilitaryState => assert(f.name_spec().len() != g.name_spec().len()),
            Formatter::Postcode => assert(f.name_spec().len() != g.name_spec().len()),
            Formatter::PrefixFemale => assert(f.name_spec().len() != g.name_spec().len()),
            Formatter::PrefixMale => assert(f.name_spec().len() != g.name_spec().len()),
            Formatter::PrefixNonbinary => assert(f.name_spec().len() != g.name_spec().len()),
            Formatter::SecondaryAddress => assert(f.name_spec().len() != g.name_spec().len()),
            Formatter::StateAbbr => {},
            Formatter::StreetAddress => assert(f.name_spec().len() != g.name_spec().len()),
            Formatter::StreetName => assert(f.name_spec().len() != g.name_spec().len()),
            Formatter::StreetSuffix => assert(f.name_spec().len() != g.name_spec().len()),
            Formatter::SuffixFemale => assert(f.name_spec().len() != g.name_spec().len()),
            Formatter::SuffixMale => assert(f.name_spec().len() != g.name_spec().len()),
            Formatter::SuffixNonbinary => assert(f.name_spec().len() != g.name_spec().len()),
            Formatter::UserName => assert(f.name_spec().len() != g.name_spec().len()),
        },
        Formatter::StreetAddress => match g {
            Formatter::BuildingNumber => assert(f.name_spec().len() != g.name_spec().len()),
            Formatter::City => assert(f.name_spec().len() != g.name_spec().len()),
            Formatter::CityPrefix => assert(f.name_spec().len() != g.name_spec().len()),
            Formatter::CitySuffix => assert(f.name_spec().len() != g.name_spec().len()),
            Formatter::CompanySuffix => assert(f.name_spec()[0] != g.name_spec()[0]),
            Formatter::DomainName => assert(f.name_spec().len() != g.name_spec().len()),
            Formatter::FirstName => assert(f.name_spec().len() != g.name_spec().len()),
            Formatter::FirstNameFemale => assert(f.name_spec().len() != g.name_spec().len()),
            Formatter::FirstNameMale => assert(f.name_spec().len() != g.name_spec().len()),
            Formatter::FirstNameNonbinary => assert(f.name_spec().len() != g.name_spec().len()),
            Formatter::FreeEmailDomain => assert(f.name_spec().len() != g.name_spec().len()),
            Formatter::LastName => assert(f.name_spec().len() != g.name_spec().len()),
            Formatter::MilitaryApo => assert(f.name_spec().len() != g.name_spec().len()),
            Formatter::MilitaryDpo => assert(f.name_spec().len() != g.name_spec().len()),
            Formatter::MilitaryShip => assert(f.name_spec().len() != g.name_spec().len()),
            Formatter::MilitaryState => assert(f.name_spec()[0] != g.name_spec()[0]),
            Formatter::Postcode => assert(f.name_spec().len() != g.name_spec().len()),
            Formatter::PrefixFemale => assert(f.name_spec().len() != g.name_spec().len()),
            Formatter::PrefixMale => assert(f.name_spec().len() != g.name_spec().len()),
            Formatter::PrefixNonbinary => assert(f.name_spec().len() != g.name_spec().len()),
            Formatter::SecondaryAddress => assert(f.name_spec().len() != g.name_spec().len()),
            Formatter::StateAbbr => assert(f.name_spec().len() != g.name_spec().len()),
            Formatter::StreetAddress => {},
            Formatter::StreetName => assert(f.name_spec().len() != g.name_spec().len()),
            Formatter::StreetSuffix => assert(f.name_spec().len() != g.name_spec().len()),
            Formatter::SuffixFemale => assert(f.name_spec().len() != g.name_spec().len()),
            Formatter::SuffixMale => assert(f.name_spec().len() != g.name_spec().len()),
            Formatter::SuffixNonbinary => assert(f.name_spec().len() != g.name_spec().len()),
            Formatter::UserName => assert(f.name_spec().len() != g.name_spec().len()),
        },
        Formatter::StreetName => match g {
            Formatter::BuildingNumber => assert(f.name_spec().len() != g.name_spec().len()),
            Formatter::City => assert(f.name_spec().len() != g.name_spec().len()),
            Formatter::CityPrefix => assert(f.name_spec()[0] != g.name_spec()[0]),
            Formatter::CitySuffix => assert(f.name_spec()[0] != g.name_spec()[0]),
            Formatter::CompanySuffix => assert(f.name_spec().len() != g.name_spec().len()),
            Formatter::DomainName => assert(f.name_spec()[0] != g.name_spec()[0]),
            Formatter::FirstName => assert(f.name_spec().len() != g.name_spec().len()),
            Formatter::FirstNameFemale => assert(f.name_spec().len() != g.name_spec().len()),
            Formatter::FirstNameMale => assert(f.name_spec().len() != g.name_spec().len()),
            Formatter::FirstNameNonbinary => assert(f.name_spec().len() != g.name_spec().len()),
            Formatter::FreeEmailDomain => assert(f.name_spec().len() != g.name_spec().len()),
            Formatter::LastName => assert(f.name_spec().len() != g.name_spec().len()),
            Formatter::MilitaryApo => assert(f.name_spec().len() != g.name_spec().len()),
            Formatter::MilitaryDpo => assert(f.name_spec().len() != g.name_spec().len()),
            Formatter::MilitaryShip => assert(f.name_spec().len() != g.name_spec().len()),
            Formatter::MilitaryState => assert(f.name_spec().len() != g.name_spec().len()),
            Formatter::Postcode => assert(f.name_spec().len() != g.name_spec().len()),
            Formatter::PrefixFemale => assert(f.name_spec().len() != g.name_spec().len()),
            Formatter::PrefixMale => assert(f.name_spec()[0] != g.name_spec()[0]),
            Formatter::PrefixNonbinary => assert(f.name_spec().len() != g.name_spec().len()),
            Formatter::SecondaryAddress => assert(f.name_spec().len() != g.name_spec().len()),
            Formatter::StateAbbr => assert(f.name_spec().len() != g.name_spec().len()),
            Formatter::StreetAddress => assert(f.name_spec().len() != g.name_spec().len()),
            Formatter::StreetName => {},
            Formatter::StreetSuffix => assert(f.name_spec().len() != g.name_spec().len()),
            Formatter::SuffixFemale => assert(f.name_spec().len() != g.name_spec().len()),
            Formatter::SuffixMale => assert(f.name_spec()[1] != g.name_spec()[1]),
            Formatter::SuffixNonbinary => assert(f.name_spec().len() != g.name_spec().len()),
            Formatter::UserName => assert(f.name_spec().len() != g.name_spec().len()),
        },
        Formatter::StreetSuffix => match g {
            Formatter::BuildingNumber => assert(f.name_spec().len() != g.name_spec().len()),
            Formatter::City => assert(f.name_spec().len() != g.name_spec().len()),
            Formatter::CityPrefix => assert(f.name_spec().len() != g.name_spec().len()),
            Formatter::CitySuffix => assert(f.name_spec().len() != g.name_spec().len()),
            Formatter::CompanySuffix => assert(f.name_spec().len() != g.name_spec().len()),
            Formatter::DomainName => assert(f.name_spec().len() != g.name_spec().len()),
            Formatter::FirstName => assert(f.name_spec().len() != g.name_spec().len()),
            Formatter::FirstNameFemale => assert(f.name_spec().len() != g.name_spec().len()),
            Formatter::FirstNameMale => assert(f.name_spec().len() != g.name_spec().len()),
            Formatter::FirstNameNonbinary => assert(f.name_spec().len() != g.name_spec().len()),
            Formatter::FreeEmailDomain => assert(f.name_spec().len() != g.name_spec().len()),
            Formatter::LastName => assert(f.name_spec().len() != g.name_spec().len()),
            Formatter::MilitaryApo => assert(f.name_spec().len() != g.name_spec().len()),
            Formatter::MilitaryDpo => assert(f.name_spec().len() != g.name_spec().len()),
            Formatter::MilitaryShip => assert(f.name_spec()[0] != g.name_spec()[0]),
            Formatter::MilitaryState => assert(f.name_spec().len() != g.name_spec().len()),
            Formatter::Postcode => assert(f.name_spec().len() != g.name_spec().len()),
            Formatter::PrefixFemale => assert(f.name_spec()[0] != g.name_spec()[0]),
            Formatter::PrefixMale => assert(f.name_spec().len() != g.name_spec().len()),
            Formatter::PrefixNonbinary => assert(f.name_spec().len() != g.name_spec().len()),
            Formatter::SecondaryAddress => assert(f.name_spec().len() != g.name_spec().len()),
            Formatter::StateAbbr => assert(f.name_spec().len() != g.name_spec().len()),
            Formatter::StreetAddress => assert(f.name_spec().len() != g.name_spec().len()),
            Formatter::StreetName => assert(f.name_spec().len() != g.name_spec().len()),
            Formatter::StreetSuffix => {},
            Formatter::SuffixFemale => assert(f.name_spec()[1] != g.name_spec()[1]),
            Formatter::SuffixMale => assert(f.name_spec().len() != g.name_spec().len()),
            Formatter::SuffixNonbinary => assert(f.name_spec().len() != g.name_spec().len()),
            Formatter::UserName => assert(f.name_spec().len() != g.name_spec().len()),
        },
        Formatter::SuffixFemale => match g {
            Formatter::BuildingNumber => assert(f.name_spec().len() != g.name_spec().len()),
            Formatter::City => assert(f.name_spec().len() != g.name_spec().len()),
            Formatter::CityPrefix => assert(f.name_spec().len() != g.name_spec().len()),
            Formatter::CitySuffix => assert(f.name_spec().len() != g.name_spec().len()),
            Formatter::CompanySuffix => assert(f.name_spec().len() != g.name_spec().len()),
            Formatter::DomainName => assert(f.name_spec().len() != g.name_spec().len()),
            Formatter::FirstName => assert(f.name_spec().len() != g.name_spec().len()),
            Formatter::FirstNameFemale => assert(f.name_spec().len() != g.name_spec().len()),
            Formatter::FirstNameMale => assert(f.name_spec().len() != g.name_spec().len()),
            Formatter::FirstNameNonbinary => assert(f.name_spec().len() != g.name_spec().len()),
            Formatter::FreeEmailDomain => assert(f.name_spec().len() != g.name_spec().len()),
            Formatter::LastName => assert(f.name_spec().len() != g.name_spec().len()),
            Formatter::MilitaryApo => assert(f.name_spec().len() != g.name_spec().len()),
            Formatter::MilitaryDpo => assert(f.name_spec().len() != g.name_spec().len()),
            Formatter::MilitaryShip => assert(f.name_spec()[0] != g.name_spec()[0]),
            Formatter::MilitaryState => assert(f.name_spec().len() != g.name_spec().len()),
            Formatter::Postcode => assert(f.name_spec().len() != g.name_spec().len()),
            Formatter::PrefixFemale => assert(f.name_spec()[0] != g.name_spec()[0]),
            Formatter::PrefixMale => assert(f.name_spec().len() != g.name_spec().len()),
            Formatter::PrefixNonbinary => assert(f.name_spec().len() != g.name_spec().len()),
            Formatter::SecondaryAddress => assert(f.name_spec().len() != g.name_spec().len()),
            Formatter::StateAbbr => assert(f.name_spec().len() != g.name_spec().len()),
            Formatter::StreetAddress => assert(f.name_spec().len() != g.name_spec().len()),
            Formatter::StreetName => assert(f.name_spec().len() != g.name_spec().len()),
            Formatter::StreetSuffix => assert(f.name_spec()[1] != g.name_spec()[1]),
            Formatter::SuffixFemale => {},
            Formatter::SuffixMale => assert(f.name_spec().len() != g.name_spec().len()),
            Formatter::SuffixNonbinary => assert(f.name_spec().len() != g.name_spec().len()),
            Formatter::UserName => assert(f.name_spec().len() != g.name_spec().len()),
        },
        Formatter::SuffixMale => match g {
            Formatter::BuildingNumber => assert(f.name_spec().len() != g.name_spec().len()),
            Formatter::City => assert(f.name_spec().len() != g.name_spec().len()),
            Formatter::CityPrefix => assert(f.name_spec()[0] != g.name_spec()[0]),
            Formatter::CitySuffix => assert(f.name_spec()[0] != g.name_spec()[0]),
            Formatter::CompanySuffix => assert(f.name_spec().len() != g.name_spec().len()),
            Formatter::DomainName => assert(f.name_spec()[0] != g.name_spec()[0]),
            Formatter::FirstName => assert(f.name_spec().len() != g.name_spec().len()),
            Formatter::FirstNameFemale => assert(f.name_spec().len() != g.name_spec().len()),
            Formatter::FirstNameMale => assert(f.name_spec().len() != g.name_spec().len()),
            Formatter::FirstNameNonbinary => assert(f.name_spec().len() != g.name_spec().len()),
            Formatter::FreeEmailDomain => assert(f.name_spec().len() != g.name_spec().len()),
            Formatter::LastName => assert(f.name_spec().len() != g.name_spec().len()),
            Formatter::MilitaryApo => assert(f.name_spec().len() != g.name_spec().len()),
            Formatter::MilitaryDpo => assert(f.name_spec().len() != g.name_spec().len()),
            Formatter::MilitaryShip => assert(f.name_spec().len() != g.name_spec().len()),
            Formatter::MilitaryState => assert(f.name_spec().len() != g.name_spec().len()),
            Formatter::Postcode => assert(f.name_spec().len() != g.name_spec().len()),
            Formatter::PrefixFemale => assert(f.name_spec().len() != g.name_spec().len()),
            Formatter::PrefixMale => assert(f.name_spec()[0] != g.name_spec()[0]),
            Formatter::PrefixNonbinary => assert(f.name_spec().len() != g.name_spec().len()),
            Formatter::SecondaryAddress => assert(f.name_spec().len() != g.name_spec().len()),
            Formatter::StateAbbr => assert(f.name_spec().len() != g.name_spec().len()),
            Formatter::StreetAddress => assert(f.name_spec().len() != g.name_spec().len()),
            Formatter::StreetName => assert(f.name_spec()[1] != g.name_spec()[1]),
            Formatter::StreetSuffix => assert(f.name_spec().len() != g.name_spec().len()),
            Formatter::SuffixFemale => assert(f.name_spec().len() != g.name_spec().len()),
            Formatter::SuffixMale => {},
            Formatter::SuffixNonbinary => assert(f.name_spec().len() != g.name_spec().len()),
            Formatter::UserName => assert(f.name_spec().len() != g.name_spec().len()),
        },
        Formatter::SuffixNonbinary => match g {
            Formatter::BuildingNumber => assert(f.name_spec().len() != g.name_spec().len()),
            Formatter::City => assert(f.name_spec().len() != g.name_spec().len()),
            Formatter::CityPrefix => assert(f.name_spec().len() != g.name_spec().len()),
            Formatter::CitySuffix => assert(f.name_spec().len() != g.name_spec().len()),
            Formatter::CompanySuffix => assert(f.name_spec().len() != g.name_spec().len()),
            Formatter::DomainName => assert(f.name_spec().len() != g.name_spec().len()),
            Formatter::FirstName => assert(f.name_spec().len() != g.name_spec().len()),
            Formatter::FirstNameFemale => assert(f.name_spec().len() != g.name_spec().len()),
            Formatter::FirstNameMale => assert(f.name_spec().len() != g.name_spec().len()),
            Formatter::FirstNameNonbinary => assert(f.name_spec().len() != g.name_spec().len()),
            Formatter::FreeEmailDomain => assert(f.name_spec().len() != g.name_spec().len()),
            Formatter::LastName => assert(f.name_spec().len() != g.name_spec().len()),
            Formatter::MilitaryApo => assert(f.name_spec().len() != g.name_spec().len()),
            Formatter::MilitaryDpo => assert(f.name_spec().len() != g.name_spec().len()),
            Formatter::MilitaryShip => assert(f.name_spec().len() != g.name_spec().len()),
            Formatter::MilitaryState => assert(f.name_spec().len() != g.name_spec().len()),
            Formatter::Postcode => assert(f.name_spec().len() != g.name_spec().len()),
            Formatter::PrefixFemale => assert(f.name_spec().len() != g.name_spec().len()),
            Formatter::PrefixMale => assert(f.name_spec().len() != g.name_spec().len()),
            Formatter::PrefixNonbinary => assert(f.name_spec()[0] != g.name_spec()[0]),
            Formatter::SecondaryAddress => assert(f.name_spec().len() != g.name_spec().len()),
            Formatter::StateAbbr => assert(f.name_spec().len() != g.name_spec().len()),
            Formatter::StreetAddress => assert(f.name_spec().len() != g.name_spec().len()),
            Formatter::StreetName => assert(f.name_spec().len() != g.name_spec().len()),
            Formatter::StreetSuffix => assert(f.name_spec().len() != g.name_spec().len()),
            Formatter::SuffixFemale => assert(f.name_spec().len() != g.name_spec().len()),
            Formatter::SuffixMale => assert(f.name_spec().len() != g.name_spec().len()),
            Formatter::SuffixNonbinary => {},
            Formatter::UserName => assert(f.name_spec().len() != g.name_spec().len()),
        },
        Formatter::UserName => match g {
            Formatter::BuildingNumber => assert(f.name_spec().len() != g.name_spec().len()),
            Formatter::City => assert(f.name_spec().len() != g.name_spec().len()),
            Formatter::CityPrefix => assert(f.name_spec().len() != g.name_spec().len()),
            Formatter::CitySuffix => assert(f.name_spec().len() != g.name_spec().len()),
            Formatter::CompanySuffix => assert(f.name_spec().len() != g.name_spec().len()),
            Formatter::DomainName => assert(f.name_spec().len() != g.name_spec().len()),
            Formatter::FirstName => assert(f.name_spec().len() != g.name_spec().len()),
            Formatter::FirstNameFemale => assert(f.name_spec().len() != g.name_spec().len()),
            Formatter::FirstNameMale => assert(f.name_spec().len() != g.name_spec().len()),
            Formatter::FirstNameNonbinary => assert(f.name_spec().len() != g.name_spec().len()),
            Formatter::FreeEmailDomain => assert(f.name_spec().len() != g.name_spec().len()),
            Formatter::LastName => assert(f.name_spec()[0] != g.name_spec()[0]),
            Formatter::MilitaryApo => assert(f.name_spec().len() != g.name_spec().len()),
            Formatter::MilitaryDpo => assert(f.name_spec().len() != g.name_spec().len()),
            Formatter::MilitaryShip => assert(f.name_spec().len() != g.name_spec().len()),
            Formatter::MilitaryState => assert(f.name_spec().len() != g.name_spec().len()),
            Formatter::Postcode => assert(f.name_spec().len() != g.name_spec().len()),
            Formatter::PrefixFemale => assert(f.name_spec().len() != g.name_spec().len()),
            Formatter::PrefixMale => assert(f.name_spec().len() != g.name_spec().len()),
            Formatter::PrefixNonbinary => assert(f.name_spec().len() != g.name_spec().len()),
            Formatter::SecondaryAddress => assert(f.name_spec().len() != g.name_spec().len()),
            Formatter::StateAbbr => assert(f.name_spec().len() != g.name_spec().len()),
            Formatter::StreetAddress => assert(f.name_spec().len() != g.name_spec().len()),
            Formatter::StreetName => assert(f.name_spec().len() != g.name_spec().len()),
            Formatter::StreetSuffix => assert(f.name_spec().len() != g.name_spec().len()),
            Formatter::SuffixFemale => assert(f.name_spec().len() != g.name_spec().len()),
            Formatter::SuffixMale => assert(f.name_spec().len() != g.name_spec().len()),
            Formatter::SuffixNonbinary => assert(f.name_spec().len() != g.name_spec().len()),
            Formatter::UserName => {},
        },
    }
}

/// Resolving a formatter's own name gives that formatter back.
pub proof fn lemma_name_round_trip(f: Formatter, r: Option<Formatter>)
    requires
        r matches Some(g) ==> g.name_spec() == f.name_spec(),
        r is None ==> forall|g: Formatter| #[trigger] g.name_spec() != f.name_spec(),
    ensures
        r == Some(f),
{
    match r {
        Some(g) => {
            if g != f {
                lemma_names_distinct(f, g);
            }
        },
        None => {
            let h = f;
            assert(h.name_spec() != f.name_spec());
        },
    }
}


/// Whether `c` is a word character in the tokenizer's sense (`\w`): within ASCII a
/// letter, digit or underscore.
pub open spec fn token_char(c: char) -> bool {
    if ascii_char(c) {
        ascii_alphanumeric(c) || c == '_'
    } else {
        unicode_alphanumeric(c)
    }
}

/// Whether `c` is white space in the tokenizer's sense (`\s`).
pub open spec fn space_char(c: char) -> bool {
    if ascii_char(c) {
        ascii_whitespace(c)
    } else {
        unicode_whitespace(c)
    }
}

/// The first position at or after `i` that is not white space.
pub open spec fn skip_spaces(s: Seq<char>, i: int) -> int
    decreases s.len() - i,
{
    if 0 <= i < s.len() && space_char(s[i]) {
        skip_spaces(s, i + 1)
    } else {
        i
    }
}

/// The first position at or after `i` that is not a word character.
pub open spec fn skip_word(s: Seq<char>, i: int) -> int
    decreases s.len() - i,
{
    if 0 <= i < s.len() && token_char(s[i]) {
        skip_word(s, i + 1)
    } else {
        i
    }
}

pub proof fn lemma_skip_spaces_bounds(s: Seq<char>, i: int)
    requires
        0 <= i,
    ensures
        i <= skip_spaces(s, i),
        i <= s.len() ==> skip_spaces(s, i) <= s.len(),
    decreases s.len() - i,
{
    if 0 <= i < s.len() && space_char(s[i]) {
        lemma_skip_spaces_bounds(s, i + 1);
    }
}

pub proof fn lemma_skip_word_bounds(s: Seq<char>, i: int)
    requires
        0 <= i,
    ensures
        i <= skip_word(s, i),
        i <= s.len() ==> skip_word(s, i) <= s.len(),
    decreases s.len() - i,
{
    if 0 <= i < s.len() && token_char(s[i]) {
        lemma_skip_word_bounds(s, i + 1);
    }
}

/// Matches `\s*(\w+)\s*\}\}` at position `i`: the name's start and end, and the
/// position just past the closing braces.
pub open spec fn token_at(s: Seq<char>, i: int) -> Option<(int, int, int)> {
    let a = skip_spaces(s, i);
    let b = skip_word(s, a);
    if b == a {
        None
    } else {
        let c = skip_spaces(s, b);
        if 0 <= c && c + 1 < s.len() && s[c] == '}' && s[c + 1] == '}' {
            Some((a, b, c + 2))
        } else {
            None
        }
    }
}

pub proof fn lemma_token_at_bounds(s: Seq<char>, i: int)
    requires
        0 <= i,
    ensures
        token_at(s, i) matches Some((a, b, e)) ==> i <= a < b < e <= s.len() && b + 2 <= e,
{
    lemma_skip_spaces_bounds(s, i);
    let a = skip_spaces(s, i);
    lemma_skip_word_bounds(s, a);
    let b = skip_word(s, a);
    lemma_skip_spaces_bounds(s, b);
}

/// A piece of scanned template text: one literal character, or a `{{ name }}` token.
pub enum Piece {
    Text(char),
    Name(Seq<char>),
}

/// Whether `{{` starts at position `p`.
pub open spec fn opens_token(s: Seq<char>, p: int) -> bool {
    0 <= p && p + 1 < s.len() && s[p] == '{' && s[p + 1] == '{'
}

/// How `Generator.parse` reads `s` from position `p`: each `{{ name }}` becomes a token,
/// and every other character, including an unmatched brace, stays literal.
pub open spec fn pieces_from(s: Seq<char>, p: int) -> Seq<Piece>
    decreases s.len() - p,
{
    if 0 <= p < s.len() {
        let next = scan_step(s, p);
        if p < next.1 <= s.len() {
            seq![next.0] + pieces_from(s, next.1)
        } else {
            Seq::empty()
        }
    } else {
        Seq::empty()
    }
}

/// The piece that starts at `p` (which must be a position of `s`), and where the next
/// one starts.
pub open spec fn scan_step(s: Seq<char>, p: int) -> (Piece, int) {
    if !opens_token(s, p) {
        (Piece::Text(s[p]), p + 1)
    } else {
        match token_at(s, p + 2) {
            Some((a, b, e)) => (Piece::Name(s.subrange(a, b)), e),
            None => (Piece::Text('{'), p + 1),
        }
    }
}


/// The pieces of a whole text.
pub open spec fn pieces(s: Seq<char>) -> Seq<Piece> {
    pieces_from(s, 0)
}

/// Whether `n` names some formatter.
pub open spec fn known_name(n: Seq<char>) -> bool {
    exists|f: Formatter| f.name_spec() == n
}

/// Every token in `ps` names a formatter.
pub open spec fn all_known(ps: Seq<Piece>) -> bool {
    forall|i: int| 0 <= i < ps.len() ==> (#[trigger] ps[i] matches Piece::Name(n) ==> known_name(n))
}

/// Whether a template segment is what a scanned piece becomes.
pub open spec fn segment_of(seg: Segment, piece: Piece) -> bool {
    match (seg, piece) {
        (Segment::Literal(l), Piece::Text(c)) => l@ == seq![c],
        (Segment::Token(f), Piece::Name(n)) => f.name_spec() == n,
        _ => false,
    }
}

fn skip_spaces_exec(v: &Vec<char>, i: usize) -> (r: usize)
    requires
        i <= v.len(),
    ensures
        r == skip_spaces(v@, i as int),
        i <= r <= v.len(),
{
    let mut j = i;
    while j < v.len() && is_whitespace(v[j])
        invariant
            i <= j <= v.len(),
            skip_spaces(v@, i as int) == skip_spaces(v@, j as int),
        decreases v.len() - j,
    {
        j = j + 1;
    }
    j
}

fn skip_word_exec(v: &Vec<char>, i: usize) -> (r: usize)
    requires
        i <= v.len(),
    ensures
        r == skip_word(v@, i as int),
        i <= r <= v.len(),
{
    let mut j = i;
    while j < v.len() && (is_alphanumeric(v[j]) || v[j] == '_')
        invariant
            i <= j <= v.len(),
            skip_word(v@, i as int) == skip_word(v@, j as int),
        decreases v.len() - j,
    {
        j = j + 1;
    }
    j
}

/// Matches `\s*(\w+)\s*\}\}` at position `i` of `v`: the name's bounds and the
/// position just past the closing braces.
pub fn match_token(v: &Vec<char>, i: usize) -> (r: Option<(usize, usize, usize)>)
    requires
        i <= v.len(),
    ensures
        r is None <==> token_at(v@, i as int) is None,
        r matches Some((a, b, e)) ==> token_at(v@, i as int) == Some((a as int, b as int, e as int)),
{
    let a = skip_spaces_exec(v, i);
    let b = skip_word_exec(v, a);
    if b == a {
        return None;
    }
    let c = skip_spaces_exec(v, b);
    if c < v.len() && v.len() - c > 1 && v[c] == '}' && v[c + 1] == '}' {
        Some((a, b, c + 2))
    } else {
        None
    }
}

/// Tokenizes a template the way `Generator.parse` reads it: `{{ name }}` becomes a
/// formatter token and everything else (including unmatched braces) stays literal.
/// A name that no formatter has is an `UnknownFormatter` error.
pub fn tokenize(text: &str) -> (r: Result<Template>)
    ensures
        r is Ok <==> all_known(pieces(text@)),
        r matches Ok(segs) ==> {
            &&& segs@.len() == pieces(text@).len()
            &&& forall|i: int| 0 <= i < segs@.len() ==> segment_of(#[trigger] segs@[i], pieces(text@)[i])
        },
        r matches Err(e) ==> e matches Error::UnknownFormatter(n) && !known_name(n@) && pieces(
            text@,
        ).contains(Piece::Name(n@)),
{
    let v = chars_of(text);
    let mut segs: Vec<Segment> = Vec::new();
    let ghost mut done: Seq<Piece> = Seq::empty();
    let mut p: usize = 0;
    while p < v.len()
        invariant
            v@ == text@,
            p <= v.len(),
            pieces(v@) == done + pieces_from(v@, p as int),
            segs@.len() == done.len(),
            forall|i: int| 0 <= i < segs@.len() ==> segment_of(#[trigger] segs@[i], done[i]),
            all_known(done),
        decreases v.len() - p,
    {
        let ghost rest = pieces_from(v@, p as int);
        if p + 1 < v.len() && v[p] == '{' && v[p + 1] == '{' {
            proof {
                lemma_token_at_bounds(v@, p + 2);
            }
            match match_token(&v, p + 2) {
                Some((a, b, e)) => {
                    let name = string_of_range(&v, a, b);
                    assert(rest == seq![Piece::Name(v@.subrange(a as int, b as int))] + pieces_from(v@, e as int));
                    match Formatter::from_name(name.as_str()) {
                        Some(f) => {
                            segs.push(Segment::Token(f));
                            proof {
                                assert(segment_of(segs@[segs@.len() - 1], rest[0]));
                                done = done.push(rest[0]);
                                assert(all_known(done)) by {
                                    assert(f.name_spec() == name@);
                                }
                                assert(pieces(v@) == done + pieces_from(v@, e as int));
                            }
                            p = e;
                        },
                        None => {
                            proof {
                                assert(pieces(v@)[done.len() as int] == Piece::Name(name@));
                                assert(!known_name(name@));
                                assert(!all_known(pieces(v@))) by {
                                    assert(pieces(v@)[done.len() as int] matches Piece::Name(n) && !known_name(n));
                                }
                            }
                            return Err(Error::UnknownFormatter(name));
                        },
                    }
                },
                None => {
                    let mut lit = String::new();
                    push_char(&mut lit, '{');
                    segs.push(Segment::Literal(lit));
                    proof {
                        assert(rest == seq![Piece::Text('{')] + pieces_from(v@, p + 1));
                        done = done.push(rest[0]);
                        assert(pieces(v@) == done + pieces_from(v@, p + 1));
                    }
                    p = p + 1;
                },
            }
        } else {
            let mut lit = String::new();
            push_char(&mut lit, v[p]);
            segs.push(Segment::Literal(lit));
            proof {
                assert(!(p + 1 < v@.len() && v@[p as int] == '{' && v@[p + 1] == '{'));
                assert(0 <= p < v@.len());
                let pi = p as int;
                assert(pieces_from(v@, pi) == seq![Piece::Text(v@[pi])] + pieces_from(v@, pi + 1));
                assert(rest == seq![Piece::Text(v@[p as int])] + pieces_from(v@, p + 1));
                done = done.push(rest[0]);
                assert(pieces(v@) == done + pieces_from(v@, p + 1));
            }
            p = p + 1;
        }
    }
    assert(pieces(v@) == done);
    Ok(segs)
}


/// The text a piece is scanned from: the character itself, or `{{name}}`.
pub open spec fn piece_text(p: Piece) -> Seq<char> {
    match p {
        Piece::Text(c) => seq![c],
        Piece::Name(n) => seq!['{', '{'] + n + seq!['}', '}'],
    }
}

/// The text `ps` is scanned from, written without spaces inside the braces.
pub open spec fn text_of(ps: Seq<Piece>) -> Seq<char>
    decreases ps.len(),
{
    if ps.len() == 0 {
        Seq::empty()
    } else {
        piece_text(ps[0]) + text_of(ps.drop_first())
    }
}

/// A name the tokenizer reads whole: non-empty, of ASCII lower-case letters and
/// underscores.
pub open spec fn plain_name(n: Seq<char>) -> bool {
    &&& n.len() > 0
    &&& forall|i: int| 0 <= i < n.len() ==> ('a' <= #[trigger] n[i] <= 'z' || n[i] == '_')
}

/// Pieces written out plainly: no literal `{`, and every name plain.
pub open spec fn plain_pieces(ps: Seq<Piece>) -> bool {
    forall|i: int| 0 <= i < ps.len() ==> match #[trigger] ps[i] {
        Piece::Text(c) => c != '{',
        Piece::Name(n) => plain_name(n),
    }
}

/// Every formatter's name is plain.
pub proof fn lemma_names_plain(f: Formatter)
    ensures
        plain_name(f.name_spec()),
{
    match f {
        Formatter::BuildingNumber => reveal_strlit("building_number"),
        Formatter::City => reveal_strlit("city"),
        Formatter::CityPrefix => reveal_strlit("city_prefix"),
        Formatter::CitySuffix => reveal_strlit("city_suffix"),
        Formatter::CompanySuffix => reveal_strlit("company_suffix"),
        Formatter::DomainName => reveal_strlit("domain_name"),
        Formatter::FirstName => reveal_strlit("first_name"),
        Formatter::FirstNameFemale => reveal_strlit("first_name_female"),
        Formatter::FirstNameMale => reveal_strlit("first_name_male"),
        Formatter::FirstNameNonbinary => reveal_strlit("first_name_nonbinary"),
        Formatter::FreeEmailDomain => reveal_strlit("free_email_domain"),
        Formatter::LastName => reveal_strlit("last_name"),
        Formatter::MilitaryApo => reveal_strlit("military_apo"),
        Formatter::MilitaryDpo => reveal_strlit("military_dpo"),
        Formatter::MilitaryShip => reveal_strlit("military_ship"),
        Formatter::MilitaryState => reveal_strlit("military_state"),
        Formatter::Postcode => reveal_strlit("postcode"),
        Formatter::PrefixFemale => reveal_strlit("prefix_female"),
        Formatter::PrefixMale => reveal_strlit("prefix_male"),
        Formatter::PrefixNonbinary => reveal_strlit("prefix_nonbinary"),
        Formatter::SecondaryAddress => reveal_strlit("secondary_address"),
        Formatter::StateAbbr => reveal_strlit("state_abbr"),
        Formatter::StreetAddress => reveal_strlit("street_address"),
        Formatter::StreetName => reveal_strlit("street_name"),
        Formatter::StreetSuffix => reveal_strlit("street_suffix"),
        Formatter::SuffixFemale => reveal_strlit("suffix_female"),
        Formatter::SuffixMale => reveal_strlit("suffix_male"),
        Formatter::SuffixNonbinary => reveal_strlit("suffix_nonbinary"),
        Formatter::UserName => reveal_strlit("user_name"),
    }
}

/// `skip_word` runs over word characters up to the first character that is not one.
proof fn lemma_skip_word_run(s: Seq<char>, i: int, j: int)
    requires
        0 <= i <= j < s.len(),
        forall|k: int| i <= k < j ==> token_char(#[trigger] s[k]),
        !token_char(s[j]),
    ensures
        skip_word(s, i) == j,
    decreases j - i,
{
    if i < j {
        lemma_skip_word_run(s, i + 1, j);
    }
}

/// Text written out from plain pieces scans back to those pieces, whatever comes before it.
pub proof fn lemma_pieces_of_text(pre: Seq<char>, ps: Seq<Piece>)
    requires
        plain_pieces(ps),
    ensures
        pieces_from(pre + text_of(ps), pre.len() as int) == ps,
    decreases ps.len(),
{
    let s = pre + text_of(ps);
    let q = pre.len() as int;
    if ps.len() == 0 {
        assert(s.len() == q);
    } else {
        let p0 = ps[0];
        let rest = ps.drop_first();
        let t0 = piece_text(p0);
        let pre2 = pre + t0;
        assert(s =~= pre2 + text_of(rest));
        assert(plain_pieces(rest)) by {
            assert forall|i: int| 0 <= i < rest.len() implies match #[trigger] rest[i] {
                Piece::Text(c) => c != '{',
                Piece::Name(n) => plain_name(n),
            } by {
                assert(rest[i] == ps[i + 1]);
            }
        }
        lemma_pieces_of_text(pre2, rest);
        assert(plain_pieces(ps));
        assert(match ps[0] {
            Piece::Text(c) => c != '{',
            Piece::Name(n) => plain_name(n),
        });
        match p0 {
            Piece::Text(c) => {
                assert(s[q] == c);
                assert(!opens_token(s, q));
                assert(scan_step(s, q) == (p0, q + 1));
            },
            Piece::Name(n) => {
                let b = q + 2 + n.len();
                assert(s[q] == '{' && s[q + 1] == '{');
                assert forall|k: int| q + 2 <= k < b implies token_char(#[trigger] s[k]) by {
                    assert(s[k] == n[k - q - 2]);
                }
                assert(s[b] == '}' && s[b + 1] == '}');
                assert(s[q + 2] == n[0]);
                assert(!space_char(s[q + 2]));
                assert(skip_spaces(s, q + 2) == q + 2);
                lemma_skip_word_run(s, q + 2, b);
                assert(!space_char(s[b]));
                assert(skip_spaces(s, b) == b);
                assert(s.subrange(q + 2, b) =~= n);
                assert(token_at(s, q + 2) == Some((q + 2, b, b + 2)));
                assert(scan_step(s, q) == (p0, b + 2));
            },
        }
        assert(ps =~= seq![p0] + rest);
    }
}

} // verus!
