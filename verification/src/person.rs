//! Faker's `person` provider.
use vstd::prelude::*;
use crate::generator::{lemma_generator_views, Generator};
use crate::render::{render_pick_draw, gendered_draw, gendered_or_draw, prefix_draw, suffix_draw, fill_rel, gendered_or, gendered_yields, prefix_yields, renders_from, suffix_yields, yields_or};
use crate::table::{pick_concat, Table};

verus! {

/// `t` when present, else `fallback`.
pub open spec fn table_or(t: Option<Table<String>>, fallback: Table<String>) -> Table<String> {
    match t {
        Some(x) => x,
        None => fallback,
    }
}

broadcast use lemma_generator_views;

impl Generator {
    /// A full name, rendered from one of the locale's name formats.
    pub fn name(&mut self) -> (r: String)
        ensures
            old(self).same_config(final(self)),
            renders_from(old(self).data().person.formats, old(self).weighting(), r@, fill_rel(old(self).data(), old(self).weighting())),
            (r@, final(self).stream().state_view()) == render_pick_draw(old(self).data(), old(self).weighting(), old(self).data().person.formats, old(self).stream().state_view(), 3),
    {
        proof {
            use_type_invariant(&*self);
        }
        let data = self.shared();
        self.render_pick(&data.person.formats)
    }

    /// A female name (the general formats when the locale has no female ones).
    pub fn name_female(&mut self) -> (r: String)
        ensures
            old(self).same_config(final(self)),
            renders_from(
                match old(self).data().person.formats_female {
                    Some(t) => t,
                    None => old(self).data().person.formats,
                },
                old(self).weighting(),
                r@,
                fill_rel(old(self).data(), old(self).weighting()),
            ),
            (r@, final(self).stream().state_view()) == render_pick_draw(
                old(self).data(),
                old(self).weighting(),
                match old(self).data().person.formats_female {
                    Some(t) => t,
                    None => old(self).data().person.formats,
                },
                old(self).stream().state_view(),
                3,
            ),
    {
        proof {
            use_type_invariant(&*self);
        }
        let data = self.shared();
        match &data.person.formats_female {
            Some(t) => self.render_pick(t),
            None => self.render_pick(&data.person.formats),
        }
    }

    /// A male name (the general formats when the locale has no male ones).
    pub fn name_male(&mut self) -> (r: String)
        ensures
            old(self).same_config(final(self)),
            renders_from(
                match old(self).data().person.formats_male {
                    Some(t) => t,
                    None => old(self).data().person.formats,
                },
                old(self).weighting(),
                r@,
                fill_rel(old(self).data(), old(self).weighting()),
            ),
            (r@, final(self).stream().state_view()) == render_pick_draw(
                old(self).data(),
                old(self).weighting(),
                match old(self).data().person.formats_male {
                    Some(t) => t,
                    None => old(self).data().person.formats,
                },
                old(self).stream().state_view(),
                3,
            ),
    {
        proof {
            use_type_invariant(&*self);
        }
        let data = self.shared();
        match &data.person.formats_male {
            Some(t) => self.render_pick(t),
            None => self.render_pick(&data.person.formats),
        }
    }

    /// A nonbinary name (the general formats when the locale has no nonbinary ones).
    pub fn name_nonbinary(&mut self) -> (r: String)
        ensures
            old(self).same_config(final(self)),
            renders_from(
                match old(self).data().person.formats_nonbinary {
                    Some(t) => t,
                    None => old(self).data().person.formats,
                },
                old(self).weighting(),
                r@,
                fill_rel(old(self).data(), old(self).weighting()),
            ),
            (r@, final(self).stream().state_view()) == render_pick_draw(
                old(self).data(),
                old(self).weighting(),
                match old(self).data().person.formats_nonbinary {
                    Some(t) => t,
                    None => old(self).data().person.formats,
                },
                old(self).stream().state_view(),
                3,
            ),
    {
        proof {
            use_type_invariant(&*self);
        }
        let data = self.shared();
        match &data.person.formats_nonbinary {
            Some(t) => self.render_pick(t),
            None => self.render_pick(&data.person.formats),
        }
    }

    /// Draws from `t`, or from `fallback` when `t` is absent.
    fn pick_str_or(&mut self, t: &Option<Table<String>>, fallback: &Table<String>) -> (r: String)
        requires
            t matches Some(table) ==> table.wf(),
            fallback.wf(),
        ensures
            old(self).same_config(final(self)),
            yields_or(*t, *fallback, r@, old(self).weighting()),
            (r@, final(self).stream().state_view()) == table_or(*t, *fallback).draw(
                old(self).stream().state_view(),
                old(self).weighting(),
            ),
    {
        match t {
            Some(table) => self.pick_str(table),
            None => self.pick_str(fallback),
        }
    }

    pub fn first_name(&mut self) -> (r: String)
        ensures
            old(self).same_config(final(self)),
            old(self).data().person.first_names.yields(r@, old(self).weighting()),
            (r@, final(self).stream().state_view()) == old(self).data().person.first_names.draw(
                old(self).stream().state_view(),
                old(self).weighting(),
            ),
    {
        proof {
            use_type_invariant(&*self);
        }
        let data = self.shared();
        self.pick_str(&data.person.first_names)
    }

    pub fn first_name_female(&mut self) -> (r: String)
        ensures
            old(self).same_config(final(self)),
            yields_or(old(self).data().person.first_names_female, old(self).data().person.first_names, r@, old(self).weighting()),
            (r@, final(self).stream().state_view()) == table_or(old(self).data().person.first_names_female, old(self).data().person.first_names).draw(
                old(self).stream().state_view(),
                old(self).weighting(),
            ),
    {
        proof {
            use_type_invariant(&*self);
        }
        let data = self.shared();
        self.pick_str_or(&data.person.first_names_female, &data.person.first_names)
    }

    pub fn first_name_male(&mut self) -> (r: String)
        ensures
            old(self).same_config(final(self)),
            yields_or(old(self).data().person.first_names_male, old(self).data().person.first_names, r@, old(self).weighting()),
            (r@, final(self).stream().state_view()) == table_or(old(self).data().person.first_names_male, old(self).data().person.first_names).draw(
                old(self).stream().state_view(),
                old(self).weighting(),
            ),
    {
        proof {
            use_type_invariant(&*self);
        }
        let data = self.shared();
        self.pick_str_or(&data.person.first_names_male, &data.person.first_names)
    }

    pub fn first_name_nonbinary(&mut self) -> (r: String)
        ensures
            old(self).same_config(final(self)),
            yields_or(old(self).data().person.first_names_nonbinary, old(self).data().person.first_names, r@, old(self).weighting()),
            (r@, final(self).stream().state_view()) == table_or(old(self).data().person.first_names_nonbinary, old(self).data().person.first_names).draw(
                old(self).stream().state_view(),
                old(self).weighting(),
            ),
    {
        proof {
            use_type_invariant(&*self);
        }
        let data = self.shared();
        self.pick_str_or(&data.person.first_names_nonbinary, &data.person.first_names)
    }

    pub fn last_name(&mut self) -> (r: String)
        ensures
            old(self).same_config(final(self)),
            old(self).data().person.last_names.yields(r@, old(self).weighting()),
            (r@, final(self).stream().state_view()) == old(self).data().person.last_names.draw(
                old(self).stream().state_view(),
                old(self).weighting(),
            ),
    {
        proof {
            use_type_invariant(&*self);
        }
        let data = self.shared();
        self.pick_str(&data.person.last_names)
    }

    pub fn last_name_female(&mut self) -> (r: String)
        ensures
            old(self).same_config(final(self)),
            yields_or(old(self).data().person.last_names_female, old(self).data().person.last_names, r@, old(self).weighting()),
            (r@, final(self).stream().state_view()) == table_or(old(self).data().person.last_names_female, old(self).data().person.last_names).draw(
                old(self).stream().state_view(),
                old(self).weighting(),
            ),
    {
        proof {
            use_type_invariant(&*self);
        }
        let data = self.shared();
        self.pick_str_or(&data.person.last_names_female, &data.person.last_names)
    }

    pub fn last_name_male(&mut self) -> (r: String)
        ensures
            old(self).same_config(final(self)),
            yields_or(old(self).data().person.last_names_male, old(self).data().person.last_names, r@, old(self).weighting()),
            (r@, final(self).stream().state_view()) == table_or(old(self).data().person.last_names_male, old(self).data().person.last_names).draw(
                old(self).stream().state_view(),
                old(self).weighting(),
            ),
    {
        proof {
            use_type_invariant(&*self);
        }
        let data = self.shared();
        self.pick_str_or(&data.person.last_names_male, &data.person.last_names)
    }

    pub fn last_name_nonbinary(&mut self) -> (r: String)
        ensures
            old(self).same_config(final(self)),
            yields_or(old(self).data().person.last_names_nonbinary, old(self).data().person.last_names, r@, old(self).weighting()),
            (r@, final(self).stream().state_view()) == table_or(old(self).data().person.last_names_nonbinary, old(self).data().person.last_names).draw(
                old(self).stream().state_view(),
                old(self).weighting(),
            ),
    {
        proof {
            use_type_invariant(&*self);
        }
        let data = self.shared();
        self.pick_str_or(&data.person.last_names_nonbinary, &data.person.last_names)
    }

    /// Name prefix such as `Dr.`; empty when the locale has none.
    pub fn prefix(&mut self) -> (r: String)
        ensures
            old(self).same_config(final(self)),
            prefix_yields(old(self).data().person, r@, old(self).weighting()),
            (r@, final(self).stream().state_view()) == prefix_draw(old(self).data().person, old(self).stream().state_view(), old(self).weighting()),
    {
        proof {
            use_type_invariant(&*self);
        }
        let data = self.shared();
        let p = &data.person;
        self.pick_gendered(&p.prefixes, &p.prefixes_male, &p.prefixes_female, &p.prefixes_nonbinary)
    }

    pub fn prefix_female(&mut self) -> (r: String)
        ensures
            old(self).same_config(final(self)),
            gendered_or(
                old(self).data().person.prefixes_female,
                prefix_yields(old(self).data().person, r@, old(self).weighting()),
                r@,
                old(self).weighting(),
            ),
            (r@, final(self).stream().state_view()) == gendered_or_draw(old(self).data().person.prefixes_female, prefix_draw(old(self).data().person, old(self).stream().state_view(), old(self).weighting()), old(self).stream().state_view(), old(self).weighting()),
    {
        proof {
            use_type_invariant(&*self);
        }
        let data = self.shared();
        match &data.person.prefixes_female {
            Some(t) => self.pick_str(t),
            None => self.prefix(),
        }
    }

    pub fn prefix_male(&mut self) -> (r: String)
        ensures
            old(self).same_config(final(self)),
            gendered_or(
                old(self).data().person.prefixes_male,
                prefix_yields(old(self).data().person, r@, old(self).weighting()),
                r@,
                old(self).weighting(),
            ),
            (r@, final(self).stream().state_view()) == gendered_or_draw(old(self).data().person.prefixes_male, prefix_draw(old(self).data().person, old(self).stream().state_view(), old(self).weighting()), old(self).stream().state_view(), old(self).weighting()),
    {
        proof {
            use_type_invariant(&*self);
        }
        let data = self.shared();
        match &data.person.prefixes_male {
            Some(t) => self.pick_str(t),
            None => self.prefix(),
        }
    }

    pub fn prefix_nonbinary(&mut self) -> (r: String)
        ensures
            old(self).same_config(final(self)),
            gendered_or(
                old(self).data().person.prefixes_nonbinary,
                prefix_yields(old(self).data().person, r@, old(self).weighting()),
                r@,
                old(self).weighting(),
            ),
            (r@, final(self).stream().state_view()) == gendered_or_draw(old(self).data().person.prefixes_nonbinary, prefix_draw(old(self).data().person, old(self).stream().state_view(), old(self).weighting()), old(self).stream().state_view(), old(self).weighting()),
    {
        proof {
            use_type_invariant(&*self);
        }
        let data = self.shared();
        match &data.person.prefixes_nonbinary {
            Some(t) => self.pick_str(t),
            None => self.prefix(),
        }
    }

    /// Name suffix such as `PhD`; empty when the locale has none.
    pub fn suffix(&mut self) -> (r: String)
        ensures
            old(self).same_config(final(self)),
            suffix_yields(old(self).data().person, r@, old(self).weighting()),
            (r@, final(self).stream().state_view()) == suffix_draw(old(self).data().person, old(self).stream().state_view(), old(self).weighting()),
    {
        proof {
            use_type_invariant(&*self);
        }
        let data = self.shared();
        let p = &data.person;
        self.pick_gendered(&p.suffixes, &p.suffixes_male, &p.suffixes_female, &p.suffixes_nonbinary)
    }

    pub fn suffix_female(&mut self) -> (r: String)
        ensures
            old(self).same_config(final(self)),
            gendered_or(
                old(self).data().person.suffixes_female,
                suffix_yields(old(self).data().person, r@, old(self).weighting()),
                r@,
                old(self).weighting(),
            ),
            (r@, final(self).stream().state_view()) == gendered_or_draw(old(self).data().person.suffixes_female, suffix_draw(old(self).data().person, old(self).stream().state_view(), old(self).weighting()), old(self).stream().state_view(), old(self).weighting()),
    {
        proof {
            use_type_invariant(&*self);
        }
        let data = self.shared();
        match &data.person.suffixes_female {
            Some(t) => self.pick_str(t),
            None => self.suffix(),
        }
    }

    pub fn suffix_male(&mut self) -> (r: String)
        ensures
            old(self).same_config(final(self)),
            gendered_or(
                old(self).data().person.suffixes_male,
                suffix_yields(old(self).data().person, r@, old(self).weighting()),
                r@,
                old(self).weighting(),
            ),
            (r@, final(self).stream().state_view()) == gendered_or_draw(old(self).data().person.suffixes_male, suffix_draw(old(self).data().person, old(self).stream().state_view(), old(self).weighting()), old(self).stream().state_view(), old(self).weighting()),
    {
        proof {
            use_type_invariant(&*self);
        }
        let data = self.shared();
        match &data.person.suffixes_male {
            Some(t) => self.pick_str(t),
            None => self.suffix(),
        }
    }

    pub fn suffix_nonbinary(&mut self) -> (r: String)
        ensures
            old(self).same_config(final(self)),
            gendered_or(
                old(self).data().person.suffixes_nonbinary,
                suffix_yields(old(self).data().person, r@, old(self).weighting()),
                r@,
                old(self).weighting(),
            ),
            (r@, final(self).stream().state_view()) == gendered_or_draw(old(self).data().person.suffixes_nonbinary, suffix_draw(old(self).data().person, old(self).stream().state_view(), old(self).weighting()), old(self).stream().state_view(), old(self).weighting()),
    {
        proof {
            use_type_invariant(&*self);
        }
        let data = self.shared();
        match &data.person.suffixes_nonbinary {
            Some(t) => self.pick_str(t),
            None => self.suffix(),
        }
    }

    pub fn language_name(&mut self) -> (r: String)
        ensures
            old(self).same_config(final(self)),
            old(self).data().person.language_names.yields(r@, old(self).weighting()),
            (r@, final(self).stream().state_view()) == old(self).data().person.language_names.draw(
                old(self).stream().state_view(),
                old(self).weighting(),
            ),
    {
        proof {
            use_type_invariant(&*self);
        }
        let data = self.shared();
        self.pick_str(&data.person.language_names)
    }

    /// Faker's prefix/suffix fallback: a combined table, else all gendered tables merged,
    /// else male or female chosen at random, else empty.
    fn pick_gendered(
        &mut self,
        combined: &Option<Table<String>>,
        male: &Option<Table<String>>,
        female: &Option<Table<String>>,
        nonbinary: &Option<Table<String>>,
    ) -> (r: String)
        requires
            combined matches Some(t) ==> t.wf(),
            male matches Some(t) ==> t.wf(),
            female matches Some(t) ==> t.wf(),
            nonbinary matches Some(t) ==> t.wf(),
        ensures
            old(self).same_config(final(self)),
            gendered_yields(*combined, *male, *female, *nonbinary, r@, old(self).weighting()),
            (r@, final(self).stream().state_view()) == gendered_draw(*combined, *male, *female, *nonbinary, old(self).stream().state_view(), old(self).weighting()),
    {
        match combined {
            Some(t) => {
                return self.pick_str(t);
            },
            None => {},
        }
        match (male, female, nonbinary) {
            (Some(m), Some(f), Some(n)) => {
                let mut tables: Vec<&Table<String>> = Vec::new();
                tables.push(m);
                tables.push(f);
                tables.push(n);
                assert(tables@ == seq![m, f, n]);
                let use_weighting = self.use_weighting;
                let mut rng = self.rng();
                let picked = pick_concat(&tables, &mut rng, use_weighting);
                self.set_rng(rng);
                match picked {
                    Some((k, i)) => {
                        let r = tables[k].items[i].clone();
                        assert(tables@[k as int].items@[i as int]@ == r@);
                        r
                    },
                    None => String::new(),
                }
            },
            (Some(m), Some(f), None) => {
                if self.index(2) == 0 {
                    self.pick_str(m)
                } else {
                    self.pick_str(f)
                }
            },
            _ => String::new(),
        }
    }
}

} // verus!
