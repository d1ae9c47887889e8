//! Faker's `company` provider.
use vstd::prelude::*;
use crate::chars::push_char;
use crate::generator::{lemma_generator_views, Generator};
use crate::render::{company_yields, render_pick_draw};
use crate::table::Table;

verus! {

broadcast use lemma_generator_views;

/// `x` is one draw from each group, joined by single spaces.
pub open spec fn joined_draws(groups: Seq<Table<String>>, w: bool, x: Seq<char>) -> bool {
    exists|words: Seq<Seq<char>>|
        words.len() == groups.len() && (forall|i: int|
            0 <= i < groups.len() ==> groups[i].yields(#[trigger] words[i], w)) && x == #[trigger] spaced(words)
}

/// The words joined by single spaces.
pub open spec fn spaced(words: Seq<Seq<char>>) -> Seq<char>
    decreases words.len(),
{
    if words.len() == 0 {
        Seq::empty()
    } else if words.len() == 1 {
        words[0]
    } else {
        spaced(words.drop_last()) + seq![' '] + words.last()
    }
}

/// `(words, next state)` of one word drawn from each group in turn.
pub open spec fn groups_draw(groups: Seq<Table<String>>, w: bool, state: u128) -> (Seq<Seq<char>>, u128)
    decreases groups.len(),
{
    if groups.len() == 0 {
        (Seq::empty(), state)
    } else {
        let (first, s1) = groups_draw(groups.drop_last(), w, state);
        let (x, s2) = groups.last().draw(s1, w);
        (first.push(x), s2)
    }
}

impl Generator {
    pub fn company(&mut self) -> (r: String)
        ensures
            old(self).same_config(final(self)),
            company_yields(old(self).data(), old(self).weighting(), r@),
            (r@, final(self).stream().state_view()) == render_pick_draw(old(self).data(), old(self).weighting(), old(self).data().company.formats, old(self).stream().state_view(), 1),
        decreases 1nat, 2nat,
    {
        proof {
            use_type_invariant(&*self);
        }
        let data = self.shared();
        self.render_pick_at(&data.company.formats, 1)
    }

    pub fn company_suffix(&mut self) -> (r: String)
        ensures
            old(self).same_config(final(self)),
            old(self).data().company.company_suffixes.yields(r@, old(self).weighting()),
            (r@, final(self).stream().state_view()) == old(self).data().company.company_suffixes.draw(
                old(self).stream().state_view(),
                old(self).weighting(),
            ),
    {
        proof {
            use_type_invariant(&*self);
        }
        let data = self.shared();
        self.pick_str(&data.company.company_suffixes)
    }

    /// Phrase such as `Robust full-range hub`: one word of each group, space-separated.
    pub fn catch_phrase(&mut self) -> (r: String)
        ensures
            old(self).same_config(final(self)),
            joined_draws(old(self).data().company.catch_phrase_words@, old(self).weighting(), r@),
            (r@, final(self).stream().state_view()) == ({
                let (ws, next) = groups_draw(
                    old(self).data().company.catch_phrase_words@,
                    old(self).weighting(),
                    old(self).stream().state_view(),
                );
                (spaced(ws), next)
            }),
    {
        proof {
            use_type_invariant(&*self);
        }
        let data = self.shared();
        self.join_groups(&data.company.catch_phrase_words)
    }

    /// Phrase such as `integrate extensible convergence`: one word of each group.
    pub fn bs(&mut self) -> (r: String)
        ensures
            old(self).same_config(final(self)),
            joined_draws(old(self).data().company.bs_words@, old(self).weighting(), r@),
            (r@, final(self).stream().state_view()) == ({
                let (ws, next) = groups_draw(old(self).data().company.bs_words@, old(self).weighting(), old(self).stream().state_view());
                (spaced(ws), next)
            }),
    {
        proof {
            use_type_invariant(&*self);
        }
        let data = self.shared();
        self.join_groups(&data.company.bs_words)
    }

    fn join_groups(&mut self, groups: &Vec<Table<String>>) -> (r: String)
        requires
            forall|i: int| 0 <= i < groups.len() ==> (#[trigger] groups@[i]).wf(),
        ensures
            old(self).same_config(final(self)),
            joined_draws(groups@, old(self).weighting(), r@),
            (r@, final(self).stream().state_view()) == ({
                let (ws, next) = groups_draw(groups@, old(self).weighting(), old(self).stream().state_view());
                (spaced(ws), next)
            }),
    {
        let ghost w = self.weighting();
        let ghost g0 = *old(self);
        let mut out = String::new();
        let ghost mut words: Seq<Seq<char>> = Seq::empty();
        for i in 0..groups.len()
            invariant
                g0.same_config(self),
                w == g0.weighting(),
                forall|j: int| 0 <= j < groups.len() ==> (#[trigger] groups@[j]).wf(),
                words.len() == i,
                forall|j: int| 0 <= j < i ==> groups@[j].yields(#[trigger] words[j], w),
                out@ == spaced(words),
                (words, self.stream().state_view()) == groups_draw(groups@.take(i as int), w, g0.stream().state_view()),
        {
            assert(groups@.take(i + 1).drop_last() == groups@.take(i as int));
            if i > 0 {
                push_char(&mut out, ' ');
            }
            let word = self.pick_str(&groups[i]);
            out.append(word.as_str());
            proof {
                assert(words.push(word@).drop_last() == words);
                words = words.push(word@);
            }
        }
        assert(joined_draws(groups@, w, out@));
        assert(groups@.take(groups.len() as int) == groups@);
        out
    }
}

} // verus!
