//! Faker's `phone_number` provider.
use vstd::prelude::*;
use crate::address::numerify_drawn;
use crate::base::{numerified, numerify_run};
use crate::generator::{lemma_generator_views, Generator};
use crate::render::{fill_rel, numerified_from, render_pick_draw, renders_from};

verus! {

broadcast use lemma_generator_views;

impl Generator {
    /// A phone number: a drawn format with `numerify` applied.
    pub fn phone_number(&mut self) -> (r: String)
        ensures
            old(self).same_config(final(self)),
            numerified_from(old(self).data().phone_number.formats, old(self).weighting(), r@),
            (r@, final(self).stream().state_view()) == numerify_drawn(
                old(self).data().phone_number.formats,
                old(self).stream().state_view(),
                old(self).weighting(),
            ),
    {
        proof {
            use_type_invariant(&*self);
        }
        let data = self.shared();
        let format = self.pick_str(&data.phone_number.formats);
        self.numerify(format.as_str())
    }

    pub fn country_calling_code(&mut self) -> (r: String)
        ensures
            old(self).same_config(final(self)),
            old(self).data().phone_number.country_calling_codes.yields(r@, old(self).weighting()),
            (r@, final(self).stream().state_view()) == old(self).data().phone_number.country_calling_codes.draw(
                old(self).stream().state_view(),
                old(self).weighting(),
            ),
    {
        proof {
            use_type_invariant(&*self);
        }
        let data = self.shared();
        self.pick_str(&data.phone_number.country_calling_codes)
    }

    /// Mobile subscriber number (13 digits for most locales).
    pub fn msisdn(&mut self) -> (r: String)
        ensures
            old(self).same_config(final(self)),
            numerified_from(old(self).data().phone_number.msisdn_formats, old(self).weighting(), r@),
            (r@, final(self).stream().state_view()) == numerify_drawn(
                old(self).data().phone_number.msisdn_formats,
                old(self).stream().state_view(),
                old(self).weighting(),
            ),
    {
        proof {
            use_type_invariant(&*self);
        }
        let data = self.shared();
        let format = self.pick_str(&data.phone_number.msisdn_formats);
        self.numerify(format.as_str())
    }

    /// 10-digit phone number without extension: a drawn template, rendered, with
    /// `numerify` applied; a `phone_number` when the locale has no such templates.
    pub fn basic_phone_number(&mut self) -> (r: String)
        ensures
            old(self).same_config(final(self)),
            match old(self).data().phone_number.basic_formats {
                Some(t) => exists|x: Seq<char>|
                    renders_from(t, old(self).weighting(), x, fill_rel(old(self).data(), old(self).weighting()))
                        && #[trigger] numerified(x, r@),
                None => numerified_from(old(self).data().phone_number.formats, old(self).weighting(), r@),
            },
            (r@, final(self).stream().state_view()) == match old(self).data().phone_number.basic_formats {
                Some(t) => {
                    let (x, mid) = render_pick_draw(old(self).data(), old(self).weighting(), t, old(self).stream().state_view(), 3);
                    numerify_run(x, mid)
                },
                None => numerify_drawn(
                    old(self).data().phone_number.formats,
                    old(self).stream().state_view(),
                    old(self).weighting(),
                ),
            },
    {
        proof {
            use_type_invariant(&*self);
        }
        let data = self.shared();
        match &data.phone_number.basic_formats {
            Some(t) => {
                let rendered = self.render_pick(t);
                self.numerify(rendered.as_str())
            },
            None => self.phone_number(),
        }
    }
}

} // verus!
