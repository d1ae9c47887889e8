//! Seeded reproducibility: what a generator draws is a function of its data, its weighting
//! and the state of its random stream.
use vstd::prelude::*;
use crate::generator::Generator;
use crate::internet::email_draw;
use crate::render::render_pick_draw;

verus! {

/// A name, an address and an e-mail address drawn in turn from `state`, and the state after.
pub open spec fn round_draw(
    g: Generator,
    safe: bool,
    domain: Option<Seq<char>>,
    state: u128,
) -> ((Seq<char>, Seq<char>, Seq<char>), u128) {
    let (n, s1) = render_pick_draw(g.data(), g.weighting(), g.data().person.formats, state, 3);
    let (a, s2) = render_pick_draw(g.data(), g.weighting(), g.data().address.address_formats, s1, 3);
    let (e, s3) = email_draw(g.data(), g.weighting(), safe, domain, s2);
    ((n, a, e), s3)
}

/// `k` rounds of `round_draw` from `state`.
pub open spec fn rounds_draw(
    g: Generator,
    safe: bool,
    domain: Option<Seq<char>>,
    state: u128,
    k: nat,
) -> Seq<(Seq<char>, Seq<char>, Seq<char>)>
    decreases k,
{
    if k == 0 {
        Seq::empty()
    } else {
        let (x, next) = round_draw(g, safe, domain, state);
        seq![x] + rounds_draw(g, safe, domain, next, (k - 1) as nat)
    }
}

/// Seeded output replays: two generators with the same data and weighting whose streams are
/// in the same state (a generator and its clone, or one generator before and after `seed`
/// with the seed it was given) draw the same name, address and e-mail address and go on
/// from the same state; so any number of rounds of these calls agrees on both.
pub proof fn lemma_outputs_replay(a: Generator, b: Generator, safe: bool, domain: Option<Seq<char>>, k: nat)
    requires
        a.same_config(&b),
        a.stream().state_view() == b.stream().state_view(),
    ensures
        render_pick_draw(a.data(), a.weighting(), a.data().person.formats, a.stream().state_view(), 3)
            == render_pick_draw(b.data(), b.weighting(), b.data().person.formats, b.stream().state_view(), 3),
        render_pick_draw(a.data(), a.weighting(), a.data().address.address_formats, a.stream().state_view(), 3)
            == render_pick_draw(b.data(), b.weighting(), b.data().address.address_formats, b.stream().state_view(), 3),
        email_draw(a.data(), a.weighting(), safe, domain, a.stream().state_view()) == email_draw(
            b.data(),
            b.weighting(),
            safe,
            domain,
            b.stream().state_view(),
        ),
        rounds_draw(a, safe, domain, a.stream().state_view(), k) == rounds_draw(b, safe, domain, b.stream().state_view(), k),
{
    lemma_rounds_same_config(a, b, safe, domain, a.stream().state_view(), k);
}

/// Rounds drawn from one state agree for two generators of the same configuration.
proof fn lemma_rounds_same_config(a: Generator, b: Generator, safe: bool, domain: Option<Seq<char>>, s: u128, k: nat)
    requires
        a.same_config(&b),
    ensures
        rounds_draw(a, safe, domain, s, k) == rounds_draw(b, safe, domain, s, k),
    decreases k,
{
    if k > 0 {
        assert(round_draw(a, safe, domain, s) == round_draw(b, safe, domain, s));
        lemma_rounds_same_config(a, b, safe, domain, round_draw(a, safe, domain, s).1, (k - 1) as nat);
    }
}

} // verus!
