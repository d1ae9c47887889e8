//! Faker's `internet` provider.
use vstd::prelude::*;
use crate::base::{bothified, bothify_run};
use crate::chars::{all_ascii, ascii_char, chars_of, push_char, str_to_lowercase};
use crate::text::lower_of;
use crate::rng::{pcg_draw_u64, randint_draw};
use crate::error::{invalid, Error, Result};
use crate::generator::{lemma_generator_views, Generator};
use crate::render::{render_draw, render_pick_draw, domain_name_draw, domain_labels_draw, domain_word_draw, fmt_draw, domain_name_yields, domain_of, domain_word_of, domain_word_yields, dotted, first_word, renders_from, user_name_yields};
use crate::text::{ascii_form, slug_of, slugify, to_ascii};
use crate::lorem::{plain_list, text_yields};
use crate::base::{flatten, numerified, numerify_piece, numerify_run};
use crate::fmt::{decimal, digits_of, push_decimal, push_number, zero_padded};
use crate::net::{
    class_of, covered, lemma_covered_positive, lemma_pool_nonempty, lemma_pool_sorted,
    lemma_pool_start, network_classes, pool, pool_has, pool_nets, size_sum, Net, Pool, PoolKind,
};
use crate::render::{fill_rel, rendered_with};
use crate::table::weighted_index;
use vstd::wrapping::i64_specs;

verus! {

broadcast use lemma_generator_views;

/// Where the first space is in `v` (its length when there is none).
fn first_word_end(v: &Vec<char>) -> (r: usize)
    ensures
        r <= v.len(),
        v@.subrange(0, r as int) == first_word(v@),
{
    let mut j: usize = 0;
    assert(v@.subrange(0, v.len() as int) == v@);
    assert(v@.subrange(0, 0) == Seq::<char>::empty());
    while j < v.len() && v[j] != ' '
        invariant
            j <= v.len(),
            first_word(v@) == v@.subrange(0, j as int) + first_word(v@.subrange(j as int, v.len() as int)),
        decreases v.len() - j,
    {
        proof {
            let rest = v@.subrange(j as int, v.len() as int);
            assert(rest.drop_first() == v@.subrange(j + 1, v.len() as int));
            assert(v@.subrange(0, j + 1) == v@.subrange(0, j as int) + seq![v@[j as int]]);
        }
        j = j + 1;
    }
    proof {
        assert(v@.subrange(0, v.len() as int) == v@);
        let rest = v@.subrange(j as int, v.len() as int);
        assert(first_word(rest) == Seq::<char>::empty());
    }
    j
}

/// The index of the first running total above `x` from index `j` on (Python's
/// `bisect_right`), clamped to the last index.
pub open spec fn bisect_from(cum: Seq<u64>, x: u64, j: int) -> int
    decreases cum.len() - j,
{
    if j >= cum.len() - 1 {
        cum.len() - 1
    } else if cum[j] > x {
        j
    } else {
        bisect_from(cum, x, j + 1)
    }
}

/// The index `weighted_index` finds is the one `bisect_from` names.
proof fn lemma_bisect(cum: Seq<u64>, x: u64, j: int, r: int)
    requires
        0 <= j <= r < cum.len(),
        forall|k: int| j <= k < r ==> cum[k] <= x,
        r == cum.len() - 1 || cum[r] > x,
    ensures
        bisect_from(cum, x, j) == r,
    decreases r - j,
{
    if j < r {
        lemma_bisect(cum, x, j + 1, r);
    }
}

/// The running totals of the sizes of `nets`.
pub open spec fn running_sizes(nets: Seq<Net>) -> Seq<u64> {
    Seq::new(nets.len(), |k: int| size_sum(nets.take(k + 1)) as u64)
}

/// `(text, next state)` of an address (or, with `network`, a network) of the pool made of
/// `nets`, from `state`: one draw below the pool's size located in its networks, then for a
/// network a drawn prefix length from the network's own up to 32.
pub open spec fn pool_address_draw(nets: Seq<Net>, network: bool, state: u128) -> (Seq<char>, u128) {
    let total = size_sum(nets);
    if total == 0 {
        ("0.0.0.0"@, state)
    } else {
        let (draw, s1) = pcg_draw_u64(state, (total - 1) as u64);
        let cum = running_sizes(nets);
        let i = bisect_from(cum, draw, 0);
        let start: int = if i == 0 { 0 } else { cum[i - 1] as int };
        let addr = (nets[i].addr + (draw - start)) as u32;
        if !network {
            (ipv4_text(addr), s1)
        } else {
            let (q, s2) = randint_draw(s1, nets[i].prefix as i64, 32);
            (prefixed(net_base(addr, q as u32), q as u32), s2)
        }
    }
}

/// `(class, next state)`: the class named by `address_class`, else one of 1–3 drawn.
pub open spec fn class_draw(address_class: Option<Seq<char>>, state: u128) -> (usize, u128) {
    match class_of(address_class) {
        Some(c) => (c, state),
        None => {
            let (i, next) = pcg_draw_u64(state, 2);
            ((1 + i) as usize, next)
        },
    }
}

/// `(base, next state)` of a URL base from `state`: a scheme drawn from `schemes` (none when
/// the list is empty), `://` and a host rendered from a drawn URL format.
pub open spec fn url_base_draw(d: crate::locale::Locale, w: bool, schemes: Seq<Seq<char>>, state: u128) -> (Seq<char>, u128) {
    let (scheme, s1) = if schemes.len() > 0 {
        let (i, next) = pcg_draw_u64(state, (schemes.len() - 1) as u64);
        (schemes[i as int], next)
    } else {
        (Seq::empty(), state)
    };
    let (i, s2) = d.internet.url_formats.pick_draw(s1, w);
    let (host, s3) = render_draw(d, w, d.internet.url_formats.items@[i]@, s2, 3);
    (scheme + "://"@ + host, s3)
}

/// `(host name, next state)` of `hostname` from `state`: a prefix, `-`, two digits and, for
/// one level or more, `.` and a domain name; lowercased.
pub open spec fn hostname_draw(d: crate::locale::Locale, w: bool, levels: i64, state: u128) -> (Seq<char>, u128) {
    let (pre, s1) = d.internet.hostname_prefixes.draw(state, w);
    let (num, s2) = numerify_run("##"@, s1);
    if levels >= 1 {
        let (dom, s3) = domain_name_draw(d, w, if levels > u32::MAX { u32::MAX as nat } else { levels as nat }, s2);
        (lower_of(host_of(pre, num, dom, levels)), s3)
    } else {
        (lower_of(host_of(pre, num, Seq::empty(), levels)), s2)
    }
}

/// For one level or more, a host name is the drawn prefix, `-`, the two drawn digits, `.`
/// and the drawn domain name, lowercased; for fewer, the prefix, `-` and the digits.
pub proof fn lemma_hostname_parts(d: crate::locale::Locale, w: bool, levels: i64, state: u128)
    ensures
        ({
            let (pre, s1) = d.internet.hostname_prefixes.draw(state, w);
            let (num, s2) = numerify_run("##"@, s1);
            let (dom, s3) = domain_name_draw(d, w, if levels > u32::MAX { u32::MAX as nat } else { levels as nat }, s2);
            if levels >= 1 {
                hostname_draw(d, w, levels, state) == (lower_of(pre + seq!['-'] + num + seq!['.'] + dom), s3)
            } else {
                hostname_draw(d, w, levels, state) == (lower_of(pre + seq!['-'] + num), s2)
            }
        }),
{
    let (pre, s1) = d.internet.hostname_prefixes.draw(state, w);
    let (num, s2) = numerify_run("##"@, s1);
    assert(pre + seq!['-'] + num + Seq::<char>::empty() == pre + seq!['-'] + num);
    if levels >= 1 {
        let (dom, s3) = domain_name_draw(d, w, if levels > u32::MAX { u32::MAX as nat } else { levels as nat }, s2);
        assert(pre + seq!['-'] + num + (seq!['.'] + dom) == pre + seq!['-'] + num + seq!['.'] + dom);
    }
}

/// Lowercasing ASCII text keeps its length and its `.`: in an ASCII host name of one level
/// or more, the character right after the two digits is `.`.
pub proof fn lemma_hostname_dot(pre: Seq<char>, num: Seq<char>, dom: Seq<char>)
    requires
        numerified("##"@, num),
        all_ascii(pre),
        all_ascii(dom),
    ensures
        num.len() == 2,
        lower_of(pre + seq!['-'] + num + seq!['.'] + dom).len() == pre.len() + 4 + dom.len(),
        lower_of(pre + seq!['-'] + num + seq!['.'] + dom)[pre.len() + 3int] == '.',
{
    reveal_strlit("##");
    let ps = choose|ps: Seq<Seq<char>>|
        ps.len() == 2 && num == flatten(ps) && forall|i: int|
            0 <= i < 2 ==> numerify_piece("##"@[i], #[trigger] ps[i]);
    assert(numerify_piece('#', ps[0]));
    assert(numerify_piece('#', ps[1]));
    assert(ps.drop_last().drop_last() =~= Seq::<Seq<char>>::empty());
    assert(flatten(ps.drop_last()) == flatten(ps.drop_last().drop_last()) + ps[0]);
    assert(num == ps[0] + ps[1]);
    let t = pre + seq!['-'] + num + seq!['.'] + dom;
    assert(all_ascii(t)) by {
        assert forall|i: int| 0 <= i < t.len() implies ascii_char(#[trigger] t[i]) by {
            if i < pre.len() {
                assert(t[i] == pre[i]);
            } else if i == pre.len() {
            } else if i < pre.len() + 3 {
                assert(t[i] == num[i - pre.len() - 1]);
            } else if i == pre.len() + 3 {
            } else {
                assert(t[i] == dom[i - pre.len() - 4]);
            }
        }
    }
    assert(t[pre.len() + 3int] == '.');
}

/// A lower-case hexadecimal digit.
pub open spec fn lower_hex(c: char) -> bool {
    ('0' <= c && c <= '9') || ('a' <= c && c <= 'f')
}

/// A byte is written as its two lower-case hexadecimal digits, high digit first.
proof fn lemma_hex2(b: u8)
    ensures
        hex2(b) == seq![crate::fmt::digit_char(b as nat / 16, false), crate::fmt::digit_char(b as nat % 16, false)],
        lower_hex(crate::fmt::digit_char(b as nat / 16, false)),
        lower_hex(crate::fmt::digit_char(b as nat % 16, false)),
{
    let n = b as nat;
    reveal_with_fuel(digits_of, 3);
    if n < 16 {
        assert(digits_of(n, 16, false) == seq![crate::fmt::digit_char(n % 16, false)]);
        assert(n / 16 == 0);
        assert(hex2(b) =~= seq!['0'] + seq![crate::fmt::digit_char(n % 16, false)]);
    } else {
        assert(n / 16 < 16);
        assert(digits_of(n / 16, 16, false) == seq![crate::fmt::digit_char((n / 16) % 16, false)]);
        assert((n / 16) % 16 == n / 16);
    }
}

/// A MAC address is six bytes written as two lower-case hexadecimal digits each, high digit
/// first, separated by `:`: 17 characters, `:` at every third position.
#[verifier::rlimit(50)]
#[verifier::spinoff_prover]
pub proof fn lemma_mac_layout(octets: Seq<u8>)
    requires
        octets.len() == 6,
    ensures
        mac_text(octets).len() == 17,
        forall|i: int| 0 <= i < 17 ==> (if i % 3 == 2 {
            #[trigger] mac_text(octets)[i] == ':'
        } else {
            lower_hex(mac_text(octets)[i])
        }),
        forall|k: int| 0 <= k < 6 ==> mac_text(octets)[3 * k] == crate::fmt::digit_char(
            #[trigger] octets[k] as nat / 16,
            false,
        ) && mac_text(octets)[3 * k + 1] == crate::fmt::digit_char(octets[k] as nat % 16, false),
{
    lemma_hex2(octets[0]);
    lemma_hex2(octets[1]);
    lemma_hex2(octets[2]);
    lemma_hex2(octets[3]);
    lemma_hex2(octets[4]);
    lemma_hex2(octets[5]);
    let x = mac_text(octets);
    let h = |k: int| seq![crate::fmt::digit_char(octets[k] as nat / 16, false), crate::fmt::digit_char(octets[k] as nat % 16, false)];
    assert(x == h(0) + seq![':'] + h(1) + seq![':'] + h(2) + seq![':'] + h(3) + seq![':'] + h(4) + seq![':'] + h(5));
    assert(x.len() == 17);
    assert(x[0] == h(0)[0]);
    assert(x[1] == h(0)[1]);
    assert(x[2] == ':');
    assert(x[3] == h(1)[0]);
    assert(x[4] == h(1)[1]);
    assert(x[5] == ':');
    assert(x[6] == h(2)[0]);
    assert(x[7] == h(2)[1]);
    assert(x[8] == ':');
    assert(x[9] == h(3)[0]);
    assert(x[10] == h(3)[1]);
    assert(x[11] == ':');
    assert(x[12] == h(4)[0]);
    assert(x[13] == h(4)[1]);
    assert(x[14] == ':');
    assert(x[15] == h(5)[0]);
    assert(x[16] == h(5)[1]);
    assert forall|i: int| 0 <= i < 17 implies (if i % 3 == 2 {
        #[trigger] x[i] == ':'
    } else {
        lower_hex(x[i])
    }) by {
        if i == 0 {
        } else if i == 1 {
        } else if i == 2 {
        } else if i == 3 {
        } else if i == 4 {
        } else if i == 5 {
        } else if i == 6 {
        } else if i == 7 {
        } else if i == 8 {
        } else if i == 9 {
        } else if i == 10 {
        } else if i == 11 {
        } else if i == 12 {
        } else if i == 13 {
        } else if i == 14 {
        } else if i == 15 {
        } else if i == 16 {
        }
    }
    assert forall|k: int| 0 <= k < 6 implies x[3 * k] == crate::fmt::digit_char(
        #[trigger] octets[k] as nat / 16,
        false,
    ) && x[3 * k + 1] == crate::fmt::digit_char(octets[k] as nat % 16, false) by {
        if k == 0 {
        } else if k == 1 {
        } else if k == 2 {
        } else if k == 3 {
        } else if k == 4 {
        } else if k == 5 {
        }
    }
}

/// With a given domain or a safe one, an e-mail address is the drawn user name, `@` and
/// that domain, lowercased.
pub proof fn lemma_email_parts(d: crate::locale::Locale, w: bool, safe: bool, domain: Option<Seq<char>>, state: u128)
    ensures
        ({
            let (u, s1) = fmt_draw(d, w, crate::template::Formatter::UserName, state);
            match domain {
                Some(dom) if dom.len() > 0 => email_draw(d, w, safe, domain, state) == (lower_of(u + seq!['@'] + dom), s1),
                _ => safe ==> ({
                    let (sd, s2) = d.internet.safe_domain_names.draw(s1, w);
                    email_draw(d, w, safe, domain, state) == (lower_of(u + seq!['@'] + sd), s2)
                }),
            }
        }),
{
}

/// `(segments, next state)` of `n` path segments drawn in turn from `paths`' items.
pub open spec fn segments_draw(paths: crate::table::Table<String>, n: nat, state: u128) -> (Seq<Seq<char>>, u128)
    decreases n,
{
    if n == 0 {
        (Seq::empty(), state)
    } else {
        let (first, s1) = segments_draw(paths, (n - 1) as nat, state);
        let (k, s2) = pcg_draw_u64(s1, (paths.items.len() - 1) as u64);
        (first.push(paths.items@[k as int]@), s2)
    }
}

/// `(pattern letters, pattern digits, next state)`: the counts of letters (2–4) and
/// digits (1–5) of a RIPE id or NIC handle, drawn in turn.
pub open spec fn handle_counts_draw(state: u128) -> (nat, nat, u128) {
    let (nl, s1) = randint_draw(state, 2, 4);
    let (nd, s2) = randint_draw(s1, 1, 5);
    (nl as nat, nd as nat, s2)
}

/// `(handle, next state)` of `nic_handle` with `suffix` from `state`.
pub open spec fn nic_handle_draw(suffix: Seq<char>, state: u128) -> (Seq<char>, u128) {
    let (nl, nd, s1) = handle_counts_draw(state);
    let (b, s2) = bothify_run(nic_pattern(nl, nd, suffix), s1);
    (crate::chars::unicode_str_upper(b), s2)
}

/// `(handles, next state)` of `k` NIC handles drawn in turn.
pub open spec fn nic_handles_draw(suffix: Seq<char>, k: nat, state: u128) -> (Seq<Seq<char>>, u128)
    decreases k,
{
    if k == 0 {
        (Seq::empty(), state)
    } else {
        let (first, s1) = nic_handles_draw(suffix, (k - 1) as nat, state);
        let (h, s2) = nic_handle_draw(suffix, s1);
        (first.push(h), s2)
    }
}

/// `(address, next state)` of `company_email` from `state`: a user name, `@` and a
/// one-level domain name, lowercased.
pub open spec fn company_email_draw(d: crate::locale::Locale, w: bool, state: u128) -> (Seq<char>, u128) {
    let (u, s1) = fmt_draw(d, w, crate::template::Formatter::UserName, state);
    let (dom, s2) = domain_name_draw(d, w, 1, s1);
    (lower_of(u + seq!['@'] + dom), s2)
}

/// `(bytes, next state)` of `n` bytes drawn in turn from `state`.
pub open spec fn bytes_draw(n: nat, state: u128) -> (Seq<u8>, u128)
    decreases n,
{
    if n == 0 {
        (Seq::empty(), state)
    } else {
        let (first, s1) = bytes_draw((n - 1) as nat, state);
        let (b, s2) = randint_draw(s1, 0, 255);
        (first.push(b as u8), s2)
    }
}

/// `(address, next state)` of `mac_address` from `state`: a first octet of the asked parity,
/// then five drawn bytes.
pub open spec fn mac_draw(multicast: bool, state: u128) -> (Seq<char>, u128) {
    let (k, s1) = randint_draw(state, 0, 126);
    let first: u8 = if multicast { (1 + 2 * k) as u8 } else { (2 * k) as u8 };
    let (rest, s2) = bytes_draw(5, s1);
    (mac_text(seq![first] + rest), s2)
}

impl Generator {
    pub fn user_name(&mut self) -> (r: String)
        ensures
            old(self).same_config(final(self)),
            user_name_yields(old(self).data(), old(self).weighting(), r@),
            (r@, final(self).stream().state_view()) == fmt_draw(old(self).data(), old(self).weighting(), crate::template::Formatter::UserName, old(self).stream().state_view()),
        decreases 1nat, 2nat,
    {
        proof {
            use_type_invariant(&*self);
        }
        let ghost d = self.data();
        let ghost w = self.weighting();
        let data = self.shared();
        let rendered = self.render_pick_at(&data.internet.user_name_formats, 1);
        let mut filled = String::new();
        self.write_bothify_default(rendered.as_str(), &mut filled);
        let lowered = str_to_lowercase(filled.as_str());
        let r = slugify(to_ascii(lowered.as_str()).as_str(), true);
        assert(bothified(rendered@, filled@)) by {
            let x = choose|x: Seq<char>| filled@ == Seq::<char>::empty() + x && bothified(rendered@, x);
            assert(x == filled@);
        }
        r
    }

    /// First word of a company name, slugified (e.g. `nichols-phillips`).
    pub fn domain_word(&mut self) -> (r: String)
        ensures
            old(self).same_config(final(self)),
            domain_word_yields(old(self).data(), old(self).weighting(), r@),
            (r@, final(self).stream().state_view()) == domain_word_draw(old(self).data(), old(self).weighting(), old(self).stream().state_view()),
        decreases 2nat, 1nat,
    {
        let company = self.company();
        let v = chars_of(company.as_str());
        let e = first_word_end(&v);
        let first = crate::chars::string_of_range(&v, 0, e);
        let slug = slugify(to_ascii(first.as_str()).as_str(), true);
        let r = str_to_lowercase(slug.as_str());
        assert(r@ == domain_word_of(company@));
        r
    }

    /// Appends a domain name with `levels` words (at least one) before the TLD.
    pub(crate) fn write_domain_name(&mut self, levels: u32, out: &mut String)
        ensures
            old(self).same_config(final(self)),
            exists|x: Seq<char>|
                final(out)@ == old(out)@ + x && domain_name_yields(old(self).data(), old(self).weighting(), levels as nat, x),
            final(out)@ == old(out)@ + domain_name_draw(old(self).data(), old(self).weighting(), levels as nat, old(self).stream().state_view()).0,
            final(self).stream().state_view() == domain_name_draw(old(self).data(), old(self).weighting(), levels as nat, old(self).stream().state_view()).1,
        decreases 2nat, 2nat,
    {
        proof {
            use_type_invariant(&*self);
        }
        let ghost d = self.data();
        let ghost w = self.weighting();
        let ghost g0 = *old(self);
        let ghost start = out@;
        let ghost s0 = self.stream().state_view();
        let n: u32 = if levels >= 1 {
            levels
        } else {
            1
        };
        let ghost mut labels: Seq<Seq<char>> = Seq::empty();
        let mut i: u32 = 0;
        while i < n
            invariant
                s0 == g0.stream().state_view(),
                (labels, self.stream().state_view()) == domain_labels_draw(d, w, i as nat, s0),
                g0.same_config(self),
                d == g0.data(),
                w == g0.weighting(),
                i <= n,
                n >= 1,
                labels.len() == i,
                forall|j: int| 0 <= j < i ==> domain_word_yields(d, w, #[trigger] labels[j]),
                i > 0 ==> out@ == start + dotted(labels),
                i == 0 ==> out@ == start,
            decreases n - i,
        {
            if i > 0 {
                push_char(out, '.');
            }
            let word = self.domain_word();
            out.append(word.as_str());
            proof {
                assert(labels.push(word@).drop_last() == labels);
                labels = labels.push(word@);
                assert(((i + 1) as nat - 1) as nat == i as nat);
            }
            i = i + 1;
        }
        push_char(out, '.');
        let data = self.shared();
        let tld = self.pick_str(&data.internet.tlds);
        let lowered = str_to_lowercase(tld.as_str());
        out.append(lowered.as_str());
        proof {
            let x = domain_of(labels, tld@);
            assert(out@ == start + x);
            assert(domain_name_yields(d, w, levels as nat, x));
            assert(domain_name_draw(d, w, levels as nat, s0) == (x, self.stream().state_view()));
        }
    }

    /// Domain name with `levels` labels before the TLD (at least 1).
    pub fn domain_name(&mut self, levels: i64) -> (r: Result<String>)
        ensures
            old(self).same_config(final(self)),
            levels < 1 ==> (r matches Err(Error::InvalidArgument(m)) && m@ == "levels must be greater than or equal to 1"@),
            levels >= 1 ==> (r matches Ok(s) && domain_name_yields(
                old(self).data(),
                old(self).weighting(),
                if levels > u32::MAX {
                    u32::MAX as nat
                } else {
                    levels as nat
                },
                s@,
            )),
            r matches Ok(s) ==> (s@, final(self).stream().state_view()) == domain_name_draw(
                old(self).data(),
                old(self).weighting(),
                if levels > u32::MAX {
                    u32::MAX as nat
                } else {
                    levels as nat
                },
                old(self).stream().state_view(),
            ),
    {
        if levels < 1 {
            return Err(invalid("levels must be greater than or equal to 1"));
        }
        let n: u32 = if levels > u32::MAX as i64 {
            u32::MAX
        } else {
            levels as u32
        };
        let mut out = String::new();
        self.write_domain_name(n, &mut out);
        assert(out@ == Seq::<char>::empty() + out@);
        Ok(out)
    }

    pub fn tld(&mut self) -> (r: String)
        ensures
            old(self).same_config(final(self)),
            old(self).data().internet.tlds.yields(r@, old(self).weighting()),
            (r@, final(self).stream().state_view()) == old(self).data().internet.tlds.draw(
                old(self).stream().state_view(),
                old(self).weighting(),
            ),
    {
        proof {
            use_type_invariant(&*self);
        }
        let data = self.shared();
        self.pick_str(&data.internet.tlds)
    }

    pub fn free_email_domain(&mut self) -> (r: String)
        ensures
            old(self).same_config(final(self)),
            old(self).data().internet.free_email_domains.yields(r@, old(self).weighting()),
            (r@, final(self).stream().state_view()) == old(self).data().internet.free_email_domains.draw(
                old(self).stream().state_view(),
                old(self).weighting(),
            ),
    {
        proof {
            use_type_invariant(&*self);
        }
        let data = self.shared();
        self.pick_str(&data.internet.free_email_domains)
    }
}


/// The characters of `s` other than spaces.
pub open spec fn without_spaces(s: Seq<char>) -> Seq<char>
    decreases s.len(),
{
    if s.len() == 0 {
        s
    } else if s.last() == ' ' {
        without_spaces(s.drop_last())
    } else {
        without_spaces(s.drop_last()).push(s.last())
    }
}

/// An email address: a user name, `@` and the given domain, a safe domain, or (neither
/// asked) a rendered email template without its spaces; lowercased.
pub open spec fn email_yields(d: crate::locale::Locale, w: bool, safe: bool, domain: Option<Seq<char>>, x: Seq<char>) -> bool {
    exists|raw: Seq<char>|
        x == lower_of(raw) && #[trigger] email_raw(d, w, safe, domain, raw)
}

/// `(email, next state)` from `state`: a user name is drawn first; then the given domain,
/// a drawn safe domain, or (neither asked) a rendered email template without its spaces
/// replaces what follows it; lowercased.
pub open spec fn email_draw(
    d: crate::locale::Locale,
    w: bool,
    safe: bool,
    domain: Option<Seq<char>>,
    state: u128,
) -> (Seq<char>, u128) {
    let (u, s1) = fmt_draw(d, w, crate::template::Formatter::UserName, state);
    match domain {
        Some(dom) if dom.len() > 0 => (lower_of(u + seq!['@'] + dom), s1),
        _ => if safe {
            let (sd, s2) = d.internet.safe_domain_names.draw(s1, w);
            (lower_of(u + seq!['@'] + sd), s2)
        } else {
            let (e, s2) = render_pick_draw(d, w, d.internet.email_formats, s1, 3);
            (lower_of(without_spaces(e)), s2)
        },
    }
}

/// An email address before lowercasing.
pub open spec fn email_raw(d: crate::locale::Locale, w: bool, safe: bool, domain: Option<Seq<char>>, raw: Seq<char>) -> bool {
    match domain {
        Some(dom) if dom.len() > 0 => exists|u: Seq<char>| user_name_yields(d, w, u) && raw == u + seq!['@'] + dom,
        _ => if safe {
            exists|u: Seq<char>, s: Seq<char>|
                user_name_yields(d, w, u) && d.internet.safe_domain_names.yields(s, w) && raw == u + seq!['@'] + s
        } else {
            exists|e: Seq<char>|
                renders_from(d.internet.email_formats, w, e, fill_rel(d, w)) && raw == #[trigger] without_spaces(e)
        },
    }
}

/// The dotted-quad text of an IPv4 address.
pub open spec fn ipv4_text(a: u32) -> Seq<char> {
    decimal(a as int / 0x100_0000) + seq!['.'] + decimal((a as int / 0x1_0000) % 0x100) + seq!['.']
        + decimal((a as int / 0x100) % 0x100) + seq!['.'] + decimal(a as int % 0x100)
}

/// The network address of `a` with prefix length `p`: its low `32 - p` bits cleared.
pub open spec fn net_base(a: u32, p: u32) -> u32 {
    if p == 0 {
        0
    } else {
        a & (0xffff_ffffu32 << ((32 - p) as u32))
    }
}

/// What `address_from_pool` may give: an address of some network of the pool, or, with
/// `network`, that address masked to a prefix from the network's own up to 32, followed by
/// `/` and the prefix.
pub open spec fn pool_text(nets: Seq<Net>, network: bool, x: Seq<char>) -> bool {
    exists|i: int, a: u32|
        0 <= i < nets.len() && #[trigger] nets[i].has(a as int) && if network {
            exists|p: u32| nets[i].prefix <= p <= 32 && x == #[trigger] prefixed(net_base(a, p), p)
        } else {
            x == ipv4_text(a)
        }
}

/// A network address followed by `/` and its prefix length.
pub open spec fn prefixed(base: u32, p: u32) -> Seq<char> {
    ipv4_text(base) + seq!['/'] + decimal(p as int)
}

/// An address (or network) from the pool of kind `kind` and class `class`: drawn from a
/// network all of whose addresses the pool holds.
pub open spec fn ipv4_yields(kind: PoolKind, class: usize, network: bool, x: Seq<char>) -> bool {
    exists|n: Net, a: u32|
        n.wf() && #[trigger] n.has(a as int) && (forall|b: int| #[trigger] n.has(b) ==> pool_has(kind, class, b))
            && if network {
            exists|p: u32| n.prefix <= p <= 32 && x == #[trigger] prefixed(net_base(a, p), p)
        } else {
            x == ipv4_text(a)
        }
}

/// One state step of Faker's domain generation algorithm.
pub open spec fn dga_step(y: i64, m: i64, d: i64) -> (i64, i64, i64) {
    (
        ((y ^ i64_specs::wrapping_mul(y, 8)) >> 11u32) ^ i64_specs::wrapping_shl(y & 0xFFFF_FFF0, 17),
        ((m ^ i64_specs::wrapping_mul(m, 4)) >> 25u32) ^ i64_specs::wrapping_mul(m & 0xFFFF_FFF8, 16),
        ((d ^ i64_specs::wrapping_shl(d, 13)) >> 19u32) ^ i64_specs::wrapping_shl(d & 0xFFFF_FFFE, 12),
    )
}

/// The letter a state gives.
pub open spec fn dga_char(y: i64, m: i64, d: i64) -> char {
    (97 + (y ^ m ^ d) % 25) as char
}

/// The `n` letters Faker's domain generation algorithm gives from a state.
pub open spec fn dga_letters(y: i64, m: i64, d: i64, n: nat) -> Seq<char>
    decreases n,
{
    if n == 0 {
        Seq::empty()
    } else {
        let s = dga_step(y, m, d);
        seq![dga_char(s.0, s.1, s.2)] + dga_letters(s.0, s.1, s.2, (n - 1) as nat)
    }
}

/// The generated domain: the letters for a length (none when not positive), `.`, the TLD.
pub open spec fn dga_domain(y: i64, m: i64, d: i64, l: i64, t: Seq<char>) -> Seq<char> {
    dga_letters(y, m, d, if l > 0 { l as nat } else { 0 }) + seq!['.'] + t
}

/// A value given by the caller when present and non-zero, else one in `lo..=hi`.
pub open spec fn given_or_in(given: Option<i64>, v: i64, lo: i64, hi: i64) -> bool {
    match given {
        Some(g) if g != 0 => v == g,
        _ => lo <= v <= hi,
    }
}

/// `(value, next state)` of an argument that is used when given and non-zero, else drawn
/// uniformly from `lo..=hi` (as `random_int(lo, hi)` draws).
pub open spec fn given_or_draw(given: Option<i64>, lo: i64, hi: i64, state: u128) -> (i64, u128) {
    match given {
        Some(g) if g != 0 => (g, state),
        _ => {
            let (k, next) = randint_draw(state, 0, (hi - lo) as i64);
            ((lo + k) as i64, next)
        },
    }
}

/// `(domain, next state)` of `dga` from `state`: year, month, day, top-level domain and
/// length, each given or drawn in that order.
pub open spec fn dga_draw(
    d: crate::locale::Locale,
    w: bool,
    year: Option<i64>,
    month: Option<i64>,
    day: Option<i64>,
    tld: Option<Seq<char>>,
    length: Option<i64>,
    state: u128,
) -> (Seq<char>, u128) {
    let (y, s1) = given_or_draw(year, 1, 9999, state);
    let (m, s2) = given_or_draw(month, 1, 12, s1);
    let (dd, s3) = given_or_draw(day, 1, 30, s2);
    let (t, s4) = match tld {
        Some(tt) if tt.len() != 0 => (tt, s3),
        _ => d.internet.tlds.draw(s3, w),
    };
    let (l, s5) = given_or_draw(length, 2, 63, s4);
    (dga_domain(y, m, dd, l, t), s5)
}

/// A MAC address: six two-digit lowercase hex octets joined by `:`.
pub open spec fn mac_text(octets: Seq<u8>) -> Seq<char> {
    hex2(octets[0]) + seq![':'] + hex2(octets[1]) + seq![':'] + hex2(octets[2]) + seq![':'] + hex2(
        octets[3],
    ) + seq![':'] + hex2(octets[4]) + seq![':'] + hex2(octets[5])
}

/// A byte as two lowercase hex digits.
pub open spec fn hex2(b: u8) -> Seq<char> {
    zero_padded(digits_of(b as nat, 16, false), 2)
}

/// `s` with every non-overlapping occurrence of `pat` (from the left) replaced by `rep`.
pub open spec fn replace_all(s: Seq<char>, pat: Seq<char>, rep: Seq<char>) -> Seq<char>
    decreases s.len(),
{
    if pat.len() == 0 || s.len() < pat.len() {
        s
    } else if s.take(pat.len() as int) == pat {
        rep + replace_all(s.skip(pat.len() as int), pat, rep)
    } else {
        seq![s[0]] + replace_all(s.drop_first(), pat, rep)
    }
}

/// `s` with every occurrence of `pat` replaced by `rep`.
pub fn replace_str(s: &str, pat: &str, rep: &str) -> (r: String)
    ensures
        r@ == replace_all(s@, pat@, rep@),
{
    let v = chars_of(s);
    let p = chars_of(pat);
    let mut out = String::new();
    if p.len() == 0 {
        out.append(s);
        return out;
    }
    let mut i: usize = 0;
    assert(v@.skip(0) == v@);
    while i < v.len()
        invariant
            v@ == s@,
            p@ == pat@,
            p.len() > 0,
            i <= v.len(),
            out@ + replace_all(v@.skip(i as int), p@, rep@) == replace_all(v@, p@, rep@),
        decreases v.len() - i,
    {
        let ghost rest = v@.skip(i as int);
        let mut matched = false;
        if v.len() - i >= p.len() {
            let mut k: usize = 0;
            while k < p.len() && v[i + k] == p[k]
                invariant
                    i + p.len() <= v.len(),
                    k <= p.len(),
                    forall|j: int| 0 <= j < k ==> v@[i + j] == p@[j],
                decreases p.len() - k,
            {
                k = k + 1;
            }
            matched = k == p.len();
            proof {
                if matched {
                    assert(rest.take(p.len() as int) =~= p@);
                } else {
                    assert(rest.take(p.len() as int)[k as int] == v@[i + k]);
                }
            }
        }
        if matched {
            out.append(rep);
            proof {
                assert(rest.skip(p.len() as int) == v@.skip(i + p.len()));
            }
            i = i + p.len();
        } else {
            push_char(&mut out, v[i]);
            proof {
                assert(rest.drop_first() == v@.skip(i + 1));
                assert(rest[0] == v@[i as int]);
            }
            i = i + 1;
        }
    }
    proof {
        assert(v@.skip(v.len() as int) == Seq::<char>::empty());
    }
    out
}

/// Appends the dotted-quad text of `a`.
pub(crate) fn push_ipv4(out: &mut String, a: u32)
    ensures
        final(out)@ == old(out)@ + ipv4_text(a),
{
    push_decimal(out, (a / 0x100_0000) as i128);
    push_char(out, '.');
    push_decimal(out, ((a / 0x1_0000) % 0x100) as i128);
    push_char(out, '.');
    push_decimal(out, ((a / 0x100) % 0x100) as i128);
    push_char(out, '.');
    push_decimal(out, (a % 0x100) as i128);
}

/// `count` copies of `c`.
fn repeat_char(c: char, count: usize) -> (r: String)
    ensures
        r@ == marks(c, count as nat),
{
    let mut out = String::new();
    for i in 0..count
        invariant
            out@ == Seq::new(i as nat, |j: int| c),
    {
        push_char(&mut out, c);
        assert(Seq::new((i + 1) as nat, |j: int| c) == Seq::new(i as nat, |j: int| c).push(c));
    }
    out
}

impl Generator {
    /// An email address (lowercased): user name `@` the given domain, else a safe domain
    /// when `safe`, else a rendered email template without spaces.
    pub fn email(&mut self, safe: bool, domain: Option<&str>) -> (r: String)
        ensures
            old(self).same_config(final(self)),
            email_yields(
                old(self).data(),
                old(self).weighting(),
                safe,
                match domain {
                    Some(d) => Some(d@),
                    None => None,
                },
                r@,
            ),
            (r@, final(self).stream().state_view()) == email_draw(
                old(self).data(),
                old(self).weighting(),
                safe,
                match domain {
                    Some(d) => Some(d@),
                    None => None,
                },
                old(self).stream().state_view(),
            ),
    {
        proof {
            use_type_invariant(&*self);
        }
        let ghost d0 = self.data();
        let ghost w = self.weighting();
        let ghost dom = match domain {
            Some(d) => Some(d@),
            None => None,
        };
        let u = self.user_name();
        let mut out = u.clone();
        push_char(&mut out, '@');
        let given: Option<&str> = match domain {
            Some(d) => if !d.is_empty() {
                Some(d)
            } else {
                None
            },
            None => None,
        };
        match given {
            Some(d) => {
                out.append(d);
                assert(out@ == u@ + seq!['@'] + d@);
                assert(email_raw(d0, w, safe, dom, out@));
            },
            None => {
                if safe {
                    let s = self.safe_domain_name();
                    out.append(s.as_str());
                    assert(out@ == u@ + seq!['@'] + s@);
                    assert(email_raw(d0, w, safe, dom, out@));
                } else {
                    let data = self.shared();
                    let rendered = self.render_pick(&data.internet.email_formats);
                    let v = chars_of(rendered.as_str());
                    let mut kept: Vec<char> = Vec::new();
                    for i in 0..v.len()
                        invariant
                            kept@ == without_spaces(v@.take(i as int)),
                    {
                        if v[i] != ' ' {
                            kept.push(v[i]);
                        }
                        proof {
                            assert(v@.take(i + 1).drop_last() == v@.take(i as int));
                            assert(v@.take(i + 1).last() == v@[i as int]);
                        }
                    }
                    assert(v@.take(v.len() as int) == v@);
                    out = crate::text::string_from(&kept);
                    assert(out@ == without_spaces(rendered@));
                    assert(email_raw(d0, w, safe, dom, out@));
                }
            },
        }
        str_to_lowercase(out.as_str())
    }

    pub fn safe_domain_name(&mut self) -> (r: String)
        ensures
            old(self).same_config(final(self)),
            old(self).data().internet.safe_domain_names.yields(r@, old(self).weighting()),
            (r@, final(self).stream().state_view()) == old(self).data().internet.safe_domain_names.draw(
                old(self).stream().state_view(),
                old(self).weighting(),
            ),
    {
        proof {
            use_type_invariant(&*self);
        }
        let data = self.shared();
        self.pick_str(&data.internet.safe_domain_names)
    }

    pub fn safe_email(&mut self) -> (r: String)
        ensures
            old(self).same_config(final(self)),
            email_yields(old(self).data(), old(self).weighting(), true, None, r@),
            (r@, final(self).stream().state_view()) == email_draw(old(self).data(), old(self).weighting(), true, None, old(self).stream().state_view()),
    {
        self.email(true, None)
    }

    /// A user name `@` a free email domain, lowercased.
    pub fn free_email(&mut self) -> (r: String)
        ensures
            old(self).same_config(final(self)),
            exists|u: Seq<char>, dom: Seq<char>|
                user_name_yields(old(self).data(), old(self).weighting(), u)
                    && old(self).data().internet.free_email_domains.yields(dom, old(self).weighting()) && r@
                    == #[trigger] lower_of(u + seq!['@'] + dom),
            ({
                let (u, s1) = fmt_draw(old(self).data(), old(self).weighting(), crate::template::Formatter::UserName, old(self).stream().state_view());
                let (dom, s2) = old(self).data().internet.free_email_domains.draw(s1, old(self).weighting());
                r@ == lower_of(u + seq!['@'] + dom) && final(self).stream().state_view() == s2
            }),
    {
        let mut out = self.user_name();
        let ghost u = out@;
        push_char(&mut out, '@');
        let dom = self.free_email_domain();
        out.append(dom.as_str());
        assert(out@ == u + seq!['@'] + dom@);
        let r = str_to_lowercase(out.as_str());
        assert(r@ == lower_of(u + seq!['@'] + dom@));
        r
    }

    /// A user name `@` a company domain, lowercased.
    pub fn company_email(&mut self) -> (r: String)
        ensures
            old(self).same_config(final(self)),
            exists|u: Seq<char>, dom: Seq<char>|
                user_name_yields(old(self).data(), old(self).weighting(), u) && domain_name_yields(
                    old(self).data(),
                    old(self).weighting(),
                    1,
                    dom,
                ) && r@ == #[trigger] lower_of(u + seq!['@'] + dom),
            (r@, final(self).stream().state_view()) == company_email_draw(old(self).data(), old(self).weighting(), old(self).stream().state_view()),
    {
        let mut out = self.user_name();
        let ghost u = out@;
        let ghost s1 = self.stream().state_view();
        push_char(&mut out, '@');
        let ghost mid = out@;
        self.write_domain_name(1, &mut out);
        let ghost dom = out@.subrange(mid.len() as int, out@.len() as int);
        assert(out@ == mid + dom);
        proof {
            let x = choose|x: Seq<char>| out@ == mid + x && domain_name_yields(self.data(), self.weighting(), 1, x);
            assert(x == dom);
            assert(dom == domain_name_draw(self.data(), self.weighting(), 1, s1).0);
        }
        assert(out@ == u + seq!['@'] + dom);
        let r = str_to_lowercase(out.as_str());
        assert(r@ == lower_of(u + seq!['@'] + dom));
        r
    }

    pub fn ascii_email(&mut self) -> (r: String)
        ensures
            old(self).same_config(final(self)),
            exists|e: Seq<char>|
                email_yields(old(self).data(), old(self).weighting(), false, None, e) && r@
                    == #[trigger] lower_of(ascii_form(e)),
            ({
                let (e, next) = email_draw(old(self).data(), old(self).weighting(), false, None, old(self).stream().state_view());
                r@ == lower_of(ascii_form(e)) && final(self).stream().state_view() == next
            }),
    {
        let e = self.email(false, None);
        let a = to_ascii(e.as_str());
        let r = str_to_lowercase(a.as_str());
        assert(r@ == lower_of(ascii_form(e@)));
        r
    }

    pub fn ascii_safe_email(&mut self) -> (r: String)
        ensures
            old(self).same_config(final(self)),
            exists|e: Seq<char>|
                email_yields(old(self).data(), old(self).weighting(), true, None, e) && r@
                    == #[trigger] lower_of(ascii_form(e)),
            ({
                let (e, next) = email_draw(old(self).data(), old(self).weighting(), true, None, old(self).stream().state_view());
                r@ == lower_of(ascii_form(e)) && final(self).stream().state_view() == next
            }),
    {
        let e = self.safe_email();
        let a = to_ascii(e.as_str());
        let r = str_to_lowercase(a.as_str());
        assert(r@ == lower_of(ascii_form(e@)));
        r
    }

    pub fn ascii_free_email(&mut self) -> (r: String)
        ensures
            old(self).same_config(final(self)),
            exists|u: Seq<char>, dom: Seq<char>|
                user_name_yields(old(self).data(), old(self).weighting(), u)
                    && old(self).data().internet.free_email_domains.yields(dom, old(self).weighting()) && r@
                    == #[trigger] lower_of(ascii_form(lower_of(u + seq!['@'] + dom))),
            ({
                let (u, s1) = fmt_draw(old(self).data(), old(self).weighting(), crate::template::Formatter::UserName, old(self).stream().state_view());
                let (dom, s2) = old(self).data().internet.free_email_domains.draw(s1, old(self).weighting());
                r@ == lower_of(ascii_form(lower_of(u + seq!['@'] + dom))) && final(self).stream().state_view() == s2
            }),
    {
        let e = self.free_email();
        let a = to_ascii(e.as_str());
        let r = str_to_lowercase(a.as_str());
        proof {
            let (u, dom) = choose|u: Seq<char>, dom: Seq<char>|
                user_name_yields(old(self).data(), old(self).weighting(), u)
                    && old(self).data().internet.free_email_domains.yields(dom, old(self).weighting()) && e@
                    == #[trigger] lower_of(u + seq!['@'] + dom);
            assert(r@ == lower_of(ascii_form(lower_of(u + seq!['@'] + dom))));
        }
        r
    }

    pub fn ascii_company_email(&mut self) -> (r: String)
        ensures
            old(self).same_config(final(self)),
            exists|u: Seq<char>, dom: Seq<char>|
                user_name_yields(old(self).data(), old(self).weighting(), u) && domain_name_yields(
                    old(self).data(),
                    old(self).weighting(),
                    1,
                    dom,
                ) && r@ == #[trigger] lower_of(ascii_form(lower_of(u + seq!['@'] + dom))),
            ({
                let (e, next) = company_email_draw(old(self).data(), old(self).weighting(), old(self).stream().state_view());
                r@ == lower_of(ascii_form(e)) && final(self).stream().state_view() == next
            }),
    {
        let e = self.company_email();
        let a = to_ascii(e.as_str());
        let r = str_to_lowercase(a.as_str());
        proof {
            let (u, dom) = choose|u: Seq<char>, dom: Seq<char>|
                user_name_yields(old(self).data(), old(self).weighting(), u) && domain_name_yields(
                    old(self).data(),
                    old(self).weighting(),
                    1,
                    dom,
                ) && e@ == #[trigger] lower_of(u + seq!['@'] + dom);
            assert(r@ == lower_of(ascii_form(lower_of(u + seq!['@'] + dom))));
        }
        r
    }

    /// Host name such as `db-01.nichols-phillips.com`: a prefix, `-`, two digits and, for
    /// `levels` of at least 1, `.` and a domain name of that many words; lowercased.
    pub fn hostname(&mut self, levels: i64) -> (r: String)
        ensures
            old(self).same_config(final(self)),
            exists|pre: Seq<char>, num: Seq<char>, dom: Seq<char>|
                old(self).data().internet.hostname_prefixes.yields(pre, old(self).weighting()) && numerified(
                    "##"@,
                    num,
                ) && (if levels >= 1 {
                    domain_name_yields(
                        old(self).data(),
                        old(self).weighting(),
                        if levels > u32::MAX {
                            u32::MAX as nat
                        } else {
                            levels as nat
                        },
                        dom,
                    )
                } else {
                    dom.len() == 0
                }) && r@ == lower_of(#[trigger] host_of(pre, num, dom, levels)),
            levels >= 1 ==> exists|pre: Seq<char>, num: Seq<char>, dom: Seq<char>|
                old(self).data().internet.hostname_prefixes.yields(pre, old(self).weighting()) && numerified(
                    "##"@,
                    num,
                ) && domain_name_yields(
                    old(self).data(),
                    old(self).weighting(),
                    if levels > u32::MAX {
                        u32::MAX as nat
                    } else {
                        levels as nat
                    },
                    dom,
                ) && r@ == lower_of(#[trigger] (pre + seq!['-'] + num + seq!['.'] + dom)),
            (r@, final(self).stream().state_view()) == hostname_draw(
                old(self).data(),
                old(self).weighting(),
                levels,
                old(self).stream().state_view(),
            ),
    {
        proof {
            use_type_invariant(&*self);
        }
        let data = self.shared();
        let mut out = self.pick_str(&data.internet.hostname_prefixes);
        let ghost pre = out@;
        let ghost s1 = self.stream().state_view();
        push_char(&mut out, '-');
        let ghost mid = out@;
        self.write_numerify("##", &mut out);
        let ghost num = out@.subrange(mid.len() as int, out@.len() as int);
        let ghost s2 = self.stream().state_view();
        assert(out@ == mid + num);
        assert(num == numerify_run("##"@, s1).0);
        proof {
            let x = choose|x: Seq<char>| out@ == mid + x && numerified("##"@, x);
            assert(x == num);
        }
        let ghost before_dom = out@;
        if levels >= 1 {
            push_char(&mut out, '.');
            let ghost dot = out@;
            let n: u32 = if levels > u32::MAX as i64 {
                u32::MAX
            } else {
                levels as u32
            };
            self.write_domain_name(n, &mut out);
            let ghost dom = out@.subrange(dot.len() as int, out@.len() as int);
            assert(out@ == dot + dom);
            proof {
                let x = choose|x: Seq<char>|
                    out@ == dot + x && domain_name_yields(self.data(), self.weighting(), n as nat, x);
                assert(x == dom);
                assert(dom == domain_name_draw(self.data(), self.weighting(), n as nat, s2).0);
            }
            assert(out@ == host_of(pre, num, dom, levels));
            assert(host_of(pre, num, dom, levels) == pre + seq!['-'] + num + seq!['.'] + dom);
            let r = str_to_lowercase(out.as_str());
            assert(r@ == lower_of(host_of(pre, num, dom, levels)));
            r
        } else {
            assert(out@ == host_of(pre, num, Seq::<char>::empty(), levels));
            let r = str_to_lowercase(out.as_str());
            assert(r@ == lower_of(host_of(pre, num, Seq::<char>::empty(), levels)));
            r
        }
    }

    /// Domain generation algorithm output for the given (or random) date and TLD: `length`
    /// letters of Faker's generator (none for a negative length), `.` and the TLD.
    pub fn dga(
        &mut self,
        year: Option<i64>,
        month: Option<i64>,
        day: Option<i64>,
        tld: Option<&str>,
        length: Option<i64>,
    ) -> (r: Result<String>)
        ensures
            old(self).same_config(final(self)),
            (year matches Some(v) && v != 0) && (month matches Some(v) && v != 0) && (day matches Some(v) && v
                != 0) && (length matches Some(v) && v != 0) && (tld matches Some(t) && t@.len() != 0)
                ==> *final(self) == *old(self),
            r matches Ok(s) && exists|y: i64, m: i64, d: i64, l: i64, t: Seq<char>|
                given_or_in(year, y, 1, 9999) && given_or_in(month, m, 1, 12) && given_or_in(day, d, 1, 30)
                    && given_or_in(length, l, 2, 63) && (match tld {
                    Some(tt) if tt@.len() != 0 => t == tt@,
                    _ => old(self).data().internet.tlds.yields(t, old(self).weighting()),
                }) && s@ == #[trigger] dga_domain(y, m, d, l, t),
            r matches Ok(s) && (s@, final(self).stream().state_view()) == dga_draw(
                old(self).data(),
                old(self).weighting(),
                year,
                month,
                day,
                match tld {
                    Some(t) => Some(t@),
                    None => None,
                },
                length,
                old(self).stream().state_view(),
            ),
    {
        proof {
            use_type_invariant(&*self);
        }
        let mut y: i64 = match year {
            Some(v) if v != 0 => v,
            _ => match self.random_int(1, 9999, 1) {
                Ok(v) => v,
                Err(e) => {
                    return Err(e);
                },
            },
        };
        let mut m: i64 = match month {
            Some(v) if v != 0 => v,
            _ => match self.random_int(1, 12, 1) {
                Ok(v) => v,
                Err(e) => {
                    return Err(e);
                },
            },
        };
        let mut d: i64 = match day {
            Some(v) if v != 0 => v,
            _ => match self.random_int(1, 30, 1) {
                Ok(v) => v,
                Err(e) => {
                    return Err(e);
                },
            },
        };
        let t: String = match tld {
            Some(tt) if !tt.is_empty() => tt.to_owned(),
            _ => self.tld(),
        };
        let l: i64 = match length {
            Some(v) if v != 0 => v,
            _ => match self.random_int(2, 63, 1) {
                Ok(v) => v,
                Err(e) => {
                    return Err(e);
                },
            },
        };
        let ghost (y0, m0, d0) = (y, m, d);
        let n: i64 = if l > 0 {
            l
        } else {
            0
        };
        let mut domain = String::new();
        let mut i: i64 = 0;
        while i < n
            invariant
                0 <= i <= n,
                domain@ + dga_letters(y, m, d, (n - i) as nat) == dga_letters(y0, m0, d0, n as nat),
            decreases n - i,
        {
            let ghost s = dga_step(y, m, d);
            let ghost (oy, om, od) = (y, m, d);
            y = ((y ^ y.wrapping_mul(8)) >> 11u32) ^ ((y & 0xFFFF_FFF0).wrapping_shl(17));
            m = ((m ^ m.wrapping_mul(4)) >> 25u32) ^ (m & 0xFFFF_FFF8).wrapping_mul(16);
            d = ((d ^ d.wrapping_shl(13)) >> 19u32) ^ ((d & 0xFFFF_FFFE).wrapping_shl(12));
            assert((y, m, d) == s);
            let letter: i64 = match (y ^ m ^ d).checked_rem_euclid(25) {
                Some(v) => v,
                None => 0,
            };
            let c = ((97 + letter) as u8) as char;
            push_char(&mut domain, c);
            proof {
                assert(c == dga_char(y, m, d));
                assert(dga_letters(oy, om, od, (n - i) as nat) == seq![c] + dga_letters(y, m, d, (n - i - 1) as nat));
            }
            i = i + 1;
        }
        push_char(&mut domain, '.');
        domain.append(t.as_str());
        assert(domain@ == dga_domain(y0, m0, d0, l, t@));
        Ok(domain)
    }

    pub fn http_method(&mut self) -> (r: String)
        ensures
            old(self).same_config(final(self)),
            old(self).data().internet.http_methods.yields(r@, old(self).weighting()),
            (r@, final(self).stream().state_view()) == old(self).data().internet.http_methods.draw(
                old(self).stream().state_view(),
                old(self).weighting(),
            ),
    {
        proof {
            use_type_invariant(&*self);
        }
        let data = self.shared();
        self.pick_str(&data.internet.http_methods)
    }

    /// HTTP status code; any 100–599 when `include_unassigned`, else an assigned one.
    pub fn http_status_code(&mut self, include_unassigned: bool) -> (r: u32)
        ensures
            old(self).same_config(final(self)),
            include_unassigned ==> 100 <= r <= 599,
            !include_unassigned ==> old(self).data().internet.http_assigned_codes@.contains(r),
            include_unassigned ==> (r as i64, final(self).stream().state_view()) == randint_draw(old(self).stream().state_view(), 100, 599),
            !include_unassigned ==> ({
                let (i, next) = pcg_draw_u64(
                    old(self).stream().state_view(),
                    (old(self).data().internet.http_assigned_codes.len() - 1) as u64,
                );
                r == old(self).data().internet.http_assigned_codes@[i as int] && final(self).stream().state_view() == next
            }),
    {
        proof {
            use_type_invariant(&*self);
        }
        if include_unassigned {
            return self.randint(100, 599) as u32;
        }
        let data = self.shared();
        let codes = &data.internet.http_assigned_codes;
        let i = self.index(codes.len());
        assert(codes@[i as int] == codes[i as int]);
        codes[i]
    }

    /// URL such as `https://www.example.com/`. `schemes` defaults to http/https;
    /// an empty list gives a scheme-less `://host/` URL.
    pub fn url(&mut self, schemes: Option<&[&str]>) -> (r: String)
        ensures
            old(self).same_config(final(self)),
            url_base_yields(old(self).data(), old(self).weighting(), schemes_view(schemes), r@),
            (r@, final(self).stream().state_view()) == url_base_draw(
                old(self).data(),
                old(self).weighting(),
                schemes_view(schemes),
                old(self).stream().state_view(),
            ),
    {
        let mut out = String::new();
        self.write_url_base(schemes, &mut out);
        assert(out@ == Seq::<char>::empty() + out@);
        out
    }

    fn write_url_base(&mut self, schemes: Option<&[&str]>, out: &mut String)
        ensures
            old(self).same_config(final(self)),
            exists|x: Seq<char>|
                final(out)@ == old(out)@ + x && url_base_yields(old(self).data(), old(self).weighting(), schemes_view(schemes), x),
            final(out)@ == old(out)@ + url_base_draw(old(self).data(), old(self).weighting(), schemes_view(schemes), old(self).stream().state_view()).0,
            final(self).stream().state_view() == url_base_draw(old(self).data(), old(self).weighting(), schemes_view(schemes), old(self).stream().state_view()).1,
    {
        proof {
            use_type_invariant(&*self);
        }
        let ghost start = out@;
        let ghost d0 = self.data();
        let ghost w = self.weighting();
        let ghost sv = schemes_view(schemes);
        let mut scheme = String::new();
        match schemes {
            Some(list) => {
                if list.len() > 0 {
                    let i = self.index(list.len());
                    scheme = list[i].to_owned();
                    assert(sv[i as int] == scheme@);
                }
            },
            None => {
                let i = self.index(2);
                scheme = if i == 0 {
                    "http".to_owned()
                } else {
                    "https".to_owned()
                };
                assert(sv[i as int] == scheme@);
            },
        }
        let ghost s1 = self.stream().state_view();
        assert(sv.len() > 0 ==> scheme@ == sv[pcg_draw_u64(old(self).stream().state_view(), (sv.len() - 1) as u64).0 as int]);
        assert(sv.len() > 0 ==> s1 == pcg_draw_u64(old(self).stream().state_view(), (sv.len() - 1) as u64).1);
        out.append(scheme.as_str());
        out.append("://");
        let ghost mid = out@;
        let data = self.shared();
        let i = self.pick(&data.internet.url_formats);
        self.render(&data.internet.url_formats.items[i], out);
        proof {
            let host = out@.subrange(mid.len() as int, out@.len() as int);
            assert(out@ == mid + host);
            let x = choose|x: Seq<char>|
                out@ == mid + x && rendered_with(data.internet.url_formats.items@[i as int]@, x, fill_rel(d0, w));
            assert(x == host);
            assert(renders_from(d0.internet.url_formats, w, host, fill_rel(d0, w)));
            assert(out@ == start + (scheme@ + "://"@ + host));
        }
    }

    /// One of the network classes `a`, `b`, `c`.
    pub fn ipv4_network_class(&mut self) -> (r: char)
        ensures
            old(self).same_config(final(self)),
            r == 'a' || r == 'b' || r == 'c',
            (r, final(self).stream().state_view()) == (
                crate::net::network_classes_spec()[pcg_draw_u64(old(self).stream().state_view(), 2).0 as int].0,
                pcg_draw_u64(old(self).stream().state_view(), 2).1,
            ),
    {
        let classes = network_classes();
        let i = self.index(3);
        classes[i].0
    }

    /// Random IPv4 address or network. `private`: `Some(true)` private only,
    /// `Some(false)` public only, `None` any non-reserved address.
    pub fn ipv4(&mut self, network: bool, address_class: Option<&str>, private: Option<bool>) -> (r: String)
        ensures
            old(self).same_config(final(self)),
            match private {
                Some(true) => exists|c: usize| class_fits(address_class, c) && ipv4_yields(PoolKind::Private, c, network, r@),
                Some(false) => exists|c: usize| class_fits(address_class, c) && ipv4_yields(PoolKind::Public, c, network, r@),
                None => ipv4_yields(
                    PoolKind::All,
                    match class_of(opt_view(address_class)) {
                        Some(c) => c,
                        None => 0,
                    },
                    network,
                    r@,
                ),
            },
            (r@, final(self).stream().state_view()) == match private {
                Some(true) => {
                    let (c, s1) = class_draw(opt_view(address_class), old(self).stream().state_view());
                    pool_address_draw(pool_nets(PoolKind::Private, c), network, s1)
                },
                Some(false) => {
                    let (c, s1) = class_draw(opt_view(address_class), old(self).stream().state_view());
                    pool_address_draw(pool_nets(PoolKind::Public, c), network, s1)
                },
                None => pool_address_draw(
                    pool_nets(
                        PoolKind::All,
                        match class_of(opt_view(address_class)) {
                            Some(c) => c,
                            None => 0,
                        },
                    ),
                    network,
                    old(self).stream().state_view(),
                ),
            },
    {
        match private {
            Some(true) => self.ipv4_private(network, address_class),
            Some(false) => self.ipv4_public(network, address_class),
            None => {
                let class = match crate::net::class_index(address_class) {
                    Some(c) => c,
                    None => 0,
                };
                let p = pool(PoolKind::All, class);
                self.address_in(PoolKind::All, class, &p, network)
            },
        }
    }

    /// A private IPv4 address or network (of the given class, else of a random one).
    pub fn ipv4_private(&mut self, network: bool, address_class: Option<&str>) -> (r: String)
        ensures
            old(self).same_config(final(self)),
            exists|c: usize| class_fits(address_class, c) && ipv4_yields(PoolKind::Private, c, network, r@),
            ({
                let (c, s1) = class_draw(opt_view(address_class), old(self).stream().state_view());
                (r@, final(self).stream().state_view()) == pool_address_draw(pool_nets(PoolKind::Private, c), network, s1)
            }),
    {
        let class = self.class_or_random(address_class);
        let p = pool(PoolKind::Private, class);
        self.address_in(PoolKind::Private, class, &p, network)
    }

    /// A public IPv4 address or network (of the given class, else of a random one).
    pub fn ipv4_public(&mut self, network: bool, address_class: Option<&str>) -> (r: String)
        ensures
            old(self).same_config(final(self)),
            exists|c: usize| class_fits(address_class, c) && ipv4_yields(PoolKind::Public, c, network, r@),
            ({
                let (c, s1) = class_draw(opt_view(address_class), old(self).stream().state_view());
                (r@, final(self).stream().state_view()) == pool_address_draw(pool_nets(PoolKind::Public, c), network, s1)
            }),
    {
        let class = self.class_or_random(address_class);
        let p = pool(PoolKind::Public, class);
        self.address_in(PoolKind::Public, class, &p, network)
    }

    fn class_or_random(&mut self, address_class: Option<&str>) -> (r: usize)
        ensures
            old(self).same_config(final(self)),
            class_fits(address_class, r),
            (r, final(self).stream().state_view()) == class_draw(opt_view(address_class), old(self).stream().state_view()),
    {
        match crate::net::class_index(address_class) {
            Some(c) => c,
            None => 1 + self.index(3),
        }
    }

    /// An address (or network) of pool `p`, which is the pool of `kind` and `class`.
    fn address_in(&mut self, kind: PoolKind, class: usize, p: &Pool, network: bool) -> (r: String)
        requires
            class <= 3,
            p.wf(),
            forall|a: int| #[trigger] covered(p.nets@, a) <==> pool_has(kind, class, a),
        ensures
            old(self).same_config(final(self)),
            ipv4_yields(kind, class, network, r@),
            (r@, final(self).stream().state_view()) == pool_address_draw(p.nets@, network, old(self).stream().state_view()),
    {
        proof {
            lemma_pool_nonempty(kind, class);
            let a = choose|a: int| pool_has(kind, class, a);
            assert(covered(p.nets@, a));
            lemma_covered_positive(p.nets@, a);
        }
        let r = self.address_from_pool(p, network);
        proof {
            let (i, a) = choose|i: int, a: u32|
                0 <= i < p.nets@.len() && #[trigger] p.nets@[i].has(a as int) && if network {
                    exists|q: u32| p.nets@[i].prefix <= q <= 32 && r@ == #[trigger] prefixed(net_base(a, q), q)
                } else {
                    r@ == ipv4_text(a)
                };
            let n = p.nets@[i];
            assert forall|b: int| #[trigger] n.has(b) implies pool_has(kind, class, b) by {
                assert(covered(p.nets@, b));
            }
            assert(ipv4_yields(kind, class, network, r@));
        }
        r
    }

    /// An address drawn uniformly from the pool's networks (or, with `network`, a network
    /// around it); `0.0.0.0` for an empty pool.
    fn address_from_pool(&mut self, p: &Pool, network: bool) -> (r: String)
        requires
            p.wf(),
        ensures
            old(self).same_config(final(self)),
            size_sum(p.nets@) == 0 ==> r@ == "0.0.0.0"@,
            size_sum(p.nets@) > 0 ==> pool_text(p.nets@, network, r@),
            (r@, final(self).stream().state_view()) == pool_address_draw(p.nets@, network, old(self).stream().state_view()),
    {
        let total = p.total();
        if total == 0 {
            let r = "0.0.0.0".to_owned();
            proof {
                reveal_strlit("0.0.0.0");
            }
            return r;
        }
        let mut rng = self.rng();
        let draw = rng.below(total);
        self.set_rng(rng);
        proof {
            lemma_pool_sorted(p);
        }
        let i = weighted_index(&p.cum, draw);
        proof {
            assert(p.cum@ =~= running_sizes(p.nets@));
            lemma_bisect(p.cum@, draw, 0, i as int);
        }
        let net = p.nets[i];
        let start: u64 = if i == 0 {
            0
        } else {
            p.cum[i - 1]
        };
        proof {
            lemma_pool_start(p, i as int);
            assert(p.nets@.take(0) == Seq::<Net>::empty());
            assert(p.nets@.take(p.nets.len() as int) == p.nets@);
            assert(p.cum@[p.cum.len() - 1] == total);
            assert(draw < p.cum@[i as int]);
            crate::net::lemma_wf_fits(net);
        }
        let offset = draw - start;
        let addr = net.addr.wrapping_add(offset as u32);
        assert(net.has(addr as int));
        if !network {
            let mut out = String::new();
            push_ipv4(&mut out, addr);
            return out;
        }
        let q = self.randint(net.prefix as i64, 32) as u32;
        let mask: u32 = if q == 0 {
            0
        } else {
            0xffff_ffffu32 << (32 - q)
        };
        let base = addr & mask;
        proof {
            if q == 0 {
                assert(addr & 0 == 0) by (bit_vector);
            }
        }
        assert(base == net_base(addr, q));
        let mut out = String::new();
        push_ipv4(&mut out, base);
        push_char(&mut out, '/');
        push_decimal(&mut out, q as i128);
        assert(out@ == prefixed(net_base(addr, q), q));
        out
    }

    /// MAC address; the first octet is odd (multicast) or even (unicast).
    pub fn mac_address(&mut self, multicast: bool) -> (r: String)
        ensures
            old(self).same_config(final(self)),
            exists|octets: Seq<u8>|
                octets.len() == 6 && octets[0] % 2 == (if multicast { 1int } else { 0int }) && octets[0] <= 253
                    && r@ == #[trigger] mac_text(octets),
            (r@, final(self).stream().state_view()) == mac_draw(multicast, old(self).stream().state_view()),
    {
        let k = self.randint(0, 126);
        let ghost s1 = self.stream().state_view();
        let first: u8 = if multicast {
            (1 + 2 * k) as u8
        } else {
            (2 * k) as u8
        };
        let mut octets: Vec<u8> = Vec::new();
        octets.push(first);
        let mut out = String::new();
        push_number(&mut out, first as u128, 16, false, 2);
        let ghost g0 = *old(self);
        for j in 0..5
            invariant
                g0.same_config(self),
                octets.len() == j + 1,
                octets@[0] == first,
                out@ == mac_prefix(octets@),
                (octets@.drop_first(), self.stream().state_view()) == bytes_draw(j as nat, s1),
        {
            let ghost before = octets@;
            let b = self.randint(0, 255) as u8;
            push_char(&mut out, ':');
            push_number(&mut out, b as u128, 16, false, 2);
            proof {
                assert(octets@.push(b).drop_last() == octets@);
                assert(octets@.push(b).drop_first() == octets@.drop_first().push(b));
            }
            octets.push(b);
        }
        assert(octets@ == seq![first] + octets@.drop_first());
        proof {
            reveal_with_fuel(mac_prefix, 7);
            assert(out@ == mac_text(octets@));
        }
        out
    }

    /// Port number, optionally restricted to the system, user or dynamic range.
    pub fn port_number(&mut self, is_system: bool, is_user: bool, is_dynamic: bool) -> (r: u16)
        ensures
            old(self).same_config(final(self)),
            is_system ==> r <= 1023,
            !is_system && is_user ==> 1024 <= r <= 49151,
            !is_system && !is_user && is_dynamic ==> 49152 <= r,
            (r as i64, final(self).stream().state_view()) == randint_draw(
                old(self).stream().state_view(),
                if is_system || is_user || !is_dynamic { if !is_system && is_user { 1024 } else { 0 } } else { 49152 },
                if is_system { 1023 } else if is_user { 49151 } else { 65535 },
            ),
    {
        let (lo, hi): (i64, i64) = if is_system {
            (0, 1023)
        } else if is_user {
            (1024, 49151)
        } else if is_dynamic {
            (49152, 65535)
        } else {
            (0, 65535)
        };
        self.randint(lo, hi) as u16
    }

    pub fn uri_page(&mut self) -> (r: String)
        ensures
            old(self).same_config(final(self)),
            old(self).data().internet.uri_pages.yields(r@, old(self).weighting()),
            (r@, final(self).stream().state_view()) == old(self).data().internet.uri_pages.draw(
                old(self).stream().state_view(),
                old(self).weighting(),
            ),
    {
        proof {
            use_type_invariant(&*self);
        }
        let data = self.shared();
        self.pick_str(&data.internet.uri_pages)
    }

    /// Path of `deep` segments (random 1–3 when `None` or 0), each a uri path item,
    /// joined by `/`.
    pub fn uri_path(&mut self, deep: Option<i64>) -> (r: String)
        ensures
            old(self).same_config(final(self)),
            exists|n: i64, segs: Seq<Seq<char>>|
                #[trigger] given_or_in(deep, n, 1, 3) && segs.len() == (if n > 0 { n as nat } else { 0 }) && (forall|j: int|
                    0 <= j < segs.len() ==> old(self).data().internet.uri_paths.holds(#[trigger] segs[j]))
                    && r@ == #[trigger] slashed(segs),
            ({
                let (n, s1) = match deep {
                    Some(v) if v != 0 => (v, old(self).stream().state_view()),
                    _ => randint_draw(old(self).stream().state_view(), 1, 3),
                };
                let (segs, s2) = segments_draw(old(self).data().internet.uri_paths, if n > 0 { n as nat } else { 0 }, s1);
                r@ == slashed(segs) && final(self).stream().state_view() == s2
            }),
    {
        proof {
            use_type_invariant(&*self);
        }
        let n: i64 = match deep {
            Some(v) if v != 0 => v,
            _ => self.randint(1, 3),
        };
        let data = self.shared();
        let paths = &data.internet.uri_paths;
        let mut out = String::new();
        let ghost mut segs: Seq<Seq<char>> = Seq::empty();
        let ghost g0 = *old(self);
        let ghost s1 = self.stream().state_view();
        let mut i: i64 = 0;
        while i < n
            invariant
                g0.same_config(self),
                *data == g0.data(),
                paths == &data.internet.uri_paths,
                paths.wf(),
                0 <= i,
                n > 0 ==> i <= n,
                n <= 0 ==> i == 0,
                segs.len() == i,
                forall|j: int| 0 <= j < segs.len() ==> paths.holds(#[trigger] segs[j]),
                out@ == slashed(segs),
                (segs, self.stream().state_view()) == segments_draw(*paths, i as nat, s1),
            decreases n - i,
        {
            if i > 0 {
                push_char(&mut out, '/');
            }
            let k = self.index(paths.items.len());
            out.append(paths.items[k].as_str());
            proof {
                let seg = paths.items@[k as int]@;
                assert(paths.holds(seg));
                assert(segs.push(seg).drop_last() == segs);
                segs = segs.push(seg);
            }
            i = i + 1;
        }
        assert(segs.len() == (if n > 0 { n as nat } else { 0 }));
        assert(given_or_in(deep, n, 1, 3));
        out
    }

    pub fn uri_extension(&mut self) -> (r: String)
        ensures
            old(self).same_config(final(self)),
            old(self).data().internet.uri_extensions.yields(r@, old(self).weighting()),
            (r@, final(self).stream().state_view()) == old(self).data().internet.uri_extensions.draw(
                old(self).stream().state_view(),
                old(self).weighting(),
            ),
    {
        proof {
            use_type_invariant(&*self);
        }
        let data = self.shared();
        self.pick_str(&data.internet.uri_extensions)
    }

    /// A URL base followed by a path, a page and an extension.
    pub fn uri(&mut self, schemes: Option<&[&str]>, deep: Option<i64>) -> (r: String)
        ensures
            old(self).same_config(final(self)),
            exists|base: Seq<char>, path: Seq<char>, page: Seq<char>, ext: Seq<char>|
                url_base_yields(old(self).data(), old(self).weighting(), schemes_view(schemes), base)
                    && old(self).data().internet.uri_pages.yields(page, old(self).weighting())
                    && old(self).data().internet.uri_extensions.yields(ext, old(self).weighting()) && r@
                    == #[trigger] uri_join(base, path, page, ext),
            ({
                let (base, s1) = url_base_draw(old(self).data(), old(self).weighting(), schemes_view(schemes), old(self).stream().state_view());
                let (n, s2) = match deep {
                    Some(v) if v != 0 => (v, s1),
                    _ => randint_draw(s1, 1, 3),
                };
                let (segs, s3) = segments_draw(old(self).data().internet.uri_paths, if n > 0 { n as nat } else { 0 }, s2);
                let (page, s4) = old(self).data().internet.uri_pages.draw(s3, old(self).weighting());
                let (ext, s5) = old(self).data().internet.uri_extensions.draw(s4, old(self).weighting());
                r@ == uri_join(base, slashed(segs), page, ext) && final(self).stream().state_view() == s5
            }),
    {
        let mut out = String::new();
        self.write_url_base(schemes, &mut out);
        let ghost base = out@;
        let path = self.uri_path(deep);
        out.append(path.as_str());
        let page = self.uri_page();
        out.append(page.as_str());
        let ext = self.uri_extension();
        out.append(ext.as_str());
        assert(out@ == uri_join(base, path@, page@, ext@));
        out
    }

    /// Slug of `value`, or of a random text of fewer than 20 characters when `None`.
    pub fn slug(&mut self, value: Option<&str>) -> (r: Result<String>)
        ensures
            old(self).same_config(final(self)),
            value matches Some(v) ==> (r matches Ok(s) && s@ == slug_of(v@, false)),
            r matches Ok(s) ==> forall|i: int| 0 <= i < s@.len() ==> crate::text::slug_safe(#[trigger] s@[i]),
            value is None ==> match r {
                Ok(s) => exists|t: Seq<char>|
                    text_yields(old(self).data(), plain_list(old(self).data(), None), 20, t) && s@ == #[trigger] slug_of(t, false),
                Err(e) => e matches Error::InvalidArgument(m) && m@ == crate::lorem::text_failure(20),
            },
            value is None && r is Ok ==> (match crate::lorem::text_draw(
                old(self).data(),
                plain_list(old(self).data(), None),
                20,
                crate::lorem::text_limit(20),
                crate::lorem::MAX_TEXT_ATTEMPTS as nat,
                old(self).stream().state_view(),
            ) {
                (Some(t), next) => r matches Ok(s) && s@ == slug_of(t, false) && final(self).stream().state_view() == next,
                (None, _) => false,
            }),
    {
        proof {
            use_type_invariant(&*self);
        }
        match value {
            Some(v) => Ok(slugify(v, false)),
            None => {
                assert(plain_list(self.data(), None).len() == self.data().lorem.word_list.items.len());
                let t = match self.text(20, None) {
                    Ok(t) => t,
                    Err(e) => {
                        return Err(e);
                    },
                };
                Ok(slugify(t.as_str(), false))
            },
        }
    }

    /// Placeholder image URL; `{width}` and `{height}` in `placeholder_url` are filled in.
    pub fn image_url(&mut self, width: Option<i64>, height: Option<i64>, placeholder_url: Option<&str>) -> (r: String)
        ensures
            old(self).same_config(final(self)),
            (width matches Some(w) && w != 0) && (height matches Some(h) && h != 0) && placeholder_url is Some
                ==> *final(self) == *old(self),
            exists|wd: i64, ht: i64, t: Seq<char>|
                given_or_in(width, wd, 0, 1024) && given_or_in(height, ht, 0, 1024) && (match placeholder_url {
                    Some(u) => t == u@,
                    None => old(self).data().internet.image_placeholder_services.yields(t, old(self).weighting()),
                }) && r@ == #[trigger] replace_all(
                    replace_all(t, "{width}"@, decimal(wd as int)),
                    "{height}"@,
                    decimal(ht as int),
                ),
            ({
                let (wd, s1) = match width {
                    Some(v) if v != 0 => (v, old(self).stream().state_view()),
                    _ => randint_draw(old(self).stream().state_view(), 0, 1024),
                };
                let (ht, s2) = match height {
                    Some(v) if v != 0 => (v, s1),
                    _ => randint_draw(s1, 0, 1024),
                };
                let (t, s3) = match placeholder_url {
                    Some(u) => (u@, s2),
                    None => old(self).data().internet.image_placeholder_services.draw(s2, old(self).weighting()),
                };
                r@ == replace_all(replace_all(t, "{width}"@, decimal(wd as int)), "{height}"@, decimal(ht as int))
                    && final(self).stream().state_view() == s3
            }),
    {
        proof {
            use_type_invariant(&*self);
        }
        let wd: i64 = match width {
            Some(v) if v != 0 => v,
            _ => self.randint(0, 1024),
        };
        let ht: i64 = match height {
            Some(v) if v != 0 => v,
            _ => self.randint(0, 1024),
        };
        let template: String = match placeholder_url {
            Some(u) => u.to_owned(),
            None => {
                let data = self.shared();
                self.pick_str(&data.internet.image_placeholder_services)
            },
        };
        let ws = crate::fmt::decimal_string(wd as i128);
        let hs = crate::fmt::decimal_string(ht as i128);
        let once = replace_str(template.as_str(), "{width}", ws.as_str());
        replace_str(once.as_str(), "{height}", hs.as_str())
    }

    /// A decimal IANA id from 1 to 8888888.
    pub fn iana_id(&mut self) -> (r: String)
        ensures
            old(self).same_config(final(self)),
            exists|n: int| 1 <= n <= 8888888 && r@ == #[trigger] decimal(n),
            r@ == decimal(randint_draw(old(self).stream().state_view(), 1, 8_888_888).0 as int),
            final(self).stream().state_view() == randint_draw(old(self).stream().state_view(), 1, 8_888_888).1,
    {
        let n = self.randint(1, 8_888_888);
        crate::fmt::decimal_string(n as i128)
    }

    /// A RIPE id such as `ORG-ABC123-RIPE`: 2–4 letters and 1–5 non-zero digits, uppercased.
    pub fn ripe_id(&mut self) -> (r: String)
        ensures
            old(self).same_config(final(self)),
            exists|nl: nat, nd: nat, b: Seq<char>|
                2 <= nl <= 4 && 1 <= nd <= 5 && #[trigger] bothified(ripe_pattern(nl, nd), b) && r@
                    == crate::chars::unicode_str_upper(b),
            ({
                let (nl, nd, s1) = handle_counts_draw(old(self).stream().state_view());
                let (b, s2) = bothify_run(ripe_pattern(nl, nd), s1);
                r@ == crate::chars::unicode_str_upper(b) && final(self).stream().state_view() == s2
            }),
    {
        let nl = self.randint(2, 4) as usize;
        let nd = self.randint(1, 5) as usize;
        let mut pattern = "ORG-".to_owned();
        pattern.append(repeat_char('?', nl).as_str());
        pattern.append(repeat_char('%', nd).as_str());
        pattern.append("-RIPE");
        assert(pattern@ == ripe_pattern(nl as nat, nd as nat));
        let mut out = String::new();
        self.write_bothify_default(pattern.as_str(), &mut out);
        assert(out@ == Seq::<char>::empty() + out@);
        proof {
            let x = choose|x: Seq<char>| out@ == Seq::<char>::empty() + x && bothified(pattern@, x);
            assert(x == out@);
            assert(bothified(ripe_pattern(nl as nat, nd as nat), out@));
        }
        crate::chars::str_to_uppercase(out.as_str())
    }

    /// NIC handle such as `ABC123-FAKE`; `suffix` must have at least 2 characters.
    pub fn nic_handle(&mut self, suffix: &str) -> (r: Result<String>)
        ensures
            old(self).same_config(final(self)),
            suffix@.len() < 2 ==> (r matches Err(Error::InvalidArgument(m)) && m@
                == "suffix length must be greater than or equal to 2"@),
            suffix@.len() >= 2 ==> (r matches Ok(s) && nic_handle_yields(suffix@, s@)),
            r matches Ok(s) ==> (s@, final(self).stream().state_view()) == nic_handle_draw(suffix@, old(self).stream().state_view()),
    {
        let v = chars_of(suffix);
        if v.len() < 2 {
            return Err(invalid("suffix length must be greater than or equal to 2"));
        }
        let nl = self.randint(2, 4) as usize;
        let nd = self.randint(1, 5) as usize;
        let mut pattern = repeat_char('?', nl);
        pattern.append(repeat_char('%', nd).as_str());
        push_char(&mut pattern, '-');
        pattern.append(suffix);
        assert(pattern@ == nic_pattern(nl as nat, nd as nat, suffix@));
        let mut out = String::new();
        self.write_bothify_default(pattern.as_str(), &mut out);
        assert(out@ == Seq::<char>::empty() + out@);
        proof {
            let x = choose|x: Seq<char>| out@ == Seq::<char>::empty() + x && bothified(pattern@, x);
            assert(x == out@);
            assert(bothified(nic_pattern(nl as nat, nd as nat, suffix@), out@));
        }
        let r = crate::chars::str_to_uppercase(out.as_str());
        assert(nic_handle_yields(suffix@, r@));
        Ok(r)
    }

    /// `count` NIC handles (none for a count of 0 or less).
    pub fn nic_handles(&mut self, count: i64, suffix: &str) -> (r: Result<Vec<String>>)
        ensures
            old(self).same_config(final(self)),
            count > 0 && suffix@.len() < 2 ==> (r matches Err(Error::InvalidArgument(m)) && m@
                == "suffix length must be greater than or equal to 2"@),
            count <= 0 ==> (r matches Ok(v) && v.len() == 0),
            count > 0 && suffix@.len() >= 2 ==> (r matches Ok(v) && v.len() == count && forall|j: int|
                0 <= j < v.len() ==> nic_handle_yields(suffix@, #[trigger] v@[j]@)),
            r matches Ok(v) ==> (v@.map_values(|h: String| h@), final(self).stream().state_view()) == nic_handles_draw(
                suffix@,
                if count > 0 { count as nat } else { 0 },
                old(self).stream().state_view(),
            ),
    {
        let mut v: Vec<String> = Vec::new();
        let ghost g0 = *old(self);
        assert(v@.map_values(|h: String| h@) =~= Seq::<Seq<char>>::empty());
        let mut i: i64 = 0;
        while i < count
            invariant
                g0.same_config(self),
                g0 == *old(self),
                0 <= i,
                count > 0 ==> i <= count,
                count <= 0 ==> i == 0,
                v.len() == i,
                forall|j: int| 0 <= j < v.len() ==> nic_handle_yields(suffix@, #[trigger] v@[j]@),
                i > 0 ==> suffix@.len() >= 2,
                (v@.map_values(|h: String| h@), self.stream().state_view()) == nic_handles_draw(
                    suffix@,
                    i as nat,
                    g0.stream().state_view(),
                ),
            decreases count - i,
        {
            let ghost before = v@.map_values(|h: String| h@);
            match self.nic_handle(suffix) {
                Ok(h) => {
                    v.push(h);
                    assert(v@.map_values(|h: String| h@) =~= before.push(h@));
                },
                Err(e) => {
                    return Err(e);
                },
            }
            i = i + 1;
        }
        Ok(v)
    }
}

/// What a NIC handle may be: 2–4 letters, 1–5 non-zero digits, `-` and the suffix, with
/// `bothify` applied and uppercased.
pub open spec fn nic_handle_yields(suffix: Seq<char>, x: Seq<char>) -> bool {
    exists|nl: nat, nd: nat, b: Seq<char>|
        2 <= nl <= 4 && 1 <= nd <= 5 && #[trigger] bothified(nic_pattern(nl, nd, suffix), b) && x
            == crate::chars::unicode_str_upper(b)
}

/// The segments joined by `/`.
pub open spec fn slashed(segs: Seq<Seq<char>>) -> Seq<char>
    decreases segs.len(),
{
    if segs.len() == 0 {
        Seq::empty()
    } else if segs.len() == 1 {
        segs[0]
    } else {
        slashed(segs.drop_last()) + seq!['/'] + segs.last()
    }
}

/// A host name before lowercasing: prefix, `-`, number and (for `levels` of at least 1)
/// `.` and the domain.
pub open spec fn host_of(pre: Seq<char>, num: Seq<char>, dom: Seq<char>, levels: i64) -> Seq<char> {
    pre + seq!['-'] + num + if levels >= 1 {
        seq!['.'] + dom
    } else {
        dom
    }
}

/// `n` copies of `c`.
pub open spec fn marks(c: char, n: nat) -> Seq<char> {
    Seq::new(n, |i: int| c)
}

/// The `bothify` pattern of a NIC handle.
pub open spec fn nic_pattern(nl: nat, nd: nat, suffix: Seq<char>) -> Seq<char> {
    marks('?', nl) + marks('%', nd) + seq!['-'] + suffix
}

/// The `bothify` pattern of a RIPE id.
pub open spec fn ripe_pattern(nl: nat, nd: nat) -> Seq<char> {
    "ORG-"@ + marks('?', nl) + marks('%', nd) + "-RIPE"@
}

/// A URI: base, path, page and extension.
pub open spec fn uri_join(base: Seq<char>, path: Seq<char>, page: Seq<char>, ext: Seq<char>) -> Seq<char> {
    base + path + page + ext
}

/// The schemes as plain sequences (the default pair when none are given).
pub open spec fn schemes_view(schemes: Option<&[&str]>) -> Seq<Seq<char>> {
    match schemes {
        Some(list) => Seq::new(list@.len(), |i: int| list@[i]@),
        None => seq!["http"@, "https"@],
    }
}

/// The class `c` fits `address_class`: the class it names, else any of 1–3.
pub open spec fn class_fits(address_class: Option<&str>, c: usize) -> bool {
    match class_of(opt_view(address_class)) {
        Some(k) => c == k,
        None => 1 <= c <= 3,
    }
}

/// An optional string as an optional character sequence.
pub open spec fn opt_view(s: Option<&str>) -> Option<Seq<char>> {
    match s {
        Some(v) => Some(v@),
        None => None,
    }
}

/// A URL base: a scheme from the list (none when the list is empty), `://` and a rendered
/// URL template.
pub open spec fn url_base_yields(d: crate::locale::Locale, w: bool, schemes: Seq<Seq<char>>, x: Seq<char>) -> bool {
    exists|scheme: Seq<char>, host: Seq<char>|
        (if schemes.len() == 0 {
            scheme.len() == 0
        } else {
            schemes.contains(scheme)
        }) && renders_from(d.internet.url_formats, w, host, fill_rel(d, w)) && x == #[trigger] (scheme
            + "://"@ + host)
}

/// The text of the first octets of a MAC address.
pub open spec fn mac_prefix(octets: Seq<u8>) -> Seq<char>
    decreases octets.len(),
{
    if octets.len() <= 1 {
        if octets.len() == 1 {
            hex2(octets[0])
        } else {
            Seq::empty()
        }
    } else {
        mac_prefix(octets.drop_last()) + seq![':'] + hex2(octets.last())
    }
}
} // verus!
