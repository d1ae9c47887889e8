//! Faker's `lorem` provider.
use vstd::prelude::*;
use crate::base::{clamp_opt, distinct, div_trunc, flatten, randomize_draw, sample_draw, saturate_i64};
use crate::rng::pcg_draw_u64;
use crate::chars::{chars_of, str_eq};
use crate::error::{invalid, Error, Result};
use crate::generator::{lemma_generator_views, Generator};
use crate::locale::Locale;
use crate::text::{capitalize_first, capitalized, title, title_of};

verus! {

broadcast use lemma_generator_views;

/// Faker would loop forever when no word fits; give up after this many attempts instead.
pub const MAX_TEXT_ATTEMPTS: usize = 10_000;

/// An optional word list as plain sequences.
pub open spec fn ext_view(ext: Option<&[&str]>) -> Option<Seq<Seq<char>>> {
    match ext {
        Some(list) => Some(Seq::new(list@.len(), |i: int| list@[i]@)),
        None => None,
    }
}

/// The strings of a table's items.
pub open spec fn items_view(v: Seq<String>) -> Seq<Seq<char>> {
    Seq::new(v.len(), |i: int| v[i]@)
}

/// The word list to draw from: `ext` if given, else the part of speech (none when the
/// locale does not know it), else all words.
pub open spec fn words_list_of(d: Locale, part: Option<Seq<char>>, ext: Option<Seq<Seq<char>>>) -> Option<Seq<Seq<char>>> {
    match ext {
        Some(words) => Some(words),
        None => match part {
            Some(p) if p.len() > 0 => match d.lorem.parts_of_speech {
                Some(parts) => if exists|i: int| 0 <= i < parts.len() && (#[trigger] parts@[i]).0@ == p {
                    let i = choose|i: int|
                        0 <= i < parts.len() && (#[trigger] parts@[i]).0@ == p && forall|j: int|
                            0 <= j < i ==> (#[trigger] parts@[j]).0@ != p;
                    Some(items_view(parts@[i].1@))
                } else {
                    None
                },
                None => None,
            },
            _ => Some(items_view(d.lorem.word_list.items@)),
        },
    }
}

/// The message for a part of speech the locale does not know.
pub open spec fn unknown_part(part: Option<&str>) -> Seq<char> {
    match part {
        Some(p) => p@ + " is not recognized as a part of speech."@,
        None => Seq::empty(),
    }
}

/// The message when no text of at most `max` characters could be made.
pub open spec fn text_failure(max: int) -> Seq<char> {
    "could not generate text of at most "@ + crate::fmt::decimal(max) + " characters from the word list"@
}

/// The number of items a call asks for: `nb`, or with `variable` `nb` scaled by a random
/// 60–140% (at least 1).
pub open spec fn count_ok(nb: i64, variable: bool, n: i64) -> bool {
    if variable {
        exists|p: int| 60 <= p <= 140 && n == #[trigger] clamp_opt(saturate_i64(div_trunc(nb * p, 100)), Some(1i64), None)
    } else {
        n == nb
    }
}

/// The words of a sentence joined by the connector, the first one title-cased.
pub open spec fn sentence_body(ws: Seq<Seq<char>>, conn: Seq<char>) -> Seq<char>
    decreases ws.len(),
{
    if ws.len() == 0 {
        Seq::empty()
    } else if ws.len() == 1 {
        title_of(ws[0])
    } else {
        sentence_body(ws.drop_last(), conn) + conn + ws.last()
    }
}

/// The items joined by `sep`.
pub open spec fn joined(xs: Seq<Seq<char>>, sep: Seq<char>) -> Seq<char>
    decreases xs.len(),
{
    if xs.len() == 0 {
        Seq::empty()
    } else if xs.len() == 1 {
        xs[0]
    } else {
        joined(xs.drop_last(), sep) + sep + xs.last()
    }
}

/// A sentence of about `nb` words (none for `nb` of 0 or less) from `list`.
pub open spec fn sentence_yields(d: Locale, list: Seq<Seq<char>>, nb: i64, variable: bool, x: Seq<char>) -> bool {
    if nb <= 0 {
        x.len() == 0
    } else {
        exists|n: i64, ws: Seq<Seq<char>>|
            #[trigger] count_ok(nb, variable, n) && ws.len() == draw_count(n) && (forall|i: int|
                0 <= i < ws.len() ==> list.contains(#[trigger] ws[i])) && x == #[trigger] (sentence_body(
                ws,
                d.lorem.word_connector@,
            ) + d.lorem.sentence_punctuation@)
    }
}

/// A paragraph of about `nb` sentences (none for `nb` of 0 or less) from `list`.
pub open spec fn paragraph_yields(d: Locale, list: Seq<Seq<char>>, nb: i64, variable: bool, x: Seq<char>) -> bool {
    if nb <= 0 {
        x.len() == 0
    } else {
        exists|n: i64, ss: Seq<Seq<char>>|
            #[trigger] count_ok(nb, variable, n) && ss.len() == (if n > 0 { n as nat } else { 0 }) && (forall|i: int|
                0 <= i < ss.len() ==> sentence_yields(d, list, 6, true, #[trigger] ss[i])) && x == #[trigger] joined(
                ss,
                d.lorem.word_connector@,
            )
    }
}

/// A piece of `text`: a word below 25 characters, a sentence below 100, else a paragraph.
pub open spec fn body_ok(d: Locale, list: Seq<Seq<char>>, max: i64, x: Seq<char>) -> bool {
    if max < 25 {
        list.contains(x)
    } else if max < 100 {
        sentence_yields(d, list, 6, true, x)
    } else {
        paragraph_yields(d, list, 3, true, x)
    }
}

/// The separator before piece `i` of `text`: none first, then the connector below 100
/// characters, else a newline.
pub open spec fn text_sep(d: Locale, max: i64, i: int) -> Seq<char> {
    if i == 0 {
        Seq::empty()
    } else if max < 100 {
        d.lorem.word_connector@
    } else {
        seq!['\n']
    }
}

/// A text of fewer than `max` characters made of pieces; below 25 characters the first
/// letter is capitalized and the sentence punctuation added.
pub open spec fn text_yields(d: Locale, list: Seq<Seq<char>>, max: i64, x: Seq<char>) -> bool {
    exists|parts: Seq<Seq<char>>|
        parts.len() >= 1 && (forall|i: int|
            0 <= i < parts.len() ==> exists|b: Seq<char>|
                body_ok(d, list, max, b) && #[trigger] parts[i] == text_sep(d, max, i) + b) && flatten(parts).len()
            < max && x == #[trigger] text_shape(d, max, parts)
}

/// The pieces of a text and how they are joined. From 100 characters on: paragraphs, each
/// after the first preceded by a newline. From 25: sentences, each after the first preceded
/// by the word connector. Below 25: words, each after the first preceded by the connector,
/// the first capitalized and the sentence punctuation at the end.
pub proof fn lemma_text_newline_separated(d: Locale, list: Seq<Seq<char>>, max: i64, x: Seq<char>)
    requires
        text_yields(d, list, max, x),
    ensures
        exists|pieces: Seq<Seq<char>>|
            pieces.len() >= 1 && (if max >= 100 {
                &&& x == flatten(pieces)
                &&& paragraph_yields(d, list, 3, true, pieces[0])
                &&& forall|i: int|
                    1 <= i < pieces.len() ==> (#[trigger] pieces[i]).len() >= 1 && pieces[i][0] == '\n'
                        && paragraph_yields(d, list, 3, true, pieces[i].drop_first())
            } else if max >= 25 {
                &&& x == flatten(pieces)
                &&& sentence_yields(d, list, 6, true, pieces[0])
                &&& forall|i: int|
                    1 <= i < pieces.len() ==> #[trigger] pieces[i] == d.lorem.word_connector@ + pieces[i].skip(
                        d.lorem.word_connector@.len() as int,
                    ) && sentence_yields(d, list, 6, true, pieces[i].skip(d.lorem.word_connector@.len() as int))
            } else {
                &&& x == capitalized(pieces[0]) + flatten(pieces.drop_first()) + d.lorem.sentence_punctuation@
                &&& list.contains(pieces[0])
                &&& forall|i: int|
                    1 <= i < pieces.len() ==> #[trigger] pieces[i] == d.lorem.word_connector@ + pieces[i].skip(
                        d.lorem.word_connector@.len() as int,
                    ) && list.contains(pieces[i].skip(d.lorem.word_connector@.len() as int))
            }),
{
    let parts = choose|parts: Seq<Seq<char>>|
        parts.len() >= 1 && (forall|i: int|
            0 <= i < parts.len() ==> exists|b: Seq<char>|
                body_ok(d, list, max, b) && #[trigger] parts[i] == text_sep(d, max, i) + b) && flatten(parts).len()
            < max && x == #[trigger] text_shape(d, max, parts);
    let c = d.lorem.word_connector@;
    assert(body_ok(d, list, max, parts[0])) by {
        let b = choose|b: Seq<char>| body_ok(d, list, max, b) && parts[0] == text_sep(d, max, 0) + b;
        assert(parts[0] == b);
    }
    assert forall|i: int| 1 <= i < parts.len() implies body_ok(
        d,
        list,
        max,
        (#[trigger] parts[i]).skip(text_sep(d, max, i).len() as int),
    ) && parts[i] == text_sep(d, max, i) + parts[i].skip(text_sep(d, max, i).len() as int) by {
        let b = choose|b: Seq<char>| body_ok(d, list, max, b) && parts[i] == text_sep(d, max, i) + b;
        assert(parts[i].skip(text_sep(d, max, i).len() as int) == b);
    }
    if max >= 100 {
        assert forall|i: int| 1 <= i < parts.len() implies (#[trigger] parts[i]).len() >= 1 && parts[i][0] == '\n'
            && paragraph_yields(d, list, 3, true, parts[i].drop_first()) by {
            assert(body_ok(d, list, max, parts[i].skip(1)));
            assert(parts[i] == seq!['\n'] + parts[i].skip(1));
            assert(parts[i].drop_first() == parts[i].skip(1));
        }
    } else if max >= 25 {
        assert forall|i: int| 1 <= i < parts.len() implies #[trigger] parts[i] == c + parts[i].skip(c.len() as int)
            && sentence_yields(d, list, 6, true, parts[i].skip(c.len() as int)) by {
            assert(body_ok(d, list, max, parts[i].skip(c.len() as int)));
        }
    } else {
        assert forall|i: int| 1 <= i < parts.len() implies #[trigger] parts[i] == c + parts[i].skip(c.len() as int)
            && list.contains(parts[i].skip(c.len() as int)) by {
            assert(body_ok(d, list, max, parts[i].skip(c.len() as int)));
        }
    }
}

/// The text made of its pieces.
pub open spec fn text_shape(d: Locale, max: i64, parts: Seq<Seq<char>>) -> Seq<char> {
    if max < 25 {
        capitalized(parts[0]) + flatten(parts.drop_first()) + d.lorem.sentence_punctuation@
    } else {
        flatten(parts)
    }
}

/// The strings as owned values.
fn owned_list(list: &[&str]) -> (r: Vec<String>)
    ensures
        items_view(r@) == Seq::new(list@.len(), |i: int| list@[i]@),
{
    let mut r: Vec<String> = Vec::new();
    for i in 0..list.len()
        invariant
            r.len() == i,
            forall|j: int| 0 <= j < i ==> (#[trigger] r@[j])@ == list@[j]@,
    {
        r.push(list[i].to_owned());
    }
    assert(items_view(r@) =~= Seq::new(list@.len(), |i: int| list@[i]@));
    r
}

impl Generator {
    /// The word list to draw from: `ext_word_list` if given, else the part of speech, else all words.
    #[verifier::spinoff_prover]
    pub fn get_words_list(&self, part_of_speech: Option<&str>, ext_word_list: Option<&[&str]>) -> (r: Result<Vec<String>>)
        ensures
            match words_list_of(
                self.data(),
                match part_of_speech {
                    Some(p) => Some(p@),
                    None => None,
                },
                ext_view(ext_word_list),
            ) {
                Some(words) => r matches Ok(v) && items_view(v@) == words,
                None => r matches Err(Error::InvalidArgument(m)) && m@ == unknown_part(part_of_speech),
            },
    {
        match ext_word_list {
            Some(words) => {
                return Ok(owned_list(words));
            },
            None => {},
        }
        let lorem = &self.locale.lorem;
        let part = match part_of_speech {
            Some(p) => if !p.is_empty() {
                p
            } else {
                return Ok(lorem.word_list.items.clone());
            },
            None => {
                return Ok(lorem.word_list.items.clone());
            },
        };
        let mut msg = part.to_owned();
        msg.append(" is not recognized as a part of speech.");
        match &lorem.parts_of_speech {
            Some(parts) => {
                for i in 0..parts.len()
                    invariant
                        ext_word_list is None,
                        part_of_speech == Some(part),
                        part@.len() > 0,
                        self.data().lorem.parts_of_speech == Some(*parts),
                        forall|j: int| 0 <= j < i ==> (#[trigger] parts@[j]).0@ != part@,
                {
                    if str_eq(parts[i].0.as_str(), part) {
                        proof {
                            let k = choose|k: int|
                                0 <= k < parts.len() && (#[trigger] parts@[k]).0@ == part@ && forall|j: int|
                                    0 <= j < k ==> (#[trigger] parts@[j]).0@ != part@;
                            assert(parts@[i as int].0@ == part@);
                            if k < i {
                                assert(parts@[k].0@ != part@);
                            }
                            if k > i {
                                assert(parts@[i as int].0@ != part@);
                            }
                        }
                        return Ok(parts[i].1.clone());
                    }
                }
                Err(Error::InvalidArgument(msg))
            },
            None => Err(Error::InvalidArgument(msg)),
        }
    }
}


/// Every word of the list has at least one character.
pub open spec fn all_nonempty(list: Seq<Seq<char>>) -> bool {
    forall|i: int| 0 <= i < list.len() ==> (#[trigger] list[i]).len() > 0
}

/// The words list of the locale, or the given one.
pub open spec fn plain_list(d: Locale, ext: Option<&[&str]>) -> Seq<Seq<char>> {
    match ext_view(ext) {
        Some(l) => l,
        None => items_view(d.lorem.word_list.items@),
    }
}

/// How many words are drawn with replacement for a requested `nb`: none for a count
/// that is negative or does not fit in `usize`.
pub open spec fn draw_count(nb: i64) -> nat {
    if 0 < nb && nb <= usize::MAX {
        nb as nat
    } else {
        0
    }
}

/// What `words` may give for list `list`: `nb` words of the list (none for a negative
/// count when drawing with replacement), drawn at distinct positions when `unique`.
pub open spec fn words_yields(list: Seq<Seq<char>>, nb: i64, unique: bool, v: Seq<Seq<char>>) -> bool {
    if unique {
        v.len() == nb && exists|idx: Seq<usize>|
            idx.len() == v.len() && #[trigger] distinct(idx) && forall|j: int|
                0 <= j < v.len() ==> idx[j] < list.len() && v[j] == list[#[trigger] idx[j] as int]
    } else {
        v.len() == draw_count(nb) && forall|j: int| 0 <= j < v.len() ==> list.contains(#[trigger] v[j])
    }
}

/// `(words, next state)` of `n` words drawn one by one from `list` with replacement.
pub open spec fn picks_draw(list: Seq<Seq<char>>, n: nat, state: u128) -> (Seq<Seq<char>>, u128)
    decreases n,
{
    if n == 0 || list.len() == 0 {
        (Seq::empty(), state)
    } else {
        let (first, s1) = picks_draw(list, (n - 1) as nat, state);
        let (v, s2) = pcg_draw_u64(s1, (list.len() - 1) as u64);
        (first.push(list[v as int]), s2)
    }
}

/// `(words, next state)` of `words` on `list` from `state`: the words at distinct drawn
/// positions when `unique`, else `draw_count(nb)` words drawn with replacement.
pub open spec fn words_draw(list: Seq<Seq<char>>, nb: i64, unique: bool, state: u128) -> (Seq<Seq<char>>, u128) {
    if unique {
        let (idx, next) = sample_draw(list.len() as usize, nb as usize, state);
        (idx.map_values(|i: usize| list[i as int]), next)
    } else {
        picks_draw(list, draw_count(nb), state)
    }
}

/// `(sentence, next state)` of `sentence` on `list` from `state`: the count, drawn when
/// `variable`, then that many words, the first title-cased, joined and punctuated.
pub open spec fn sentence_draw(d: Locale, list: Seq<Seq<char>>, nb: i64, variable: bool, state: u128) -> (Seq<char>, u128) {
    if nb <= 0 {
        (Seq::empty(), state)
    } else {
        let (n, s1) = if variable {
            randomize_draw(nb, false, false, Some(1), None, state)
        } else {
            (nb, state)
        };
        let (ws, s2) = picks_draw(list, draw_count(n), s1);
        (sentence_body(ws, d.lorem.word_connector@) + d.lorem.sentence_punctuation@, s2)
    }
}

/// `(sentences, next state)` of `k` sentences of about 6 words drawn in turn from `state`.
pub open spec fn sentences_draw(d: Locale, list: Seq<Seq<char>>, k: nat, state: u128) -> (Seq<Seq<char>>, u128)
    decreases k,
{
    if k == 0 {
        (Seq::empty(), state)
    } else {
        let (first, s1) = sentences_draw(d, list, (k - 1) as nat, state);
        let (x, s2) = sentence_draw(d, list, 6, true, s1);
        (first.push(x), s2)
    }
}

/// `(paragraph, next state)` of `paragraph` on `list` from `state`: the count, drawn when
/// `variable`, then that many sentences joined by the connector.
pub open spec fn paragraph_draw(d: Locale, list: Seq<Seq<char>>, nb: i64, variable: bool, state: u128) -> (Seq<char>, u128) {
    if nb <= 0 {
        (Seq::empty(), state)
    } else {
        let (n, s1) = if variable {
            randomize_draw(nb, false, false, Some(1), None, state)
        } else {
            (nb, state)
        };
        let (ss, s2) = sentences_draw(d, list, if n > 0 { n as nat } else { 0 }, s1);
        (joined(ss, d.lorem.word_connector@), s2)
    }
}

/// `(paragraphs, next state)` of `k` paragraphs of about 3 sentences drawn in turn.
pub open spec fn paragraphs_draw(d: Locale, list: Seq<Seq<char>>, k: nat, state: u128) -> (Seq<Seq<char>>, u128)
    decreases k,
{
    if k == 0 {
        (Seq::empty(), state)
    } else {
        let (first, s1) = paragraphs_draw(d, list, (k - 1) as nat, state);
        let (x, s2) = paragraph_draw(d, list, 3, true, s1);
        (first.push(x), s2)
    }
}

/// `(word, next state)` of one word drawn from a non-empty `list`.
pub open spec fn word_draw(list: Seq<Seq<char>>, state: u128) -> (Seq<char>, u128) {
    let (v, next) = pcg_draw_u64(state, (list.len() - 1) as u64);
    (list[v as int], next)
}

/// `(piece, next state)` of one piece of `text`: a word below 25 characters, a sentence
/// below 100, else a paragraph.
pub open spec fn body_draw(d: Locale, list: Seq<Seq<char>>, max: i64, state: u128) -> (Seq<char>, u128) {
    if max < 25 {
        word_draw(list, state)
    } else if max < 100 {
        sentence_draw(d, list, 6, true, state)
    } else {
        paragraph_draw(d, list, 3, true, state)
    }
}

/// `(parts, next state)` of filling `text` from `parts`: while the parts hold fewer than
/// `limit` characters, a separator and a drawn piece are added.
pub open spec fn fill_draw(d: Locale, list: Seq<Seq<char>>, max: i64, limit: nat, parts: Seq<Seq<char>>, state: u128) -> (Seq<Seq<char>>, u128)
    decreases (if flatten(parts).len() < limit { limit - flatten(parts).len() } else { 0 }),
{
    if flatten(parts).len() >= limit {
        (parts, state)
    } else {
        let (b, next) = body_draw(d, list, max, state);
        let part = text_sep(d, max, parts.len() as int) + b;
        if part.len() == 0 {
            (parts.push(part), next)
        } else {
            proof {
                assert(parts.push(part).drop_last() == parts);
                assert(flatten(parts.push(part)) == flatten(parts) + part);
            }
            fill_draw(d, list, max, limit, parts.push(part), next)
        }
    }
}

/// `(text, next state)` of `text` from `state` with `attempts` fillings left: each filling
/// drops its last part; the first that keeps a part gives the text.
pub open spec fn text_draw(d: Locale, list: Seq<Seq<char>>, max: i64, limit: nat, attempts: nat, state: u128) -> (Option<Seq<char>>, u128)
    decreases attempts,
{
    if attempts == 0 {
        (None, state)
    } else {
        let (all, next) = fill_draw(d, list, max, limit, Seq::empty(), state);
        let kept = all.drop_last();
        if kept.len() == 0 {
            text_draw(d, list, max, limit, (attempts - 1) as nat, next)
        } else {
            (Some(text_shape(d, max, kept)), next)
        }
    }
}

/// The most characters `text` fills: `max` itself, capped at `usize::MAX`.
pub open spec fn text_limit(max: i64) -> nat {
    if max > usize::MAX {
        usize::MAX as nat
    } else if max > 0 {
        max as nat
    } else {
        0
    }
}

/// `(texts, next state)` of `k` texts drawn in turn; `None` once one of them fails.
pub open spec fn texts_draw(d: Locale, list: Seq<Seq<char>>, max: i64, k: nat, state: u128) -> (Option<Seq<Seq<char>>>, u128)
    decreases k,
{
    if k == 0 {
        (Some(Seq::empty()), state)
    } else {
        let (first, s1) = texts_draw(d, list, max, (k - 1) as nat, state);
        match first {
            None => (None, s1),
            Some(f) => {
                let (t, s2) = text_draw(d, list, max, text_limit(max), MAX_TEXT_ATTEMPTS as nat, s1);
                match t {
                    Some(x) => (Some(f.push(x)), s2),
                    None => (None, s2),
                }
            },
        }
    }
}

/// A count of at most 2^31 - 1, scaled by at most 140%, fits in any `usize`.
proof fn lemma_count_small(nb: i64, variable: bool, n: i64)
    requires
        0 < nb <= 0x7fff_ffff,
        count_ok(nb, variable, n),
    ensures
        1 <= n <= 0xffff_ffff,
{
    if variable {
        let p = choose|p: int| 60 <= p <= 140 && n == #[trigger] clamp_opt(saturate_i64(div_trunc(nb * p, 100)), Some(1i64), None);
        assert(0 <= nb * p <= 0x7fff_ffff * 140) by (nonlinear_arith)
            requires
                0 < nb <= 0x7fff_ffff,
                60 <= p <= 140,
        ;
    }
}

impl Generator {
    /// `nb` words, with replacement unless `unique`.
    pub fn words(&mut self, nb: i64, ext_word_list: Option<&[&str]>, part_of_speech: Option<&str>, unique: bool) -> (r: Result<Vec<String>>)
        ensures
            old(self).same_config(final(self)),
            match words_list_of(
                old(self).data(),
                match part_of_speech {
                    Some(p) => Some(p@),
                    None => None,
                },
                ext_view(ext_word_list),
            ) {
                None => r matches Err(Error::InvalidArgument(m)) && m@ == unknown_part(part_of_speech),
                Some(list) => if unique {
                    if nb < 0 || nb > usize::MAX {
                        r matches Err(Error::InvalidArgument(m)) && m@ == "Sample larger than population or is negative"@
                    } else if nb > list.len() {
                        r matches Err(Error::InvalidArgument(m)) && m@
                            == "Sample length cannot be longer than the number of unique elements to pick from."@
                    } else {
                        r matches Ok(v) && words_yields(list, nb, true, items_view(v@))
                    }
                } else {
                    if draw_count(nb) > 0 && list.len() == 0 {
                        r == Err::<Vec<String>, Error>(Error::EmptySequence)
                    } else {
                        r matches Ok(v) && words_yields(list, nb, false, items_view(v@))
                    }
                },
            },
            r is Err ==> final(self).stream().state_view() == old(self).stream().state_view(),
            r matches Ok(v) ==> words_list_of(
                old(self).data(),
                match part_of_speech {
                    Some(p) => Some(p@),
                    None => None,
                },
                ext_view(ext_word_list),
            ) matches Some(list) && (items_view(v@), final(self).stream().state_view()) == words_draw(
                list,
                nb,
                unique,
                old(self).stream().state_view(),
            ),
    {
        let words = match self.get_words_list(part_of_speech, ext_word_list) {
            Ok(w) => w,
            Err(e) => {
                return Err(e);
            },
        };
        let ghost list = items_view(words@);
        if unique {
            if nb < 0 || nb as u128 > usize::MAX as u128 {
                assert(list.len() == words.len());
                assert(nb < 0 || nb > list.len());
                return Err(invalid("Sample larger than population or is negative"));
            }
            let n = nb as usize;
            if n > words.len() {
                return Err(
                    invalid(
                        "Sample length cannot be longer than the number of unique elements to pick from.",
                    ),
                );
            }
            let idx = self.sample_indices(words.len(), n);
            assert(list.len() == words.len());
            let mut out: Vec<String> = Vec::new();
            for j in 0..idx.len()
                invariant
                    idx.len() == n,
                    forall|k: int| 0 <= k < idx.len() ==> #[trigger] idx@[k] < words.len(),
                    out.len() == j,
                    forall|k: int| 0 <= k < j ==> (#[trigger] out@[k])@ == words@[idx@[k] as int]@,
            {
                out.push(words[idx[j]].clone());
            }
            proof {
                let v = items_view(out@);
                assert forall|k: int| 0 <= k < v.len() implies idx@[k] < list.len() && v[k] == list[
                #[trigger] idx@[k] as int] by {}
                assert(words_yields(list, nb, true, v));
                assert(v == idx@.map_values(|i: usize| list[i as int]));
            }
            return Ok(out);
        }
        let n: usize = if nb < 0 || nb as u128 > usize::MAX as u128 {
            0
        } else {
            nb as usize
        };
        if n > 0 && words.len() == 0 {
            return Err(Error::EmptySequence);
        }
        let mut out: Vec<String> = Vec::new();
        let ghost g0 = *old(self);
        let ghost s0 = old(self).stream().state_view();
        assert(n == draw_count(nb));
        for j in 0..n
            invariant
                g0.same_config(self),
                n > 0 ==> words.len() > 0,
                out.len() == j,
                list == items_view(words@),
                forall|k: int| 0 <= k < j ==> items_view(words@).contains(#[trigger] out@[k]@),
                (items_view(out@), self.stream().state_view()) == picks_draw(list, j as nat, s0),
        {
            let ghost before = items_view(out@);
            let i = self.index(words.len());
            out.push(words[i].clone());
            proof {
                assert(items_view(words@)[i as int] == words@[i as int]@);
                assert(items_view(out@) == before.push(list[i as int]));
            }
        }
        proof {
            let v = items_view(out@);
            assert forall|k: int| 0 <= k < v.len() implies list.contains(#[trigger] v[k]) by {
                assert(v[k] == out@[k]@);
            }
        }
        Ok(out)
    }

    /// One word of the list.
    pub fn word(&mut self, part_of_speech: Option<&str>, ext_word_list: Option<&[&str]>) -> (r: Result<String>)
        ensures
            old(self).same_config(final(self)),
            match words_list_of(
                old(self).data(),
                match part_of_speech {
                    Some(p) => Some(p@),
                    None => None,
                },
                ext_view(ext_word_list),
            ) {
                None => r matches Err(Error::InvalidArgument(m)) && m@ == unknown_part(part_of_speech),
                Some(list) => if list.len() == 0 {
                    r == Err::<String, Error>(Error::EmptySequence)
                } else {
                    r matches Ok(w) && list.contains(w@) && (w@, final(self).stream().state_view()) == (
                    list[pcg_draw_u64(old(self).stream().state_view(), (list.len() - 1) as u64).0 as int],
                    pcg_draw_u64(old(self).stream().state_view(), (list.len() - 1) as u64).1)
                },
            },
    {
        let words = match self.get_words_list(part_of_speech, ext_word_list) {
            Ok(w) => w,
            Err(e) => {
                return Err(e);
            },
        };
        if words.len() == 0 {
            return Err(Error::EmptySequence);
        }
        let i = self.index(words.len());
        let w = words[i].clone();
        assert(items_view(words@)[i as int] == w@);
        Ok(w)
    }

    /// A sentence of about `nb_words` words (±40% when `variable_nb_words`): the first
    /// title-cased, joined by the connector, with the sentence punctuation.
    pub fn sentence(&mut self, nb_words: i64, variable_nb_words: bool, ext_word_list: Option<&[&str]>) -> (r: Result<String>)
        ensures
            old(self).same_config(final(self)),
            r is Err ==> nb_words > 0 && plain_list(old(self).data(), ext_word_list).len() == 0,
            0 < nb_words <= 0x7fff_ffff && plain_list(old(self).data(), ext_word_list).len() == 0 ==> r is Err,
            r matches Err(e) ==> e == Error::EmptySequence,
            r matches Ok(x) ==> sentence_yields(old(self).data(), plain_list(old(self).data(), ext_word_list), nb_words, variable_nb_words, x@),
            r matches Ok(x) ==> (0 < nb_words <= 0x7fff_ffff && all_nonempty(plain_list(old(self).data(), ext_word_list))
                ==> x@.len() > 0),
            r matches Ok(x) ==> (x@, final(self).stream().state_view()) == sentence_draw(
                old(self).data(),
                plain_list(old(self).data(), ext_word_list),
                nb_words,
                variable_nb_words,
                old(self).stream().state_view(),
            ),
    {
        proof {
            use_type_invariant(&*self);
        }
        let ghost d = self.data();
        let ghost list = plain_list(d, ext_word_list);
        if nb_words <= 0 {
            return Ok(String::new());
        }
        let n = if variable_nb_words {
            self.randomize_nb_elements(nb_words, false, false, Some(1), None)
        } else {
            nb_words
        };
        proof {
            if nb_words <= 0x7fff_ffff {
                lemma_count_small(nb_words, variable_nb_words, n);
            }
        }
        let words = match self.words(n, ext_word_list, None, false) {
            Ok(w) => w,
            Err(e) => {
                return Err(e);
            },
        };
        let data = self.shared();
        let lorem = &data.lorem;
        let ghost ws = items_view(words@);
        let mut out = String::new();
        for i in 0..words.len()
            invariant
                words.len() == ws.len(),
                ws == items_view(words@),
                out@ == sentence_body(ws.take(i as int), lorem.word_connector@),
                i > 0 && ws[0].len() > 0 ==> out@.len() > 0,
        {
            proof {
                assert(ws.take(i + 1).drop_last() == ws.take(i as int));
                assert(ws.take(i + 1).last() == words@[i as int]@);
            }
            if i == 0 {
                let t = title(words[i].as_str());
                out.append(t.as_str());
                proof {
                    assert(ws.take(1)[0] == words@[0]@);
                }
            } else {
                out.append(lorem.word_connector.as_str());
                out.append(words[i].as_str());
            }
        }
        assert(ws.take(words.len() as int) == ws);
        out.append(lorem.sentence_punctuation.as_str());
        proof {
            assert(count_ok(nb_words, variable_nb_words, n));
            assert(n >= 1);
            if all_nonempty(list) && nb_words <= 0x7fff_ffff {
                lemma_count_small(nb_words, variable_nb_words, n);
                assert(ws.len() > 0);
                assert(list.contains(ws[0]));
            }
        }
        Ok(out)
    }

    /// `nb` sentences of about 6 words (none for `nb` of 0 or less).
    pub fn sentences(&mut self, nb: i64, ext_word_list: Option<&[&str]>) -> (r: Result<Vec<String>>)
        ensures
            old(self).same_config(final(self)),
            r is Err <==> nb > 0 && plain_list(old(self).data(), ext_word_list).len() == 0,
            r matches Err(e) ==> e == Error::EmptySequence,
            r matches Ok(v) ==> v.len() == (if nb > 0 { nb as nat } else { 0 }) && forall|j: int|
                0 <= j < v.len() ==> sentence_yields(
                    old(self).data(),
                    plain_list(old(self).data(), ext_word_list),
                    6,
                    true,
                    #[trigger] v@[j]@,
                ),
            r matches Ok(v) ==> (all_nonempty(plain_list(old(self).data(), ext_word_list)) ==> forall|j: int|
                0 <= j < v.len() ==> (#[trigger] v@[j])@.len() > 0),
            r matches Ok(v) ==> (items_view(v@), final(self).stream().state_view()) == sentences_draw(
                old(self).data(),
                plain_list(old(self).data(), ext_word_list),
                if nb > 0 { nb as nat } else { 0 },
                old(self).stream().state_view(),
            ),
    {
        let ghost d = self.data();
        let ghost list = plain_list(d, ext_word_list);
        let ghost g0 = *old(self);
        let ghost s0 = old(self).stream().state_view();
        let mut v: Vec<String> = Vec::new();
        let mut i: i64 = 0;
        while i < nb
            invariant
                g0 == *old(self),
                g0.same_config(self),
                d == g0.data(),
                list == plain_list(d, ext_word_list),
                0 <= i,
                nb > 0 ==> i <= nb,
                nb <= 0 ==> i == 0,
                i > 0 ==> list.len() > 0,
                v.len() == i,
                forall|j: int| 0 <= j < v.len() ==> sentence_yields(d, list, 6, true, #[trigger] v@[j]@),
                all_nonempty(list) ==> forall|j: int| 0 <= j < v.len() ==> (#[trigger] v@[j])@.len() > 0,
                s0 == g0.stream().state_view(),
                (items_view(v@), self.stream().state_view()) == sentences_draw(d, list, i as nat, s0),
            decreases nb - i,
        {
            let ghost before = items_view(v@);
            match self.sentence(6, true, ext_word_list) {
                Ok(x) => {
                    v.push(x);
                    assert(items_view(v@) == before.push(x@));
                },
                Err(e) => {
                    return Err(e);
                },
            }
            i = i + 1;
        }
        Ok(v)
    }

    /// A paragraph of about `nb_sentences` sentences (±40% when `variable_nb_sentences`),
    /// joined by the connector.
    pub fn paragraph(&mut self, nb_sentences: i64, variable_nb_sentences: bool, ext_word_list: Option<&[&str]>) -> (r: Result<String>)
        ensures
            old(self).same_config(final(self)),
            r is Err <==> nb_sentences > 0 && plain_list(old(self).data(), ext_word_list).len() == 0,
            r matches Err(e) ==> e == Error::EmptySequence,
            r matches Ok(x) ==> paragraph_yields(old(self).data(), plain_list(old(self).data(), ext_word_list), nb_sentences, variable_nb_sentences, x@),
            r matches Ok(x) ==> (nb_sentences > 0 && all_nonempty(plain_list(old(self).data(), ext_word_list)) ==> x@.len() > 0),
            r matches Ok(x) ==> (x@, final(self).stream().state_view()) == paragraph_draw(
                old(self).data(),
                plain_list(old(self).data(), ext_word_list),
                nb_sentences,
                variable_nb_sentences,
                old(self).stream().state_view(),
            ),
    {
        proof {
            use_type_invariant(&*self);
        }
        if nb_sentences <= 0 {
            return Ok(String::new());
        }
        let n = if variable_nb_sentences {
            self.randomize_nb_elements(nb_sentences, false, false, Some(1), None)
        } else {
            nb_sentences
        };
        let sentences = match self.sentences(n, ext_word_list) {
            Ok(v) => v,
            Err(e) => {
                return Err(e);
            },
        };
        let data = self.shared();
        let conn = &data.lorem.word_connector;
        let ghost ss = items_view(sentences@);
        let mut out = String::new();
        for i in 0..sentences.len()
            invariant
                ss == items_view(sentences@),
                out@ == joined(ss.take(i as int), conn@),
                i > 0 && ss[0].len() > 0 ==> out@.len() > 0,
        {
            proof {
                assert(ss.take(i + 1).drop_last() == ss.take(i as int));
            }
            if i > 0 {
                out.append(conn.as_str());
            }
            out.append(sentences[i].as_str());
        }
        assert(ss.take(sentences.len() as int) == ss);
        proof {
            assert(count_ok(nb_sentences, variable_nb_sentences, n));
            assert forall|j: int| 0 <= j < ss.len() implies sentence_yields(
                self.data(),
                plain_list(self.data(), ext_word_list),
                6,
                true,
                #[trigger] ss[j],
            ) by {
                assert(ss[j] == sentences@[j]@);
            }
            if all_nonempty(plain_list(self.data(), ext_word_list)) {
                assert(ss[0] == sentences@[0]@);
            }
        }
        Ok(out)
    }

    /// `nb` paragraphs of about 3 sentences (none for `nb` of 0 or less).
    pub fn paragraphs(&mut self, nb: i64, ext_word_list: Option<&[&str]>) -> (r: Result<Vec<String>>)
        ensures
            old(self).same_config(final(self)),
            r is Err <==> nb > 0 && plain_list(old(self).data(), ext_word_list).len() == 0,
            r matches Err(e) ==> e == Error::EmptySequence,
            r matches Ok(v) ==> v.len() == (if nb > 0 { nb as nat } else { 0 }) && forall|j: int|
                0 <= j < v.len() ==> paragraph_yields(
                    old(self).data(),
                    plain_list(old(self).data(), ext_word_list),
                    3,
                    true,
                    #[trigger] v@[j]@,
                ),
            r matches Ok(v) ==> (items_view(v@), final(self).stream().state_view()) == paragraphs_draw(
                old(self).data(),
                plain_list(old(self).data(), ext_word_list),
                if nb > 0 { nb as nat } else { 0 },
                old(self).stream().state_view(),
            ),
    {
        let ghost d = self.data();
        let ghost list = plain_list(d, ext_word_list);
        let ghost g0 = *old(self);
        let ghost s0 = old(self).stream().state_view();
        let mut v: Vec<String> = Vec::new();
        let mut i: i64 = 0;
        while i < nb
            invariant
                g0 == *old(self),
                g0.same_config(self),
                d == g0.data(),
                list == plain_list(d, ext_word_list),
                0 <= i,
                nb > 0 ==> i <= nb,
                nb <= 0 ==> i == 0,
                i > 0 ==> list.len() > 0,
                v.len() == i,
                forall|j: int| 0 <= j < v.len() ==> paragraph_yields(d, list, 3, true, #[trigger] v@[j]@),
                s0 == g0.stream().state_view(),
                (items_view(v@), self.stream().state_view()) == paragraphs_draw(d, list, i as nat, s0),
            decreases nb - i,
        {
            let ghost before = items_view(v@);
            match self.paragraph(3, true, ext_word_list) {
                Ok(x) => {
                    v.push(x);
                    assert(items_view(v@) == before.push(x@));
                },
                Err(e) => {
                    return Err(e);
                },
            }
            i = i + 1;
        }
        Ok(v)
    }
}

impl Generator {
    /// One piece of `text`: a word below 25 characters, a sentence below 100, else a
    /// paragraph.
    fn text_body(&mut self, max: i64, ext_word_list: Option<&[&str]>) -> (r: Result<String>)
        ensures
            old(self).same_config(final(self)),
            r is Err <==> plain_list(old(self).data(), ext_word_list).len() == 0,
            r matches Err(e) ==> e == Error::EmptySequence,
            r matches Ok(b) ==> body_ok(old(self).data(), plain_list(old(self).data(), ext_word_list), max, b@),
            r matches Ok(b) ==> (all_nonempty(plain_list(old(self).data(), ext_word_list)) ==> b@.len() > 0),
            r matches Ok(b) ==> (b@, final(self).stream().state_view()) == body_draw(
                old(self).data(),
                plain_list(old(self).data(), ext_word_list),
                max,
                old(self).stream().state_view(),
            ),
    {
        if max < 25 {
            self.word(None, ext_word_list)
        } else if max < 100 {
            self.sentence(6, true, ext_word_list)
        } else {
            self.paragraph(3, true, ext_word_list)
        }
    }

    /// Text of fewer than `max_nb_chars` characters (plus, below 25, the sentence
    /// punctuation), built from words (<25), sentences (<100) or paragraphs. Below 5
    /// characters this is an error whatever the word list. From 5 on, the words of an
    /// external list must not be empty: each part has to lengthen the text for the filling
    /// loop to end (with only empty words it would never end).
    pub fn text(&mut self, max_nb_chars: i64, ext_word_list: Option<&[&str]>) -> (r: Result<String>)
        requires
            max_nb_chars >= 5 ==> (ext_word_list matches Some(l) ==> forall|i: int|
                0 <= i < l@.len() ==> (#[trigger] l@[i])@.len() > 0),
        ensures
            old(self).same_config(final(self)),
            max_nb_chars < 5 ==> (r matches Err(Error::InvalidArgument(m)) && m@
                == "text() can only generate text of at least 5 characters"@),
            max_nb_chars >= 5 && plain_list(old(self).data(), ext_word_list).len() == 0 ==> r == Err::<
                String,
                Error,
            >(Error::EmptySequence),
            r matches Ok(x) ==> text_yields(old(self).data(), plain_list(old(self).data(), ext_word_list), max_nb_chars, x@),
            r matches Err(e) ==> (e matches Error::InvalidArgument(m) && m@ == text_failure(max_nb_chars as int)
                && max_nb_chars >= 5) || (max_nb_chars < 5 && e is InvalidArgument) || (e == Error::EmptySequence && plain_list(
                old(self).data(),
                ext_word_list,
            ).len() == 0),
            5 <= max_nb_chars < 25 && plain_list(old(self).data(), ext_word_list).len() > 0 && (forall|i: int|
                0 <= i < plain_list(old(self).data(), ext_word_list).len() ==> (#[trigger] plain_list(
                    old(self).data(),
                    ext_word_list,
                )[i]).len() < max_nb_chars) ==> r is Ok,
            max_nb_chars >= 5 && plain_list(old(self).data(), ext_word_list).len() > 0 ==> match text_draw(
                old(self).data(),
                plain_list(old(self).data(), ext_word_list),
                max_nb_chars,
                text_limit(max_nb_chars),
                MAX_TEXT_ATTEMPTS as nat,
                old(self).stream().state_view(),
            ) {
                (Some(x), next) => r matches Ok(y) && y@ == x && final(self).stream().state_view() == next,
                (None, next) => r matches Err(Error::InvalidArgument(m)) && m@ == text_failure(max_nb_chars as int)
                    && final(self).stream().state_view() == next,
            },
    {
        proof {
            use_type_invariant(&*self);
        }
        if max_nb_chars < 5 {
            return Err(invalid("text() can only generate text of at least 5 characters"));
        }
        let ghost d = self.data();
        let ghost list = plain_list(d, ext_word_list);
        let ghost g0 = *old(self);
        proof {
            assert(all_nonempty(list)) by {
                match ext_word_list {
                    Some(l) => {
                        assert forall|i: int| 0 <= i < list.len() implies (#[trigger] list[i]).len() > 0 by {
                            assert(list[i] == l@[i]@);
                        }
                    },
                    None => {
                        assert forall|i: int| 0 <= i < list.len() implies (#[trigger] list[i]).len() > 0 by {
                            assert(list[i] == d.lorem.word_list.items@[i]@);
                        }
                    },
                }
            }
        }
        proof {
            reveal_strlit("\n");
        }
        let limit: usize = if max_nb_chars as u128 > usize::MAX as u128 {
            usize::MAX
        } else {
            max_nb_chars as usize
        };
        let data = self.shared();
        let connector = &data.lorem.word_connector;
        let punctuation = &data.lorem.sentence_punctuation;
        let ghost lim = text_limit(max_nb_chars);
        let ghost target = text_draw(d, list, max_nb_chars, lim, MAX_TEXT_ATTEMPTS as nat, g0.stream().state_view());
        let mut attempt: usize = 0;
        while attempt < MAX_TEXT_ATTEMPTS
            invariant
                lim == text_limit(max_nb_chars),
                limit as nat == lim,
                target == text_draw(d, list, max_nb_chars, lim, MAX_TEXT_ATTEMPTS as nat, g0.stream().state_view()),
                attempt <= MAX_TEXT_ATTEMPTS,
                text_draw(d, list, max_nb_chars, lim, (MAX_TEXT_ATTEMPTS - attempt) as nat, self.stream().state_view())
                    == target,
                g0 == *old(self),
                g0.same_config(self),
                d == g0.data(),
                *data == d,
                connector == &data.lorem.word_connector,
                punctuation == &data.lorem.sentence_punctuation,
                list == plain_list(d, ext_word_list),
                all_nonempty(list),
                max_nb_chars >= 5,
                limit as int == (if max_nb_chars > usize::MAX { usize::MAX as int } else { max_nb_chars as int }),
                attempt > 0 ==> list.len() > 0,
                attempt > 0 ==> !(max_nb_chars < 25 && forall|i: int| 0 <= i < list.len() ==> (#[trigger] list[i]).len() < max_nb_chars),
            decreases MAX_TEXT_ATTEMPTS - attempt,
        {
            let mut parts: Vec<String> = Vec::new();
            let mut size: u128 = 0;
            let ghost sa = self.stream().state_view();
            assert(items_view(parts@) =~= Seq::<Seq<char>>::empty());
            while size < limit as u128
                invariant
                    limit as nat == lim,
                    fill_draw(d, list, max_nb_chars, lim, items_view(parts@), self.stream().state_view()) == fill_draw(
                        d,
                        list,
                        max_nb_chars,
                        lim,
                        Seq::empty(),
                        sa,
                    ),
                    g0 == *old(self),
                    g0.same_config(self),
                    d == g0.data(),
                    *data == d,
                    connector == &data.lorem.word_connector,
                    list == plain_list(d, ext_word_list),
                    all_nonempty(list),
                    max_nb_chars >= 5,
                    limit as int == (if max_nb_chars > usize::MAX { usize::MAX as int } else { max_nb_chars as int }),
                    parts.len() > 0 ==> list.len() > 0,
                    parts.len() == 0 ==> size == 0,
                    size == flatten(items_view(parts@)).len(),
                    parts.len() > 0 ==> size > 0,
                    parts.len() > 0 ==> flatten(items_view(parts@).drop_last()).len() < limit,
                    forall|i: int| 0 <= i < parts.len() ==> exists|b: Seq<char>|
                        body_ok(d, list, max_nb_chars, b) && #[trigger] items_view(parts@)[i] == text_sep(d, max_nb_chars, i) + b,
                    parts.len() > 0 && max_nb_chars < 25 ==> list.contains(items_view(parts@)[0]),
                decreases if size < limit as u128 { limit as u128 - size } else { 0 },
            {
                let sep: String = if size == 0 {
                    String::new()
                } else if max_nb_chars < 100 {
                    connector.clone()
                } else {
                    "\n".to_owned()
                };
                let body = match self.text_body(max_nb_chars, ext_word_list) {
                    Ok(b) => b,
                    Err(e) => {
                        return Err(e);
                    },
                };
                let mut part = sep;
                part.append(body.as_str());
                let ghost before = items_view(parts@);
                let ghost st = self.stream().state_view();
                let part_len = chars_of(part.as_str()).len();
                assert(part@ == sep@ + body@);
                assert(part_len > 0);
                parts.push(part);
                proof {
                    let after = items_view(parts@);
                    assert(after.drop_last() == before);
                    assert(after.last() == part@);
                    if before.len() == 0 {
                        assert(sep@ == Seq::<char>::empty());
                    } else if max_nb_chars < 100 {
                        assert(sep@ == d.lorem.word_connector@);
                    } else {
                        reveal_strlit("\n");
                        assert(sep@ == seq!['\n']);
                    }
                    assert(text_sep(d, max_nb_chars, before.len() as int) == sep@);
                    assert(after[before.len() as int] == text_sep(d, max_nb_chars, before.len() as int) + body@);
                    assert(after == before.push(part@));
                    assert(flatten(before).len() < lim);
                    assert forall|i: int| 0 <= i < after.len() implies exists|b: Seq<char>|
                        body_ok(d, list, max_nb_chars, b) && #[trigger] after[i] == text_sep(d, max_nb_chars, i) + b by {
                        if i < before.len() {
                            assert(after[i] == before[i]);
                        } else {
                            assert(body_ok(d, list, max_nb_chars, body@));
                        }
                    }
                    if max_nb_chars < 25 {
                        if before.len() == 0 {
                            assert(sep@.len() == 0);
                            assert(after[0] == body@);
                        } else {
                            assert(after[0] == before[0]);
                        }
                    }
                }
                size = size + part_len as u128;
            }
            assert(parts.len() > 0);
            let ghost all = items_view(parts@);
            let _ = parts.pop();
            let ghost kept = items_view(parts@);
            proof {
                assert(kept == all.drop_last());
            }
            if parts.len() == 0 {
                proof {
                    if max_nb_chars < 25 {
                        assert(all.len() == 1);
                        assert(flatten(all) == flatten(all.drop_last()) + all[0]);
                        assert(list.contains(all[0]));
                    }
                }
                attempt = attempt + 1;
                continue;
            }
            let mut out: String;
            if max_nb_chars < 25 {
                out = capitalize_first(parts[0].as_str());
                for i in 1..parts.len()
                    invariant
                        kept == items_view(parts@),
                        parts.len() >= 1,
                        out@ == capitalized(kept[0]) + flatten(kept.subrange(1, i as int)),
                {
                    proof {
                        assert(kept.subrange(1, i + 1).drop_last() == kept.subrange(1, i as int));
                    }
                    out.append(parts[i].as_str());
                }
                out.append(punctuation.as_str());
                proof {
                    assert(kept.subrange(1, parts.len() as int) == kept.drop_first());
                }
            } else {
                out = String::new();
                for i in 0..parts.len()
                    invariant
                        kept == items_view(parts@),
                        out@ == flatten(kept.subrange(0, i as int)),
                {
                    proof {
                        assert(kept.subrange(0, i + 1).drop_last() == kept.subrange(0, i as int));
                    }
                    out.append(parts[i].as_str());
                }
                proof {
                    assert(kept.subrange(0, parts.len() as int) == kept);
                }
            }
            proof {
                assert(out@ == text_shape(d, max_nb_chars, kept));
                assert forall|i: int| 0 <= i < kept.len() implies exists|b: Seq<char>|
                    body_ok(d, list, max_nb_chars, b) && #[trigger] kept[i] == text_sep(d, max_nb_chars, i) + b by {
                    assert(kept[i] == all[i]);
                }
                assert(text_yields(d, list, max_nb_chars, out@));
            }
            return Ok(out);
        }
        let mut msg = "could not generate text of at most ".to_owned();
        crate::fmt::push_decimal(&mut msg, max_nb_chars as i128);
        msg.append(" characters from the word list");
        Err(Error::InvalidArgument(msg))
    }

    /// `nb_texts` texts (none for a count of 0 or less).
    pub fn texts(&mut self, nb_texts: i64, max_nb_chars: i64, ext_word_list: Option<&[&str]>) -> (r: Result<Vec<String>>)
        requires
            max_nb_chars >= 5 ==> (ext_word_list matches Some(l) ==> forall|i: int|
                0 <= i < l@.len() ==> (#[trigger] l@[i])@.len() > 0),
        ensures
            old(self).same_config(final(self)),
            nb_texts <= 0 ==> (r matches Ok(v) && v.len() == 0),
            nb_texts > 0 && max_nb_chars < 5 ==> (r matches Err(Error::InvalidArgument(m)) && m@
                == "text() can only generate text of at least 5 characters"@),
            r matches Ok(v) ==> v.len() == (if nb_texts > 0 { nb_texts as nat } else { 0 }) && forall|j: int|
                0 <= j < v.len() ==> text_yields(
                    old(self).data(),
                    plain_list(old(self).data(), ext_word_list),
                    max_nb_chars,
                    #[trigger] v@[j]@,
                ),
            r matches Ok(v) ==> texts_draw(
                old(self).data(),
                plain_list(old(self).data(), ext_word_list),
                max_nb_chars,
                if nb_texts > 0 { nb_texts as nat } else { 0 },
                old(self).stream().state_view(),
            ) == (Some(items_view(v@)), final(self).stream().state_view()),
    {
        let ghost d = self.data();
        let ghost list = plain_list(d, ext_word_list);
        let ghost g0 = *old(self);
        let mut v: Vec<String> = Vec::new();
        assert(items_view(v@) =~= Seq::<Seq<char>>::empty());
        let mut i: i64 = 0;
        while i < nb_texts
            invariant
                g0 == *old(self),
                g0.same_config(self),
                d == g0.data(),
                list == plain_list(d, ext_word_list),
                max_nb_chars >= 5 ==> (ext_word_list matches Some(l) ==> forall|k: int|
                    0 <= k < l@.len() ==> (#[trigger] l@[k])@.len() > 0),
                0 <= i,
                nb_texts > 0 ==> i <= nb_texts,
                nb_texts <= 0 ==> i == 0,
                v.len() == i,
                i > 0 ==> max_nb_chars >= 5,
                forall|j: int| 0 <= j < v.len() ==> text_yields(d, list, max_nb_chars, #[trigger] v@[j]@),
                texts_draw(d, list, max_nb_chars, i as nat, g0.stream().state_view()) == (
                    Some(items_view(v@)),
                    self.stream().state_view(),
                ),
            decreases nb_texts - i,
        {
            let ghost before = items_view(v@);
            match self.text(max_nb_chars, ext_word_list) {
                Ok(x) => {
                    v.push(x);
                    assert(items_view(v@) == before.push(x@));
                },
                Err(e) => {
                    return Err(e);
                },
            }
            i = i + 1;
        }
        Ok(v)
    }
}
} // verus!
