//! Python string helpers used by the providers: slugify, ASCII folding and title casing.
use vstd::prelude::*;
use unicode_normalization::UnicodeNormalization;
use crate::chars::{
    all_ascii, ascii_alpha, ascii_alphanumeric, ascii_char, ascii_lower, ascii_upper, ascii_whitespace, char_to_lowercase, char_to_uppercase, chars_of, is_alphabetic, is_alphanumeric,
    is_whitespace, push_char, str_to_lowercase, unicode_alphabetic, unicode_alphanumeric,
    unicode_char_lower, unicode_char_upper, unicode_str_lower, unicode_whitespace,
};

verus! {

/// What `unicode_normalization`'s NFKC form yields for a string.
pub uninterp spec fn nfkc_form(s: Seq<char>) -> Seq<char>;

/// What `unicode_normalization`'s NFKD form yields for a string.
pub uninterp spec fn nfkd_form(s: Seq<char>) -> Seq<char>;

/// What `deunicode::deunicode` returns for a string.
pub uninterp spec fn transliterated(s: Seq<char>) -> Seq<char>;

/// NFKC normalization (`UnicodeNormalization::nfkc`), collected.
#[verifier::external_body]
fn nfkc(s: &str) -> (r: Vec<char>)
    ensures
        r@ == nfkc_form(s@),
{
    s.nfkc().collect()
}

/// NFKD normalization (`UnicodeNormalization::nfkd`), collected.
#[verifier::external_body]
fn nfkd(s: &str) -> (r: Vec<char>)
    ensures
        r@ == nfkd_form(s@),
{
    s.nfkd().collect()
}

/// `deunicode::deunicode`: ASCII transliteration. Its documentation guarantees that the
/// output is ASCII and that ASCII characters map to themselves.
#[verifier::external_body]
fn deunicode_str(s: &str) -> (r: String)
    ensures
        r@ == transliterated(s@),
        all_ascii(r@),
        all_ascii(s@) ==> r@ == s@,
{
    deunicode::deunicode(s)
}

/// Python's `str.isspace` set: Unicode white space plus U+001C..U+001F (within ASCII: tab
/// to carriage return, U+001C..U+001F and the space).
pub open spec fn py_space(c: char) -> bool {
    if ascii_char(c) {
        ascii_whitespace(c) || (0x1c <= (c as u32) && (c as u32) <= 0x1f)
    } else {
        unicode_whitespace(c)
    }
}

/// Python regex `\w` in Unicode mode (within ASCII: letters, digits and `_`).
pub open spec fn word_char(c: char) -> bool {
    if ascii_char(c) {
        ascii_alphanumeric(c) || c == '_'
    } else {
        unicode_alphanumeric(c)
    }
}

/// `str::to_lowercase` of `s`: the ASCII mapping on ASCII text.
pub open spec fn lower_of(s: Seq<char>) -> Seq<char> {
    if all_ascii(s) {
        s.map_values(|c: char| ascii_lower(c))
    } else {
        unicode_str_lower(s)
    }
}

/// Python's `str.isspace` for one character.
pub fn is_py_space(c: char) -> (r: bool)
    ensures
        r == py_space(c),
{
    let code = c as u32;
    is_whitespace(c) || (0x1c <= code && code <= 0x1f)
}

/// Python regex `\w` for one character.
pub fn is_word(c: char) -> (r: bool)
    ensures
        r == word_char(c),
{
    is_alphanumeric(c) || c == '_'
}

/// The ASCII form of a string: itself when already ASCII, else its transliteration.
pub open spec fn ascii_form(s: Seq<char>) -> Seq<char> {
    if all_ascii(s) {
        s
    } else {
        transliterated(s)
    }
}

/// Copies a character sequence into a new `String`.
pub fn string_from(v: &Vec<char>) -> (s: String)
    ensures
        s@ == v@,
{
    let mut s = String::new();
    for i in 0..v.len()
        invariant
            s@ == v@.take(i as int),
    {
        push_char(&mut s, v[i]);
        assert(v@.take(i + 1) == v@.take(i as int).push(v@[i as int]));
    }
    assert(v@.take(v.len() as int) == v@);
    s
}

/// Whether every character of `s` is ASCII (`str::is_ascii`).
pub fn str_is_ascii(s: &str) -> (r: bool)
    ensures
        r == all_ascii(s@),
{
    let v = chars_of(s);
    for i in 0..v.len()
        invariant
            v@ == s@,
            forall|j: int| 0 <= j < i ==> ascii_char(#[trigger] v@[j]),
    {
        if (v[i] as u32) >= 128 {
            return false;
        }
    }
    true
}

/// Transliterates to ASCII, like Faker's `unidecode`. ASCII input is returned as-is.
pub fn to_ascii(value: &str) -> (r: String)
    ensures
        r@ == ascii_form(value@),
        all_ascii(r@),
{
    if str_is_ascii(value) {
        value.to_owned()
    } else {
        deunicode_str(value)
    }
}

/// The characters that `slugify` keeps.
pub open spec fn slug_keeps(c: char) -> bool {
    word_char(c) || py_space(c) || c == '-'
}

/// `s` without the characters that fail `slug_keeps`.
pub open spec fn slug_filter(s: Seq<char>) -> Seq<char>
    decreases s.len(),
{
    if s.len() == 0 {
        s
    } else if slug_keeps(s.last()) {
        slug_filter(s.drop_last()).push(s.last())
    } else {
        slug_filter(s.drop_last())
    }
}

/// `s` without its non-ASCII characters.
pub open spec fn ascii_filter(s: Seq<char>) -> Seq<char>
    decreases s.len(),
{
    if s.len() == 0 {
        s
    } else if ascii_char(s.last()) {
        ascii_filter(s.drop_last()).push(s.last())
    } else {
        ascii_filter(s.drop_last())
    }
}

/// `s` without its leading white space.
pub open spec fn strip_leading(s: Seq<char>) -> Seq<char>
    decreases s.len(),
{
    if s.len() > 0 && py_space(s[0]) {
        strip_leading(s.drop_first())
    } else {
        s
    }
}

/// `s` without its trailing white space.
pub open spec fn strip_trailing(s: Seq<char>) -> Seq<char>
    decreases s.len(),
{
    if s.len() > 0 && py_space(s.last()) {
        strip_trailing(s.drop_last())
    } else {
        s
    }
}

/// A hyphen or white space: the characters that collapse into one `-`.
pub open spec fn slug_separator(c: char) -> bool {
    c == '-' || py_space(c)
}

/// Each run of separators replaced by a single `-`.
pub open spec fn collapse_separators(s: Seq<char>) -> Seq<char>
    decreases s.len(),
{
    if s.len() == 0 {
        s
    } else if slug_separator(s.last()) {
        if s.len() >= 2 && slug_separator(s[s.len() - 2]) {
            collapse_separators(s.drop_last())
        } else {
            collapse_separators(s.drop_last()).push('-')
        }
    } else {
        collapse_separators(s.drop_last()).push(s.last())
    }
}

/// The normalization step of `slugify`.
pub open spec fn slug_normalized(value: Seq<char>, allow_unicode: bool) -> Seq<char> {
    if all_ascii(value) {
        value
    } else if allow_unicode {
        nfkc_form(value)
    } else {
        ascii_filter(nfkd_form(value))
    }
}

/// Faker's `slugify`, as a function of the input.
pub open spec fn slug_of(value: Seq<char>, allow_unicode: bool) -> Seq<char> {
    let kept = slug_filter(slug_normalized(value, allow_unicode));
    collapse_separators(lower_of(strip_trailing(strip_leading(kept))))
}

fn keep_ascii(v: &Vec<char>) -> (r: Vec<char>)
    ensures
        r@ == ascii_filter(v@),
{
    let mut r: Vec<char> = Vec::new();
    for i in 0..v.len()
        invariant
            r@ == ascii_filter(v@.take(i as int)),
    {
        assert(v@.take(i + 1).drop_last() == v@.take(i as int));
        if (v[i] as u32) < 128 {
            r.push(v[i]);
        }
    }
    assert(v@.take(v.len() as int) == v@);
    r
}

fn keep_slug_chars(v: &Vec<char>) -> (r: Vec<char>)
    ensures
        r@ == slug_filter(v@),
{
    let mut r: Vec<char> = Vec::new();
    for i in 0..v.len()
        invariant
            r@ == slug_filter(v@.take(i as int)),
    {
        assert(v@.take(i + 1).drop_last() == v@.take(i as int));
        let c = v[i];
        if is_word(c) || is_py_space(c) || c == '-' {
            r.push(c);
        }
    }
    assert(v@.take(v.len() as int) == v@);
    r
}

proof fn lemma_strip_leading_skip(s: Seq<char>, i: int)
    requires
        0 <= i <= s.len(),
        forall|j: int| 0 <= j < i ==> py_space(#[trigger] s[j]),
    ensures
        strip_leading(s) == strip_leading(s.subrange(i, s.len() as int)),
    decreases i,
{
    if i > 0 {
        assert(s.drop_first() == s.subrange(1, s.len() as int));
        lemma_strip_leading_skip(s.drop_first(), i - 1);
        assert(s.drop_first().subrange(i - 1, s.drop_first().len() as int) == s.subrange(i, s.len() as int));
    } else {
        assert(s.subrange(0, s.len() as int) == s);
    }
}

proof fn lemma_strip_trailing_cut(s: Seq<char>, k: int)
    requires
        0 <= k <= s.len(),
        forall|j: int| k <= j < s.len() ==> py_space(#[trigger] s[j]),
    ensures
        strip_trailing(s) == strip_trailing(s.subrange(0, k)),
    decreases s.len() - k,
{
    if k < s.len() {
        assert(s.drop_last() == s.subrange(0, s.len() - 1));
        lemma_strip_trailing_cut(s.drop_last(), k);
        assert(s.drop_last().subrange(0, k) == s.subrange(0, k));
    } else {
        assert(s.subrange(0, s.len() as int) == s);
    }
}

/// `v` without leading and trailing white space.
fn trim_spaces(v: &Vec<char>) -> (r: Vec<char>)
    ensures
        r@ == strip_trailing(strip_leading(v@)),
{
    let n = v.len();
    let mut start: usize = 0;
    while start < n && is_py_space(v[start])
        invariant
            start <= n,
            n == v.len(),
            forall|j: int| 0 <= j < start ==> py_space(#[trigger] v@[j]),
        decreases n - start,
    {
        start = start + 1;
    }
    proof {
        lemma_strip_leading_skip(v@, start as int);
    }
    let ghost rest = v@.subrange(start as int, n as int);
    assert(strip_leading(rest) == rest);
    let mut end: usize = n;
    while end > start && is_py_space(v[end - 1])
        invariant
            start <= end <= n,
            n == v.len(),
            rest == v@.subrange(start as int, n as int),
            forall|j: int| end <= j < n ==> py_space(#[trigger] v@[j]),
        decreases end,
    {
        end = end - 1;
    }
    proof {
        assert forall|j: int| end - start <= j < rest.len() implies py_space(#[trigger] rest[j]) by {
            assert(rest[j] == v@[j + start]);
        }
        lemma_strip_trailing_cut(rest, end - start);
        let t = rest.subrange(0, end - start);
        if t.len() > 0 {
            assert(t.last() == v@[end - 1]);
        }
        assert(strip_trailing(t) == t);
    }
    let mut r: Vec<char> = Vec::new();
    let mut i = start;
    while i < end
        invariant
            start <= i <= end <= n,
            n == v.len(),
            r@ == v@.subrange(start as int, i as int),
        decreases end - i,
    {
        r.push(v[i]);
        i = i + 1;
    }
    assert(r@ == rest.subrange(0, end - start));
    r
}

fn collapse(v: &Vec<char>) -> (r: Vec<char>)
    ensures
        r@ == collapse_separators(v@),
{
    let mut r: Vec<char> = Vec::new();
    let mut in_separator = false;
    for i in 0..v.len()
        invariant
            r@ == collapse_separators(v@.take(i as int)),
            in_separator == (i > 0 && slug_separator(v@[i - 1])),
    {
        let ghost t = v@.take(i + 1);
        assert(t.drop_last() == v@.take(i as int));
        let c = v[i];
        if c == '-' || is_py_space(c) {
            if !in_separator {
                r.push('-');
                in_separator = true;
            }
        } else {
            in_separator = false;
            r.push(c);
        }
    }
    assert(v@.take(v.len() as int) == v@);
    r
}

/// Faker's `slugify`: normalize, drop characters other than word characters, whitespace
/// and hyphens, trim, lowercase, and collapse runs of hyphens/whitespace to one `-`.
pub fn slugify(value: &str, allow_unicode: bool) -> (r: String)
    ensures
        r@ == slug_of(value@, allow_unicode),
        !allow_unicode ==> forall|i: int| 0 <= i < r@.len() ==> slug_safe(#[trigger] r@[i]),
        !allow_unicode && all_ascii(value@) ==> word_chars(r@) == word_chars(value@).map_values(
            |c: char| ascii_lower(c),
        ),
{
    let normalized: Vec<char> = if str_is_ascii(value) {
        chars_of(value)
    } else if allow_unicode {
        nfkc(value)
    } else {
        keep_ascii(&nfkd(value))
    };
    let kept = keep_slug_chars(&normalized);
    let trimmed = string_from(&trim_spaces(&kept));
    let lowered = str_to_lowercase(trimmed.as_str());
    let out = collapse(&chars_of(lowered.as_str()));
    proof {
        lemma_slug_charset(value@);
        if all_ascii(value@) {
            lemma_slug_keeps_words(value@);
        }
    }
    string_from(&out)
}

/// No `-` follows another `-`.
pub open spec fn no_double_dash(s: Seq<char>) -> bool {
    forall|i: int| 0 <= i < s.len() - 1 ==> !(#[trigger] s[i] == '-' && s[i + 1] == '-')
}

/// A character that a slug made without Unicode holds: ASCII, kept by the filter, neither
/// white space nor an upper-case letter.
pub open spec fn slug_char(c: char) -> bool {
    &&& ascii_char(c)
    &&& slug_keeps(c)
    &&& !py_space(c)
    &&& !('A' <= c && c <= 'Z')
}

proof fn lemma_ascii_filter_ascii(s: Seq<char>)
    ensures
        all_ascii(ascii_filter(s)),
    decreases s.len(),
{
    if s.len() > 0 {
        lemma_ascii_filter_ascii(s.drop_last());
    }
}

proof fn lemma_slug_filter_keeps(s: Seq<char>)
    ensures
        forall|i: int| 0 <= i < slug_filter(s).len() ==> slug_keeps(#[trigger] slug_filter(s)[i]),
        all_ascii(s) ==> all_ascii(slug_filter(s)),
    decreases s.len(),
{
    if s.len() > 0 {
        let t = s.drop_last();
        lemma_slug_filter_keeps(t);
        let ft = slug_filter(t);
        let f = slug_filter(s);
        if all_ascii(s) {
            assert forall|i: int| 0 <= i < t.len() implies ascii_char(#[trigger] t[i]) by {
                assert(t[i] == s[i]);
            }
        }
        if slug_keeps(s.last()) {
            assert(f == ft.push(s.last()));
            assert forall|i: int| 0 <= i < f.len() implies slug_keeps(#[trigger] f[i]) by {
                if i < ft.len() {
                    assert(f[i] == ft[i]);
                }
            }
            if all_ascii(s) {
                assert(ascii_char(s[s.len() - 1]));
                assert forall|i: int| 0 <= i < f.len() implies ascii_char(#[trigger] f[i]) by {
                    if i < ft.len() {
                        assert(f[i] == ft[i]);
                    }
                }
            }
        } else {
            assert(f == ft);
        }
    }
}

proof fn lemma_slug_filter_same(s: Seq<char>)
    requires
        forall|i: int| 0 <= i < s.len() ==> slug_keeps(#[trigger] s[i]),
    ensures
        slug_filter(s) == s,
    decreases s.len(),
{
    if s.len() > 0 {
        lemma_slug_filter_same(s.drop_last());
        assert(s.drop_last().push(s.last()) =~= s);
    }
}

proof fn lemma_strip_leading_keeps(s: Seq<char>, p: spec_fn(char) -> bool)
    requires
        forall|i: int| 0 <= i < s.len() ==> p(#[trigger] s[i]),
    ensures
        forall|i: int| 0 <= i < strip_leading(s).len() ==> p(#[trigger] strip_leading(s)[i]),
    decreases s.len(),
{
    if s.len() > 0 && py_space(s[0]) {
        assert forall|i: int| 0 <= i < s.drop_first().len() implies p(#[trigger] s.drop_first()[i]) by {
            assert(s.drop_first()[i] == s[i + 1]);
        }
        lemma_strip_leading_keeps(s.drop_first(), p);
        assert(strip_leading(s) == strip_leading(s.drop_first()));
    } else {
        assert(strip_leading(s) == s);
    }
}

proof fn lemma_strip_trailing_keeps(s: Seq<char>, p: spec_fn(char) -> bool)
    requires
        forall|i: int| 0 <= i < s.len() ==> p(#[trigger] s[i]),
    ensures
        forall|i: int| 0 <= i < strip_trailing(s).len() ==> p(#[trigger] strip_trailing(s)[i]),
    decreases s.len(),
{
    if s.len() > 0 && py_space(s.last()) {
        assert forall|i: int| 0 <= i < s.drop_last().len() implies p(#[trigger] s.drop_last()[i]) by {
            assert(s.drop_last()[i] == s[i]);
        }
        lemma_strip_trailing_keeps(s.drop_last(), p);
        assert(strip_trailing(s) == strip_trailing(s.drop_last()));
    } else {
        assert(strip_trailing(s) == s);
    }
}

/// What `collapse_separators` writes: `-` for each run of separators, other characters as
/// they are, no `-` after a `-`, and a last character that follows the input's.
proof fn lemma_collapse_shape(s: Seq<char>)
    ensures
        forall|i: int| 0 <= i < collapse_separators(s).len() ==> #[trigger] collapse_separators(s)[i] == '-' || (
            !slug_separator(collapse_separators(s)[i]) && s.contains(collapse_separators(s)[i])),
        no_double_dash(collapse_separators(s)),
        s.len() > 0 ==> collapse_separators(s).len() > 0 && collapse_separators(s).last() == (if slug_separator(
            s.last(),
        ) {
            '-'
        } else {
            s.last()
        }),
    decreases s.len(),
{
    if s.len() > 0 {
        let t = s.drop_last();
        lemma_collapse_shape(t);
        let ct = collapse_separators(t);
        let c = collapse_separators(s);
        assert forall|x: char| t.contains(x) implies s.contains(x) by {
            let k = choose|k: int| 0 <= k < t.len() && t[k] == x;
            assert(s[k] == x);
        }
        assert(s.contains(s.last())) by {
            assert(s[s.len() - 1] == s.last());
        }
        if slug_separator(s.last()) {
            if s.len() >= 2 && slug_separator(s[s.len() - 2]) {
                assert(t.last() == s[s.len() - 2]);
            } else {
                assert(c == ct.push('-'));
                if t.len() > 0 {
                    assert(t.last() == s[s.len() - 2]);
                    assert(ct.last() != '-');
                }
                assert forall|i: int| 0 <= i < c.len() - 1 implies !(#[trigger] c[i] == '-' && c[i + 1] == '-') by {
                    if i < ct.len() - 1 {
                        assert(c[i] == ct[i] && c[i + 1] == ct[i + 1]);
                    } else {
                        assert(c[i] == ct.last());
                    }
                }
            }
        } else {
            assert(c == ct.push(s.last()));
            assert forall|i: int| 0 <= i < c.len() - 1 implies !(#[trigger] c[i] == '-' && c[i + 1] == '-') by {
                if i < ct.len() - 1 {
                    assert(c[i] == ct[i] && c[i + 1] == ct[i + 1]);
                } else {
                    assert(c[i + 1] == s.last());
                }
            }
        }
    }
}

proof fn lemma_collapse_same(s: Seq<char>)
    requires
        forall|i: int| 0 <= i < s.len() ==> !py_space(#[trigger] s[i]),
        no_double_dash(s),
    ensures
        collapse_separators(s) == s,
    decreases s.len(),
{
    if s.len() > 0 {
        let t = s.drop_last();
        assert forall|i: int| 0 <= i < t.len() - 1 implies !(#[trigger] t[i] == '-' && t[i + 1] == '-') by {
            assert(t[i] == s[i] && t[i + 1] == s[i + 1]);
        }
        lemma_collapse_same(t);
        if s.len() >= 2 {
            assert(s[s.len() - 2] == s[s.len() - 2]);
            assert(!(s[s.len() - 2] == '-' && s[s.len() - 2 + 1] == '-'));
        }
        assert(t.push(s.last()) =~= s);
    }
}

/// What a slug made without Unicode holds: only slug characters, and no `-` after a `-`.
proof fn lemma_slug_shape(value: Seq<char>)
    ensures
        forall|i: int| 0 <= i < slug_of(value, false).len() ==> slug_char(#[trigger] slug_of(value, false)[i]),
        no_double_dash(slug_of(value, false)),
{
    let n = slug_normalized(value, false);
    if !all_ascii(value) {
        lemma_ascii_filter_ascii(nfkd_form(value));
    }
    assert(all_ascii(n));
    let f = slug_filter(n);
    lemma_slug_filter_keeps(n);
    let p = |c: char| ascii_char(c) && slug_keeps(c);
    assert forall|i: int| 0 <= i < f.len() implies p(#[trigger] f[i]) by {}
    let a = strip_leading(f);
    lemma_strip_leading_keeps(f, p);
    let b = strip_trailing(a);
    lemma_strip_trailing_keeps(a, p);
    assert(all_ascii(b)) by {
        assert forall|i: int| 0 <= i < b.len() implies ascii_char(#[trigger] b[i]) by {
            assert(p(b[i]));
        }
    }
    let l = lower_of(b);
    assert(l == b.map_values(|c: char| ascii_lower(c)));
    assert forall|i: int| 0 <= i < l.len() implies #[trigger] l[i] != '-' ==> (ascii_char(l[i]) && slug_keeps(l[i])
        && !('A' <= l[i] && l[i] <= 'Z')) by {
        assert(p(b[i]));
        assert(l[i] == ascii_lower(b[i]));
    }
    let y = collapse_separators(l);
    lemma_collapse_shape(l);
    assert forall|i: int| 0 <= i < y.len() implies slug_char(#[trigger] y[i]) by {
        if y[i] != '-' {
            let k = choose|k: int| 0 <= k < l.len() && l[k] == y[i];
            assert(l[k] != '-');
        }
    }
}

/// A character a slug made without Unicode may hold: a lower-case ASCII letter, an ASCII
/// digit, `_` or `-`.
pub open spec fn slug_safe(c: char) -> bool {
    ('a' <= c && c <= 'z') || ('0' <= c && c <= '9') || c == '_' || c == '-'
}

/// A slug made without Unicode holds only lower-case ASCII letters, digits, `_` and `-`:
/// punctuation, white space and upper-case letters never survive, and no `-` follows
/// another.
pub proof fn lemma_slug_charset(value: Seq<char>)
    ensures
        forall|i: int| 0 <= i < slug_of(value, false).len() ==> slug_safe(#[trigger] slug_of(value, false)[i]),
        forall|i: int| 0 <= i < slug_of(value, false).len() - 1 ==> !(#[trigger] slug_of(value, false)[i] == '-'
            && slug_of(value, false)[i + 1] == '-'),
{
    lemma_slug_shape(value);
    let y = slug_of(value, false);
    assert forall|i: int| 0 <= i < y.len() implies slug_safe(#[trigger] y[i]) by {
        assert(slug_char(y[i]));
    }
}

/// An ASCII letter, digit or `_`: the characters a slug keeps from ASCII text.
pub open spec fn slug_word(c: char) -> bool {
    ('a' <= c && c <= 'z') || ('A' <= c && c <= 'Z') || ('0' <= c && c <= '9') || c == '_'
}

/// `slug_word` as a predicate.
pub open spec fn slug_word_pred() -> spec_fn(char) -> bool {
    |c: char| slug_word(c)
}

/// The ASCII letters, digits and `_` of `s`, in order.
pub open spec fn word_chars(s: Seq<char>) -> Seq<char> {
    s.filter(slug_word_pred())
}

proof fn lemma_word_chars_push(s: Seq<char>, c: char)
    ensures
        word_chars(s.push(c)) == if slug_word(c) {
            word_chars(s).push(c)
        } else {
            word_chars(s)
        },
{
    s.lemma_filter_push(c, slug_word_pred());
}

proof fn lemma_word_chars_cons(c: char, s: Seq<char>)
    ensures
        word_chars(seq![c] + s) == if slug_word(c) {
            seq![c] + word_chars(s)
        } else {
            word_chars(s)
        },
{
    Seq::filter_distributes_over_add(seq![c], s, slug_word_pred());
    Seq::<char>::empty().lemma_filter_push(c, slug_word_pred());
    assert(Seq::<char>::empty().push(c) == seq![c]);
    reveal(Seq::filter);
    assert(Seq::<char>::empty().filter(slug_word_pred()) == Seq::<char>::empty());
}

proof fn lemma_word_chars_filter(s: Seq<char>)
    ensures
        word_chars(slug_filter(s)) == word_chars(s),
    decreases s.len(),
{
    if s.len() > 0 {
        let t = s.drop_last();
        let c = s.last();
        lemma_word_chars_filter(t);
        assert(t.push(c) == s);
        lemma_word_chars_push(t, c);
        if slug_keeps(c) {
            lemma_word_chars_push(slug_filter(t), c);
        } else {
            assert(!slug_word(c));
        }
    }
}

proof fn lemma_word_chars_strip_leading(s: Seq<char>)
    ensures
        word_chars(strip_leading(s)) == word_chars(s),
    decreases s.len(),
{
    if s.len() > 0 && py_space(s[0]) {
        lemma_word_chars_strip_leading(s.drop_first());
        assert(seq![s[0]] + s.drop_first() == s);
        lemma_word_chars_cons(s[0], s.drop_first());
    }
}

proof fn lemma_word_chars_strip_trailing(s: Seq<char>)
    ensures
        word_chars(strip_trailing(s)) == word_chars(s),
    decreases s.len(),
{
    if s.len() > 0 && py_space(s.last()) {
        lemma_word_chars_strip_trailing(s.drop_last());
        assert(s.drop_last().push(s.last()) == s);
        lemma_word_chars_push(s.drop_last(), s.last());
    }
}

proof fn lemma_word_chars_lower(s: Seq<char>)
    ensures
        word_chars(s.map_values(|c: char| ascii_lower(c))) == word_chars(s).map_values(|c: char| ascii_lower(c)),
    decreases s.len(),
{
    if s.len() > 0 {
        let t = s.drop_last();
        let c = s.last();
        lemma_word_chars_lower(t);
        assert(t.push(c) == s);
        assert(s.map_values(|c: char| ascii_lower(c)) == t.map_values(|c: char| ascii_lower(c)).push(ascii_lower(c)));
        lemma_word_chars_push(t, c);
        lemma_word_chars_push(t.map_values(|c: char| ascii_lower(c)), ascii_lower(c));
        assert(slug_word(ascii_lower(c)) == slug_word(c));
        if slug_word(c) {
            assert(word_chars(t).push(c).map_values(|c: char| ascii_lower(c)) == word_chars(t).map_values(
                |c: char| ascii_lower(c),
            ).push(ascii_lower(c)));
        }
    }
}

proof fn lemma_word_chars_collapse(s: Seq<char>)
    ensures
        word_chars(collapse_separators(s)) == word_chars(s),
    decreases s.len(),
{
    if s.len() > 0 {
        let t = s.drop_last();
        let c = s.last();
        lemma_word_chars_collapse(t);
        assert(t.push(c) == s);
        lemma_word_chars_push(t, c);
        if slug_separator(c) {
            assert(!slug_word(c));
            if !(s.len() >= 2 && slug_separator(s[s.len() - 2])) {
                lemma_word_chars_push(collapse_separators(t), '-');
            }
        } else {
            lemma_word_chars_push(collapse_separators(t), c);
        }
    }
}

/// A slug of ASCII text keeps every letter, digit and `_` of the text, lowercased and in
/// order, and nothing else of that kind: only separators are dropped or rewritten.
pub proof fn lemma_slug_keeps_words(value: Seq<char>)
    requires
        all_ascii(value),
    ensures
        word_chars(slug_of(value, false)) == word_chars(value).map_values(|c: char| ascii_lower(c)),
{
    let f = slug_filter(value);
    lemma_slug_filter_keeps(value);
    let p = |c: char| ascii_char(c);
    let a = strip_leading(f);
    lemma_strip_leading_keeps(f, p);
    let b = strip_trailing(a);
    lemma_strip_trailing_keeps(a, p);
    assert(all_ascii(b)) by {
        assert forall|i: int| 0 <= i < b.len() implies ascii_char(#[trigger] b[i]) by {
            assert(p(b[i]));
        }
    }
    let l = lower_of(b);
    assert(l == b.map_values(|c: char| ascii_lower(c)));
    lemma_word_chars_collapse(l);
    lemma_word_chars_lower(b);
    lemma_word_chars_strip_trailing(a);
    lemma_word_chars_strip_leading(f);
    lemma_word_chars_filter(value);
}

/// `slugify` without Unicode is idempotent: the slug of a slug is that slug.
pub proof fn lemma_slugify_idempotent(value: Seq<char>)
    ensures
        slug_of(slug_of(value, false), false) == slug_of(value, false),
{
    let y = slug_of(value, false);
    lemma_slug_shape(value);
    assert(all_ascii(y)) by {
        assert forall|i: int| 0 <= i < y.len() implies ascii_char(#[trigger] y[i]) by {
            assert(slug_char(y[i]));
        }
    }
    assert(slug_normalized(y, false) == y);
    lemma_slug_filter_same(y);
    assert(strip_leading(y) == y);
    assert(strip_trailing(y) == y);
    assert(lower_of(y) =~= y) by {
        let m = y.map_values(|c: char| ascii_lower(c));
        assert forall|i: int| 0 <= i < y.len() implies #[trigger] m[i] == y[i] by {
            assert(slug_char(y[i]));
        }
    }
    lemma_collapse_same(y);
}

/// `char::is_alphabetic` of `c`: the ASCII letters within ASCII.
pub open spec fn alphabetic_of(c: char) -> bool {
    if ascii_char(c) {
        ascii_alpha(c)
    } else {
        unicode_alphabetic(c)
    }
}

/// `char::to_lowercase` of `c`: one ASCII character within ASCII.
pub open spec fn char_lower_of(c: char) -> Seq<char> {
    if ascii_char(c) {
        seq![ascii_lower(c)]
    } else {
        unicode_char_lower(c)
    }
}

/// `char::to_uppercase` of `c`: one ASCII character within ASCII.
pub open spec fn char_upper_of(c: char) -> Seq<char> {
    if ascii_char(c) {
        seq![ascii_upper(c)]
    } else {
        unicode_char_upper(c)
    }
}

/// Python's `str.title` of `s`: each character lowercased after a letter, uppercased
/// otherwise.
pub open spec fn title_of(s: Seq<char>) -> Seq<char>
    decreases s.len(),
{
    if s.len() == 0 {
        s
    } else {
        let c = s.last();
        let piece = if s.len() >= 2 && alphabetic_of(s[s.len() - 2]) {
            char_lower_of(c)
        } else {
            char_upper_of(c)
        };
        title_of(s.drop_last()) + piece
    }
}

/// On ASCII text, title case keeps the length.
pub proof fn lemma_title_ascii_len(s: Seq<char>)
    requires
        all_ascii(s),
    ensures
        title_of(s).len() == s.len(),
    decreases s.len(),
{
    if s.len() > 0 {
        assert(ascii_char(s[s.len() - 1]));
        assert(all_ascii(s.drop_last())) by {
            assert forall|i: int| 0 <= i < s.drop_last().len() implies ascii_char(
                #[trigger] s.drop_last()[i],
            ) by {
                assert(ascii_char(s[i]));
            }
        }
        lemma_title_ascii_len(s.drop_last());
    }
}

/// Python's `str.title`: uppercase letters that follow a non-letter, lowercase the rest.
pub fn title(value: &str) -> (r: String)
    ensures
        r@ == title_of(value@),
        value@.len() > 0 ==> r@.len() > 0,
        all_ascii(value@) ==> r@.len() == value@.len(),
{
    let v = chars_of(value);
    let mut out: Vec<char> = Vec::new();
    let mut previous_is_letter = false;
    for i in 0..v.len()
        invariant
            v@ == value@,
            out@ == title_of(v@.take(i as int)),
            i > 0 ==> out@.len() > 0,
            previous_is_letter == (i > 0 && alphabetic_of(v@[i - 1])),
    {
        let c = v[i];
        let mut piece = if previous_is_letter {
            char_to_lowercase(c)
        } else {
            char_to_uppercase(c)
        };
        assert(v@.take(i + 1).drop_last() == v@.take(i as int));
        out.append(&mut piece);
        previous_is_letter = is_alphabetic(c);
    }
    assert(v@.take(v.len() as int) == v@);
    proof {
        if all_ascii(value@) {
            lemma_title_ascii_len(value@);
        }
    }
    string_from(&out)
}

/// The first character uppercased, the rest unchanged.
pub open spec fn capitalized(s: Seq<char>) -> Seq<char> {
    if s.len() == 0 {
        s
    } else {
        char_upper_of(s[0]) + s.drop_first()
    }
}

/// Uppercases only the first character, leaving the rest unchanged.
pub fn capitalize_first(value: &str) -> (r: String)
    ensures
        r@ == capitalized(value@),
{
    let v = chars_of(value);
    if v.len() == 0 {
        return String::new();
    }
    let mut out = char_to_uppercase(v[0]);
    for i in 1..v.len()
        invariant
            v@ == value@,
            v.len() >= 1,
            out@ == char_upper_of(v@[0]) + v@.subrange(1, i as int),
    {
        out.push(v[i]);
    }
    assert(v@.subrange(1, v.len() as int) == v@.drop_first());
    string_from(&out)
}

} // verus!
