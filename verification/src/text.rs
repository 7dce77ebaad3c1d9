//! Character-sequence helpers shared by the rest of the library.
//!
//! Strings are modelled by their `Seq<char>` view.  Case mapping, whose
//! behaviour comes from Unicode tables in std, is reached through small
//! wrappers whose results are named; on ASCII text lower-casing is stated
//! exactly.  The White_Space property is a fixed set of 25 code points and
//! is written out here.

use vstd::prelude::*;

verus! {

// ---------------------------------------------------------------------------
// Names for std results that depend on Unicode tables
// ---------------------------------------------------------------------------

/// The result of `str::to_lowercase` on a string with these characters.
pub uninterp spec fn str_lower(s: Seq<char>) -> Seq<char>;

/// The result of `str::to_uppercase` on a string with these characters.
pub uninterp spec fn str_upper(s: Seq<char>) -> Seq<char>;

/// The characters produced by `char::to_uppercase` for one character.
pub uninterp spec fn char_upper(c: char) -> Seq<char>;

/// The Unicode White_Space property (PropList), which `char::is_whitespace`
/// tests: the controls U+0009 to U+000D, U+0020 SPACE, U+0085, U+00A0,
/// U+1680, U+2000 to U+200A, U+2028, U+2029, U+202F, U+205F and U+3000.
pub open spec fn char_is_whitespace(c: char) -> bool {
    let u = c as u32;
    (0x09 <= u <= 0x0d) || u == 0x20 || u == 0x85 || u == 0xa0 || u == 0x1680 || (0x2000 <= u
        <= 0x200a) || u == 0x2028 || u == 0x2029 || u == 0x202f || u == 0x205f || u == 0x3000
}

/// Every character is ASCII.
pub open spec fn all_ascii(s: Seq<char>) -> bool {
    forall|i: int| 0 <= i < s.len() ==> (#[trigger] s[i] as u32) < 0x80
}

/// Calls `str::to_lowercase`; the result is `str_lower` of the input.
/// Lower case follows the Unicode Lowercase mapping, which on ASCII text
/// turns `A`..`Z` into `a`..`z` and keeps every other character.
#[verifier::external_body]
pub(crate) fn to_lowercase(s: &str) -> (r: String)
    ensures
        r@ == str_lower(s@),
        all_ascii(s@) ==> r@ == ascii_lower(s@),
{
    s.to_lowercase()
}

/// Calls `str::to_uppercase`; the result is `str_upper` of the input.
#[verifier::external_body]
pub(crate) fn to_uppercase(s: &str) -> (r: String)
    ensures
        r@ == str_upper(s@),
{
    s.to_uppercase()
}

/// Calls `char::to_uppercase` and collects the characters it yields; the
/// result is `char_upper` of the input.
#[verifier::external_body]
fn upper_chars(c: char) -> (r: Vec<char>)
    ensures
        r@ == char_upper(c),
{
    c.to_uppercase().collect()
}

/// Whether a character is white space (what `char::is_whitespace` tells).
pub fn is_whitespace(c: char) -> (r: bool)
    ensures
        r == char_is_whitespace(c),
{
    let u = c as u32;
    (0x09 <= u && u <= 0x0d) || u == 0x20 || u == 0x85 || u == 0xa0 || u == 0x1680 || (0x2000 <= u
        && u <= 0x200a) || u == 0x2028 || u == 0x2029 || u == 0x202f || u == 0x205f || u == 0x3000
}

/// Calls `String::push`, which appends one character.
#[verifier::external_body]
fn push_char(s: &mut String, c: char)
    ensures
        final(s)@ == old(s)@.push(c),
{
    s.push(c)
}

// ---------------------------------------------------------------------------
// Conversions
// ---------------------------------------------------------------------------

/// The characters of a string slice.
pub fn chars_of(s: &str) -> (r: Vec<char>)
    ensures
        r@ == s@,
{
    let mut v: Vec<char> = Vec::new();
    for c in it: s.chars()
        invariant
            v@ == it.seq().take(it.index() as int),
    {
        v.push(c);
    }
    v
}

/// A `String` holding exactly the given characters.
pub fn string_of(chars: &[char]) -> (r: String)
    ensures
        r@ == chars@,
{
    let mut s = String::new();
    let mut i: usize = 0;
    while i < chars.len()
        invariant
            i <= chars.len(),
            s@ == chars@.take(i as int),
        decreases chars.len() - i,
    {
        push_char(&mut s, chars[i]);
        assert(chars@.take(i + 1) =~= chars@.take(i as int).push(chars@[i as int]));
        i += 1;
    }
    assert(chars@.take(chars.len() as int) =~= chars@);
    s
}

/// Appends the characters of `t` to `v`.
pub fn extend_chars(v: &mut Vec<char>, t: &[char])
    ensures
        final(v)@ == old(v)@ + t@,
{
    let ghost start = v@;
    let mut i: usize = 0;
    while i < t.len()
        invariant
            i <= t.len(),
            v@ == start + t@.take(i as int),
        decreases t.len() - i,
    {
        v.push(t[i]);
        assert(t@.take(i + 1) =~= t@.take(i as int).push(t@[i as int]));
        i += 1;
    }
    assert(t@.take(t.len() as int) =~= t@);
}

/// Appends the characters of a string slice to `v`.
pub fn extend_str(v: &mut Vec<char>, t: &str)
    ensures
        final(v)@ == old(v)@ + t@,
{
    let c = chars_of(t);
    extend_chars(v, &c);
}

// ---------------------------------------------------------------------------
// Comparison
// ---------------------------------------------------------------------------

/// Equality of two character slices.
pub fn chars_eq(a: &[char], b: &[char]) -> (r: bool)
    ensures
        r == (a@ == b@),
{
    if a.len() != b.len() {
        return false;
    }
    let mut i: usize = 0;
    while i < a.len()
        invariant
            a.len() == b.len(),
            i <= a.len(),
            forall|j: int| 0 <= j < i ==> a@[j] == b@[j],
        decreases a.len() - i,
    {
        if a[i] != b[i] {
            return false;
        }
        i += 1;
    }
    assert(a@ =~= b@);
    true
}

/// Equality of two string slices, by their characters.
pub fn str_eq(a: &str, b: &str) -> (r: bool)
    ensures
        r == (a@ == b@),
{
    let ca = chars_of(a);
    let cb = chars_of(b);
    chars_eq(&ca, &cb)
}

/// Lexicographic order on character sequences (by code point, which is
/// also the byte order of their UTF-8 text): a proper prefix comes first.
pub open spec fn lex_lt(a: Seq<char>, b: Seq<char>) -> bool
    decreases a.len(),
{
    if a.len() == 0 {
        b.len() > 0
    } else if b.len() == 0 {
        false
    } else if a[0] != b[0] {
        (a[0] as int) < (b[0] as int)
    } else {
        lex_lt(a.drop_first(), b.drop_first())
    }
}

pub proof fn lemma_lex_irreflexive(a: Seq<char>)
    ensures
        !lex_lt(a, a),
    decreases a.len(),
{
    if a.len() > 0 {
        lemma_lex_irreflexive(a.drop_first());
    }
}

pub proof fn lemma_lex_transitive(a: Seq<char>, b: Seq<char>, c: Seq<char>)
    requires
        lex_lt(a, b),
        lex_lt(b, c),
    ensures
        lex_lt(a, c),
    decreases a.len(),
{
    if a.len() > 0 && b.len() > 0 && c.len() > 0 && a[0] == b[0] && b[0] == c[0] {
        lemma_lex_transitive(a.drop_first(), b.drop_first(), c.drop_first());
    }
}

/// Two different sequences are ordered one way or the other.
pub proof fn lemma_lex_total(a: Seq<char>, b: Seq<char>)
    requires
        a != b,
    ensures
        lex_lt(a, b) || lex_lt(b, a),
    decreases a.len(),
{
    if a.len() > 0 && b.len() > 0 && a[0] == b[0] {
        if a.drop_first() == b.drop_first() {
            assert(a =~= seq![a[0]] + a.drop_first());
            assert(b =~= seq![b[0]] + b.drop_first());
        }
        lemma_lex_total(a.drop_first(), b.drop_first());
    } else if a.len() > 0 && b.len() > 0 {
        assert((a[0] as int) != (b[0] as int));
    } else if a.len() == 0 && b.len() == 0 {
        assert(a =~= b);
    }
}

/// Whether `a` comes before `b` in lexicographic order.
pub fn chars_lt(a: &[char], b: &[char]) -> (r: bool)
    ensures
        r == lex_lt(a@, b@),
{
    let mut i: usize = 0;
    assert(a@.skip(0) =~= a@ && b@.skip(0) =~= b@);
    while i < a.len() && i < b.len()
        invariant
            i <= a.len(),
            i <= b.len(),
            lex_lt(a@, b@) == lex_lt(a@.skip(i as int), b@.skip(i as int)),
        decreases a.len() - i,
    {
        let ghost sa = a@.skip(i as int);
        let ghost sb = b@.skip(i as int);
        assert(sa[0] == a@[i as int] && sb[0] == b@[i as int]);
        if a[i] != b[i] {
            return a[i] < b[i];
        }
        assert(sa.drop_first() =~= a@.skip(i + 1));
        assert(sb.drop_first() =~= b@.skip(i + 1));
        i += 1;
    }
    i == a.len() && i < b.len()
}

/// The character sequences of a list of strings.
pub open spec fn views_of(v: Seq<String>) -> Seq<Seq<char>> {
    v.map_values(|s: String| s@)
}

/// Strictly increasing in lexicographic order.
pub open spec fn lex_sorted(v: Seq<Seq<char>>) -> bool {
    forall|i: int, j: int| 0 <= i < j < v.len() ==> lex_lt(#[trigger] v[i], #[trigger] v[j])
}

/// Index of the lexicographically smallest of distinct strings.
fn index_of_least(v: &Vec<String>) -> (r: usize)
    requires
        v@.len() > 0,
        views_of(v@).no_duplicates(),
    ensures
        r < v@.len(),
        forall|j: int| 0 <= j < v@.len() && j != r ==> lex_lt(v@[r as int]@, #[trigger] v@[j]@),
{
    let mut m: usize = 0;
    let mut i: usize = 1;
    proof {
        lemma_lex_irreflexive(v@[0]@);
    }
    while i < v.len()
        invariant
            1 <= i <= v.len(),
            m < i,
            forall|j: int| 0 <= j < i ==> !lex_lt(#[trigger] v@[j]@, v@[m as int]@),
        decreases v.len() - i,
    {
        let ci = chars_of(v[i].as_str());
        let cm = chars_of(v[m].as_str());
        if chars_lt(&ci, &cm) {
            proof {
                assert forall|j: int| 0 <= j < i + 1 implies !lex_lt(#[trigger] v@[j]@, v@[i as int]@) by {
                    if j < i && lex_lt(v@[j]@, v@[i as int]@) {
                        lemma_lex_transitive(v@[j]@, v@[i as int]@, v@[m as int]@);
                    }
                    if j == i {
                        lemma_lex_irreflexive(v@[i as int]@);
                    }
                }
            }
            m = i;
        }
        i += 1;
    }
    proof {
        assert forall|j: int| 0 <= j < v@.len() && j != m implies lex_lt(v@[m as int]@, #[trigger] v@[j]@) by {
            assert(views_of(v@)[j] == v@[j]@ && views_of(v@)[m as int] == v@[m as int]@);
            lemma_lex_total(v@[m as int]@, v@[j]@);
        }
    }
    m
}

/// The strings in increasing lexicographic order.
pub fn sort_strings(v: Vec<String>) -> (r: Vec<String>)
    requires
        views_of(v@).no_duplicates(),
    ensures
        r@.len() == v@.len(),
        lex_sorted(views_of(r@)),
        forall|x: Seq<char>| views_of(r@).contains(x) <==> views_of(v@).contains(x),
{
    let mut rest = v;
    let mut out: Vec<String> = Vec::new();
    let ghost orig = views_of(rest@);
    while rest.len() > 0
        invariant
            out@.len() + rest@.len() == orig.len(),
            views_of(rest@).no_duplicates(),
            lex_sorted(views_of(out@)),
            forall|a: int, b: int|
                0 <= a < out@.len() && 0 <= b < rest@.len() ==> lex_lt(#[trigger] out@[a]@, #[trigger] rest@[b]@),
            forall|x: Seq<char>| orig.contains(x) <==> (views_of(out@).contains(x) || views_of(rest@).contains(x)),
        decreases rest@.len(),
    {
        let m = index_of_least(&rest);
        let ghost before = rest@;
        let ghost out_before = out@;
        let s = rest.remove(m);
        out.push(s);
        proof {
            let vb = views_of(before);
            let vr = views_of(rest@);
            assert(rest@ == before.remove(m as int));
            assert forall|k: int| 0 <= k < rest@.len() implies #[trigger] rest@[k] == before[if k < m { k } else { k + 1 }] by {}
            assert forall|a: int, b: int| 0 <= a < b < vr.len() implies vr[a] != vr[b] by {
                let a2 = if a < m { a } else { a + 1 };
                let b2 = if b < m { b } else { b + 1 };
                assert(vr[a] == vb[a2] && vr[b] == vb[b2]);
            }
            assert forall|i: int, j: int| 0 <= i < j < out@.len() implies lex_lt(#[trigger] views_of(out@)[i], #[trigger] views_of(out@)[j]) by {
                if j == out@.len() - 1 {
                    assert(out@[j] == before[m as int]);
                    if i < out_before.len() {
                        assert(out@[i] == out_before[i]);
                    }
                } else {
                    assert(out@[i] == out_before[i] && out@[j] == out_before[j]);
                    assert(views_of(out_before)[i] == out_before[i]@);
                    assert(views_of(out_before)[j] == out_before[j]@);
                }
            }
            assert forall|a: int, b: int|
                0 <= a < out@.len() && 0 <= b < rest@.len() implies lex_lt(#[trigger] out@[a]@, #[trigger] rest@[b]@) by {
                let b2 = if b < m { b } else { b + 1 };
                assert(rest@[b] == before[b2]);
                if a < out_before.len() {
                    assert(out@[a] == out_before[a]);
                } else {
                    assert(out@[a] == before[m as int]);
                }
            }
            assert forall|x: Seq<char>| orig.contains(x) <==> (views_of(out@).contains(x) || views_of(rest@).contains(x)) by {
                if views_of(before).contains(x) {
                    let k = choose|k: int| 0 <= k < vb.len() && vb[k] == x;
                    if k == m {
                        assert(views_of(out@)[out@.len() - 1] == x);
                    } else if k < m {
                        assert(vr[k] == x);
                    } else {
                        assert(vr[k - 1] == x);
                    }
                }
                if views_of(out_before).contains(x) {
                    let k = choose|k: int| 0 <= k < out_before.len() && views_of(out_before)[k] == x;
                    assert(views_of(out@)[k] == x);
                }
                if views_of(out@).contains(x) {
                    let k = choose|k: int| 0 <= k < out@.len() && views_of(out@)[k] == x;
                    if k < out_before.len() {
                        assert(views_of(out_before)[k] == x);
                    } else {
                        assert(vb[m as int] == x);
                    }
                }
                if vr.contains(x) {
                    let k = choose|k: int| 0 <= k < vr.len() && vr[k] == x;
                    let k2 = if k < m { k } else { k + 1 };
                    assert(vb[k2] == x);
                }
            }
        }
    }
    out
}

/// `s` begins with `p`.
pub open spec fn has_prefix(s: Seq<char>, p: Seq<char>) -> bool {
    p.len() <= s.len() && s.subrange(0, p.len() as int) == p
}

/// Whether the characters `s` begin with the characters `p`.
pub fn chars_start_with(s: &[char], p: &[char]) -> (r: bool)
    ensures
        r == has_prefix(s@, p@),
{
    if p.len() > s.len() {
        return false;
    }
    let mut i: usize = 0;
    while i < p.len()
        invariant
            p.len() <= s.len(),
            i <= p.len(),
            forall|j: int| 0 <= j < i ==> s@[j] == p@[j],
        decreases p.len() - i,
    {
        if s[i] != p[i] {
            return false;
        }
        i += 1;
    }
    assert(s@.subrange(0, p@.len() as int) =~= p@);
    true
}

/// `needle` occurs in `hay` at some position.
pub open spec fn has_infix(hay: Seq<char>, needle: Seq<char>) -> bool {
    exists|k: int| 0 <= k && k + needle.len() <= hay.len()
        && #[trigger] hay.subrange(k, k + needle.len()) == needle
}

/// Whether `needle` occurs in `hay`.
pub fn chars_contain(hay: &[char], needle: &[char]) -> (r: bool)
    ensures
        r == has_infix(hay@, needle@),
{
    if needle.len() > hay.len() {
        return false;
    }
    let last = hay.len() - needle.len();
    let mut k: usize = 0;
    while k <= last
        invariant
            needle.len() <= hay.len(),
            last == hay.len() - needle.len(),
            k <= last + 1,
            forall|q: int| 0 <= q < k ==> #[trigger] hay@.subrange(q, q + needle@.len()) != needle@,
        decreases last + 1 - k,
    {
        let mut i: usize = 0;
        let mut same = true;
        while i < needle.len()
            invariant
                k <= last,
                last == hay.len() - needle.len(),
                i <= needle.len(),
                same == (forall|j: int| 0 <= j < i ==> hay@[k + j] == needle@[j]),
            decreases needle.len() - i,
        {
            if hay[k + i] != needle[i] {
                same = false;
            }
            i += 1;
        }
        if same {
            assert(hay@.subrange(k as int, k + needle@.len()) =~= needle@);
            return true;
        }
        assert(hay@.subrange(k as int, k + needle@.len()) != needle@) by {
            let j = choose|j: int| 0 <= j < needle.len() && hay@[k + j] != needle@[j];
            assert(hay@.subrange(k as int, k + needle@.len())[j] != needle@[j]);
        }
        k += 1;
    }
    proof {
        assert forall|q: int| 0 <= q && q + needle@.len() <= hay@.len()
            implies #[trigger] hay@.subrange(q, q + needle@.len()) != needle@ by {
            assert(q < k);
        }
    }
    false
}

// ---------------------------------------------------------------------------
// Trimming, splitting and joining
// ---------------------------------------------------------------------------

/// Number of leading whitespace characters.
pub open spec fn lead_ws(s: Seq<char>) -> nat
    decreases s.len(),
{
    if s.len() > 0 && char_is_whitespace(s[0]) {
        1 + lead_ws(s.drop_first())
    } else {
        0
    }
}

/// Number of trailing whitespace characters.
pub open spec fn trail_ws(s: Seq<char>) -> nat
    decreases s.len(),
{
    if s.len() > 0 && char_is_whitespace(s.last()) {
        1 + trail_ws(s.drop_last())
    } else {
        0
    }
}

/// `s` without leading and trailing whitespace (what `str::trim` returns).
pub open spec fn trim(s: Seq<char>) -> Seq<char> {
    let a = lead_ws(s) as int;
    if a == s.len() {
        Seq::empty()
    } else {
        s.subrange(a, s.len() - trail_ws(s) as int)
    }
}

proof fn lemma_lead_ws(s: Seq<char>, i: int)
    requires
        0 <= i <= s.len(),
        forall|j: int| 0 <= j < i ==> char_is_whitespace(#[trigger] s[j]),
        i == s.len() || !char_is_whitespace(s[i]),
    ensures
        lead_ws(s) == i,
    decreases i,
{
    if i > 0 {
        assert forall|j: int| 0 <= j < i - 1 implies char_is_whitespace(#[trigger] s.drop_first()[j]) by {
            assert(s.drop_first()[j] == s[j + 1]);
        }
        lemma_lead_ws(s.drop_first(), i - 1);
    }
}

proof fn lemma_trail_ws(s: Seq<char>, i: int)
    requires
        0 <= i <= s.len(),
        forall|j: int| i <= j < s.len() ==> char_is_whitespace(#[trigger] s[j]),
        i == 0 || !char_is_whitespace(s[i - 1]),
    ensures
        trail_ws(s) == s.len() - i,
    decreases s.len() - i,
{
    if i < s.len() {
        let t = s.drop_last();
        assert forall|j: int| i <= j < t.len() implies char_is_whitespace(#[trigger] t[j]) by {
            assert(t[j] == s[j]);
        }
        if i > 0 {
            assert(t[i - 1] == s[i - 1]);
        }
        lemma_trail_ws(t, i);
    }
}

proof fn lemma_lead_bound(s: Seq<char>)
    ensures
        lead_ws(s) <= s.len(),
    decreases s.len(),
{
    if s.len() > 0 && char_is_whitespace(s[0]) {
        lemma_lead_bound(s.drop_first());
    }
}

/// Removes leading and trailing whitespace.
pub fn trim_chars(s: &[char]) -> (r: Vec<char>)
    ensures
        r@ == trim(s@),
{
    let mut a: usize = 0;
    while a < s.len() && is_whitespace(s[a])
        invariant
            a <= s.len(),
            forall|j: int| 0 <= j < a ==> char_is_whitespace(#[trigger] s@[j]),
        decreases s.len() - a,
    {
        a += 1;
    }
    proof {
        lemma_lead_ws(s@, a as int);
    }
    let mut out: Vec<char> = Vec::new();
    if a == s.len() {
        return out;
    }
    let mut b: usize = s.len();
    while b > a && is_whitespace(s[b - 1])
        invariant
            a < s.len(),
            a <= b <= s.len(),
            !char_is_whitespace(s@[a as int]),
            forall|j: int| b <= j < s.len() ==> char_is_whitespace(#[trigger] s@[j]),
        decreases b,
    {
        b -= 1;
    }
    proof {
        lemma_trail_ws(s@, b as int);
    }
    let mut i = a;
    while i < b
        invariant
            a <= i <= b,
            b <= s.len(),
            out@ == s@.subrange(a as int, i as int),
        decreases b - i,
    {
        out.push(s[i]);
        assert(s@.subrange(a as int, i + 1) =~= s@.subrange(a as int, i as int).push(s@[i as int]));
        i += 1;
    }
    out
}

/// The pieces of `s` between occurrences of `sep` (what `str::split` yields):
/// always at least one piece.
pub open spec fn split_on(s: Seq<char>, sep: char) -> Seq<Seq<char>>
    decreases s.len(),
{
    if s.len() == 0 {
        seq![Seq::<char>::empty()]
    } else {
        let init = split_on(s.drop_last(), sep);
        if s.last() == sep {
            init.push(Seq::<char>::empty())
        } else {
            init.update(init.len() - 1, init.last().push(s.last()))
        }
    }
}

proof fn lemma_split_nonempty(s: Seq<char>, sep: char)
    ensures
        split_on(s, sep).len() >= 1,
    decreases s.len(),
{
    if s.len() > 0 {
        lemma_split_nonempty(s.drop_last(), sep);
    }
}

/// Splits `s` at every `sep`.
pub fn split_chars(s: &[char], sep: char) -> (r: Vec<Vec<char>>)
    ensures
        r@.len() == split_on(s@, sep).len(),
        forall|i: int| 0 <= i < r@.len() ==> #[trigger] r@[i]@ == split_on(s@, sep)[i],
{
    let mut parts: Vec<Vec<char>> = Vec::new();
    let mut cur: Vec<char> = Vec::new();
    let mut i: usize = 0;
    while i < s.len()
        invariant
            i <= s.len(),
            parts@.len() + 1 == split_on(s@.take(i as int), sep).len(),
            forall|k: int| 0 <= k < parts@.len() ==> #[trigger] parts@[k]@ == split_on(s@.take(i as int), sep)[k],
            cur@ == split_on(s@.take(i as int), sep).last(),
        decreases s.len() - i,
    {
        proof {
            assert(s@.take(i + 1).drop_last() =~= s@.take(i as int));
            lemma_split_nonempty(s@.take(i as int), sep);
        }
        if s[i] == sep {
            let done = cur;
            parts.push(done);
            cur = Vec::new();
        } else {
            cur.push(s[i]);
        }
        i += 1;
    }
    parts.push(cur);
    assert(s@.take(s.len() as int) =~= s@);
    parts
}

/// `parts` joined with `sep` between neighbours.
pub open spec fn join_with(parts: Seq<Seq<char>>, sep: Seq<char>) -> Seq<char>
    decreases parts.len(),
{
    if parts.len() == 0 {
        Seq::empty()
    } else if parts.len() == 1 {
        parts[0]
    } else {
        join_with(parts.drop_last(), sep) + sep + parts.last()
    }
}

/// Joins `parts` with `sep`.
pub fn join_chars(parts: &Vec<Vec<char>>, sep: &[char]) -> (r: Vec<char>)
    ensures
        r@ == join_with(parts@.map_values(|p: Vec<char>| p@), sep@),
{
    let ghost views = parts@.map_values(|p: Vec<char>| p@);
    let mut out: Vec<char> = Vec::new();
    let mut i: usize = 0;
    while i < parts.len()
        invariant
            i <= parts.len(),
            views == parts@.map_values(|p: Vec<char>| p@),
            out@ == join_with(views.take(i as int), sep@),
        decreases parts.len() - i,
    {
        assert(views.take(i + 1).drop_last() =~= views.take(i as int));
        if i > 0 {
            extend_chars(&mut out, sep);
        }
        extend_chars(&mut out, &parts[i]);
        i += 1;
    }
    assert(views.take(parts.len() as int) =~= views);
    out
}

/// The non-empty runs of non-whitespace characters (what
/// `str::split_whitespace` yields).
pub open spec fn words(s: Seq<char>) -> Seq<Seq<char>>
    decreases s.len(),
{
    if s.len() == 0 {
        Seq::empty()
    } else {
        let init = words(s.drop_last());
        let c = s.last();
        if char_is_whitespace(c) {
            init
        } else if s.len() >= 2 && !char_is_whitespace(s[s.len() - 2]) && init.len() > 0 {
            init.update(init.len() - 1, init.last().push(c))
        } else {
            init.push(seq![c])
        }
    }
}

/// Splits `s` into its whitespace-separated words.
pub fn words_of(s: &[char]) -> (r: Vec<Vec<char>>)
    ensures
        r@.len() == words(s@).len(),
        forall|i: int| 0 <= i < r@.len() ==> #[trigger] r@[i]@ == words(s@)[i],
{
    let mut out: Vec<Vec<char>> = Vec::new();
    let mut cur: Vec<char> = Vec::new();
    let mut in_word = false;
    let mut i: usize = 0;
    while i < s.len()
        invariant
            i <= s.len(),
            in_word == (i > 0 && !char_is_whitespace(s@[i - 1])),
            in_word ==> words(s@.take(i as int)).len() == out@.len() + 1
                && cur@ == words(s@.take(i as int)).last(),
            !in_word ==> words(s@.take(i as int)).len() == out@.len(),
            forall|k: int| 0 <= k < out@.len() ==> #[trigger] out@[k]@ == words(s@.take(i as int))[k],
        decreases s.len() - i,
    {
        let ghost pre = s@.take(i as int);
        proof {
            assert(s@.take(i + 1).drop_last() =~= pre);
            assert(s@.take(i + 1).last() == s@[i as int]);
            if i > 0 {
                assert(s@.take(i + 1)[i - 1] == s@[i - 1]);
            }
        }
        let c = s[i];
        if is_whitespace(c) {
            if in_word {
                let done = cur;
                out.push(done);
                cur = Vec::new();
            }
            in_word = false;
        } else {
            if in_word {
                cur.push(c);
            } else {
                cur = Vec::new();
                cur.push(c);
                assert(cur@ =~= seq![c]);
            }
            in_word = true;
        }
        i += 1;
    }
    if in_word {
        out.push(cur);
    }
    assert(s@.take(s.len() as int) =~= s@);
    out
}

/// Every occurrence of `from` replaced by `to`.
pub open spec fn replace_char(s: Seq<char>, from: char, to: char) -> Seq<char> {
    s.map_values(|c: char| if c == from { to } else { c })
}

/// Replaces every `from` by `to`.
pub fn replace_chars(s: &[char], from: char, to: char) -> (r: Vec<char>)
    ensures
        r@ == replace_char(s@, from, to),
{
    let mut out: Vec<char> = Vec::new();
    let mut i: usize = 0;
    while i < s.len()
        invariant
            i <= s.len(),
            out@ == replace_char(s@.take(i as int), from, to),
        decreases s.len() - i,
    {
        let c = if s[i] == from { to } else { s[i] };
        out.push(c);
        assert(replace_char(s@.take(i + 1), from, to) =~= replace_char(s@.take(i as int), from, to).push(c));
        i += 1;
    }
    assert(s@.take(s.len() as int) =~= s@);
    out
}

/// The first character upper-cased, the rest unchanged.
pub open spec fn capitalize(s: Seq<char>) -> Seq<char> {
    if s.len() == 0 {
        Seq::empty()
    } else {
        char_upper(s[0]) + s.drop_first()
    }
}

/// Upper-cases the first character.
pub fn capitalize_chars(s: &[char]) -> (r: Vec<char>)
    ensures
        r@ == capitalize(s@),
{
    if s.len() == 0 {
        return Vec::new();
    }
    let mut out = upper_chars(s[0]);
    let mut i: usize = 1;
    while i < s.len()
        invariant
            1 <= i <= s.len(),
            out@ == char_upper(s@[0]) + s@.subrange(1, i as int),
        decreases s.len() - i,
    {
        out.push(s[i]);
        assert(char_upper(s@[0]) + s@.subrange(1, i + 1) =~= (char_upper(s@[0]) + s@.subrange(1, i as int)).push(s@[i as int]));
        i += 1;
    }
    assert(s@.subrange(1, s@.len() as int) =~= s@.drop_first());
    out
}

/// ASCII lower-casing of one character (what `char::to_ascii_lowercase` does).
pub open spec fn ascii_lower_char(c: char) -> char {
    if 'A' <= c <= 'Z' {
        ((c as u32) + 32) as char
    } else {
        c
    }
}

/// ASCII lower-casing of every character.
pub open spec fn ascii_lower(s: Seq<char>) -> Seq<char> {
    s.map_values(|c: char| ascii_lower_char(c))
}

/// Lower-cases the ASCII letters of `s`, leaving every other character as is.
pub fn ascii_lower_chars(s: &[char]) -> (r: Vec<char>)
    ensures
        r@ == ascii_lower(s@),
{
    let mut out: Vec<char> = Vec::new();
    let mut i: usize = 0;
    while i < s.len()
        invariant
            i <= s.len(),
            out@ == ascii_lower(s@.take(i as int)),
        decreases s.len() - i,
    {
        let c = s[i];
        let l = if 'A' <= c && c <= 'Z' {
            let code = (c as u32) + 32;
            assert(code <= 0x7f);
            char_from_ascii(code)
        } else {
            c
        };
        out.push(l);
        assert(ascii_lower(s@.take(i + 1)) =~= ascii_lower(s@.take(i as int)).push(l));
        i += 1;
    }
    assert(s@.take(s.len() as int) =~= s@);
    out
}

/// The character with an ASCII code point.
fn char_from_ascii(code: u32) -> (c: char)
    requires
        code <= 0x7f,
    ensures
        c as u32 == code,
        c == code as char,
{
    let b: u8 = code as u8;
    b as char
}

// ---------------------------------------------------------------------------
// Number formatting
// ---------------------------------------------------------------------------

/// Upper-case hexadecimal digit for a value below 16.
pub open spec fn hex_digit(v: int) -> char {
    if v < 10 {
        ((v + 48) as u32) as char
    } else {
        ((v + 55) as u32) as char
    }
}

/// Four upper-case hexadecimal digits of `v` (what `{:04X}` prints).
pub open spec fn hex4(v: u16) -> Seq<char> {
    seq![
        hex_digit((v / 4096) as int),
        hex_digit(((v / 256) % 16) as int),
        hex_digit(((v / 16) % 16) as int),
        hex_digit((v % 16) as int),
    ]
}

/// Two upper-case hexadecimal digits of `v` (what `{:02X}` prints).
pub open spec fn hex2(v: u8) -> Seq<char> {
    seq![hex_digit((v / 16) as int), hex_digit((v % 16) as int)]
}

fn hex_digit_exec(v: u16) -> (c: char)
    requires
        v < 16,
    ensures
        c == hex_digit(v as int),
{
    if v < 10 {
        char_from_ascii((v + 48) as u32)
    } else {
        char_from_ascii((v + 55) as u32)
    }
}

/// Appends the four hexadecimal digits of `v`.
pub fn push_hex4(out: &mut Vec<char>, v: u16)
    ensures
        final(out)@ == old(out)@ + hex4(v),
{
    let ghost start = out@;
    out.push(hex_digit_exec(v / 4096));
    out.push(hex_digit_exec((v / 256) % 16));
    out.push(hex_digit_exec((v / 16) % 16));
    out.push(hex_digit_exec(v % 16));
    assert(out@ =~= start + hex4(v));
}

/// Appends the two hexadecimal digits of `v`.
pub fn push_hex2(out: &mut Vec<char>, v: u8)
    ensures
        final(out)@ == old(out)@ + hex2(v),
{
    let ghost start = out@;
    out.push(hex_digit_exec((v / 16) as u16));
    out.push(hex_digit_exec((v % 16) as u16));
    assert(out@ =~= start + hex2(v));
}

/// Decimal digits of `v`, without leading zeros ("0" for zero).
pub open spec fn decimal(v: nat) -> Seq<char>
    decreases v,
{
    if v < 10 {
        seq![((v + 48) as u32) as char]
    } else {
        decimal(v / 10).push((((v % 10) + 48) as u32) as char)
    }
}

/// Decimal digits of `v`, left-padded with zeros to at least `width`
/// characters (what `{:0width}` prints).
pub open spec fn decimal_padded(v: nat, width: nat) -> Seq<char> {
    let d = decimal(v);
    if d.len() >= width {
        d
    } else {
        Seq::new((width - d.len()) as nat, |_i: int| '0') + d
    }
}

/// The decimal digits of `v`.
pub fn decimal_chars(v: u64) -> (r: Vec<char>)
    ensures
        r@ == decimal(v as nat),
    decreases v,
{
    if v < 10 {
        let mut out: Vec<char> = Vec::new();
        out.push(char_from_ascii((v + 48) as u32));
        assert(out@ =~= decimal(v as nat));
        out
    } else {
        let mut out = decimal_chars(v / 10);
        out.push(char_from_ascii(((v % 10) + 48) as u32));
        out
    }
}

/// Appends `v` in decimal, zero-padded to `width` characters.
pub fn push_decimal_padded(out: &mut Vec<char>, v: u64, width: usize)
    ensures
        final(out)@ == old(out)@ + decimal_padded(v as nat, width as nat),
{
    let ghost start = out@;
    let d = decimal_chars(v);
    let mut pad: Vec<char> = Vec::new();
    if d.len() < width {
        let n = width - d.len();
        let mut i: usize = 0;
        while i < n
            invariant
                i <= n,
                pad@ =~= Seq::new(i as nat, |_i: int| '0'),
            decreases n - i,
        {
            pad.push('0');
            i += 1;
        }
    }
    extend_chars(out, &pad);
    extend_chars(out, &d);
    assert(out@ =~= start + decimal_padded(v as nat, width as nat));
}

} // verus!
