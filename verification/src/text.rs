//! Text operations on key names and status messages: ordering, search and
//! prefixes, stated over the characters of a string.

use vstd::prelude::*;

verus! {

/// `a` comes before `b` in the order of strings, comparing from index `i` on:
/// the first differing character decides, and a proper prefix comes first.
pub open spec fn lex_lt_from(a: Seq<char>, b: Seq<char>, i: int) -> bool
    decreases a.len() - i,
{
    if i < 0 || i >= b.len() {
        false
    } else if i >= a.len() {
        true
    } else if a[i] != b[i] {
        (a[i] as int) < (b[i] as int)
    } else {
        lex_lt_from(a, b, i + 1)
    }
}

/// The order of `String`: lexicographic by code point.
pub open spec fn lex_lt(a: Seq<char>, b: Seq<char>) -> bool {
    lex_lt_from(a, b, 0)
}

/// The views of a list of strings.
pub open spec fn strings_view(v: Seq<String>) -> Seq<Seq<char>> {
    v.map_values(|s: String| s@)
}

/// A strictly increasing sequence of strings.
pub open spec fn strictly_sorted(s: Seq<Seq<char>>) -> bool {
    forall|i: int, j: int| 0 <= i < j < s.len() ==> lex_lt(#[trigger] s[i], #[trigger] s[j])
}

/// `needle` occurs in `hay` as a contiguous run of characters.
pub open spec fn contains_text(hay: Seq<char>, needle: Seq<char>) -> bool {
    exists|i: int| 0 <= i && i + needle.len() <= hay.len() && #[trigger] hay.subrange(i, i + needle.len()) == needle
}

/// What is left of `s` once `prefix` is taken from its front, if `s` starts with it.
pub open spec fn without_prefix(s: Seq<char>, prefix: Seq<char>) -> Option<Seq<char>> {
    if prefix.len() <= s.len() && s.subrange(0, prefix.len() as int) == prefix {
        Some(s.subrange(prefix.len() as int, s.len() as int))
    } else {
        None
    }
}

/// Name of the lowercase form of a string, as `str::to_lowercase` computes it
/// (full Unicode case mapping).
pub uninterp spec fn lowercase(s: Seq<char>) -> Seq<char>;

/// Calls `str::to_lowercase`; its result is named by `lowercase`.
#[verifier::external_body]
pub(crate) fn to_lowercase(s: &str) -> (r: String)
    ensures
        r@ == lowercase(s@),
{
    s.to_lowercase()
}

proof fn lemma_lex_irreflexive(a: Seq<char>, i: int)
    ensures
        !lex_lt_from(a, a, i),
    decreases a.len() - i,
{
    if 0 <= i < a.len() {
        lemma_lex_irreflexive(a, i + 1);
    }
}

proof fn lemma_lex_asymmetric(a: Seq<char>, b: Seq<char>, i: int)
    requires
        lex_lt_from(a, b, i),
    ensures
        !lex_lt_from(b, a, i),
    decreases a.len() - i,
{
    if 0 <= i < a.len() && i < b.len() && a[i] == b[i] {
        lemma_lex_asymmetric(a, b, i + 1);
    }
}

proof fn lemma_lex_transitive(a: Seq<char>, b: Seq<char>, c: Seq<char>, i: int)
    requires
        lex_lt_from(a, b, i),
        lex_lt_from(b, c, i),
    ensures
        lex_lt_from(a, c, i),
    decreases a.len() - i,
{
    if 0 <= i < a.len() && i < b.len() && i < c.len() && a[i] == b[i] && b[i] == c[i] {
        lemma_lex_transitive(a, b, c, i + 1);
    }
}

proof fn lemma_lex_total(a: Seq<char>, b: Seq<char>, i: int)
    requires
        0 <= i <= a.len(),
        i <= b.len(),
        a.subrange(0, i) == b.subrange(0, i),
        a != b,
    ensures
        lex_lt_from(a, b, i) || lex_lt_from(b, a, i),
    decreases a.len() - i,
{
    if i < a.len() && i < b.len() && a[i] == b[i] {
        assert(a.subrange(0, i + 1) == a.subrange(0, i).push(a[i]));
        assert(b.subrange(0, i + 1) == b.subrange(0, i).push(b[i]));
        lemma_lex_total(a, b, i + 1);
    } else if i == a.len() && i == b.len() {
        assert(a == a.subrange(0, i));
        assert(b == b.subrange(0, i));
    }
}

/// The order of strings is a strict total order.
pub proof fn lemma_lex_order(a: Seq<char>, b: Seq<char>, c: Seq<char>)
    ensures
        !lex_lt(a, a),
        lex_lt(a, b) ==> !lex_lt(b, a),
        lex_lt(a, b) && lex_lt(b, c) ==> lex_lt(a, c),
        a != b ==> lex_lt(a, b) || lex_lt(b, a),
{
    lemma_lex_irreflexive(a, 0);
    if lex_lt(a, b) {
        lemma_lex_asymmetric(a, b, 0);
        if lex_lt(b, c) {
            lemma_lex_transitive(a, b, c, 0);
        }
    }
    if a != b {
        assert(a.subrange(0, 0) == b.subrange(0, 0));
        lemma_lex_total(a, b, 0);
    }
}

/// `a` and `b` agree on positions `i` up to `k`, and at `k` either `a` has
/// ended while `b` goes on, or `a` has the smaller character.
pub open spec fn first_difference_at(a: Seq<char>, b: Seq<char>, i: int, k: int) -> bool {
    &&& i <= k <= a.len()
    &&& k <= b.len()
    &&& forall|j: int| i <= j < k ==> #[trigger] a[j] == b[j]
    &&& {
        ||| k == a.len() && k < b.len()
        ||| k < a.len() && k < b.len() && (a[k] as int) < (b[k] as int)
    }
}

proof fn lemma_lex_from_first_difference(a: Seq<char>, b: Seq<char>, i: int)
    requires
        0 <= i <= a.len(),
    ensures
        lex_lt_from(a, b, i) <==> exists|k: int| #[trigger] first_difference_at(a, b, i, k),
    decreases a.len() - i,
{
    if i >= b.len() {
        if exists|k: int| #[trigger] first_difference_at(a, b, i, k) {
            let k = choose|k: int| #[trigger] first_difference_at(a, b, i, k);
        }
    } else if i >= a.len() {
        assert(first_difference_at(a, b, i, i));
    } else if a[i] != b[i] {
        if (a[i] as int) < (b[i] as int) {
            assert(first_difference_at(a, b, i, i));
        } else {
            if exists|k: int| #[trigger] first_difference_at(a, b, i, k) {
                let k = choose|k: int| #[trigger] first_difference_at(a, b, i, k);
                if k > i {
                    assert(a[i] == b[i]);
                }
            }
        }
    } else {
        lemma_lex_from_first_difference(a, b, i + 1);
        if exists|k: int| #[trigger] first_difference_at(a, b, i + 1, k) {
            let k = choose|k: int| #[trigger] first_difference_at(a, b, i + 1, k);
            assert(first_difference_at(a, b, i, k));
        }
        if exists|k: int| #[trigger] first_difference_at(a, b, i, k) {
            let k = choose|k: int| #[trigger] first_difference_at(a, b, i, k);
            if k == i {
                assert(false);
            }
            assert(first_difference_at(a, b, i + 1, k));
        }
    }
}

/// The order of strings: `a` comes before `b` exactly when, at the first
/// position where they differ, `a` has the smaller character, or `a` is a
/// proper prefix of `b`.
pub proof fn string_order_is_lexicographic(a: Seq<char>, b: Seq<char>)
    ensures
        lex_lt(a, b) <==> exists|k: int| #[trigger] first_difference_at(a, b, 0, k),
{
    lemma_lex_from_first_difference(a, b, 0);
}

/// The characters of a string, one per element.
pub fn chars_of(s: &str) -> (v: Vec<char>)
    ensures
        v@ == s@,
{
    let n = s.unicode_len();
    let mut v: Vec<char> = Vec::new();
    let mut i: usize = 0;
    while i < n
        invariant
            n == s@.len(),
            i <= n,
            v@ == s@.subrange(0, i as int),
        decreases n - i,
    {
        v.push(s.get_char(i));
        i = i + 1;
    }
    assert(v@ == s@);
    v
}

/// Whether `a` comes before `b` in the order of strings.
pub fn string_lt(a: &str, b: &str) -> (r: bool)
    ensures
        r == lex_lt(a@, b@),
{
    let av = chars_of(a);
    let bv = chars_of(b);
    let mut i: usize = 0;
    while i < av.len() && i < bv.len()
        invariant
            av@ == a@,
            bv@ == b@,
            i <= av.len(),
            i <= bv.len(),
            lex_lt_from(a@, b@, 0) == lex_lt_from(a@, b@, i as int),
        decreases av.len() - i,
    {
        if av[i] != bv[i] {
            return av[i] < bv[i];
        }
        i = i + 1;
    }
    i < bv.len()
}

/// Whether `needle` occurs in `hay`.
pub fn contains(hay: &str, needle: &str) -> (r: bool)
    ensures
        r == contains_text(hay@, needle@),
{
    let h = chars_of(hay);
    let n = chars_of(needle);
    if n.len() > h.len() {
        return false;
    }
    let last = h.len() - n.len();
    let mut i: usize = 0;
    while i <= last
        invariant
            h@ == hay@,
            n@ == needle@,
            last == h.len() - n.len(),
            n.len() <= h.len(),
            i <= last + 1,
            forall|p: int| 0 <= p < i ==> #[trigger] h@.subrange(p, p + n.len()) != n@,
        decreases last + 1 - i,
    {
        let mut j: usize = 0;
        let mut same = true;
        while j < n.len()
            invariant
                h@ == hay@,
                n@ == needle@,
                i <= last,
                last == h.len() - n.len(),
                j <= n.len(),
                same == (forall|q: int| 0 <= q < j ==> h@[i + q] == n@[q]),
            decreases n.len() - j,
        {
            if h[i + j] != n[j] {
                same = false;
            }
            j = j + 1;
        }
        if same {
            assert(h@.subrange(i as int, i + n.len()) =~= n@);
            return true;
        }
        assert(h@.subrange(i as int, i + n.len()) != n@) by {
            let q = choose|q: int| 0 <= q < n.len() && h@[i + q] != n@[q];
            assert(h@.subrange(i as int, i + n.len())[q] == h@[i + q]);
        }
        i = i + 1;
    }
    assert forall|p: int| 0 <= p && p + needle@.len() <= hay@.len() implies #[trigger] hay@.subrange(p, p + needle@.len()) != needle@ by {
        assert(p < i);
        assert(h@.subrange(p, p + n.len()) != n@);
    }
    false
}

/// What is left of `s` after `prefix`, if `s` starts with `prefix`.
pub fn strip_prefix(s: &str, prefix: &str) -> (r: Option<String>)
    ensures
        r matches Some(rest) ==> without_prefix(s@, prefix@) == Some(rest@),
        r is None ==> without_prefix(s@, prefix@) is None,
{
    let sv = chars_of(s);
    let pv = chars_of(prefix);
    if pv.len() > sv.len() {
        return None;
    }
    let mut j: usize = 0;
    while j < pv.len()
        invariant
            sv@ == s@,
            pv@ == prefix@,
            pv.len() <= sv.len(),
            j <= pv.len(),
            forall|q: int| 0 <= q < j ==> sv@[q] == pv@[q],
        decreases pv.len() - j,
    {
        if sv[j] != pv[j] {
            assert(s@.subrange(0, prefix@.len() as int)[j as int] != prefix@[j as int]);
            return None;
        }
        j = j + 1;
    }
    assert(s@.subrange(0, prefix@.len() as int) =~= prefix@);
    let rest = s.substring_char(pv.len(), sv.len());
    Some(String::from_str(rest))
}

} // verus!
