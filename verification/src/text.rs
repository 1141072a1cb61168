//! Verified text primitives: substring matching, left-to-right non-overlapping
//! replacement, splitting on a separator, and decimal formatting. Everything
//! is specified over `Seq<char>` views.

use vstd::prelude::*;
use vstd::string::*;

verus! {

/// `pat` occurs in `s` at position `i`.
pub open spec fn match_at(s: Seq<char>, pat: Seq<char>, i: int) -> bool {
    0 <= i && i + pat.len() <= s.len() && s.subrange(i, i + pat.len() as int) == pat
}

/// `pat` occurs somewhere in `s`.
pub open spec fn text_contains(s: Seq<char>, pat: Seq<char>) -> bool {
    exists|i: int| match_at(s, pat, i)
}

/// Every occurrence of `pat` in `s` replaced by `rep`, scanning left to
/// right without overlap (the semantics of `str::replace`). An empty
/// pattern replaces nothing.
pub open spec fn spec_replace_all(s: Seq<char>, pat: Seq<char>, rep: Seq<char>) -> Seq<char>
    decreases s.len(),
{
    if pat.len() == 0 || s.len() < pat.len() {
        s
    } else if s.take(pat.len() as int) == pat {
        rep + spec_replace_all(s.skip(pat.len() as int), pat, rep)
    } else {
        seq![s[0]] + spec_replace_all(s.skip(1), pat, rep)
    }
}

/// Compare `pat` against the characters of `s` starting at `i`.
pub fn chars_match_at(s: &str, pat: &str, i: usize) -> (r: bool)
    requires
        i + pat@.len() <= s@.len() <= usize::MAX,
    ensures
        r == match_at(s@, pat@, i as int),
{
    let m = pat.unicode_len();
    let mut j: usize = 0;
    while j < m
        invariant
            m == pat@.len(),
            i + m <= s@.len() <= usize::MAX,
            0 <= j <= m,
            forall|k: int| 0 <= k < j ==> s@[i + k] == pat@[k],
        decreases m - j,
    {
        if s.get_char(i + j) != pat.get_char(j) {
            proof {
                assert(s@.subrange(i as int, i + m as int)[j as int] == s@[i + j]);
            }
            return false;
        }
        j += 1;
    }
    proof {
        assert(s@.subrange(i as int, i + m as int) =~= pat@);
    }
    true
}

/// Whether the views of two string slices are equal.
pub fn str_eq(a: &str, b: &str) -> (r: bool)
    ensures
        r == (a@ == b@),
{
    let n = a.unicode_len();
    let m = b.unicode_len();
    if n != m {
        proof {
            assert(a@ != b@);
        }
        return false;
    }
    let r = chars_match_at(a, b, 0);
    proof {
        assert(a@.subrange(0, m as int) =~= a@);
    }
    r
}

/// Whether `s` ends with `suffix`.
pub open spec fn spec_ends_with(s: Seq<char>, suffix: Seq<char>) -> bool {
    s.len() >= suffix.len() && s.skip(s.len() - suffix.len()) == suffix
}

pub fn str_ends_with(s: &str, suffix: &str) -> (r: bool)
    ensures
        r == spec_ends_with(s@, suffix@),
{
    let n = s.unicode_len();
    let m = suffix.unicode_len();
    if m > n {
        return false;
    }
    let r = chars_match_at(s, suffix, n - m);
    proof {
        assert(s@.subrange(n - m, n - m + m as int) =~= s@.skip(s@.len() - suffix@.len()));
    }
    r
}

/// Every occurrence of `pat` in `s` replaced by `rep`, left to right.
pub fn replace_all(s: &str, pat: &str, rep: &str) -> (r: String)
    requires
        pat@.len() >= 1,
    ensures
        r@ == spec_replace_all(s@, pat@, rep@),
{
    let n = s.unicode_len();
    let m = pat.unicode_len();
    let mut out = String::new();
    let mut i: usize = 0;
    proof {
        assert(s@.skip(0) =~= s@);
        assert(out@ + spec_replace_all(s@, pat@, rep@) =~= spec_replace_all(s@, pat@, rep@));
    }
    while i < n
        invariant
            n == s@.len(),
            m == pat@.len(),
            1 <= m,
            i <= n,
            out@ + spec_replace_all(s@.skip(i as int), pat@, rep@)
                == spec_replace_all(s@, pat@, rep@),
        decreases n - i,
    {
        let ghost t = s@.skip(i as int);
        if m <= n - i && chars_match_at(s, pat, i) {
            out.append(rep);
            proof {
                assert(t.take(m as int) =~= s@.subrange(i as int, i + m as int));
                assert(t.skip(m as int) =~= s@.skip(i + m as int));
            }
            i = i + m;
        } else {
            let c = s.substring_char(i, i + 1);
            out.append(c);
            proof {
                if m <= n - i {
                    assert(t.take(m as int) =~= s@.subrange(i as int, i + m as int));
                    assert(t.take(m as int) != pat@);
                }
                assert(seq![t[0]] =~= s@.subrange(i as int, i + 1));
                assert(t.skip(1) =~= s@.skip(i + 1));
                if t.len() < m {
                    assert(t.skip(1).len() < m);
                    assert(spec_replace_all(t.skip(1), pat@, rep@) == t.skip(1));
                    assert(seq![t[0]] + t.skip(1) =~= t);
                }
            }
            i = i + 1;
        }
    }
    proof {
        assert(s@.skip(n as int) =~= Seq::<char>::empty());
        assert(spec_replace_all(Seq::<char>::empty(), pat@, rep@) == Seq::<char>::empty());
        assert(out@ + Seq::<char>::empty() =~= out@);
    }
    out
}

/// A text in which `pat` does not occur is left unchanged by replacement.
pub proof fn lemma_replace_all_absent(s: Seq<char>, pat: Seq<char>, rep: Seq<char>)
    requires
        !text_contains(s, pat),
    ensures
        spec_replace_all(s, pat, rep) == s,
    decreases s.len(),
{
    if pat.len() == 0 || s.len() < pat.len() {
    } else {
        if s.take(pat.len() as int) == pat {
            assert(s.subrange(0, pat.len() as int) == s.take(pat.len() as int));
            assert(match_at(s, pat, 0));
            assert(false);
        }
        assert forall|i: int| !match_at(s.skip(1), pat, i) by {
            if match_at(s.skip(1), pat, i) {
                assert(s.subrange(i + 1, i + 1 + pat.len() as int)
                    =~= s.skip(1).subrange(i, i + pat.len() as int));
                assert(match_at(s, pat, i + 1));
            }
        }
        lemma_replace_all_absent(s.skip(1), pat, rep);
        assert(seq![s[0]] + s.skip(1) =~= s);
    }
}

/// `x` is a prefix of `s`.
pub open spec fn is_prefix_of(x: Seq<char>, s: Seq<char>) -> bool {
    x.len() <= s.len() && s.take(x.len() as int) == x
}

/// `x` is a suffix of `s`.
pub open spec fn is_suffix_of(x: Seq<char>, s: Seq<char>) -> bool {
    x.len() <= s.len() && s.skip(s.len() - x.len()) == x
}

/// An occurrence inside a suffix of `s` is an occurrence in `s`.
pub proof fn lemma_match_in_skip(s: Seq<char>, t: Seq<char>, m: int, i: int)
    requires
        0 <= m <= s.len(),
        match_at(s.skip(m), t, i),
    ensures
        match_at(s, t, i + m),
{
    assert(s.subrange(i + m, i + m + t.len() as int) =~= s.skip(m).subrange(i, i + t.len() as int));
}

/// No occurrence of `t` begins at the very start of the replacement output,
/// not even one continuing a partial match: if the pending tail `t.skip(j)`
/// is not a prefix of the remaining input, it is not a prefix of the
/// remaining output either. Needs that `t` does not occur in `rep` and that
/// no nonempty proper suffix of `t` begins `rep`.
pub proof fn lemma_tail_not_prefix(
    s: Seq<char>,
    p: Seq<char>,
    rep: Seq<char>,
    t: Seq<char>,
    j: int,
)
    requires
        1 <= p.len(),
        1 <= t.len() <= rep.len(),
        !text_contains(rep, t),
        forall|k: int| 0 < k < t.len() ==> !is_prefix_of(#[trigger] t.skip(k), rep),
        0 <= j < t.len(),
        !is_prefix_of(t.skip(j), s),
    ensures
        !is_prefix_of(t.skip(j), spec_replace_all(s, p, rep)),
    decreases s.len(),
{
    let ra = spec_replace_all(s, p, rep);
    let tail = t.skip(j);
    if s.len() < p.len() {
        // the output is the input itself
    } else if s.take(p.len() as int) == p {
        let rest = spec_replace_all(s.skip(p.len() as int), p, rep);
        if is_prefix_of(tail, ra) {
            assert(ra == rep + rest);
            assert(ra.take(tail.len() as int) =~= rep.take(tail.len() as int));
            assert(is_prefix_of(tail, rep));
            if j == 0 {
                assert(rep.subrange(0, t.len() as int) == rep.take(t.len() as int));
                assert(tail =~= t);
                assert(match_at(rep, t, 0));
                assert(false);
            } else {
                assert(false);
            }
        }
    } else {
        let rest = spec_replace_all(s.skip(1), p, rep);
        if is_prefix_of(tail, ra) {
            assert(ra == seq![s[0]] + rest);
            assert(ra.take(tail.len() as int)[0] == ra[0]);
            assert(t[j] == s[0]);
            if j + 1 == t.len() {
                assert(s.take(1) =~= tail);
                assert(is_prefix_of(tail, s));
                assert(false);
            } else {
                assert(!is_prefix_of(t.skip(j + 1), s.skip(1))) by {
                    if is_prefix_of(t.skip(j + 1), s.skip(1)) {
                        assert forall|k: int| 0 <= k < t.len() - j implies s[k] == tail[k] by {
                            if k == 0 {
                                assert(t[j] == s[0]);
                            } else {
                                assert(s.skip(1).take(t.len() - (j + 1))[k - 1] == t.skip(
                                    j + 1,
                                )[k - 1]);
                            }
                        }
                        assert(s.take(t.len() - j) =~= tail);
                        assert(is_prefix_of(tail, s));
                    }
                }
                lemma_tail_not_prefix(s.skip(1), p, rep, t, j + 1);
                assert forall|k: int| 0 <= k < t.len() - (j + 1) implies rest[k] == t.skip(
                    j + 1,
                )[k] by {
                    assert(ra.take(t.len() - j)[k + 1] == tail[k + 1]);
                    assert(ra[k + 1] == rest[k]);
                }
                assert(rest.take(t.len() - (j + 1)) =~= t.skip(j + 1));
                assert(is_prefix_of(t.skip(j + 1), rest));
                assert(false);
            }
        }
    }
}

/// The replacement output is clean of `t`: replacing `p` leaves no
/// occurrence of `p` itself, and introduces no occurrence of any other `t`
/// that the input did not contain — provided `t` does not occur in `rep`,
/// no nonempty proper suffix of `t` begins `rep`, and no nonempty proper
/// prefix of `t` ends `rep`.
pub proof fn lemma_replace_all_clean(s: Seq<char>, p: Seq<char>, rep: Seq<char>, t: Seq<char>)
    requires
        1 <= p.len(),
        1 <= t.len() <= rep.len(),
        !text_contains(rep, t),
        forall|k: int| 0 < k < t.len() ==> !is_prefix_of(#[trigger] t.skip(k), rep),
        forall|k: int| 0 < k < t.len() ==> !is_suffix_of(#[trigger] t.take(k), rep),
        t == p || !text_contains(s, t),
    ensures
        !text_contains(spec_replace_all(s, p, rep), t),
    decreases s.len(),
{
    let ra = spec_replace_all(s, p, rep);
    if s.len() < p.len() {
        assert forall|i: int| !match_at(ra, t, i) by {
            if match_at(ra, t, i) {
                if t == p {
                } else {
                    assert(text_contains(s, t));
                }
            }
        }
    } else if s.take(p.len() as int) == p {
        let s2 = s.skip(p.len() as int);
        if t != p {
            assert(!text_contains(s2, t)) by {
                if text_contains(s2, t) {
                    let i = choose|i: int| match_at(s2, t, i);
                    lemma_match_in_skip(s, t, p.len() as int, i);
                }
            }
        }
        lemma_replace_all_clean(s2, p, rep, t);
        let rest = spec_replace_all(s2, p, rep);
        assert(ra == rep + rest);
        assert forall|i: int| !match_at(ra, t, i) by {
            if match_at(ra, t, i) {
                if i + t.len() <= rep.len() {
                    assert(rep.subrange(i, i + t.len() as int) =~= ra.subrange(
                        i,
                        i + t.len() as int,
                    ));
                    assert(match_at(rep, t, i));
                } else if i >= rep.len() {
                    assert(rest.subrange(i - rep.len(), i - rep.len() + t.len() as int)
                        =~= ra.subrange(i, i + t.len() as int));
                    assert(match_at(rest, t, i - rep.len()));
                } else {
                    let k = rep.len() - i;
                    assert(0 < k < t.len());
                    assert(t.take(k as int) =~= rep.skip(i));
                    assert(is_suffix_of(t.take(k as int), rep));
                }
            }
        }
    } else {
        let s2 = s.skip(1);
        if t != p {
            assert(!text_contains(s2, t)) by {
                if text_contains(s2, t) {
                    let i = choose|i: int| match_at(s2, t, i);
                    lemma_match_in_skip(s, t, 1, i);
                }
            }
        }
        lemma_replace_all_clean(s2, p, rep, t);
        let rest = spec_replace_all(s2, p, rep);
        assert(ra == seq![s[0]] + rest);
        assert forall|i: int| !match_at(ra, t, i) by {
            if match_at(ra, t, i) {
                if i >= 1 {
                    assert(rest.subrange(i - 1, i - 1 + t.len() as int) =~= ra.subrange(
                        i,
                        i + t.len() as int,
                    ));
                    assert(match_at(rest, t, i - 1));
                } else {
                    assert(ra.subrange(0, t.len() as int) == ra.take(t.len() as int));
                    assert(is_prefix_of(t, ra));
                    assert(!is_prefix_of(t, s)) by {
                        if is_prefix_of(t, s) {
                            if t == p {
                            } else {
                                assert(s.subrange(0, t.len() as int) == s.take(t.len() as int));
                                assert(match_at(s, t, 0));
                            }
                        }
                    }
                    assert(t.skip(0) =~= t);
                    lemma_tail_not_prefix(s, p, rep, t, 0);
                    assert(false);
                }
            }
        }
    }
}

/// Splitting on a separator, with the semantics of `str::split`: the result
/// always has at least one segment, and splitting the empty text yields one
/// empty segment.
pub open spec fn spec_split(s: Seq<char>, sep: char) -> Seq<Seq<char>>
    decreases s.len(),
{
    if s.len() == 0 {
        seq![Seq::<char>::empty()]
    } else if s[0] == sep {
        seq![Seq::<char>::empty()] + spec_split(s.skip(1), sep)
    } else {
        let rest = spec_split(s.skip(1), sep);
        seq![seq![s[0]] + rest[0]] + rest.skip(1)
    }
}

pub proof fn lemma_split_nonempty(s: Seq<char>, sep: char)
    ensures
        spec_split(s, sep).len() >= 1,
    decreases s.len(),
{
    if s.len() == 0 {
    } else {
        lemma_split_nonempty(s.skip(1), sep);
    }
}

/// The segments of `s@.skip(i)` around `/`, as owned strings.
fn split_slash_from(s: &str, i: usize, n: usize) -> (r: Vec<String>)
    requires
        n == s@.len() <= usize::MAX,
        i <= n,
    ensures
        r@.len() == spec_split(s@.skip(i as int), '/').len(),
        forall|j: int|
            0 <= j < r@.len() ==> r@[j]@ == spec_split(s@.skip(i as int), '/')[j],
    decreases n - i,
{
    let ghost t = s@.skip(i as int);
    if i == n {
        proof {
            assert(t =~= Seq::<char>::empty());
        }
        let mut r: Vec<String> = Vec::new();
        r.push(String::new());
        r
    } else {
        let c = s.get_char(i);
        let mut rest = split_slash_from(s, i + 1, n);
        proof {
            assert(t.skip(1) =~= s@.skip(i + 1));
            assert(t[0] == s@[i as int]);
            lemma_split_nonempty(s@.skip(i + 1), '/');
        }
        if c == '/' {
            rest.insert(0, String::new());
            rest
        } else {
            let mut first = String::from_str(s.substring_char(i, i + 1));
            first.append(rest[0].as_str());
            proof {
                assert(s@.subrange(i as int, i + 1) =~= seq![t[0]]);
            }
            rest.set(0, first);
            rest
        }
    }
}

/// The segments of `s` around `/`.
pub fn split_slash(s: &str) -> (r: Vec<String>)
    ensures
        r@.len() == spec_split(s@, '/').len(),
        forall|j: int| 0 <= j < r@.len() ==> r@[j]@ == spec_split(s@, '/')[j],
{
    let n = s.unicode_len();
    let r = split_slash_from(s, 0, n);
    proof {
        assert(s@.skip(0) =~= s@);
    }
    r
}

/// The decimal digit characters.
pub open spec fn digit_char(d: int) -> char {
    if d == 0 {
        '0'
    } else if d == 1 {
        '1'
    } else if d == 2 {
        '2'
    } else if d == 3 {
        '3'
    } else if d == 4 {
        '4'
    } else if d == 5 {
        '5'
    } else if d == 6 {
        '6'
    } else if d == 7 {
        '7'
    } else if d == 8 {
        '8'
    } else {
        '9'
    }
}

/// The decimal rendering of a non-negative integer, most significant digit
/// first, with no leading zeros (and "0" for zero).
pub open spec fn spec_decimal(n: int) -> Seq<char>
    decreases n,
{
    if n < 10 {
        seq![digit_char(n)]
    } else {
        spec_decimal(n / 10) + seq![digit_char(n % 10)]
    }
}

fn digit_str(d: u8) -> (r: &'static str)
    requires
        d < 10,
    ensures
        r@ == seq![digit_char(d as int)],
{
    proof {
        reveal_strlit("0");
        reveal_strlit("1");
        reveal_strlit("2");
        reveal_strlit("3");
        reveal_strlit("4");
        reveal_strlit("5");
        reveal_strlit("6");
        reveal_strlit("7");
        reveal_strlit("8");
        reveal_strlit("9");
    }
    let r = match d {
        0 => "0",
        1 => "1",
        2 => "2",
        3 => "3",
        4 => "4",
        5 => "5",
        6 => "6",
        7 => "7",
        8 => "8",
        _ => "9",
    };
    proof {
        assert(r@ =~= seq![digit_char(d as int)]);
    }
    r
}

/// The decimal rendering of `n`.
pub fn u8_to_decimal(n: u8) -> (r: String)
    ensures
        r@ == spec_decimal(n as int),
    decreases n,
{
    if n < 10 {
        String::from_str(digit_str(n))
    } else {
        let mut r = u8_to_decimal(n / 10);
        r.append(digit_str(n % 10));
        r
    }
}

} // verus!
