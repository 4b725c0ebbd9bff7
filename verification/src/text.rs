use vstd::prelude::*;
use vstd::string::StrSliceExecFns;
use vstd::string::StringExecFns;

verus! {

/// Index of the first occurrence of `c` in `s`, or `-1` when `c` does not
/// occur at all.
pub open spec fn first_index_of(s: Seq<char>, c: char) -> int
    decreases s.len(),
{
    if s.len() == 0 {
        -1
    } else if s[0] == c {
        0
    } else if first_index_of(s.skip(1), c) < 0 {
        -1
    } else {
        1 + first_index_of(s.skip(1), c)
    }
}

/// `first_index_of` finds the first occurrence: a non-negative result is a
/// position of `c` with no earlier one, and a negative result means `c` is
/// absent.
pub proof fn lemma_first_index_of(s: Seq<char>, c: char)
    ensures
        first_index_of(s, c) >= 0 ==> first_index_of(s, c) < s.len() && s[first_index_of(s, c)]
            == c && (forall|j: int| 0 <= j < first_index_of(s, c) ==> s[j] != c),
        first_index_of(s, c) < 0 ==> (forall|j: int| 0 <= j < s.len() ==> s[j] != c),
    decreases s.len(),
{
    if s.len() > 0 && s[0] != c {
        lemma_first_index_of(s.skip(1), c);
        let i1 = first_index_of(s.skip(1), c);
        if i1 < 0 {
            assert forall|j: int| 0 <= j < s.len() implies s[j] != c by {
                if j > 0 {
                    assert(s.skip(1)[j - 1] == s[j]);
                }
            }
        } else {
            assert(s.skip(1)[i1] == s[i1 + 1]);
            assert forall|j: int| 0 <= j < first_index_of(s, c) implies s[j] != c by {
                if j > 0 {
                    assert(s.skip(1)[j - 1] == s[j]);
                }
            }
        }
    }
}

/// `s` divided at every occurrence of `c`: the separators are dropped and the
/// pieces kept in order, so the result always holds one more piece than `s`
/// holds separators (a lone empty piece for an empty `s`).
pub open spec fn split_at_char(s: Seq<char>, c: char) -> Seq<Seq<char>>
    decreases s.len(),
    via split_at_char_decreases
{
    let i = first_index_of(s, c);
    if i < 0 {
        seq![s]
    } else {
        seq![s.take(i)] + split_at_char(s.skip(i + 1), c)
    }
}

#[via_fn]
proof fn split_at_char_decreases(s: Seq<char>, c: char) {
    lemma_first_index_of(s, c);
}

/// Splitting a sequence without any occurrence of `c` yields that sequence as
/// the single piece.
pub proof fn lemma_split_whole(s: Seq<char>, c: char)
    requires
        forall|j: int| 0 <= j < s.len() ==> s[j] != c,
    ensures
        split_at_char(s, c) == seq![s],
{
    lemma_first_index_of(s, c);
    if first_index_of(s, c) >= 0 {
        assert(s[first_index_of(s, c)] == c);
    }
}

/// When the first occurrence of `c` in `s` is at position `m`, the split is
/// the piece before `m` followed by the split of everything after `m`.
pub proof fn lemma_split_chunk(s: Seq<char>, c: char, m: int)
    requires
        0 <= m < s.len(),
        s[m] == c,
        forall|j: int| 0 <= j < m ==> s[j] != c,
    ensures
        split_at_char(s, c) == seq![s.take(m)] + split_at_char(s.skip(m + 1), c),
{
    lemma_first_index_of(s, c);
    let i = first_index_of(s, c);
    if i < 0 {
        assert(s[m] != c);
    }
    if i < m {
        assert(s[i] != c);
    }
    if i > m {
        assert(s[m] != c);
    }
    assert(i == m);
}

/// `s` ends with `suffix`.
pub open spec fn ends_with(s: Seq<char>, suffix: Seq<char>) -> bool {
    s.len() >= suffix.len() && s.subrange(s.len() - suffix.len(), s.len() as int) == suffix
}

/// `sub` occurs contiguously somewhere inside `s`.
pub open spec fn has_substring(s: Seq<char>, sub: Seq<char>) -> bool {
    exists|k: int| 0 <= k <= s.len() - sub.len() && #[trigger] s.subrange(k, k + sub.len()) == sub
}

/// Whatever contains `t` as a substring also contains every substring of `t`.
pub proof fn lemma_has_substring_trans(s: Seq<char>, t: Seq<char>, sub: Seq<char>)
    requires
        has_substring(s, t),
        has_substring(t, sub),
    ensures
        has_substring(s, sub),
{
    let k = choose|k: int| 0 <= k <= s.len() - t.len() && #[trigger] s.subrange(k, k + t.len())
        == t;
    let j = choose|j: int| 0 <= j <= t.len() - sub.len() && #[trigger] t.subrange(j, j + sub.len())
        == sub;
    assert(s.subrange(k + j, k + j + sub.len()) =~= t.subrange(j, j + sub.len()));
}

/// Equality test on string slices, specified through their views.
pub fn str_eq(a: &str, b: &str) -> (r: bool)
    ensures
        r == (a@ == b@),
{
    let n = a.unicode_len();
    if n != b.unicode_len() {
        return false;
    }
    let mut i: usize = 0;
    while i < n
        invariant
            0 <= i <= n,
            n == a@.len(),
            n == b@.len(),
            forall|j: int| 0 <= j < i ==> a@[j] == b@[j],
        decreases n - i,
    {
        if a.get_char(i) != b.get_char(i) {
            return false;
        }
        i = i + 1;
    }
    proof {
        assert(a@ =~= b@);
    }
    true
}

/// Suffix test on string slices, specified through `ends_with`.
pub fn str_ends_with(s: &str, suffix: &str) -> (r: bool)
    ensures
        r == ends_with(s@, suffix@),
{
    let n = s.unicode_len();
    let m = suffix.unicode_len();
    if m > n {
        return false;
    }
    let tail = s.substring_char(n - m, n);
    str_eq(tail, suffix)
}

/// `true` exactly when `s@.subrange(k, k + sub@.len()) == sub@`.
fn str_matches_at(s: &str, sub: &str, k: usize) -> (r: bool)
    requires
        k + sub@.len() <= s@.len(),
    ensures
        r == (s@.subrange(k as int, k as int + sub@.len()) == sub@),
{
    let n = s.unicode_len();
    let m = sub.unicode_len();
    let piece = s.substring_char(k, k + m);
    str_eq(piece, sub)
}

/// Substring search on string slices, specified through `has_substring`.
pub fn str_contains(s: &str, sub: &str) -> (r: bool)
    ensures
        r == has_substring(s@, sub@),
{
    let n = s.unicode_len();
    let m = sub.unicode_len();
    if m > n {
        proof {
            assert(!has_substring(s@, sub@));
        }
        return false;
    }
    let bound = n - m;
    let mut k: usize = 0;
    while k < bound
        invariant
            0 <= k <= bound,
            bound == n - m,
            m <= n,
            n == s@.len(),
            m == sub@.len(),
            forall|j: int| 0 <= j < k ==> #[trigger] s@.subrange(j, j + sub@.len()) != sub@,
        decreases bound - k,
    {
        if str_matches_at(s, sub, k) {
            return true;
        }
        k = k + 1;
    }
    str_matches_at(s, sub, bound)
}

/// Splits `s` at every occurrence of `c`, as `split_at_char` describes.
pub fn str_split(s: &str, c: char) -> (r: Vec<String>)
    ensures
        r.deep_view() == split_at_char(s@, c),
        r.len() >= 1,
{
    let n = s.unicode_len();
    let mut out: Vec<String> = Vec::new();
    let mut start: usize = 0;
    let mut i: usize = 0;
    proof {
        assert(s@.skip(0) =~= s@);
        assert(out.deep_view() =~= Seq::<Seq<char>>::empty());
        assert(out.deep_view() + split_at_char(s@, c) =~= split_at_char(s@, c));
    }
    while i < n
        invariant
            0 <= start <= i <= n,
            n == s@.len(),
            forall|j: int| start <= j < i ==> s@[j] != c,
            split_at_char(s@, c) == out.deep_view() + split_at_char(s@.skip(start as int), c),
        decreases n - i,
    {
        if s.get_char(i) == c {
            let ghost pre = out.deep_view();
            let seg = s.substring_char(start, i);
            out.push(seg.to_owned());
            proof {
                let t = s@.skip(start as int);
                assert(forall|j: int| 0 <= j < i - start ==> t[j] == s@[j + start]);
                assert(t[i - start] == s@[i as int]);
                lemma_split_chunk(t, c, i - start);
                assert(t.take(i - start) =~= s@.subrange(start as int, i as int));
                assert(t.skip(i - start + 1) =~= s@.skip(i + 1));
                assert(out.deep_view() =~= pre.push(s@.subrange(start as int, i as int)));
                assert(out.deep_view() + split_at_char(s@.skip(i + 1), c) =~= pre + (seq![
                    s@.subrange(start as int, i as int),
                ] + split_at_char(s@.skip(i + 1), c)));
            }
            start = i + 1;
        }
        i = i + 1;
    }
    let ghost pre = out.deep_view();
    let seg = s.substring_char(start, n);
    out.push(seg.to_owned());
    proof {
        let t = s@.skip(start as int);
        assert(forall|j: int| 0 <= j < t.len() ==> t[j] == s@[j + start]);
        lemma_split_whole(t, c);
        assert(t =~= s@.subrange(start as int, n as int));
        assert(out.deep_view() =~= pre.push(t));
        assert(out.deep_view() =~= pre + seq![t]);
    }
    out
}

/// Appends `piece` to `base`, with a separating `/`.
pub fn push_component(base: &mut String, piece: &str)
    ensures
        final(base)@ == old(base)@ + "/"@ + piece@,
{
    base.append("/");
    base.append(piece);
    proof {
        assert(base@ =~= old(base)@ + "/"@ + piece@);
    }
}

/// Joins one path component onto a directory, with a separating `/`.
pub fn path_join(dir: &str, name: &str) -> (r: String)
    ensures
        r@ == dir@ + "/"@ + name@,
{
    let mut out = dir.to_owned();
    push_component(&mut out, name);
    out
}

} // verus!
