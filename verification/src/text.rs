//! Verified text utilities.
//!
//! Everything downstream (URL assembly, query-filter serialization and
//! parsing) is built from the functions here, each specified against
//! `Seq<char>` views.

use vstd::prelude::*;
use vstd::string::*;

verus! {

// --- spec-level predicates --------------------------------------------------

/// `pat` occurs in `s` starting at position `i`.
pub open spec fn occurs_at(s: Seq<char>, pat: Seq<char>, i: int) -> bool {
    0 <= i && i + pat.len() <= s.len() && s.subrange(i, i + pat.len()) == pat
}

/// No character of `s` is `c`.
pub open spec fn free_of(s: Seq<char>, c: char) -> bool {
    forall|i: int| 0 <= i < s.len() ==> s[i] != c
}

// --- exec basics ------------------------------------------------------------

/// Character-wise equality of two string slices.
pub fn str_eq(a: &str, b: &str) -> (r: bool)
    ensures
        r == (a@ == b@),
{
    let alen = a.unicode_len();
    let blen = b.unicode_len();
    if alen != blen {
        return false;
    }
    let mut i: usize = 0;
    while i < alen
        invariant
            a@.len() == alen,
            b@.len() == blen,
            alen == blen,
            i <= alen,
            forall|j: int| 0 <= j < i ==> a@[j] == b@[j],
        decreases alen - i,
    {
        if a.get_char(i) != b.get_char(i) {
            return false;
        }
        i += 1;
    }
    proof {
        assert(a@ =~= b@);
    }
    true
}

/// Whether `pat` occurs in `s` at position `i`.
pub fn match_at(s: &str, pat: &str, i: usize) -> (r: bool)
    requires
        i <= s@.len(),
    ensures
        r == occurs_at(s@, pat@, i as int),
{
    let slen = s.unicode_len();
    let plen = pat.unicode_len();
    if plen > slen - i {
        return false;
    }
    let mut j: usize = 0;
    while j < plen
        invariant
            s@.len() == slen,
            pat@.len() == plen,
            i + plen <= slen,
            j <= plen,
            forall|k: int| 0 <= k < j ==> s@[i + k] == pat@[k],
        decreases plen - j,
    {
        if s.get_char(i + j) != pat.get_char(j) {
            proof {
                assert(s@.subrange(i as int, i + plen) != pat@) by {
                    assert(s@.subrange(i as int, i + plen)[j as int] == s@[i + j]);
                }
            }
            return false;
        }
        j += 1;
    }
    proof {
        assert(s@.subrange(i as int, i + plen) =~= pat@);
    }
    true
}

// --- replacement ------------------------------------------------------------

/// Replace every (leftmost, non-overlapping) occurrence of `pat` in `s`
/// by `rep`, as `str::replace` does for a non-empty pattern.
pub open spec fn replace_all(s: Seq<char>, pat: Seq<char>, rep: Seq<char>) -> Seq<char>
    decreases s.len(),
    when pat.len() > 0
{
    if s.len() == 0 {
        Seq::empty()
    } else if pat.len() <= s.len() && s.subrange(0, pat.len() as int) == pat {
        rep + replace_all(s.skip(pat.len() as int), pat, rep)
    } else {
        seq![s[0]] + replace_all(s.skip(1), pat, rep)
    }
}

proof fn lemma_skip_skip<A>(s: Seq<A>, i: int, j: int)
    requires
        0 <= i,
        0 <= j,
        i + j <= s.len(),
    ensures
        s.skip(i).skip(j) == s.skip(i + j),
{
    assert(s.skip(i).skip(j) =~= s.skip(i + j));
}

proof fn lemma_subrange_of_skip(s: Seq<char>, i: int, n: int)
    requires
        0 <= i,
        0 <= n,
        i + n <= s.len(),
    ensures
        s.skip(i).subrange(0, n) == s.subrange(i, i + n),
{
    assert(s.skip(i).subrange(0, n) =~= s.subrange(i, i + n));
}

/// Exec counterpart of `replace_all`.
pub fn replace_all_str(s: &str, pat: &str, rep: &str) -> (r: String)
    requires
        pat@.len() > 0,
    ensures
        r@ == replace_all(s@, pat@, rep@),
{
    let slen = s.unicode_len();
    let plen = pat.unicode_len();
    let mut out = String::new();
    let mut i: usize = 0;
    proof {
        assert(s@.skip(0) =~= s@);
        assert(Seq::<char>::empty() + replace_all(s@, pat@, rep@) =~= replace_all(
            s@,
            pat@,
            rep@,
        ));
    }
    while i < slen
        invariant
            s@.len() == slen,
            pat@.len() == plen,
            plen > 0,
            i <= slen,
            out@ + replace_all(s@.skip(i as int), pat@, rep@) == replace_all(s@, pat@, rep@),
        decreases slen - i,
    {
        if match_at(s, pat, i) {
            proof {
                lemma_subrange_of_skip(s@, i as int, plen as int);
                lemma_skip_skip(s@, i as int, plen as int);
                assert(s@.skip(i as int).subrange(0, plen as int) == pat@);
            }
            out.append(rep);
            i = i + plen;
        } else {
            proof {
                if plen <= slen - i {
                    lemma_subrange_of_skip(s@, i as int, plen as int);
                }
                lemma_skip_skip(s@, i as int, 1);
                assert(s@.skip(i as int)[0] == s@[i as int]);
            }
            let piece = s.substring_char(i, i + 1);
            proof {
                assert(piece@ =~= seq![s@[i as int]]);
            }
            out.append(piece);
            i = i + 1;
        }
    }
    proof {
        assert(s@.skip(slen as int) =~= Seq::<char>::empty());
        assert(out@ + Seq::<char>::empty() =~= out@);
    }
    out
}

// --- lemmas about replacement -----------------------------------------------

pub proof fn lemma_free_of_concat(a: Seq<char>, b: Seq<char>, c: char)
    requires
        free_of(a, c),
        free_of(b, c),
    ensures
        free_of(a + b, c),
{
    assert forall|i: int| 0 <= i < (a + b).len() implies (a + b)[i] != c by {
        if i < a.len() {
            assert((a + b)[i] == a[i]);
        } else {
            assert((a + b)[i] == b[i - a.len()]);
        }
    }
}

pub proof fn lemma_free_of_skip(s: Seq<char>, n: int, c: char)
    requires
        0 <= n <= s.len(),
        free_of(s, c),
    ensures
        free_of(s.skip(n), c),
{
    assert forall|i: int| 0 <= i < s.skip(n).len() implies s.skip(n)[i] != c by {
        assert(s.skip(n)[i] == s[i + n]);
    }
}

// --- first occurrence of a character ----------------------------------------

/// Index of the first occurrence of `c` in `s`, if any.
pub open spec fn ffind_char(s: Seq<char>, c: char) -> Option<int>
    decreases s.len(),
{
    if s.len() == 0 {
        None
    } else if s[0] == c {
        Some(0)
    } else {
        match ffind_char(s.skip(1), c) {
            Some(i) => Some(i + 1),
            None => None,
        }
    }
}

/// In `p + [c] + t` with `p` free of `c`, the first `c` sits at `p.len()`.
pub proof fn lemma_ffind_prefix(p: Seq<char>, t: Seq<char>, c: char)
    requires
        free_of(p, c),
    ensures
        ffind_char(p + seq![c] + t, c) == Some(p.len() as int),
    decreases p.len(),
{
    let s = p + seq![c] + t;
    if p.len() == 0 {
        assert(s[0] == c);
    } else {
        assert(s[0] == p[0]);
        assert(s[0] != c);
        lemma_free_of_skip(p, 1, c);
        lemma_ffind_prefix(p.skip(1), t, c);
        assert(s.skip(1) =~= p.skip(1) + seq![c] + t);
    }
}

/// Exec search for the first occurrence of `c`.
pub fn find_char(s: &str, c: char) -> (r: Option<usize>)
    ensures
        match r {
            Some(i) => i < s@.len() && s@[i as int] == c && free_of(s@.subrange(0, i as int), c)
                && ffind_char(s@, c) == Some(i as int),
            None => free_of(s@, c) && ffind_char(s@, c) is None,
        },
{
    let n = s.unicode_len();
    let mut i: usize = 0;
    while i < n
        invariant
            s@.len() == n,
            i <= n,
            forall|j: int| 0 <= j < i ==> s@[j] != c,
        decreases n - i,
    {
        if s.get_char(i) == c {
            proof {
                assert(s@.subrange(0, i as int).len() == i);
                assert(forall|j: int|
                    0 <= j < i ==> s@.subrange(0, i as int)[j] == s@[j]);
                lemma_ffind_exact(s@, c, i as int);
            }
            return Some(i);
        }
        i += 1;
    }
    proof {
        lemma_ffind_absent(s@, c);
    }
    None
}

/// If everything before `i` differs from `c` and `s[i] == c`, the first
/// occurrence is at `i`.
proof fn lemma_ffind_exact(s: Seq<char>, c: char, i: int)
    requires
        0 <= i < s.len(),
        s[i] == c,
        forall|j: int| 0 <= j < i ==> s[j] != c,
    ensures
        ffind_char(s, c) == Some(i),
    decreases i,
{
    if i == 0 {
    } else {
        assert(s[0] != c);
        assert(s.skip(1)[i - 1] == c);
        assert(forall|j: int| 0 <= j < i - 1 ==> s.skip(1)[j] == s[j + 1]);
        lemma_ffind_exact(s.skip(1), c, i - 1);
    }
}

/// A text free of `c` has no first occurrence of `c`.
proof fn lemma_ffind_absent(s: Seq<char>, c: char)
    requires
        free_of(s, c),
    ensures
        ffind_char(s, c) is None,
    decreases s.len(),
{
    if s.len() == 0 {
    } else {
        lemma_free_of_skip(s, 1, c);
        lemma_ffind_absent(s.skip(1), c);
    }
}

// --- last occurrence of a pattern -------------------------------------------

/// Largest `i <= from` at which `pat` occurs in `s`, if any.
pub open spec fn rfind_at(s: Seq<char>, pat: Seq<char>, from: int) -> Option<int>
    decreases if from < 0 { 0 } else { from + 1 },
{
    if from < 0 {
        None
    } else if occurs_at(s, pat, from) {
        Some(from)
    } else {
        rfind_at(s, pat, from - 1)
    }
}

/// If `pat` occurs at `k` and nowhere in `(k, from]`, the last occurrence
/// up to `from` is `k`.
pub proof fn lemma_rfind_exact(s: Seq<char>, pat: Seq<char>, from: int, k: int)
    requires
        0 <= k <= from,
        occurs_at(s, pat, k),
        forall|j: int| k < j <= from ==> !occurs_at(s, pat, j),
    ensures
        rfind_at(s, pat, from) == Some(k),
    decreases from,
{
    if from == k {
    } else {
        assert(!occurs_at(s, pat, from));
        lemma_rfind_exact(s, pat, from - 1, k);
    }
}

/// Exec search for the last occurrence of `pat`, scanning from the end.
pub fn rfind_str(s: &str, pat: &str) -> (r: Option<usize>)
    requires
        pat@.len() > 0,
    ensures
        match r {
            Some(i) => occurs_at(s@, pat@, i as int) && rfind_at(
                s@,
                pat@,
                s@.len() - pat@.len(),
            ) == Some(i as int),
            None => rfind_at(s@, pat@, s@.len() - pat@.len()) is None,
        },
{
    let slen = s.unicode_len();
    let plen = pat.unicode_len();
    if plen > slen {
        proof {
            lemma_rfind_none_below(s@, pat@, slen - plen);
        }
        return None;
    }
    let mut i: usize = slen - plen;
    loop
        invariant
            s@.len() == slen,
            pat@.len() == plen,
            plen <= slen,
            i <= slen - plen,
            forall|j: int| i < j <= slen - plen ==> !occurs_at(s@, pat@, j),
        decreases i + 1,
    {
        if match_at(s, pat, i) {
            proof {
                lemma_rfind_exact(s@, pat@, slen - plen, i as int);
            }
            return Some(i);
        }
        if i == 0 {
            proof {
                lemma_rfind_none_below(s@, pat@, slen - plen);
            }
            return None;
        }
        i -= 1;
    }
}

/// With no occurrence anywhere at or below `from`, there is no last
/// occurrence.
proof fn lemma_rfind_none_below(s: Seq<char>, pat: Seq<char>, from: int)
    requires
        forall|j: int| 0 <= j <= from ==> !occurs_at(s, pat, j),
    ensures
        rfind_at(s, pat, from) is None,
    decreases if from < 0 { 0 } else { from + 1 },
{
    if from >= 0 {
        lemma_rfind_none_below(s, pat, from - 1);
    }
}

// --- splitting and joining on a character ------------------------------------

/// Split `s` at every occurrence of `c`; always at least one segment.
pub open spec fn split_char(s: Seq<char>, c: char) -> Seq<Seq<char>>
    decreases s.len(),
{
    if s.len() == 0 {
        seq![Seq::<char>::empty()]
    } else if s[0] == c {
        seq![Seq::<char>::empty()] + split_char(s.skip(1), c)
    } else {
        let r = split_char(s.skip(1), c);
        seq![seq![s[0]] + r[0]] + r.skip(1)
    }
}

/// Join segments, putting `c` between neighbours.
pub open spec fn join_char(parts: Seq<Seq<char>>, c: char) -> Seq<char>
    decreases parts.len(),
{
    if parts.len() == 0 {
        Seq::empty()
    } else if parts.len() == 1 {
        parts[0]
    } else {
        parts[0] + seq![c] + join_char(parts.skip(1), c)
    }
}

/// Splitting always yields at least one segment.
pub proof fn lemma_split_char_len(s: Seq<char>, c: char)
    ensures
        split_char(s, c).len() >= 1,
    decreases s.len(),
{
    if s.len() == 0 {
    } else {
        lemma_split_char_len(s.skip(1), c);
    }
}

/// A text free of `c` splits into just itself.
pub proof fn lemma_split_free(s: Seq<char>, c: char)
    requires
        free_of(s, c),
    ensures
        split_char(s, c) == seq![s],
    decreases s.len(),
{
    if s.len() == 0 {
        assert(split_char(s, c) =~~= seq![s]);
    } else {
        assert(s[0] != c);
        lemma_free_of_skip(s, 1, c);
        lemma_split_free(s.skip(1), c);
        let r = split_char(s.skip(1), c);
        assert(r[0] == s.skip(1));
        assert(seq![s[0]] + s.skip(1) =~= s);
        assert(split_char(s, c) =~~= seq![s]);
    }
}

/// Splitting `p + [c] + t` with `p` free of `c` peels off `p`.
pub proof fn lemma_split_prefix(p: Seq<char>, t: Seq<char>, c: char)
    requires
        free_of(p, c),
    ensures
        split_char(p + seq![c] + t, c) == seq![p] + split_char(t, c),
    decreases p.len(),
{
    let s = p + seq![c] + t;
    if p.len() == 0 {
        assert(s[0] == c);
        assert(s.skip(1) =~= t);
        assert(split_char(s, c) =~~= seq![p] + split_char(t, c));
    } else {
        assert(s[0] == p[0]);
        assert(s[0] != c);
        lemma_free_of_skip(p, 1, c);
        lemma_split_prefix(p.skip(1), t, c);
        assert(s.skip(1) =~= p.skip(1) + seq![c] + t);
        let r = split_char(s.skip(1), c);
        assert(r == seq![p.skip(1)] + split_char(t, c));
        assert(r[0] == p.skip(1));
        assert(seq![s[0]] + r[0] =~= p);
        assert(r.skip(1) =~= split_char(t, c));
        assert(split_char(s, c) =~~= seq![p] + split_char(t, c));
    }
}

/// Splitting undoes joining when no segment holds the separator.
pub proof fn lemma_split_join(parts: Seq<Seq<char>>, c: char)
    requires
        parts.len() >= 1,
        forall|i: int| 0 <= i < parts.len() ==> free_of(#[trigger] parts[i], c),
    ensures
        split_char(join_char(parts, c), c) == parts,
    decreases parts.len(),
{
    if parts.len() == 1 {
        lemma_split_free(parts[0], c);
        assert(split_char(join_char(parts, c), c) =~~= parts);
    } else {
        let rest = parts.skip(1);
        assert(forall|i: int| 0 <= i < rest.len() ==> rest[i] == parts[i + 1]);
        lemma_split_join(rest, c);
        assert(join_char(parts, c) == parts[0] + seq![c] + join_char(rest, c));
        lemma_split_prefix(parts[0], join_char(rest, c), c);
        assert(split_char(join_char(parts, c), c) =~~= parts);
    }
}

/// Joining one more segment on the right.
pub proof fn lemma_join_push(parts: Seq<Seq<char>>, p: Seq<char>, c: char)
    ensures
        parts.len() == 0 ==> join_char(parts.push(p), c) == p,
        parts.len() > 0 ==> join_char(parts.push(p), c) == join_char(parts, c) + seq![c] + p,
    decreases parts.len(),
{
    if parts.len() == 0 {
        assert(parts.push(p)[0] == p);
    } else if parts.len() == 1 {
        assert(parts.push(p).skip(1) =~= seq![p]);
        assert(join_char(seq![p], c) == p);
        assert(join_char(parts.push(p), c) == parts.push(p)[0] + seq![c] + p);
        assert(parts.push(p)[0] == parts[0]);
    } else {
        lemma_join_push(parts.skip(1), p, c);
        assert(parts.push(p).skip(1) =~= parts.skip(1).push(p));
        assert(join_char(parts.push(p), c) == parts.push(p)[0] + seq![c] + join_char(
            parts.skip(1).push(p),
            c,
        ));
        assert(parts.push(p)[0] == parts[0]);
    }
}

/// Exec split on a character.
pub fn split_str(s: &str, c: char) -> (r: Vec<String>)
    ensures
        r.deep_view() == split_char(s@, c),
{
    let n = s.unicode_len();
    let mut out: Vec<String> = Vec::new();
    let mut cur = String::new();
    let mut i: usize = 0;
    proof {
        assert(s@.skip(0) =~= s@);
    }
    while i < n
        invariant
            s@.len() == n,
            i <= n,
            split_char(s@, c) =~~= out.deep_view() + seq![cur@ + split_char(s@.skip(i as int), c)[0]]
                + split_char(s@.skip(i as int), c).skip(1),
        decreases n - i,
    {
        let ch = s.get_char(i);
        proof {
            lemma_skip_skip(s@, i as int, 1);
            assert(s@.skip(i as int)[0] == s@[i as int]);
            lemma_split_char_len(s@.skip(i as int + 1), c);
        }
        if ch == c {
            let ghost prev_out = out.deep_view();
            let done = cur;
            cur = String::new();
            out.push(done);
            proof {
                let r2 = split_char(s@.skip(i as int + 1), c);
                assert(split_char(s@.skip(i as int), c) == seq![Seq::<char>::empty()] + r2);
                assert((seq![Seq::<char>::empty()] + r2)[0] =~= Seq::<char>::empty());
                assert((seq![Seq::<char>::empty()] + r2).skip(1) =~= r2);
                assert(r2 =~~= seq![r2[0]] + r2.skip(1));
                assert(out.deep_view() =~~= prev_out.push(done@));
                assert(split_char(s@, c) =~~= out.deep_view() + seq![cur@ + r2[0]] + r2.skip(
                    1,
                ));
            }
        } else {
            let ghost prev_cur = cur@;
            let piece = s.substring_char(i, i + 1);
            proof {
                assert(piece@ =~= seq![s@[i as int]]);
            }
            cur.append(piece);
            proof {
                let r2 = split_char(s@.skip(i as int + 1), c);
                assert(split_char(s@.skip(i as int), c) == seq![seq![s@[i as int]] + r2[0]]
                    + r2.skip(1));
                assert((seq![seq![s@[i as int]] + r2[0]] + r2.skip(1))[0] == seq![s@[i as int]]
                    + r2[0]);
                assert((seq![seq![s@[i as int]] + r2[0]] + r2.skip(1)).skip(1) =~= r2.skip(1));
                assert(r2 =~~= seq![r2[0]] + r2.skip(1));
                assert(cur@ + r2[0] =~= prev_cur + (seq![s@[i as int]] + r2[0]));
                assert(split_char(s@, c) =~~= out.deep_view() + seq![cur@ + r2[0]] + r2.skip(
                    1,
                ));
            }
        }
        i += 1;
    }
    proof {
        assert(s@.skip(n as int) =~= Seq::<char>::empty());
        assert(split_char(Seq::<char>::empty(), c) == seq![Seq::<char>::empty()]);
    }
    out.push(cur);
    proof {
        assert(out.deep_view() =~~= split_char(s@, c));
    }
    out
}

// --- prefix / suffix / trim -------------------------------------------------

/// Whether `p` is a suffix of `s`.
pub open spec fn is_suffix(s: Seq<char>, p: Seq<char>) -> bool {
    p.len() <= s.len() && s.subrange(s.len() - p.len(), s.len() as int) == p
}

pub fn ends_with_str(s: &str, p: &str) -> (r: bool)
    ensures
        r == is_suffix(s@, p@),
{
    let slen = s.unicode_len();
    let plen = p.unicode_len();
    if plen > slen {
        return false;
    }
    let r = match_at(s, p, slen - plen);
    r
}

/// `s` with every leading `c` removed.
pub open spec fn trim_leading(s: Seq<char>, c: char) -> Seq<char>
    decreases s.len(),
{
    if s.len() > 0 && s[0] == c {
        trim_leading(s.skip(1), c)
    } else {
        s
    }
}

proof fn lemma_trim_leading_skip(s: Seq<char>, c: char, n: int)
    requires
        0 <= n <= s.len(),
        forall|j: int| 0 <= j < n ==> s[j] == c,
        n == s.len() || s[n] != c,
    ensures
        trim_leading(s, c) == s.skip(n),
    decreases n,
{
    if n == 0 {
        assert(s.skip(0) =~= s);
    } else {
        assert(s[0] == c);
        assert(forall|j: int| 0 <= j < n - 1 ==> s.skip(1)[j] == s[j + 1]);
        if n < s.len() {
            assert(s.skip(1)[n - 1] == s[n as int]);
        }
        lemma_trim_leading_skip(s.skip(1), c, n - 1);
        lemma_skip_skip(s, 1, n - 1);
    }
}

fn count_leading(s: &str, c: char) -> (i: usize)
    ensures
        i <= s@.len(),
        forall|j: int| 0 <= j < i ==> s@[j] == c,
        i == s@.len() || s@[i as int] != c,
{
    let n = s.unicode_len();
    let mut i: usize = 0;
    while i < n
        invariant
            s@.len() == n,
            i <= n,
            forall|j: int| 0 <= j < i ==> s@[j] == c,
        decreases n - i,
    {
        if s.get_char(i) != c {
            return i;
        }
        i += 1;
    }
    i
}

/// Exec trim of leading copies of `c`.
pub fn trim_leading_str(s: &str, c: char) -> (r: &str)
    ensures
        r@ == trim_leading(s@, c),
{
    let n = s.unicode_len();
    let i = count_leading(s, c);
    proof {
        lemma_trim_leading_skip(s@, c, i as int);
    }
    let r = s.substring_char(i, n);
    proof {
        assert(r@ =~= s@.skip(i as int));
    }
    r
}

// --- decimal rendering -------------------------------------------------------

/// The decimal digit character for `d`.
pub open spec fn dec_digit(d: int) -> char {
    if d == 0 {
        '0'
    } else if d == 1 {
        '1'
    } else if d == 2 {
        '2'
    } else if d == 3 {
        '3'
    } else if d == 4 {
        '4'
    } else if d == 5 {
        '5'
    } else if d == 6 {
        '6'
    } else if d == 7 {
        '7'
    } else if d == 8 {
        '8'
    } else {
        '9'
    }
}

/// Decimal rendering of a natural number, no leading zeros.
pub open spec fn dec_nat(n: nat) -> Seq<char>
    decreases n,
{
    if n < 10 {
        seq![dec_digit(n as int)]
    } else {
        dec_nat(n / 10) + seq![dec_digit((n % 10) as int)]
    }
}

/// Decimal rendering of an integer, `-` prefixed when negative.
pub open spec fn dec_int(n: int) -> Seq<char> {
    if n < 0 {
        seq!['-'] + dec_nat((-n) as nat)
    } else {
        dec_nat(n as nat)
    }
}

fn digit_str(d: u64) -> (r: &'static str)
    requires
        d < 10,
    ensures
        r@ == seq![dec_digit(d as int)],
{
    let digits = "0123456789";
    proof {
        reveal_strlit("0123456789");
    }
    let r = digits.substring_char(d as usize, (d as usize) + 1);
    proof {
        assert(r@ =~= seq![digits@[d as int]]);
        assert(digits@[d as int] == dec_digit(d as int));
    }
    r
}

/// Decimal rendering of a `u64`.
pub fn u64_to_dec(n: u64) -> (r: String)
    ensures
        r@ == dec_nat(n as nat),
    decreases n,
{
    if n < 10 {
        let d = digit_str(n);
        let r = String::from_str(d);
        r
    } else {
        let mut s = u64_to_dec(n / 10);
        let d = digit_str(n % 10);
        s.append(d);
        s
    }
}

/// Decimal rendering of an `i32`.
pub fn i32_to_dec(n: i32) -> (r: String)
    ensures
        r@ == dec_int(n as int),
{
    if n < 0 {
        let m: u64 = (-(n as i64)) as u64;
        let mut s = String::from_str("-");
        proof {
            reveal_strlit("-");
        }
        let t = u64_to_dec(m);
        s.append(t.as_str());
        proof {
            assert(s@ =~= dec_int(n as int));
        }
        s
    } else {
        let r = u64_to_dec(n as u64);
        r
    }
}

/// Whether the last character of `s` is `c`.
pub fn ends_with_char(s: &str, c: char) -> (r: bool)
    ensures
        r == (s@.len() > 0 && s@[s@.len() - 1] == c),
{
    let n = s.unicode_len();
    if n == 0 {
        false
    } else {
        s.get_char(n - 1) == c
    }
}

} // verus!
