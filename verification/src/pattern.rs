//! Searching, replacing and splitting text by a pattern, as the `str`
//! methods `find`, `rfind`, `replace`, `split` and `trim_start_matches` do,
//! over sequences of characters.
use crate::text::{is_whitespace, is_ws, occurs_at, occurs_at_exec};
use vstd::prelude::*;

verus! {

/// The first position at or after `i` where `p` occurs in `s`.
pub open spec fn find_from(s: Seq<char>, p: Seq<char>, i: int) -> Option<int>
    decreases s.len() + 1 - i,
{
    if i < 0 || i + p.len() > s.len() {
        None
    } else if occurs_at(s, p, i) {
        Some(i)
    } else {
        find_from(s, p, i + 1)
    }
}

/// The first position where `p` occurs in `s`, as `str::find`.
pub open spec fn find(s: Seq<char>, p: Seq<char>) -> Option<int> {
    find_from(s, p, 0)
}

/// The last position of `c` in `s`, as `str::rfind` with a `char`.
pub open spec fn rfind_char(s: Seq<char>, c: char) -> Option<int>
    decreases s.len(),
{
    if s.len() == 0 {
        None
    } else if s.last() == c {
        Some(s.len() - 1)
    } else {
        rfind_char(s.drop_last(), c)
    }
}

/// `s` with every occurrence of the non-empty pattern `p` replaced by
/// `q`, scanning from the left without overlap, as `str::replace`.
pub open spec fn replace_all(s: Seq<char>, p: Seq<char>, q: Seq<char>) -> Seq<char>
    decreases s.len(),
{
    if p.len() == 0 || s.len() < p.len() {
        s
    } else if s.subrange(0, p.len() as int) == p {
        q + replace_all(s.subrange(p.len() as int, s.len() as int), p, q)
    } else {
        seq![s[0]] + replace_all(s.drop_first(), p, q)
    }
}

/// `s` without its leading copies of `c`, as `str::trim_start_matches`.
pub open spec fn strip_leading(s: Seq<char>, c: char) -> Seq<char>
    decreases s.len(),
{
    if s.len() > 0 && s[0] == c {
        strip_leading(s.drop_first(), c)
    } else {
        s
    }
}

/// `s` without its white-space characters.
pub open spec fn without_ws(s: Seq<char>) -> Seq<char>
    decreases s.len(),
{
    if s.len() == 0 {
        s
    } else if is_ws(s.last()) {
        without_ws(s.drop_last())
    } else {
        without_ws(s.drop_last()).push(s.last())
    }
}

/// The pieces of `s` that follow the piece under construction `cur`,
/// split at each occurrence of the non-empty separator `sep`.
pub open spec fn split_from(s: Seq<char>, sep: Seq<char>, cur: Seq<char>) -> Seq<Seq<char>>
    decreases s.len(),
{
    if sep.len() == 0 || s.len() == 0 {
        seq![cur]
    } else if s.len() >= sep.len() && s.subrange(0, sep.len() as int) == sep {
        seq![cur] + split_from(s.subrange(sep.len() as int, s.len() as int), sep, seq![])
    } else {
        split_from(s.drop_first(), sep, cur.push(s[0]))
    }
}

/// The pieces of `s` between occurrences of `sep`, as `str::split`: one
/// more piece than there are separators, empty pieces included.
pub open spec fn split(s: Seq<char>, sep: Seq<char>) -> Seq<Seq<char>> {
    split_from(s, sep, seq![])
}

proof fn lemma_find_from_bound(s: Seq<char>, p: Seq<char>, i: int)
    ensures
        find_from(s, p, i) matches Some(k) ==> i <= k && k + p.len() <= s.len() && occurs_at(s, p, k),
    decreases s.len() + 1 - i,
{
    if i >= 0 && i + p.len() <= s.len() && !occurs_at(s, p, i) {
        lemma_find_from_bound(s, p, i + 1);
    }
}

/// A position `find` gives lies in `s`, and `p` occurs there.
pub proof fn lemma_find_bound(s: Seq<char>, p: Seq<char>)
    ensures
        find(s, p) matches Some(k) ==> 0 <= k && k + p.len() <= s.len() && occurs_at(s, p, k),
{
    lemma_find_from_bound(s, p, 0);
}

/// A position `rfind_char` gives lies in `s` and holds `c`.
pub proof fn lemma_rfind_bound(s: Seq<char>, c: char)
    ensures
        rfind_char(s, c) matches Some(k) ==> 0 <= k < s.len() && s[k] == c,
    decreases s.len(),
{
    if s.len() > 0 && s.last() != c {
        lemma_rfind_bound(s.drop_last(), c);
    }
}

/// The first position at or after `from` where `p` occurs in `s`.
pub fn find_from_exec(s: &[char], p: &[char], from: usize) -> (r: Option<usize>)
    ensures
        match r {
            Some(i) => find_from(s@, p@, from as int) == Some(i as int),
            None => find_from(s@, p@, from as int).is_none(),
        },
{
    if p.len() > s.len() || from > s.len() - p.len() {
        return None;
    }
    let last = s.len() - p.len();
    let mut i = from;
    loop
        invariant
            p.len() <= s.len(),
            last == s.len() - p.len(),
            from <= i <= last,
            find_from(s@, p@, from as int) == find_from(s@, p@, i as int),
        decreases last - i,
    {
        if occurs_at_exec(s, p, i) {
            return Some(i);
        }
        if i == last {
            assert(find_from(s@, p@, i + 1).is_none());
            return None;
        }
        i = i + 1;
    }
}

/// The first position where `p` occurs in `s`, as `str::find`.
pub fn find_exec(s: &[char], p: &[char]) -> (r: Option<usize>)
    ensures
        match r {
            Some(i) => find(s@, p@) == Some(i as int),
            None => find(s@, p@).is_none(),
        },
{
    find_from_exec(s, p, 0)
}

/// The first position of `c` in `s`, as `str::find` with a `char`.
pub fn find_char(s: &[char], c: char) -> (r: Option<usize>)
    ensures
        match r {
            Some(i) => find(s@, seq![c]) == Some(i as int),
            None => find(s@, seq![c]).is_none(),
        },
{
    let p = vec![c];
    assert(p@ =~= seq![c]);
    find_exec(s, &p)
}

/// The last position of `c` in `s`, as `str::rfind` with a `char`.
pub fn rfind_char_exec(s: &[char], c: char) -> (r: Option<usize>)
    ensures
        match r {
            Some(i) => rfind_char(s@, c) == Some(i as int),
            None => rfind_char(s@, c).is_none(),
        },
{
    let mut j: usize = s.len();
    assert(s@.take(s.len() as int) =~= s@);
    while j > 0
        invariant
            j <= s.len(),
            rfind_char(s@, c) == rfind_char(s@.take(j as int), c),
        decreases j,
    {
        assert(s@.take(j as int).drop_last() =~= s@.take(j - 1));
        if s[j - 1] == c {
            return Some(j - 1);
        }
        j = j - 1;
    }
    None
}

proof fn lemma_replace_all_step(s: Seq<char>, p: Seq<char>, q: Seq<char>, i: int)
    requires
        p.len() > 0,
        0 <= i < s.len(),
    ensures
        s.len() - i >= p.len() && occurs_at(s, p, i) ==> replace_all(s.skip(i), p, q) == q
            + replace_all(s.skip(i + p.len()), p, q),
        !(s.len() - i >= p.len() && occurs_at(s, p, i)) ==> replace_all(s.skip(i), p, q)
            == seq![s[i]] + replace_all(s.skip(i + 1), p, q),
{
    let t = s.skip(i);
    assert(t.drop_first() =~= s.skip(i + 1));
    if t.len() >= p.len() {
        assert(t.subrange(0, p.len() as int) =~= s.subrange(i, i + p.len()));
        assert(t.subrange(p.len() as int, t.len() as int) =~= s.skip(i + p.len()));
    } else {
        assert(s.skip(i + 1).len() < p.len());
        assert(t =~= seq![s[i]] + s.skip(i + 1));
    }
}

/// `s` with every occurrence of `p` replaced by `q`, as `str::replace`.
pub fn replace_all_exec(s: &[char], p: &[char], q: &[char]) -> (r: Vec<char>)
    requires
        p.len() > 0,
    ensures
        r@ == replace_all(s@, p@, q@),
{
    let mut out: Vec<char> = Vec::new();
    let mut i: usize = 0;
    assert(s@.skip(0) =~= s@);
    while i < s.len()
        invariant
            p.len() > 0,
            i <= s.len(),
            out@ + replace_all(s@.skip(i as int), p@, q@) == replace_all(s@, p@, q@),
        decreases s.len() - i,
    {
        proof {
            lemma_replace_all_step(s@, p@, q@, i as int);
        }
        let ghost before = out@;
        if s.len() - i >= p.len() && occurs_at_exec(s, p, i) {
            crate::text::push_all(&mut out, q);
            proof {
                assert(before + (q@ + replace_all(s@.skip(i + p.len()), p@, q@)) =~= out@
                    + replace_all(s@.skip(i + p.len()), p@, q@));
            }
            i = i + p.len();
        } else {
            out.push(s[i]);
            proof {
                assert(before + (seq![s@[i as int]] + replace_all(s@.skip(i + 1), p@, q@)) =~= out@
                    + replace_all(s@.skip(i + 1), p@, q@));
            }
            i = i + 1;
        }
    }
    assert(s@.skip(i as int) =~= Seq::<char>::empty());
    assert(out@ =~= replace_all(s@, p@, q@));
    out
}

/// `s` without its leading copies of `c`, as `str::trim_start_matches`.
pub fn strip_leading_exec(s: &[char], c: char) -> (r: Vec<char>)
    ensures
        r@ == strip_leading(s@, c),
{
    let mut a: usize = 0;
    assert(s@.skip(0) =~= s@);
    while a < s.len() && s[a] == c
        invariant
            a <= s.len(),
            strip_leading(s@, c) == strip_leading(s@.skip(a as int), c),
        decreases s.len() - a,
    {
        assert(s@.skip(a as int).drop_first() =~= s@.skip(a + 1));
        a = a + 1;
    }
    slice_from(s, a)
}

/// The characters of `s` from position `a` on.
pub fn slice_from(s: &[char], a: usize) -> (r: Vec<char>)
    requires
        a <= s.len(),
    ensures
        r@ == s@.skip(a as int),
{
    let mut out: Vec<char> = Vec::new();
    let mut k: usize = a;
    while k < s.len()
        invariant
            a <= k <= s.len(),
            out@ == s@.subrange(a as int, k as int),
        decreases s.len() - k,
    {
        out.push(s[k]);
        assert(s@.subrange(a as int, k + 1) =~= s@.subrange(a as int, k as int).push(s@[k as int]));
        k = k + 1;
    }
    out
}

/// The first `n` characters of `s`.
pub fn slice_to(s: &[char], n: usize) -> (r: Vec<char>)
    requires
        n <= s.len(),
    ensures
        r@ == s@.take(n as int),
{
    let mut out: Vec<char> = Vec::new();
    let mut k: usize = 0;
    while k < n
        invariant
            k <= n <= s.len(),
            out@ == s@.take(k as int),
        decreases n - k,
    {
        out.push(s[k]);
        assert(s@.take(k + 1) =~= s@.take(k as int).push(s@[k as int]));
        k = k + 1;
    }
    out
}

/// `s` without its white-space characters.
pub fn without_ws_exec(s: &[char]) -> (r: Vec<char>)
    ensures
        r@ == without_ws(s@),
{
    let mut out: Vec<char> = Vec::new();
    let mut k: usize = 0;
    while k < s.len()
        invariant
            k <= s.len(),
            out@ == without_ws(s@.take(k as int)),
        decreases s.len() - k,
    {
        assert(s@.take(k + 1).drop_last() =~= s@.take(k as int));
        if !is_whitespace(s[k]) {
            out.push(s[k]);
        }
        k = k + 1;
    }
    assert(s@.take(s.len() as int) =~= s@);
    out
}

proof fn lemma_split_step(s: Seq<char>, sep: Seq<char>, i: int, cur: Seq<char>)
    requires
        sep.len() > 0,
        0 <= i < s.len(),
    ensures
        s.len() - i >= sep.len() && occurs_at(s, sep, i) ==> split_from(s.skip(i), sep, cur)
            == seq![cur] + split_from(s.skip(i + sep.len()), sep, seq![]),
        !(s.len() - i >= sep.len() && occurs_at(s, sep, i)) ==> split_from(s.skip(i), sep, cur)
            == split_from(s.skip(i + 1), sep, cur.push(s[i])),
{
    let t = s.skip(i);
    assert(t.drop_first() =~= s.skip(i + 1));
    if t.len() >= sep.len() {
        assert(t.subrange(0, sep.len() as int) =~= s.subrange(i, i + sep.len()));
        assert(t.subrange(sep.len() as int, t.len() as int) =~= s.skip(i + sep.len()));
    }
}

/// The pieces of `s` between occurrences of `sep`, as `str::split`.
pub fn split_exec(s: &[char], sep: &[char]) -> (r: Vec<Vec<char>>)
    requires
        sep.len() > 0,
    ensures
        r.deep_view() == split(s@, sep@),
{
    let mut out: Vec<Vec<char>> = Vec::new();
    let mut cur: Vec<char> = Vec::new();
    let mut i: usize = 0;
    assert(s@.skip(0) =~= s@);
    while i < s.len()
        invariant
            sep.len() > 0,
            i <= s.len(),
            out.deep_view() + split_from(s@.skip(i as int), sep@, cur@) == split(s@, sep@),
        decreases s.len() - i,
    {
        proof {
            lemma_split_step(s@, sep@, i as int, cur@);
        }
        if s.len() - i >= sep.len() && occurs_at_exec(s, sep, i) {
            let ghost before = out.deep_view();
            let piece = cur;
            assert(piece.deep_view() =~= piece@);
            out.push(piece);
            assert(out.deep_view() =~= before.push(piece@));
            assert(before + (seq![piece@] + split_from(s@.skip(i + sep.len()), sep@, seq![]))
                =~= out.deep_view() + split_from(s@.skip(i + sep.len()), sep@, seq![]));
            cur = Vec::new();
            assert(cur@ =~= Seq::<char>::empty());
            i = i + sep.len();
        } else {
            cur.push(s[i]);
            i = i + 1;
        }
    }
    assert(s@.skip(i as int) =~= Seq::<char>::empty());
    let ghost before = out.deep_view();
    assert(cur.deep_view() =~= cur@);
    out.push(cur);
    assert(out.deep_view() =~= before.push(cur@));
    assert(out.deep_view() =~= split(s@, sep@));
    out
}

} // verus!
