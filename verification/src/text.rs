//! Character-level helpers on names: substring search, splitting and joining.
use vstd::prelude::*;
use vstd::string::*;

verus! {

/// The separator between the segments of a path: `::`.
pub open spec fn path_sep() -> Seq<char> {
    seq![':', ':']
}

/// `needle` occurs in `hay` starting at position `i`.
pub open spec fn occurs_at(hay: Seq<char>, needle: Seq<char>, i: int) -> bool {
    &&& 0 <= i
    &&& i + needle.len() <= hay.len()
    &&& hay.subrange(i, i + needle.len()) == needle
}

/// `needle` is a contiguous part of `hay` (the empty sequence is part of every sequence).
pub open spec fn contains_seq(hay: Seq<char>, needle: Seq<char>) -> bool {
    exists|i: int| occurs_at(hay, needle, i)
}

/// The pieces of `s` between occurrences of `sep`, from left to right; always at least one
/// piece, and an empty piece wherever two separators meet or `s` starts or ends with one.
pub open spec fn split_seq(s: Seq<char>, sep: char) -> Seq<Seq<char>>
    decreases s.len(),
{
    if s.len() == 0 {
        seq![Seq::<char>::empty()]
    } else {
        let prev = split_seq(s.drop_last(), sep);
        if s.last() == sep {
            prev.push(Seq::<char>::empty())
        } else {
            prev.update(prev.len() - 1, prev.last().push(s.last()))
        }
    }
}

/// The parts joined with `::` between consecutive parts.
pub open spec fn join_path(parts: Seq<Seq<char>>) -> Seq<char>
    decreases parts.len(),
{
    if parts.len() == 0 {
        Seq::<char>::empty()
    } else if parts.len() == 1 {
        parts[0]
    } else {
        join_path(parts.drop_last()) + path_sep() + parts.last()
    }
}

/// The parts that are not empty, in their order.
pub open spec fn nonempty_parts(parts: Seq<Seq<char>>) -> Seq<Seq<char>> {
    parts.filter(|p: Seq<char>| p.len() > 0)
}

/// The non-empty parts joined with `::`.
pub open spec fn join_nonempty(parts: Seq<Seq<char>>) -> Seq<char> {
    join_path(nonempty_parts(parts))
}

pub proof fn lemma_split_nonempty(s: Seq<char>, sep: char)
    ensures
        split_seq(s, sep).len() >= 1,
    decreases s.len(),
{
    if s.len() > 0 {
        lemma_split_nonempty(s.drop_last(), sep);
    }
}

/// A string without the separator splits into itself alone.
pub proof fn lemma_split_without_sep(s: Seq<char>, sep: char)
    requires
        !s.contains(sep),
    ensures
        split_seq(s, sep) == seq![s],
    decreases s.len(),
{
    if s.len() > 0 {
        assert(!s.drop_last().contains(sep)) by {
            if s.drop_last().contains(sep) {
                let k = choose|k: int| 0 <= k < s.drop_last().len() && s.drop_last()[k] == sep;
                assert(s[k] == sep);
            }
        }
        lemma_split_without_sep(s.drop_last(), sep);
        assert(s.last() != sep) by {
            assert(s[s.len() - 1] == s.last());
        }
        assert(s.drop_last().push(s.last()) =~= s);
    } else {
        assert(s =~= Seq::<char>::empty());
    }
    assert(split_seq(s, sep) =~= seq![s]);
}

/// Appending a separator and a piece without separators adds that piece to the split.
pub proof fn lemma_split_append_piece(x: Seq<char>, y: Seq<char>, sep: char)
    requires
        !y.contains(sep),
    ensures
        split_seq(x + seq![sep] + y, sep) == split_seq(x, sep).push(y),
    decreases y.len(),
{
    let s = x + seq![sep] + y;
    if y.len() == 0 {
        assert(s.drop_last() =~= x);
        assert(s.last() == sep);
        assert(y =~= Seq::<char>::empty());
    } else {
        let yd = y.drop_last();
        assert(!yd.contains(sep)) by {
            if yd.contains(sep) {
                let k = choose|k: int| 0 <= k < yd.len() && yd[k] == sep;
                assert(y[k] == sep);
            }
        }
        lemma_split_append_piece(x, yd, sep);
        assert(s.drop_last() =~= x + seq![sep] + yd);
        assert(s.last() == y[y.len() - 1]);
        assert(s.last() != sep);
        lemma_split_nonempty(s.drop_last(), sep);
        assert(yd.push(y.last()) =~= y);
        assert(split_seq(s, sep) =~= split_seq(x, sep).push(y));
    }
}

/// Joining is empty exactly when there is nothing to join, provided no part is empty.
pub proof fn lemma_join_path_empty(parts: Seq<Seq<char>>)
    requires
        forall|i: int| 0 <= i < parts.len() ==> (#[trigger] parts[i]).len() > 0,
    ensures
        (join_path(parts).len() == 0) <==> (parts.len() == 0),
    decreases parts.len(),
{
    if parts.len() > 1 {
        lemma_join_path_empty(parts.drop_last());
    }
}

/// Every part kept by `nonempty_parts` is non-empty.
pub proof fn lemma_nonempty_parts_nonempty(parts: Seq<Seq<char>>)
    ensures
        forall|i: int|
            0 <= i < nonempty_parts(parts).len() ==> (#[trigger] nonempty_parts(parts)[i]).len()
                > 0,
{
    broadcast use vstd::seq_lib::group_filter_ensures;

}

/// Collects the characters of a string slice.
pub fn chars_of(s: &str) -> (v: Vec<char>)
    ensures
        v@ == s@,
{
    let mut v: Vec<char> = Vec::new();
    for c in it: s.chars()
        invariant
            v@ == it.seq().take(it.index() as int),
            it.seq() == s@,
    {
        v.push(c);
    }
    v
}

/// Whether two character vectors hold the same characters.
pub fn chars_equal(a: &Vec<char>, b: &Vec<char>) -> (r: bool)
    ensures
        r == (a@ == b@),
{
    if a.len() != b.len() {
        return false;
    }
    let n = a.len();
    for i in 0..n
        invariant
            n == a.len(),
            n == b.len(),
            forall|k: int| 0 <= k < i ==> a@[k] == b@[k],
    {
        if a[i] != b[i] {
            return false;
        }
    }
    assert(a@ =~= b@);
    true
}

/// Whether `needle` occurs in `hay` at position `i`.
fn occurs_at_exec(hay: &Vec<char>, needle: &Vec<char>, i: usize) -> (r: bool)
    requires
        i + needle.len() <= hay.len(),
    ensures
        r == occurs_at(hay@, needle@, i as int),
{
    let n = needle.len();
    for j in 0..n
        invariant
            n == needle.len(),
            i + n <= hay.len(),
            forall|k: int| 0 <= k < j ==> hay@[i + k] == needle@[k],
    {
        if hay[i + j] != needle[j] {
            assert(hay@.subrange(i as int, i + n)[j as int] != needle@[j as int]);
            return false;
        }
    }
    assert(hay@.subrange(i as int, i + n) =~= needle@);
    true
}

/// Whether `needle` is a contiguous part of `hay`.
pub fn seq_contains(hay: &Vec<char>, needle: &Vec<char>) -> (r: bool)
    ensures
        r == contains_seq(hay@, needle@),
{
    if needle.len() == 0 {
        assert(hay@.subrange(0, 0) =~= needle@);
        assert(occurs_at(hay@, needle@, 0));
        return true;
    }
    if needle.len() > hay.len() {
        return false;
    }
    let last = hay.len() - needle.len();
    let mut i: usize = 0;
    while i <= last
        invariant
            last + needle.len() == hay.len(),
            needle.len() > 0,
            i <= last + 1,
            forall|k: int| 0 <= k < i ==> !occurs_at(hay@, needle@, k),
        decreases last + 1 - i,
    {
        if occurs_at_exec(hay, needle, i) {
            return true;
        }
        i = i + 1;
    }
    assert forall|k: int| !occurs_at(hay@, needle@, k) by {
        if 0 <= k < i {
        }
    }
    false
}

/// Whether `needle` occurs in `hay`, as `str::contains` with a string pattern answers.
pub fn str_contains(hay: &str, needle: &str) -> (r: bool)
    ensures
        r == contains_seq(hay@, needle@),
{
    let h = chars_of(hay);
    let n = chars_of(needle);
    seq_contains(&h, &n)
}

/// Splits a character vector at every `sep`, as `str::split` with a character pattern does.
pub fn split_chars(s: &Vec<char>, sep: char) -> (r: Vec<Vec<char>>)
    ensures
        r.len() == split_seq(s@, sep).len(),
        forall|i: int| 0 <= i < r.len() ==> (#[trigger] r[i])@ == split_seq(s@, sep)[i],
{
    let mut done: Vec<Vec<char>> = Vec::new();
    let mut cur: Vec<char> = Vec::new();
    let n = s.len();
    for i in 0..n
        invariant
            n == s.len(),
            done.len() + 1 == split_seq(s@.take(i as int), sep).len(),
            forall|k: int|
                0 <= k < done.len() ==> (#[trigger] done[k])@ == split_seq(
                    s@.take(i as int),
                    sep,
                )[k],
            cur@ == split_seq(s@.take(i as int), sep).last(),
    {
        proof {
            lemma_split_nonempty(s@.take(i as int), sep);
            assert(s@.take(i + 1).drop_last() =~= s@.take(i as int));
            assert(s@.take(i + 1).last() == s@[i as int]);
        }
        let c = s[i];
        if c == sep {
            let piece = cur;
            done.push(piece);
            cur = Vec::new();
        } else {
            cur.push(c);
        }
    }
    proof {
        assert(s@.take(n as int) =~= s@);
    }
    done.push(cur);
    done
}

/// Joins the non-empty parts with `::`.
pub fn join_nonempty_strs(parts: &Vec<&str>) -> (r: String)
    ensures
        r@ == join_nonempty(parts@.map_values(|p: &str| p@)),
{
    let ghost views = parts@.map_values(|p: &str| p@);
    let sep: &str = "::";
    proof {
        reveal_strlit("::");
        assert(sep@ =~= path_sep());
    }
    let mut res = String::new();
    let mut any = false;
    let n = parts.len();
    for i in 0..n
        invariant
            n == parts.len(),
            views == parts@.map_values(|p: &str| p@),
            sep@ == path_sep(),
            res@ == join_path(nonempty_parts(views.take(i as int))),
            any == (nonempty_parts(views.take(i as int)).len() > 0),
    {
        proof {
            reveal_with_fuel(Seq::filter, 1);
            assert(views.take(i + 1).drop_last() =~= views.take(i as int));
            assert(views.take(i + 1).last() == parts@[i as int]@);
            lemma_nonempty_parts_nonempty(views.take(i as int));
            lemma_join_path_empty(nonempty_parts(views.take(i as int)));
        }
        let p: &str = parts[i];
        proof {
            let prev = nonempty_parts(views.take(i as int));
            assert(nonempty_parts(views.take(i + 1)) == if p@.len() > 0 {
                prev.push(p@)
            } else {
                prev
            });
            assert(prev.push(p@).drop_last() =~= prev);
        }
        if p.unicode_len() > 0 {
            if any {
                res.append(sep);
            }
            res.append(p);
            any = true;
        }
    }
    proof {
        assert(views.take(n as int) =~= views);
    }
    res
}

} // verus!
