//! Character-level helpers: splitting on a delimiter, comparing, and
//! moving between `str`, `String` and `Vec<char>`.

use vstd::prelude::*;

verus! {

/// `d` occurs in `s` starting at index `i`.
pub open spec fn occurs_at(s: Seq<char>, d: Seq<char>, i: int) -> bool {
    0 <= i && i + d.len() <= s.len() && s.subrange(i, i + d.len()) == d
}

/// The pieces of `s` that remain when it is read left to right from index `i`,
/// the current piece having begun at `start`: each occurrence of `d` closes the
/// current piece and the next one begins right after it (occurrences do not
/// overlap, the leftmost wins).
pub open spec fn split_from(s: Seq<char>, d: Seq<char>, start: int, i: int) -> Seq<Seq<char>>
    decreases s.len() - i,
{
    if d.len() == 0 || i >= s.len() {
        seq![s.subrange(start, s.len() as int)]
    } else if occurs_at(s, d, i) {
        seq![s.subrange(start, i)] + split_from(s, d, i + d.len(), i + d.len())
    } else {
        split_from(s, d, start, i + 1)
    }
}

/// `s` cut at every occurrence of `d`; there is always at least one piece.
pub open spec fn split_on(s: Seq<char>, d: Seq<char>) -> Seq<Seq<char>> {
    split_from(s, d, 0, 0)
}

/// The pieces joined back together, with `d` between each two.
pub open spec fn join_with(pieces: Seq<Seq<char>>, d: Seq<char>) -> Seq<char>
    decreases pieces.len(),
{
    if pieces.len() == 0 {
        Seq::empty()
    } else if pieces.len() == 1 {
        pieces[0]
    } else {
        pieces[0] + d + join_with(pieces.drop_first(), d)
    }
}

/// The views of a sequence of character vectors.
pub open spec fn views_of(v: Seq<Vec<char>>) -> Seq<Seq<char>> {
    v.map_values(|p: Vec<char>| p@)
}

/// Whether `d` occurs in `s` at index `i`.
pub fn occurs_at_exec(s: &[char], d: &[char], i: usize) -> (r: bool)
    ensures
        r == occurs_at(s@, d@, i as int),
{
    if i > s.len() || d.len() > s.len() - i {
        return false;
    }
    let mut k: usize = 0;
    while k < d.len()
        invariant
            k <= d@.len(),
            i + d@.len() <= s.len(),
            forall|j: int| 0 <= j < k ==> s@[i + j] == d@[j],
        decreases d@.len() - k,
    {
        if s[i + k] != d[k] {
            assert(s@.subrange(i as int, i + d@.len())[k as int] != d@[k as int]);
            return false;
        }
        k = k + 1;
    }
    assert(s@.subrange(i as int, i + d@.len()) =~= d@);
    true
}

/// Cuts `s` at every occurrence of `d`.
pub fn split_chars(s: &[char], d: &[char]) -> (r: Vec<Vec<char>>)
    requires
        d@.len() > 0,
    ensures
        views_of(r@) == split_on(s@, d@),
{
    let mut out: Vec<Vec<char>> = Vec::new();
    let mut cur: Vec<char> = Vec::new();
    let mut i: usize = 0;
    let ghost mut start: int = 0;
    while i < s.len()
        invariant
            d@.len() > 0,
            0 <= start <= i <= s@.len(),
            cur@ == s@.subrange(start, i as int),
            views_of(out@) + split_from(s@, d@, start, i as int) == split_on(s@, d@),
        decreases s@.len() - i,
    {
        if occurs_at_exec(s, d, i) {
            let ghost before = views_of(out@);
            out.push(cur);
            assert(views_of(out@) =~= before + seq![s@.subrange(start, i as int)]);
            cur = Vec::new();
            i = i + d.len();
            proof {
                start = i as int;
            }
            assert(cur@ =~= s@.subrange(start, i as int));
        } else {
            cur.push(s[i]);
            i = i + 1;
            assert(cur@ =~= s@.subrange(start, i as int));
        }
    }
    let ghost before = views_of(out@);
    out.push(cur);
    assert(views_of(out@) =~= before + seq![s@.subrange(start, s@.len() as int)]);
    out
}

/// The characters of `s`, in order.
pub fn chars_of(s: &str) -> (r: Vec<char>)
    ensures
        r@ == s@,
{
    broadcast use vstd::string::group_string_axioms;

    let mut out: Vec<char> = Vec::new();
    for c in it: s.chars()
        invariant
            it.seq() == s@,
            out@ == s@.take(it.index() as int),
    {
        out.push(c);
        assert(out@ =~= s@.take(it.index() + 1));
    }
    assert(out@ =~= s@);
    out
}

/// Every cut gives at least one piece.
pub proof fn lemma_split_from_nonempty(s: Seq<char>, d: Seq<char>, start: int, i: int)
    ensures
        split_from(s, d, start, i).len() >= 1,
    decreases s.len() - i,
{
    if d.len() == 0 || i >= s.len() {
    } else if occurs_at(s, d, i) {
        lemma_split_from_nonempty(s, d, i + d.len(), i + d.len());
    } else {
        lemma_split_from_nonempty(s, d, start, i + 1);
    }
}

proof fn lemma_join_split_from(s: Seq<char>, d: Seq<char>, start: int, i: int)
    requires
        d.len() > 0,
        0 <= start <= i,
        start <= s.len(),
    ensures
        join_with(split_from(s, d, start, i), d) == s.subrange(start, s.len() as int),
    decreases s.len() - i,
{
    if i >= s.len() {
    } else if occurs_at(s, d, i) {
        let rest = split_from(s, d, i + d.len(), i + d.len());
        lemma_join_split_from(s, d, i + d.len(), i + d.len());
        lemma_split_from_nonempty(s, d, i + d.len(), i + d.len());
        let all = seq![s.subrange(start, i)] + rest;
        assert(all.drop_first() =~= rest);
        assert(s.subrange(start, s.len() as int) =~= s.subrange(start, i) + d + s.subrange(
            i + d.len(),
            s.len() as int,
        ));
    } else {
        lemma_join_split_from(s, d, start, i + 1);
    }
}

/// Cutting loses nothing: the pieces of `s`, joined with `d`, give `s` back.
pub proof fn lemma_join_split(s: Seq<char>, d: Seq<char>)
    requires
        d.len() > 0,
    ensures
        join_with(split_on(s, d), d) == s,
{
    lemma_join_split_from(s, d, 0, 0);
    assert(s.subrange(0, s.len() as int) =~= s);
}

/// Whether two strings hold the same characters.
pub fn same_text(a: &str, b: &str) -> (r: bool)
    ensures
        r == (a@ == b@),
{
    let x = chars_of(a);
    let y = chars_of(b);
    if x.len() != y.len() {
        return false;
    }
    let mut k: usize = 0;
    while k < x.len()
        invariant
            x@ == a@,
            y@ == b@,
            x@.len() == y@.len(),
            k <= x@.len(),
            forall|j: int| 0 <= j < k ==> x@[j] == y@[j],
        decreases x@.len() - k,
    {
        if x[k] != y[k] {
            return false;
        }
        k = k + 1;
    }
    assert(x@ =~= y@);
    true
}

/// Relies on `String`'s `FromIterator<char>`: the string holds the
/// characters that the iterator yields, in order.
#[verifier::external_body]
pub(crate) fn string_from_chars(c: &[char]) -> (r: String)
    ensures
        r@ == c@,
{
    c.iter().collect()
}

} // verus!
