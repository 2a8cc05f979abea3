//! The search/filter engine: a pure, deterministic, case-insensitive
//! substring filter over an index snapshot, preserving the snapshot's
//! intrinsic order.

use vstd::prelude::*;
use vstd::string::StrSliceExecFns;
use crate::entry::Entry;

verus! {

/// The code point of `c` with an ASCII upper-case letter folded to its
/// lower-case counterpart. Matching is case-insensitive in this sense.
pub open spec fn lower_code(c: char) -> int {
    if 65 <= c as int && c as int <= 90 {
        c as int + 32
    } else {
        c as int
    }
}

/// Two characters are equal up to ASCII case.
pub open spec fn chars_eq_ci(a: char, b: char) -> bool {
    lower_code(a) == lower_code(b)
}

/// The query `q` occurs in `id` starting at position `i`, comparing
/// characters case-insensitively.
pub open spec fn matches_at(id: Seq<char>, q: Seq<char>, i: int) -> bool {
    &&& 0 <= i
    &&& i + q.len() <= id.len()
    &&& forall|j: int| 0 <= j < q.len() ==> chars_eq_ci(id[i + j], #[trigger] q[j])
}

/// The query `q` occurs somewhere in `id`, case-insensitively.
/// An empty query occurs in every identifier (at position 0).
pub open spec fn contains_ci(id: Seq<char>, q: Seq<char>) -> bool {
    exists|i: int| #[trigger] matches_at(id, q, i)
}

/// An entry matches a query when the query occurs in its identifier.
/// Secrets never participate in filtering.
pub open spec fn entry_matches(q: Seq<char>, e: Entry) -> bool {
    contains_ci(e.identifier@, q)
}

/// The matching predicate for a query, as a value handed to `filter`.
pub open spec fn match_pred(q: Seq<char>) -> spec_fn(Entry) -> bool {
    |e: Entry| entry_matches(q, e)
}

/// What `search` returns: the subsequence of the snapshot whose
/// identifiers contain the query, in the snapshot's own order.
pub open spec fn spec_search(s: Seq<Entry>, q: Seq<char>) -> Seq<Entry> {
    s.filter(match_pred(q))
}

fn lower_exec(c: char) -> (r: u32)
    ensures
        r == lower_code(c),
{
    let n = c as u32;
    if 65 <= n && n <= 90 {
        n + 32
    } else {
        n
    }
}

fn char_eq_ci(a: char, b: char) -> (r: bool)
    ensures
        r == chars_eq_ci(a, b),
{
    lower_exec(a) == lower_exec(b)
}

/// The characters of a string slice, in order.
pub fn str_chars(s: &str) -> (v: Vec<char>)
    ensures
        v@ == s@,
{
    let n = s.unicode_len();
    let mut v: Vec<char> = Vec::new();
    let mut i: usize = 0;
    while i < n
        invariant
            i <= n,
            n == s@.len(),
            v@ == s@.subrange(0, i as int),
        decreases n - i,
    {
        let c = s.get_char(i);
        v.push(c);
        proof {
            assert(s@.subrange(0, (i + 1) as int) =~= s@.subrange(0, i as int).push(s@[i as int]));
        }
        i = i + 1;
    }
    proof {
        assert(s@.subrange(0, n as int) =~= s@);
    }
    v
}

fn match_at_exec(id: &Vec<char>, q: &Vec<char>, i: usize) -> (r: bool)
    requires
        i + q@.len() <= id@.len(),
    ensures
        r == matches_at(id@, q@, i as int),
{
    let id_len: usize = id.len();
    let mut j: usize = 0;
    while j < q.len()
        invariant
            j <= q@.len(),
            i + q@.len() <= id@.len(),
            id@.len() == id_len,
            forall|j0: int| 0 <= j0 < j ==> chars_eq_ci(id@[i + j0], #[trigger] q@[j0]),
        decreases q@.len() - j,
    {
        if !char_eq_ci(id[i + j], q[j]) {
            proof {
                assert(!chars_eq_ci(id@[i as int + j as int], q@[j as int]));
                assert(!matches_at(id@, q@, i as int));
            }
            return false;
        }
        j = j + 1;
    }
    true
}

/// Whether `q` occurs in `id` up to ASCII case.
pub fn contains_ci_exec(id: &Vec<char>, q: &Vec<char>) -> (r: bool)
    ensures
        r == contains_ci(id@, q@),
{
    if q.len() > id.len() {
        proof {
            assert(forall|i: int| !matches_at(id@, q@, i));
        }
        return false;
    }
    let last = id.len() - q.len();
    let mut i: usize = 0;
    loop
        invariant
            i <= last,
            q@.len() <= id@.len(),
            last == id@.len() - q@.len(),
            forall|i0: int| 0 <= i0 < i ==> !matches_at(id@, q@, i0),
        decreases last - i,
    {
        if match_at_exec(id, q, i) {
            return true;
        }
        if i == last {
            proof {
                assert forall|i0: int| !matches_at(id@, q@, i0) by {
                    if 0 <= i0 < i {
                    } else if i0 == last {
                        assert(!matches_at(id@, q@, i as int));
                    }
                }
            }
            return false;
        }
        i = i + 1;
    }
}

/// Filters the index snapshot down to the entries whose identifier
/// contains the query, case-insensitively, preserving the snapshot's
/// order. Pure: the snapshot and the query are not changed, and the
/// result is a function of them alone.
pub fn search(index: &Vec<Entry>, query: &String) -> (r: Vec<Entry>)
    ensures
        r@ == spec_search(index@, query@),
{
    let q = str_chars(query.as_str());
    let mut r: Vec<Entry> = Vec::new();
    let mut i: usize = 0;
    while i < index.len()
        invariant
            i <= index@.len(),
            q@ == query@,
            r@ == spec_search(index@.subrange(0, i as int), query@),
        decreases index@.len() - i,
    {
        let idc = str_chars(index[i].identifier.as_str());
        if contains_ci_exec(&idc, &q) {
            r.push(index[i].clone());
        }
        proof {
            let pred = match_pred(query@);
            assert(pred(index@[i as int]) == entry_matches(query@, index@[i as int]));
            assert(index@.subrange(0, (i + 1) as int) =~= index@.subrange(0, i as int).push(
                index@[i as int],
            ));
            lemma_filter_push(index@.subrange(0, i as int), index@[i as int], pred);
        }
        i = i + 1;
    }
    proof {
        assert(index@.subrange(0, index@.len() as int) =~= index@);
    }
    r
}

/// Appending one element to a sequence extends its filtered image by
/// that element exactly when the element satisfies the predicate.
pub proof fn lemma_filter_push<A>(s: Seq<A>, x: A, pred: spec_fn(A) -> bool)
    ensures
        s.push(x).filter(pred) == (if pred(x) {
            s.filter(pred).push(x)
        } else {
            s.filter(pred)
        }),
{
    reveal(Seq::filter);
    assert(s.push(x).drop_last() =~= s);
    assert(s.push(x).last() == x);
}

/// A sequence whose elements all satisfy the predicate is its own
/// filtered image.
pub proof fn lemma_filter_holds_on_all<A>(s: Seq<A>, pred: spec_fn(A) -> bool)
    requires
        forall|i: int| 0 <= i < s.len() ==> pred(#[trigger] s[i]),
    ensures
        s.filter(pred) == s,
    decreases s.len(),
{
    reveal(Seq::filter);
    if s.len() == 0 {
        assert(s =~= Seq::<A>::empty());
        assert(s.filter(pred) =~= s);
    } else {
        let s0 = s.drop_last();
        assert forall|i: int| 0 <= i < s0.len() implies pred(#[trigger] s0[i]) by {
            assert(s0[i] == s[i]);
        }
        lemma_filter_holds_on_all(s0, pred);
        assert(pred(s[s.len() - 1]));
        assert(s0.push(s.last()) =~= s);
    }
}

/// `f` embeds `a` into `b`: a strictly increasing map of positions
/// under which every element of `a` appears in `b`.
pub open spec fn is_embedding<A>(f: Seq<int>, a: Seq<A>, b: Seq<A>) -> bool {
    &&& f.len() == a.len()
    &&& forall|i: int| 0 <= i < f.len() ==> 0 <= #[trigger] f[i] < b.len() && a[i] == b[f[i]]
    &&& forall|i: int, j: int| 0 <= i < j < f.len() ==> #[trigger] f[i] < #[trigger] f[j]
}

/// `a` is a subsequence of `b`: the elements of `a` occur in `b`, in
/// the same relative order.
pub open spec fn subsequence_of<A>(a: Seq<A>, b: Seq<A>) -> bool {
    exists|f: Seq<int>| #[trigger] is_embedding(f, a, b)
}

/// Filtering a sequence yields a subsequence of it.
pub proof fn lemma_filter_subsequence<A>(s: Seq<A>, pred: spec_fn(A) -> bool)
    ensures
        subsequence_of(s.filter(pred), s),
    decreases s.len(),
{
    reveal(Seq::filter);
    if s.len() == 0 {
        let f = Seq::<int>::empty();
        assert(is_embedding(f, s.filter(pred), s));
    } else {
        let s0 = s.drop_last();
        lemma_filter_subsequence(s0, pred);
        let f0 = choose|f: Seq<int>| #[trigger] is_embedding(f, s0.filter(pred), s0);
        if pred(s.last()) {
            let f = f0.push(s.len() - 1);
            let a = s.filter(pred);
            assert(a == s0.filter(pred).push(s.last()));
            assert forall|i: int| 0 <= i < f.len() implies 0 <= #[trigger] f[i] < s.len() && a[i]
                == s[f[i]] by {
                if i < f0.len() {
                    assert(f[i] == f0[i]);
                    assert(a[i] == s0.filter(pred)[i]);
                    assert(s0[f0[i]] == s[f0[i]]);
                } else {
                    assert(f[i] == s.len() - 1);
                    assert(a[i] == s.last());
                }
            }
            assert forall|i: int, j: int| 0 <= i < j < f.len() implies #[trigger] f[i] < #[trigger] f[j] by {
                if j < f0.len() {
                    assert(f[i] == f0[i] && f[j] == f0[j]);
                } else {
                    assert(f[i] == f0[i] && f0[i] < s0.len());
                }
            }
            assert(is_embedding(f, s.filter(pred), s));
        } else {
            let a = s.filter(pred);
            assert(a == s0.filter(pred));
            assert forall|i: int| 0 <= i < f0.len() implies 0 <= #[trigger] f0[i] < s.len() && a[i]
                == s[f0[i]] by {
                assert(a[i] == s0.filter(pred)[i]);
                assert(s0[f0[i]] == s[f0[i]]);
            }
            assert(is_embedding(f0, s.filter(pred), s));
        }
    }
}

/// Law: for every snapshot `s` and query `q`, the search result is a
/// subsequence of `s` — a subset of its entries, kept in their original
/// relative order — and the empty query returns `s` itself.
pub proof fn lemma_search_ordered_subset(s: Seq<Entry>, q: Seq<char>)
    ensures
        subsequence_of(spec_search(s, q), s),
        forall|i: int|
            0 <= i < spec_search(s, q).len() ==> s.contains(#[trigger] spec_search(s, q)[i]),
        spec_search(s, Seq::<char>::empty()) == s,
{
    lemma_filter_subsequence(s, match_pred(q));
    let a = spec_search(s, q);
    let f = choose|f: Seq<int>| #[trigger] is_embedding(f, a, s);
    assert forall|i: int| 0 <= i < a.len() implies s.contains(#[trigger] a[i]) by {
        assert(a[i] == s[f[i]]);
    }
    lemma_search_empty_query(s);
}

/// Law: the empty query returns the snapshot unchanged.
pub proof fn lemma_search_empty_query(s: Seq<Entry>)
    ensures
        spec_search(s, Seq::<char>::empty()) == s,
{
    let q = Seq::<char>::empty();
    let pred = match_pred(q);
    assert forall|i: int| 0 <= i < s.len() implies pred(#[trigger] s[i]) by {
        assert(matches_at(s[i].identifier@, q, 0));
    }
    lemma_filter_holds_on_all(s, pred);
}

/// Law: `search` is deterministic. Its result is a function of the
/// snapshot and the query alone, so two calls on the same pair return
/// the same ordered list.
pub proof fn lemma_search_deterministic(s: Seq<Entry>, q: Seq<char>, r1: Seq<Entry>, r2: Seq<Entry>)
    requires
        r1 == spec_search(s, q),
        r2 == spec_search(s, q),
    ensures
        r1 == r2,
{
}

} // verus!
