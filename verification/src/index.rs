//! Operations on index snapshots: looking an entry up by identifier,
//! removing one, and merging a changed or added entry in. A snapshot
//! never holds two entries with the same identifier, and merging the
//! same change twice leaves the snapshot as merging it once does.

use vstd::prelude::*;
use crate::entry::Entry;
use crate::search::{lemma_filter_holds_on_all, lemma_filter_push, lemma_filter_subsequence};
use crate::search::is_embedding;

verus! {

/// No two entries of the snapshot share an identifier.
pub open spec fn unique_ids(s: Seq<Entry>) -> bool {
    forall|i: int, j: int|
        0 <= i < j < s.len() ==> #[trigger] s[i].identifier@ != #[trigger] s[j].identifier@
}

/// Some entry of the snapshot has this identifier.
pub open spec fn has_id(s: Seq<Entry>, id: Seq<char>) -> bool {
    exists|i: int| 0 <= i < s.len() && #[trigger] s[i].identifier@ == id
}

/// Keeping every entry whose identifier differs from `id`, as a value
/// handed to `filter`.
pub open spec fn keep_pred(id: Seq<char>) -> spec_fn(Entry) -> bool {
    |e: Entry| e.identifier@ != id
}

/// The snapshot with every entry of this identifier taken out.
pub open spec fn spec_remove(s: Seq<Entry>, id: Seq<char>) -> Seq<Entry> {
    s.filter(keep_pred(id))
}

/// Replacing the entry that shares `e`'s identifier by `e`, as a value
/// handed to `map_values`.
pub open spec fn replace_fn(e: Entry) -> spec_fn(Entry) -> Entry {
    |x: Entry| if x.identifier@ == e.identifier@ { e } else { x }
}

/// The snapshot with `e` merged in: if an entry with `e`'s identifier
/// is present it is replaced in place, otherwise `e` is appended.
pub open spec fn spec_upsert(s: Seq<Entry>, e: Entry) -> Seq<Entry> {
    if has_id(s, e.identifier@) {
        s.map_values(replace_fn(e))
    } else {
        s.push(e)
    }
}

/// A sequence of entries merged one by one into an empty snapshot,
/// first to last: what loading a reported snapshot yields.
pub open spec fn spec_load(s: Seq<Entry>) -> Seq<Entry>
    decreases s.len(),
{
    if s.len() == 0 {
        Seq::<Entry>::empty()
    } else {
        spec_upsert(spec_load(s.drop_last()), s.last())
    }
}

/// Whether some entry of the snapshot has this identifier.
pub fn contains_entry(index: &Vec<Entry>, identifier: &String) -> (r: bool)
    ensures
        r == has_id(index@, identifier@),
{
    let mut i: usize = 0;
    while i < index.len()
        invariant
            i <= index@.len(),
            forall|k: int| 0 <= k < i ==> #[trigger] index@[k].identifier@ != identifier@,
        decreases index@.len() - i,
    {
        if index[i].identifier.eq(identifier) {
            return true;
        }
        i = i + 1;
    }
    false
}

/// A copy of the snapshot with every entry of this identifier removed.
pub fn remove_entry(index: &Vec<Entry>, identifier: &String) -> (r: Vec<Entry>)
    ensures
        r@ == spec_remove(index@, identifier@),
{
    let mut r: Vec<Entry> = Vec::new();
    let mut i: usize = 0;
    while i < index.len()
        invariant
            i <= index@.len(),
            r@ == index@.subrange(0, i as int).filter(keep_pred(identifier@)),
        decreases index@.len() - i,
    {
        if !index[i].identifier.eq(identifier) {
            r.push(index[i].clone());
        }
        proof {
            let pred = keep_pred(identifier@);
            assert(pred(index@[i as int]) == (index@[i as int].identifier@ != identifier@));
            assert(index@.subrange(0, (i + 1) as int) =~= index@.subrange(0, i as int).push(
                index@[i as int],
            ));
            lemma_filter_push(index@.subrange(0, i as int), index@[i as int], pred);
        }
        i = i + 1;
    }
    proof {
        assert(index@.subrange(0, index@.len() as int) =~= index@);
    }
    r
}

/// A copy of the snapshot with `e` merged in, replacing the entry of
/// the same identifier if one is present and appending otherwise.
pub fn upsert_entry(index: &Vec<Entry>, e: &Entry) -> (r: Vec<Entry>)
    ensures
        r@ == spec_upsert(index@, *e),
{
    if contains_entry(index, &e.identifier) {
        let mut r: Vec<Entry> = Vec::new();
        let mut i: usize = 0;
        while i < index.len()
            invariant
                i <= index@.len(),
                r@.len() == i,
                forall|k: int|
                    0 <= k < i ==> r@[k] == (if index@[k].identifier@ == e.identifier@ {
                        *e
                    } else {
                        index@[k]
                    }),
            decreases index@.len() - i,
        {
            if index[i].identifier.eq(&e.identifier) {
                r.push(e.clone());
            } else {
                r.push(index[i].clone());
            }
            i = i + 1;
        }
        proof {
            let f = replace_fn(*e);
            assert forall|k: int| 0 <= k < index@.len() implies f(index@[k]) == (
            if index@[k].identifier@ == e.identifier@ {
                *e
            } else {
                index@[k]
            }) by {}
            assert(r@ =~= index@.map_values(f));
        }
        r
    } else {
        let mut r: Vec<Entry> = Vec::new();
        let mut i: usize = 0;
        while i < index.len()
            invariant
                i <= index@.len(),
                r@ == index@.subrange(0, i as int),
            decreases index@.len() - i,
        {
            r.push(index[i].clone());
            proof {
                assert(index@.subrange(0, (i + 1) as int) =~= index@.subrange(0, i as int).push(
                    index@[i as int],
                ));
            }
            i = i + 1;
        }
        proof {
            assert(index@.subrange(0, index@.len() as int) =~= index@);
        }
        r.push(e.clone());
        r
    }
}

/// A subsequence of a snapshot without duplicate identifiers has none
/// either.
pub proof fn lemma_subsequence_unique(a: Seq<Entry>, b: Seq<Entry>)
    requires
        crate::search::subsequence_of(a, b),
        unique_ids(b),
    ensures
        unique_ids(a),
{
    let f = choose|f: Seq<int>| #[trigger] is_embedding(f, a, b);
    assert forall|i: int, j: int| 0 <= i < j < a.len() implies #[trigger] a[i].identifier@
        != #[trigger] a[j].identifier@ by {
        assert(a[i] == b[f[i]]);
        assert(a[j] == b[f[j]]);
        assert(f[i] < f[j]);
    }
}

/// Removal keeps identifiers unique.
pub proof fn lemma_remove_unique(s: Seq<Entry>, id: Seq<char>)
    requires
        unique_ids(s),
    ensures
        unique_ids(spec_remove(s, id)),
{
    lemma_filter_subsequence(s, keep_pred(id));
    lemma_subsequence_unique(spec_remove(s, id), s);
}

/// Merging keeps identifiers unique.
pub proof fn lemma_upsert_unique(s: Seq<Entry>, e: Entry)
    requires
        unique_ids(s),
    ensures
        unique_ids(spec_upsert(s, e)),
{
    if has_id(s, e.identifier@) {
        let r = spec_upsert(s, e);
        assert forall|i: int, j: int| 0 <= i < j < r.len() implies #[trigger] r[i].identifier@
            != #[trigger] r[j].identifier@ by {
            assert(s[i].identifier@ != s[j].identifier@);
        }
    }
}

/// Merging the same entry twice leaves the snapshot as merging it once
/// does, so a watcher refresh that re-reports a locally applied change
/// is harmless: no duplicate entries, no further difference.
pub proof fn lemma_upsert_idempotent(s: Seq<Entry>, e: Entry)
    ensures
        spec_upsert(spec_upsert(s, e), e) == spec_upsert(s, e),
{
    let r = spec_upsert(s, e);
    let f = replace_fn(e);
    if has_id(s, e.identifier@) {
        let w = choose|i: int| 0 <= i < s.len() && #[trigger] s[i].identifier@ == e.identifier@;
        assert(r[w] == f(s[w]));
        assert(r[w].identifier@ == e.identifier@);
        assert(has_id(r, e.identifier@));
        assert forall|k: int| 0 <= k < r.len() implies f(#[trigger] r[k]) == r[k] by {
            assert(r[k] == f(s[k]));
        }
        assert(r.map_values(f) =~= r);
    } else {
        assert(r[s.len() as int] == e);
        assert(has_id(r, e.identifier@));
        assert forall|k: int| 0 <= k < r.len() implies f(#[trigger] r[k]) == r[k] by {
            if k < s.len() {
                assert(r[k] == s[k]);
                assert(!(s[k].identifier@ == e.identifier@));
            }
        }
        assert(r.map_values(f) =~= r);
    }
}

/// Law: after a delete of `id`, no displayed entry carries `id` any
/// more — whatever the query — and deleting `id` again changes nothing,
/// because the entry is already absent.
pub proof fn lemma_delete_then_absent(s: Seq<Entry>, q: Seq<char>, id: Seq<char>)
    ensures
        forall|i: int|
            0 <= i < crate::search::spec_search(spec_remove(s, id), q).len()
                ==> #[trigger] crate::search::spec_search(spec_remove(s, id), q)[i].identifier@
                != id,
        spec_remove(spec_remove(s, id), id) == spec_remove(s, id),
{
    broadcast use vstd::seq_lib::group_filter_ensures;

    let pred = keep_pred(id);
    let removed = spec_remove(s, id);
    let shown = crate::search::spec_search(removed, q);
    assert forall|i: int| 0 <= i < shown.len() implies #[trigger] shown[i].identifier@ != id by {
        let mpred = crate::search::match_pred(q);
        crate::search::lemma_filter_subsequence(removed, mpred);
        let f = choose|f: Seq<int>| #[trigger] is_embedding(f, shown, removed);
        assert(shown[i] == removed[f[i]]);
        assert(pred(removed[f[i]]));
    }
    assert forall|i: int| 0 <= i < removed.len() implies pred(#[trigger] removed[i]) by {}
    lemma_filter_holds_on_all(removed, pred);
}

} // verus!
