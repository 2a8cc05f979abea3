//! Operations on the displayed signer set: removal by key identifier,
//! and the round-trip law for the optimistic local append that a
//! successful add performs.

use vstd::prelude::*;
use crate::entry::Signer;
use crate::search::{lemma_filter_holds_on_all, lemma_filter_push};

verus! {

/// No two signers of the set share a key identifier.
pub open spec fn unique_keys(s: Seq<Signer>) -> bool {
    forall|i: int, j: int|
        0 <= i < j < s.len() ==> #[trigger] s[i].key_id@ != #[trigger] s[j].key_id@
}

/// Some signer of the set has this key identifier.
pub open spec fn has_key(s: Seq<Signer>, key_id: Seq<char>) -> bool {
    exists|i: int| 0 <= i < s.len() && #[trigger] s[i].key_id@ == key_id
}

/// Keeping every signer whose key identifier differs from `key_id`, as
/// a value handed to `filter`.
pub open spec fn keep_key_pred(key_id: Seq<char>) -> spec_fn(Signer) -> bool {
    |x: Signer| x.key_id@ != key_id
}

/// The signer set with every signer of this key identifier taken out.
pub open spec fn spec_remove_signer(s: Seq<Signer>, key_id: Seq<char>) -> Seq<Signer> {
    s.filter(keep_key_pred(key_id))
}

/// A copy of the signer set with every signer of this key identifier
/// removed.
pub fn remove_signer(signers: &Vec<Signer>, key_id: &String) -> (r: Vec<Signer>)
    ensures
        r@ == spec_remove_signer(signers@, key_id@),
{
    let mut r: Vec<Signer> = Vec::new();
    let mut i: usize = 0;
    while i < signers.len()
        invariant
            i <= signers@.len(),
            r@ == signers@.subrange(0, i as int).filter(keep_key_pred(key_id@)),
        decreases signers@.len() - i,
    {
        if !signers[i].key_id.eq(key_id) {
            r.push(signers[i].clone());
        }
        proof {
            let pred = keep_key_pred(key_id@);
            assert(pred(signers@[i as int]) == (signers@[i as int].key_id@ != key_id@));
            assert(signers@.subrange(0, (i + 1) as int) =~= signers@.subrange(0, i as int).push(
                signers@[i as int],
            ));
            lemma_filter_push(signers@.subrange(0, i as int), signers@[i as int], pred);
        }
        i = i + 1;
    }
    proof {
        assert(signers@.subrange(0, signers@.len() as int) =~= signers@);
    }
    r
}

/// Law: starting from a signer set that does not hold `b`'s key,
/// appending `b` (a committed add) and then removing `b`'s key (a
/// committed remove) yields the original set again.
pub proof fn lemma_add_then_remove_signer(s: Seq<Signer>, b: Signer)
    requires
        !has_key(s, b.key_id@),
    ensures
        spec_remove_signer(s.push(b), b.key_id@) == s,
{
    let pred = keep_key_pred(b.key_id@);
    lemma_filter_push(s, b, pred);
    assert(!pred(b));
    assert forall|i: int| 0 <= i < s.len() implies pred(#[trigger] s[i]) by {
        assert(!(s[i].key_id@ == b.key_id@));
    }
    lemma_filter_holds_on_all(s, pred);
}

} // verus!
