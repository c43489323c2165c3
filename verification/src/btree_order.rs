//! What the ordered-set specifications say about `u64` connection ids.

use vstd::prelude::*;
use vstd::std_specs::cmp::OrdSpec;

verus! {

broadcast use {vstd::std_specs::btree::group_btree_axioms, vstd::laws_cmp::group_laws_cmp};

/// `u64` keys follow the order that the ordered-set specifications assume.
pub proof fn lemma_ids_ordered()
    ensures
        vstd::laws_cmp::obeys_cmp::<u64>(),
        vstd::std_specs::btree::key_obeys_cmp_spec::<u64>(),
{
    assert(vstd::laws_cmp::obeys_cmp::<u64>());
}

/// The item at `i` of `s` comes strictly before the one at `j` in the
/// order of `K`.
spec fn ordered_before<K: Ord>(s: Seq<K>, i: int, j: int) -> bool {
    s[i].cmp_spec(&s[j]) is Less
}

/// An increasing sequence of ids lists them in strictly increasing numeric
/// order.
pub proof fn lemma_increasing_ids(s: Seq<&u64>)
    requires
        vstd::std_specs::btree::increasing_seq(s),
    ensures
        forall|i: int, j: int| 0 <= i < j < s.len() ==> *s[i] < *s[j],
{
    assert(vstd::laws_cmp::obeys_cmp::<u64>());
    assert(vstd::laws_cmp::obeys_cmp::<&u64>());
    vstd::std_specs::btree::axiom_increasing_seq_meaning(s);
    assert forall|i: int, j: int| 0 <= i < j < s.len() implies *s[i] < *s[j] by {
        assert(ordered_before(s, i, j));
    }
}

} // verus!
