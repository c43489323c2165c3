//! Facts about filtered sequences that the tables of this crate rely on.

use vstd::prelude::*;

verus! {

/// Filtering one more element of `s` appends it when it passes.
pub proof fn lemma_filter_step<A>(s: Seq<A>, i: int, pred: spec_fn(A) -> bool)
    requires
        0 <= i < s.len(),
    ensures
        s.take(i + 1).filter(pred) == if pred(s[i]) {
            s.take(i).filter(pred).push(s[i])
        } else {
            s.take(i).filter(pred)
        },
{
    reveal(Seq::filter);
    assert(s.take(i + 1).drop_last() =~= s.take(i));
}

/// The elements of `s.filter(pred)` are those of `s` that pass, and no
/// element occurs twice in it when none does in `s`.
pub proof fn lemma_filter_members<A>(s: Seq<A>, pred: spec_fn(A) -> bool)
    ensures
        forall|x: A| #[trigger] s.filter(pred).contains(x) <==> s.contains(x) && pred(x),
        s.no_duplicates() ==> s.filter(pred).no_duplicates(),
    decreases s.len(),
{
    reveal(Seq::filter);
    if s.len() > 0 {
        let t = s.drop_last();
        lemma_filter_members(t, pred);
        let ft = t.filter(pred);
        assert forall|x: A| #[trigger] s.filter(pred).contains(x) <==> s.contains(x) && pred(x) by {
            if s.contains(x) && pred(x) && x != s.last() {
                let k = choose|k: int| 0 <= k < s.len() && s[k] == x;
                assert(t[k] == x);
                assert(t.contains(x));
            }
            if s.filter(pred).contains(x) && !(x == s.last() && pred(x)) {
                if pred(s.last()) {
                    let k = choose|k: int| 0 <= k < s.filter(pred).len() && s.filter(pred)[k] == x;
                    assert(k < ft.len());
                    assert(ft[k] == x);
                }
                assert(ft.contains(x));
            }
        }
        if s.no_duplicates() {
            assert(t.no_duplicates());
            if pred(s.last()) {
                assert(!t.contains(s.last()));
                assert(!ft.contains(s.last()));
            }
        }
    }
}

/// The elements of `s.push(x)` are those of `s` and `x`.
pub proof fn lemma_push_to_set<A>(s: Seq<A>, x: A)
    ensures
        s.push(x).to_set() == s.to_set().insert(x),
{
    assert forall|y: A| s.push(x).to_set().contains(y) <==> s.to_set().insert(x).contains(y) by {
        if s.to_set().contains(y) {
            let k = choose|k: int| 0 <= k < s.len() && s[k] == y;
            assert(s.push(x)[k] == y);
        }
        if s.push(x).to_set().contains(y) && y != x {
            let k = choose|k: int| 0 <= k < s.push(x).len() && s.push(x)[k] == y;
            assert(s[k] == y);
        }
        if y == x {
            assert(s.push(x)[s.len() as int] == x);
        }
    }
    assert(s.push(x).to_set() =~= s.to_set().insert(x));
}
} // verus!
