//! Small sequence facts shared by the loops of the simulation.

use vstd::prelude::*;

verus! {

/// Filtering a prefix one element longer keeps the old filtered prefix and
/// appends the new element exactly when the predicate accepts it.
pub proof fn lemma_filter_take_step<A>(s: Seq<A>, pred: spec_fn(A) -> bool, i: int)
    requires
        0 <= i < s.len(),
    ensures
        s.take(i + 1).filter(pred) == if pred(s[i]) {
            s.take(i).filter(pred).push(s[i])
        } else {
            s.take(i).filter(pred)
        },
{
    let t = s.take(i + 1);
    assert(t.drop_last() =~= s.take(i));
    assert(t.last() == s[i]);
    reveal(Seq::filter);
}

/// A property that holds of every element of a sequence holds of every
/// element of any filtered version of it.
pub proof fn lemma_filter_preserves<A>(s: Seq<A>, pred: spec_fn(A) -> bool, prop: spec_fn(A) -> bool)
    requires
        forall|i: int| 0 <= i < s.len() ==> prop(#[trigger] s[i]),
    ensures
        forall|i: int|
            0 <= i < s.filter(pred).len() ==> prop(#[trigger] s.filter(pred)[i]),
    decreases s.len(),
{
    reveal(Seq::filter);
    if s.len() > 0 {
        assert(forall|i: int| 0 <= i < s.drop_last().len() ==> prop(#[trigger] s.drop_last()[i]));
        lemma_filter_preserves(s.drop_last(), pred, prop);
        let out = s.filter(pred);
        let sub = s.drop_last().filter(pred);
        assert forall|i: int| 0 <= i < out.len() implies prop(out[i]) by {
            if pred(s.last()) {
                assert(out == sub.push(s.last()));
                if i < sub.len() {
                    assert(out[i] == sub[i]);
                    assert(prop(sub[i]));
                } else {
                    assert(out[i] == s.last());
                    assert(prop(s.last()));
                }
            } else {
                assert(out == sub);
                assert(prop(sub[i]));
            }
        }
    }
}

/// Taking the whole sequence changes nothing.
pub proof fn lemma_take_all<A>(s: Seq<A>)
    ensures
        s.take(s.len() as int) == s,
{
    assert(s.take(s.len() as int) =~= s);
}

} // verus!
