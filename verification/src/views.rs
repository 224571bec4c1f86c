//! How the models of vectors follow the vectors.

use vstd::prelude::*;

verus! {

/// The byte sequences that a sequence of byte vectors holds.
pub open spec fn byte_seqs(v: Seq<Vec<u8>>) -> Seq<Seq<u8>> {
    Seq::new(v.len(), |i: int| v[i]@)
}

/// Pushing onto a vector pushes the model of the item onto its model.
pub proof fn lemma_deep_view_push<T: DeepView>(before: Vec<T>, after: Vec<T>, item: T)
    requires
        after@ == before@.push(item),
    ensures
        after.deep_view() == before.deep_view().push(item.deep_view()),
{
}

/// Appending a vector to another appends its model to the other's.
pub proof fn lemma_deep_view_add<T: DeepView>(left: Vec<T>, right: Vec<T>, both: Vec<T>)
    requires
        both@ == left@ + right@,
    ensures
        both.deep_view() == left.deep_view() + right.deep_view(),
{
}

/// The model of an empty vector is empty.
pub proof fn lemma_deep_view_empty<T: DeepView>(v: Vec<T>)
    requires
        v@.len() == 0,
    ensures
        v.deep_view() == Seq::<T::V>::empty(),
{
}

} // verus!
