//! Copies of the pieces of text that declarations carry, and how views follow a `push`.

use vstd::prelude::*;

verus! {

/// After a `push`, the deep view has grown by the view of what was pushed.
pub proof fn lemma_deep_view_push<T: DeepView>(before: Seq<T>, after: Vec<T>, x: T)
    requires
        after@ == before.push(x),
    ensures
        after.deep_view() == Seq::new(before.len(), |i: int| before[i].deep_view()).push(
            x.deep_view(),
        ),
{
    assert(after.deep_view() =~= Seq::new(before.len(), |i: int| before[i].deep_view()).push(
        x.deep_view(),
    ));
}

/// The deep view of a vector without elements is the empty sequence.
pub proof fn lemma_deep_view_empty<T: DeepView>(v: Vec<T>)
    requires
        v@.len() == 0,
    ensures
        v.deep_view() == Seq::<T::V>::empty(),
{
    assert(v.deep_view() =~= Seq::<T::V>::empty());
}

pub fn copy_text(text: &String) -> (copy: String)
    ensures
        copy@ == text@,
{
    text.clone()
}

pub fn copy_optional_text(text: &Option<String>) -> (copy: Option<String>)
    ensures
        copy.deep_view() == text.deep_view(),
{
    match text {
        Some(t) => Some(copy_text(t)),
        None => None,
    }
}

} // verus!
