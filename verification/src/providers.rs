use vstd::prelude::*;

verus! {

/// A hardware or software backend able to run the inference graph.
///
/// A caller hands the assembly step an ordered list of these; the order is a
/// priority order, and the first provider the engine can initialize wins.
/// [`ExecutionProvider::Cpu`] doubles as the baseline the engine falls back
/// to when the list is empty or none of its entries initialize.
#[derive(Clone, Copy, Debug, PartialEq, Eq, Structural)]
pub enum ExecutionProvider {
    Cpu,
    Cuda,
    TensorRt,
    DirectMl,
    CoreMl,
}

/// `i` is the index of the first initialization attempt that succeeded.
pub open spec fn spec_is_first_success(outcomes: Seq<bool>, i: int) -> bool {
    &&& 0 <= i < outcomes.len()
    &&& outcomes[i]
    &&& forall|j: int| 0 <= j < i ==> !outcomes[j]
}

/// Some initialization attempt succeeded.
pub open spec fn spec_any_success(outcomes: Seq<bool>) -> bool {
    exists|i: int| 0 <= i < outcomes.len() && #[trigger] outcomes[i]
}

/// Find the first provider-initialization attempt that succeeded.
///
/// `outcomes[i]` records whether the `i`-th configured provider could be
/// initialized; the first success wins the priority order.
pub fn first_success(outcomes: &Vec<bool>) -> (r: Option<usize>)
    ensures
        match r {
            Some(i) => spec_is_first_success(outcomes@, i as int),
            None => !spec_any_success(outcomes@),
        },
{
    let mut k: usize = 0;
    while k < outcomes.len()
        invariant
            k <= outcomes@.len(),
            forall|j: int| 0 <= j < k ==> !outcomes@[j],
        decreases outcomes@.len() - k,
    {
        if outcomes[k] {
            return Some(k);
        }
        k = k + 1;
    }
    None
}

} // verus!
