//! Types of other crates that the library carries without looking inside, and
//! what is relied on of their functions.

use vstd::prelude::*;

verus! {

/// `slab::Slab`, a store that hands out a key for each value put in. What one
/// holds is named beside the wrappers of its methods.
#[verifier::external_type_specification]
#[verifier::external_body]
#[verifier::reject_recursive_types(T)]
pub struct ExSlab<T>(slab::Slab<T>);

/// `std::task::Waker`, the handle through which a task is scheduled again.
#[verifier::external_type_specification]
#[verifier::external_body]
pub struct ExWaker(std::task::Waker);

/// The task that a waker wakes.
pub uninterp spec fn woken_task(waker: std::task::Waker) -> int;

/// The two wakers wake one task.
pub open spec fn same_task(a: std::task::Waker, b: std::task::Waker) -> bool {
    woken_task(a) == woken_task(b)
}

/// `Waker::will_wake`: a best-effort comparison of two handles. Where it says
/// yes, both wake one task. It may say no for two handles to one task, so nothing
/// is claimed of a no.
pub assume_specification[ std::task::Waker::will_wake ](
    waker: &std::task::Waker,
    other: &std::task::Waker,
) -> (r: bool)
    ensures
        r ==> woken_task(*waker) == woken_task(*other),
;

} // verus!
