use vstd::prelude::*;

verus! {

/// The slot pool that workers wait on while the limiter is full.
#[verifier::external_type_specification]
#[verifier::external_body]
pub struct ExSemaphore(tokio::sync::Semaphore);

/// The number of permits a semaphore was created with.
pub uninterp spec fn permits_of(s: tokio::sync::Semaphore) -> nat;

/// Relies on `tokio::sync::Semaphore::new`: it creates the semaphore with the
/// permits it is given, and panics above `Semaphore::MAX_PERMITS`, that is
/// `usize::MAX >> 3`.
pub assume_specification[ tokio::sync::Semaphore::new ](permits: usize) -> (r: tokio::sync::Semaphore)
    requires
        permits <= usize::MAX >> 3,
    ensures
        permits_of(r) == permits as nat,
;

} // verus!
