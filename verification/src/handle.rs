use vstd::prelude::*;

verus! {

#[verifier::external_type_specification]
#[verifier::external_body]
pub struct ExWaker(core::task::Waker);

/// Relies on `core::task::Waker::clone`: yields another resumption handle
/// for the same suspended task. Nothing further is stated of the handle,
/// which this crate never looks inside.
#[verifier::external_body]
pub fn clone_waker(w: &core::task::Waker) -> (r: core::task::Waker) {
    w.clone()
}

/// Relies on `core::task::Waker::wake_by_ref`: signals the task behind the
/// handle to be polled again, without consuming the handle. It neither
/// blocks nor allocates, so it is safe from the elevated-priority callback.
#[verifier::external_body]
pub fn wake_by_ref(w: &core::task::Waker) {
    w.wake_by_ref();
}

} // verus!
