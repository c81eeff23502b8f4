//! What the engine assumes about `std::task::Waker`.

use vstd::prelude::*;
use std::task::Waker;

verus! {

/// `std::task::Waker`, the handle by which a pending task asks to be polled again.
///
/// The engine stores wakers, hands them back and invokes them; it never looks inside one.
#[verifier::external_type_specification]
#[verifier::external_body]
pub struct ExWaker(std::task::Waker);

/// `Waker::wake` consumes the waker and notifies the task that it belongs to.
///
/// Trusted, and nothing is claimed of it: the notification happens outside the engine's
/// state, so no contract in this crate can speak of it.
pub assume_specification[ std::task::Waker::wake ](waker: Waker);

} // verus!
