//! The lock that guards a shared connection.
//!
//! The lock is `futures::lock::Mutex`. Nothing in this module is proved: the
//! types are declared so that they can be held and passed on, and each function
//! makes one call into the lock. Of the lock itself the rest of the crate takes
//! one thing for granted, which is stated in [`crate::sharing`]: it hands out its
//! permit when nobody holds it, and at no other time.

use std::sync::Arc;
use std::task::{Context, Poll};
use futures::lock::{Mutex, OwnedMutexGuard, OwnedMutexLockFuture};
use futures::FutureExt;
use vstd::prelude::*;

verus! {

/// `futures::lock::Mutex`, the lock around a connection. Opaque.
#[verifier::external_type_specification]
#[verifier::external_body]
#[verifier::reject_recursive_types(T)]
pub struct ExMutex<T: ?Sized>(futures::lock::Mutex<T>);

/// `futures::lock::OwnedMutexLockFuture`, a pending claim on the permit. Opaque.
#[verifier::external_type_specification]
#[verifier::external_body]
#[verifier::reject_recursive_types(T)]
pub struct ExOwnedMutexLockFuture<T: ?Sized>(futures::lock::OwnedMutexLockFuture<T>);

/// `futures::lock::OwnedMutexGuard`, the permit. The lock is free again when
/// the guard is dropped. Opaque.
#[verifier::external_type_specification]
#[verifier::external_body]
#[verifier::reject_recursive_types(T)]
pub struct ExOwnedMutexGuard<T: ?Sized>(futures::lock::OwnedMutexGuard<T>);

/// `std::task::Context`, through which a pending claim is woken. Opaque.
#[verifier::external_type_specification]
#[verifier::external_body]
pub struct ExContext<'a>(std::task::Context<'a>);

/// Calls `futures::lock::Mutex::new`, which puts `connection` behind a lock
/// that nobody holds. Nothing is claimed of the result.
#[verifier::external_body]
pub(crate) fn guard_connection<C>(connection: C) -> Mutex<C> {
    Mutex::new(connection)
}

/// Calls `Arc::clone`, which returns a further pointer to the same lock:
/// the result is the argument.
#[verifier::external_body]
pub(crate) fn share_connection<C>(connection: &Arc<Mutex<C>>) -> (shared: Arc<Mutex<C>>)
    ensures
        shared == *connection,
{
    Arc::clone(connection)
}

/// Calls `futures::lock::Mutex::lock_owned`, which makes a claim on the permit
/// and does not wait. Nothing is claimed of the result.
#[verifier::external_body]
pub(crate) fn claim_permit<C>(connection: Arc<Mutex<C>>) -> OwnedMutexLockFuture<C> {
    connection.lock_owned()
}

/// Calls `poll_unpin` of `futures::FutureExt` on a claim, once. The result is
/// the permit if the lock granted it, and the claim, to be asked again, if it
/// did not. Which of the two comes back is the lock's to decide, and nothing is
/// claimed of it.
///
/// A claim must not be asked again once it has been granted. It cannot be: it
/// is taken by value and handed back only while it is pending.
#[verifier::external_body]
pub(crate) fn poll_claim<C>(claim: OwnedMutexLockFuture<C>, cx: &mut Context<'_>) -> Result<
    OwnedMutexGuard<C>,
    OwnedMutexLockFuture<C>,
> {
    let mut claim = claim;
    match claim.poll_unpin(cx) {
        Poll::Ready(permit) => Ok(permit),
        Poll::Pending => Err(claim),
    }
}

} // verus!
