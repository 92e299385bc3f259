//! A value shared between concurrent callers behind one reader-writer lock.

use std::sync::Arc;
use vstd::prelude::*;
use vstd::rwlock::{RwLock, RwLockPredicate};

verus! {

/// A value with an invariant that every holder of the lock keeps.
pub trait Guarded: Sized {
    /// The invariant.
    spec fn inv(&self) -> bool;
}

/// The lock's predicate: the guarded value's own invariant.
pub struct KeepsInvariant;

impl<T: Guarded> RwLockPredicate<T> for KeepsInvariant {
    open spec fn inv(self, v: T) -> bool {
        v.inv()
    }
}

/// Relies on `Arc::clone`: another pointer to the same allocation.
#[verifier::external_body]
fn share<A>(a: &Arc<A>) -> (r: Arc<A>)
    ensures
        r == *a,
{
    Arc::clone(a)
}

/// A value behind a reader-writer lock, reachable from many owners. Every
/// read sees the whole value at one instant and every update replaces it at
/// once, so no caller ever observes a half-made change. The value inside
/// always meets its invariant.
pub struct Shared<T: Guarded> {
    lock: Arc<RwLock<T, KeepsInvariant>>,
    initial: Ghost<T>,
}

impl<T: Guarded> Clone for Shared<T> {
    fn clone(&self) -> (r: Self)
        ensures
            r == *self,
    {
        Shared { lock: share(&self.lock), initial: self.initial }
    }
}

impl<T: Guarded> Shared<T> {
    /// The value that was put behind the lock when it was made. Later
    /// updates do not change it.
    pub closed spec fn initial(&self) -> T {
        self.initial@
    }

    /// Puts a value that meets its invariant behind a new lock.
    pub fn new(value: T) -> (r: Self)
        requires
            value.inv(),
        ensures
            r.initial() == value,
    {
        let ghost v = value;
        Shared { lock: Arc::new(RwLock::new(value, Ghost(KeepsInvariant))), initial: Ghost(v) }
    }

    /// Runs `f` with exclusive access: `f` takes the current value and gives
    /// back the value to store together with a result, which is returned.
    /// The lock is released only when `f` returns, so `f` must not panic.
    pub fn with<F, R>(&self, f: F) -> (r: R) where F: FnOnce(T) -> (T, R)
        requires
            forall|v: T| v.inv() ==> #[trigger] f.requires((v,)),
            forall|v: T, out: (T, R)| v.inv() && #[trigger] f.ensures((v,), out) ==> out.0.inv(),
        ensures
            exists|v: T, w: T| v.inv() && #[trigger] f.ensures((v,), (w, r)),
    {
        let (v, handle) = self.lock.acquire_write();
        let (w, r) = f(v);
        handle.release_write(w);
        r
    }

    /// Runs `f` with shared access to the current value and returns its
    /// result. The lock is released only when `f` returns, so `f` must not
    /// panic.
    pub fn read<F, R>(&self, f: F) -> (r: R) where F: FnOnce(&T) -> R
        requires
            forall|v: T| v.inv() ==> #[trigger] f.requires((&v,)),
        ensures
            exists|v: T| v.inv() && #[trigger] f.ensures((&v,), r),
    {
        let handle = self.lock.acquire_read();
        let r = f(handle.borrow());
        handle.release_read();
        r
    }
}

} // verus!
