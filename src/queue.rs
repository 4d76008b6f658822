//! The shared queue: storage behind one lock, with one condition to wait for
//! room and one to wait for an element.

use std::sync::{Condvar, Mutex, MutexGuard};
use vstd::prelude::*;

use crate::storage::Inner;

verus! {

/// `std::sync::Mutex`, carried opaquely: the lock that serialises all access to a queue's storage.
#[verifier::external_type_specification]
#[verifier::external_body]
#[verifier::reject_recursive_types(T)]
pub struct ExMutex<T: ?Sized>(Mutex<T>);

/// `std::sync::MutexGuard`, carried opaquely: proof that the lock is held, released on drop.
#[verifier::external_type_specification]
#[verifier::external_body]
#[verifier::reject_recursive_types(T)]
pub struct ExMutexGuard<'a, T: ?Sized + 'a>(MutexGuard<'a, T>);

/// `std::sync::Condvar`, carried opaquely: a condition that waiters sleep on.
#[verifier::external_type_specification]
#[verifier::external_body]
pub struct ExCondvar(Condvar);

/// Relies on `Mutex::new`: makes an unlocked mutex around `t`; nothing more is stated.
pub assume_specification<T>[ Mutex::<T>::new ](t: T) -> Mutex<T>;

/// Relies on `Condvar::new`: makes a condition with no waiters.
pub assume_specification[ Condvar::new ]() -> Condvar;

/// Relies on `Condvar::notify_one`: wakes at most one waiter; it returns without blocking.
pub assume_specification[ Condvar::notify_one ](c: &Condvar);

/// A fixed-capacity queue of `LEN` slots that threads share by reference.
#[derive(Debug)]
#[verifier::reject_recursive_types(T)]
#[verifier::reject_recursive_types(LEN)]
pub struct RingQueue<T, const LEN: usize> {
    inner: Mutex<Inner<T, LEN>>,
    pop_cond: Condvar,
    push_cond: Condvar,
}

/// Relies on `Mutex::lock`: blocks until the lock is held; a lock poisoned by a
/// thread that panicked while holding it panics here too.
#[verifier::external_body]
fn lock_storage<T, const LEN: usize>(lock: &Mutex<Inner<T, LEN>>) -> MutexGuard<'_, Inner<T, LEN>> {
    lock.lock().unwrap()
}

/// Relies on `Condvar::wait_while`: it hands the guard back only once the
/// storage is no longer full, re-testing after every wake-up.
#[verifier::external_body]
fn wait_for_room<'b, 'a, T, const LEN: usize>(
    cond: &Condvar,
    held: &'b mut Option<MutexGuard<'a, Inner<T, LEN>>>,
) -> (r: &'b mut Inner<T, LEN>)
    requires
        old(held).is_some(),
    ensures
        r@.len() < LEN,
{
    let guard = held.take().unwrap();
    &mut **held.insert(cond.wait_while(guard, |s| s.is_full()).unwrap())
}

/// Relies on `Condvar::wait_while`: it hands the guard back only once the
/// storage holds an element, re-testing after every wake-up.
#[verifier::external_body]
fn wait_for_item<'b, 'a, T, const LEN: usize>(
    cond: &Condvar,
    held: &'b mut Option<MutexGuard<'a, Inner<T, LEN>>>,
) -> (r: &'b mut Inner<T, LEN>)
    requires
        old(held).is_some(),
    ensures
        r@.len() > 0,
{
    let guard = held.take().unwrap();
    &mut **held.insert(cond.wait_while(guard, |s| s.is_empty()).unwrap())
}

/// Relies on `MutexGuard`'s `Deref`: reads the storage that the guard protects.
#[verifier::external_body]
fn guarded<'b, 'a, T, const LEN: usize>(guard: &'b MutexGuard<'a, Inner<T, LEN>>) -> &'b Inner<T, LEN> {
    &**guard
}

impl<T, const LEN: usize> RingQueue<T, LEN> {
    /// Creates an empty queue.
    pub fn new() -> Self {
        RingQueue { inner: Mutex::new(Inner::new()), pop_cond: Condvar::new(), push_cond: Condvar::new() }
    }

    /// Removes and returns the oldest element, waiting while the queue is empty.
    pub fn pop(&self) -> T {
        let mut held = Some(lock_storage(&self.inner));
        let storage = wait_for_item(&self.pop_cond, &mut held);
        let value = storage.pop();
        self.push_cond.notify_one();
        value
    }

    /// Adds `value` after the newest element, waiting while the queue is full.
    pub fn push(&self, value: T) {
        let mut held = Some(lock_storage(&self.inner));
        let storage = wait_for_room(&self.push_cond, &mut held);
        storage.push(value);
        self.pop_cond.notify_one();
    }
}

impl<T: Clone, const LEN: usize> Clone for RingQueue<T, LEN> {
    /// Copies the elements under the lock into a queue with a lock and
    /// conditions of its own.
    fn clone(&self) -> Self {
        let guard = lock_storage(&self.inner);
        let copy = guarded(&guard).clone();
        RingQueue { inner: Mutex::new(copy), pop_cond: Condvar::new(), push_cond: Condvar::new() }
    }
}

impl<T, const LEN: usize> Default for RingQueue<T, LEN> {
    fn default() -> Self {
        Self::new()
    }
}

} // verus!
