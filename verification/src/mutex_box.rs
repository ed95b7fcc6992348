//! A slot behind a mutual-exclusion lock, for state that several producers
//! and consumers share.
//!
//! The slot is empty or holds one value. Every access takes the lock, works
//! on the slot and releases the lock again. When the lock cannot be taken the
//! access degrades: it hands back the fallback that the caller supplied, or
//! does nothing, and never fails.
//!
//! What is in the slot at a given moment depends on what the other holders of
//! the box have done, so nothing is claimed about it here. The rules of an
//! access are stated exactly on [`apply_to_slot`] and [`fill_slot`], which
//! work on the slot once the lock is held.
use std::sync::Mutex;
use std::sync::MutexGuard;
use vstd::prelude::*;

verus! {

/// `std::sync::Mutex`, carried as an opaque value.
#[verifier::external_type_specification]
#[verifier::external_body]
#[verifier::reject_recursive_types(T)]
pub struct ExMutex<T: ?Sized>(Mutex<T>);

/// `std::sync::MutexGuard`, carried as an opaque value.
#[verifier::external_type_specification]
#[verifier::external_body]
#[verifier::reject_recursive_types(T)]
pub struct ExMutexGuard<'a, T: ?Sized + 'a>(MutexGuard<'a, T>);

/// A lock around a slot that is empty or holds one `T`.
#[verifier::reject_recursive_types(T)]
pub struct MutexBox<T> {
    pub mutex: Mutex<Option<T>>,
}

/// Calls `std::sync::Mutex::new`, which makes an unlocked mutex around
/// `slot`. Nothing is claimed of the result: what a mutex holds is not a
/// function of its value.
#[verifier::external_body]
fn fresh_mutex<T>(slot: Option<T>) -> (mutex: Mutex<Option<T>>) {
    Mutex::new(slot)
}

/// Calls `std::sync::Mutex::lock`, which blocks until the lock is free and
/// reports an error when an earlier holder panicked. The error is mapped to
/// `None`. Nothing is claimed of which of the two comes back.
#[verifier::external_body]
fn acquire<'a, T>(mutex: &'a Mutex<Option<T>>) -> (guard: Option<MutexGuard<'a, Option<T>>>) {
    match mutex.lock() {
        Ok(guard) => Some(guard),
        Err(_) => None,
    }
}

/// Dereferences a `std::sync::MutexGuard` to the slot that it protects.
/// Nothing is claimed of what the slot holds.
#[verifier::external_body]
fn guarded_slot<'a, 'b, T>(guard: &'a mut MutexGuard<'b, Option<T>>) -> (slot: &'a mut Option<
    T,
>) {
    &mut **guard
}

/// Fills an empty slot with `data`; a slot that already holds a value keeps
/// it and `data` is dropped.
pub fn fill_slot<T>(slot: &mut Option<T>, data: T)
    ensures
        old(slot).is_some() ==> *final(slot) == *old(slot),
        old(slot).is_none() ==> *final(slot) == Some(data),
{
    if slot.is_none() {
        *slot = Some(data);
    }
}

/// Runs `found` on the value in the slot and returns its result; on an empty
/// slot returns `error_val` and does not call `found`.
///
/// A full slot stays full, and holds afterwards what `found` left in it.
pub fn apply_to_slot<T, R, F>(slot: &mut Option<T>, found: F, error_val: R) -> (r: R) where
    F: FnOnce(&mut T) -> R,

    requires
        old(slot).is_some() ==> forall|h: &mut T|
            *h == old(slot).unwrap() ==> call_requires(found, (h,)),
    ensures
        old(slot).is_none() ==> r == error_val && final(slot).is_none(),
        old(slot).is_some() ==> final(slot).is_some() && exists|h: &mut T|
            *h == old(slot).unwrap() && *final(h) == final(slot).unwrap()
                && #[trigger] call_ensures(found, (h,), r),
{
    match slot {
        Some(handler) => found(handler),
        None => error_val,
    }
}

impl<T> MutexBox<T> {
    /// A box whose slot starts empty.
    pub fn new() -> (r: Self) {
        MutexBox { mutex: fresh_mutex(None) }
    }

    /// A box whose slot starts out holding `data`.
    pub fn new_inited(data: T) -> (r: Self) {
        MutexBox { mutex: fresh_mutex(Some(data)) }
    }

    /// Takes the lock and applies `found` to the value in the slot, as
    /// [`apply_to_slot`] does.
    ///
    /// The result is `error_val` when the lock cannot be taken or the slot
    /// is empty. Otherwise it is the result of the one call that was made of
    /// `found`.
    pub fn open_locked<FunctionLocked, TypeReturn>(
        &self,
        found: FunctionLocked,
        error_val: TypeReturn,
    ) -> (r: TypeReturn) where FunctionLocked: FnOnce(&mut T) -> TypeReturn
        requires
            forall|h: &mut T| call_requires(found, (h,)),
        ensures
            r == error_val || exists|h: &mut T| call_ensures(found, (h,), r),
    {
        match acquire(&self.mutex) {
            Some(mut guard) => {
                let slot = guarded_slot(&mut guard);
                apply_to_slot(slot, found, error_val)
            },
            None => error_val,
        }
    }

    /// Takes the lock and fills the slot with `data` if it is empty, as
    /// [`fill_slot`] does. When the lock cannot be taken nothing happens.
    pub fn init(&self, data: T) {
        match acquire(&self.mutex) {
            Some(mut guard) => {
                let slot = guarded_slot(&mut guard);
                fill_slot(slot, data);
            },
            None => {},
        }
    }
}

} // verus!
