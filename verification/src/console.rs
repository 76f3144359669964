//! The console handle shared by every caller: one writer behind a spin lock.

use crate::writer::Writer;
use core::ops::DerefMut;
use spin::{Mutex, MutexGuard};
use vstd::prelude::*;

verus! {

/// `spin::Mutex<T>`: a lock that busy-waits. What it guards can change between any two
/// uses of a shared reference to it, so nothing is said of its content.
#[verifier::external_type_specification]
#[verifier::external_body]
#[verifier::reject_recursive_types(T)]
pub struct ExMutex<T: ?Sized>(Mutex<T>);

/// `spin::MutexGuard<'a, T>`: the proof that the lock is held. Dropping it releases the
/// lock.
#[verifier::external_type_specification]
#[verifier::external_body]
#[verifier::reject_recursive_types(T)]
pub struct ExMutexGuard<'a, T: ?Sized + 'a>(MutexGuard<'a, T>);

/// `Mutex::lock`: busy-waits until the lock is free, takes it and returns the guard.
/// Nothing is claimed of the writer behind the guard. The call does not return while
/// another holder keeps the lock, so a flow that interrupts a holder and asks for the lock
/// waits forever.
#[verifier::external_body]
fn lock_console<'m, 'a>(console: &'m Mutex<Writer<'a>>) -> (guard: MutexGuard<'m, Writer<'a>>) {
    console.lock()
}

/// `MutexGuard::deref_mut`: the exclusive reference to the writer that the guard stands
/// for. Nothing is claimed of the writer.
#[verifier::external_body]
fn guarded_writer<'g, 'm, 'a>(
    guard: &'g mut MutexGuard<'m, Writer<'a>>,
) -> (writer: &'g mut Writer<'a>) {
    guard.deref_mut()
}

/// Writes `text` to the console as one uninterrupted write: takes the lock, writes the
/// whole text through `Writer::write_string` and releases the lock. Whatever the writer
/// showed when the lock was taken, what it shows when the lock is released is that screen
/// after the writing of `text`. Must not be called by a flow that interrupted a holder of
/// the lock: the lock busy-waits and would never become free.
pub fn _print(console: &Mutex<Writer<'_>>, text: &str) {
    let mut guard = lock_console(console);
    let writer = guarded_writer(&mut guard);
    writer.write_string(text);
}

} // verus!
