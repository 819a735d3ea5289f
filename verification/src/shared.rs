//! The kernel's shared state as the cores share it: behind a spin lock that
//! makes each step on it indivisible.
//!
//! The spin lock is held for the length of one step only. A core that wants
//! a device for longer takes the device's handle in such a step and gives
//! it back in another; in between it waits for events, not for the spin
//! lock.

use vstd::prelude::*;
use crate::boot::{hand_out, TaskSlots, CORE_COUNT};
use crate::drivers::gpio::GPIO;
use crate::drivers::lock::{DeviceLock, Reentered};
use crate::drivers::mini_uart::MiniUART;
use crate::drivers::{Effect, Effects};

verus! {

/// `spin::mutex::Mutex`, of which nothing is known here but that it exists.
#[verifier::external_type_specification]
#[verifier::external_body]
#[verifier::reject_recursive_types(T)]
#[verifier::reject_recursive_types(R)]
pub struct ExMutex<T: ?Sized, R>(spin::mutex::Mutex<T, R>);

/// `spin::mutex::MutexGuard`, of which nothing is known here but that it
/// exists.
#[verifier::external_type_specification]
#[verifier::external_body]
#[verifier::reject_recursive_types(T)]
#[verifier::reject_recursive_types(R)]
pub struct ExMutexGuard<'a, T: 'a + ?Sized, R>(spin::mutex::MutexGuard<'a, T, R>);

/// `spin::relax::Spin`, the way in which a core passes the time while it
/// waits for a spin lock.
#[verifier::external_type_specification]
#[verifier::external_body]
pub struct ExSpin(spin::relax::Spin);

/// Wraps a value in a spin lock with `spin::mutex::Mutex::new`. Nothing is
/// claimed of the result: what a shared cell holds is for its holder to
/// find out.
#[verifier::external_body]
fn cell_new<T>(value: T) -> spin::mutex::Mutex<T, spin::relax::Spin> {
    spin::mutex::Mutex::new(value)
}

/// Takes a spin lock with `spin::mutex::Mutex::lock`, waiting for as long
/// as another core has it. Nothing is claimed of the result. The call
/// returns as long as every guard is dropped again, which the callers in
/// this file do before they return.
#[verifier::external_body]
fn cell_lock<'a, T>(cell: &'a spin::mutex::Mutex<T, spin::relax::Spin>) -> spin::mutex::MutexGuard<
    'a,
    T,
    spin::relax::Spin,
> {
    cell.lock()
}

/// Reaches the value that a guard protects, through the guard's
/// `DerefMut::deref_mut`. Nothing is claimed of what is found there:
/// another core may have left anything.
#[verifier::external_body]
fn cell_value<'a, 'b, T>(
    guard: &'b mut spin::mutex::MutexGuard<'a, T, spin::relax::Spin>,
) -> &'b mut T {
    &mut **guard
}

/// The lock of a device, for the cores to share. Each device has its own.
///
/// Which core gets the handle depends on what the others do, so little can
/// be promised here. What is decided once the state is in hand is decided
/// by [`MiniUART::try_acquire`], [`MiniUART::try_release`] and their like,
/// and promised there. Each function here takes the spin lock and makes
/// that one call.
pub struct SharedLock {
    cell: spin::mutex::Mutex<DeviceLock, spin::relax::Spin>,
}

impl SharedLock {
    /// The lock of a device that nobody holds and nobody has set up.
    ///
    /// No clause says so: what the cell holds changes while the cell, as a
    /// value that many cores share, stays the same, so a clause on the
    /// cell's contents would not stay true. [`DeviceLock::new`] says what
    /// is put in.
    pub fn new() -> Self {
        SharedLock { cell: cell_new(DeviceLock::new()) }
    }

    /// `core` tries once to take the handle of the serial device. A core
    /// that finds it taken is asked to park until an event is signalled. A
    /// core that has the handle gets an error, and nothing is changed.
    pub fn acquire(&self, fx: &mut Effects, core: usize) -> (r: Result<Option<MiniUART>, Reentered>)
        ensures
            final(fx)@ == if r == Ok::<Option<MiniUART>, Reentered>(None) {
                old(fx)@.push(Effect::WaitForEvent)
            } else {
                old(fx)@
            },
    {
        let mut guard = cell_lock(&self.cell);
        let lock = cell_value(&mut guard);
        MiniUART::try_acquire(lock, fx, core)
    }

    /// Gives the serial device's handle back and wakes the waiting cores.
    /// A handle whose core this lock does not name as its holder comes back
    /// as it was, and nothing is changed.
    pub fn release(&self, handle: MiniUART, fx: &mut Effects) -> (r: Result<(), MiniUART>)
        ensures
            r matches Err(stray) ==> stray == handle,
            final(fx)@ == if r is Ok {
                old(fx)@.push(Effect::SignalEvent)
            } else {
                old(fx)@
            },
    {
        let mut guard = cell_lock(&self.cell);
        let lock = cell_value(&mut guard);
        handle.try_release(lock, fx)
    }

    /// `core` takes the serial device's handle, looks whether the device
    /// is set up, and gives the handle back. `None` where the handle was
    /// taken; an error where `core` has it.
    pub fn is_setup(&self, fx: &mut Effects, core: usize) -> (r: Result<Option<bool>, Reentered>)
        ensures
            final(fx)@ == match r {
                Ok(Some(_)) => old(fx)@.push(Effect::SignalEvent),
                Ok(None) => old(fx)@.push(Effect::WaitForEvent),
                Err(_) => old(fx)@,
            },
    {
        let mut guard = cell_lock(&self.cell);
        let lock = cell_value(&mut guard);
        MiniUART::try_is_setup(lock, fx, core)
    }

    /// `core` tries once to take the handle of the pin controller. A core
    /// that finds it taken is asked to park until an event is signalled. A
    /// core that has the handle gets an error, and nothing is changed.
    pub fn acquire_pins(&self, fx: &mut Effects, core: usize) -> (r: Result<Option<GPIO>, Reentered>)
        ensures
            final(fx)@ == if r == Ok::<Option<GPIO>, Reentered>(None) {
                old(fx)@.push(Effect::WaitForEvent)
            } else {
                old(fx)@
            },
    {
        let mut guard = cell_lock(&self.cell);
        let lock = cell_value(&mut guard);
        GPIO::try_acquire(lock, fx, core)
    }

    /// Gives the pin controller's handle back and wakes the waiting cores.
    /// A handle whose core this lock does not name as its holder comes back
    /// as it was, and nothing is changed.
    pub fn release_pins(&self, handle: GPIO, fx: &mut Effects) -> (r: Result<(), GPIO>)
        ensures
            r matches Err(stray) ==> stray == handle,
            final(fx)@ == if r is Ok {
                old(fx)@.push(Effect::SignalEvent)
            } else {
                old(fx)@
            },
    {
        let mut guard = cell_lock(&self.cell);
        let lock = cell_value(&mut guard);
        handle.try_release(lock, fx)
    }
}

/// The cores' task slots, for the cores to share.
///
/// What a core finds in a slot depends on what the others have done since,
/// so little can be promised here. What happens once the slots are in hand
/// is decided by [`TaskSlots::publish`] and [`TaskSlots::poll`], and
/// promised there.
#[verifier::reject_recursive_types(T)]
pub struct SharedSlots<T> {
    cell: spin::mutex::Mutex<TaskSlots<T>, spin::relax::Spin>,
}

impl<T> SharedSlots<T> {
    /// The slots at boot: all empty.
    ///
    /// No clause says so, for the reason given at [`SharedLock::new`].
    /// [`TaskSlots::new`] says what is put in.
    pub fn new() -> Self {
        SharedSlots { cell: cell_new(TaskSlots::new()) }
    }

    /// Hands `task` to `core`, in place of whatever the core had not yet
    /// taken. The task that was displaced, if any, comes back.
    ///
    /// Which task that is depends on what the slot held when the spin lock
    /// was taken, and of that nothing is known here.
    pub fn publish(&self, core: usize, task: T) -> (displaced: Option<T>)
        requires
            core < CORE_COUNT,
    {
        let mut guard = cell_lock(&self.cell);
        let slots = cell_value(&mut guard);
        slots.publish(core, task)
    }

    /// Takes the task that waits for `core`. With nothing to take, the core
    /// is asked to park until an event is signalled.
    ///
    /// Whether a task waits depends on what the slot held when the spin
    /// lock was taken, and of that nothing is known here.
    pub fn poll(&self, fx: &mut Effects, core: usize) -> (task: Option<T>)
        requires
            core < CORE_COUNT,
        ensures
            final(fx)@ == if task is Some {
                old(fx)@
            } else {
                old(fx)@.push(Effect::WaitForEvent)
            },
    {
        let mut guard = cell_lock(&self.cell);
        let slots = cell_value(&mut guard);
        slots.poll(fx, core)
    }
}

impl<T: Copy> SharedSlots<T> {
    /// Hands `task` to every core but the first, in one step.
    ///
    /// No clause says what the slots then hold, for they are shared;
    /// [`hand_out`] says what is done to them.
    pub fn hand_out(&self, task: T) {
        let mut guard = cell_lock(&self.cell);
        let slots = cell_value(&mut guard);
        hand_out(slots, task);
    }
}

} // verus!
