//! The guard of a device: who has the device's handle, and what outlives
//! the holder.

use vstd::prelude::*;
use crate::drivers::{Effect, Effects};

verus! {

/// What a device lock is, to those who reason about it.
pub struct LockState {
    /// The core that has the handle, if one has.
    pub holder: Option<usize>,
    /// The device was set up when the handle was last given back.
    pub configured: bool,
}

impl LockState {
    /// Some core has the handle.
    pub open spec fn held(self) -> bool {
        self.holder is Some
    }

    /// An attempt to take the handle succeeds.
    pub open spec fn grants(self) -> bool {
        self.holder is None
    }

    /// The lock after `core` has tried to take the handle: `core` is the
    /// holder where the lock was free, and nothing has changed where it was
    /// not.
    pub open spec fn attempted(self, core: usize) -> LockState {
        if self.grants() {
            LockState { holder: Some(core), configured: self.configured }
        } else {
            self
        }
    }

    /// The lock after the handle has come back, from a holder that leaves
    /// the device set up or not.
    pub open spec fn released(self, configured: bool) -> LockState {
        LockState { holder: None, configured }
    }
}

/// The caller has the handle that it tried to take: had the attempt gone
/// on, the core would have waited for itself.
#[derive(Clone, Copy, Debug, PartialEq, Eq, Structural)]
pub struct Reentered;

/// The guard of a device: the note which core has the device's handle,
/// which one core at a time can flip from nobody to itself, and the note
/// whether the device has been set up, which outlives every holder.
pub struct DeviceLock {
    holder: Option<usize>,
    configured: bool,
}

impl View for DeviceLock {
    type V = LockState;

    closed spec fn view(&self) -> LockState {
        LockState { holder: self.holder, configured: self.configured }
    }
}

impl DeviceLock {
    /// The lock of a device that nobody holds and nobody has set up.
    pub fn new() -> (lock: Self)
        ensures
            lock@ == (LockState { holder: None, configured: false }),
    {
        DeviceLock { holder: None, configured: false }
    }

    /// Whether some core has the handle. No more than a hint to a core that
    /// shares the lock: the answer may be stale once it is read.
    pub fn is_held(&self) -> (held: bool)
        ensures
            held == self@.held(),
    {
        self.holder.is_some()
    }

    /// The core that has the handle, if one has.
    pub fn holder(&self) -> (holder: Option<usize>)
        ensures
            holder == self@.holder,
    {
        self.holder
    }

    /// Whether `core` has the handle.
    pub fn is_held_by(&self, core: usize) -> (held: bool)
        ensures
            held == (self@.holder == Some(core)),
    {
        match self.holder {
            Some(holder) => holder == core,
            None => false,
        }
    }

    /// Whether the device was set up when the handle was last given back.
    pub fn was_configured(&self) -> (configured: bool)
        ensures
            configured == self@.configured,
    {
        self.configured
    }

    /// `core` tries once to become the holder. It becomes the holder
    /// exactly when nobody is. A core that finds the handle taken is asked
    /// to park until an event is signalled; it then tries again.
    ///
    /// A core that has the handle must not try for it again: it would wait
    /// for itself.
    pub fn attempt(&mut self, fx: &mut Effects, core: usize) -> (granted: bool)
        requires
            old(self)@.holder != Some(core),
        ensures
            granted == old(self)@.grants(),
            final(self)@ == old(self)@.attempted(core),
            final(fx)@ == if granted {
                old(fx)@
            } else {
                old(fx)@.push(Effect::WaitForEvent)
            },
    {
        if self.holder.is_some() {
            fx.record(Effect::WaitForEvent);
            false
        } else {
            self.holder = Some(core);
            true
        }
    }

    /// `core` tries once to become the holder, unless it is the holder: then
    /// nothing is tried and nothing changes.
    pub fn try_attempt(&mut self, fx: &mut Effects, core: usize) -> (r: Result<bool, Reentered>)
        ensures
            r is Err <==> old(self)@.holder == Some(core),
            r is Err ==> final(self)@ == old(self)@ && final(fx)@ == old(fx)@,
            r matches Ok(granted) ==> {
                &&& granted == old(self)@.grants()
                &&& final(self)@ == old(self)@.attempted(core)
                &&& final(fx)@ == if granted {
                    old(fx)@
                } else {
                    old(fx)@.push(Effect::WaitForEvent)
                }
            },
    {
        if self.is_held_by(core) {
            Err(Reentered)
        } else {
            Ok(self.attempt(fx, core))
        }
    }

    /// The holder, `core`, gives the handle back. The lock is free again
    /// and remembers whether the device is set up, and every waiting core
    /// is woken, whether or not one waits.
    ///
    /// Only the holder can give the handle back.
    pub fn free(&mut self, fx: &mut Effects, core: usize, configured: bool)
        requires
            old(self)@.holder == Some(core),
        ensures
            final(self)@ == old(self)@.released(configured),
            final(fx)@ == old(fx)@.push(Effect::SignalEvent),
    {
        self.holder = None;
        self.configured = configured;
        fx.record(Effect::SignalEvent);
    }

    /// `core` gives the handle back if it is the holder. `false`, and
    /// nothing changes, where it is not.
    pub fn try_free(&mut self, fx: &mut Effects, core: usize, configured: bool) -> (freed: bool)
        ensures
            freed == (old(self)@.holder == Some(core)),
            freed ==> final(self)@ == old(self)@.released(configured) && final(fx)@ == old(
                fx,
            )@.push(Effect::SignalEvent),
            !freed ==> final(self)@ == old(self)@ && final(fx)@ == old(fx)@,
    {
        if self.is_held_by(core) {
            self.free(fx, core, configured);
            true
        } else {
            false
        }
    }
}

/// The cores that share one device lock: the lock, and for each core the
/// handle it has, if any, as what that handle says of the device's setup.
pub struct Cores {
    pub lock: LockState,
    pub handles: Seq<Option<bool>>,
}

/// What one core does in one indivisible step.
pub enum Step {
    /// The core tries to take the handle.
    Attempt { core: usize },
    /// The core sets the device up through its handle.
    Init { core: usize },
    /// The core gives its handle back.
    Release { core: usize },
}

impl Cores {
    /// `core` is one of the cores.
    pub open spec fn has(self, core: usize) -> bool {
        core < self.handles.len()
    }

    /// `core` has the handle.
    pub open spec fn holds(self, core: usize) -> bool {
        self.has(core) && self.handles[core as int] is Some
    }

    /// No two cores have the handle, and the lock names as its holder the
    /// core that has it, and nobody while none has.
    pub open spec fn exclusive(self) -> bool {
        &&& forall|a: usize, b: usize| #[trigger] self.holds(a) && #[trigger] self.holds(b) ==> a == b
        &&& forall|c: usize| #[trigger] self.holds(c) <==> self.lock.holder == Some(c)
    }

    /// A handle knows of the device's setup whatever the lock remembers.
    pub open spec fn informed(self) -> bool {
        forall|c: usize| #[trigger]
            self.holds(c) && self.lock.configured ==> self.handles[c as int] == Some(true)
    }

    /// The cores after one step. A step of a core that does not exist
    /// changes nothing, and neither does a step through a handle by a core
    /// without one. An attempt by the holder is a breach that the lock's
    /// contract leaves out; here it changes nothing.
    pub open spec fn step(self, step: Step) -> Cores {
        match step {
            Step::Attempt { core } => if !self.has(core) || self.holds(core) {
                self
            } else if self.lock.grants() {
                Cores {
                    lock: self.lock.attempted(core),
                    handles: self.handles.update(core as int, Some(self.lock.configured)),
                }
            } else {
                Cores { lock: self.lock.attempted(core), handles: self.handles }
            },
            Step::Init { core } => if self.holds(core) {
                Cores { lock: self.lock, handles: self.handles.update(core as int, Some(true)) }
            } else {
                self
            },
            Step::Release { core } => if self.holds(core) {
                Cores {
                    lock: self.lock.released(self.handles[core as int]->0),
                    handles: self.handles.update(core as int, None),
                }
            } else {
                self
            },
        }
    }

    /// The cores after `steps`, taken in order.
    pub open spec fn run(self, steps: Seq<Step>) -> Cores
        decreases steps.len(),
    {
        if steps.len() == 0 {
            self
        } else {
            self.run(steps.drop_last()).step(steps.last())
        }
    }
}

/// One step keeps the handle with one core at most, and keeps what is known
/// of the device's setup.
pub proof fn lemma_step(cores: Cores, step: Step)
    requires
        cores.exclusive(),
        cores.informed(),
    ensures
        cores.step(step).exclusive(),
        cores.step(step).informed(),
        cores.step(step).handles.len() == cores.handles.len(),
        cores.lock.configured ==> cores.step(step).lock.configured,
{
    let after = cores.step(step);
    match step {
        Step::Attempt { core } => {
            if cores.has(core) && !cores.holds(core) && cores.lock.grants() {
                assert(after.holds(core));
                assert forall|a: usize| !#[trigger] cores.holds(a) by {}
                assert forall|c: usize| #[trigger] after.holds(c) <==> after.lock.holder == Some(
                    c,
                ) by {
                    if c != core {
                        assert(!cores.holds(c));
                    }
                }
                assert forall|a: usize, b: usize| #[trigger]
                    after.holds(a) && #[trigger] after.holds(b) implies a == b by {
                    assert(!cores.holds(a));
                    assert(!cores.holds(b));
                }
            }
        },
        Step::Init { core } => {
            if cores.holds(core) {
                assert(after.holds(core));
                assert forall|c: usize| #[trigger] after.holds(c) <==> after.lock.holder == Some(
                    c,
                ) by {
                    assert(after.holds(c) == cores.holds(c));
                }
                assert forall|a: usize, b: usize| #[trigger]
                    after.holds(a) && #[trigger] after.holds(b) implies a == b by {
                    assert(cores.holds(a));
                    assert(cores.holds(b));
                }
                assert forall|a: usize| #[trigger]
                    after.holds(a) && after.lock.configured implies after.handles[a as int] == Some(
                    true,
                ) by {
                    assert(cores.holds(a));
                }
            }
        },
        Step::Release { core } => {
            if cores.holds(core) {
                assert forall|a: usize| !#[trigger] after.holds(a) by {
                    if a != core && after.holds(a) {
                        assert(cores.holds(a));
                    }
                }
            }
        },
    }
}

/// However the cores' steps interleave: no two cores ever have the handle
/// at once, the lock is held exactly while one has it, and a device that
/// the lock remembers as set up stays so, in the lock and in every handle
/// given out after.
pub proof fn lemma_exclusivity(cores: Cores, steps: Seq<Step>)
    requires
        cores.exclusive(),
        cores.informed(),
    ensures
        cores.run(steps).exclusive(),
        cores.run(steps).informed(),
        cores.run(steps).handles.len() == cores.handles.len(),
        cores.lock.configured ==> cores.run(steps).lock.configured,
    decreases steps.len(),
{
    if steps.len() > 0 {
        lemma_exclusivity(cores, steps.drop_last());
        lemma_step(cores.run(steps.drop_last()), steps.last());
    }
}

/// While one core has the handle, another core's attempt fails and hands
/// out nothing. Once the holder has given the handle back, the first
/// attempt of any core succeeds: a waiting core needs one more try.
pub proof fn lemma_release_admits_next(cores: Cores, holder: usize, waiter: usize)
    requires
        cores.exclusive(),
        cores.holds(holder),
        cores.has(waiter),
        waiter != holder,
    ensures
        cores.step(Step::Attempt { core: waiter }).handles == cores.handles,
        ({
            let freed = cores.step(Step::Release { core: holder });
            let retried = freed.step(Step::Attempt { core: waiter });
            &&& freed.lock.grants()
            &&& retried.holds(waiter)
            &&& !retried.holds(holder)
            &&& retried.lock.holder == Some(waiter)
        }),
{
    assert(cores.lock.holder == Some(holder));
    assert(!cores.holds(waiter));
}

/// A core takes the handle of a free lock, sets the device up and gives the
/// handle back. Whatever the cores do after that, the lock remembers the
/// device as set up, and whoever has the handle finds it set up without
/// setting it up again.
pub proof fn lemma_configuration_persists(
    cores: Cores,
    first: usize,
    later: Seq<Step>,
    second: usize,
)
    requires
        cores.exclusive(),
        cores.informed(),
        cores.lock.grants(),
        cores.has(first),
    ensures
        ({
            let done = cores.step(Step::Attempt { core: first }).step(
                Step::Init { core: first },
            ).step(Step::Release { core: first });
            let end = done.run(later);
            &&& done.lock == LockState { holder: None, configured: true }
            &&& end.lock.configured
            &&& end.holds(second) ==> end.handles[second as int] == Some(true)
        }),
{
    assert(!cores.holds(first));
    let taken = cores.step(Step::Attempt { core: first });
    lemma_step(cores, Step::Attempt { core: first });
    assert(taken.holds(first));
    let set_up = taken.step(Step::Init { core: first });
    lemma_step(taken, Step::Init { core: first });
    assert(set_up.holds(first));
    let done = set_up.step(Step::Release { core: first });
    lemma_step(set_up, Step::Release { core: first });
    lemma_exclusivity(done, later);
}

} // verus!
