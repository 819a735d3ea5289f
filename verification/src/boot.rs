//! Work for the other cores: one slot per core, which holds the task that
//! the core runs next, or nothing.

use vstd::prelude::*;
use crate::drivers::{Effect, Effects};

verus! {

/// The number of cores, and so of slots.
pub const CORE_COUNT: usize = 4;

/// The slots after `task` has been published to `core`: the task stands in
/// the core's slot, whatever stood there before.
pub open spec fn published<T>(slots: Seq<Option<T>>, core: int, task: T) -> Seq<Option<T>> {
    slots.update(core, Some(task))
}

/// The slots after `core` has looked for work: its slot is empty.
pub open spec fn polled<T>(slots: Seq<Option<T>>, core: int) -> Seq<Option<T>> {
    slots.update(core, None)
}

/// The tasks that `core` runs when it looks for work `polls` times in a row
/// and nothing is published meanwhile, in the order in which it runs them.
pub open spec fn runs<T>(slots: Seq<Option<T>>, core: int, polls: nat) -> Seq<T>
    decreases polls,
{
    if polls == 0 {
        Seq::empty()
    } else {
        match slots[core] {
            Some(task) => seq![task] + runs(polled(slots, core), core, (polls - 1) as nat),
            None => runs(slots, core, (polls - 1) as nat),
        }
    }
}

/// A core with an empty slot runs nothing, however often it looks.
pub proof fn lemma_empty_slot_runs_nothing<T>(slots: Seq<Option<T>>, core: int, polls: nat)
    requires
        0 <= core < slots.len(),
        slots[core] is None,
    ensures
        runs(slots, core, polls) == Seq::<T>::empty(),
    decreases polls,
{
    if polls > 0 {
        lemma_empty_slot_runs_nothing(slots, core, (polls - 1) as nat);
    }
}

/// A task published over one that the core has not yet taken replaces it:
/// the core runs the later task, once, and never the earlier one.
pub proof fn lemma_last_publish_wins<T>(
    slots: Seq<Option<T>>,
    core: int,
    earlier: T,
    later: T,
    polls: nat,
)
    requires
        0 <= core < slots.len(),
        polls >= 1,
    ensures
        runs(published(published(slots, core, earlier), core, later), core, polls) == seq![later],
{
    let pending = published(published(slots, core, earlier), core, later);
    lemma_empty_slot_runs_nothing(polled(pending, core), core, (polls - 1) as nat);
}

/// Publishing to one core leaves what the other cores run as it was.
pub proof fn lemma_publish_is_per_core<T>(
    slots: Seq<Option<T>>,
    core: int,
    task: T,
    other: int,
    polls: nat,
)
    requires
        0 <= core < slots.len(),
        0 <= other < slots.len(),
        other != core,
    ensures
        runs(published(slots, core, task), other, polls) == runs(slots, other, polls),
    decreases polls,
{
    if polls > 0 {
        let after = published(slots, core, task);
        match slots[other] {
            Some(_) => {
                assert(polled(after, other) == published(polled(slots, other), core, task));
                lemma_publish_is_per_core(polled(slots, other), core, task, other, (polls - 1) as nat);
            },
            None => {
                lemma_publish_is_per_core(slots, core, task, other, (polls - 1) as nat);
            },
        }
    }
}

/// One slot for each core. A slot holds the task that its core runs next,
/// or nothing.
pub struct TaskSlots<T> {
    slots: [Option<T>; 4],
}

impl<T> View for TaskSlots<T> {
    type V = Seq<Option<T>>;

    closed spec fn view(&self) -> Seq<Option<T>> {
        self.slots@
    }
}

impl<T> TaskSlots<T> {
    /// The slots at boot: all empty.
    pub fn new() -> (slots: Self)
        ensures
            slots@.len() == CORE_COUNT,
            forall|core: int| 0 <= core < CORE_COUNT ==> slots@[core] is None,
    {
        TaskSlots { slots: [None, None, None, None] }
    }

    /// There is a slot for each core.
    pub proof fn lemma_len(&self)
        ensures
            self@.len() == CORE_COUNT,
    {
    }

    /// Whether a task waits for `core`.
    pub fn is_pending(&self, core: usize) -> (pending: bool)
        requires
            core < CORE_COUNT,
        ensures
            pending == (self@[core as int] is Some),
    {
        self.slots[core].is_some()
    }

    /// Hands `task` to `core`, in place of whatever the core had not yet
    /// taken. The task that was displaced, if any, comes back.
    pub fn publish(&mut self, core: usize, task: T) -> (displaced: Option<T>)
        requires
            core < CORE_COUNT,
        ensures
            final(self)@ == published(old(self)@, core as int, task),
            displaced == old(self)@[core as int],
    {
        let mut slot = Some(task);
        core::mem::swap(&mut self.slots[core], &mut slot);
        slot
    }

    /// Takes the task that waits for `core`, if any, and leaves the slot
    /// empty.
    pub fn take(&mut self, core: usize) -> (task: Option<T>)
        requires
            core < CORE_COUNT,
        ensures
            final(self)@ == polled(old(self)@, core as int),
            task == old(self)@[core as int],
    {
        let mut slot = None;
        core::mem::swap(&mut self.slots[core], &mut slot);
        slot
    }
}

impl<T> TaskSlots<T> {
    /// What `core` does each time round, short of running the task: it
    /// takes the task that waits for it, or, with nothing to take, is asked
    /// to park until an event is signalled.
    pub fn poll(&mut self, fx: &mut Effects, core: usize) -> (task: Option<T>)
        requires
            core < CORE_COUNT,
        ensures
            task == old(self)@[core as int],
            final(self)@ == polled(old(self)@, core as int),
            final(fx)@ == if task is Some {
                old(fx)@
            } else {
                old(fx)@.push(Effect::WaitForEvent)
            },
    {
        let task = self.take(core);
        if task.is_none() {
            fx.record(Effect::WaitForEvent);
        }
        task
    }
}

/// The slots after `task` has been handed to every core but the first.
pub open spec fn handed_out<T>(slots: Seq<Option<T>>, task: T) -> Seq<Option<T>> {
    published(published(published(slots, 1, task), 2, task), 3, task)
}

/// Hands `task` to every core but the first, in place of whatever a core
/// had not yet taken. The first core's slot stays as it is.
pub fn hand_out<T: Copy>(slots: &mut TaskSlots<T>, task: T)
    ensures
        final(slots)@ == handed_out(old(slots)@, task),
        final(slots)@[0] == old(slots)@[0],
        forall|core: int| 1 <= core < CORE_COUNT ==> final(slots)@[core] == Some(task),
{
    proof {
        slots.lemma_len();
    }
    slots.publish(1, task);
    slots.publish(2, task);
    slots.publish(3, task);
}

impl<T: FnOnce()> TaskSlots<T> {
    /// What `core` does each time round: it takes the task that waits for
    /// it and runs the task to its end, or, with nothing to run, parks
    /// until an event is signalled. `true` where a task ran.
    pub fn poll_and_run(&mut self, fx: &mut Effects, core: usize) -> (ran: bool)
        requires
            core < CORE_COUNT,
            old(self)@[core as int] matches Some(task) ==> call_requires(task, ()),
        ensures
            ran == (old(self)@[core as int] is Some),
            final(self)@ == polled(old(self)@, core as int),
            old(self)@[core as int] matches Some(task) ==> call_ensures(task, (), ()),
            final(fx)@ == if ran {
                old(fx)@
            } else {
                old(fx)@.push(Effect::WaitForEvent)
            },
    {
        match self.poll(fx, core) {
            Some(task) => {
                task();
                true
            },
            None => false,
        }
    }
}

} // verus!
