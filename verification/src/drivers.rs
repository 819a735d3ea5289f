//! Memory-mapped devices, and the record of what the machine is asked to do.
//!
//! A driver here never touches a register. It records each bus access, delay
//! and core signal as an [`Effect`], in program order, and the platform layer
//! performs them in that order. Where an effect brings a value back (a
//! [`Effect::Read`]), the platform hands that value to the driver's next call.

use vstd::prelude::*;

pub mod gpio;
pub mod lock;
pub mod mini_uart;

verus! {

/// Where the peripherals' registers start.
pub const MMIO_BASE_ADDR: usize = 0x3F00_0000;

/// One thing that the machine is asked to do.
#[derive(Clone, Copy, Debug, PartialEq, Eq, Structural)]
pub enum Effect {
    /// Store `value` in the register at `addr`.
    Write { addr: usize, value: u32 },
    /// Load the register at `addr`, clear the bits of `clear`, set those of
    /// `set`, and store the result.
    Modify { addr: usize, clear: u32, set: u32 },
    /// Load the register at `addr` and hand the value back.
    Read { addr: usize },
    /// Load the register at `addr` again and again until a bit of `mask` is set.
    Poll { addr: usize, mask: u32 },
    /// Do nothing for about `cycles` processor cycles.
    Delay { cycles: usize },
    /// Wake every core that waits for an event.
    SignalEvent,
    /// Park this core until an event is signalled.
    WaitForEvent,
}

/// What a register holds after a `Modify` found `before` in it.
pub open spec fn merged(before: u32, clear: u32, set: u32) -> u32 {
    (before & !clear) | set
}

/// What a register holds after a `Modify` found `before` in it.
pub fn merge(before: u32, clear: u32, set: u32) -> (after: u32)
    ensures
        after == merged(before, clear, set),
{
    (before & !clear) | set
}

/// Whether a `Poll` for the bits of `mask` is over once it has loaded
/// `value`: one of the bits is set.
pub open spec fn poll_over(value: u32, mask: u32) -> bool {
    value & mask != 0
}

/// Whether a `Poll` for the bits of `mask` is over once it has loaded
/// `value`.
pub fn poll_done(value: u32, mask: u32) -> (done: bool)
    ensures
        done == poll_over(value, mask),
{
    value & mask != 0
}

/// The values that `log` stores in the register at `addr`, oldest first.
pub open spec fn writes_to(log: Seq<Effect>, addr: usize) -> Seq<u32>
    decreases log.len(),
{
    if log.len() == 0 {
        Seq::empty()
    } else {
        let earlier = writes_to(log.drop_last(), addr);
        match log.last() {
            Effect::Write { addr: a, value } => if a == addr {
                earlier.push(value)
            } else {
                earlier
            },
            _ => earlier,
        }
    }
}

/// What two logs store in a register, one after the other, is what their
/// concatenation stores in it.
pub proof fn lemma_writes_to_concat(first: Seq<Effect>, second: Seq<Effect>, addr: usize)
    ensures
        writes_to(first + second, addr) == writes_to(first, addr) + writes_to(second, addr),
    decreases second.len(),
{
    if second.len() == 0 {
        assert(first + second == first);
    } else {
        assert((first + second).drop_last() == first + second.drop_last());
        lemma_writes_to_concat(first, second.drop_last(), addr);
    }
}

/// The effects recorded so far, oldest first.
pub struct Effects {
    log: Vec<Effect>,
}

impl View for Effects {
    type V = Seq<Effect>;

    closed spec fn view(&self) -> Seq<Effect> {
        self.log@
    }
}

impl Effects {
    /// An empty record.
    pub fn new() -> (fx: Self)
        ensures
            fx@ == Seq::<Effect>::empty(),
    {
        Effects { log: Vec::new() }
    }

    /// Appends one effect.
    pub fn record(&mut self, effect: Effect)
        ensures
            final(self)@ == old(self)@.push(effect),
    {
        self.log.push(effect);
    }

    /// The number of effects recorded.
    pub fn len(&self) -> (n: usize)
        ensures
            n == self@.len(),
    {
        self.log.len()
    }

    /// The effect at position `i`.
    pub fn get(&self, i: usize) -> (effect: Effect)
        requires
            i < self@.len(),
        ensures
            effect == self@[i as int],
    {
        self.log[i]
    }

    /// Hands out everything recorded and starts again from nothing.
    pub fn drain(&mut self) -> (log: Vec<Effect>)
        ensures
            log@ == old(self)@,
            final(self)@ == Seq::<Effect>::empty(),
    {
        let mut log: Vec<Effect> = Vec::new();
        core::mem::swap(&mut self.log, &mut log);
        log
    }

    /// The values stored in the register at `addr`, oldest first.
    pub fn written_to(&self, addr: usize) -> (values: Vec<u32>)
        ensures
            values@ == writes_to(self@, addr),
    {
        let mut values: Vec<u32> = Vec::new();
        let mut i: usize = 0;
        while i < self.log.len()
            invariant
                i <= self.log.len(),
                values@ == writes_to(self.log@.take(i as int), addr),
            decreases self.log.len() - i,
        {
            proof {
                let next = self.log@.take(i + 1);
                assert(next.drop_last() == self.log@.take(i as int));
                assert(next.last() == self.log@[i as int]);
            }
            match self.log[i] {
                Effect::Write { addr: a, value } => {
                    if a == addr {
                        values.push(value);
                    }
                },
                _ => {},
            }
            i = i + 1;
        }
        proof {
            assert(self.log@.take(i as int) == self.log@);
        }
        values
    }
}

/// One 32-bit device register, known by its address.
pub struct Reg32 {
    addr: usize,
}

impl Reg32 {
    /// The register's address.
    pub closed spec fn addr(self) -> usize {
        self.addr
    }

    /// The register at `addr`.
    pub fn new(addr: usize) -> (reg: Reg32)
        ensures
            reg.addr() == addr,
    {
        Reg32 { addr }
    }

    /// The register's address.
    pub fn address(&self) -> (addr: usize)
        ensures
            addr == self.addr(),
    {
        self.addr
    }

    /// Asks for `val` to be stored in the register.
    pub fn write(&self, fx: &mut Effects, val: u32)
        ensures
            final(fx)@ == old(fx)@.push(Effect::Write { addr: self.addr(), value: val }),
    {
        fx.record(Effect::Write { addr: self.addr, value: val });
    }

    /// Asks for the register to be loaded. The value comes back from the
    /// platform once it has performed the effect.
    pub fn read(&self, fx: &mut Effects)
        ensures
            final(fx)@ == old(fx)@.push(Effect::Read { addr: self.addr() }),
    {
        fx.record(Effect::Read { addr: self.addr });
    }

    /// Asks for the bits of `clear` to be cleared and those of `set` to be
    /// set, the other bits staying as the register holds them.
    pub fn modify(&self, fx: &mut Effects, clear: u32, set: u32)
        ensures
            final(fx)@ == old(fx)@.push(
                Effect::Modify { addr: self.addr(), clear: clear, set: set },
            ),
    {
        fx.record(Effect::Modify { addr: self.addr, clear, set });
    }

    /// Asks for the register to be loaded until a bit of `mask` is set.
    pub fn poll(&self, fx: &mut Effects, mask: u32)
        ensures
            final(fx)@ == old(fx)@.push(Effect::Poll { addr: self.addr(), mask: mask }),
    {
        fx.record(Effect::Poll { addr: self.addr, mask });
    }
}

} // verus!
