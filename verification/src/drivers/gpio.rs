//! The general-purpose pins: which function a pin has, and the pulse that
//! latches its pull resistor setting.

use vstd::prelude::*;
use crate::drivers::lock::{DeviceLock, Reentered};
use crate::drivers::{Effect, Effects, Reg32, MMIO_BASE_ADDR};
use crate::utils::delay_cycles;

verus! {

/// What a pin is wired to inside the chip.
#[derive(Clone, Copy, Debug, PartialEq, Eq, Structural)]
pub enum GPIOFunc {
    Input,
    Output,
    AltFn0,
    AltFn1,
    AltFn2,
    AltFn3,
    AltFn4,
    AltFn5,
}

impl GPIOFunc {
    /// The three bits that select this function in a function-select register.
    pub open spec fn bits(self) -> u32 {
        match self {
            GPIOFunc::Input => 0b000,
            GPIOFunc::Output => 0b001,
            GPIOFunc::AltFn0 => 0b100,
            GPIOFunc::AltFn1 => 0b101,
            GPIOFunc::AltFn2 => 0b110,
            GPIOFunc::AltFn3 => 0b111,
            GPIOFunc::AltFn4 => 0b011,
            GPIOFunc::AltFn5 => 0b010,
        }
    }

    /// The three bits that select this function in a function-select register.
    pub fn code(self) -> (bits: u32)
        ensures
            bits == self.bits(),
            bits < 8,
    {
        match self {
            GPIOFunc::Input => 0b000,
            GPIOFunc::Output => 0b001,
            GPIOFunc::AltFn0 => 0b100,
            GPIOFunc::AltFn1 => 0b101,
            GPIOFunc::AltFn2 => 0b110,
            GPIOFunc::AltFn3 => 0b111,
            GPIOFunc::AltFn4 => 0b011,
            GPIOFunc::AltFn5 => 0b010,
        }
    }
}

/// How long the pull resistor control has to settle, in cycles.
pub const PULL_SETTLE_CYCLES: usize = 150;

/// The address of function-select register `i`; each serves ten pins.
pub open spec fn func_select_addr(i: int) -> usize {
    (GPIORegisters::REGS_ADDR + 4 * i) as usize
}

/// The address of the pull resistor control register.
pub open spec fn pull_enable_addr() -> usize {
    (GPIORegisters::REGS_ADDR + 0x94) as usize
}

/// The address of pull resistor clock register `i`; each serves 32 pins.
pub open spec fn pull_clock_addr(i: int) -> usize {
    (GPIORegisters::REGS_ADDR + 0x98 + 4 * i) as usize
}

/// Where a pin's three function bits start in its function-select register.
pub open spec fn func_shift(pin: u8) -> u32 {
    (3 * (pin % 10)) as u32
}

/// The function bits that a function-select register holding `fsel` gives
/// to `pin`, one of the ten pins it serves.
pub open spec fn func_of(fsel: u32, pin: u8) -> u32 {
    (fsel >> func_shift(pin)) & 0b111
}

/// What `set_pin_func` asks of the machine: one update of the pin's
/// function-select register that touches the pin's three bits only.
pub open spec fn set_pin_func_effects(pin: u8, func: GPIOFunc) -> Seq<Effect> {
    seq![
        Effect::Modify {
            addr: func_select_addr(pin as int / 10),
            clear: 0b111u32 << func_shift(pin),
            set: func.bits() << func_shift(pin),
        },
    ]
}

/// What `pin_enable` asks of the machine, in order.
pub open spec fn pin_enable_effects(pin: u8) -> Seq<Effect> {
    seq![
        Effect::Write { addr: pull_enable_addr(), value: 0 },
        Effect::Delay { cycles: PULL_SETTLE_CYCLES },
        Effect::Write { addr: pull_clock_addr(pin as int / 32), value: 1u32 << (pin % 32) },
        Effect::Delay { cycles: PULL_SETTLE_CYCLES },
        Effect::Write { addr: pull_enable_addr(), value: 0 },
        Effect::Write { addr: pull_clock_addr(pin as int / 32), value: 0 },
    ]
}

/// The registers of the pin controller that the driver works with.
pub struct GPIORegisters {
    func_select: [Reg32; 6],
    pullup_pulldown_enable: Reg32,
    pullup_pulldown_clocks: [Reg32; 2],
}

impl GPIORegisters {
    pub const REGS_ADDR: usize = MMIO_BASE_ADDR + 0x20000;

    #[verifier::type_invariant]
    spec fn laid_out(self) -> bool {
        &&& forall|i: int| 0 <= i < 6 ==> (#[trigger] self.func_select[i]).addr() == func_select_addr(i)
        &&& self.pullup_pulldown_enable.addr() == pull_enable_addr()
        &&& forall|i: int|
            0 <= i < 2 ==> (#[trigger] self.pullup_pulldown_clocks[i]).addr() == pull_clock_addr(i)
    }

    /// Where the block starts.
    pub closed spec fn addr(self) -> usize {
        self.func_select[0].addr()
    }

    /// The register block at its fixed address.
    pub fn get() -> (regs: Self)
        ensures
            regs.addr() == Self::REGS_ADDR,
    {
        let base = Self::REGS_ADDR;
        GPIORegisters {
            func_select: [
                Reg32::new(base),
                Reg32::new(base + 4),
                Reg32::new(base + 8),
                Reg32::new(base + 12),
                Reg32::new(base + 16),
                Reg32::new(base + 20),
            ],
            pullup_pulldown_enable: Reg32::new(base + 0x94),
            pullup_pulldown_clocks: [Reg32::new(base + 0x98), Reg32::new(base + 0x9C)],
        }
    }
}

/// The handle through which pins are configured.
pub struct GPIO {
    regs: GPIORegisters,
    core: usize,
}

impl GPIO {
    /// Where the handle's registers start.
    pub closed spec fn addr(self) -> usize {
        self.regs.addr()
    }

    /// The core that took the handle.
    pub closed spec fn owner(self) -> usize {
        self.core
    }

    /// The core that took the handle.
    pub fn holder(&self) -> (core: usize)
        ensures
            core == self.owner(),
    {
        self.core
    }

    /// `core` tries once to take the handle to the pin controller.
    ///
    /// The attempt succeeds exactly when no core has the handle. A core
    /// that finds it taken is asked to park until an event is signalled; it
    /// then tries again. A core that has the handle must not try for it
    /// again.
    pub fn acquire(lock: &mut DeviceLock, fx: &mut Effects, core: usize) -> (handle: Option<GPIO>)
        requires
            old(lock)@.holder != Some(core),
        ensures
            handle.is_some() == old(lock)@.grants(),
            final(lock)@ == old(lock)@.attempted(core),
            handle matches Some(gpio) ==> gpio.addr() == GPIORegisters::REGS_ADDR && gpio.owner()
                == core,
            final(fx)@ == if old(lock)@.grants() {
                old(fx)@
            } else {
                old(fx)@.push(Effect::WaitForEvent)
            },
    {
        if lock.attempt(fx, core) {
            Some(GPIO { regs: GPIORegisters::get(), core })
        } else {
            None
        }
    }

    /// `core` tries once to take the handle, unless the lock names it as
    /// the holder: then it gets an error, and nothing changes.
    pub fn try_acquire(lock: &mut DeviceLock, fx: &mut Effects, core: usize) -> (r: Result<
        Option<GPIO>,
        Reentered,
    >)
        ensures
            r is Err <==> old(lock)@.holder == Some(core),
            r is Err ==> final(lock)@ == old(lock)@ && final(fx)@ == old(fx)@,
            r matches Ok(handle) ==> {
                &&& handle.is_some() == old(lock)@.grants()
                &&& final(lock)@ == old(lock)@.attempted(core)
                &&& (handle matches Some(gpio) ==> gpio.addr() == GPIORegisters::REGS_ADDR
                    && gpio.owner() == core)
                &&& final(fx)@ == if old(lock)@.grants() {
                    old(fx)@
                } else {
                    old(fx)@.push(Effect::WaitForEvent)
                }
            },
    {
        if lock.is_held_by(core) {
            Err(Reentered)
        } else {
            Ok(GPIO::acquire(lock, fx, core))
        }
    }

    /// Gives the handle back to the lock that it was taken from. The lock
    /// is free again, and every waiting core is woken, whether or not one
    /// waits.
    pub fn release(self, lock: &mut DeviceLock, fx: &mut Effects)
        requires
            old(lock)@.holder == Some(self.owner()),
        ensures
            final(lock)@ == old(lock)@.released(old(lock)@.configured),
            final(fx)@ == old(fx)@.push(Effect::SignalEvent),
    {
        let configured = lock.was_configured();
        lock.free(fx, self.core, configured);
    }

    /// Gives the handle back if the lock names the handle's core as its
    /// holder. Where it does not, the handle comes back as it was and
    /// nothing changes.
    pub fn try_release(self, lock: &mut DeviceLock, fx: &mut Effects) -> (r: Result<(), GPIO>)
        ensures
            r is Ok <==> old(lock)@.holder == Some(self.owner()),
            r is Ok ==> final(lock)@ == old(lock)@.released(old(lock)@.configured) && final(fx)@
                == old(fx)@.push(Effect::SignalEvent),
            r matches Err(handle) ==> handle == self && final(lock)@ == old(lock)@ && final(fx)@
                == old(fx)@,
    {
        if lock.is_held_by(self.core) {
            self.release(lock, fx);
            Ok(())
        } else {
            Err(self)
        }
    }

    /// Gives `pin` the function `func` and leaves the other pins as they are.
    ///
    /// Only the pin's three bits in its function-select register change.
    pub fn set_pin_func(&mut self, fx: &mut Effects, pin: u8, func: GPIOFunc)
        requires
            pin < 60,
        ensures
            final(self).addr() == old(self).addr(),
            final(self).owner() == old(self).owner(),
            final(fx)@ == old(fx)@ + set_pin_func_effects(pin, func),
    {
        let bit: u32 = (pin as u32 * 3) % 30;
        let reg_idx = (pin / 10) as usize;
        assert(bit == func_shift(pin));
        proof {
            use_type_invariant(&self.regs);
        }
        let code = func.code();
        self.regs.func_select[reg_idx].modify(fx, 0b111u32 << bit, code << bit);
    }

    /// Latches the pull resistor setting "none" into `pin`: the control
    /// register is cleared, the pin's clock bit is raised after the control
    /// has settled and held for as long again, then both are cleared.
    pub fn pin_enable(&mut self, fx: &mut Effects, pin: u8)
        requires
            pin < 64,
        ensures
            final(self).addr() == old(self).addr(),
            final(self).owner() == old(self).owner(),
            final(fx)@ == old(fx)@ + pin_enable_effects(pin),
    {
        proof {
            use_type_invariant(&self.regs);
        }
        let idx = (pin / 32) as usize;
        self.regs.pullup_pulldown_enable.write(fx, 0);
        delay_cycles(fx, PULL_SETTLE_CYCLES);
        self.regs.pullup_pulldown_clocks[idx].write(fx, 1u32 << (pin % 32));
        delay_cycles(fx, PULL_SETTLE_CYCLES);
        self.regs.pullup_pulldown_enable.write(fx, 0);
        self.regs.pullup_pulldown_clocks[idx].write(fx, 0);
    }
}

/// Once the effect of `set_pin_func` has been performed on a register that
/// held `before`, the register gives `pin` the function asked for, gives
/// every other pin it serves the function that pin had, and keeps its two
/// spare bits.
pub proof fn lemma_set_pin_func(before: u32, pin: u8, func: GPIOFunc, other: u8)
    requires
        pin / 10 == other / 10,
        pin != other,
    ensures
        ({
            let after = crate::drivers::merged(
                before,
                0b111u32 << func_shift(pin),
                func.bits() << func_shift(pin),
            );
            &&& func_of(after, pin) == func.bits()
            &&& func_of(after, other) == func_of(before, other)
            &&& after >> 30 == before >> 30
        }),
{
    let s = func_shift(pin);
    let t = func_shift(other);
    let c = func.bits();
    assert(s <= 27 && s % 3 == 0);
    assert(t <= 27 && t % 3 == 0);
    assert(s != t);
    assert(c < 8);
    assert({
        let after = (before & !(0b111u32 << s)) | (c << s);
        &&& (after >> s) & 0b111 == c
        &&& (after >> t) & 0b111 == (before >> t) & 0b111
        &&& after >> 30 == before >> 30
    }) by (bit_vector)
        requires
            s <= 27,
            s % 3 == 0,
            t <= 27,
            t % 3 == 0,
            s != t,
            c < 8,
    ;
}

} // verus!
