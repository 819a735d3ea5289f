//! The serial console: the lock that guards it, the handle that the lock
//! gives out, and what the handle asks of the device.

use vstd::prelude::*;
use crate::drivers::gpio::{pin_enable_effects, set_pin_func_effects, GPIOFunc, GPIO};
use crate::drivers::lock::{DeviceLock, Reentered};
use crate::drivers::{lemma_writes_to_concat, writes_to, Effect, Effects, Reg32, MMIO_BASE_ADDR};

verus! {

/// The registers of the serial device that the driver works with.
pub struct MiniUARTRegisters {
    enables: Reg32,
    io: Reg32,
    ier: Reg32,
    lcr: Reg32,
    lsr: Reg32,
    control: Reg32,
    baud_rate: Reg32,
}

/// Enables the auxiliary peripherals.
pub const ENABLES_ADDR: usize = MiniUARTRegisters::REGS_ADDR + 0x04;

/// The data register: a store sends a byte, a load takes a received one.
pub const IO_ADDR: usize = MiniUARTRegisters::REGS_ADDR + 0x40;

/// Interrupt enables.
pub const IER_ADDR: usize = MiniUARTRegisters::REGS_ADDR + 0x44;

/// Line control: the word length.
pub const LCR_ADDR: usize = MiniUARTRegisters::REGS_ADDR + 0x4C;

/// Line status: whether a byte has arrived, whether one can be sent.
pub const LSR_ADDR: usize = MiniUARTRegisters::REGS_ADDR + 0x54;

/// Switches the receiver and the transmitter on and off.
pub const CONTROL_ADDR: usize = MiniUARTRegisters::REGS_ADDR + 0x60;

/// The divisor that sets the baud rate.
pub const BAUD_RATE_ADDR: usize = MiniUARTRegisters::REGS_ADDR + 0x68;

/// The line status bit that says a received byte is waiting.
pub const LSR_DATA_READY: u32 = 0x01;

/// The line status bit that says the transmitter takes another byte.
pub const LSR_TX_EMPTY: u32 = 0x20;

/// The divisor for about 115200 baud at a 250 MHz clock.
pub const DEFAULT_BAUD_DIVISOR: u16 = 270;

impl MiniUARTRegisters {
    pub const REGS_ADDR: usize = MMIO_BASE_ADDR + 0x215000;

    #[verifier::type_invariant]
    spec fn laid_out(self) -> bool {
        &&& self.enables.addr() == ENABLES_ADDR
        &&& self.io.addr() == IO_ADDR
        &&& self.ier.addr() == IER_ADDR
        &&& self.lcr.addr() == LCR_ADDR
        &&& self.lsr.addr() == LSR_ADDR
        &&& self.control.addr() == CONTROL_ADDR
        &&& self.baud_rate.addr() == BAUD_RATE_ADDR
    }

    /// Where the block starts.
    pub closed spec fn addr(self) -> usize {
        (self.enables.addr() - 0x04) as usize
    }

    /// The register block at its fixed address.
    pub fn get() -> (regs: Self)
        ensures
            regs.addr() == Self::REGS_ADDR,
    {
        MiniUARTRegisters {
            enables: Reg32::new(ENABLES_ADDR),
            io: Reg32::new(IO_ADDR),
            ier: Reg32::new(IER_ADDR),
            lcr: Reg32::new(LCR_ADDR),
            lsr: Reg32::new(LSR_ADDR),
            control: Reg32::new(CONTROL_ADDR),
            baud_rate: Reg32::new(BAUD_RATE_ADDR),
        }
    }
}

/// What the handle asks of the machine to send `byte`: wait for room in the
/// transmitter, then store the byte.
pub open spec fn send_effects(byte: u8) -> Seq<Effect> {
    seq![
        Effect::Poll { addr: LSR_ADDR, mask: LSR_TX_EMPTY },
        Effect::Write { addr: IO_ADDR, value: byte as u32 },
    ]
}

/// What the handle asks of the machine to send `bytes` in order.
pub open spec fn write_effects(bytes: Seq<u8>) -> Seq<Effect>
    decreases bytes.len(),
{
    if bytes.len() == 0 {
        Seq::empty()
    } else {
        write_effects(bytes.drop_last()) + send_effects(bytes.last())
    }
}

/// What the handle asks of the machine to take a byte: wait until one has
/// arrived, then load it.
pub open spec fn await_byte_effects() -> Seq<Effect> {
    seq![
        Effect::Poll { addr: LSR_ADDR, mask: LSR_DATA_READY },
        Effect::Read { addr: IO_ADDR },
    ]
}

/// What the handle asks of the machine to set the device up: the two pins
/// are handed to the device and their pull resistors switched off, then the
/// device is enabled, silenced, set to eight data bits and to the baud rate,
/// and its receiver and transmitter are switched on.
pub open spec fn init_effects(baud_divisor: u16) -> Seq<Effect> {
    set_pin_func_effects(MiniUART::TX_PIN, GPIOFunc::AltFn5) + set_pin_func_effects(
        MiniUART::RX_PIN,
        GPIOFunc::AltFn5,
    ) + pin_enable_effects(MiniUART::TX_PIN) + pin_enable_effects(MiniUART::RX_PIN) + seq![
        Effect::Write { addr: ENABLES_ADDR, value: 1 },
        Effect::Write { addr: CONTROL_ADDR, value: 0 },
        Effect::Write { addr: IER_ADDR, value: 0 },
        Effect::Write { addr: LCR_ADDR, value: 0b11 },
        Effect::Write { addr: BAUD_RATE_ADDR, value: baud_divisor as u32 },
        Effect::Write { addr: CONTROL_ADDR, value: 3 },
    ]
}

/// The bytes that `log` sends down the line, oldest first.
pub open spec fn transmitted(log: Seq<Effect>) -> Seq<u32> {
    writes_to(log, IO_ADDR)
}

/// The bytes of `bytes`, each as the word that is stored in the data
/// register to send it.
pub open spec fn widen(bytes: Seq<u8>) -> Seq<u32> {
    bytes.map_values(|byte: u8| byte as u32)
}

/// An effect that is no store in the data register sends nothing.
pub proof fn lemma_transmitted_none(log: Seq<Effect>, effect: Effect)
    requires
        !(effect matches Effect::Write { addr, .. } && addr == IO_ADDR),
    ensures
        transmitted(log.push(effect)) == transmitted(log),
{
    assert(log.push(effect).drop_last() == log);
}

/// What the handle asks of the machine to send bytes sends those bytes, in
/// order, and no others.
pub proof fn lemma_transmitted(bytes: Seq<u8>)
    ensures
        transmitted(write_effects(bytes)) == widen(bytes),
        bytes.len() == 1 ==> transmitted(send_effects(bytes[0])) == widen(bytes),
    decreases bytes.len(),
{
    let none = Seq::<Effect>::empty();
    if bytes.len() > 0 {
        let last = bytes.last();
        let poll = Effect::Poll { addr: LSR_ADDR, mask: LSR_TX_EMPTY };
        let store = Effect::Write { addr: IO_ADDR, value: last as u32 };
        lemma_transmitted(bytes.drop_last());
        lemma_transmitted_none(none, poll);
        assert(send_effects(last) == none.push(poll).push(store));
        assert(none.push(poll).push(store).drop_last() == none.push(poll));
        assert(transmitted(send_effects(last)) == seq![last as u32]);
        lemma_writes_to_concat(write_effects(bytes.drop_last()), send_effects(last), IO_ADDR);
        assert(widen(bytes) == widen(bytes.drop_last()) + seq![last as u32]);
        if bytes.len() == 1 {
            assert(widen(bytes) == seq![last as u32]);
        }
    }
}

/// The handle to the serial device. There is one at most for each lock.
pub struct MiniUART {
    regs: MiniUARTRegisters,
    core: usize,
    configured: bool,
}

impl MiniUART {
    pub const TX_PIN: u8 = 14;

    pub const RX_PIN: u8 = 15;

    /// Whether the device has been set up, by this holder or an earlier one.
    pub closed spec fn is_configured(self) -> bool {
        self.configured
    }

    /// The core that took the handle.
    pub closed spec fn owner(self) -> usize {
        self.core
    }

    /// The core that took the handle.
    pub fn holder(&self) -> (core: usize)
        ensures
            core == self.owner(),
    {
        self.core
    }

    /// `core` tries once to take the handle.
    ///
    /// The attempt succeeds exactly when no core has the handle. A core
    /// that finds it taken is asked to park until an event is signalled; it
    /// then tries again. A core that has the handle must not try for it
    /// again.
    pub fn acquire(lock: &mut DeviceLock, fx: &mut Effects, core: usize) -> (handle: Option<
        MiniUART,
    >)
        requires
            old(lock)@.holder != Some(core),
        ensures
            handle.is_some() == old(lock)@.grants(),
            final(lock)@ == old(lock)@.attempted(core),
            handle matches Some(uart) ==> uart.is_configured() == old(lock)@.configured
                && uart.owner() == core,
            final(fx)@ == if old(lock)@.grants() {
                old(fx)@
            } else {
                old(fx)@.push(Effect::WaitForEvent)
            },
    {
        if lock.attempt(fx, core) {
            Some(
                MiniUART {
                    regs: MiniUARTRegisters::get(),
                    core,
                    configured: lock.was_configured(),
                },
            )
        } else {
            None
        }
    }

    /// `core` tries once to take the handle, unless the lock names it as
    /// the holder: then it gets an error, and nothing changes.
    pub fn try_acquire(lock: &mut DeviceLock, fx: &mut Effects, core: usize) -> (r: Result<
        Option<MiniUART>,
        Reentered,
    >)
        ensures
            r is Err <==> old(lock)@.holder == Some(core),
            r is Err ==> final(lock)@ == old(lock)@ && final(fx)@ == old(fx)@,
            r matches Ok(handle) ==> {
                &&& handle.is_some() == old(lock)@.grants()
                &&& final(lock)@ == old(lock)@.attempted(core)
                &&& (handle matches Some(uart) ==> uart.is_configured() == old(lock)@.configured
                    && uart.owner() == core)
                &&& final(fx)@ == if old(lock)@.grants() {
                    old(fx)@
                } else {
                    old(fx)@.push(Effect::WaitForEvent)
                }
            },
    {
        if lock.is_held_by(core) {
            Err(Reentered)
        } else {
            Ok(MiniUART::acquire(lock, fx, core))
        }
    }

    /// Gives the handle back to the lock that it was taken from. The lock
    /// is free again and remembers whether the device is set up, and every
    /// waiting core is woken, whether or not one waits.
    pub fn release(self, lock: &mut DeviceLock, fx: &mut Effects)
        requires
            old(lock)@.holder == Some(self.owner()),
        ensures
            final(lock)@ == old(lock)@.released(self.is_configured()),
            final(fx)@ == old(fx)@.push(Effect::SignalEvent),
    {
        lock.free(fx, self.core, self.configured);
    }

    /// Gives the handle back if the lock names the handle's core as its
    /// holder. Where it does not, the handle comes back as it was and
    /// nothing changes.
    pub fn try_release(self, lock: &mut DeviceLock, fx: &mut Effects) -> (r: Result<(), MiniUART>)
        ensures
            r is Ok <==> old(lock)@.holder == Some(self.owner()),
            r is Ok ==> final(lock)@ == old(lock)@.released(self.is_configured()) && final(fx)@
                == old(fx)@.push(Effect::SignalEvent),
            r matches Err(handle) ==> handle == self && final(lock)@ == old(lock)@ && final(fx)@
                == old(fx)@,
    {
        if lock.is_held_by(self.core) {
            self.release(lock, fx);
            Ok(())
        } else {
            Err(self)
        }
    }

    /// Whether the device has been set up, by this holder or an earlier one.
    pub fn configured(&self) -> (configured: bool)
        ensures
            configured == self.is_configured(),
    {
        self.configured
    }

    /// `core` takes the handle, looks whether the device is set up, and
    /// gives the handle back. `None` where the handle was taken.
    pub fn is_setup(lock: &mut DeviceLock, fx: &mut Effects, core: usize) -> (setup: Option<bool>)
        requires
            old(lock)@.holder != Some(core),
        ensures
            setup == if old(lock)@.grants() {
                Some(old(lock)@.configured)
            } else {
                None
            },
            final(lock)@ == old(lock)@,
            final(fx)@ == old(fx)@.push(
                if old(lock)@.grants() {
                    Effect::SignalEvent
                } else {
                    Effect::WaitForEvent
                },
            ),
    {
        match MiniUART::acquire(lock, fx, core) {
            Some(uart) => {
                let configured = uart.configured();
                uart.release(lock, fx);
                Some(configured)
            },
            None => None,
        }
    }

    /// `core` takes the handle, looks whether the device is set up, and
    /// gives the handle back, unless the lock names it as the holder: then
    /// it gets an error, and nothing changes. `None` where the handle was
    /// taken.
    pub fn try_is_setup(lock: &mut DeviceLock, fx: &mut Effects, core: usize) -> (r: Result<
        Option<bool>,
        Reentered,
    >)
        ensures
            r is Err <==> old(lock)@.holder == Some(core),
            r is Err ==> final(fx)@ == old(fx)@,
            final(lock)@ == old(lock)@,
            r matches Ok(setup) ==> {
                &&& setup == if old(lock)@.grants() {
                    Some(old(lock)@.configured)
                } else {
                    None
                }
                &&& final(fx)@ == old(fx)@.push(
                    if old(lock)@.grants() {
                        Effect::SignalEvent
                    } else {
                        Effect::WaitForEvent
                    },
                )
            },
    {
        if lock.is_held_by(core) {
            Err(Reentered)
        } else {
            Ok(MiniUART::is_setup(lock, fx, core))
        }
    }

    /// Sets the device up at the default baud rate.
    pub fn init_default(&mut self, gpio: &mut GPIO, fx: &mut Effects)
        ensures
            final(self).is_configured(),
            final(self).owner() == old(self).owner(),
            final(gpio).addr() == old(gpio).addr(),
            final(gpio).owner() == old(gpio).owner(),
            final(fx)@ == old(fx)@ + init_effects(DEFAULT_BAUD_DIVISOR),
    {
        self.init(gpio, fx, DEFAULT_BAUD_DIVISOR);
    }

    /// Sets the device up. The baud rate is the system clock divided by
    /// eight times the divisor plus one.
    pub fn init(&mut self, gpio: &mut GPIO, fx: &mut Effects, baud_divisor: u16)
        ensures
            final(self).is_configured(),
            final(self).owner() == old(self).owner(),
            final(gpio).addr() == old(gpio).addr(),
            final(gpio).owner() == old(gpio).owner(),
            final(fx)@ == old(fx)@ + init_effects(baud_divisor),
    {
        gpio.set_pin_func(fx, Self::TX_PIN, GPIOFunc::AltFn5);
        gpio.set_pin_func(fx, Self::RX_PIN, GPIOFunc::AltFn5);

        gpio.pin_enable(fx, Self::TX_PIN);
        gpio.pin_enable(fx, Self::RX_PIN);

        proof {
            use_type_invariant(&self.regs);
        }
        self.regs.enables.write(fx, 1);
        self.regs.control.write(fx, 0);
        self.regs.ier.write(fx, 0);
        self.regs.lcr.write(fx, 0b11);
        self.regs.baud_rate.write(fx, baud_divisor as u32);
        self.regs.control.write(fx, 3);

        self.configured = true;
    }

    /// Sends one byte, once the transmitter has room for it.
    pub fn send(&mut self, fx: &mut Effects, byte: u8)
        requires
            old(self).is_configured(),
        ensures
            final(self).is_configured(),
            final(self).owner() == old(self).owner(),
            final(fx)@ == old(fx)@ + send_effects(byte),
    {
        proof {
            use_type_invariant(&self.regs);
        }
        self.regs.lsr.poll(fx, LSR_TX_EMPTY);
        self.regs.io.write(fx, byte as u32);
    }

    /// Asks for the next received byte: the machine waits until one has
    /// arrived and loads the data register. What it loads goes to `recv`.
    pub fn await_byte(&mut self, fx: &mut Effects)
        requires
            old(self).is_configured(),
        ensures
            final(self).is_configured(),
            final(self).owner() == old(self).owner(),
            final(fx)@ == old(fx)@ + await_byte_effects(),
    {
        proof {
            use_type_invariant(&self.regs);
        }
        self.regs.lsr.poll(fx, LSR_DATA_READY);
        self.regs.io.read(fx);
    }

    /// The byte in `io`, the word that the machine loaded from the data
    /// register for `await_byte`: its lowest eight bits.
    pub fn recv(&mut self, io: u32) -> (byte: u8)
        requires
            old(self).is_configured(),
        ensures
            final(self).is_configured(),
            final(self).owner() == old(self).owner(),
            byte == io % 256,
    {
        assert(io & 0xff == io % 256) by (bit_vector);
        (io & 0xff) as u8
    }

    /// Sends the bytes of `buf` in order.
    pub fn write(&mut self, fx: &mut Effects, buf: &[u8])
        requires
            old(self).is_configured(),
        ensures
            final(self).is_configured(),
            final(self).owner() == old(self).owner(),
            final(fx)@ == old(fx)@ + write_effects(buf@),
    {
        let mut i: usize = 0;
        while i < buf.len()
            invariant
                i <= buf.len(),
                self.is_configured(),
                self.owner() == old(self).owner(),
                fx@ == old(fx)@ + write_effects(buf@.take(i as int)),
            decreases buf.len() - i,
        {
            proof {
                let next = buf@.take(i + 1);
                assert(next.drop_last() == buf@.take(i as int));
                assert(next.last() == buf@[i as int]);
            }
            self.send(fx, buf[i]);
            i = i + 1;
        }
        proof {
            assert(buf@.take(i as int) == buf@);
        }
    }
}

/// Whether the serial device, whose handle the caller has, has been set up.
pub fn mu_is_setup(uart: &MiniUART) -> (setup: bool)
    ensures
        setup == uart.is_configured(),
{
    uart.configured()
}

/// The byte that the serial device received, out of `io`, the word that
/// the machine loaded for [`MiniUART::await_byte`].
pub fn mu_recv(uart: &mut MiniUART, io: u32) -> (byte: u8)
    requires
        old(uart).is_configured(),
    ensures
        final(uart).is_configured(),
        final(uart).owner() == old(uart).owner(),
        byte == io % 256,
{
    uart.recv(io)
}

/// Sends one byte through the serial device, whose handle the caller has.
pub fn mu_send(uart: &mut MiniUART, fx: &mut Effects, byte: u8)
    requires
        old(uart).is_configured(),
    ensures
        final(uart).is_configured(),
        final(uart).owner() == old(uart).owner(),
        final(fx)@ == old(fx)@ + send_effects(byte),
        transmitted(final(fx)@) == transmitted(old(fx)@).push(byte as u32),
{
    proof {
        lemma_transmitted(seq![byte]);
        lemma_writes_to_concat(old(fx)@, send_effects(byte), IO_ADDR);
        assert(widen(seq![byte]) == seq![byte as u32]);
    }
    uart.send(fx, byte);
}

/// Sends `text` through the serial device, whose handle the caller has.
pub fn _mu_print(uart: &mut MiniUART, fx: &mut Effects, text: &[u8])
    requires
        old(uart).is_configured(),
    ensures
        final(uart).is_configured(),
        final(uart).owner() == old(uart).owner(),
        final(fx)@ == old(fx)@ + write_effects(text@),
        transmitted(final(fx)@) == transmitted(old(fx)@) + widen(text@),
{
    proof {
        lemma_transmitted(text@);
        lemma_writes_to_concat(old(fx)@, write_effects(text@), IO_ADDR);
    }
    uart.write(fx, text);
}

} // verus!
