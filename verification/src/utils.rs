//! Small helpers around the processor itself.

use vstd::prelude::*;
use crate::drivers::{Effect, Effects};

verus! {

/// Asks the machine to do nothing for about `cycles` processor cycles.
pub fn delay_cycles(fx: &mut Effects, cycles: usize)
    ensures
        final(fx)@ == old(fx)@.push(Effect::Delay { cycles: cycles }),
{
    fx.record(Effect::Delay { cycles });
}

/// The number of the core whose affinity register holds `mpidr`: the
/// register's lowest eight bits.
pub open spec fn cpu_of(mpidr: u64) -> u64 {
    mpidr % 256
}

/// The exception level that the `CurrentEL` register reports when it holds
/// `current_el`: its bits 2 and 3.
pub open spec fn exception_level_of(current_el: u64) -> u64 {
    (current_el / 4) % 4
}

/// Reads a register field out of a register's value with
/// `tock_registers::fields::Field::read`. The field is `mask`, given at bit
/// 0, moved up by `shift` bits; the result is the field moved back down to
/// bit 0. A shift of the register's width or more is left out: the shift
/// inside would overflow.
#[verifier::external_body]
fn read_field(mask: u64, shift: usize, raw: u64) -> (value: u64)
    requires
        shift < 64,
    ensures
        value == (raw & (mask << shift)) >> shift,
{
    tock_registers::fields::Field::<u64, ()>::new(mask, shift).read(raw)
}

/// The number of the core whose affinity register holds `mpidr`.
pub fn get_cpu(mpidr: u64) -> (cpu: u64)
    ensures
        cpu == cpu_of(mpidr),
        cpu < 256,
{
    assert(mpidr & 0xff == mpidr % 256) by (bit_vector);
    mpidr & 0xff
}

/// The exception level that the `CurrentEL` register reports when it holds
/// `current_el`.
pub fn get_current_exception_level(current_el: u64) -> (level: u64)
    ensures
        level == exception_level_of(current_el),
        level < 4,
{
    assert((current_el & (0b11u64 << 2usize)) >> 2usize == (current_el / 4) % 4) by (bit_vector);
    read_field(0b11, 2, current_el)
}

} // verus!
