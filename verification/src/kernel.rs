//! What the first core does: it sets the console up, hands the other cores
//! their first task, and echoes what arrives on the console.
//!
//! Each function here works through the console's handle, which the caller
//! has taken and keeps until the machine has carried out what the function
//! recorded.

use vstd::prelude::*;
use crate::drivers::gpio::GPIO;
use crate::drivers::mini_uart::{
    _mu_print, init_effects, lemma_transmitted_none, transmitted, widen, write_effects, MiniUART,
    DEFAULT_BAUD_DIVISOR,
};
use crate::drivers::{Effect, Effects};
use crate::shared::SharedSlots;

verus! {

/// The byte that ends a line typed at the console.
pub const CARRIAGE_RETURN: u8 = 13;

/// The byte that starts a new line on the console.
pub const LINE_FEED: u8 = 10;

/// The byte that the console's delete key sends.
pub const DELETE: u8 = 127;

/// The byte that moves the console's cursor one place back.
pub const BACKSPACE: u8 = 8;

/// A blank.
pub const SPACE: u8 = 32;

/// What the console answers to a byte typed at it: a new line for a
/// carriage return; for the delete key a step back, a blank over the last
/// character and a step back again; any other byte as it came.
pub open spec fn echo_bytes(byte: u8) -> Seq<u8> {
    if byte == CARRIAGE_RETURN {
        seq![LINE_FEED]
    } else if byte == DELETE {
        seq![BACKSPACE, SPACE, BACKSPACE]
    } else {
        seq![byte]
    }
}

/// What the console answers to a byte typed at it.
pub fn echo_reply(byte: u8) -> (reply: Vec<u8>)
    ensures
        reply@ == echo_bytes(byte),
{
    if byte == CARRIAGE_RETURN {
        vec![LINE_FEED]
    } else if byte == DELETE {
        vec![BACKSPACE, SPACE, BACKSPACE]
    } else {
        vec![byte]
    }
}

/// Answers one byte typed at the console: the answer goes down the line,
/// and nothing else.
pub fn echo(uart: &mut MiniUART, fx: &mut Effects, byte: u8)
    requires
        old(uart).is_configured(),
    ensures
        final(uart).is_configured(),
        final(uart).owner() == old(uart).owner(),
        final(fx)@ == old(fx)@ + write_effects(echo_bytes(byte)),
        transmitted(final(fx)@) == transmitted(old(fx)@) + widen(echo_bytes(byte)),
{
    let reply = echo_reply(byte);
    _mu_print(uart, fx, reply.as_slice());
}

/// Sets the console up at the default baud rate, through the handles of
/// the pins and of the console, which the caller has.
pub fn kernel_init(gpio: &mut GPIO, uart: &mut MiniUART, fx: &mut Effects)
    ensures
        final(uart).is_configured(),
        final(uart).owner() == old(uart).owner(),
        final(gpio).addr() == old(gpio).addr(),
        final(gpio).owner() == old(gpio).owner(),
        final(fx)@ == old(fx)@ + init_effects(DEFAULT_BAUD_DIVISOR),
{
    uart.init_default(gpio, fx);
}

/// How the first core starts its main routine: it sends the banner, hands
/// `task` to each of the other cores and wakes them. After this it serves
/// the console: for each byte that arrives, `echo`.
///
/// What the other cores find in their slots is for them to see: the slots
/// are shared, and [`crate::boot::hand_out`] says what the handing out does
/// to them.
pub fn kernel_main<T: Copy>(
    uart: &mut MiniUART,
    slots: &SharedSlots<T>,
    fx: &mut Effects,
    banner: &[u8],
    task: T,
)
    requires
        old(uart).is_configured(),
    ensures
        final(uart).is_configured(),
        final(uart).owner() == old(uart).owner(),
        final(fx)@ == (old(fx)@ + write_effects(banner@)).push(Effect::SignalEvent),
        transmitted(final(fx)@) == transmitted(old(fx)@) + widen(banner@),
{
    _mu_print(uart, fx, banner);
    slots.hand_out(task);
    proof {
        lemma_transmitted_none(fx@, Effect::SignalEvent);
    }
    fx.record(Effect::SignalEvent);
}

/// The last words of a core that cannot go on: the message goes to the
/// console if the console is set up, and nowhere if it is not. `true`
/// where the message was sent. The core parks for good after this.
pub fn report_panic(uart: &mut MiniUART, fx: &mut Effects, message: &[u8]) -> (reported: bool)
    ensures
        reported == old(uart).is_configured(),
        final(uart).is_configured() == old(uart).is_configured(),
        final(uart).owner() == old(uart).owner(),
        final(fx)@ == if reported {
            old(fx)@ + write_effects(message@)
        } else {
            old(fx)@
        },
        reported ==> transmitted(final(fx)@) == transmitted(old(fx)@) + widen(message@),
{
    if crate::drivers::mini_uart::mu_is_setup(uart) {
        crate::print::_print(uart, fx, message);
        true
    } else {
        false
    }
}

} // verus!
