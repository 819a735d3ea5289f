//! Printing goes to the serial console.

use vstd::prelude::*;
use crate::drivers::mini_uart::{_mu_print, transmitted, widen, write_effects, MiniUART};
use crate::drivers::Effects;

verus! {

/// Sends `text` to the console, whose handle the caller has.
pub fn _print(uart: &mut MiniUART, fx: &mut Effects, text: &[u8])
    requires
        old(uart).is_configured(),
    ensures
        final(uart).is_configured(),
        final(uart).owner() == old(uart).owner(),
        final(fx)@ == old(fx)@ + write_effects(text@),
        transmitted(final(fx)@) == transmitted(old(fx)@) + widen(text@),
{
    _mu_print(uart, fx, text);
}

} // verus!
