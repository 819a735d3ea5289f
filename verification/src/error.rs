//! What the kernel can say of a failure.

use vstd::prelude::*;
use crate::allocators::{next_start, BoundArena, KBox, OutOfMemory};

verus! {

/// Something that went wrong and can say so.
pub trait Error {
    /// What the error says.
    spec fn text(&self) -> Seq<char>;

    /// What the error says.
    fn describe(&self) -> (text: String)
        ensures
            text@ == self.text(),
    ;
}

impl Error for &'static str {
    open spec fn text(&self) -> Seq<char> {
        (*self)@
    }

    fn describe(&self) -> (text: String) {
        (*self).to_owned()
    }
}

/// The kernel's error: a message, placed in an arena.
pub type KError = KBox<&'static str>;

/// Places `message` in `arena` as a kernel error.
pub fn error_from<const SIZE: usize>(arena: &mut BoundArena<SIZE>, message: &'static str) -> (r:
    Result<KError, OutOfMemory>)
    ensures
        final(arena).base() == old(arena).base(),
        r.is_ok() == old(arena).has_room(
            vstd::layout::size_of::<&'static str>() as int,
            vstd::layout::align_of::<&'static str>() as int,
        ),
        r matches Ok(error) ==> {
            &&& error@ == message
            &&& error.region().start == next_start(
                old(arena).base(),
                old(arena).cursor(),
                vstd::layout::align_of::<&'static str>() as int,
            )
            &&& error.region().size == vstd::layout::size_of::<&'static str>()
            &&& final(arena).cursor() == error.region().end()
        },
        r is Err ==> final(arena).cursor() == old(arena).cursor(),
{
    arena.allocate(message)
}

} // verus!
