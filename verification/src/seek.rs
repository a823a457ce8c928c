//! Seek origins and the arithmetic that turns a relative offset into an
//! absolute target position.

use vstd::prelude::*;

verus! {

/// The reference point of a seek offset.
#[derive(Clone, Copy, Debug, PartialEq, Eq, Structural)]
pub enum SeekOrigin {
    /// The beginning of the stream; the offset is the absolute position.
    Start,
    /// The current position.
    Current,
    /// The end of the stream; a negative offset steps back from it.
    End,
}

/// The absolute position a seek asks for, given the stream length, the
/// current position and the (offset, origin) pair.  The result may fall
/// outside `[0, len]`; such a seek is refused, and the position unchanged.
pub open spec fn seek_target(len: int, pos: int, offset: int, origin: SeekOrigin) -> int {
    match origin {
        SeekOrigin::Start => offset,
        SeekOrigin::Current => pos + offset,
        SeekOrigin::End => len + offset,
    }
}

/// A seek of zero from the current position targets exactly the current
/// position: querying the position through such a seek never moves it.
pub proof fn lemma_seek_current_zero_is_noop(len: int, pos: int)
    ensures
        seek_target(len, pos, 0, SeekOrigin::Current) == pos,
{
}

} // verus!
