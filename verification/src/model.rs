//! The mathematical model of stream contents: what a read yields and what a
//! write leaves behind, stated over byte sequences.  Every backend and every
//! stream operation states its contract through these functions.

use vstd::prelude::*;

verus! {

use crate::seek::SeekOrigin;
use crate::seek::seek_target;

/// How many bytes a read at `pos` asking for `n` bytes transfers: all `n`
/// when that many remain, otherwise whatever remains before the end.
pub open spec fn read_count(data: Seq<u8>, pos: int, n: int) -> int
    recommends
        0 <= pos <= data.len(),
        0 <= n,
{
    if n <= data.len() - pos {
        n
    } else {
        data.len() - pos
    }
}

/// The bytes a read at `pos` asking for `n` bytes yields.
pub open spec fn read_result(data: Seq<u8>, pos: int, n: int) -> Seq<u8>
    recommends
        0 <= pos <= data.len(),
        0 <= n,
{
    data.subrange(pos, pos + read_count(data, pos, n))
}

/// The contents after writing the bytes `b` at position `pos`: bytes under
/// the write are overwritten, bytes past the old end extend the stream, and
/// everything outside `[pos, pos + b.len())` is untouched.
pub open spec fn write_result(data: Seq<u8>, pos: int, b: Seq<u8>) -> Seq<u8>
    recommends
        0 <= pos <= data.len(),
{
    if pos + b.len() < data.len() {
        data.take(pos) + b + data.skip(pos + b.len())
    } else {
        data.take(pos) + b
    }
}

/// A write never shortens the stream, and leaves every byte before the
/// write position as it was.
pub proof fn lemma_write_result_frame(data: Seq<u8>, pos: int, b: Seq<u8>)
    requires
        0 <= pos <= data.len(),
    ensures
        write_result(data, pos, b).len() >= data.len(),
        write_result(data, pos, b).len() == if pos + b.len() < data.len() {
            data.len() as int
        } else {
            pos + b.len()
        },
        forall|i: int| 0 <= i < pos ==> write_result(data, pos, b)[i] == data[i],
        forall|i: int| 0 <= i < b.len() ==> write_result(data, pos, b)[pos + i] == b[i],
{
}

/// The round trip: writing the bytes `b` at the start of a stream, seeking
/// back to the start, and reading `b.len()` bytes yields exactly `b`,
/// whatever the stream held before.
pub proof fn lemma_write_read_round_trip(data: Seq<u8>, b: Seq<u8>)
    ensures
        seek_target(
            write_result(data, 0, b).len() as int,
            b.len() as int,
            0,
            SeekOrigin::Start,
        ) == 0,
        read_result(write_result(data, 0, b), 0, b.len() as int) == b,
{
    let w = write_result(data, 0, b);
    assert(w.len() >= b.len());
    assert(read_result(w, 0, b.len() as int) =~= b);
}

} // verus!
