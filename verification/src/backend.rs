//! The capability contract every concrete stream backend satisfies.
//!
//! A backend is modelled by the byte sequence it addresses (`data`) and a
//! cursor into it (`pos`).  Reads and seeks are exact; a write may be short
//! (a backend may transfer fewer bytes than asked, a read-only one none at
//! all), which the stream layer surfaces as an end-of-stream condition.

use vstd::prelude::*;

use crate::errors::StreamError;
use crate::model::read_count;
use crate::model::read_result;
use crate::model::write_result;
use crate::seek::SeekOrigin;
use crate::seek::seek_target;

verus! {

/// One concrete realization of the stream capability contract: anything
/// that can say how long it is, move its cursor, transfer bytes at the
/// cursor, and release whatever it holds.
///
/// The ghost functions are the model the contracts are stated over:
/// every operation keeps the cursor inside the contents and the contents
/// addressable through a 64-bit length.  Verified implementations define
/// the model; an implementation written outside the verifier inherits the
/// defaults and leaves it unspecified.
///
/// The contract is deliberately exact everywhere but in writes: reads
/// hand out everything up to the end of the contents, and an in-range
/// seek always succeeds.  Only a backend that cannot fail mid-operation
/// keeps that promise to the letter.  An implementation over a fallible
/// medium — a platform file, say — can merely approximate it: an I/O
/// failure mid-read surfaces as a short result the contract does not
/// model, and the guarantees of a stream over such a backend hold
/// exactly as far as the backend keeps its contract.
pub trait Backend: Sized {
    /// The bytes the backend currently addresses.
    open spec fn data(&self) -> Seq<u8> {
        arbitrary()
    }

    /// The cursor: the position the next read or write acts at.
    open spec fn pos(&self) -> nat {
        arbitrary()
    }

    /// Whether the backend has handed its underlying resource back.  Only
    /// `close` makes this true, so a caller that owes a teardown can prove
    /// it happened only by actually closing the backend.  A verified
    /// backend that holds nothing beyond its own memory is released from
    /// the start.
    open spec fn released(&self) -> bool {
        arbitrary()
    }

    /// The total addressable length.
    fn size(&self) -> (r: u64)
        requires
            self.pos() <= self.data().len(),
            self.data().len() <= u64::MAX,
        ensures
            r == self.data().len(),
    ;

    /// Move the cursor to the absolute position `offset` steps from
    /// `origin`.  Succeeds, returning the new position, exactly when that
    /// target lies inside `[0, len]`; otherwise the cursor stays put and a
    /// seek failure is reported.  The contents are never touched.
    fn seek(&mut self, offset: i64, origin: SeekOrigin) -> (r: Result<u64, StreamError>)
        requires
            old(self).pos() <= old(self).data().len(),
            old(self).data().len() <= u64::MAX,
        ensures
            final(self).pos() <= final(self).data().len(),
            final(self).data().len() <= u64::MAX,
            final(self).data() == old(self).data(),
            ({
                let t = seek_target(
                    old(self).data().len() as int,
                    old(self).pos() as int,
                    offset as int,
                    origin,
                );
                match r {
                    Ok(p) => {
                        &&& 0 <= t <= old(self).data().len()
                        &&& final(self).pos() == t
                        &&& p == t
                    },
                    Err(e) => {
                        &&& !(0 <= t <= old(self).data().len())
                        &&& final(self).pos() == old(self).pos()
                        &&& e matches StreamError::IoError(_)
                    },
                }
            }),
    ;

    /// Transfer up to `n` bytes from the cursor onward, returning them and
    /// advancing the cursor past them.  Reads are exact: everything up to
    /// the end of the contents is handed out.
    fn read(&mut self, n: usize) -> (r: Vec<u8>)
        requires
            old(self).pos() <= old(self).data().len(),
            old(self).data().len() <= u64::MAX,
        ensures
            final(self).pos() <= final(self).data().len(),
            final(self).data().len() <= u64::MAX,
            final(self).data() == old(self).data(),
            r@ == read_result(old(self).data(), old(self).pos() as int, n as int),
            final(self).pos() == old(self).pos() + read_count(
                old(self).data(),
                old(self).pos() as int,
                n as int,
            ),
    ;

    /// Transfer bytes from `buf` into the contents at the cursor, returning
    /// how many were taken.  A write may be short: the backend chooses how
    /// many bytes it accepts (a read-only backend accepts none), but what it
    /// reports taken is exactly what the contents now hold.
    fn write(&mut self, buf: &[u8]) -> (k: usize)
        requires
            old(self).pos() <= old(self).data().len(),
            old(self).data().len() <= u64::MAX,
        ensures
            final(self).pos() <= final(self).data().len(),
            final(self).data().len() <= u64::MAX,
            k <= buf@.len(),
            final(self).data() == write_result(
                old(self).data(),
                old(self).pos() as int,
                buf@.take(k as int),
            ),
            final(self).pos() == old(self).pos() + k,
    ;

    /// Release whatever the backend holds.  Called exactly once over a
    /// backend's lifetime, by the owning stream's own close.  A failure is
    /// reported as a diagnostic message, never escalated.  The contents
    /// and the cursor are left as they were, and the backend is released
    /// afterwards.
    fn close(&mut self) -> (r: Option<String>)
        requires
            old(self).pos() <= old(self).data().len(),
            old(self).data().len() <= u64::MAX,
        ensures
            final(self).data() == old(self).data(),
            final(self).pos() == old(self).pos(),
            final(self).released(),
    ;
}

/// The trivial backend: no contents, a cursor pinned at zero, nothing to
/// release.  It is what a memory-backed stream carries in the backend slot
/// it never uses, and doubles as an always-empty stream.
pub struct EmptyBackend;

impl Backend for EmptyBackend {
    open spec fn data(&self) -> Seq<u8> {
        Seq::empty()
    }

    open spec fn pos(&self) -> nat {
        0
    }

    open spec fn released(&self) -> bool {
        true
    }

    fn size(&self) -> (r: u64) {
        0
    }

    fn seek(&mut self, offset: i64, origin: SeekOrigin) -> (r: Result<u64, StreamError>) {
        if offset == 0 {
            Ok(0)
        } else {
            Err(StreamError::IoError("seek target outside the stream".to_owned()))
        }
    }

    fn read(&mut self, n: usize) -> (r: Vec<u8>) {
        let r: Vec<u8> = Vec::new();
        proof {
            assert(r@ =~= read_result(self.data(), self.pos() as int, n as int));
        }
        r
    }

    fn write(&mut self, buf: &[u8]) -> (k: usize) {
        proof {
            assert(self.data() =~= write_result(self.data(), self.pos() as int, buf@.take(0)));
        }
        0
    }

    fn close(&mut self) -> (r: Option<String>) {
        None
    }
}

} // verus!
