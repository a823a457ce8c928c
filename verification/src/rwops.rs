//! The stream handle: one type giving uniform read/write/seek/size/close
//! access to every kind of backend, with a runtime-checked lifecycle
//! (active until the one permitted close, `AlreadyClosed` afterwards).

use vstd::prelude::*;

use crate::backend::Backend;
use crate::backend::EmptyBackend;
use crate::errors::StreamError;
use crate::model::read_count;
use crate::model::read_result;
use crate::model::write_result;
use crate::seek::SeekOrigin;
use crate::seek::seek_target;

verus! {

/// Copy `src[from .. from + k]` over the first `k` bytes of `dst`, leaving
/// the rest of `dst`, and `src`, untouched.
fn copy_into(dst: &mut Vec<u8>, src: &[u8], from: usize, k: usize)
    requires
        from + k <= src@.len(),
        k <= old(dst)@.len(),
    ensures
        final(dst)@.len() == old(dst)@.len(),
        final(dst)@ == src@.subrange(from as int, from + k) + old(dst)@.skip(k as int),
{
    proof {
        broadcast use vstd::slice::axiom_spec_len;

        assert(vstd::slice::spec_slice_len(src) <= usize::MAX);
    }
    let mut i: usize = 0;
    while i < k
        invariant
            i <= k,
            from + k <= src@.len() <= usize::MAX,
            k <= dst@.len(),
            dst@.len() == old(dst)@.len(),
            forall|j: int| 0 <= j < i ==> dst@[j] == src@[from + j],
            forall|j: int| i <= j < dst@.len() ==> dst@[j] == old(dst)@[j],
        decreases k - i,
    {
        let b = src[from + i];
        dst.set(i, b);
        i = i + 1;
    }
    proof {
        assert(dst@ =~= src@.subrange(from as int, from + k) + old(dst)@.skip(k as int));
    }
}

/// The active variant of a stream: what the handle dispatches to.
enum StreamKind<'a, B: Backend> {
    /// A read/seek-only view over borrowed memory.
    ReadOnlyMemory { buf: &'a [u8], pos: usize },
    /// A stream that delegates entirely to a caller-supplied backend.
    Custom { backend: B },
}

/// An abstract interface to stream I/O: a tagged handle with exactly one
/// active variant.
///
/// A read-only memory stream borrows caller-supplied bytes and never owns,
/// mutates or releases them; the borrow makes mutation of the backing
/// memory through the stream a compile-time impossibility.  A custom
/// stream owns a caller-supplied [`Backend`] and forwards every operation
/// to it; its close releases the backend's resource, exactly once, because
/// every later close stops at the `closed` flag before reaching the
/// backend.
///
/// Teardown runs only through [`close`](RWops::close): a stream dropped
/// without it never reaches the backend's close (Rust's own drop still
/// frees the backend value itself), so an embedding that owes its backend
/// a closing call makes one before letting the stream go.
pub struct RWops<'a, B: Backend> {
    kind: StreamKind<'a, B>,
    closed: bool,
}

impl<'a, B: Backend> RWops<'a, B> {
    /// The bytes the stream currently addresses.
    pub closed spec fn data(&self) -> Seq<u8> {
        match self.kind {
            StreamKind::ReadOnlyMemory { buf, .. } => buf@,
            StreamKind::Custom { backend } => backend.data(),
        }
    }

    /// The current position: where the next read or write acts.
    pub closed spec fn pos(&self) -> nat {
        match self.kind {
            StreamKind::ReadOnlyMemory { pos, .. } => pos as nat,
            StreamKind::Custom { backend } => backend.pos(),
        }
    }

    /// Whether the stream has been closed; no operation is valid afterwards.
    pub closed spec fn is_closed(&self) -> bool {
        self.closed
    }

    /// Whether the stream refuses writes by construction.
    pub closed spec fn is_read_only(&self) -> bool {
        self.kind is ReadOnlyMemory
    }

    /// Whether the stream's underlying resource has been handed back.
    /// Borrowed memory is never held, so a memory stream counts as
    /// released from the start; a custom stream is released once its
    /// backend's close has run.
    pub closed spec fn backend_released(&self) -> bool {
        match self.kind {
            StreamKind::ReadOnlyMemory { .. } => true,
            StreamKind::Custom { backend } => backend.released(),
        }
    }

    /// The stream's validity: the position stays inside the contents.
    pub closed spec fn wf(&self) -> bool {
        match self.kind {
            StreamKind::ReadOnlyMemory { buf, pos } => pos <= buf@.len(),
            StreamKind::Custom { backend } => backend.pos() <= backend.data().len()
                && backend.data().len() <= u64::MAX,
        }
    }

    /// A valid stream keeps its position inside its contents, and its
    /// contents addressable through a 64-bit length.
    pub proof fn lemma_wf(&self)
        requires
            self.wf(),
        ensures
            self.pos() <= self.data().len(),
            self.data().len() <= u64::MAX,
    {
        match self.kind {
            StreamKind::ReadOnlyMemory { buf, .. } => {
                broadcast use vstd::slice::axiom_spec_len;

                assert(vstd::slice::spec_slice_len(buf) <= usize::MAX);
                assert(usize::MAX <= u64::MAX);
            },
            StreamKind::Custom { backend } => {},
        }
    }

    /// Wrap a caller-supplied backend.  Always succeeds; the stream owns
    /// the backend from here on and will forward the one close to it.
    pub fn from_backend(backend: B) -> (r: RWops<'a, B>)
        requires
            backend.pos() <= backend.data().len(),
            backend.data().len() <= u64::MAX,
        ensures
            r.wf(),
            !r.is_closed(),
            !r.is_read_only(),
            r.data() == backend.data(),
            r.pos() == backend.pos(),
    {
        RWops { kind: StreamKind::Custom { backend }, closed: false }
    }

    /// Fill `out` with up to `out.len()` bytes taken at the current
    /// position, returning how many bytes were transferred and advancing
    /// the position past them.  A request for zero bytes succeeds with
    /// zero and no effect; a non-empty request at the very end of the
    /// stream reports end-of-stream.  `out` keeps its length and is never
    /// touched beyond the returned count.
    pub fn read(&mut self, out: &mut Vec<u8>) -> (r: Result<usize, StreamError>)
        requires
            old(self).wf(),
        ensures
            final(self).wf(),
            final(self).data() == old(self).data(),
            final(self).is_closed() == old(self).is_closed(),
            final(self).is_read_only() == old(self).is_read_only(),
            final(out)@.len() == old(out)@.len(),
            match r {
                Ok(k) => {
                    &&& !old(self).is_closed()
                    &&& k == read_count(
                        old(self).data(),
                        old(self).pos() as int,
                        old(out)@.len() as int,
                    )
                    &&& (old(out)@.len() > 0 ==> k > 0)
                    &&& final(out)@ == read_result(
                        old(self).data(),
                        old(self).pos() as int,
                        old(out)@.len() as int,
                    ) + old(out)@.skip(k as int)
                    &&& final(self).pos() == old(self).pos() + k
                },
                Err(e) => {
                    &&& final(self).pos() == old(self).pos()
                    &&& final(out)@ == old(out)@
                    &&& (e is AlreadyClosed <==> old(self).is_closed())
                    &&& (!old(self).is_closed() ==> e is EndOfStream && old(out)@.len() > 0
                        && old(self).pos() == old(self).data().len())
                },
            },
    {
        if self.closed {
            return Err(StreamError::AlreadyClosed);
        }
        match &mut self.kind {
            StreamKind::ReadOnlyMemory { buf, pos } => {
                if out.len() == 0 {
                    proof {
                        assert(read_result(buf@, *pos as int, 0) =~= Seq::<u8>::empty());
                        assert(read_result(buf@, *pos as int, 0) + out@.skip(0) =~= out@);
                    }
                    return Ok(0);
                }
                let avail = buf.len() - *pos;
                if avail == 0 {
                    return Err(StreamError::EndOfStream);
                }
                let k = if out.len() <= avail {
                    out.len()
                } else {
                    avail
                };
                copy_into(out, buf, *pos, k);
                *pos = *pos + k;
                Ok(k)
            },
            StreamKind::Custom { backend } => {
                if out.len() == 0 {
                    proof {
                        assert(read_result(backend.data(), backend.pos() as int, 0)
                            =~= Seq::<u8>::empty());
                        assert(read_result(backend.data(), backend.pos() as int, 0) + out@.skip(0)
                            =~= out@);
                    }
                    return Ok(0);
                }
                let n = out.len();
                let chunk = backend.read(n);
                let k = chunk.len();
                if k == 0 {
                    return Err(StreamError::EndOfStream);
                }
                copy_into(out, chunk.as_slice(), 0, k);
                proof {
                    assert(chunk@.subrange(0, k as int) =~= chunk@);
                }
                Ok(k)
            },
        }
    }

    /// Write all of `bytes` at the current position — overwriting what is
    /// under them and growing the stream past its end — or fail.  A
    /// backend that takes only part of the bytes (a read-only stream takes
    /// none) surfaces as the collapsed end-of-stream signal, with whatever
    /// prefix the backend took already in place.
    pub fn write(&mut self, bytes: &[u8]) -> (r: Result<(), StreamError>)
        requires
            old(self).wf(),
        ensures
            final(self).wf(),
            final(self).is_closed() == old(self).is_closed(),
            final(self).is_read_only() == old(self).is_read_only(),
            match r {
                Ok(_) => {
                    &&& !old(self).is_closed()
                    &&& !old(self).is_read_only() || bytes@.len() == 0
                    &&& final(self).data() == write_result(
                        old(self).data(),
                        old(self).pos() as int,
                        bytes@,
                    )
                    &&& final(self).pos() == old(self).pos() + bytes@.len()
                },
                Err(e) => {
                    &&& (e is AlreadyClosed <==> old(self).is_closed())
                    &&& (old(self).is_closed() ==> final(self).data() == old(self).data()
                        && final(self).pos() == old(self).pos())
                    &&& (!old(self).is_closed() ==> e is EndOfStream && bytes@.len() > 0 && (exists|
                        j: int,
                    |
                        0 <= j < bytes@.len() && final(self).data() == write_result(
                            old(self).data(),
                            old(self).pos() as int,
                            bytes@.take(j),
                        ) && final(self).pos() == old(self).pos() + j))
                    &&& (old(self).is_read_only() ==> final(self).data() == old(self).data()
                        && final(self).pos() == old(self).pos())
                },
            },
    {
        if self.closed {
            return Err(StreamError::AlreadyClosed);
        }
        match &mut self.kind {
            StreamKind::ReadOnlyMemory { buf, pos } => {
                if bytes.len() == 0 {
                    proof {
                        assert(buf@ =~= write_result(buf@, *pos as int, bytes@));
                    }
                    Ok(())
                } else {
                    proof {
                        assert(bytes@.take(0) =~= Seq::<u8>::empty());
                        assert(buf@ =~= write_result(buf@, *pos as int, bytes@.take(0)));
                    }
                    Err(StreamError::EndOfStream)
                }
            },
            StreamKind::Custom { backend } => {
                let k = backend.write(bytes);
                if k == bytes.len() {
                    proof {
                        assert(bytes@.take(k as int) =~= bytes@);
                    }
                    Ok(())
                } else {
                    Err(StreamError::EndOfStream)
                }
            },
        }
    }

    /// Move the position to `offset` steps from `origin`.  Succeeds,
    /// returning the new absolute position, exactly when the target lies
    /// inside `[0, len]`; a seek outside that range fails and moves
    /// nothing.  The contents are never touched.
    pub fn seek(&mut self, offset: i64, origin: SeekOrigin) -> (r: Result<u64, StreamError>)
        requires
            old(self).wf(),
        ensures
            final(self).wf(),
            final(self).data() == old(self).data(),
            final(self).is_closed() == old(self).is_closed(),
            final(self).is_read_only() == old(self).is_read_only(),
            ({
                let t = seek_target(
                    old(self).data().len() as int,
                    old(self).pos() as int,
                    offset as int,
                    origin,
                );
                match r {
                    Ok(p) => {
                        &&& !old(self).is_closed()
                        &&& 0 <= t <= old(self).data().len()
                        &&& final(self).pos() == t
                        &&& p == t
                    },
                    Err(e) => {
                        &&& final(self).pos() == old(self).pos()
                        &&& (e is AlreadyClosed <==> old(self).is_closed())
                        &&& (!old(self).is_closed() ==> (e matches StreamError::IoError(_))
                            && !(0 <= t <= old(self).data().len()))
                    },
                }
            }),
    {
        if self.closed {
            return Err(StreamError::AlreadyClosed);
        }
        match &mut self.kind {
            StreamKind::ReadOnlyMemory { buf, pos } => {
                let len = buf.len();
                let target: i128 = match origin {
                    SeekOrigin::Start => offset as i128,
                    SeekOrigin::Current => *pos as i128 + offset as i128,
                    SeekOrigin::End => len as i128 + offset as i128,
                };
                if 0 <= target && target <= len as i128 {
                    *pos = target as usize;
                    Ok(target as u64)
                } else {
                    Err(StreamError::IoError("seek target outside the stream".to_owned()))
                }
            },
            StreamKind::Custom { backend } => backend.seek(offset, origin),
        }
    }

    /// The current position, obtained as a no-op seek from the current
    /// position; it never moves the position.  Fails only on a closed
    /// stream.
    pub fn tell(&mut self) -> (r: Result<u64, StreamError>)
        requires
            old(self).wf(),
        ensures
            final(self).wf(),
            final(self).data() == old(self).data(),
            final(self).pos() == old(self).pos(),
            final(self).is_closed() == old(self).is_closed(),
            final(self).is_read_only() == old(self).is_read_only(),
            match r {
                Ok(p) => !old(self).is_closed() && p == old(self).pos(),
                Err(e) => e is AlreadyClosed && old(self).is_closed(),
            },
    {
        proof {
            old(self).lemma_wf();
        }
        if self.closed {
            return Err(StreamError::AlreadyClosed);
        }
        match &mut self.kind {
            StreamKind::ReadOnlyMemory { pos, .. } => Ok(*pos as u64),
            StreamKind::Custom { backend } => match backend.seek(0, SeekOrigin::Current) {
                Ok(p) => Ok(p),
                Err(_) => unreached(),
            },
        }
    }

    /// The total length of the stream's addressable content.  Fails only
    /// on a closed stream.
    pub fn size(&self) -> (r: Result<u64, StreamError>)
        requires
            self.wf(),
        ensures
            match r {
                Ok(n) => !self.is_closed() && n == self.data().len(),
                Err(e) => e is AlreadyClosed && self.is_closed(),
            },
    {
        if self.closed {
            return Err(StreamError::AlreadyClosed);
        }
        match &self.kind {
            StreamKind::ReadOnlyMemory { buf, .. } => Ok(buf.len() as u64),
            StreamKind::Custom { backend } => Ok(backend.size()),
        }
    }

    /// Tear the stream down.  The first close releases whatever the stream
    /// owns — it forwards to a custom backend's close, and lets go of
    /// borrowed memory without touching it — and reports a backend
    /// diagnostic, if any, in the `Ok` value rather than as an error.
    /// Contents and position are left untouched.  Every later close finds
    /// the stream closed and returns `AlreadyClosed`, so the underlying
    /// resource is released exactly once.
    pub fn close(&mut self) -> (r: Result<Option<String>, StreamError>)
        requires
            old(self).wf(),
        ensures
            final(self).wf(),
            final(self).is_closed(),
            final(self).is_read_only() == old(self).is_read_only(),
            final(self).data() == old(self).data(),
            final(self).pos() == old(self).pos(),
            match r {
                Ok(_) => !old(self).is_closed() && final(self).backend_released(),
                Err(e) => e is AlreadyClosed && old(self).is_closed(),
            },
    {
        if self.closed {
            return Err(StreamError::AlreadyClosed);
        }
        self.closed = true;
        match &mut self.kind {
            StreamKind::ReadOnlyMemory { .. } => Ok(None),
            StreamKind::Custom { backend } => Ok(backend.close()),
        }
    }
}

impl<'a> RWops<'a, EmptyBackend> {
    /// Wrap caller-supplied memory as a read-only, seekable stream.  The
    /// bytes are borrowed, not copied, and stay owned by the caller; the
    /// stream never mutates or releases them.  The one region the backend
    /// rejects is an empty one.
    pub fn from_bytes(buf: &'a [u8]) -> (r: Result<RWops<'a, EmptyBackend>, StreamError>)
        ensures
            match r {
                Ok(s) => {
                    &&& buf@.len() > 0
                    &&& s.wf()
                    &&& !s.is_closed()
                    &&& s.is_read_only()
                    &&& s.data() == buf@
                    &&& s.pos() == 0
                },
                Err(e) => buf@.len() == 0 && e matches StreamError::OpenError(_),
            },
    {
        if buf.len() == 0 {
            Err(StreamError::OpenError("cannot wrap an empty memory region".to_owned()))
        } else {
            Ok(RWops { kind: StreamKind::ReadOnlyMemory { buf, pos: 0 }, closed: false })
        }
    }
}

} // verus!
