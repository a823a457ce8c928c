//! A growable, writable in-memory backend: the reference implementation of
//! the capability contract, and the backend a round trip is exercised on.

use vstd::prelude::*;

use crate::backend::Backend;
use crate::errors::StreamError;
use crate::model::read_result;
use crate::model::write_result;
use crate::seek::SeekOrigin;

verus! {

/// An owned byte buffer with a cursor.  Writes overwrite in place and grow
/// the buffer past its end; reads and seeks are exact.
pub struct MemBackend {
    contents: Vec<u8>,
    cursor: usize,
}

impl MemBackend {
    /// An empty stream with the cursor at the start.
    pub fn new() -> (r: MemBackend)
        ensures
            r.pos() <= r.data().len(),
            r.data().len() <= u64::MAX,
            r.data() == Seq::<u8>::empty(),
            r.pos() == 0,
    {
        MemBackend { contents: Vec::new(), cursor: 0 }
    }

    /// A stream over the given bytes, with the cursor at the start.
    pub fn from_vec(contents: Vec<u8>) -> (r: MemBackend)
        ensures
            r.pos() <= r.data().len(),
            r.data().len() <= u64::MAX,
            r.data() == contents@,
            r.pos() == 0,
    {
        proof {
            broadcast use vstd::std_specs::vec::axiom_spec_len;

            assert(vstd::std_specs::vec::spec_vec_len(&contents) <= usize::MAX);
            assert(usize::MAX <= u64::MAX);
        }
        MemBackend { contents, cursor: 0 }
    }
}

impl Backend for MemBackend {
    closed spec fn data(&self) -> Seq<u8> {
        self.contents@
    }

    closed spec fn pos(&self) -> nat {
        self.cursor as nat
    }

    closed spec fn released(&self) -> bool {
        true
    }

    fn size(&self) -> (r: u64) {
        self.contents.len() as u64
    }

    fn seek(&mut self, offset: i64, origin: SeekOrigin) -> (r: Result<u64, StreamError>) {
        let len = self.contents.len();
        let target: i128 = match origin {
            SeekOrigin::Start => offset as i128,
            SeekOrigin::Current => self.cursor as i128 + offset as i128,
            SeekOrigin::End => len as i128 + offset as i128,
        };
        if 0 <= target && target <= len as i128 {
            self.cursor = target as usize;
            Ok(target as u64)
        } else {
            Err(StreamError::IoError("seek target outside the stream".to_owned()))
        }
    }

    fn read(&mut self, n: usize) -> (r: Vec<u8>) {
        let avail = self.contents.len() - self.cursor;
        let k = if n <= avail {
            n
        } else {
            avail
        };
        let mut r: Vec<u8> = Vec::new();
        let mut i: usize = 0;
        while i < k
            invariant
                i <= k,
                *self == *old(self),
                self.cursor + k <= self.contents@.len(),
                self.contents@.len() <= usize::MAX,
                r@ == self.contents@.subrange(self.cursor as int, self.cursor + i),
            decreases k - i,
        {
            r.push(self.contents[self.cursor + i]);
            proof {
                assert(r@ =~= self.contents@.subrange(self.cursor as int, self.cursor + i + 1));
            }
            i = i + 1;
        }
        self.cursor = self.cursor + k;
        proof {
            assert(r@ =~= read_result(old(self).data(), old(self).pos() as int, n as int));
        }
        r
    }

    /// Beyond the capability contract: a write into memory is never short
    /// unless the bytes could not even be addressed.
    fn write(&mut self, buf: &[u8]) -> (k: usize)
        ensures
            old(self).pos() + buf@.len() <= usize::MAX ==> k == buf@.len(),
    {
        let n = buf.len();
        let k = if n <= usize::MAX - self.cursor {
            n
        } else {
            usize::MAX - self.cursor
        };
        proof {
            assert(self.contents@ =~= write_result(
                old(self).data(),
                old(self).pos() as int,
                buf@.take(0),
            ));
        }
        let mut i: usize = 0;
        while i < k
            invariant
                i <= k,
                k <= buf@.len(),
                self.cursor == old(self).cursor,
                self.cursor + k <= usize::MAX,
                old(self).cursor <= old(self).contents@.len(),
                self.contents@ == write_result(
                    old(self).data(),
                    old(self).pos() as int,
                    buf@.take(i as int),
                ),
            decreases k - i,
        {
            if self.cursor + i < self.contents.len() {
                let idx = self.cursor + i;
                self.contents.set(idx, buf[i]);
                proof {
                    assert(self.contents@ =~= write_result(
                        old(self).data(),
                        old(self).pos() as int,
                        buf@.take(i + 1),
                    ));
                }
            } else {
                self.contents.push(buf[i]);
                proof {
                    assert(self.contents@ =~= write_result(
                        old(self).data(),
                        old(self).pos() as int,
                        buf@.take(i + 1),
                    ));
                }
            }
            i = i + 1;
        }
        self.cursor = self.cursor + k;
        proof {
            assert(usize::MAX <= u64::MAX);
        }
        k
    }

    fn close(&mut self) -> (r: Option<String>) {
        None
    }
}

} // verus!
