//! The Byte Reader: exact-count reads from an in-memory stream, failing on
//! premature end-of-stream, and a growable buffer for bytes owed to the peer.

use vstd::prelude::*;

use crate::error::{Error, IoErrorKind};

verus! {

/// Exact-count reads from a byte stream. A read of `n` bytes either yields
/// exactly the next `n` bytes of the stream or fails; a failed read reports
/// a broken pipe (premature end-of-stream) and consumes nothing.
pub trait ReadUtils: Sized {
    /// The bytes not yet consumed.
    spec fn remaining(&self) -> Seq<u8>;

    /// Read exactly one byte.
    fn read_byte(&mut self) -> (r: Result<u8, Error>)
        ensures
            old(self).remaining().len() > 0 ==> {
                &&& r == Ok::<u8, Error>(old(self).remaining()[0])
                &&& final(self).remaining() == old(self).remaining().skip(1)
            },
            old(self).remaining().len() == 0 ==> {
                &&& r == Err::<u8, Error>(Error::Io(IoErrorKind::BrokenPipe))
                &&& final(self).remaining() == old(self).remaining()
            },
    ;

    /// Read exactly `num_bytes` bytes.
    fn read_bytes(&mut self, num_bytes: usize) -> (r: Result<Vec<u8>, Error>)
        ensures
            old(self).remaining().len() >= num_bytes ==> {
                &&& r matches Ok(bytes)
                &&& bytes@ == old(self).remaining().take(num_bytes as int)
                &&& final(self).remaining() == old(self).remaining().skip(num_bytes as int)
            },
            old(self).remaining().len() < num_bytes ==> {
                &&& r == Err::<Vec<u8>, Error>(Error::Io(IoErrorKind::BrokenPipe))
                &&& final(self).remaining() == old(self).remaining()
            },
    ;
}

/// An in-memory byte stream with a read position.
pub struct ByteCursor {
    data: Vec<u8>,
    pos: usize,
}

impl ByteCursor {
    /// The bytes not yet consumed, counted from the read position.
    pub closed spec fn spec_remaining(&self) -> Seq<u8> {
        if self.pos <= self.data@.len() {
            self.data@.skip(self.pos as int)
        } else {
            Seq::empty()
        }
    }

    /// A cursor positioned at the start of `data`.
    pub fn new(data: Vec<u8>) -> (c: ByteCursor)
        ensures
            c.remaining() == data@,
    {
        let c = ByteCursor { data, pos: 0 };
        proof {
            assert(c.spec_remaining() =~= c.data@);
        }
        c
    }
}

impl ReadUtils for ByteCursor {
    closed spec fn remaining(&self) -> Seq<u8> {
        self.spec_remaining()
    }

    fn read_byte(&mut self) -> (r: Result<u8, Error>) {
        if self.pos < self.data.len() {
            let b = self.data[self.pos];
            self.pos = self.pos + 1;
            proof {
                assert(self.spec_remaining() =~= old(self).spec_remaining().skip(1));
            }
            Ok(b)
        } else {
            Err(Error::Io(IoErrorKind::BrokenPipe))
        }
    }

    fn read_bytes(&mut self, num_bytes: usize) -> (r: Result<Vec<u8>, Error>) {
        if num_bytes == 0 {
            let bytes: Vec<u8> = Vec::new();
            proof {
                assert(bytes@ =~= self.spec_remaining().take(0));
                assert(self.spec_remaining() =~= self.spec_remaining().skip(0));
            }
            return Ok(bytes);
        }
        let len = self.data.len();
        if self.pos <= len && num_bytes <= len - self.pos {
            let mut bytes: Vec<u8> = Vec::new();
            let mut i: usize = 0;
            while i < num_bytes
                invariant
                    i <= num_bytes,
                    self == old(self),
                    self.pos <= self.data@.len(),
                    num_bytes <= self.data@.len() - self.pos,
                    self.data@.len() <= usize::MAX,
                    bytes@ == self.data@.subrange(self.pos as int, self.pos + i),
                decreases num_bytes - i,
            {
                bytes.push(self.data[self.pos + i]);
                i = i + 1;
                proof {
                    assert(bytes@ =~= self.data@.subrange(self.pos as int, self.pos + i));
                }
            }
            proof {
                assert(bytes@ =~= self.spec_remaining().take(num_bytes as int));
            }
            self.pos = self.pos + num_bytes;
            proof {
                assert(self.spec_remaining() =~= old(self).spec_remaining().skip(
                    num_bytes as int,
                ));
            }
            Ok(bytes)
        } else {
            Err(Error::Io(IoErrorKind::BrokenPipe))
        }
    }
}

/// A growable buffer holding the bytes the relay has decided to send.
pub struct WriteBuffer {
    /// The bytes written so far, in order.
    pub data: Vec<u8>,
}

impl WriteBuffer {
    /// An empty buffer.
    pub fn new() -> (w: WriteBuffer)
        ensures
            w.data@ == Seq::<u8>::empty(),
    {
        let w = WriteBuffer { data: Vec::new() };
        proof {
            assert(w.data@ =~= Seq::<u8>::empty());
        }
        w
    }

    /// Append every byte of `buf`, in order.
    pub fn write_all(&mut self, buf: &[u8])
        ensures
            final(self).data@ == old(self).data@ + buf@,
    {
        let mut i: usize = 0;
        while i < buf.len()
            invariant
                i <= buf@.len(),
                self.data@ == old(self).data@ + buf@.take(i as int),
            decreases buf@.len() - i,
        {
            self.data.push(buf[i]);
            i = i + 1;
            proof {
                assert(self.data@ =~= old(self).data@ + buf@.take(i as int));
            }
        }
        proof {
            assert(self.data@ =~= old(self).data@ + buf@);
        }
    }
}

} // verus!
