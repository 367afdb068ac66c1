//! Files held in memory. Such a file is faithful: every read is answered from
//! its bytes, and fails only where they do not reach.

use vstd::prelude::*;

use super::{clamp_len, Error};

verus! {

/// A file whose bytes are held in memory, with a cursor for streaming reads.
pub struct File {
    bytes: Vec<u8>,
    pos: usize,
}

impl File {
    #[verifier::type_invariant]
    spec fn inv(self) -> bool {
        self.pos <= self.bytes@.len()
    }

    /// The bytes of the file.
    pub closed spec fn data(&self) -> Seq<u8> {
        self.bytes@
    }

    /// How far the streaming reads have come.
    pub closed spec fn cursor(&self) -> nat {
        self.pos as nat
    }

    /// A file that holds `bytes`, with its cursor at the start.
    pub fn new(bytes: Vec<u8>) -> (file: File)
        ensures
            file.data() == bytes@,
            file.cursor() == 0,
    {
        File { bytes, pos: 0 }
    }

    /// Copies the `n` bytes that start at `start` into the front of `buf`.
    fn copy_out(&self, buf: &mut [u8], start: usize, n: usize)
        requires
            start + n <= self.data().len(),
            n <= old(buf)@.len(),
        ensures
            final(buf)@.len() == old(buf)@.len(),
            final(buf)@.subrange(0, n as int) == self.data().subrange(start as int, start + n),
            final(buf)@.subrange(n as int, old(buf)@.len() as int) == old(buf)@.subrange(
                n as int,
                old(buf)@.len() as int,
            ),
    {
        let total: usize = self.bytes.len();
        let mut i: usize = 0;
        while i < n
            invariant
                0 <= i <= n,
                total == self.bytes@.len(),
                start + n <= total,
                n <= buf@.len(),
                buf@.len() == old(buf)@.len(),
                forall|j: int| 0 <= j < i ==> buf@[j] == self.bytes@[start + j],
                forall|j: int| i <= j < buf@.len() ==> buf@[j] == old(buf)@[j],
            decreases n - i,
        {
            buf[i] = self.bytes[start + i];
            i += 1;
        }
    }
}

impl super::File for File {
    open spec fn faithful(&self) -> bool {
        self.cursor() <= self.data().len()
    }

    open spec fn contents(&self) -> Seq<u8> {
        self.data()
    }

    open spec fn position(&self) -> nat {
        self.cursor()
    }

    fn len(&self) -> (r: Result<u64, Error>) {
        Ok(self.bytes.len() as u64)
    }

    fn is_empty(&self) -> (r: Result<bool, Error>) {
        Ok(self.bytes.len() == 0)
    }

    fn read(&mut self, buf: &mut [u8]) -> (r: Result<usize, Error>)
        ensures
            final(self).data() == old(self).data(),
    {
        proof {
            use_type_invariant(&*self);
        }
        let left: usize = self.bytes.len() - self.pos;
        let n: usize = if buf.len() <= left {
            buf.len()
        } else {
            left
        };
        self.copy_out(buf, self.pos, n);
        self.pos = self.pos + n;
        Ok(n)
    }

    fn read_at(&self, buf: &mut [u8], offset: u64) -> (r: Result<usize, Error>) {
        let n: usize = clamp_len(self.bytes.len() as u64, offset, buf.len());
        if n > 0 {
            self.copy_out(buf, offset as usize, n);
        }
        Ok(n)
    }

    fn read_exact_at(&self, buf: &mut [u8], offset: u64) -> (r: Result<(), Error>) {
        let total: u64 = self.bytes.len() as u64;
        if offset > total || buf.len() as u64 > total - offset {
            return Err(Error::UnexpectedEof);
        }
        self.copy_out(buf, offset as usize, buf.len());
        assert(buf@.subrange(0, buf@.len() as int) == buf@);
        Ok(())
    }
}

} // verus!
