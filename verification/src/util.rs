//! The capabilities that every storage backend offers: reading a file by
//! position, mapping it into memory, and opening a file by its logical path.
//!
//! Storage is read-only. Where a handle is known to behave as a fixed sequence
//! of bytes (see `File::faithful`), the contracts say which of those bytes each
//! operation yields. Where it is not, as with a file of the operating system,
//! they still say which requests are made and how their answers are treated.

use vstd::prelude::*;

use memmap::Mmap;

pub mod boxf;
pub mod mem;

verus! {

/// Why an operation of this layer failed.
#[derive(Debug, Clone, Copy, PartialEq, Eq, Structural)]
pub enum Error {
    /// No entry goes by the requested path.
    NotFound,
    /// The data ended before the request was filled.
    UnexpectedEof,
    /// Any other failure of the underlying storage.
    Other,
}

/// `memmap::Mmap`, a read-only memory mapping. It is carried around and
/// handed out; its bytes are reached through `mapping_as_slice`.
#[verifier::external_type_specification]
#[verifier::external_body]
pub struct ExMmap(memmap::Mmap);

/// The bytes that a mapping exposes. They stay the same for as long as nothing
/// writes to the storage under the mapping.
pub uninterp spec fn mapped_bytes(map: memmap::Mmap) -> Seq<u8>;

/// Borrows the bytes of a mapping through `memmap::Mmap`'s `Deref`, which hands
/// out the whole mapped region as one slice. Trusted: the slice is what
/// `mapped_bytes` names.
#[verifier::external_body]
pub(crate) fn mapping_as_slice(map: &Mmap) -> (bytes: &[u8])
    ensures
        bytes@ == mapped_bytes(*map),
{
    std::ops::Deref::deref(map)
}

/// The part of `bytes` that starts at `offset` and runs for `len` bytes, cut
/// short at the end of `bytes`.
pub open spec fn clamped_range(bytes: Seq<u8>, offset: int, len: int) -> Seq<u8>
    recommends
        0 <= offset <= bytes.len(),
        0 <= len,
{
    bytes.subrange(offset, if offset + len <= bytes.len() {
        offset + len
    } else {
        bytes.len() as int
    })
}

/// How many of `len` requested bytes a file of `total` bytes has from `offset`
/// on: all of them where the request lies inside the file, what is left
/// before the end where it runs past it, and none where it starts at or past
/// the end.
pub open spec fn clamped_len(total: int, offset: int, len: int) -> int {
    if offset >= total {
        0
    } else if len <= total - offset {
        len
    } else {
        total - offset
    }
}

/// Cuts a request for `len` bytes at `offset` down to what a file of `total`
/// bytes holds.
pub fn clamp_len(total: u64, offset: u64, len: usize) -> (granted: usize)
    ensures
        granted == clamped_len(total as int, offset as int, len as int),
{
    if offset >= total {
        0
    } else {
        let left: u64 = total - offset;
        if len as u64 <= left {
            len
        } else {
            left as usize
        }
    }
}

/// After a read of `n` bytes at `offset`, the first `n` bytes of the buffer are
/// the file's bytes from `offset` on, and the rest of the buffer is as it
/// was. A read of nothing means that the buffer was empty or that `offset`
/// lies at or past the end.
pub open spec fn read_into(contents: Seq<u8>, offset: int, before: Seq<u8>, after: Seq<u8>, n: int) -> bool {
    &&& 0 <= n <= before.len()
    &&& after.len() == before.len()
    &&& n > 0 ==> offset + n <= contents.len() && after.subrange(0, n) == contents.subrange(
        offset,
        offset + n,
    )
    &&& after.subrange(n, before.len() as int) == before.subrange(n, before.len() as int)
    &&& n == 0 ==> before.len() == 0 || offset >= contents.len()
}

/// After a read that filled the whole buffer from `offset`, the buffer holds
/// the file's bytes from `offset` on.
pub open spec fn exact_read(contents: Seq<u8>, offset: int, before: Seq<u8>, after: Seq<u8>) -> bool {
    &&& offset + before.len() <= contents.len()
    &&& after == contents.subrange(offset, offset + before.len())
}

/// A file that can be read, both as a stream and at any position.
///
/// The contracts describe a handle by the bytes of its file. They bind only a
/// `faithful` handle, which answers every request from its bytes and fails
/// only where they do not reach; an implementation has to prove that. Of any
/// other handle nothing is taken for granted: callers check what it returns.
pub trait File: Sized {
    /// The handle is known to behave as its `contents` and `position` say.
    open spec fn faithful(&self) -> bool {
        false
    }

    /// The bytes of the file.
    open spec fn contents(&self) -> Seq<u8> {
        Seq::empty()
    }

    /// How many bytes the streaming reads have consumed so far.
    open spec fn position(&self) -> nat {
        0
    }

    /// The length of the file in bytes.
    fn len(&self) -> (r: Result<u64, Error>)
        ensures
            self.faithful() ==> (r matches Ok(n) && n == self.contents().len()),
    ;

    /// Whether the file holds no bytes.
    fn is_empty(&self) -> (r: Result<bool, Error>)
        ensures
            self.faithful() ==> (r matches Ok(b) && b == (self.contents().len() == 0)),
    ;

    /// Reads the next bytes of the stream into `buf` and moves the stream on by
    /// as many bytes as were read.
    fn read(&mut self, buf: &mut [u8]) -> (r: Result<usize, Error>)
        ensures
            final(buf)@.len() == old(buf)@.len(),
            old(self).faithful() ==> {
                &&& final(self).faithful()
                &&& final(self).contents() == old(self).contents()
                &&& r matches Ok(n) && read_into(
                    old(self).contents(),
                    old(self).position() as int,
                    old(buf)@,
                    final(buf)@,
                    n as int,
                ) && final(self).position() == old(self).position() + n
            },
    ;

    /// Reads bytes that start at `offset` into `buf`, leaving the stream where
    /// it is. Fewer bytes than `buf` holds may be read.
    fn read_at(&self, buf: &mut [u8], offset: u64) -> (r: Result<usize, Error>)
        ensures
            final(buf)@.len() == old(buf)@.len(),
            self.faithful() ==> (r matches Ok(n) && read_into(
                self.contents(),
                offset as int,
                old(buf)@,
                final(buf)@,
                n as int,
            )),
    ;

    /// Fills `buf` with the bytes that start at `offset`, or fails.
    fn read_exact_at(&self, buf: &mut [u8], offset: u64) -> (r: Result<(), Error>)
        ensures
            final(buf)@.len() == old(buf)@.len(),
            self.faithful() ==> match r {
                Ok(_) => exact_read(self.contents(), offset as int, old(buf)@, final(buf)@),
                Err(e) => e == Error::UnexpectedEof && offset + old(buf)@.len()
                    > self.contents().len(),
            },
    ;
}

/// A file that can be mapped into memory.
///
/// A mapping is only sound while nothing changes the underlying storage; the
/// caller answers for that.
pub trait ToMemmap: File {
    /// Maps the whole file.
    fn memory_map(&self) -> (r: Result<Mmap, Error>)
        ensures
            self.faithful() ==> (r matches Ok(map) ==> mapped_bytes(map) == self.contents()),
    ;

    /// Maps `len` bytes from `offset` on, or as many as the file has left.
    fn partial_memory_map(&self, offset: u64, len: usize) -> (r: Result<Mmap, Error>)
        ensures
            self.faithful() && offset <= self.contents().len() ==> (r matches Ok(map)
                ==> mapped_bytes(map) == clamped_range(self.contents(), offset as int, len as int)),
    ;
}

/// A store of files that are opened by logical path.
pub trait Filesystem {
    type File: File;

    /// Opens the file stored under `path`. A path under which nothing is
    /// stored is answered with `Error::NotFound`.
    fn open(&self, path: &str) -> Result<Self::File, Error>;
}

/// Reads a whole file into memory: asks the file for its length and reads
/// that many bytes from its start.
pub fn read_to_end<F: File>(file: &F) -> (r: Result<Vec<u8>, Error>)
    ensures
        is_whole_of(r, file),
{
    let answer = file.len();
    let r = match answer {
        Err(e) => Err(e),
        Ok(total) => if total > usize::MAX as u64 {
            Err(Error::Other)
        } else {
            let mut bytes: Vec<u8> = vec![0u8; total as usize];
            match file.read_exact_at(bytes.as_mut_slice(), 0) {
                Ok(()) => {
                    proof {
                        if file.faithful() {
                            assert(file.contents().subrange(0, total as int) == file.contents());
                        }
                    }
                    Ok(bytes)
                },
                Err(e) => Err(e),
            }
        },
    };
    proof {
        assert(agrees_with_length(r, answer));
    }
    r
}

/// `r` goes with the answer `total` that a file gave when asked for its
/// length: a failure is passed on, a length beyond this machine's memory is
/// refused with `Error::Other`, and bytes that were read are as many as the
/// length says.
pub open spec fn agrees_with_length(r: Result<Vec<u8>, Error>, total: Result<u64, Error>) -> bool {
    match total {
        Err(e) => r == Err::<Vec<u8>, Error>(e),
        Ok(n) => if n > usize::MAX {
            r == Err::<Vec<u8>, Error>(Error::Other)
        } else {
            r matches Ok(bytes) ==> bytes@.len() == n
        },
    }
}

/// `r` is what reading the whole of `file` comes to. It goes with what the
/// file answers when asked for its length; and of a faithful file it is all
/// the file's bytes, unless they are too many for this machine's memory.
pub open spec fn is_whole_of<F: File>(r: Result<Vec<u8>, Error>, file: &F) -> bool {
    &&& exists|total: Result<u64, Error>|
        call_ensures(F::len, (file,), total) && #[trigger] agrees_with_length(r, total)
    &&& file.faithful() ==> match r {
        Ok(bytes) => bytes@ == file.contents(),
        Err(e) => e == Error::Other && file.contents().len() > usize::MAX,
    }
}

} // verus!
