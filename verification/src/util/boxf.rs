//! The box-container backend: every record of a single-file container is
//! presented as a file of its own, a window onto the container's bytes.

use vstd::prelude::*;

use super::File as _;
use super::Filesystem as _;
use super::{clamp_len, clamped_len, clamped_range, exact_read, mapped_bytes, Error, ToMemmap};
use memmap::Mmap;

verus! {

/// An entry of a container's index. Paths are written in the container's own
/// path syntax.
#[derive(Debug, Clone, PartialEq, Eq)]
pub enum Record {
    /// `length` bytes of data that start `offset` bytes into the container.
    File { path: String, offset: u64, length: u64 },
    Directory { path: String },
}

impl Record {
    /// The record is a file and goes by `path`.
    pub open spec fn is_file_at(self, path: Seq<char>) -> bool {
        self matches Record::File { path: p, .. } && p@ == path
    }

    /// The bytes of the record inside the container `image`.
    pub open spec fn bytes_in(self, image: Seq<u8>) -> Seq<u8>
        recommends
            self is File,
    {
        image.subrange(self->offset as int, self->offset + self->length)
    }

    /// Tells whether the record is a file that goes by `path`.
    pub fn names_file(&self, path: &String) -> (r: bool)
        ensures
            r == self.is_file_at(path@),
    {
        match self {
            Record::File { path: p, .. } => *p == *path,
            Record::Directory { .. } => false,
        }
    }
}

/// `i` is the position of the first file record that goes by `path`.
pub open spec fn is_first_file(records: Seq<Record>, path: Seq<char>, i: int) -> bool {
    &&& 0 <= i < records.len()
    &&& records[i].is_file_at(path)
    &&& forall|j: int| 0 <= j < i ==> !(#[trigger] records[j]).is_file_at(path)
}

/// The position of the first file record that goes by `path`, if any does.
pub open spec fn first_file(records: Seq<Record>, path: Seq<char>) -> Option<int> {
    if exists|i: int| is_first_file(records, path, i) {
        Some(choose|i: int| is_first_file(records, path, i))
    } else {
        None
    }
}

/// Only one position can be the first.
pub proof fn lemma_first_file_unique(records: Seq<Record>, path: Seq<char>, i: int, j: int)
    requires
        is_first_file(records, path, i),
        is_first_file(records, path, j),
    ensures
        i == j,
{
    if i < j {
        assert(!records[i].is_file_at(path));
    } else if j < i {
        assert(!records[j].is_file_at(path));
    }
}

/// A record opened as a file: the window `[start, start + length)` of the
/// container file `base`, with a cursor for streaming reads.
///
/// Every access goes through the window: offsets are moved by `start`, and no
/// request reaches past `start + length`.
pub struct File<B: super::File> {
    offset: u64,
    len: u64,
    pos: u64,
    file: B,
}

/// Tells whether the window of `len` bytes at `offset` lies inside a file of
/// `total` bytes.
pub fn fits(total: u64, offset: u64, len: u64) -> (inside: bool)
    ensures
        inside == (offset + len <= total),
{
    offset <= total && len <= total - offset
}

/// What a read through the window returns, given what the container file
/// answered to the request for `granted` bytes: the answer itself, unless it
/// claims more bytes than were asked for.
pub fn accept_read(granted: usize, outcome: Result<usize, Error>) -> (r: Result<usize, Error>)
    ensures
        r == match outcome {
            Ok(n) => if n <= granted {
                Ok::<usize, Error>(n)
            } else {
                Err::<usize, Error>(Error::Other)
            },
            Err(e) => Err::<usize, Error>(e),
        },
{
    match outcome {
        Ok(n) => if n <= granted {
            Ok(n)
        } else {
            Err(Error::Other)
        },
        Err(e) => Err(e),
    }
}

impl<B: super::File> File<B> {
    #[verifier::type_invariant]
    spec fn inv(self) -> bool {
        self.wf()
    }

    /// The handle onto the container file.
    pub closed spec fn base(&self) -> B {
        self.file
    }

    /// Where the window starts in the container.
    pub closed spec fn start(&self) -> u64 {
        self.offset
    }

    /// How many bytes the window holds.
    pub closed spec fn length(&self) -> u64 {
        self.len
    }

    /// How far the streaming reads have come.
    pub closed spec fn cursor(&self) -> u64 {
        self.pos
    }

    /// The window ends before offsets run out, the cursor is inside it, and it
    /// lies inside the container file as far as that file's bytes are known.
    pub open spec fn wf(&self) -> bool {
        &&& self.start() + self.length() <= u64::MAX
        &&& self.cursor() <= self.length()
        &&& self.base().faithful() ==> self.start() + self.length()
            <= self.base().contents().len()
    }

    /// How many of `len` requested bytes the window has from `offset` on.
    pub open spec fn granted(&self, offset: int, len: int) -> int {
        clamped_len(self.length() as int, offset, len)
    }

    /// Restricts `file` to the window of `len` bytes that starts at `offset`.
    /// The file is asked for its length, and a window that does not lie inside
    /// it is refused.
    pub fn new(file: B, offset: u64, len: u64) -> (r: Result<Self, Error>)
        ensures
            exists|total: Result<u64, Error>|
                call_ensures(B::len, (&file,), total) && #[trigger] Self::is_window_onto(
                    r,
                    file,
                    offset,
                    len,
                    total,
                ),
            r matches Ok(window) ==> window.wf(),
            file.faithful() ==> match r {
                Ok(_) => offset + len <= file.contents().len(),
                Err(e) => e == Error::UnexpectedEof && offset + len > file.contents().len(),
            },
    {
        let answer = file.len();
        let r = match answer {
            Err(e) => Err(e),
            Ok(total) => if fits(total, offset, len) {
                Ok(File { offset, len, pos: 0, file })
            } else {
                Err(Error::UnexpectedEof)
            },
        };
        proof {
            assert(Self::is_window_onto(r, file, offset, len, answer));
        }
        r
    }

    /// `r` is the window of `len` bytes at `offset` onto `file`, given the
    /// answer `total` that `file` gave when asked for its length: a failure is
    /// passed on, a window that does not lie inside that length is refused
    /// with `Error::UnexpectedEof`, and any other is made, with its cursor at
    /// the start.
    pub open spec fn is_window_onto(
        r: Result<Self, Error>,
        file: B,
        offset: u64,
        len: u64,
        total: Result<u64, Error>,
    ) -> bool {
        match total {
            Err(e) => r == Err::<Self, Error>(e),
            Ok(n) => if offset + len <= n {
                &&& r matches Ok(window)
                &&& window.base() == file
                &&& window.start() == offset
                &&& window.length() == len
                &&& window.cursor() == 0
            } else {
                r == Err::<Self, Error>(Error::UnexpectedEof)
            },
        }
    }

    /// The position in the container of the window's byte number `offset`.
    pub fn translate(&self, offset: u64) -> (physical: u64)
        requires
            offset <= self.length(),
        ensures
            physical == self.start() + offset,
    {
        proof {
            use_type_invariant(self);
        }
        self.offset + offset
    }

    /// Cuts a request for `len` bytes at `offset` down to what the window holds.
    pub fn clamp(&self, offset: u64, len: usize) -> (granted: usize)
        ensures
            granted == self.granted(offset as int, len as int),
    {
        clamp_len(self.len, offset, len)
    }
}

impl<B: super::File> super::File for File<B> {
    open spec fn faithful(&self) -> bool {
        self.wf() && self.base().faithful()
    }

    open spec fn contents(&self) -> Seq<u8> {
        self.base().contents().subrange(self.start() as int, self.start() + self.length())
    }

    open spec fn position(&self) -> nat {
        self.cursor() as nat
    }

    /// The length of the record.
    fn len(&self) -> (r: Result<u64, Error>)
        ensures
            r == Ok::<u64, Error>(self.length()),
    {
        Ok(self.len)
    }

    /// Whether the record holds no bytes.
    fn is_empty(&self) -> (r: Result<bool, Error>)
        ensures
            r == Ok::<bool, Error>(self.length() == 0),
    {
        Ok(self.len == 0)
    }

    /// Reads on from the cursor, and not past the record's end.
    fn read(&mut self, buf: &mut [u8]) -> (r: Result<usize, Error>)
        ensures
            final(self).base() == old(self).base(),
            final(self).start() == old(self).start(),
            final(self).length() == old(self).length(),
            final(self).wf(),
            match r {
                Ok(n) => final(self).cursor() == old(self).cursor() + n,
                Err(_) => final(self).cursor() == old(self).cursor(),
            },
            old(self).cursor() == old(self).length() ==> r == Ok::<usize, Error>(0),
    {
        proof {
            use_type_invariant(&*self);
        }
        match self.read_at(buf, self.pos) {
            Ok(n) => {
                self.pos = self.pos + n as u64;
                Ok(n)
            },
            Err(e) => Err(e),
        }
    }

    /// Reads at `offset` inside the record. The request is cut down to the
    /// record's end: no byte past it is read, and none of `buf` past the cut
    /// is written.
    fn read_at(&self, buf: &mut [u8], offset: u64) -> (r: Result<usize, Error>)
        ensures
            offset >= self.length() ==> r == Ok::<usize, Error>(0),
            r matches Ok(n) ==> n <= self.granted(offset as int, old(buf)@.len() as int),
            final(buf)@.subrange(
                self.granted(offset as int, old(buf)@.len() as int),
                old(buf)@.len() as int,
            ) == old(buf)@.subrange(
                self.granted(offset as int, old(buf)@.len() as int),
                old(buf)@.len() as int,
            ),
    {
        proof {
            use_type_invariant(self);
        }
        if offset >= self.len {
            return Ok(0);
        }
        let want: usize = self.clamp(offset, buf.len());
        let physical: u64 = self.translate(offset);
        let (head, tail) = buf.split_at_mut(want);
        let ghost head_before = head@;
        let outcome = self.file.read_at(head, physical);
        proof {
            if let Ok(n) = outcome {
                if self.base().faithful() {
                    let image = self.base().contents();
                    let whole = old(buf)@.len() as int;
                    assert forall|i: int| n <= i < whole implies buf@[i] == old(buf)@[i] by {
                        if i < want {
                            assert(head@[i] == head@.subrange(n as int, want as int)[i - n]);
                            assert(head_before[i] == head_before.subrange(n as int, want as int)[i
                                - n]);
                        } else {
                            assert(buf@[i] == tail@[i - want]);
                        }
                    }
                    assert(buf@.subrange(n as int, whole) == old(buf)@.subrange(n as int, whole));
                    if n > 0 {
                        assert(buf@.subrange(0, n as int) == head@.subrange(0, n as int));
                        assert(self.contents().subrange(offset as int, offset + n)
                            == image.subrange(physical as int, physical + n));
                    }
                }
            }
        }
        accept_read(want, outcome)
    }

    /// Fills `buf` from `offset` inside the record. A request that runs past
    /// the record's end is refused, and nothing is read.
    fn read_exact_at(&self, buf: &mut [u8], offset: u64) -> (r: Result<(), Error>)
        ensures
            offset + old(buf)@.len() > self.length() ==> r == Err::<(), Error>(
                Error::UnexpectedEof,
            ) && final(buf)@ == old(buf)@,
    {
        proof {
            use_type_invariant(self);
        }
        if offset > self.len || buf.len() as u64 > self.len - offset {
            return Err(Error::UnexpectedEof);
        }
        let physical: u64 = self.translate(offset);
        let r = self.file.read_exact_at(buf, physical);
        proof {
            if r is Ok && self.base().faithful() {
                let image = self.base().contents();
                let n = buf@.len();
                assert(self.contents().subrange(offset as int, offset + n) == image.subrange(
                    physical as int,
                    physical + n,
                ));
            }
        }
        r
    }
}

impl<B: ToMemmap> ToMemmap for File<B> {
    /// Maps the record in place: asks the container file for a mapping of the
    /// record's length at the record's start, and hands on the answer. A
    /// record too long for this machine's address space is refused.
    fn memory_map(&self) -> (r: Result<Mmap, Error>)
        ensures
            self.length() > usize::MAX ==> r == Err::<Mmap, Error>(Error::Other),
            self.length() <= usize::MAX ==> call_ensures(
                B::partial_memory_map,
                (&self.base(), self.start(), self.length() as usize),
                r,
            ),
    {
        proof {
            use_type_invariant(self);
        }
        if self.len > usize::MAX as u64 {
            return Err(Error::Other);
        }
        let r = self.file.partial_memory_map(self.offset, self.len as usize);
        proof {
            if self.base().faithful() {
                assert(clamped_range(
                    self.base().contents(),
                    self.start() as int,
                    self.length() as int,
                ) == super::File::contents(self));
            }
        }
        r
    }

    /// Maps part of the record in place: asks the container file for a
    /// mapping at the translated offset, and hands on the answer. A request
    /// that runs past the record's end is cut at that end, so that no byte of
    /// a neighbouring record is ever mapped; one that starts past the end is
    /// refused.
    fn partial_memory_map(&self, offset: u64, len: usize) -> (r: Result<Mmap, Error>)
        ensures
            offset > self.length() ==> r == Err::<Mmap, Error>(Error::UnexpectedEof),
            offset <= self.length() ==> call_ensures(
                B::partial_memory_map,
                (
                    &self.base(),
                    (self.start() + offset) as u64,
                    self.granted(offset as int, len as int) as usize,
                ),
                r,
            ),
            self.base().faithful() ==> (r matches Ok(map) ==> mapped_bytes(map)
                == self.base().contents().subrange(
                self.start() + offset,
                self.start() + offset + self.granted(offset as int, len as int),
            )),
    {
        proof {
            use_type_invariant(self);
        }
        if offset > self.len {
            return Err(Error::UnexpectedEof);
        }
        let granted: usize = self.clamp(offset, len);
        let physical: u64 = self.translate(offset);
        let r = self.file.partial_memory_map(physical, granted);
        proof {
            if self.base().faithful() {
                let image = self.base().contents();
                let window = super::File::contents(self);
                assert(clamped_range(image, physical as int, granted as int) == image.subrange(
                    physical as int,
                    physical + granted,
                ));
                assert(clamped_range(window, offset as int, len as int) == image.subrange(
                    physical as int,
                    physical + granted,
                ));
            }
        }
        r
    }
}

/// The files of one container. The container file itself is opened through
/// `host` every time that a record is opened.
pub struct Filesystem<H: super::Filesystem> {
    host: H,
    container: String,
    records: Vec<Record>,
}

impl<H: super::Filesystem> Filesystem<H> {
    /// The store that holds the container file.
    pub closed spec fn host(&self) -> H {
        self.host
    }

    /// The path of the container file in `host`.
    pub closed spec fn container(&self) -> Seq<char> {
        self.container@
    }

    /// The container's index.
    pub closed spec fn records(&self) -> Seq<Record> {
        self.records@
    }

    /// The record that `path` resolves to: the first file record of that path.
    /// A path that the container's syntax cannot express resolves to nothing.
    pub open spec fn lookup(&self, path: Option<Seq<char>>) -> Option<Record> {
        match path {
            Some(p) => match first_file(self.records(), p) {
                Some(i) => Some(self.records()[i]),
                None => None,
            },
            None => None,
        }
    }

    /// A view of the container stored under `container` in `host`, whose index
    /// holds `records`.
    pub fn new(host: H, container: String, records: Vec<Record>) -> (fs: Self)
        ensures
            fs.host() == host,
            fs.container() == container@,
            fs.records() == records@,
    {
        Filesystem { host, container, records }
    }

    /// Scans the index for the first file record that goes by `path`.
    pub fn find(&self, path: &str) -> (r: Option<usize>)
        ensures
            match r {
                Some(i) => first_file(self.records(), path@) == Some(i as int),
                None => first_file(self.records(), path@) is None,
            },
    {
        let wanted: String = path.to_owned();
        let n: usize = self.records.len();
        let mut i: usize = 0;
        while i < n
            invariant
                n == self.records@.len(),
                0 <= i <= n,
                wanted@ == path@,
                forall|j: int| 0 <= j < i ==> !(#[trigger] self.records@[j]).is_file_at(path@),
            decreases n - i,
        {
            if self.records[i].names_file(&wanted) {
                proof {
                    assert(is_first_file(self.records(), path@, i as int));
                    let c = choose|k: int| is_first_file(self.records(), path@, k);
                    lemma_first_file_unique(self.records(), path@, i as int, c);
                }
                return Some(i);
            }
            i += 1;
        }
        proof {
            assert forall|k: int| !is_first_file(self.records(), path@, k) by {
                if 0 <= k < n {
                    assert(!self.records@[k].is_file_at(path@));
                }
            }
        }
        None
    }

    /// Opens the record that `path` resolves to. `path` is the requested
    /// logical path written in the container's syntax, or `None` if that
    /// syntax has no way to write it.
    ///
    /// A path that resolves to no record fails with `Error::NotFound`, and the
    /// container file is not touched. Otherwise the container file is opened
    /// anew, and what is returned is the record's window onto it.
    pub fn open(&self, path: Option<&str>) -> (r: Result<File<H::File>, Error>)
        ensures
            match self.lookup(
                match path {
                    Some(p) => Some(p@),
                    None => None,
                },
            ) {
                None => r == Err::<File<H::File>, Error>(Error::NotFound),
                Some(record) => {
                    &&& self.is_opened_as(r, record)
                    &&& r matches Ok(file) ==> is_window_of(file, record)
                },
            },
    {
        let wanted: &str = match path {
            Some(p) => p,
            None => { return Err(Error::NotFound); },
        };
        let index: usize = match self.find(wanted) {
            Some(i) => i,
            None => { return Err(Error::NotFound); },
        };
        let ghost record = self.records()[index as int];
        proof {
            assert(is_first_file(self.records(), wanted@, index as int));
        }
        match &self.records[index] {
            Record::File { offset, length, .. } => {
                let container: &str = self.container.as_str();
                let opened = self.host.open(container);
                let ghost was_opened = opened;
                let r = match opened {
                    Ok(base) => File::new(base, *offset, *length),
                    Err(e) => Err(e),
                };
                proof {
                    assert(call_ensures(H::open, (&self.host(), container), was_opened));
                    assert(answers_opening(r, was_opened, record));
                }
                r
            },
            Record::Directory { .. } => {
                // `find` gives the place of a file record.
                assert(false);
                Err(Error::NotFound)
            },
        }
    }

    /// `r` is what opening `record` comes to: the container file is opened
    /// through the host under the container's path, and `r` is what that and
    /// the making of the window come to.
    pub open spec fn is_opened_as(&self, r: Result<File<H::File>, Error>, record: Record) -> bool {
        exists|container: &str, opened: Result<H::File, Error>|
            {
                &&& container@ == self.container()
                &&& #[trigger] call_ensures(H::open, (&self.host(), container), opened)
                &&& answers_opening(r, opened, record)
            }
    }
}

/// `r` goes with the answer `opened` that the host gave when asked for the
/// container file: a failure is passed on, and a file that opened is made
/// into the window of `record`.
pub open spec fn answers_opening<B: super::File>(
    r: Result<File<B>, Error>,
    opened: Result<B, Error>,
    record: Record,
) -> bool {
    match opened {
        Err(e) => r == Err::<File<B>, Error>(e),
        Ok(base) => call_ensures(File::<B>::new, (base, record->offset, record->length), r),
    }
}

/// `file` is the window of `record`, freshly opened.
pub open spec fn is_window_of<B: super::File>(file: File<B>, record: Record) -> bool {
    &&& file.wf()
    &&& record is File
    &&& file.start() == record->offset
    &&& file.length() == record->length
    &&& file.cursor() == 0
}

/// Through the window of a record, a read that fills a buffer of the record's
/// length from offset 0 yields the very bytes of the record in the container
/// file, provided that the handle onto the container is faithful.
pub proof fn lemma_full_read_is_record<B: super::File>(
    file: File<B>,
    record: Record,
    before: Seq<u8>,
    after: Seq<u8>,
)
    requires
        is_window_of(file, record),
        file.base().faithful(),
        before.len() == record->length,
        exact_read(super::File::contents(&file), 0, before, after),
    ensures
        after == record.bytes_in(file.base().contents()),
{
    let window = super::File::contents(&file);
    assert(window.subrange(0, window.len() as int) == window);
}

/// What a mapping of `len` bytes at `offset` exposes of a record: exactly the
/// requested bytes where the request lies inside the record, and otherwise
/// the record's bytes from `offset` to its end. Either way they are bytes of
/// this record, taken from its place in the container file.
pub proof fn lemma_mapped_range_stays_inside<B: super::File>(file: File<B>, offset: int, len: int)
    requires
        file.wf(),
        file.base().faithful(),
        0 <= offset <= file.length(),
        0 <= len,
    ensures
        offset + len <= file.length() ==> clamped_range(
            super::File::contents(&file),
            offset,
            len,
        ) == super::File::contents(&file).subrange(offset, offset + len),
        offset + len > file.length() ==> clamped_range(
            super::File::contents(&file),
            offset,
            len,
        ) == super::File::contents(&file).subrange(offset, file.length() as int),
        clamped_range(super::File::contents(&file), offset, len)
            == file.base().contents().subrange(
            file.start() + offset,
            file.start() + offset + file.granted(offset, len),
        ),
        file.start() + offset + file.granted(offset, len) <= file.start() + file.length(),
{
}

} // verus!
