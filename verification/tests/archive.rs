use divvunspell::archive::boxf::{ACCEPTOR_PATH, ERRMODEL_PATH, METADATA_PATH};
use divvunspell::archive::error::{SpellerArchiveError, TransducerRole};
use divvunspell::archive::meta::{text_of, SpellerMetadata};
use divvunspell::archive::{BoxSpellerArchive, MmapRef, TempMmap};
use divvunspell::transducer::{Transducer, TransducerError};
use divvunspell::util::boxf::{accept_read, fits, File as BoxFile, Filesystem as BoxFilesystem, Record};
use divvunspell::util::mem::File as HeldFile;
use divvunspell::util::{clamp_len, read_to_end, Error, File, Filesystem, ToMemmap};
use memmap::{Mmap, MmapMut};
use std::sync::Arc;

/// A file held in memory.
struct MemFile {
    bytes: Vec<u8>,
    pos: usize,
}

impl MemFile {
    fn new(bytes: &[u8]) -> MemFile {
        MemFile { bytes: bytes.to_vec(), pos: 0 }
    }
}

fn map_bytes(bytes: &[u8]) -> Result<Mmap, Error> {
    let mut map = MmapMut::map_anon(bytes.len()).map_err(|_| Error::Other)?;
    map.copy_from_slice(bytes);
    map.make_read_only().map_err(|_| Error::Other)
}

impl File for MemFile {
    fn len(&self) -> Result<u64, Error> {
        Ok(self.bytes.len() as u64)
    }

    fn is_empty(&self) -> Result<bool, Error> {
        Ok(self.bytes.is_empty())
    }

    fn read(&mut self, buf: &mut [u8]) -> Result<usize, Error> {
        let n = self.read_at(buf, self.pos as u64)?;
        self.pos += n;
        Ok(n)
    }

    fn read_at(&self, buf: &mut [u8], offset: u64) -> Result<usize, Error> {
        let start = (offset as usize).min(self.bytes.len());
        let n = buf.len().min(self.bytes.len() - start);
        buf[..n].copy_from_slice(&self.bytes[start..start + n]);
        Ok(n)
    }

    fn read_exact_at(&self, buf: &mut [u8], offset: u64) -> Result<(), Error> {
        let start = offset as usize;
        if start > self.bytes.len() || buf.len() > self.bytes.len() - start {
            return Err(Error::UnexpectedEof);
        }
        buf.copy_from_slice(&self.bytes[start..start + buf.len()]);
        Ok(())
    }
}

impl ToMemmap for MemFile {
    fn memory_map(&self) -> Result<Mmap, Error> {
        map_bytes(&self.bytes)
    }

    fn partial_memory_map(&self, offset: u64, len: usize) -> Result<Mmap, Error> {
        let start = (offset as usize).min(self.bytes.len());
        let end = start + clamp_len(self.bytes.len() as u64, offset, len);
        map_bytes(&self.bytes[start..end])
    }
}

/// A store of files held in memory.
struct MemFs {
    files: Vec<(String, Vec<u8>)>,
}

impl Filesystem for MemFs {
    type File = MemFile;

    fn open(&self, path: &str) -> Result<MemFile, Error> {
        for (name, bytes) in self.files.iter() {
            if name == path {
                return Ok(MemFile::new(bytes));
            }
        }
        Err(Error::NotFound)
    }
}

/// A container in a `MemFs`, with paths taken as they are written.
struct BoxView(BoxFilesystem<MemFs>);

impl Filesystem for BoxView {
    type File = BoxFile<MemFile>;

    fn open(&self, path: &str) -> Result<BoxFile<MemFile>, Error> {
        self.0.open(Some(path))
    }
}

/// A stand-in for a transducer: the bytes of its file, which must start with `FST`.
#[derive(Debug, PartialEq)]
struct Blob(Vec<u8>);

impl Transducer for Blob {
    fn from_path<FS>(fs: &FS, path: &str) -> Result<Blob, TransducerError>
    where
        FS: Filesystem,
        FS::File: ToMemmap,
    {
        let file = fs.open(path).map_err(TransducerError::Io)?;
        let map = file.memory_map().map_err(TransducerError::Memmap)?;
        if map.starts_with(b"FST") {
            Ok(Blob(map.to_vec()))
        } else {
            Err(TransducerError::Invalid)
        }
    }
}

const META: &[u8] = br#"{"locale": "se", "title": "Davvisamegiella", "description": "Speller for Northern Sami", "author": "Divvun", "version": "1.2.3", "extra": 7}"#;
const BLOB_A: &[u8] = b"FST error model";
const BLOB_B: &[u8] = b"FST acceptor";

/// Lays `entries` out one after another behind an 8-byte header.
fn container(entries: &[(&str, &[u8])]) -> (Vec<u8>, Vec<Record>) {
    let mut image = b"BOXHEAD!".to_vec();
    let mut records = vec![Record::Directory { path: "dir".to_string() }];
    for (path, bytes) in entries {
        records.push(Record::File {
            path: path.to_string(),
            offset: image.len() as u64,
            length: bytes.len() as u64,
        });
        image.extend_from_slice(bytes);
    }
    (image, records)
}

fn bundle(entries: &[(&str, &[u8])]) -> BoxView {
    let (image, records) = container(entries);
    let host = MemFs { files: vec![("bundle.bhfst".to_string(), image)] };
    BoxView(BoxFilesystem::new(host, "bundle.bhfst".to_string(), records))
}

fn numbers() -> Vec<u8> {
    (0u8..100).collect()
}

#[test]
fn window_reads_its_record_only() {
    let image = numbers();
    let file = BoxFile::new(MemFile::new(&image), 10, 20).unwrap();
    assert_eq!(file.len(), Ok(20));
    assert_eq!(file.is_empty(), Ok(false));
    let mut buf = [0u8; 20];
    assert_eq!(file.read_exact_at(&mut buf, 0), Ok(()));
    assert_eq!(&buf[..], &image[10..30]);
}

#[test]
fn every_record_reads_back_as_stored() {
    let entries: [(&str, &[u8]); 3] = [(METADATA_PATH, META), (ERRMODEL_PATH, BLOB_A), (ACCEPTOR_PATH, BLOB_B)];
    let fs = bundle(&entries);
    for (path, bytes) in entries.iter() {
        let file = fs.open(path).unwrap();
        assert_eq!(file.len(), Ok(bytes.len() as u64));
        let mut buf = vec![0u8; bytes.len()];
        assert_eq!(file.read_exact_at(&mut buf, 0), Ok(()));
        assert_eq!(&buf[..], *bytes);
        assert_eq!(read_to_end(&file), Ok(bytes.to_vec()));
    }
}

#[test]
fn empty_window_is_empty() {
    let file = BoxFile::new(MemFile::new(&numbers()), 100, 0).unwrap();
    assert_eq!(file.len(), Ok(0));
    assert_eq!(file.is_empty(), Ok(true));
    let mut buf = [9u8; 3];
    assert_eq!(file.read_at(&mut buf, 0), Ok(0));
    assert_eq!(buf, [9, 9, 9]);
}

#[test]
fn window_outside_the_container_is_refused() {
    assert!(matches!(BoxFile::new(MemFile::new(&numbers()), 90, 11), Err(Error::UnexpectedEof)));
    assert!(matches!(BoxFile::new(MemFile::new(&numbers()), 101, 0), Err(Error::UnexpectedEof)));
    assert!(matches!(BoxFile::new(MemFile::new(&numbers()), u64::MAX, 2), Err(Error::UnexpectedEof)));
    assert!(BoxFile::new(MemFile::new(&numbers()), 90, 10).is_ok());
}

#[test]
fn clamp_len_cuts_a_request_at_the_end() {
    assert_eq!(clamp_len(20, 0, 20), 20);
    assert_eq!(clamp_len(20, 0, 21), 20);
    assert_eq!(clamp_len(20, 15, 10), 5);
    assert_eq!(clamp_len(20, 15, 3), 3);
    assert_eq!(clamp_len(20, 20, 1), 0);
    assert_eq!(clamp_len(20, 21, 1), 0);
    assert_eq!(clamp_len(0, 0, 7), 0);
    assert_eq!(clamp_len(u64::MAX, 0, usize::MAX), usize::MAX);
    assert_eq!(clamp_len(u64::MAX, u64::MAX - 3, usize::MAX), 3);
}

#[test]
fn held_file_answers_from_its_bytes() {
    let image = numbers();
    let mut file = HeldFile::new(image.clone());
    assert_eq!(file.len(), Ok(100));
    assert_eq!(file.is_empty(), Ok(false));
    assert_eq!(HeldFile::new(Vec::new()).is_empty(), Ok(true));
    let mut buf = [0xffu8; 4];
    assert_eq!(file.read_at(&mut buf, 98), Ok(2));
    assert_eq!(buf, [98, 99, 0xff, 0xff]);
    assert_eq!(file.read_at(&mut buf, 100), Ok(0));
    assert_eq!(file.read_at(&mut buf, u64::MAX), Ok(0));
    assert_eq!(buf, [98, 99, 0xff, 0xff]);
    assert_eq!(file.read_exact_at(&mut buf, 96), Ok(()));
    assert_eq!(buf, [96, 97, 98, 99]);
    assert_eq!(file.read_exact_at(&mut buf, 97), Err(Error::UnexpectedEof));
    assert_eq!(file.read_exact_at(&mut buf, 101), Err(Error::UnexpectedEof));
    assert_eq!(buf, [96, 97, 98, 99]);
    assert_eq!(read_to_end(&file), Ok(image));
    let mut big = [0u8; 64];
    assert_eq!(file.read(&mut big), Ok(64));
    assert_eq!(big[63], 63);
    assert_eq!(file.read(&mut big), Ok(36));
    assert_eq!(&big[..36], &numbers()[64..]);
    assert_eq!(big[36], 36);
    assert_eq!(file.read(&mut big), Ok(0));
}

#[test]
fn window_onto_a_held_file_shows_the_record() {
    let image = numbers();
    let mut file = BoxFile::new(HeldFile::new(image.clone()), 10, 20).unwrap();
    let mut buf = [0u8; 20];
    assert_eq!(file.read_exact_at(&mut buf, 0), Ok(()));
    assert_eq!(&buf[..], &image[10..30]);
    let mut buf = [0xffu8; 8];
    assert_eq!(file.read_at(&mut buf, 15), Ok(5));
    assert_eq!(buf, [25, 26, 27, 28, 29, 0xff, 0xff, 0xff]);
    assert_eq!(file.read(&mut buf), Ok(8));
    assert_eq!(buf, [10, 11, 12, 13, 14, 15, 16, 17]);
    assert_eq!(read_to_end(&file), Ok(image[10..30].to_vec()));
    assert!(matches!(BoxFile::new(HeldFile::new(image), 90, 11), Err(Error::UnexpectedEof)));
}

#[test]
fn fits_compares_the_window_end_with_the_total() {
    assert!(fits(100, 10, 90));
    assert!(!fits(100, 10, 91));
    assert!(fits(0, 0, 0));
    assert!(!fits(u64::MAX, u64::MAX, 1));
}

#[test]
fn accept_read_passes_on_what_fits() {
    assert_eq!(accept_read(5, Ok(3)), Ok(3));
    assert_eq!(accept_read(5, Ok(5)), Ok(5));
    assert_eq!(accept_read(5, Ok(6)), Err(Error::Other));
    assert_eq!(accept_read(5, Err(Error::NotFound)), Err(Error::NotFound));
}

#[test]
fn offsets_are_moved_by_the_window_start() {
    let file = BoxFile::new(MemFile::new(&numbers()), 10, 20).unwrap();
    assert_eq!(file.translate(0), 10);
    assert_eq!(file.translate(7), 17);
    assert_eq!(file.translate(20), 30);
}

#[test]
fn requests_are_cut_at_the_window_end() {
    let file = BoxFile::new(MemFile::new(&numbers()), 10, 20).unwrap();
    assert_eq!(file.clamp(0, 20), 20);
    assert_eq!(file.clamp(0, 21), 20);
    assert_eq!(file.clamp(15, 10), 5);
    assert_eq!(file.clamp(15, 3), 3);
    assert_eq!(file.clamp(20, 1), 0);
    assert_eq!(file.clamp(500, 1), 0);
}

#[test]
fn read_at_stops_at_the_record_end() {
    let image = numbers();
    let file = BoxFile::new(MemFile::new(&image), 10, 20).unwrap();
    let mut buf = [0xffu8; 8];
    assert_eq!(file.read_at(&mut buf, 15), Ok(5));
    assert_eq!(buf, [25, 26, 27, 28, 29, 0xff, 0xff, 0xff]);
    let mut buf = [0xffu8; 4];
    assert_eq!(file.read_at(&mut buf, 20), Ok(0));
    assert_eq!(file.read_at(&mut buf, 4000), Ok(0));
    assert_eq!(buf, [0xff; 4]);
    assert_eq!(file.read_at(&mut buf, 3), Ok(4));
    assert_eq!(buf, [13, 14, 15, 16]);
}

#[test]
fn read_exact_at_refuses_what_passes_the_record_end() {
    let image = numbers();
    let file = BoxFile::new(MemFile::new(&image), 10, 20).unwrap();
    let mut buf = [0xffu8; 4];
    assert_eq!(file.read_exact_at(&mut buf, 17), Err(Error::UnexpectedEof));
    assert_eq!(file.read_exact_at(&mut buf, 21), Err(Error::UnexpectedEof));
    assert_eq!(buf, [0xff; 4]);
    assert_eq!(file.read_exact_at(&mut buf, 16), Ok(()));
    assert_eq!(buf, [26, 27, 28, 29]);
    let mut none = [0u8; 0];
    assert_eq!(file.read_exact_at(&mut none, 20), Ok(()));
}

#[test]
fn streaming_reads_walk_through_the_record() {
    let image = numbers();
    let mut file = BoxFile::new(MemFile::new(&image), 10, 10).unwrap();
    let mut buf = [0u8; 4];
    assert_eq!(file.read(&mut buf), Ok(4));
    assert_eq!(buf, [10, 11, 12, 13]);
    assert_eq!(file.read(&mut buf), Ok(4));
    assert_eq!(buf, [14, 15, 16, 17]);
    assert_eq!(file.read(&mut buf), Ok(2));
    assert_eq!(buf, [18, 19, 16, 17]);
    assert_eq!(file.read(&mut buf), Ok(0));
    let mut first = [0u8; 2];
    assert_eq!(file.read_at(&mut first, 0), Ok(2));
    assert_eq!(first, [10, 11]);
}

#[test]
fn memory_map_exposes_the_record() {
    let image = numbers();
    let file = BoxFile::new(MemFile::new(&image), 10, 20).unwrap();
    let map = file.memory_map().unwrap();
    assert_eq!(&map[..], &image[10..30]);
}

#[test]
fn partial_memory_map_exposes_the_requested_range() {
    let image = numbers();
    let file = BoxFile::new(MemFile::new(&image), 10, 20).unwrap();
    let map = file.partial_memory_map(5, 10).unwrap();
    assert_eq!(&map[..], &image[15..25]);
    let map = file.partial_memory_map(0, 20).unwrap();
    assert_eq!(&map[..], &image[10..30]);
}

#[test]
fn partial_memory_map_is_cut_at_the_record_end() {
    let image = numbers();
    let file = BoxFile::new(MemFile::new(&image), 10, 20).unwrap();
    let map = file.partial_memory_map(15, 50).unwrap();
    assert_eq!(&map[..], &image[25..30]);
    let map = file.partial_memory_map(0, usize::MAX).unwrap();
    assert_eq!(&map[..], &image[10..30]);
    assert!(matches!(file.partial_memory_map(21, 1), Err(Error::UnexpectedEof)));
}

#[test]
fn open_finds_the_first_file_record_of_a_path() {
    let records = vec![
        Record::Directory { path: "a".to_string() },
        Record::File { path: "b".to_string(), offset: 0, length: 1 },
        Record::File { path: "a".to_string(), offset: 2, length: 3 },
        Record::File { path: "a".to_string(), offset: 5, length: 4 },
    ];
    let host = MemFs { files: vec![("c.box".to_string(), numbers())] };
    let fs = BoxFilesystem::new(host, "c.box".to_string(), records);
    assert_eq!(fs.find("a"), Some(2));
    assert_eq!(fs.find("b"), Some(1));
    assert_eq!(fs.find("dir"), None);
    let file = fs.open(Some("a")).unwrap();
    assert_eq!(file.len(), Ok(3));
    let mut buf = [0u8; 3];
    assert_eq!(file.read_exact_at(&mut buf, 0), Ok(()));
    assert_eq!(buf, [2, 3, 4]);
}

#[test]
fn open_of_a_missing_path_is_not_found() {
    let fs = bundle(&[(ERRMODEL_PATH, BLOB_A)]);
    assert!(matches!(fs.0.open(Some("nothing.here")), Err(Error::NotFound)));
    assert!(matches!(fs.0.open(Some("dir")), Err(Error::NotFound)));
    assert!(matches!(fs.0.open(Some("")), Err(Error::NotFound)));
    assert!(matches!(fs.0.open(None), Err(Error::NotFound)));
    assert!(matches!(fs.open(ACCEPTOR_PATH), Err(Error::NotFound)));
}

#[test]
fn open_passes_on_the_failure_to_open_the_container() {
    let (_, records) = container(&[(ERRMODEL_PATH, BLOB_A)]);
    let fs = BoxFilesystem::new(MemFs { files: vec![] }, "gone.bhfst".to_string(), records);
    assert!(matches!(fs.open(Some(ERRMODEL_PATH)), Err(Error::NotFound)));
}

#[test]
fn open_refuses_a_record_that_leaves_the_container() {
    let records = vec![Record::File { path: "big".to_string(), offset: 90, length: 20 }];
    let host = MemFs { files: vec![("c.box".to_string(), numbers())] };
    let fs = BoxFilesystem::new(host, "c.box".to_string(), records);
    assert!(matches!(fs.open(Some("big")), Err(Error::UnexpectedEof)));
}

#[test]
fn each_open_gives_an_independent_handle() {
    let fs = bundle(&[(ERRMODEL_PATH, BLOB_A)]);
    let mut one = fs.open(ERRMODEL_PATH).unwrap();
    let mut two = fs.open(ERRMODEL_PATH).unwrap();
    let mut buf = [0u8; 3];
    assert_eq!(one.read(&mut buf), Ok(3));
    assert_eq!(one.read(&mut buf), Ok(3));
    assert_eq!(&buf, b" er");
    assert_eq!(two.read(&mut buf), Ok(3));
    assert_eq!(&buf, b"FST");
}

#[test]
fn mapping_handles_give_out_the_same_bytes() {
    let direct = MmapRef::Direct(Arc::new(map_bytes(b"direct bytes").unwrap()));
    assert_eq!(direct.bytes(), b"direct bytes");
    assert_eq!(direct.map().bytes(), b"direct bytes");
    assert!(matches!(direct.map(), MmapRef::Direct(_)));
    let dir = tempdir::TempDir::new("mapping").unwrap();
    let temp = MmapRef::Temp(Arc::new(TempMmap::new(map_bytes(b"copied bytes").unwrap(), dir)));
    assert_eq!(temp.bytes(), b"copied bytes");
    assert_eq!(temp.map().bytes(), b"copied bytes");
    assert!(matches!(temp.map(), MmapRef::Temp(_)));
}

#[test]
fn map_shares_one_mapping() {
    let shared = Arc::new(map_bytes(b"shared").unwrap());
    let handle = MmapRef::Direct(Arc::clone(&shared));
    match (handle.map(), handle.map()) {
        (MmapRef::Direct(first), MmapRef::Direct(second)) => {
            assert!(Arc::ptr_eq(&first, &shared));
            assert!(Arc::ptr_eq(&first, &second));
        }
        _ => panic!("a direct mapping stays direct"),
    }
    let dir = tempdir::TempDir::new("mapping").unwrap();
    let held = Arc::new(TempMmap::new(map_bytes(b"copied").unwrap(), dir));
    let handle = MmapRef::Temp(Arc::clone(&held));
    match handle.map() {
        MmapRef::Temp(other) => assert!(Arc::ptr_eq(&other, &held)),
        _ => panic!("a temporary mapping stays temporary"),
    }
}

#[test]
fn temporary_directory_lives_as_long_as_any_mapping_handle() {
    let dir = tempdir::TempDir::new("mapping").unwrap();
    let path = dir.path().to_path_buf();
    assert!(path.exists());
    let first = MmapRef::Temp(Arc::new(TempMmap::new(map_bytes(b"copied").unwrap(), dir)));
    let second = first.map();
    let third = second.map();
    assert!(path.exists());
    drop(first);
    assert!(path.exists());
    drop(third);
    assert!(path.exists());
    assert_eq!(second.bytes(), b"copied");
    drop(second);
    assert!(!path.exists());
}

fn member(name: &str, text: Option<&str>) -> (String, Option<String>) {
    (name.to_string(), text.map(|t| t.to_string()))
}

fn sami() -> SpellerMetadata {
    SpellerMetadata {
        locale: "se".to_string(),
        title: "Davvisamegiella".to_string(),
        description: "Speller for Northern Sami".to_string(),
        author: "Divvun".to_string(),
        version: "1.2.3".to_string(),
    }
}

#[test]
fn text_of_finds_a_member_by_name() {
    let members = vec![member("a", Some("1")), member("b", None), member("c", Some("3")), member("a", Some("4"))];
    assert_eq!(text_of(&members, "a"), Some("1".to_string()));
    assert_eq!(text_of(&members, "b"), None);
    assert_eq!(text_of(&members, "c"), Some("3".to_string()));
    assert_eq!(text_of(&members, "d"), None);
    assert_eq!(text_of(&Vec::new(), "a"), None);
}

#[test]
fn metadata_takes_all_five_members() {
    let members = vec![
        member("version", Some("1.2.3")),
        member("author", Some("Divvun")),
        member("unknown", None),
        member("description", Some("Speller for Northern Sami")),
        member("title", Some("Davvisamegiella")),
        member("locale", Some("se")),
    ];
    assert_eq!(SpellerMetadata::from_members(&members), Some(sami()));
    for missing in 0..members.len() {
        if missing == 2 {
            continue;
        }
        let mut fewer = members.clone();
        fewer.remove(missing);
        assert_eq!(SpellerMetadata::from_members(&fewer), None);
        let mut untyped = members.clone();
        untyped[missing].1 = None;
        assert_eq!(SpellerMetadata::from_members(&untyped), None);
    }
}

#[test]
fn metadata_is_read_from_json() {
    assert_eq!(SpellerMetadata::from_json(META), Some(sami()));
}

#[test]
fn malformed_metadata_is_no_metadata() {
    assert_eq!(SpellerMetadata::from_json(b""), None);
    assert_eq!(SpellerMetadata::from_json(b"{"), None);
    assert_eq!(SpellerMetadata::from_json(b"[1, 2]"), None);
    assert_eq!(SpellerMetadata::from_json(b"\"se\""), None);
    assert_eq!(SpellerMetadata::from_json(b"{}"), None);
    assert_eq!(SpellerMetadata::from_json(b"null"), None);
    assert_eq!(SpellerMetadata::from_json(b"{} trailing"), None);
    assert_eq!(SpellerMetadata::from_json(br#"{"locale": "se"}"#), None);
    assert_eq!(
        SpellerMetadata::from_json(br#"{"locale": 1, "title": "t", "description": "d", "author": "a", "version": "v"}"#),
        None
    );
    assert_eq!(SpellerMetadata::from_json(&[0xff, 0xfe]), None);
}

#[test]
fn metadata_of_an_unopened_file_is_no_metadata() {
    assert_eq!(SpellerMetadata::from_opened(Err::<MemFile, Error>(Error::NotFound)), None);
    assert_eq!(SpellerMetadata::from_opened(Err::<MemFile, Error>(Error::Other)), None);
    assert_eq!(SpellerMetadata::from_opened(Ok(MemFile::new(META))), Some(sami()));
    assert_eq!(SpellerMetadata::from_opened(Ok(MemFile::new(b"not json"))), None);
}

type Archive = BoxSpellerArchive<Blob, Blob>;

#[test]
fn bundle_with_everything_opens() {
    let fs = bundle(&[(METADATA_PATH, META), (ERRMODEL_PATH, BLOB_A), (ACCEPTOR_PATH, BLOB_B)]);
    let archive = Archive::open(&fs).unwrap();
    assert_eq!(archive.metadata(), Some(&sami()));
    let speller = archive.speller();
    assert_eq!(speller.mutator(), &Blob(BLOB_A.to_vec()));
    assert_eq!(speller.lexicon(), &Blob(BLOB_B.to_vec()));
}

#[test]
fn bundle_without_metadata_opens() {
    let fs = bundle(&[(ERRMODEL_PATH, BLOB_A), (ACCEPTOR_PATH, BLOB_B)]);
    let archive = Archive::open(&fs).unwrap();
    assert_eq!(archive.metadata(), None);
    assert_eq!(archive.speller().mutator(), &Blob(BLOB_A.to_vec()));
    assert_eq!(archive.speller().lexicon(), &Blob(BLOB_B.to_vec()));
}

#[test]
fn bundle_with_corrupt_metadata_opens() {
    let fs = bundle(&[(METADATA_PATH, b"{\"locale\": "), (ERRMODEL_PATH, BLOB_A), (ACCEPTOR_PATH, BLOB_B)]);
    let archive = Archive::open(&fs).unwrap();
    assert_eq!(archive.metadata(), None);
}

#[test]
fn bundle_without_acceptor_fails_for_the_acceptor() {
    let fs = bundle(&[(METADATA_PATH, META), (ERRMODEL_PATH, BLOB_A)]);
    assert!(matches!(
        Archive::open(&fs),
        Err(SpellerArchiveError::Transducer(TransducerRole::Acceptor, TransducerError::Io(Error::NotFound)))
    ));
}

#[test]
fn bundle_without_error_model_fails_for_the_error_model() {
    let fs = bundle(&[(METADATA_PATH, META), (ACCEPTOR_PATH, BLOB_B)]);
    assert!(matches!(
        Archive::open(&fs),
        Err(SpellerArchiveError::Transducer(TransducerRole::ErrorModel, TransducerError::Io(Error::NotFound)))
    ));
    let fs = bundle(&[(METADATA_PATH, META)]);
    assert!(matches!(
        Archive::open(&fs),
        Err(SpellerArchiveError::Transducer(TransducerRole::ErrorModel, TransducerError::Io(Error::NotFound)))
    ));
}

#[test]
fn bundle_with_a_corrupt_transducer_fails_for_its_role() {
    let fs = bundle(&[(ERRMODEL_PATH, b"garbage"), (ACCEPTOR_PATH, BLOB_B)]);
    assert!(matches!(
        Archive::open(&fs),
        Err(SpellerArchiveError::Transducer(TransducerRole::ErrorModel, TransducerError::Invalid))
    ));
    let fs = bundle(&[(ERRMODEL_PATH, BLOB_A), (ACCEPTOR_PATH, b"garbage")]);
    assert!(matches!(
        Archive::open(&fs),
        Err(SpellerArchiveError::Transducer(TransducerRole::Acceptor, TransducerError::Invalid))
    ));
}

#[test]
fn assemble_decides_by_the_transducers_alone() {
    let a = || Blob(BLOB_A.to_vec());
    let b = || Blob(BLOB_B.to_vec());
    let archive = Archive::assemble(None, Ok(a()), Ok(b())).unwrap();
    assert_eq!(archive.metadata(), None);
    assert_eq!(archive.speller().mutator(), &a());
    let archive = Archive::assemble(Some(sami()), Ok(a()), Ok(b())).unwrap();
    assert_eq!(archive.metadata(), Some(&sami()));
    assert_eq!(archive.speller().lexicon(), &b());
    assert!(matches!(
        Archive::assemble(Some(sami()), Err(TransducerError::Invalid), Ok(b())),
        Err(SpellerArchiveError::Transducer(TransducerRole::ErrorModel, TransducerError::Invalid))
    ));
    assert!(matches!(
        Archive::assemble(Some(sami()), Ok(a()), Err(TransducerError::Memmap(Error::Other))),
        Err(SpellerArchiveError::Transducer(TransducerRole::Acceptor, TransducerError::Memmap(Error::Other)))
    ));
    assert!(matches!(
        Archive::assemble(None, Err(TransducerError::Invalid), Err(TransducerError::Io(Error::NotFound))),
        Err(SpellerArchiveError::Transducer(TransducerRole::ErrorModel, TransducerError::Invalid))
    ));
}

#[test]
fn speller_is_shared_not_copied() {
    let fs = bundle(&[(ERRMODEL_PATH, BLOB_A), (ACCEPTOR_PATH, BLOB_B)]);
    let archive = Archive::open(&fs).unwrap();
    let one = archive.speller();
    let two = archive.speller();
    assert!(Arc::ptr_eq(&one, &two));
}
