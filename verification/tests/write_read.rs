use opendal::{ErrorKind, FoyerConfig, RawStore, ReaderState, SeekFrom, WriteOptions, WriterState};

fn build_backend(root: &str, atomic_write_dir: Option<&str>) -> opendal::FsBackend {
    let cfg = FoyerConfig {
        root: Some(root.to_string()),
        atomic_write_dir: atomic_write_dir.map(|s| s.to_string()),
    };
    cfg.into_builder().builder(foyer::HybridCacheBuilder::new()).build().unwrap()
}

fn plain(mtime_secs: i64) -> WriteOptions {
    WriteOptions { append: false, if_not_exists: false, mtime_secs }
}

#[test]
fn round_trip_write_then_read() {
    let backend = build_backend("/data", None);
    let mut store = RawStore::new();
    let bytes = b"the quick brown fox";
    backend.write_all(&mut store, "a.txt", bytes, plain(7)).unwrap();
    let back = backend.read_full(&store, "a.txt").unwrap();
    assert_eq!(back, bytes.to_vec());
}

#[test]
fn round_trip_through_atomic_emulation() {
    let backend = build_backend("/data", Some("/tmp"));
    let mut store = RawStore::new();
    backend.write_all(&mut store, "a.txt", b"hello", plain(7)).unwrap();
    assert_eq!(backend.read_full(&store, "a.txt").unwrap(), b"hello".to_vec());
    // no staging artifact is left behind
    assert!(!store.contains_path("/tmp/a.txt"));
}

#[test]
fn if_not_exists_fails_with_already_exists_and_never_overwrites() {
    let backend = build_backend("/data", None);
    let mut store = RawStore::new();
    backend.write_all(&mut store, "a.txt", b"x", plain(1)).unwrap();
    let opts = WriteOptions { append: false, if_not_exists: true, mtime_secs: 2 };
    let r = backend.write_all(&mut store, "a.txt", b"hello", opts);
    assert_eq!(r, Err(ErrorKind::AlreadyExists));
    assert_eq!(backend.read_full(&store, "a.txt").unwrap(), b"x".to_vec());
}

#[test]
fn if_not_exists_succeeds_on_fresh_path() {
    let backend = build_backend("/data", None);
    let mut store = RawStore::new();
    let opts = WriteOptions { append: false, if_not_exists: true, mtime_secs: 2 };
    backend.write_all(&mut store, "a.txt", b"hello", opts).unwrap();
    assert_eq!(backend.read_full(&store, "a.txt").unwrap(), b"hello".to_vec());
}

#[test]
fn abort_after_partial_write_preserves_destination() {
    let backend = build_backend("/data", Some("/tmp"));
    let mut store = RawStore::new();
    backend.write_all(&mut store, "a.txt", b"old contents", plain(1)).unwrap();
    let mut w = backend.write(&mut store, "a.txt", plain(2)).unwrap();
    w.write(&mut store, b"partial new ").unwrap();
    w.write(&mut store, b"content").unwrap();
    // the destination still holds its prior contents while data is staged
    assert_eq!(backend.read_full(&store, "a.txt").unwrap(), b"old contents".to_vec());
    w.abort(&mut store);
    assert_eq!(w.state(), WriterState::Aborted);
    assert_eq!(backend.read_full(&store, "a.txt").unwrap(), b"old contents".to_vec());
    assert!(!store.contains_path("/tmp/a.txt"));
}

#[test]
fn abort_on_fresh_destination_leaves_it_absent() {
    let backend = build_backend("/data", Some("/tmp"));
    let mut store = RawStore::new();
    let mut w = backend.write(&mut store, "a.txt", plain(2)).unwrap();
    w.write(&mut store, b"partial").unwrap();
    assert_eq!(backend.read_full(&store, "a.txt"), Err(ErrorKind::NotFound));
    w.abort(&mut store);
    assert_eq!(backend.read_full(&store, "a.txt"), Err(ErrorKind::NotFound));
}

#[test]
fn multi_part_write_concatenates() {
    let backend = build_backend("/data", Some("/tmp"));
    let mut store = RawStore::new();
    let mut w = backend.write(&mut store, "a.txt", plain(3)).unwrap();
    w.write(&mut store, b"hello ").unwrap();
    w.write(&mut store, b"world").unwrap();
    w.close(&mut store).unwrap();
    assert_eq!(w.state(), WriterState::Committed);
    assert_eq!(backend.read_full(&store, "a.txt").unwrap(), b"hello world".to_vec());
}

#[test]
fn append_continues_after_existing_contents() {
    let backend = build_backend("/data", None);
    let mut store = RawStore::new();
    backend.write_all(&mut store, "a.txt", b"hello", plain(1)).unwrap();
    let opts = WriteOptions { append: true, if_not_exists: false, mtime_secs: 2 };
    backend.write_all(&mut store, "a.txt", b" world", opts).unwrap();
    assert_eq!(backend.read_full(&store, "a.txt").unwrap(), b"hello world".to_vec());
}

#[test]
fn write_rejects_malformed_paths() {
    let backend = build_backend("/data", None);
    let mut store = RawStore::new();
    assert_eq!(
        backend.write_all(&mut store, "/abs.txt", b"x", plain(1)),
        Err(ErrorKind::InvalidInput)
    );
    assert_eq!(backend.write_all(&mut store, "", b"x", plain(1)), Err(ErrorKind::InvalidInput));
    assert_eq!(
        backend.write_all(&mut store, "dir/", b"x", plain(1)),
        Err(ErrorKind::InvalidInput)
    );
}

#[test]
fn empty_write_creates_empty_object() {
    let backend = build_backend("/data", Some("/tmp"));
    let mut store = RawStore::new();
    let mut w = backend.write(&mut store, "empty.txt", plain(4)).unwrap();
    w.close(&mut store).unwrap();
    assert_eq!(backend.read_full(&store, "empty.txt").unwrap(), Vec::<u8>::new());
}

#[test]
fn reader_seek_and_read() {
    let mut backend = build_backend("/data", None);
    let mut store = RawStore::new();
    backend.write_all(&mut store, "a.txt", b"0123456789", plain(1)).unwrap();
    let mut rd = backend.read(&store, "a.txt").unwrap();
    assert_eq!(rd.state(), ReaderState::Idle);
    assert_eq!(rd.read(4), b"0123".to_vec());
    assert_eq!(rd.state(), ReaderState::Positioned);
    assert_eq!(rd.seek(SeekFrom::Current(2)).unwrap(), 6);
    assert_eq!(rd.read(2), b"67".to_vec());
    assert_eq!(rd.seek(SeekFrom::End(-3)).unwrap(), 7);
    assert_eq!(rd.read(100), b"789".to_vec());
    assert_eq!(rd.state(), ReaderState::Exhausted);
    // reading at the end yields zero further bytes without error
    assert_eq!(rd.read(5), Vec::<u8>::new());
    assert_eq!(rd.seek(SeekFrom::Start(0)).unwrap(), 0);
    assert_eq!(rd.read(10), b"0123456789".to_vec());
    backend.complete_read(rd);
}

#[test]
fn reader_rejects_seek_before_start() {
    let mut backend = build_backend("/data", None);
    let mut store = RawStore::new();
    backend.write_all(&mut store, "a.txt", b"abc", plain(1)).unwrap();
    let mut rd = backend.read(&store, "a.txt").unwrap();
    assert_eq!(rd.seek(SeekFrom::End(-4)), Err(ErrorKind::InvalidInput));
    assert_eq!(rd.seek(SeekFrom::Current(-1)), Err(ErrorKind::InvalidInput));
    assert_eq!(rd.read(3), b"abc".to_vec());
    backend.complete_read(rd);
}

#[test]
fn read_missing_path_reports_not_found() {
    let mut backend = build_backend("/data", None);
    let store = RawStore::new();
    assert!(matches!(backend.read(&store, "missing.txt"), Err(ErrorKind::NotFound)));
    assert_eq!(backend.read_full(&store, "missing.txt"), Err(ErrorKind::NotFound));
}

#[test]
fn stat_reports_size_mode_and_mtime() {
    let backend = build_backend("/data", None);
    let mut store = RawStore::new();
    backend.write_all(&mut store, "a.txt", b"hello", plain(42)).unwrap();
    let md = backend.stat(&store, "a.txt").unwrap();
    assert_eq!(md.mode, opendal::EntryMode::File);
    assert_eq!(md.content_length, 5);
    assert_eq!(md.last_modified_secs, 42);
    assert_eq!(backend.stat(&store, "missing.txt"), Err(ErrorKind::NotFound));
    backend.create_dir(&mut store, "sub", 42).unwrap();
    let md = backend.stat(&store, "sub/").unwrap();
    assert_eq!(md.mode, opendal::EntryMode::Dir);
}

#[test]
fn metadata_renders_last_modified_through_the_calendar() {
    let backend = build_backend("/data", None);
    let mut store = RawStore::new();
    backend.write_all(&mut store, "a.txt", b"hello", plain(1700000000)).unwrap();
    let md = backend.stat(&store, "a.txt").unwrap();
    let rendered = md.last_modified_rfc3339().unwrap();
    let expected = chrono::DateTime::<chrono::Utc>::from_timestamp(1700000000, 0)
        .unwrap()
        .to_rfc3339();
    assert_eq!(rendered, expected);
    assert!(rendered.starts_with("2023-11-14T"));
}

#[test]
fn copy_and_rename_require_destination_parent() {
    let backend = build_backend("/data", None);
    let mut store = RawStore::new();
    backend.write_all(&mut store, "a.txt", b"payload", plain(1)).unwrap();
    assert_eq!(backend.copy(&mut store, "a.txt", "sub/b.txt"), Err(ErrorKind::NotFound));
    assert_eq!(backend.rename(&mut store, "a.txt", "sub/b.txt"), Err(ErrorKind::NotFound));
    backend.create_dir(&mut store, "sub", 1).unwrap();
    backend.copy(&mut store, "a.txt", "sub/b.txt").unwrap();
    assert_eq!(backend.read_full(&store, "sub/b.txt").unwrap(), b"payload".to_vec());
    backend.rename(&mut store, "a.txt", "sub/c.txt").unwrap();
    assert_eq!(backend.read_full(&store, "sub/c.txt").unwrap(), b"payload".to_vec());
}

#[test]
fn copy_and_rename_move_contents() {
    let backend = build_backend("/data", None);
    let mut store = RawStore::new();
    backend.write_all(&mut store, "a.txt", b"payload", plain(1)).unwrap();
    backend.copy(&mut store, "a.txt", "b.txt").unwrap();
    assert_eq!(backend.read_full(&store, "a.txt").unwrap(), b"payload".to_vec());
    assert_eq!(backend.read_full(&store, "b.txt").unwrap(), b"payload".to_vec());
    backend.rename(&mut store, "a.txt", "c.txt").unwrap();
    assert_eq!(backend.read_full(&store, "a.txt"), Err(ErrorKind::NotFound));
    assert_eq!(backend.read_full(&store, "c.txt").unwrap(), b"payload".to_vec());
    assert_eq!(backend.copy(&mut store, "gone.txt", "d.txt"), Err(ErrorKind::NotFound));
    assert_eq!(backend.rename(&mut store, "gone.txt", "d.txt"), Err(ErrorKind::NotFound));
}
