use opendal::{ErrorKind, FoyerConfig, RawStore, WriteOptions};

fn build_backend(root: &str) -> opendal::FsBackend {
    let cfg = FoyerConfig { root: Some(root.to_string()), atomic_write_dir: None };
    cfg.into_builder().builder(foyer::HybridCacheBuilder::new()).build().unwrap()
}

fn plain(mtime_secs: i64) -> WriteOptions {
    WriteOptions { append: false, if_not_exists: false, mtime_secs }
}

fn collect(lister: &mut opendal::Lister) -> Vec<String> {
    let mut out = Vec::new();
    while let Some(e) = lister.next() {
        out.push(e);
    }
    out
}

#[test]
fn lister_yields_every_entry_exactly_once_for_any_page_size() {
    let backend = build_backend("/data");
    let mut store = RawStore::new();
    let names = ["a.txt", "b.txt", "c.txt", "d.txt", "e.txt"];
    for (i, n) in names.iter().enumerate() {
        backend.write_all(&mut store, n, b"x", plain(i as i64)).unwrap();
    }
    let expected: Vec<String> = names.iter().map(|n| format!("/data/{}", n)).collect();
    for page_limit in [1usize, 2, 3, 100] {
        let mut lister = backend.list(&store, "", page_limit).unwrap();
        let got = collect(&mut lister);
        assert_eq!(got, expected, "page size {} changed the listing", page_limit);
        // exhausted: nothing comes back twice
        assert!(lister.next().is_none());
    }
}

#[test]
fn lister_filters_by_prefix() {
    let backend = build_backend("/data");
    let mut store = RawStore::new();
    backend.write_all(&mut store, "logs/one", b"1", plain(0)).unwrap();
    backend.write_all(&mut store, "logs/two", b"2", plain(0)).unwrap();
    backend.write_all(&mut store, "other", b"3", plain(0)).unwrap();
    let mut lister = backend.list(&store, "logs/", 2).unwrap();
    assert_eq!(lister.remaining(), 2);
    let got = collect(&mut lister);
    assert_eq!(got, vec!["/data/logs/one".to_string(), "/data/logs/two".to_string()]);
}

#[test]
fn lister_rejects_rooted_prefix() {
    let backend = build_backend("/data");
    let store = RawStore::new();
    assert!(matches!(backend.list(&store, "/abs", 10), Err(ErrorKind::InvalidInput)));
}

#[test]
fn listing_is_empty_when_nothing_matches() {
    let backend = build_backend("/data");
    let mut store = RawStore::new();
    backend.write_all(&mut store, "a.txt", b"x", plain(0)).unwrap();
    let mut lister = backend.list(&store, "nothing/", 4).unwrap();
    assert_eq!(lister.remaining(), 0);
    assert!(lister.next().is_none());
}

#[test]
fn delete_is_idempotent_on_missing_paths() {
    let backend = build_backend("/data");
    let mut store = RawStore::new();
    let mut deleter = backend.deleter().unwrap();
    deleter.queue("was-never-there.txt").unwrap();
    let results = deleter.flush(&mut store);
    assert_eq!(results.len(), 1);
    // a missing target reports success, not NotFound
    assert_eq!(results[0], Ok(()));
}

#[test]
fn batch_delete_reports_each_item_and_removes_all() {
    let backend = build_backend("/data");
    let mut store = RawStore::new();
    backend.write_all(&mut store, "a.txt", b"1", plain(0)).unwrap();
    backend.write_all(&mut store, "b.txt", b"2", plain(0)).unwrap();
    let mut deleter = backend.deleter().unwrap();
    deleter.queue("a.txt").unwrap();
    deleter.queue("missing.txt").unwrap();
    deleter.queue("b.txt").unwrap();
    let results = deleter.flush(&mut store);
    assert_eq!(results, vec![Ok(()), Ok(()), Ok(())]);
    assert_eq!(backend.read_full(&store, "a.txt"), Err(ErrorKind::NotFound));
    assert_eq!(backend.read_full(&store, "b.txt"), Err(ErrorKind::NotFound));
    // deleting again still succeeds
    let mut deleter = backend.deleter().unwrap();
    deleter.queue("a.txt").unwrap();
    assert_eq!(deleter.flush(&mut store), vec![Ok(())]);
}

#[test]
fn deleter_rejects_malformed_paths() {
    let backend = build_backend("/data");
    let mut deleter = backend.deleter().unwrap();
    assert_eq!(deleter.queue("/abs.txt"), Err(ErrorKind::InvalidInput));
    assert_eq!(deleter.queue(""), Err(ErrorKind::InvalidInput));
}

#[test]
fn listing_after_delete_skips_removed_entries() {
    let backend = build_backend("/data");
    let mut store = RawStore::new();
    backend.write_all(&mut store, "a.txt", b"1", plain(0)).unwrap();
    backend.write_all(&mut store, "b.txt", b"2", plain(0)).unwrap();
    let mut deleter = backend.deleter().unwrap();
    deleter.queue("a.txt").unwrap();
    deleter.flush(&mut store);
    let mut lister = backend.list(&store, "", 10).unwrap();
    assert_eq!(collect(&mut lister), vec!["/data/b.txt".to_string()]);
}
