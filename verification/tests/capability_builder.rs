use opendal::capability::{effective_capability, fs_native_capability};
use opendal::{Capability, ErrorKind, FoyerConfig, RawStore, Scheme};

fn fresh_builder() -> foyer::HybridCacheBuilder<String, Vec<u8>> {
    foyer::HybridCacheBuilder::new()
}

fn build_backend(root: &str, atomic_write_dir: Option<&str>) -> opendal::FsBackend {
    let cfg = FoyerConfig {
        root: Some(root.to_string()),
        atomic_write_dir: atomic_write_dir.map(|s| s.to_string()),
    };
    cfg.into_builder().builder(fresh_builder()).build().unwrap()
}

#[test]
fn effective_never_claims_if_not_exists_by_emulation() {
    let none = Capability::none();
    let eff = effective_capability(none, true);
    assert!(!eff.write_with_if_not_exists);
    let native = fs_native_capability();
    let eff = effective_capability(native, true);
    assert_eq!(eff.write_with_if_not_exists, native.write_with_if_not_exists);
}

#[test]
fn effective_rename_requires_native_rename() {
    let none = Capability::none();
    let eff = effective_capability(none, true);
    assert!(!eff.rename);
    assert!(!eff.write_can_atomic);
}

#[test]
fn effective_atomic_write_claimed_only_with_fallback_and_rename() {
    let native = fs_native_capability();
    assert!(!native.write_can_atomic);
    let eff = effective_capability(native, false);
    assert!(!eff.write_can_atomic);
    let eff = effective_capability(native, true);
    assert!(eff.write_can_atomic);
    let mut no_rename = native;
    no_rename.rename = false;
    let eff = effective_capability(no_rename, true);
    assert!(!eff.write_can_atomic);
}

#[test]
fn rename_fails_unsupported_without_native_rename() {
    // a backend kind without native rename and no fallback path exposes
    // rename: false, and the call fails fast as unsupported
    let mut native = fs_native_capability();
    native.rename = false;
    let core = opendal::FsCore {
        info: opendal::AccessorInfo {
            scheme: Scheme::Fs,
            root: "/data/".to_string(),
            native_capability: native,
            shared: native.shared,
        },
        root: "/data/".to_string(),
        atomic_write_dir: None,
        buf_pool: opendal::BufferPool::new(16, 1024),
        cache: None,
    };
    let backend = opendal::FsBackend { core };
    assert!(!backend.capability().rename);
    let mut store = RawStore::new();
    assert_eq!(backend.rename(&mut store, "a.txt", "b.txt"), Err(ErrorKind::Unsupported));
}

#[test]
fn build_fails_without_cache_resource() {
    let cfg = FoyerConfig { root: Some("/data".to_string()), atomic_write_dir: None };
    let r = cfg.into_builder().build();
    assert!(matches!(r, Err(ErrorKind::Config)));
}

#[test]
fn build_fails_on_relative_root() {
    let cfg = FoyerConfig { root: Some("data".to_string()), atomic_write_dir: None };
    let r = cfg.into_builder().builder(fresh_builder()).build();
    assert!(matches!(r, Err(ErrorKind::Config)));
}

#[test]
fn build_normalizes_root_and_defaults() {
    let b = build_backend("/data", None);
    assert_eq!(b.info().root, "/data/");
    assert_eq!(b.info().scheme, Scheme::Fs);
    assert!(b.info().shared);
    let cfg = FoyerConfig { root: None, atomic_write_dir: None };
    let b = cfg.into_builder().builder(fresh_builder()).build().unwrap();
    assert_eq!(b.info().root, "/");
}

#[test]
fn build_disables_overlapping_fallback_dir() {
    // a fallback directory inside the root namespace cannot guarantee
    // collision-free staging: the fallback is disabled, not an error
    let b = build_backend("/data", Some("/data/tmp"));
    assert!(!b.capability().write_can_atomic);
    // a disjoint one is kept and the capability upgraded
    let b = build_backend("/data", Some("/tmp"));
    assert!(b.capability().write_can_atomic);
}

#[test]
fn build_rejects_relative_fallback_dir() {
    let cfg = FoyerConfig {
        root: Some("/data".to_string()),
        atomic_write_dir: Some("tmp".to_string()),
    };
    let r = cfg.into_builder().builder(fresh_builder()).build();
    assert!(matches!(r, Err(ErrorKind::Config)));
}

#[test]
fn error_kind_names() {
    assert_eq!(ErrorKind::NotFound.name(), "NotFound");
    assert_eq!(ErrorKind::AlreadyExists.name(), "AlreadyExists");
    assert_eq!(ErrorKind::Unsupported.name(), "Unsupported");
    assert_eq!(ErrorKind::InvalidInput.name(), "InvalidInput");
    assert_eq!(ErrorKind::Config.name(), "Config");
    assert_eq!(ErrorKind::Backend.name(), "Backend");
    assert_eq!(ErrorKind::Cancelled.name(), "Cancelled");
    assert_eq!(ErrorKind::PermissionDenied.name(), "PermissionDenied");
}

#[test]
fn pool_never_exceeds_bound() {
    let mut pool = opendal::BufferPool::new(2, 8);
    assert_eq!(pool.size(), 0);
    let a = pool.checkout();
    let b = pool.checkout();
    let c = pool.checkout();
    assert_eq!(pool.size(), 0);
    assert!(pool.release(a));
    assert!(pool.release(b));
    // the bound is reached: the third buffer is dropped
    assert!(!pool.release(c));
    assert_eq!(pool.size(), 2);
    assert!(pool.size() <= pool.bound());
}

#[test]
fn pool_drops_overgrown_buffers() {
    let mut pool = opendal::BufferPool::new(4, 8);
    let mut big = pool.checkout();
    for _ in 0..100 {
        big.push(0u8);
    }
    // grown past four times the initial capacity: dropped on release
    assert!(!pool.release(big));
    assert_eq!(pool.size(), 0);
    let small = pool.checkout();
    assert!(pool.release(small));
    assert_eq!(pool.size(), 1);
}
