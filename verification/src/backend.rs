//! The backend builder and the backend handle: configuration validation,
//! root resolution, capability computation, buffer-pool allocation and
//! fallback-directory resolution, and the single-call operations of the
//! accessor contract (stat, create_dir, copy, rename).

use vstd::prelude::*;
use crate::capability::{Capability, fs_native_capability, spec_fs_native_capability,
    effective_capability, spec_effective_capability};
use crate::error::ErrorKind;
use crate::metadata::{EntryMode, Metadata};
use crate::paths;
use crate::pool::BufferPool;
use crate::store::RawStore;

verus! {

/// How many buffers the backend's pool retains at most.
pub const POOL_BOUND: usize = 16;

/// The initial capacity of each pooled buffer, tuned for the backend's
/// typical I/O size.
pub const POOL_INITIAL_CAPACITY: usize = 262144;

/// The backend kinds the layer knows.
#[derive(Clone, Copy, Debug, PartialEq, Eq, Structural)]
pub enum Scheme {
    Fs,
}

/// Immutable metadata bundle for one backend instance: its scheme, its
/// resolved root, its native capability, and whether one instance may be
/// shared across threads. Created once at build time, never mutated.
pub struct AccessorInfo {
    pub scheme: Scheme,
    pub root: String,
    pub native_capability: Capability,
    pub shared: bool,
}

/// The externally supplied cache resource a backend may be configured
/// with. The layer carries it opaquely; constructing the cache itself is
/// asynchronous I/O and stays outside the layer.
#[verifier::external_type_specification]
#[verifier::external_body]
#[verifier::reject_recursive_types(K)]
#[verifier::reject_recursive_types(V)]
pub struct ExHybridCacheBuilder<K, V>(foyer::HybridCacheBuilder<K, V>);

/// User configuration consumed by the builder.
pub struct FoyerConfig {
    /// Root of the backend namespace; defaults to the filesystem root.
    pub root: Option<String>,
    /// Side directory used to emulate atomic writes; unset disables the
    /// emulation.
    pub atomic_write_dir: Option<String>,
}

impl Default for FoyerConfig {
    /// The default configuration leaves every option unset.
    fn default() -> (r: FoyerConfig)
        ensures
            r.root is None,
            r.atomic_write_dir is None,
    {
        FoyerConfig { root: None, atomic_write_dir: None }
    }
}

impl FoyerConfig {
    /// Turns the configuration into its builder.
    pub fn into_builder(self) -> (r: FoyerBuilder)
        ensures
            r.spec_config() == self,
            r.spec_has_cache() == false,
    {
        FoyerBuilder { config: self, cache: None }
    }
}

/// Consumes user configuration plus the externally supplied cache
/// resource and produces one backend handle. Holds no state beyond its
/// inputs; consumed exactly once by `build`.
pub struct FoyerBuilder {
    config: FoyerConfig,
    cache: Option<foyer::HybridCacheBuilder<String, Vec<u8>>>,
}

impl FoyerBuilder {
    pub closed spec fn spec_config(&self) -> FoyerConfig {
        self.config
    }

    pub closed spec fn spec_has_cache(&self) -> bool {
        self.cache is Some
    }

    /// Supplies the externally built cache resource.
    pub fn builder(self, builder: foyer::HybridCacheBuilder<String, Vec<u8>>) -> (r: Self)
        ensures
            r.spec_config() == self.spec_config(),
            r.spec_has_cache(),
    {
        FoyerBuilder { config: self.config, cache: Some(builder) }
    }

    /// Validates the configuration, resolves the root, computes the
    /// native capability, allocates the buffer pool, resolves the
    /// atomic-write fallback directory, and assembles the backend.
    pub fn build(self) -> (r: Result<FsBackend, ErrorKind>)
        ensures
            r is Ok <==> self.spec_has_cache() && spec_root_ok(self.spec_config())
                && spec_fallback_ok(self.spec_config()),
            r matches Err(e) ==> e == ErrorKind::Config,
            r matches Ok(b) ==> {
                &&& b.core.wf()
                &&& b.core.root@ == spec_build_root(self.spec_config())
                &&& b.core.info.scheme == Scheme::Fs
                &&& b.core.info.root@ == spec_build_root(self.spec_config())
                &&& b.core.info.native_capability == spec_fs_native_capability()
                &&& b.core.info.shared == spec_fs_native_capability().shared
                &&& spec_fallback_view(b.core.atomic_write_dir) == spec_fallback_dir(
                    self.spec_config(),
                    spec_fs_native_capability(),
                )
                &&& b.core.buf_pool.spec_size() == 0
                &&& b.core.buf_pool.spec_bound() == POOL_BOUND
                &&& b.core.buf_pool.spec_initial_capacity() == POOL_INITIAL_CAPACITY
            },
    {
        let cache = match self.cache {
            Some(c) => c,
            None => {
                return Err(ErrorKind::Config);
            },
        };
        let root: String = match self.config.root {
            Some(r) => {
                if !paths::is_abs_path(r.as_str()) {
                    return Err(ErrorKind::Config);
                }
                paths::normalize_dir(r.as_str())
            },
            None => {
                let r = String::from_str("/");
                proof {
                    reveal_strlit("/");
                    assert(r@ =~= seq!['/']);
                }
                r
            },
        };
        let native = fs_native_capability();
        let atomic_write_dir: Option<String> = match self.config.atomic_write_dir {
            Some(d) => {
                if !paths::is_abs_path(d.as_str()) {
                    return Err(ErrorKind::Config);
                }
                let nd = paths::normalize_dir(d.as_str());
                if native.rename && !paths::starts_with(root.as_str(), nd.as_str())
                    && !paths::starts_with(nd.as_str(), root.as_str()) {
                    Some(nd)
                } else {
                    None
                }
            },
            None => None,
        };
        let info = AccessorInfo {
            scheme: Scheme::Fs,
            root: root.clone(),
            native_capability: native,
            shared: native.shared,
        };
        let core = FsCore {
            info,
            root,
            atomic_write_dir,
            buf_pool: BufferPool::new(POOL_BOUND, POOL_INITIAL_CAPACITY),
            cache: Some(cache),
        };
        Ok(FsBackend { core })
    }
}

/// The view of a resolved fallback directory.
pub open spec fn spec_fallback_view(d: Option<String>) -> Option<Seq<char>> {
    match d {
        Some(s) => Some(s@),
        None => None,
    }
}

/// Whether the configured root is acceptable: unset, or absolute.
pub open spec fn spec_root_ok(cfg: FoyerConfig) -> bool {
    match cfg.root {
        Some(r) => paths::spec_abs_path(r@),
        None => true,
    }
}

/// The resolved root: the configured one in directory form, or the
/// filesystem root.
pub open spec fn spec_build_root(cfg: FoyerConfig) -> Seq<char> {
    match cfg.root {
        Some(r) => paths::spec_normalize_dir(r@),
        None => seq!['/'],
    }
}

/// Whether the configured fallback directory is acceptable: unset, or
/// absolute. A directory that cannot back the emulation (no native rename
/// to move with, or a namespace overlapping the root's) is not an error:
/// the fallback is disabled and the capability downgraded.
pub open spec fn spec_fallback_ok(cfg: FoyerConfig) -> bool {
    match cfg.atomic_write_dir {
        Some(d) => paths::spec_abs_path(d@),
        None => true,
    }
}

/// The resolved fallback directory: the configured one in directory form,
/// kept only when the backend's native rename can serve as the commit
/// move and the fallback namespace cannot collide with the destination
/// namespace.
pub open spec fn spec_fallback_dir(cfg: FoyerConfig, native: Capability) -> Option<Seq<char>> {
    match cfg.atomic_write_dir {
        Some(d) => {
            let nd = paths::spec_normalize_dir(d@);
            if native.rename && paths::spec_prefix_free(spec_build_root(cfg), nd) {
                Some(nd)
            } else {
                None
            }
        },
        None => None,
    }
}

/// Long-lived state of one configured backend: its info, resolved root,
/// resolved atomic-write fallback directory, buffer pool, and the carried
/// external cache resource.
pub struct FsCore {
    pub info: AccessorInfo,
    pub root: String,
    pub atomic_write_dir: Option<String>,
    pub buf_pool: BufferPool,
    pub cache: Option<foyer::HybridCacheBuilder<String, Vec<u8>>>,
}

impl FsCore {
    /// Build-time facts every operation relies on: the root is a
    /// normalized absolute directory; a resolved fallback directory is a
    /// normalized absolute directory whose namespace is prefix-free with
    /// the root's and whose commit move is backed by native rename; the
    /// pool is well formed.
    pub open spec fn wf(&self) -> bool {
        &&& self.buf_pool.wf()
        &&& paths::spec_abs_path(self.root@)
        &&& paths::spec_ends_slash(self.root@)
        &&& self.info.root@ == self.root@
        &&& match self.atomic_write_dir {
            Some(d) => {
                &&& paths::spec_abs_path(d@)
                &&& paths::spec_ends_slash(d@)
                &&& paths::spec_prefix_free(self.root@, d@)
                &&& self.info.native_capability.rename
            },
            None => true,
        }
    }

    /// Whether the atomic-write emulation is active.
    pub open spec fn spec_atomic(&self) -> bool {
        self.atomic_write_dir is Some
    }

    /// The effective capability of this backend.
    pub open spec fn spec_capability(&self) -> Capability {
        spec_effective_capability(self.info.native_capability, self.spec_atomic())
    }

    /// The full path of a relative one.
    pub open spec fn spec_full(&self, rel: Seq<char>) -> Seq<char> {
        self.root@ + rel
    }
}

/// The public backend handle implementing the accessor contract over one
/// backend core.
pub struct FsBackend {
    pub core: FsCore,
}

impl FsBackend {
    /// Read-only introspection metadata of this backend.
    pub fn info(&self) -> (r: &AccessorInfo)
        ensures
            r == &self.core.info,
    {
        &self.core.info
    }

    /// The effective capability exposed to callers: native support
    /// combined with available emulation fallbacks.
    pub fn capability(&self) -> (r: Capability)
        ensures
            r == self.core.spec_capability(),
    {
        effective_capability(self.core.info.native_capability, match &self.core.atomic_write_dir {
            Some(_) => true,
            None => false,
        })
    }

    /// Resolves a relative path against the root.
    pub fn full_path(&self, rel: &str) -> (r: String)
        ensures
            r@ == self.core.spec_full(rel@),
    {
        paths::join(self.core.root.as_str(), rel)
    }

    /// The error a stat call reports when it cannot succeed.
    pub open spec fn spec_stat_err(&self, rel: Seq<char>) -> ErrorKind {
        if !self.core.spec_capability().stat {
            ErrorKind::Unsupported
        } else if !paths::spec_rel_path(rel) {
            ErrorKind::InvalidInput
        } else {
            ErrorKind::NotFound
        }
    }

    /// Stats one path: reports its inferred kind, size and last-modified
    /// time. Fails fast as unsupported outside the effective capability,
    /// rejects malformed paths, and reports a missing target.
    pub fn stat(&self, store: &RawStore, rel: &str) -> (r: Result<Metadata, ErrorKind>)
        requires
            store.wf(),
            self.core.wf(),
        ensures
            match r {
                Ok(m) => {
                    &&& self.core.spec_capability().stat
                    &&& paths::spec_rel_path(rel@)
                    &&& store@.contains_key(self.core.spec_full(rel@))
                    &&& m.content_length == store@[self.core.spec_full(rel@)].data.len()
                    &&& m.last_modified_secs == store@[self.core.spec_full(rel@)].mtime_secs
                    &&& m.mode == (if paths::spec_ends_slash(rel@) {
                        EntryMode::Dir
                    } else {
                        EntryMode::File
                    })
                },
                Err(e) => {
                    &&& e == self.spec_stat_err(rel@)
                    &&& !(self.core.spec_capability().stat && paths::spec_rel_path(rel@)
                        && store@.contains_key(self.core.spec_full(rel@)))
                },
            },
    {
        if !self.capability().stat {
            return Err(ErrorKind::Unsupported);
        }
        if !paths::is_rel_path(rel) {
            return Err(ErrorKind::InvalidInput);
        }
        let full = self.full_path(rel);
        match store.read_file(full.as_str()) {
            None => Err(ErrorKind::NotFound),
            Some(f) => {
                let mode = if paths::ends_slash(rel) {
                    EntryMode::Dir
                } else {
                    EntryMode::File
                };
                Ok(Metadata {
                    mode,
                    content_length: f.0.len() as u64,
                    last_modified_secs: f.1,
                })
            },
        }
    }

    /// Creates a directory marker under the root.
    pub fn create_dir(&self, store: &mut RawStore, rel: &str, mtime_secs: i64) -> (r: Result<
        (),
        ErrorKind,
    >)
        requires
            old(store).wf(),
            self.core.wf(),
        ensures
            final(store).wf(),
            match r {
                Ok(()) => {
                    &&& self.core.spec_capability().create_dir
                    &&& paths::spec_rel_path(rel@)
                    &&& final(store)@ == old(store)@.insert(
                        paths::spec_normalize_dir(self.core.spec_full(rel@)),
                        crate::store::FileSnap { data: Seq::empty(), mtime_secs: mtime_secs as int },
                    )
                },
                Err(e) => {
                    &&& final(store)@ == old(store)@
                    &&& final(store).order_view() == old(store).order_view()
                    &&& e == (if !self.core.spec_capability().create_dir {
                        ErrorKind::Unsupported
                    } else {
                        ErrorKind::InvalidInput
                    })
                    &&& !(self.core.spec_capability().create_dir && paths::spec_rel_path(rel@))
                },
            },
    {
        if !self.capability().create_dir {
            return Err(ErrorKind::Unsupported);
        }
        if !paths::is_rel_path(rel) {
            return Err(ErrorKind::InvalidInput);
        }
        let full = self.full_path(rel);
        let dir = paths::normalize_dir(full.as_str());
        store.set(dir.as_str(), Vec::new(), mtime_secs);
        proof {
            assert(paths::spec_normalize_dir(self.core.spec_full(rel@)) == dir@);
        }
        Ok(())
    }

    /// The error a copy or rename call reports when it cannot succeed.
    pub open spec fn spec_transfer_err(
        &self,
        gate: bool,
        src: Seq<char>,
        dst: Seq<char>,
    ) -> ErrorKind {
        if !gate {
            ErrorKind::Unsupported
        } else if !(paths::spec_rel_path(src) && paths::spec_rel_path(dst)) {
            ErrorKind::InvalidInput
        } else {
            ErrorKind::NotFound
        }
    }


    /// A destination's parent directory must already be stored: when the
    /// destination path has a separator, the directory marker up to and
    /// including the last one must exist under the root. A destination
    /// directly under the root needs no marker.
    pub open spec fn spec_dst_parent_ok(
        m: Map<Seq<char>, crate::store::FileSnap>,
        root: Seq<char>,
        rel: Seq<char>,
    ) -> bool {
        forall|i: int| #![trigger rel[i]]
            (0 <= i < rel.len() && rel[i] == '/' && (forall|j: int|
                i < j < rel.len() ==> rel[j] != '/')) ==> m.contains_key(
                root + rel.subrange(0, i + 1),
            )
    }

    /// Whether the destination's parent directory exists.
    fn dst_parent_ok(&self, store: &RawStore, rel: &str) -> (r: bool)
        requires
            store.wf(),
            self.core.wf(),
        ensures
            r == FsBackend::spec_dst_parent_ok(store@, self.core.root@, rel@),
    {
        let n = rel.unicode_len();
        match paths::find_last_slash(rel) {
            None => true,
            Some(i) => {
                let parent_rel = rel.substring_char(0, i + 1);
                let parent_full = self.full_path(parent_rel);
                let c = store.contains_path(parent_full.as_str());
                proof {
                    let rv = rel@;
                    assert forall|i2: int|
                        (0 <= i2 < rv.len() && rv[i2] == '/' && (forall|j: int|
                            i2 < j < rv.len() ==> rv[j] != '/')) implies i2 == i as int by {
                        if i2 < i as int {
                            assert(rv[i as int] == '/');
                        }
                    }
                    assert(parent_full@ == self.core.root@ + rv.subrange(0, i + 1));
                }
                c
            },
        }
    }

    /// Copies one object to a new path, replacing any destination object.
    /// Fails fast as unsupported outside the effective capability, rejects
    /// malformed paths, and reports a missing source.
    pub fn copy(&self, store: &mut RawStore, src: &str, dst: &str) -> (r: Result<(), ErrorKind>)
        requires
            old(store).wf(),
            self.core.wf(),
        ensures
            final(store).wf(),
            match r {
                Ok(()) => {
                    &&& self.core.spec_capability().copy
                    &&& paths::spec_rel_path(src@) && paths::spec_rel_path(dst@)
                    &&& old(store)@.contains_key(self.core.spec_full(src@))
                    &&& FsBackend::spec_dst_parent_ok(old(store)@, self.core.root@, dst@)
                    &&& final(store)@ == old(store)@.insert(
                        self.core.spec_full(dst@),
                        old(store)@[self.core.spec_full(src@)],
                    )
                },
                Err(e) => {
                    &&& final(store)@ == old(store)@
                    &&& e == self.spec_transfer_err(self.core.spec_capability().copy, src@, dst@)
                    &&& !(self.core.spec_capability().copy && paths::spec_rel_path(src@)
                        && paths::spec_rel_path(dst@) && old(store)@.contains_key(
                        self.core.spec_full(src@),
                    ) && FsBackend::spec_dst_parent_ok(old(store)@, self.core.root@, dst@))
                },
            },
    {
        if !self.capability().copy {
            return Err(ErrorKind::Unsupported);
        }
        if !paths::is_rel_path(src) || !paths::is_rel_path(dst) {
            return Err(ErrorKind::InvalidInput);
        }
        if !self.dst_parent_ok(store, dst) {
            return Err(ErrorKind::NotFound);
        }
        let full_src = self.full_path(src);
        let full_dst = self.full_path(dst);
        match store.read_file(full_src.as_str()) {
            None => Err(ErrorKind::NotFound),
            Some(f) => {
                store.set(full_dst.as_str(), f.0, f.1);
                proof {
                    assert(final(store)@ =~= old(store)@.insert(
                        self.core.spec_full(dst@),
                        old(store)@[self.core.spec_full(src@)],
                    ));
                }
                Ok(())
            },
        }
    }

    /// Renames one object in a single atomic step of the backend's native
    /// move primitive. Fails fast as unsupported outside the effective
    /// capability, rejects malformed paths, and reports a missing source.
    pub fn rename(&self, store: &mut RawStore, src: &str, dst: &str) -> (r: Result<(), ErrorKind>)
        requires
            old(store).wf(),
            self.core.wf(),
        ensures
            final(store).wf(),
            match r {
                Ok(()) => {
                    &&& self.core.spec_capability().rename
                    &&& paths::spec_rel_path(src@) && paths::spec_rel_path(dst@)
                    &&& old(store)@.contains_key(self.core.spec_full(src@))
                    &&& FsBackend::spec_dst_parent_ok(old(store)@, self.core.root@, dst@)
                    &&& final(store)@ == old(store)@.remove(self.core.spec_full(src@)).insert(
                        self.core.spec_full(dst@),
                        old(store)@[self.core.spec_full(src@)],
                    )
                },
                Err(e) => {
                    &&& final(store)@ == old(store)@
                    &&& e == self.spec_transfer_err(self.core.spec_capability().rename, src@, dst@)
                    &&& !(self.core.spec_capability().rename && paths::spec_rel_path(src@)
                        && paths::spec_rel_path(dst@) && old(store)@.contains_key(
                        self.core.spec_full(src@),
                    ) && FsBackend::spec_dst_parent_ok(old(store)@, self.core.root@, dst@))
                },
            },
    {
        if !self.capability().rename {
            return Err(ErrorKind::Unsupported);
        }
        if !paths::is_rel_path(src) || !paths::is_rel_path(dst) {
            return Err(ErrorKind::InvalidInput);
        }
        if !self.dst_parent_ok(store, dst) {
            return Err(ErrorKind::NotFound);
        }
        let full_src = self.full_path(src);
        let full_dst = self.full_path(dst);
        if store.rename_entry(full_src.as_str(), full_dst.as_str()) {
            Ok(())
        } else {
            Err(ErrorKind::NotFound)
        }
    }
}

} // verus!
