//! The flag set a backend declares for the operations and operation
//! variants it natively supports, and the rule that derives from it the
//! effective capability exposed to callers.

use vstd::prelude::*;

verus! {

/// Advisory flags describing which operations and operation variants a
/// backend supports. For the *native* capability the flags describe the
/// backend's own primitives; the layer exposes a derived effective
/// capability that may enable emulated variants, but never claims more
/// than an emulation can guarantee.
#[derive(Clone, Copy, Debug, PartialEq, Eq, Structural)]
pub struct Capability {
    pub stat: bool,
    pub stat_has_content_length: bool,
    pub stat_has_last_modified: bool,
    pub read: bool,
    pub write: bool,
    pub write_can_empty: bool,
    pub write_can_append: bool,
    pub write_can_multi: bool,
    pub write_with_if_not_exists: bool,
    pub write_can_atomic: bool,
    pub create_dir: bool,
    pub delete: bool,
    pub list: bool,
    pub copy: bool,
    pub rename: bool,
    pub blocking: bool,
    pub shared: bool,
}

impl Capability {
    /// The empty capability: no operation supported.
    pub fn none() -> (r: Capability)
        ensures
            r == Capability::spec_none(),
    {
        Capability {
            stat: false,
            stat_has_content_length: false,
            stat_has_last_modified: false,
            read: false,
            write: false,
            write_can_empty: false,
            write_can_append: false,
            write_can_multi: false,
            write_with_if_not_exists: false,
            write_can_atomic: false,
            create_dir: false,
            delete: false,
            list: false,
            copy: false,
            rename: false,
            blocking: false,
            shared: false,
        }
    }

    pub open spec fn spec_none() -> Capability {
        Capability {
            stat: false,
            stat_has_content_length: false,
            stat_has_last_modified: false,
            read: false,
            write: false,
            write_can_empty: false,
            write_can_append: false,
            write_can_multi: false,
            write_with_if_not_exists: false,
            write_can_atomic: false,
            create_dir: false,
            delete: false,
            list: false,
            copy: false,
            rename: false,
            blocking: false,
            shared: false,
        }
    }
}

/// The static native capability table for the posix-like filesystem
/// backend kind. Not user-configurable.
pub open spec fn spec_fs_native_capability() -> Capability {
    Capability {
        stat: true,
        stat_has_content_length: true,
        stat_has_last_modified: true,
        read: true,
        write: true,
        write_can_empty: true,
        write_can_append: true,
        write_can_multi: true,
        write_with_if_not_exists: true,
        write_can_atomic: false,
        create_dir: true,
        delete: true,
        list: true,
        copy: true,
        rename: true,
        blocking: true,
        shared: true,
    }
}

/// The static native capability table for the posix-like filesystem backend.
pub fn fs_native_capability() -> (r: Capability)
    ensures
        r == spec_fs_native_capability(),
{
    Capability {
        stat: true,
        stat_has_content_length: true,
        stat_has_last_modified: true,
        read: true,
        write: true,
        write_can_empty: true,
        write_can_append: true,
        write_can_multi: true,
        write_with_if_not_exists: true,
        write_can_atomic: false,
        create_dir: true,
        delete: true,
        list: true,
        copy: true,
        rename: true,
        blocking: true,
        shared: true,
    }
}

/// What the effective capability must be, given the native capability and
/// whether a usable atomic-write fallback directory was established at
/// build time.
///
/// A feature is effective if natively supported or an emulation exists;
/// an emulation never claims semantics it cannot guarantee:
/// - `write_with_if_not_exists` is never claimed by emulation: a
///   check-then-write emulation races with concurrent writers, so only a
///   backend-native precondition write may claim it.
/// - `rename` and `copy` have no emulation: without the native primitive
///   they stay unclaimed and the call fails as unsupported.
/// - `write_can_atomic` is claimed for an emulating backend only when a
///   usable fallback directory was established *and* the backend's native
///   `rename` is available and atomic, since the commit move relies on it.
pub open spec fn spec_effective_capability(native: Capability, atomic_fallback: bool) -> Capability {
    Capability {
        write_can_atomic: native.write_can_atomic || (atomic_fallback && native.rename),
        ..native
    }
}

/// Computes the capability exposed to callers from the backend's native
/// capability and the availability of the atomic-write fallback.
pub fn effective_capability(native: Capability, atomic_fallback: bool) -> (r: Capability)
    ensures
        r == spec_effective_capability(native, atomic_fallback),
{
    Capability {
        write_can_atomic: native.write_can_atomic || (atomic_fallback && native.rename),
        ..native
    }
}

/// Emulations never widen the precondition-write claim: the effective
/// capability claims `write_with_if_not_exists` only where the backend
/// natively guarantees it, so a write under that precondition can fail
/// deterministically on an existing path and never overwrite.
pub proof fn lemma_if_not_exists_never_emulated(native: Capability, atomic_fallback: bool)
    ensures
        spec_effective_capability(native, atomic_fallback).write_with_if_not_exists
            ==> native.write_with_if_not_exists,
{
}

/// `rename` has no emulation: a backend without the native primitive
/// exposes `rename: false` whatever fallback directory is configured.
pub proof fn lemma_rename_never_emulated(native: Capability, atomic_fallback: bool)
    ensures
        !native.rename ==> !spec_effective_capability(native, atomic_fallback).rename,
{
}

/// Emulated atomic write is never claimed without the native rename that
/// serves as its commit move: a fallback directory alone does not make
/// writes atomic.
pub proof fn lemma_atomic_needs_native_rename(native: Capability, atomic_fallback: bool)
    ensures
        !native.write_can_atomic && !native.rename
            ==> !spec_effective_capability(native, atomic_fallback).write_can_atomic,
{
}

} // verus!
