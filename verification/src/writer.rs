//! The write driver: append-if-capable, multi-part incremental writes,
//! the if-not-exists precondition checked at open time, and the
//! atomic-write emulation that stages data at a temporary path in the
//! fallback directory and commits it with the backend's native atomic
//! move. Until commit, the destination path never changes; on abort the
//! staged artifact is removed.

use vstd::prelude::*;
use crate::backend::FsBackend;
use crate::error::ErrorKind;
use crate::paths;
use crate::store::{FileSnap, RawStore};

verus! {

/// The states of one write operation.
#[derive(Clone, Copy, Debug, PartialEq, Eq, Structural)]
pub enum WriterState {
    Open,
    Committed,
    Aborted,
}

/// Options for one write operation.
#[derive(Clone, Copy, Debug, PartialEq, Eq, Structural)]
pub struct WriteOptions {
    /// Continue after the destination's current contents instead of
    /// replacing them.
    pub append: bool,
    /// Fail with `AlreadyExists` when the destination is present; checked
    /// at open time, never after data has been written.
    pub if_not_exists: bool,
    /// The caller's clock, recorded as the object's last-modified time.
    pub mtime_secs: i64,
}

/// A stateful write operation bound to one backend.
pub struct Writer {
    target: String,
    tmp: Option<String>,
    state: WriterState,
    can_multi: bool,
    wrote: bool,
    mtime_secs: i64,
}

/// The destination key is untouched between two store states: present in
/// the one exactly when present in the other, and with the same object.
pub open spec fn spec_dest_preserved(
    pre: Map<Seq<char>, FileSnap>,
    post: Map<Seq<char>, FileSnap>,
    dest: Seq<char>,
) -> bool {
    &&& post.contains_key(dest) == pre.contains_key(dest)
    &&& pre.contains_key(dest) ==> post[dest] == pre[dest]
}

/// Destination preservation chains across any sequence of steps: however
/// many partial writes an atomic-write emulation performed, if each step
/// preserved the destination, the whole sequence did, so cancelling
/// before commit leaves the destination absent or with its prior
/// contents — never partially written new content.
pub proof fn lemma_dest_preserved_trans(
    a: Map<Seq<char>, FileSnap>,
    b: Map<Seq<char>, FileSnap>,
    c: Map<Seq<char>, FileSnap>,
    dest: Seq<char>,
)
    requires
        spec_dest_preserved(a, b, dest),
        spec_dest_preserved(b, c, dest),
    ensures
        spec_dest_preserved(a, c, dest),
{
}

/// Round trip: a store that has just committed bytes `b` at destination
/// `dest` reports exactly `b` for the full range of `dest`; a subsequent
/// full read returns them unchanged.
pub proof fn lemma_round_trip(
    pre: Map<Seq<char>, FileSnap>,
    dest: Seq<char>,
    b: Seq<u8>,
    t: int,
)
    ensures
        pre.insert(dest, FileSnap { data: b, mtime_secs: t })[dest].data == b,
{
}

/// What opening a writer does to the store: appending to an existing
/// object stages nothing new, every other open stages an empty object at
/// the staging key.
pub open spec fn spec_open_effect(
    pre: Map<Seq<char>, FileSnap>,
    staged: Seq<char>,
    append: bool,
    mtime: int,
) -> Map<Seq<char>, FileSnap> {
    if append && pre.contains_key(staged) {
        pre
    } else {
        pre.insert(staged, FileSnap { data: Seq::empty(), mtime_secs: mtime })
    }
}

impl Writer {
    /// The destination path.
    pub closed spec fn spec_target(&self) -> Seq<char> {
        self.target@
    }

    /// The key writes go to: the temporary path under the fallback
    /// directory when the atomic emulation is active, the destination
    /// itself otherwise.
    pub closed spec fn spec_staged(&self) -> Seq<char> {
        match self.tmp {
            Some(t) => t@,
            None => self.target@,
        }
    }

    /// Whether this writer stages at a temporary path and commits with an
    /// atomic move.
    pub closed spec fn spec_atomic(&self) -> bool {
        self.tmp is Some
    }

    pub closed spec fn spec_state(&self) -> WriterState {
        self.state
    }

    pub closed spec fn spec_can_multi(&self) -> bool {
        self.can_multi
    }

    /// Whether a part has been written already.
    pub closed spec fn spec_wrote(&self) -> bool {
        self.wrote
    }

    pub closed spec fn spec_mtime(&self) -> int {
        self.mtime_secs as int
    }

    /// An atomic writer never stages at the destination itself.
    pub closed spec fn wf(&self) -> bool {
        self.spec_atomic() ==> self.spec_staged() != self.spec_target()
    }

    pub fn state(&self) -> (r: WriterState)
        ensures
            r == self.spec_state(),
    {
        self.state
    }

    /// Writes one part. The first part is always accepted; further parts
    /// only where the capability allows multi-part writes. The
    /// destination is untouched while the atomic emulation is active.
    pub fn write(&mut self, store: &mut RawStore, bytes: &[u8]) -> (r: Result<(), ErrorKind>)
        requires
            old(self).wf(),
            old(store).wf(),
            old(self).spec_state() == WriterState::Open,
            old(store)@.contains_key(old(self).spec_staged()),
        ensures
            final(self).wf(),
            final(store).wf(),
            final(self).spec_target() == old(self).spec_target(),
            final(self).spec_staged() == old(self).spec_staged(),
            final(self).spec_atomic() == old(self).spec_atomic(),
            final(self).spec_can_multi() == old(self).spec_can_multi(),
            final(self).spec_mtime() == old(self).spec_mtime(),
            final(self).spec_state() == WriterState::Open,
            old(self).spec_atomic() ==> spec_dest_preserved(
                old(store)@,
                final(store)@,
                old(self).spec_target(),
            ),
            match r {
                Ok(()) => {
                    &&& !(old(self).spec_wrote() && !old(self).spec_can_multi())
                    &&& final(store)@ == old(store)@.insert(
                        old(self).spec_staged(),
                        FileSnap {
                            data: old(store)@[old(self).spec_staged()].data + bytes@,
                            mtime_secs: old(self).spec_mtime(),
                        },
                    )
                    &&& final(self).spec_wrote()
                },
                Err(e) => {
                    &&& e == ErrorKind::Unsupported
                    &&& old(self).spec_wrote() && !old(self).spec_can_multi()
                    &&& final(store)@ == old(store)@
                    &&& final(self).spec_wrote() == old(self).spec_wrote()
                },
            },
    {
        if self.wrote && !self.can_multi {
            return Err(ErrorKind::Unsupported);
        }
        let staged: String = match &self.tmp {
            Some(t) => t.clone(),
            None => self.target.clone(),
        };
        match store.read_file(staged.as_str()) {
            Some(f) => {
                let mut data = f.0;
                crate::store::append_bytes(&mut data, bytes);
                store.set(staged.as_str(), data, self.mtime_secs);
                self.wrote = true;
                Ok(())
            },
            None => {
                // unreachable: the staging key is stored while the writer
                // is open
                proof {
                    assert(false);
                }
                Err(ErrorKind::Backend)
            },
        }
    }

    /// Commits the write. With the atomic emulation active, the staged
    /// object moves to the destination in the backend's single native
    /// atomic step; a direct write has already reached the destination.
    pub fn close(&mut self, store: &mut RawStore) -> (r: Result<(), ErrorKind>)
        requires
            old(self).wf(),
            old(store).wf(),
            old(self).spec_state() == WriterState::Open,
            old(store)@.contains_key(old(self).spec_staged()),
        ensures
            final(self).wf(),
            final(store).wf(),
            final(self).spec_target() == old(self).spec_target(),
            final(self).spec_staged() == old(self).spec_staged(),
            final(self).spec_atomic() == old(self).spec_atomic(),
            final(self).spec_state() == WriterState::Committed,
            r is Ok,
            old(self).spec_atomic() ==> final(store)@ == old(store)@.remove(
                old(self).spec_staged(),
            ).insert(old(self).spec_target(), old(store)@[old(self).spec_staged()]),
            !old(self).spec_atomic() ==> final(store)@ == old(store)@,
    {
        let tmp: Option<String> = match &self.tmp {
            Some(t) => Some(t.clone()),
            None => None,
        };
        if let Some(t) = tmp {
            store.rename_entry(t.as_str(), self.target.as_str());
        }
        self.state = WriterState::Committed;
        Ok(())
    }

    /// Aborts the write: any staged temporary artifact is removed, and
    /// the destination keeps its prior contents or stays absent.
    pub fn abort(&mut self, store: &mut RawStore)
        requires
            old(self).wf(),
            old(store).wf(),
            old(self).spec_state() == WriterState::Open,
        ensures
            final(self).wf(),
            final(store).wf(),
            final(self).spec_target() == old(self).spec_target(),
            final(self).spec_state() == WriterState::Aborted,
            old(self).spec_atomic() ==> final(store)@ == old(store)@.remove(
                old(self).spec_staged(),
            ),
            old(self).spec_atomic() ==> spec_dest_preserved(
                old(store)@,
                final(store)@,
                old(self).spec_target(),
            ),
            !old(self).spec_atomic() ==> final(store)@ == old(store)@,
    {
        let tmp: Option<String> = match &self.tmp {
            Some(t) => Some(t.clone()),
            None => None,
        };
        if let Some(t) = tmp {
            store.remove(t.as_str());
        }
        self.state = WriterState::Aborted;
    }
}

impl FsBackend {
    /// The error an open of a writer reports when it cannot succeed.
    pub open spec fn spec_write_err(&self, rel: Seq<char>, opts: WriteOptions) -> ErrorKind {
        let cap = self.core.spec_capability();
        if !cap.write {
            ErrorKind::Unsupported
        } else if !(paths::spec_rel_path(rel) && !paths::spec_ends_slash(rel)) {
            ErrorKind::InvalidInput
        } else if opts.append && !cap.write_can_append {
            ErrorKind::Unsupported
        } else if opts.if_not_exists && !cap.write_with_if_not_exists {
            ErrorKind::Unsupported
        } else {
            ErrorKind::AlreadyExists
        }
    }

    /// Whether an open of a writer succeeds.
    pub open spec fn spec_write_ok(
        &self,
        pre: Map<Seq<char>, FileSnap>,
        rel: Seq<char>,
        opts: WriteOptions,
    ) -> bool {
        let cap = self.core.spec_capability();
        &&& cap.write
        &&& paths::spec_rel_path(rel) && !paths::spec_ends_slash(rel)
        &&& opts.append ==> cap.write_can_append
        &&& opts.if_not_exists ==> cap.write_with_if_not_exists
        &&& !(opts.if_not_exists && pre.contains_key(self.core.spec_full(rel)))
    }

    /// The staging key a writer for `rel` would use under the atomic
    /// emulation.
    pub open spec fn spec_tmp_key(&self, rel: Seq<char>) -> Seq<char> {
        match self.core.atomic_write_dir {
            Some(d) => d@ + rel,
            None => Seq::empty(),
        }
    }

    /// Opens a write operation. Every gate is checked here: the
    /// capability gates fail fast as unsupported, and the if-not-exists
    /// precondition fails deterministically with `AlreadyExists` on an
    /// existing destination, before any data is written and without
    /// overwriting anything.
    pub fn write(&self, store: &mut RawStore, rel: &str, opts: WriteOptions) -> (r: Result<
        Writer,
        ErrorKind,
    >)
        requires
            old(store).wf(),
            self.core.wf(),
        ensures
            final(store).wf(),
            match r {
                Ok(w) => {
                    &&& self.spec_write_ok(old(store)@, rel@, opts)
                    &&& w.wf()
                    &&& w.spec_state() == WriterState::Open
                    &&& !w.spec_wrote()
                    &&& w.spec_target() == self.core.spec_full(rel@)
                    &&& w.spec_mtime() == opts.mtime_secs as int
                    &&& w.spec_can_multi() == self.core.spec_capability().write_can_multi
                    &&& w.spec_atomic() == (self.core.spec_atomic() && !opts.append)
                    &&& w.spec_staged() == (if w.spec_atomic() {
                        self.spec_tmp_key(rel@)
                    } else {
                        self.core.spec_full(rel@)
                    })
                    &&& final(store)@ == spec_open_effect(
                        old(store)@,
                        w.spec_staged(),
                        opts.append,
                        opts.mtime_secs as int,
                    )
                    &&& final(store)@.contains_key(w.spec_staged())
                    &&& final(store)@[w.spec_staged()].data == (if opts.append && old(
                        store,
                    )@.contains_key(w.spec_staged()) {
                        old(store)@[w.spec_staged()].data
                    } else {
                        Seq::<u8>::empty()
                    })
                    &&& w.spec_atomic() ==> spec_dest_preserved(
                        old(store)@,
                        final(store)@,
                        w.spec_target(),
                    )
                },
                Err(e) => {
                    &&& e == self.spec_write_err(rel@, opts)
                    &&& !self.spec_write_ok(old(store)@, rel@, opts)
                    &&& final(store)@ == old(store)@
                },
            },
    {
        let cap = self.capability();
        if !cap.write {
            return Err(ErrorKind::Unsupported);
        }
        if !paths::is_rel_path(rel) || paths::ends_slash(rel) {
            return Err(ErrorKind::InvalidInput);
        }
        if opts.append && !cap.write_can_append {
            return Err(ErrorKind::Unsupported);
        }
        if opts.if_not_exists && !cap.write_with_if_not_exists {
            return Err(ErrorKind::Unsupported);
        }
        let target = self.full_path(rel);
        if opts.if_not_exists && store.contains_path(target.as_str()) {
            return Err(ErrorKind::AlreadyExists);
        }
        let tmp: Option<String> = if opts.append {
            None
        } else {
            match &self.core.atomic_write_dir {
                Some(d) => {
                    let t = paths::join(d.as_str(), rel);
                    proof {
                        paths::lemma_prefix_free_no_collision(self.core.root@, rel@, d@, rel@);
                    }
                    Some(t)
                },
                None => None,
            }
        };
        let staged: String = match &tmp {
            Some(t) => t.clone(),
            None => target.clone(),
        };
        if opts.append && store.contains_path(staged.as_str()) {
            // appending continues after the existing contents
        } else {
            store.set(staged.as_str(), Vec::new(), opts.mtime_secs);
        }
        Ok(Writer {
            target,
            tmp,
            state: WriterState::Open,
            can_multi: cap.write_can_multi,
            wrote: false,
            mtime_secs: opts.mtime_secs,
        })
    }

    /// Writes one whole object in a single call: open, one part, commit.
    pub fn write_all(&self, store: &mut RawStore, rel: &str, bytes: &[u8], opts: WriteOptions)
        -> (r: Result<(), ErrorKind>)
        requires
            old(store).wf(),
            self.core.wf(),
        ensures
            final(store).wf(),
            match r {
                Ok(()) => {
                    &&& self.spec_write_ok(old(store)@, rel@, opts)
                    &&& final(store)@.contains_key(self.core.spec_full(rel@))
                    &&& final(store)@[self.core.spec_full(rel@)].data == (if opts.append && old(
                        store,
                    )@.contains_key(self.core.spec_full(rel@)) {
                        old(store)@[self.core.spec_full(rel@)].data + bytes@
                    } else {
                        bytes@
                    })
                    &&& final(store)@[self.core.spec_full(rel@)].mtime_secs == opts.mtime_secs as int
                    &&& (if self.core.spec_atomic() && !opts.append {
                        final(store)@ == old(store)@.remove(self.spec_tmp_key(rel@)).insert(
                            self.core.spec_full(rel@),
                            final(store)@[self.core.spec_full(rel@)],
                        )
                    } else {
                        final(store)@ == old(store)@.insert(
                            self.core.spec_full(rel@),
                            final(store)@[self.core.spec_full(rel@)],
                        )
                    })
                },
                Err(e) => {
                    &&& e == self.spec_write_err(rel@, opts)
                    &&& !self.spec_write_ok(old(store)@, rel@, opts)
                    &&& final(store)@ == old(store)@
                },
            },
    {
        let mut w = match self.write(store, rel, opts) {
            Ok(w) => w,
            Err(e) => {
                return Err(e);
            },
        };
        match w.write(store, bytes) {
            Ok(()) => {},
            Err(_) => {
                proof {
                    assert(false);
                }
                return Err(ErrorKind::Backend);
            },
        }
        let r = w.close(store);
        proof {
            if self.core.spec_atomic() && !opts.append {
                assert(store@ =~= old(store)@.remove(self.spec_tmp_key(rel@)).insert(
                    self.core.spec_full(rel@),
                    store@[self.core.spec_full(rel@)],
                ));
            } else {
                assert(store@ =~= old(store)@.insert(
                    self.core.spec_full(rel@),
                    store@[self.core.spec_full(rel@)],
                ));
            }
        }
        r
    }
}

} // verus!
