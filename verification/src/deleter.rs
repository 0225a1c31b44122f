//! The delete driver: a batch of queued paths, each deletion reported
//! independently. A missing target is a success: deletion is idempotent
//! and never reports `NotFound`.

use vstd::prelude::*;
use crate::backend::FsBackend;
use crate::error::ErrorKind;
use crate::paths;
use crate::store::RawStore;

verus! {

/// The full paths targeted by the first `n` queued deletions.
pub open spec fn spec_targets_upto(root: Seq<char>, pending: Seq<Seq<char>>, n: int) -> Set<
    Seq<char>,
> {
    Set::new(|k: Seq<char>| exists|i: int| 0 <= i < n && k == root + pending[i])
}

/// A batch delete operation bound to one backend.
pub struct Deleter {
    root: String,
    pending: Vec<String>,
}

impl Deleter {
    pub closed spec fn spec_root(&self) -> Seq<char> {
        self.root@
    }

    /// The queued relative paths, in queueing order.
    pub closed spec fn spec_pending(&self) -> Seq<Seq<char>> {
        self.pending@.map_values(|p: String| p@)
    }

    /// The full paths the queued deletions target.
    pub open spec fn spec_targets(&self) -> Set<Seq<char>> {
        spec_targets_upto(self.spec_root(), self.spec_pending(), self.spec_pending().len() as int)
    }

    /// Queues one path for deletion.
    pub fn queue(&mut self, rel: &str) -> (r: Result<(), ErrorKind>)
        ensures
            final(self).spec_root() == old(self).spec_root(),
            match r {
                Ok(()) => {
                    &&& paths::spec_rel_path(rel@)
                    &&& final(self).spec_pending() == old(self).spec_pending().push(rel@)
                },
                Err(e) => {
                    &&& e == ErrorKind::InvalidInput
                    &&& !paths::spec_rel_path(rel@)
                    &&& final(self).spec_pending() == old(self).spec_pending()
                },
            },
    {
        if !paths::is_rel_path(rel) {
            return Err(ErrorKind::InvalidInput);
        }
        self.pending.push(rel.to_owned());
        proof {
            assert(self.spec_pending() =~= old(self).spec_pending().push(rel@));
        }
        Ok(())
    }

    /// Performs the queued deletions. Every attempt is reported
    /// independently, and a missing target reports success, never
    /// `NotFound`: deleting is idempotent.
    pub fn flush(&mut self, store: &mut RawStore) -> (r: Vec<Result<(), ErrorKind>>)
        requires
            old(store).wf(),
        ensures
            final(store).wf(),
            final(self).spec_root() == old(self).spec_root(),
            final(self).spec_pending().len() == 0,
            r@.len() == old(self).spec_pending().len(),
            forall|i: int| 0 <= i < r@.len() ==> r@[i] is Ok,
            final(store)@ == old(store)@.remove_keys(old(self).spec_targets()),
    {
        let ghost root_v = self.spec_root();
        let ghost pending_v = self.spec_pending();
        let mut results: Vec<Result<(), ErrorKind>> = Vec::new();
        let mut i: usize = 0;
        let n = self.pending.len();
        while i < n
            invariant
                i <= n,
                n == pending_v.len(),
                root_v == self.spec_root(),
                pending_v == self.spec_pending(),
                store.wf(),
                results@.len() == i,
                forall|j: int| 0 <= j < results@.len() ==> results@[j] is Ok,
                store@ == old(store)@.remove_keys(spec_targets_upto(root_v, pending_v, i as int)),
            decreases n - i,
        {
            let ghost pre = store@;
            let full = paths::join(self.root.as_str(), self.pending[i].as_str());
            store.remove(full.as_str());
            results.push(Ok(()));
            proof {
                assert forall|k: Seq<char>|
                    spec_targets_upto(root_v, pending_v, i + 1).contains(k)
                        == (spec_targets_upto(root_v, pending_v, i as int).contains(k) || k
                        == root_v + pending_v[i as int]) by {
                    if spec_targets_upto(root_v, pending_v, i + 1).contains(k) {
                        let w = choose|w: int| 0 <= w < i + 1 && k == root_v + pending_v[w];
                        if w < i {
                            assert(spec_targets_upto(root_v, pending_v, i as int).contains(k));
                        }
                    }
                    if spec_targets_upto(root_v, pending_v, i as int).contains(k) {
                        let w = choose|w: int| 0 <= w < i && k == root_v + pending_v[w];
                        assert(spec_targets_upto(root_v, pending_v, i + 1).contains(k));
                    }
                    if k == root_v + pending_v[i as int] {
                        assert(spec_targets_upto(root_v, pending_v, i + 1).contains(k));
                    }
                }
                assert(store@ =~= old(store)@.remove_keys(
                    spec_targets_upto(root_v, pending_v, i + 1),
                ));
            }
            i += 1;
        }
        self.pending.clear();
        results
    }
}

impl FsBackend {
    /// Opens a batch delete operation, gated by the effective capability.
    pub fn deleter(&self) -> (r: Result<Deleter, ErrorKind>)
        requires
            self.core.wf(),
        ensures
            match r {
                Ok(d) => {
                    &&& self.core.spec_capability().delete
                    &&& d.spec_root() == self.core.root@
                    &&& d.spec_pending().len() == 0
                },
                Err(e) => {
                    &&& e == ErrorKind::Unsupported
                    &&& !self.core.spec_capability().delete
                },
            },
    {
        if !self.capability().delete {
            return Err(ErrorKind::Unsupported);
        }
        let r = Deleter { root: self.core.root.clone(), pending: Vec::new() };
        proof {
            assert(r.spec_pending() =~= Seq::<Seq<char>>::empty());
        }
        Ok(r)
    }
}

} // verus!
