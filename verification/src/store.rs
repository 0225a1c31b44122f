//! The backend's native primitive layer, modeled as an in-memory object
//! store: a map from full paths to stored objects, together with a stable
//! enumeration order that backs native paginated listing. The operation
//! drivers compose these primitives; `rename_entry` is the atomic move the
//! atomic-write emulation relies on.

use vstd::prelude::*;
use vstd::hash_map::StringHashMap;
use crate::paths;

verus! {

/// One stored object: its bytes and its last-modified time in seconds
/// since the epoch, as supplied by the caller's clock.
pub struct StoredFile {
    pub data: Vec<u8>,
    pub mtime_secs: i64,
}

/// Mathematical snapshot of one stored object.
pub ghost struct FileSnap {
    pub data: Seq<u8>,
    pub mtime_secs: int,
}

/// Copies a byte slice into a fresh vector.
pub fn copy_bytes(src: &[u8]) -> (r: Vec<u8>)
    ensures
        r@ == src@,
{
    let mut out: Vec<u8> = Vec::new();
    let mut i: usize = 0;
    while i < src.len()
        invariant
            i <= src@.len(),
            out@ == src@.subrange(0, i as int),
        decreases src@.len() - i,
    {
        out.push(src[i]);
        proof {
            assert(out@ =~= src@.subrange(0, i + 1 as int));
        }
        i += 1;
    }
    proof {
        assert(out@ =~= src@);
    }
    out
}

/// Appends a byte slice to a vector.
pub fn append_bytes(dst: &mut Vec<u8>, src: &[u8])
    ensures
        final(dst)@ == old(dst)@ + src@,
{
    let mut i: usize = 0;
    while i < src.len()
        invariant
            i <= src@.len(),
            dst@ == old(dst)@ + src@.subrange(0, i as int),
        decreases src@.len() - i,
    {
        dst.push(src[i]);
        proof {
            assert(old(dst)@ + src@.subrange(0, i as int) + seq![src@[i as int]] =~= old(dst)@
                + src@.subrange(0, i + 1 as int));
        }
        i += 1;
    }
    proof {
        assert(src@.subrange(0, src@.len() as int) =~= src@);
    }
}

/// In-memory object store standing for a backend's native namespace.
pub struct RawStore {
    files: StringHashMap<StoredFile>,
    order: Vec<String>,
}

impl View for RawStore {
    type V = Map<Seq<char>, FileSnap>;

    closed spec fn view(&self) -> Map<Seq<char>, FileSnap> {
        Map::new(
            |k: Seq<char>| self.files@.contains_key(k),
            |k: Seq<char>| FileSnap {
                data: self.files@[k].data@,
                mtime_secs: self.files@[k].mtime_secs as int,
            },
        )
    }
}

impl RawStore {
    /// The paths of the store in its stable enumeration order.
    pub closed spec fn order_view(&self) -> Seq<Seq<char>> {
        self.order@.map_values(|p: String| p@)
    }

    /// The enumeration order lists each stored path exactly once and
    /// nothing else.
    pub closed spec fn wf(&self) -> bool {
        &&& forall|i: int, j: int|
            0 <= i < j < self.order_view().len() ==> self.order_view()[i] != self.order_view()[j]
        &&& forall|i: int|
            0 <= i < self.order_view().len() ==> self@.contains_key(#[trigger] self.order_view()[i])
        &&& forall|k: Seq<char>| #[trigger] self@.contains_key(k) ==> self.order_view().contains(k)
    }

    /// An empty store.
    pub fn new() -> (r: RawStore)
        ensures
            r.wf(),
            r@ == Map::<Seq<char>, FileSnap>::empty(),
            r.order_view() == Seq::<Seq<char>>::empty(),
    {
        let r = RawStore { files: StringHashMap::new(), order: Vec::new() };
        proof {
            assert(r@ =~= Map::<Seq<char>, FileSnap>::empty());
            assert(r.order_view() =~= Seq::<Seq<char>>::empty());
        }
        r
    }

    /// Whether a path is stored.
    pub fn contains_path(&self, path: &str) -> (r: bool)
        ensures
            r == self@.contains_key(path@),
    {
        self.files.contains_key(path)
    }

    /// How many paths the enumeration order holds.
    pub fn order_len(&self) -> (r: usize)
        ensures
            r == self.order_view().len(),
    {
        self.order.len()
    }

    /// Reads one stored object: its bytes and last-modified time.
    pub fn read_file(&self, path: &str) -> (r: Option<(Vec<u8>, i64)>)
        ensures
            match r {
                Some(f) => self@.contains_key(path@) && f.0@ == self@[path@].data && f.1
                    == self@[path@].mtime_secs,
                None => !self@.contains_key(path@),
            },
    {
        match self.files.get(path) {
            Some(f) => Some((copy_bytes(f.data.as_slice()), f.mtime_secs)),
            None => None,
        }
    }

    /// Stores bytes under a path, replacing what was there; a new path is
    /// appended to the enumeration order.
    pub fn set(&mut self, path: &str, data: Vec<u8>, mtime_secs: i64)
        requires
            old(self).wf(),
        ensures
            final(self).wf(),
            final(self)@ == old(self)@.insert(
                path@,
                FileSnap { data: data@, mtime_secs: mtime_secs as int },
            ),
            old(self)@.contains_key(path@) ==> final(self).order_view() == old(self).order_view(),
            !old(self)@.contains_key(path@) ==> final(self).order_view()
                == old(self).order_view().push(path@),
    {
        let existed = self.files.contains_key(path);
        self.files.insert(path.to_owned(), StoredFile { data, mtime_secs });
        if !existed {
            self.order.push(path.to_owned());
        }
        proof {
            assert(self@ =~= old(self)@.insert(
                path@,
                FileSnap { data: data@, mtime_secs: mtime_secs as int },
            ));
            if !old(self)@.contains_key(path@) {
                assert(self.order_view() =~= old(self).order_view().push(path@));
                // the appended path was not enumerated before, so the
                // order stays duplicate-free
                assert(forall|i: int|
                    0 <= i < old(self).order_view().len() ==> old(self).order_view()[i] != path@);
                assert forall|k: Seq<char>| #[trigger] self@.contains_key(k) implies self.order_view().contains(k) by {
                    if k == path@ {
                        assert(self.order_view()[self.order_view().len() - 1] == k);
                    } else {
                        assert(old(self)@.contains_key(k));
                        let i = choose|i: int|
                            0 <= i < old(self).order_view().len() && old(self).order_view()[i] == k;
                        assert(self.order_view()[i] == k);
                    }
                }
            } else {
                assert(self.order_view() =~= old(self).order_view());
                assert forall|k: Seq<char>| #[trigger] self@.contains_key(k) implies self.order_view().contains(k) by {
                    if k == path@ {
                        assert(old(self)@.contains_key(k));
                    }
                }
            }
        }
    }

    /// Removes a path if it is stored; removing a missing path is a no-op.
    pub fn remove(&mut self, path: &str) -> (removed: bool)
        requires
            old(self).wf(),
        ensures
            final(self).wf(),
            removed == old(self)@.contains_key(path@),
            final(self)@ == old(self)@.remove(path@),
            !removed ==> final(self).order_view() == old(self).order_view(),
            removed ==> exists|i: int|
                0 <= i < old(self).order_view().len() && old(self).order_view()[i] == path@
                    && final(self).order_view() == old(self).order_view().remove(i),
    {
        if !self.files.contains_key(path) {
            proof {
                assert(self@ =~= old(self)@.remove(path@));
            }
            return false;
        }
        let i = self.index_of(path);
        self.files.remove(path);
        self.order.remove(i);
        proof {
            let pre = old(self).order_view();
            let post = self.order_view();
            assert(self@ =~= old(self)@.remove(path@));
            assert(post =~= pre.remove(i as int));
            assert forall|a: int, b: int| 0 <= a < b < post.len() implies post[a] != post[b] by {
                if b < i as int {
                    assert(post[a] == pre[a] && post[b] == pre[b]);
                } else if a < i as int {
                    assert(post[a] == pre[a] && post[b] == pre[b + 1]);
                } else {
                    assert(post[a] == pre[a + 1] && post[b] == pre[b + 1]);
                }
            }
            assert forall|j: int| 0 <= j < post.len() implies self@.contains_key(
                #[trigger] post[j],
            ) by {
                if j < i as int {
                    assert(post[j] == pre[j]);
                    assert(pre[j] != pre[i as int]);
                } else {
                    assert(post[j] == pre[j + 1]);
                    assert(pre[j + 1] != pre[i as int]);
                }
            }
            assert forall|k: Seq<char>| #[trigger] self@.contains_key(k) implies post.contains(
                k,
            ) by {
                assert(old(self)@.contains_key(k));
                let w = choose|w: int| 0 <= w < pre.len() && pre[w] == k;
                assert(k != path@);
                assert(w != i as int);
                if w < i as int {
                    assert(post[w] == k);
                } else {
                    assert(post[w - 1] == k);
                }
            }
        }
        true
    }

    /// The position of a stored path in the enumeration order.
    fn index_of(&self, path: &str) -> (i: usize)
        requires
            self.wf(),
            self@.contains_key(path@),
        ensures
            i < self.order_view().len(),
            self.order_view()[i as int] == path@,
    {
        let n = self.order.len();
        let mut i: usize = 0;
        while i < n
            invariant
                i <= n,
                n == self.order_view().len(),
                self.wf(),
                self@.contains_key(path@),
                forall|j: int| 0 <= j < i ==> self.order_view()[j] != path@,
            decreases n - i,
        {
            if paths::str_eq(self.order[i].as_str(), path) {
                return i;
            }
            i += 1;
        }
        proof {
            let w = choose|w: int| 0 <= w < self.order_view().len() && self.order_view()[w]
                == path@;
            assert(false);
        }
        0
    }

    /// The backend's atomic move primitive: the destination takes the
    /// source object in one step and the source disappears. Returns false
    /// (and changes nothing) when the source is missing.
    pub fn rename_entry(&mut self, src: &str, dst: &str) -> (moved: bool)
        requires
            old(self).wf(),
        ensures
            final(self).wf(),
            moved == old(self)@.contains_key(src@),
            moved ==> final(self)@ == old(self)@.remove(src@).insert(dst@, old(self)@[src@]),
            !moved ==> final(self)@ == old(self)@,
    {
        match self.read_file(src) {
            None => false,
            Some(f) => {
                self.remove(src);
                self.set(dst, f.0, f.1);
                proof {
                    assert(self@ =~= old(self)@.remove(src@).insert(dst@, old(self)@[src@]));
                }
                true
            },
        }
    }
}


/// The test native listing filters by: whether a stored path lies under
/// the listed prefix.
pub open spec fn match_prefix(prefix: Seq<char>) -> spec_fn(Seq<char>) -> bool {
    |p: Seq<char>| paths::spec_starts_with(p, prefix)
}

impl RawStore {
    /// One backend-native listing page: scans the enumeration order from
    /// `cursor`, collects up to `limit` paths under `prefix`, and returns
    /// them together with the cursor to continue from. The page holds
    /// exactly the matching paths of the scanned stretch, so however the
    /// pages are sized, their concatenation is the filtered enumeration.
    pub fn list_page(&self, prefix: &str, cursor: usize, limit: usize) -> (r: (Vec<String>, usize))
        requires
            self.wf(),
            cursor <= self.order_view().len(),
            limit >= 1,
        ensures
            cursor <= r.1 <= self.order_view().len(),
            r.0@.map_values(|p: String| p@) == self.order_view().subrange(
                cursor as int,
                r.1 as int,
            ).filter(match_prefix(prefix@)),
            r.1 == self.order_view().len() || r.0@.len() == limit,
            cursor < self.order_view().len() ==> r.1 > cursor,
    {
        let n = self.order.len();
        let mut out: Vec<String> = Vec::new();
        let mut i: usize = cursor;
        while i < n && out.len() < limit
            invariant
                cursor <= i <= n,
                n == self.order_view().len(),
                self.wf(),
                limit >= 1,
                out@.len() <= limit,
                out@.map_values(|p: String| p@) == self.order_view().subrange(
                    cursor as int,
                    i as int,
                ).filter(match_prefix(prefix@)),
            decreases n - i,
        {
            let ghost pre_out = out@;
            let entry = &self.order[i];
            if paths::starts_with(entry.as_str(), prefix) {
                out.push(entry.clone());
            }
            i += 1;
            proof {
                let ov = self.order_view();
                let pred = match_prefix(prefix@);
                let s_prev = ov.subrange(cursor as int, i - 1);
                let s_now = ov.subrange(cursor as int, i as int);
                assert(s_now.drop_last() =~= s_prev);
                assert(s_now.last() == ov[i - 1]);
                reveal(Seq::filter);
                if pred(ov[i - 1]) {
                    assert(out@.map_values(|p: String| p@) =~= pre_out.map_values(
                        |p: String| p@,
                    ).push(ov[i - 1]));
                } else {
                    assert(out@.map_values(|p: String| p@) =~= pre_out.map_values(
                        |p: String| p@,
                    ));
                }
            }
        }
        proof {
            if cursor < n && i == cursor {
                reveal(Seq::filter);
                assert(self.order_view().subrange(cursor as int, cursor as int)
                    =~= Seq::<Seq<char>>::empty());
                assert(out@.map_values(|p: String| p@).len() == 0);
            }
        }
        (out, i)
    }
}

} // verus!
