//! The list driver: a finite, lazily consumed sequence of the entries
//! under one prefix. Backend-native pagination is merged transparently:
//! whatever page size the native listing used, the caller sees one
//! continuous sequence holding every entry exactly once.

use vstd::prelude::*;
use crate::backend::FsBackend;
use crate::error::ErrorKind;
use crate::paths;
use crate::store::{match_prefix, RawStore};

verus! {

/// A stateful listing over the entries under one prefix.
pub struct Lister {
    entries: Vec<String>,
    pos: usize,
}

impl Lister {
    /// The full paths this listing yields, in enumeration order.
    pub closed spec fn spec_entries(&self) -> Seq<Seq<char>> {
        self.entries@.map_values(|p: String| p@)
    }

    /// How many entries have been yielded already.
    pub closed spec fn spec_pos(&self) -> int {
        self.pos as int
    }

    pub closed spec fn wf(&self) -> bool {
        self.pos <= self.entries@.len()
    }

    /// Yields the next entry: each entry of the listing comes back
    /// exactly once, in order, and then the listing is exhausted.
    pub fn next(&mut self) -> (r: Option<String>)
        requires
            old(self).wf(),
        ensures
            final(self).wf(),
            final(self).spec_entries() == old(self).spec_entries(),
            match r {
                Some(e) => {
                    &&& old(self).spec_pos() < old(self).spec_entries().len()
                    &&& e@ == old(self).spec_entries()[old(self).spec_pos()]
                    &&& final(self).spec_pos() == old(self).spec_pos() + 1
                },
                None => {
                    &&& old(self).spec_pos() == old(self).spec_entries().len()
                    &&& final(self).spec_pos() == old(self).spec_pos()
                },
            },
    {
        if self.pos < self.entries.len() {
            let e = self.entries[self.pos].clone();
            self.pos += 1;
            Some(e)
        } else {
            None
        }
    }

    /// How many entries are left to yield.
    pub fn remaining(&self) -> (r: usize)
        requires
            self.wf(),
        ensures
            r == self.spec_entries().len() - self.spec_pos(),
    {
        self.entries.len() - self.pos
    }
}

impl FsBackend {
    /// The error a listing reports when it cannot succeed.
    pub open spec fn spec_list_err(&self, rel: Seq<char>) -> ErrorKind {
        if !self.core.spec_capability().list {
            ErrorKind::Unsupported
        } else {
            ErrorKind::InvalidInput
        }
    }

    /// Whether a listing request is acceptable: the empty path lists the
    /// root, any other path must be relative.
    pub open spec fn spec_list_ok(&self, rel: Seq<char>) -> bool {
        &&& self.core.spec_capability().list
        &&& rel.len() == 0 || paths::spec_rel_path(rel)
    }

    /// Opens a listing of every stored path under the given prefix. The
    /// native listing is consumed page by page with the given page size;
    /// the result is its pages' concatenation, which equals the filtered
    /// enumeration whatever the page size was.
    pub fn list(&self, store: &RawStore, rel: &str, page_limit: usize) -> (r: Result<
        Lister,
        ErrorKind,
    >)
        requires
            store.wf(),
            self.core.wf(),
            page_limit >= 1,
        ensures
            match r {
                Ok(l) => {
                    &&& self.spec_list_ok(rel@)
                    &&& l.wf()
                    &&& l.spec_pos() == 0
                    &&& l.spec_entries() == store.order_view().filter(
                        match_prefix(self.core.spec_full(rel@)),
                    )
                },
                Err(e) => {
                    &&& e == self.spec_list_err(rel@)
                    &&& !self.spec_list_ok(rel@)
                },
            },
    {
        if !self.capability().list {
            return Err(ErrorKind::Unsupported);
        }
        if rel.unicode_len() > 0 && !paths::is_rel_path(rel) {
            return Err(ErrorKind::InvalidInput);
        }
        let full = self.full_path(rel);
        let n = store.order_len();
        let mut entries: Vec<String> = Vec::new();
        let mut cursor: usize = 0;
        while cursor < n
            invariant
                cursor <= n,
                n == store.order_view().len(),
                store.wf(),
                page_limit >= 1,
                full@ == self.core.spec_full(rel@),
                entries@.map_values(|p: String| p@) == store.order_view().subrange(
                    0,
                    cursor as int,
                ).filter(match_prefix(full@)),
            decreases n - cursor,
        {
            let ghost pre = entries@;
            let (mut page, next) = store.list_page(full.as_str(), cursor, page_limit);
            let ghost pagev = page@;
            entries.append(&mut page);
            proof {
                let ov = store.order_view();
                let pred = match_prefix(full@);
                let a = ov.subrange(0, cursor as int);
                let b = ov.subrange(cursor as int, next as int);
                assert(ov.subrange(0, next as int) =~= a + b);
                Seq::filter_distributes_over_add(a, b, pred);
                assert(entries@.map_values(|p: String| p@) =~= pre.map_values(|p: String| p@)
                    + pagev.map_values(|p: String| p@));
            }
            cursor = next;
        }
        proof {
            assert(store.order_view().subrange(0, n as int) =~= store.order_view());
        }
        Ok(Lister { entries, pos: 0 })
    }
}

/// A backend-native paginated listing yields every entry exactly once: a
/// duplicate-free enumeration stays duplicate-free after filtering by the
/// listed prefix, and every enumerated path under the prefix is kept.
pub proof fn lemma_listing_exactly_once(order: Seq<Seq<char>>, prefix: Seq<char>)
    requires
        forall|i: int, j: int| 0 <= i < j < order.len() ==> order[i] != order[j],
    ensures
        ({
            let l = order.filter(match_prefix(prefix));
            &&& forall|i: int, j: int| 0 <= i < j < l.len() ==> l[i] != l[j]
            &&& forall|i: int|
                0 <= i < order.len() && paths::spec_starts_with(#[trigger] order[i], prefix)
                    ==> l.contains(order[i])
        }),
{
    let pred = match_prefix(prefix);
    lemma_filter_keeps_distinct(order, pred);
    order.filter_lemma(pred);
}

/// Filtering keeps a duplicate-free sequence duplicate-free.
proof fn lemma_filter_keeps_distinct<A>(s: Seq<A>, pred: spec_fn(A) -> bool)
    requires
        forall|i: int, j: int| 0 <= i < j < s.len() ==> s[i] != s[j],
    ensures
        forall|i: int, j: int|
            0 <= i < j < s.filter(pred).len() ==> s.filter(pred)[i] != s.filter(pred)[j],
    decreases s.len(),
{
    reveal(Seq::filter);
    if s.len() > 0 {
        let dl = s.drop_last();
        assert(forall|i: int, j: int| 0 <= i < j < dl.len() ==> dl[i] != dl[j]);
        lemma_filter_keeps_distinct(dl, pred);
        if pred(s.last()) {
            let f = s.filter(pred);
            let fd = dl.filter(pred);
            assert(f =~= fd.push(s.last()));
            assert forall|i: int, j: int| 0 <= i < j < f.len() implies f[i] != f[j] by {
                if j == f.len() - 1 {
                    // the last element is fresh: it never occurs among the
                    // filtered earlier elements
                    if f[i] == s.last() {
                        assert(fd.contains(s.last()));
                        dl.lemma_filter_contains_rev(pred, s.last());
                        let w = choose|w: int| 0 <= w < dl.len() && dl[w] == s.last();
                        assert(s[w] == s[s.len() - 1]);
                        assert(false);
                    }
                } else {
                    assert(f[i] == fd[i] && f[j] == fd[j]);
                }
            }
        }
    }
}

} // verus!
