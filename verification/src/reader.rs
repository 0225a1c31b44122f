//! The read driver: a snapshot of one object in a pooled buffer, with
//! seek-like repositioning before or between reads. A read past the end
//! returns zero further bytes without error.

use vstd::prelude::*;
use crate::backend::FsBackend;
use crate::error::ErrorKind;
use crate::paths;
use crate::store::{copy_bytes, RawStore};

verus! {

/// The states of one read operation. `Failed` is entered only by a
/// backend whose primitives can fail mid-stream; the in-memory primitives
/// cannot.
#[derive(Clone, Copy, Debug, PartialEq, Eq, Structural)]
pub enum ReaderState {
    Idle,
    Positioned,
    Exhausted,
    Failed,
}

/// A repositioning request: absolute, relative to the current position,
/// or relative to the end.
#[derive(Clone, Copy, Debug, PartialEq, Eq, Structural)]
pub enum SeekFrom {
    Start(u64),
    Current(i64),
    End(i64),
}

/// Where a repositioning request points, before range checking.
pub open spec fn spec_seek_pos(cur: int, len: int, pos: SeekFrom) -> int {
    match pos {
        SeekFrom::Start(n) => n as int,
        SeekFrom::Current(d) => cur + d,
        SeekFrom::End(d) => len + d,
    }
}

/// A stateful read operation over a snapshot of one object, held in a
/// buffer drawn from the backend's pool.
pub struct Reader {
    content: Vec<u8>,
    offset: u64,
    state: ReaderState,
}

impl Reader {
    /// The snapshot this reader serves.
    pub closed spec fn spec_content(&self) -> Seq<u8> {
        self.content@
    }

    /// The current position; it may point past the end.
    pub closed spec fn spec_offset(&self) -> int {
        self.offset as int
    }

    pub closed spec fn spec_state(&self) -> ReaderState {
        self.state
    }

    pub fn state(&self) -> (r: ReaderState)
        ensures
            r == self.spec_state(),
    {
        self.state
    }

    /// Repositions the reader. A request pointing before the start or
    /// beyond the largest representable position is rejected as invalid
    /// input and leaves the position unchanged.
    pub fn seek(&mut self, pos: SeekFrom) -> (r: Result<u64, ErrorKind>)
        ensures
            final(self).spec_content() == old(self).spec_content(),
            ({
                let t = spec_seek_pos(
                    old(self).spec_offset(),
                    old(self).spec_content().len() as int,
                    pos,
                );
                if 0 <= t <= u64::MAX as int {
                    &&& r == Ok::<u64, ErrorKind>(t as u64)
                    &&& final(self).spec_offset() == t
                    &&& final(self).spec_state() == ReaderState::Positioned
                } else {
                    &&& r == Err::<u64, ErrorKind>(ErrorKind::InvalidInput)
                    &&& final(self).spec_offset() == old(self).spec_offset()
                    &&& final(self).spec_state() == old(self).spec_state()
                }
            }),
    {
        let base: u64 = match pos {
            SeekFrom::Start(_) => 0,
            SeekFrom::Current(_) => self.offset,
            SeekFrom::End(_) => self.content.len() as u64,
        };
        let delta: i64 = match pos {
            SeekFrom::Start(_) => 0,
            SeekFrom::Current(d) => d,
            SeekFrom::End(d) => d,
        };
        let new_off: u64 = match pos {
            SeekFrom::Start(n) => n,
            _ => {
                if delta >= 0 {
                    let du = delta as u64;
                    if base > u64::MAX - du {
                        return Err(ErrorKind::InvalidInput);
                    }
                    base + du
                } else {
                    let du: u64 = if delta == i64::MIN {
                        9223372036854775808u64
                    } else {
                        (-delta) as u64
                    };
                    if du > base {
                        return Err(ErrorKind::InvalidInput);
                    }
                    base - du
                }
            },
        };
        self.offset = new_off;
        self.state = ReaderState::Positioned;
        Ok(new_off)
    }

    /// Reads up to `n` bytes from the current position and advances it.
    /// At or past the end, zero further bytes come back without error.
    pub fn read(&mut self, n: usize) -> (r: Vec<u8>)
        ensures
            final(self).spec_content() == old(self).spec_content(),
            ({
                let len = old(self).spec_content().len() as int;
                let off = if old(self).spec_offset() > len {
                    len
                } else {
                    old(self).spec_offset()
                };
                let take = if n as int > len - off {
                    len - off
                } else {
                    n as int
                };
                &&& r@ == old(self).spec_content().subrange(off, off + take)
                &&& final(self).spec_offset() == off + take
                &&& final(self).spec_state() == (if off + take >= len {
                    ReaderState::Exhausted
                } else {
                    ReaderState::Positioned
                })
            }),
    {
        let len = self.content.len();
        let off: usize = if self.offset > len as u64 {
            len
        } else {
            self.offset as usize
        };
        let take: usize = if n > len - off {
            len - off
        } else {
            n
        };
        let mut out: Vec<u8> = Vec::new();
        let mut k: usize = 0;
        while k < take
            invariant
                k <= take,
                len == self.content@.len(),
                off + take <= len,
                out@ == self.content@.subrange(off as int, off + k),
            decreases take - k,
        {
            out.push(self.content[off + k]);
            proof {
                assert(out@ =~= self.content@.subrange(off as int, off + k + 1));
            }
            k += 1;
        }
        self.offset = (off + take) as u64;
        self.state = if off + take >= len {
            ReaderState::Exhausted
        } else {
            ReaderState::Positioned
        };
        out
    }

    /// Hands the pooled buffer back so the backend can release it.
    pub fn into_buf(self) -> (r: Vec<u8>)
        ensures
            r@ == self.spec_content(),
    {
        self.content
    }
}

impl FsBackend {
    /// The error a read open reports when it cannot succeed.
    pub open spec fn spec_read_err(&self, rel: Seq<char>) -> ErrorKind {
        if !self.core.spec_capability().read {
            ErrorKind::Unsupported
        } else if !paths::spec_rel_path(rel) {
            ErrorKind::InvalidInput
        } else {
            ErrorKind::NotFound
        }
    }

    /// Whether a read open succeeds.
    pub open spec fn spec_read_ok(&self, store: &RawStore, rel: Seq<char>) -> bool {
        &&& self.core.spec_capability().read
        &&& paths::spec_rel_path(rel)
        &&& store@.contains_key(self.core.spec_full(rel))
    }

    /// Opens a read operation: snapshots the object into a buffer drawn
    /// from the pool.
    pub fn read(&mut self, store: &RawStore, rel: &str) -> (r: Result<Reader, ErrorKind>)
        requires
            store.wf(),
            old(self).core.wf(),
        ensures
            final(self).core.wf(),
            final(self).core.info == old(self).core.info,
            final(self).core.root == old(self).core.root,
            final(self).core.atomic_write_dir == old(self).core.atomic_write_dir,
            final(self).core.buf_pool.spec_bound() == old(self).core.buf_pool.spec_bound(),
            final(self).core.buf_pool.spec_initial_capacity() == old(
                self,
            ).core.buf_pool.spec_initial_capacity(),
            match r {
                Ok(rd) => {
                    &&& old(self).spec_read_ok(store, rel@)
                    &&& rd.spec_content() == store@[old(self).core.spec_full(rel@)].data
                    &&& rd.spec_offset() == 0
                    &&& rd.spec_state() == ReaderState::Idle
                },
                Err(e) => {
                    &&& e == old(self).spec_read_err(rel@)
                    &&& !old(self).spec_read_ok(store, rel@)
                    &&& final(self).core.buf_pool.spec_size() == old(
                        self,
                    ).core.buf_pool.spec_size()
                },
            },
    {
        if !self.capability().read {
            return Err(ErrorKind::Unsupported);
        }
        if !paths::is_rel_path(rel) {
            return Err(ErrorKind::InvalidInput);
        }
        let full = self.full_path(rel);
        match store.read_file(full.as_str()) {
            None => Err(ErrorKind::NotFound),
            Some(f) => {
                let mut buf = self.core.buf_pool.checkout();
                crate::store::append_bytes(&mut buf, f.0.as_slice());
                proof {
                    assert(buf@ =~= store@[self.core.spec_full(rel@)].data);
                }
                Ok(Reader { content: buf, offset: 0, state: ReaderState::Idle })
            },
        }
    }

    /// Completes a read operation: releases its pooled buffer back to the
    /// pool. Reports whether the pool kept the buffer; the pool never
    /// grows past its bound.
    pub fn complete_read(&mut self, reader: Reader) -> (kept: bool)
        requires
            old(self).core.wf(),
        ensures
            final(self).core.wf(),
            final(self).core.info == old(self).core.info,
            final(self).core.root == old(self).core.root,
            final(self).core.atomic_write_dir == old(self).core.atomic_write_dir,
            final(self).core.buf_pool.spec_bound() == old(self).core.buf_pool.spec_bound(),
            final(self).core.buf_pool.spec_initial_capacity() == old(
                self,
            ).core.buf_pool.spec_initial_capacity(),
            kept == (old(self).core.buf_pool.spec_size() < old(self).core.buf_pool.spec_bound()
                && reader.spec_content().len() <= old(self).core.buf_pool.spec_initial_capacity()
                * crate::pool::ACCEPTABLE_GROWTH),
            final(self).core.buf_pool.spec_size() == if kept {
                old(self).core.buf_pool.spec_size() + 1
            } else {
                old(self).core.buf_pool.spec_size()
            },
            final(self).core.buf_pool.spec_size() <= final(self).core.buf_pool.spec_bound(),
    {
        let kept = self.core.buf_pool.release(reader.into_buf());
        proof {
            crate::pool::lemma_pool_size_bounded(self.core.buf_pool);
        }
        kept
    }

    /// Reads one whole object in a single call.
    pub fn read_full(&self, store: &RawStore, rel: &str) -> (r: Result<Vec<u8>, ErrorKind>)
        requires
            store.wf(),
            self.core.wf(),
        ensures
            match r {
                Ok(bytes) => {
                    &&& self.spec_read_ok(store, rel@)
                    &&& bytes@ == store@[self.core.spec_full(rel@)].data
                },
                Err(e) => {
                    &&& e == self.spec_read_err(rel@)
                    &&& !self.spec_read_ok(store, rel@)
                },
            },
    {
        if !self.capability().read {
            return Err(ErrorKind::Unsupported);
        }
        if !paths::is_rel_path(rel) {
            return Err(ErrorKind::InvalidInput);
        }
        let full = self.full_path(rel);
        match store.read_file(full.as_str()) {
            None => Err(ErrorKind::NotFound),
            Some(f) => Ok(copy_bytes(f.0.as_slice())),
        }
    }
}

} // verus!
