//! Receive buffers with stable addresses, pooled for reuse, and a
//! quarantine for buffers whose owning operation was cancelled while an
//! I/O submission was still registered against them.

use vstd::prelude::*;
use crate::wire::zeros;

verus! {

/// An owned receive buffer: backing bytes, a logical length of valid data,
/// and a poison mark set when a cancelled operation may still touch it.
#[derive(Debug)]
pub struct OwnedBuf {
    data: Vec<u8>,
    len: usize,
    poisoned: bool,
}

impl OwnedBuf {
    /// The backing bytes.
    pub closed spec fn spec_data(&self) -> Seq<u8> {
        self.data@
    }

    /// The buffer's capacity.
    pub open spec fn spec_capacity(&self) -> nat {
        self.spec_data().len()
    }

    /// The logical length of valid data.
    pub closed spec fn spec_len(&self) -> nat {
        self.len as nat
    }

    /// Whether the buffer is poisoned.
    pub closed spec fn spec_poisoned(&self) -> bool {
        self.poisoned
    }

    /// The logical length never exceeds the capacity.
    pub open spec fn wf(&self) -> bool {
        self.spec_len() <= self.spec_capacity()
    }

    /// A zero-filled buffer of the given capacity, empty and clean.
    pub fn with_capacity(capacity: usize) -> (r: OwnedBuf)
        ensures
            r.wf(),
            r.spec_capacity() == capacity,
            r.spec_data() == zeros(capacity as nat),
            r.spec_len() == 0,
            !r.spec_poisoned(),
    {
        let r = OwnedBuf { data: vec![0u8; capacity], len: 0, poisoned: false };
        proof {
            assert(r.spec_data() =~= zeros(capacity as nat));
        }
        r
    }

    /// The capacity.
    pub fn capacity(&self) -> (r: usize)
        ensures
            r == self.spec_capacity(),
    {
        self.data.len()
    }

    /// The logical length of valid data.
    pub fn len(&self) -> (r: usize)
        ensures
            r == self.spec_len(),
    {
        self.len
    }

    /// Set the logical length; it must fit the capacity.
    pub fn set_len(&mut self, len: usize)
        requires
            len <= old(self).spec_capacity(),
        ensures
            final(self).wf(),
            final(self).spec_len() == len,
            final(self).spec_data() == old(self).spec_data(),
            final(self).spec_poisoned() == old(self).spec_poisoned(),
    {
        self.len = len;
    }

    /// The valid data: the first `len` bytes.
    pub fn as_slice(&self) -> (r: &[u8])
        requires
            self.wf(),
        ensures
            r@ == self.spec_data().take(self.spec_len() as int),
    {
        let len: usize = self.len;
        vstd::slice::slice_subrange(self.data.as_slice(), 0, len)
    }

    /// The whole backing store, writable.
    pub fn as_mut_slice(&mut self) -> (r: &mut [u8])
        ensures
            r@ == old(self).spec_data(),
            final(self).spec_data() == final(r)@,
            final(self).spec_len() == old(self).spec_len(),
            final(self).spec_poisoned() == old(self).spec_poisoned(),
    {
        self.data.as_mut_slice()
    }

    /// Whether a cancelled operation may still touch this buffer.
    pub fn is_poisoned(&self) -> (r: bool)
        ensures
            r == self.spec_poisoned(),
    {
        self.poisoned
    }

    /// Mark the buffer as possibly still registered with the I/O backend.
    pub fn poison(&mut self)
        ensures
            final(self).spec_poisoned(),
            final(self).spec_data() == old(self).spec_data(),
            final(self).spec_len() == old(self).spec_len(),
    {
        self.poisoned = true;
    }

    /// Reset for reuse: no valid data, not poisoned.
    pub fn reset(&mut self)
        ensures
            final(self).wf(),
            final(self).spec_len() == 0,
            !final(self).spec_poisoned(),
            final(self).spec_data() == old(self).spec_data(),
    {
        self.len = 0;
        self.poisoned = false;
    }
}

/// A pool of reusable receive buffers. Released clean buffers go back to
/// the free list; released poisoned buffers wait in the quarantine, which
/// only `clear_quarantine` — called at session close, once the I/O
/// backend has retired every submission — ever empties. `acquire` never
/// touches the quarantine: while the free list is exhausted it allocates
/// fresh buffers instead.
pub struct BufferPool {
    available: Vec<OwnedBuf>,
    quarantine: Vec<OwnedBuf>,
    buffer_size: usize,
}

impl BufferPool {
    /// The free list, oldest first; `acquire` takes from its back.
    pub closed spec fn spec_free(&self) -> Seq<OwnedBuf> {
        self.available@
    }

    /// The quarantine, in release order.
    pub closed spec fn spec_quarantine(&self) -> Seq<OwnedBuf> {
        self.quarantine@
    }

    /// How many buffers sit on the free list.
    pub open spec fn spec_available(&self) -> nat {
        self.spec_free().len()
    }

    /// How many buffers sit in the quarantine.
    pub open spec fn spec_quarantined(&self) -> nat {
        self.spec_quarantine().len()
    }

    /// The capacity of every buffer of this pool.
    pub closed spec fn spec_buffer_size(&self) -> nat {
        self.buffer_size as nat
    }

    /// A buffer this pool may hold: well formed, with the pool's capacity.
    pub open spec fn pool_buf(&self, b: OwnedBuf) -> bool {
        b.wf() && b.spec_capacity() == self.spec_buffer_size()
    }

    /// Every pooled buffer is well formed and has the pool's capacity.
    pub open spec fn wf(&self) -> bool {
        &&& forall|i: int| 0 <= i < self.spec_free().len()
            ==> self.pool_buf(#[trigger] self.spec_free()[i])
        &&& forall|i: int| 0 <= i < self.spec_quarantine().len()
            ==> self.pool_buf(#[trigger] self.spec_quarantine()[i])
    }

    /// A pool of `count` fresh buffers, each of `buffer_size` bytes,
    /// zero-filled, empty and clean; the quarantine starts empty.
    pub fn new(count: usize, buffer_size: usize) -> (r: BufferPool)
        ensures
            r.wf(),
            r.spec_available() == count,
            r.spec_quarantined() == 0,
            r.spec_buffer_size() == buffer_size,
            forall|i: int| 0 <= i < count ==> {
                let b = #[trigger] r.spec_free()[i];
                &&& b.spec_capacity() == buffer_size
                &&& b.spec_len() == 0
                &&& !b.spec_poisoned()
            },
    {
        let mut available: Vec<OwnedBuf> = Vec::new();
        let mut i: usize = 0;
        while i < count
            invariant
                i <= count,
                available@.len() == i,
                forall|k: int| 0 <= k < i ==> {
                    let b = #[trigger] available@[k];
                    &&& b.wf()
                    &&& b.spec_capacity() == buffer_size
                    &&& b.spec_len() == 0
                    &&& !b.spec_poisoned()
                },
            decreases count - i,
        {
            available.push(OwnedBuf::with_capacity(buffer_size));
            i = i + 1;
        }
        BufferPool { available, quarantine: Vec::new(), buffer_size }
    }

    /// Take a buffer: the last one of the free list, reset, or a fresh
    /// zero-filled allocation when the free list is empty. The quarantine
    /// is never touched: a quarantined buffer may still be written to by
    /// a cancelled submission, so it stays put until the close-time drain.
    pub fn acquire(&mut self) -> (r: Option<OwnedBuf>)
        requires
            old(self).wf(),
        ensures
            final(self).wf(),
            r is Some,
            final(self).spec_quarantine() == old(self).spec_quarantine(),
            final(self).spec_buffer_size() == old(self).spec_buffer_size(),
            r matches Some(b) ==> {
                &&& b.wf()
                &&& b.spec_len() == 0
                &&& !b.spec_poisoned()
                &&& b.spec_capacity() == old(self).spec_buffer_size()
            },
            old(self).spec_available() > 0 ==> {
                &&& final(self).spec_free() == old(self).spec_free().drop_last()
                &&& r matches Some(b)
                    ==> b.spec_data() == old(self).spec_free().last().spec_data()
            },
            old(self).spec_available() == 0 ==> {
                &&& final(self).spec_free() == old(self).spec_free()
                &&& r matches Some(b)
                    ==> b.spec_data() == zeros(old(self).spec_buffer_size())
            },
    {
        if let Some(mut buf) = self.available.pop() {
            buf.reset();
            proof {
                assert(self.spec_quarantine() =~= old(self).spec_quarantine());
                assert forall|i: int| 0 <= i < self.spec_free().len()
                    implies self.pool_buf(#[trigger] self.spec_free()[i]) by {
                    assert(self.spec_free()[i] == old(self).spec_free()[i]);
                    assert(old(self).pool_buf(old(self).spec_free()[i]));
                }
                assert forall|i: int| 0 <= i < self.spec_quarantine().len()
                    implies self.pool_buf(#[trigger] self.spec_quarantine()[i]) by {
                    assert(old(self).pool_buf(old(self).spec_quarantine()[i]));
                }
            }
            return Some(buf);
        }
        proof {
            assert(self.spec_free() =~= old(self).spec_free());
            assert(self.spec_quarantine() =~= old(self).spec_quarantine());
            assert forall|i: int| 0 <= i < self.spec_free().len()
                implies self.pool_buf(#[trigger] self.spec_free()[i]) by {
                assert(old(self).pool_buf(old(self).spec_free()[i]));
            }
            assert forall|i: int| 0 <= i < self.spec_quarantine().len()
                implies self.pool_buf(#[trigger] self.spec_quarantine()[i]) by {
                assert(old(self).pool_buf(old(self).spec_quarantine()[i]));
            }
        }
        Some(OwnedBuf::with_capacity(self.buffer_size))
    }

    /// Return this very buffer to the pool: a clean one is appended to
    /// the free list, a poisoned one to the quarantine; the rest of the
    /// pool is untouched either way.
    pub fn release(&mut self, buf: OwnedBuf)
        requires
            old(self).wf(),
            buf.wf(),
            buf.spec_capacity() == old(self).spec_buffer_size(),
        ensures
            final(self).wf(),
            final(self).spec_buffer_size() == old(self).spec_buffer_size(),
            buf.spec_poisoned() ==> {
                &&& final(self).spec_quarantine() == old(self).spec_quarantine().push(buf)
                &&& final(self).spec_free() == old(self).spec_free()
            },
            !buf.spec_poisoned() ==> {
                &&& final(self).spec_free() == old(self).spec_free().push(buf)
                &&& final(self).spec_quarantine() == old(self).spec_quarantine()
            },
    {
        if buf.is_poisoned() {
            self.quarantine.push(buf);
            proof {
                assert(self.spec_free() =~= old(self).spec_free());
                assert forall|i: int| 0 <= i < self.spec_quarantine().len()
                    implies self.pool_buf(#[trigger] self.spec_quarantine()[i]) by {
                    if i < old(self).spec_quarantine().len() {
                        assert(self.spec_quarantine()[i] == old(self).spec_quarantine()[i]);
                        assert(old(self).pool_buf(old(self).spec_quarantine()[i]));
                    } else {
                        assert(self.spec_quarantine()[i] == buf);
                    }
                }
                assert forall|i: int| 0 <= i < self.spec_free().len()
                    implies self.pool_buf(#[trigger] self.spec_free()[i]) by {
                    assert(old(self).pool_buf(old(self).spec_free()[i]));
                }
            }
        } else {
            self.available.push(buf);
            proof {
                assert(self.spec_quarantine() =~= old(self).spec_quarantine());
                assert forall|i: int| 0 <= i < self.spec_free().len()
                    implies self.pool_buf(#[trigger] self.spec_free()[i]) by {
                    if i < old(self).spec_free().len() {
                        assert(self.spec_free()[i] == old(self).spec_free()[i]);
                        assert(old(self).pool_buf(old(self).spec_free()[i]));
                    } else {
                        assert(self.spec_free()[i] == buf);
                    }
                }
                assert forall|i: int| 0 <= i < self.spec_quarantine().len()
                    implies self.pool_buf(#[trigger] self.spec_quarantine()[i]) by {
                    assert(old(self).pool_buf(old(self).spec_quarantine()[i]));
                }
            }
        }
    }

    /// Drain the quarantine: reset every held buffer — keeping its
    /// backing bytes — and append it, in order, to the free list. Called
    /// at session close, when the I/O backend has retired every
    /// submission.
    pub fn clear_quarantine(&mut self)
        requires
            old(self).wf(),
        ensures
            final(self).wf(),
            final(self).spec_quarantined() == 0,
            final(self).spec_free().len()
                == old(self).spec_free().len() + old(self).spec_quarantine().len(),
            final(self).spec_buffer_size() == old(self).spec_buffer_size(),
            forall|i: int| 0 <= i < old(self).spec_free().len()
                ==> final(self).spec_free()[i] == old(self).spec_free()[i],
            forall|j: int| 0 <= j < old(self).spec_quarantine().len() ==> {
                let b = #[trigger] final(self).spec_free()[old(self).spec_free().len() + j];
                &&& b.spec_data() == old(self).spec_quarantine()[j].spec_data()
                &&& b.spec_len() == 0
                &&& !b.spec_poisoned()
            },
    {
        let ghost free0 = old(self).spec_free();
        let ghost quar0 = old(self).spec_quarantine();
        while self.quarantine.len() > 0
            invariant
                self.wf(),
                self.spec_buffer_size() == old(self).spec_buffer_size(),
                self.spec_free().len() >= free0.len(),
                self.spec_free().len() + self.spec_quarantine().len()
                    == free0.len() + quar0.len(),
                self.spec_quarantine()
                    == quar0.skip(self.spec_free().len() - free0.len()),
                forall|i: int| 0 <= i < free0.len()
                    ==> self.spec_free()[i] == free0[i],
                forall|j: int| 0 <= j < self.spec_free().len() - free0.len() ==> {
                    let b = #[trigger] self.spec_free()[free0.len() + j];
                    &&& b.spec_data() == quar0[j].spec_data()
                    &&& b.spec_len() == 0
                    &&& !b.spec_poisoned()
                },
            decreases self.quarantine@.len(),
        {
            let mut buf = self.quarantine.remove(0);
            buf.reset();
            self.available.push(buf);
            proof {
                assert(self.spec_quarantine()
                    =~= quar0.skip(self.spec_free().len() - free0.len()));
            }
        }
        proof {
            assert(self.spec_quarantine() =~= Seq::<OwnedBuf>::empty());
        }
    }
}

} // verus!
