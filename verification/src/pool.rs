//! The request-scoped arena allocator and the borrowed byte-string view.
//!
//! The host owns a bump allocator per request; extension code only holds a
//! handle to it.  The model records the arena as the sequence of byte
//! buffers handed out so far, together with how much of the arena's
//! capacity is spent, so that allocation failure is an explicit outcome
//! rather than an unchecked null result.

use vstd::prelude::*;

verus! {

/// A handle to a host-managed arena tied to a single request.  Every
/// allocation stays valid until the host tears the request down; nothing
/// is ever freed one by one.
pub struct Pool {
    /// Total bytes the host granted this arena.
    pub capacity: usize,
    /// Bytes already spent.
    pub used: usize,
    /// The buffers handed out so far, in allocation order.
    pub buffers: Vec<Vec<u8>>,
}

impl Pool {
    /// The arena never spends more than its capacity.
    pub open spec fn wf(self) -> bool {
        self.used <= self.capacity
    }

    /// The arena's contents as a sequence of byte strings, in allocation
    /// order.
    pub open spec fn arena(self) -> Seq<Seq<u8>> {
        self.buffers@.map_values(|b: Vec<u8>| b@)
    }

    /// The bytes held by allocation `h`.
    pub open spec fn allocation(self, h: int) -> Seq<u8> {
        self.arena()[h]
    }

    /// Bytes still available.
    pub open spec fn remaining(self) -> int {
        self.capacity - self.used
    }

    /// What a successful allocation does: `bytes` is copied in as the new
    /// last buffer `h`, the spent count grows by its length, and the
    /// capacity stays.
    pub open spec fn allocate_ok(pre: Pool, post: Pool, bytes: Seq<u8>, h: int) -> bool {
        &&& h == pre.arena().len()
        &&& post.arena() == pre.arena().push(bytes)
        &&& post.used == pre.used + bytes.len()
        &&& post.capacity == pre.capacity
    }

    /// Copies the byte representation of `value` into arena storage and
    /// returns a handle to it, or reports failure when the arena lacks
    /// room, leaving the arena untouched.
    pub fn allocate(&mut self, value: Vec<u8>) -> (r: Option<usize>)
        requires
            old(self).wf(),
        ensures
            final(self).wf(),
            match r {
                Some(h) => {
                    &&& value@.len() <= old(self).remaining()
                    &&& Pool::allocate_ok(*old(self), *final(self), value@, h as int)
                },
                None => {
                    &&& value@.len() > old(self).remaining()
                    &&& *final(self) == *old(self)
                },
            },
    {
        if value.len() <= self.capacity - self.used {
            let h = self.buffers.len();
            self.used = self.used + value.len();
            let ghost pre_arena = self.arena();
            let ghost bytes = value@;
            self.buffers.push(value);
            proof {
                assert(self.arena() =~= pre_arena.push(bytes));
            }
            Some(h)
        } else {
            None
        }
    }
}

/// A length-prefixed byte-string view.  The referent is owned by the host
/// request record or by the request's arena, never by the view; the model
/// carries the viewed bytes by value.
pub struct StringView {
    /// The bytes the view ranges over.
    pub bytes: Vec<u8>,
}

impl View for StringView {
    type V = Seq<u8>;

    open spec fn view(&self) -> Seq<u8> {
        self.bytes@
    }
}

impl StringView {
    /// A view over bytes the host already holds.
    pub fn from_bytes(bytes: Vec<u8>) -> (r: StringView)
        ensures
            r@ == bytes@,
    {
        StringView { bytes }
    }

    /// A view over allocation `h` of `pool`.
    pub fn from_allocation(pool: &Pool, h: usize) -> (r: StringView)
        requires
            h < pool.arena().len(),
        ensures
            r@ == pool.allocation(h as int),
    {
        StringView { bytes: copy_bytes(&pool.buffers[h]) }
    }

    /// Length of the viewed bytes.
    pub fn len(&self) -> (r: usize)
        ensures
            r == self@.len(),
    {
        self.bytes.len()
    }

    /// Whether the view ranges over no bytes at all.
    pub fn is_empty(&self) -> (r: bool)
        ensures
            r == (self@.len() == 0),
    {
        self.bytes.len() == 0
    }

    /// The viewed bytes.
    pub fn as_bytes(&self) -> (r: &Vec<u8>)
        ensures
            r@ == self@,
    {
        &self.bytes
    }
}

/// An explicit copy of a byte buffer.
pub fn copy_bytes(src: &Vec<u8>) -> (r: Vec<u8>)
    ensures
        r@ == src@,
{
    let mut out: Vec<u8> = Vec::new();
    let mut i: usize = 0;
    while i < src.len()
        invariant
            i <= src@.len(),
            out@ == src@.take(i as int),
        decreases src@.len() - i,
    {
        out.push(src[i]);
        proof {
            assert(out@ =~= src@.take(i + 1));
        }
        i = i + 1;
    }
    proof {
        assert(src@.take(src@.len() as int) =~= src@);
    }
    out
}

/// Law: bytes written through the arena are reproduced exactly when read
/// back through a view built over that allocation.
pub proof fn lemma_pool_round_trip(pre: Pool, post: Pool, bytes: Seq<u8>, h: int)
    requires
        Pool::allocate_ok(pre, post, bytes, h),
    ensures
        post.allocation(h) == bytes,
{
}

} // verus!
