//! Fixed-capacity memory management: object pools, bump arenas and byte
//! ring buffers. Capacities are fixed at construction; nothing grows later.

use vstd::prelude::*;
use vstd::slice::slice_subrange;
use vstd::set_lib::{lemma_int_range, lemma_len_subset, set_int_range};
use vstd::bits::{lemma_usize_low_bits_mask_is_mod, lemma_usize_pow2_no_overflow, low_bits_mask};
use vstd::arithmetic::power2::{lemma2_to64, lemma2_to64_rest, lemma_pow2_strictly_increases, pow2};
use vstd::arithmetic::div_mod::{lemma_fundamental_div_mod, lemma_mod_multiples_basic};

verus! {

/// The index value that marks a null handle.
pub const NULL_INDEX: u16 = 65535;

/// Handle to an object slot of a [`Pool`].
#[derive(Clone, Copy, Debug, PartialEq, Eq, Structural)]
pub struct PoolHandle {
    index: u16,
    generation: u16,
}

impl PoolHandle {
    /// Slot index named by this handle.
    pub closed spec fn slot(self) -> u16 {
        self.index
    }

    /// Generation counter stored in this handle.
    pub closed spec fn gen(self) -> u16 {
        self.generation
    }

    /// The handle that names slot `index` with generation 0.
    pub closed spec fn spec_make(index: u16) -> PoolHandle {
        PoolHandle { index, generation: 0 }
    }

    /// The handle made for slot `index` names that slot, with generation 0;
    /// handles are equal exactly when slot and generation are.
    pub proof fn lemma_spec_make(index: u16, h: PoolHandle)
        ensures
            PoolHandle::spec_make(index).slot() == index,
            PoolHandle::spec_make(index).gen() == 0,
            (h == PoolHandle::spec_make(index)) <==> (h.slot() == index && h.gen() == 0),
    {
    }

    /// The handle that names no slot.
    pub fn null() -> (h: Self)
        ensures
            h.slot() == NULL_INDEX,
            h.gen() == 0,
    {
        PoolHandle { index: NULL_INDEX, generation: 0 }
    }

    /// Whether this handle names no slot.
    pub fn is_null(&self) -> (b: bool)
        ensures
            b == (self.slot() == NULL_INDEX),
    {
        self.index == NULL_INDEX
    }
}


/// Fixed-capacity object pool with `N` slots.
///
/// Free slots are kept on a stack: `allocate` takes the slot on top, `free`
/// puts a slot back on top. Every slot always holds a value: `T::default()`
/// until written through [`Pool::get_uninit_mut`] or [`Pool::get_mut`].
pub struct Pool<T, const N: usize> {
    storage: Vec<T>,
    free_indices: Vec<u16>,
    free_count: u16,
    used_count: u16,
}

impl<T, const N: usize> Pool<T, N> {
    /// Well-formedness: `N` slots, `N` entries of the free stack, every free
    /// entry names a slot, no slot is free twice, and free plus used slots
    /// add up to `N`. [`Pool::lemma_wf`] states what it gives callers.
    pub closed spec fn wf(&self) -> bool {
        &&& N <= NULL_INDEX
        &&& self.storage@.len() == N
        &&& self.free_indices@.len() == N
        &&& self.free_count + self.used_count == N
        &&& forall|i: int| 0 <= i < self.free_count ==> self.free_indices@[i] < N
        &&& self.free_indices@.take(self.free_count as int).no_duplicates()
    }

    /// The stack of free slot indices, bottom first.
    pub closed spec fn free_slots(&self) -> Seq<u16> {
        self.free_indices@.take(self.free_count as int)
    }

    /// Number of slots handed out and not freed.
    pub closed spec fn used_slots(&self) -> nat {
        self.used_count as nat
    }

    /// Contents of the slots, by index.
    pub closed spec fn contents(&self) -> Seq<T> {
        self.storage@
    }

    /// Whether `handle` names one of the `N` slots.
    pub open spec fn names_slot(handle: PoolHandle) -> bool {
        handle.slot() != NULL_INDEX && handle.slot() < N
    }

    /// Whether `handle` is live in this pool: it names a slot that is not
    /// on the free stack (it was handed out and not freed since).
    pub open spec fn is_live(&self, handle: PoolHandle) -> bool {
        Self::names_slot(handle) && !self.free_slots().contains(handle.slot())
    }

    /// What well-formedness gives a caller: at most 65535 slots, one content
    /// entry per slot, a free stack of distinct slots below `N`, and free
    /// plus used slots adding up to `N`.
    pub proof fn lemma_wf(&self)
        requires
            self.wf(),
        ensures
            N <= NULL_INDEX,
            self.contents().len() == N,
            self.free_slots().len() + self.used_slots() == N,
            self.free_slots().no_duplicates(),
            forall|i: int| 0 <= i < self.free_slots().len() ==> #[trigger] self.free_slots()[i] < N,
    {
    }

    /// What [`Pool::allocate`] does: with no free slot it returns `None` and
    /// changes nothing; otherwise it pops the top of the free stack and
    /// returns a generation-0 handle to that slot. Slot contents never change.
    pub open spec fn allocate_step(before: Self, after: Self, r: Option<PoolHandle>) -> bool {
        &&& after.wf()
        &&& after.contents() == before.contents()
        &&& before.free_slots().len() == 0 ==> {
            &&& r is None
            &&& after.free_slots() == before.free_slots()
            &&& after.used_slots() == before.used_slots()
        }
        &&& before.free_slots().len() > 0 ==> {
            &&& r == Some(PoolHandle::spec_make(before.free_slots().last()))
            &&& Self::names_slot(r->0)
            &&& !before.is_live(r->0)
            &&& after.is_live(r->0)
            &&& after.free_slots() == before.free_slots().drop_last()
            &&& after.used_slots() == before.used_slots() + 1
        }
    }

    /// What [`Pool::free`] does: a handle that names no slot changes nothing;
    /// otherwise its slot is pushed on the free stack and one fewer slot is in
    /// use. Slot contents never change.
    pub open spec fn free_step(before: Self, after: Self, handle: PoolHandle) -> bool {
        &&& after.wf()
        &&& after.contents() == before.contents()
        &&& !Self::names_slot(handle) ==> {
            &&& after.free_slots() == before.free_slots()
            &&& after.used_slots() == before.used_slots()
        }
        &&& Self::names_slot(handle) ==> {
            &&& after.free_slots() == before.free_slots().push(handle.slot())
            &&& after.used_slots() == before.used_slots() - 1
        }
    }

    /// A pool whose free stack holds every slot, slot 0 at the bottom, and
    /// whose slots each hold `T::default()`.
    /// Slots are counted and named in 16 bits, with the last value kept for
    /// the null handle, so a pool has at most 65535 slots.
    pub fn new() -> (p: Self)
        where
            T: Default,
        requires
            N <= NULL_INDEX,
        ensures
            p.wf(),
            p.free_slots() == Seq::new(N as nat, |i: int| i as u16),
            p.free_slots().no_duplicates(),
            p.used_slots() == 0,
    {
        let mut storage: Vec<T> = Vec::new();
        let mut free_indices: Vec<u16> = Vec::new();
        let mut i: usize = 0;
        while i < N
            invariant
                N <= NULL_INDEX,
                i <= N,
                storage@.len() == i,
                free_indices@.len() == i,
                forall|j: int| 0 <= j < i ==> free_indices@[j] == j as u16,
            decreases N - i,
        {
            free_indices.push(i as u16);
            storage.push(T::default());
            i += 1;
        }
        let p = Pool { storage, free_indices, free_count: N as u16, used_count: 0 };
        assert(p.free_slots() =~= Seq::new(N as nat, |i: int| i as u16));
        assert forall|a: int, b: int|
            0 <= a < b < p.free_slots().len() implies p.free_slots()[a] != p.free_slots()[b] by {
            assert(p.free_slots()[a] == a as u16);
            assert(p.free_slots()[b] == b as u16);
        }
        p
    }

    /// Takes the slot on top of the free stack; `None` when no slot is free.
    pub fn allocate(&mut self) -> (r: Option<PoolHandle>)
        requires
            old(self).wf(),
        ensures
            Self::allocate_step(*old(self), *final(self), r),
    {
        if self.free_count == 0 {
            return None;
        }
        self.free_count -= 1;
        let index = self.free_indices[self.free_count as usize];
        self.used_count += 1;
        let ghost s0 = old(self).free_slots();
        assert(self.free_slots() =~= s0.drop_last());
        assert(index == s0.last());
        assert(s0.contains(index));
        assert(!self.free_slots().contains(index)) by {
            if self.free_slots().contains(index) {
                let k = choose|k: int| 0 <= k < self.free_slots().len() && self.free_slots()[k] == index;
                assert(s0[k] == s0[s0.len() - 1]);
            }
        }
        Some(PoolHandle { index, generation: 0 })
    }

    /// Puts the slot of `handle` back on top of the free stack. A null handle,
    /// or one whose slot is not below `N`, is ignored; any other handle must
    /// be live (handed out and not freed since).
    pub fn free(&mut self, handle: PoolHandle)
        requires
            old(self).wf(),
            !Self::names_slot(handle) || old(self).is_live(handle),
        ensures
            Self::free_step(*old(self), *final(self), handle),
    {
        if handle.is_null() || handle.index as usize >= N {
            return;
        }
        proof {
            lemma_free_stack_excluding_is_short(old(self).free_slots(), N as int, handle.slot());
        }
        let fc = self.free_count as usize;
        self.free_indices.set(fc, handle.index);
        self.free_count += 1;
        self.used_count -= 1;
        assert(self.free_slots() =~= old(self).free_slots().push(handle.slot()));
    }

    /// The object in the slot of `handle`; `None` for a handle that names no
    /// slot. Liveness is not checked: a slot that was freed, or never
    /// written, still gives the value it holds.
    pub fn get(&self, handle: PoolHandle) -> (r: Option<&T>)
        requires
            self.wf(),
        ensures
            !Self::names_slot(handle) ==> r is None,
            Self::names_slot(handle) ==> r == Some(&self.contents()[handle.slot() as int]),
    {
        if handle.is_null() || handle.index as usize >= N {
            return None;
        }
        Some(&self.storage[handle.index as usize])
    }

    /// Mutable access to the object in the slot of `handle`; `None` for a
    /// handle that names no slot.
    pub fn get_mut(&mut self, handle: PoolHandle) -> (r: Option<&mut T>)
        requires
            old(self).wf(),
        ensures
            !Self::names_slot(handle) ==> r is None && *final(self) == *old(self),
            Self::names_slot(handle) ==> {
                &&& r is Some
                &&& *r->0 == old(self).contents()[handle.slot() as int]
                &&& final(self).wf()
                &&& final(self).free_slots() == old(self).free_slots()
                &&& final(self).used_slots() == old(self).used_slots()
                &&& final(self).contents() == old(self).contents().update(handle.slot() as int, *final(r->0))
            },
    {
        if handle.is_null() || handle.index as usize >= N {
            return None;
        }
        Some(&mut self.storage[handle.index as usize])
    }

    /// The slot of `handle`, to be filled by the caller (the pool's way to
    /// put an object in a freshly allocated slot); `None` for a handle that
    /// names no slot.
    pub fn get_uninit_mut(&mut self, handle: PoolHandle) -> (r: Option<&mut T>)
        requires
            old(self).wf(),
        ensures
            !Self::names_slot(handle) ==> r is None && *final(self) == *old(self),
            Self::names_slot(handle) ==> {
                &&& r is Some
                &&& *r->0 == old(self).contents()[handle.slot() as int]
                &&& final(self).wf()
                &&& final(self).free_slots() == old(self).free_slots()
                &&& final(self).used_slots() == old(self).used_slots()
                &&& final(self).contents() == old(self).contents().update(handle.slot() as int, *final(r->0))
            },
    {
        if handle.is_null() || handle.index as usize >= N {
            return None;
        }
        Some(&mut self.storage[handle.index as usize])
    }

    /// Number of slots.
    pub fn capacity(&self) -> (n: usize)
        ensures
            n == N,
    {
        N
    }

    /// Number of slots handed out and not freed.
    pub fn used(&self) -> (n: u16)
        requires
            self.wf(),
        ensures
            n == self.used_slots(),
    {
        self.used_count
    }

    /// Number of free slots.
    pub fn available(&self) -> (n: u16)
        requires
            self.wf(),
        ensures
            n == self.free_slots().len(),
    {
        self.free_count
    }
}


/// The offset `offset` rounded up by `align` the way the arena does it:
/// `(offset + align - 1) & !(align - 1)`.
pub open spec fn aligned_offset(offset: usize, align: usize) -> usize {
    ((offset + align - 1) as usize) & !((align - 1) as usize)
}

/// `&mut v[start..end]` (std's `IndexMut<Range<usize>>` on a vector's
/// slice). Claims: the subslice holds `v[start..end]`, the vector keeps its
/// length, and when the borrow ends the vector holds its old bytes around
/// whatever the subslice then holds.
#[verifier::external_body]
fn vec_range_mut(v: &mut Vec<u8>, start: usize, end: usize) -> (s: &mut [u8])
    requires
        start <= end <= old(v)@.len(),
    ensures
        s@ == old(v)@.subrange(start as int, end as int),
        final(s)@.len() == end - start,
        final(v)@ == old(v)@.subrange(0, start as int) + final(s)@ + old(v)@.subrange(
            end as int,
            old(v)@.len() as int,
        ),
{
    &mut v[start..end]
}

/// A free stack of distinct slots below `n` that leaves out slot `x < n` is
/// shorter than `n`: some slot is in use.
proof fn lemma_free_stack_excluding_is_short(s: Seq<u16>, n: int, x: u16)
    requires
        s.no_duplicates(),
        forall|i: int| 0 <= i < s.len() ==> #[trigger] s[i] < n,
        x < n,
        !s.contains(x),
    ensures
        s.len() < n,
{
    let t = s.map_values(|v: u16| v as int);
    assert forall|a: int, b: int| 0 <= a < b < t.len() implies t[a] != t[b] by {
        assert(s[a] != s[b]);
    }
    assert(t.no_duplicates());
    t.unique_seq_to_set();
    let r = set_int_range(0, n).remove(x as int);
    assert forall|v: int| t.to_set().contains(v) implies r.contains(v) by {
        let i = choose|i: int| 0 <= i < t.len() && t[i] == v;
        assert(s[i] < n);
        assert(s[i] != x) by {
            if s[i] == x {
                assert(s.contains(x));
            }
        }
    }
    lemma_int_range(0, n);
    assert(set_int_range(0, n).contains(x as int));
    lemma_len_subset(t.to_set(), r);
}

/// Linear arena of `N` bytes: bump allocation, everything freed at once by
/// [`Arena::reset`].
pub struct Arena<const N: usize> {
    buffer: Vec<u8>,
    offset: usize,
}

impl<const N: usize> Arena<N> {
    /// Well-formedness: `N` bytes of buffer, of which at most all are used.
    /// [`Arena::lemma_wf`] states what it gives callers.
    pub closed spec fn wf(&self) -> bool {
        &&& N <= isize::MAX
        &&& self.buffer@.len() == N
        &&& self.offset <= N
    }

    /// What well-formedness gives a caller: `N` bytes (no more than
    /// `isize::MAX`), at most `N` used.
    pub proof fn lemma_wf(&self)
        requires
            self.wf(),
        ensures
            N <= isize::MAX,
            self.contents().len() == N,
            self.used_bytes() <= N,
    {
    }

    /// Bytes consumed so far, alignment padding included.
    pub closed spec fn used_bytes(&self) -> usize {
        self.offset
    }

    /// The bytes of the arena.
    pub closed spec fn contents(&self) -> Seq<u8> {
        self.buffer@
    }

    /// An arena of `N` zero bytes with nothing allocated. (`N` cannot
    /// exceed `isize::MAX`: no buffer of more bytes exists.)
    pub fn new() -> (a: Self)
        requires
            N <= isize::MAX,
        ensures
            a.wf(),
            a.used_bytes() == 0,
            a.contents() == Seq::new(N as nat, |i: int| 0u8),
    {
        let mut buffer: Vec<u8> = Vec::new();
        let mut i: usize = 0;
        while i < N
            invariant
                i <= N,
                buffer@.len() == i,
                forall|j: int| 0 <= j < i ==> buffer@[j] == 0u8,
            decreases N - i,
        {
            buffer.push(0u8);
            i += 1;
        }
        let a = Arena { buffer, offset: 0 };
        assert(a.contents() =~= Seq::new(N as nat, |i: int| 0u8));
        a
    }

    /// Hands out `size` bytes starting at the current offset rounded up by
    /// `align`; `None`, with nothing changed, when they do not fit in `N`.
    /// The rounding computes `used + align` before subtracting 1, so that sum
    /// must not overflow, nor the end of the allocation.
    pub fn allocate(&mut self, size: usize, align: usize) -> (r: Option<&mut [u8]>)
        requires
            old(self).wf(),
            1 <= align,
            old(self).used_bytes() + align <= usize::MAX,
            aligned_offset(old(self).used_bytes(), align) + size <= usize::MAX,
        ensures
            ({
                let start = aligned_offset(old(self).used_bytes(), align) as int;
                &&& start + size > N ==> r is None && *final(self) == *old(self)
                &&& start + size <= N ==> {
                    &&& r is Some
                    &&& r->0@ == old(self).contents().subrange(start, start + size)
                    &&& final(self).wf()
                    &&& final(self).used_bytes() == start + size
                    &&& final(self).contents() == old(self).contents().subrange(0, start)
                        + final(r->0)@ + old(self).contents().subrange(start + size, N as int)
                }
            }),
    {
        let aligned = (self.offset + align - 1) & !(align - 1);
        if aligned + size > N {
            return None;
        }
        let start = aligned;
        self.offset = aligned + size;
        let end = self.offset;
        Some(vec_range_mut(&mut self.buffer, start, end))
    }

    /// Frees every allocation at once; the bytes stay as they are.
    pub fn reset(&mut self)
        requires
            old(self).wf(),
        ensures
            final(self).wf(),
            final(self).used_bytes() == 0,
            final(self).contents() == old(self).contents(),
    {
        self.offset = 0;
    }

    /// Number of bytes of the arena.
    pub fn capacity(&self) -> (n: usize)
        ensures
            n == N,
    {
        N
    }

    /// Bytes consumed so far, alignment padding included.
    pub fn used(&self) -> (n: usize)
        ensures
            n == self.used_bytes(),
    {
        self.offset
    }
}


/// How far position `j` of a ring of `n` bytes lies after position `start`,
/// going forward and wrapping at `n`.
pub open spec fn ring_distance(j: int, start: int, n: int) -> int {
    if j >= start {
        j - start
    } else {
        j + n - start
    }
}

/// The ring `buf` after `data` is written into it starting at position
/// `start` and wrapping around at its end.
pub open spec fn ring_write(buf: Seq<u8>, start: int, data: Seq<u8>) -> Seq<u8> {
    Seq::new(
        buf.len(),
        |j: int|
            if ring_distance(j, start, buf.len() as int) < data.len() {
                data[ring_distance(j, start, buf.len() as int)]
            } else {
                buf[j]
            },
    )
}

/// Ring buffer of `N` bytes for streaming data, with independent write and
/// read cursors.
pub struct RingBuffer<const N: usize> {
    buffer: Vec<u8>,
    write_cursor: usize,
    read_cursor: usize,
}

impl<const N: usize> RingBuffer<N> {
    /// Well-formedness: `N` bytes of buffer and both cursors inside it.
    pub closed spec fn wf(&self) -> bool {
        &&& N <= isize::MAX
        &&& self.buffer@.len() == N
        &&& (self.write_cursor < N || self.write_cursor == 0)
        &&& (self.read_cursor < N || self.read_cursor == 0)
    }

    /// The bytes of the ring.
    pub closed spec fn contents(&self) -> Seq<u8> {
        self.buffer@
    }

    /// What well-formedness gives a caller: `N` bytes, with both cursors
    /// inside them (at 0 for an empty ring).
    pub proof fn lemma_wf(&self)
        requires
            self.wf(),
        ensures
            N <= isize::MAX,
            self.contents().len() == N,
            self.write_pos() < N || self.write_pos() == 0,
            self.read_pos() < N || self.read_pos() == 0,
    {
    }

    /// Position of the next write.
    pub closed spec fn write_pos(&self) -> usize {
        self.write_cursor
    }

    /// Position of the next read.
    pub closed spec fn read_pos(&self) -> usize {
        self.read_cursor
    }

    /// A ring of `N` zero bytes with both cursors at 0. (`N` cannot exceed
    /// `isize::MAX`: no buffer of more bytes exists.)
    pub fn new() -> (r: Self)
        requires
            N <= isize::MAX,
        ensures
            r.wf(),
            r.contents() == Seq::new(N as nat, |i: int| 0u8),
            r.write_pos() == 0,
            r.read_pos() == 0,
    {
        let mut buffer: Vec<u8> = Vec::new();
        let mut i: usize = 0;
        while i < N
            invariant
                i <= N,
                buffer@.len() == i,
                forall|j: int| 0 <= j < i ==> buffer@[j] == 0u8,
            decreases N - i,
        {
            buffer.push(0u8);
            i += 1;
        }
        let r = RingBuffer { buffer, write_cursor: 0, read_cursor: 0 };
        assert(r.contents() =~= Seq::new(N as nat, |i: int| 0u8));
        r
    }

    /// Writes `data` at the write cursor, wrapping at the end, and moves the
    /// cursor past it. Returns `false`, with nothing changed, when `data` is
    /// longer than the ring.
    pub fn write(&mut self, data: &[u8]) -> (ok: bool)
        requires
            old(self).wf(),
            N > 0 || data@.len() > 0,
        ensures
            final(self).wf(),
            final(self).read_pos() == old(self).read_pos(),
            ok == (data@.len() <= N),
            !ok ==> *final(self) == *old(self),
            ok ==> final(self).contents() == ring_write(
                old(self).contents(),
                old(self).write_pos() as int,
                data@,
            ),
            ok ==> final(self).write_pos() == (old(self).write_pos() + data@.len()) % (N as int),
    {
        if data.len() > N {
            return false;
        }
        let len = data.len();
        let wc = self.write_cursor;
        let mut i: usize = 0;
        while i < len
            invariant
                self.wf(),
                N > 0,
                len == data@.len(),
                len <= N,
                wc == old(self).write_pos(),
                wc < N,
                self.write_cursor == wc,
                self.read_cursor == old(self).read_pos(),
                i <= len,
                forall|j: int|
                    0 <= j < N ==> #[trigger] self.buffer@[j] == (if ring_distance(
                        j,
                        wc as int,
                        N as int,
                    ) < i {
                        data@[ring_distance(j, wc as int, N as int)]
                    } else {
                        old(self).buffer@[j]
                    }),
            decreases len - i,
        {
            let pos = (wc + i) % N;
            proof {
                if wc + i < N {
                    assert((wc + i) % (N as int) == wc + i) by (nonlinear_arith)
                        requires
                            0 <= wc + i < N,
                    ;
                } else {
                    assert((wc + i) % (N as int) == wc + i - N) by (nonlinear_arith)
                        requires
                            N <= wc + i < 2 * N,
                    ;
                }
            }
            self.buffer.set(pos, data[i]);
            i += 1;
        }
        self.write_cursor = (wc + len) % N;
        proof {
            assert(self.write_cursor < N) by (nonlinear_arith)
                requires
                    N > 0,
                    self.write_cursor == (wc + len) % (N as int),
            ;
            assert(self.contents() =~= ring_write(old(self).contents(), wc as int, data@));
        }
        true
    }

    /// The `len` bytes at the read cursor, after which the cursor moves past
    /// them (wrapping at the end); `None`, with nothing changed, when `len`
    /// exceeds the ring. The bytes are taken without wrapping: `len` must not
    /// reach past the end of the ring from the cursor.
    pub fn read(&mut self, len: usize) -> (r: Option<&[u8]>)
        requires
            old(self).wf(),
            len > N || (N > 0 && old(self).read_pos() + len <= N),
        ensures
            final(self).wf(),
            final(self).contents() == old(self).contents(),
            final(self).write_pos() == old(self).write_pos(),
            len > N ==> r is None && *final(self) == *old(self),
            len <= N ==> {
                &&& r is Some
                &&& r->0@.len() == len
                &&& r->0@ == old(self).contents().subrange(
                    old(self).read_pos() as int,
                    old(self).read_pos() + len,
                )
                &&& final(self).read_pos() == (old(self).read_pos() + len) % (N as int)
            },
    {
        if len > N {
            return None;
        }
        let start = self.read_cursor;
        self.read_cursor = (self.read_cursor + len) % N;
        proof {
            assert(self.read_cursor < N) by (nonlinear_arith)
                requires
                    N > 0,
                    self.read_cursor == (start + len) % (N as int),
            ;
        }
        Some(slice_subrange(self.buffer.as_slice(), start, start + len))
    }
}


// ---------------------------------------------------------------------------
// Laws of the pool, the arena and the ring buffer.
// ---------------------------------------------------------------------------

/// Every slot of a pool is either free or in use:
/// `available() + used() == capacity()`.
pub proof fn law_pool_accounting<T, const N: usize>(p: &Pool<T, N>)
    requires
        p.wf(),
    ensures
        p.free_slots().len() + p.used_slots() == N,
{
}

/// Freeing the handle that `allocate` just handed out puts the pool back
/// exactly as it was.
pub proof fn law_pool_free_undoes_allocate<T, const N: usize>(
    p0: Pool<T, N>,
    p1: Pool<T, N>,
    p2: Pool<T, N>,
    h: PoolHandle,
)
    requires
        p0.wf(),
        Pool::allocate_step(p0, p1, Some(h)),
        Pool::free_step(p1, p2, h),
    ensures
        p2.free_slots() == p0.free_slots(),
        p2.used_slots() == p0.used_slots(),
        p2.contents() == p0.contents(),
{
    assert(p0.free_slots().len() > 0);
    assert(p0.free_slots().last() < N);
    assert(Pool::<T, N>::names_slot(h));
    assert(p0.free_slots().drop_last().push(p0.free_slots().last()) =~= p0.free_slots());
}

/// The pool hands slots out last-in first-out: right after a slot is freed,
/// `allocate` returns a handle to that same slot.
pub proof fn law_pool_lifo<T, const N: usize>(
    p0: Pool<T, N>,
    p1: Pool<T, N>,
    p2: Pool<T, N>,
    h: PoolHandle,
    r: Option<PoolHandle>,
)
    requires
        p0.wf(),
        Pool::<T, N>::names_slot(h),
        Pool::free_step(p0, p1, h),
        Pool::allocate_step(p1, p2, r),
    ensures
        r == Some(PoolHandle::spec_make(h.slot())),
        p2.free_slots() == p0.free_slots(),
        p2.used_slots() == p0.used_slots(),
{
    assert(p0.free_slots().push(h.slot()).drop_last() =~= p0.free_slots());
}

/// A handle that `allocate` hands out is never null, names one of the
/// pool's slots, was not live before and is live after: no slot is handed
/// out twice before it is freed, and a handed-out slot is one whose contents
/// `get`, `get_mut` and `get_uninit_mut` reach.
pub proof fn law_pool_handout_is_fresh<T, const N: usize>(
    p0: Pool<T, N>,
    p1: Pool<T, N>,
    h: PoolHandle,
)
    requires
        p0.wf(),
        Pool::allocate_step(p0, p1, Some(h)),
    ensures
        h.slot() != NULL_INDEX,
        h.slot() < N,
        h.gen() == 0,
        !p0.is_live(h),
        p1.is_live(h),
        h.slot() < p1.contents().len(),
{
    p1.lemma_wf();
}

/// Freeing a live handle ends its liveness and leaves every other live
/// handle live.
pub proof fn law_pool_free_ends_liveness<T, const N: usize>(
    p0: Pool<T, N>,
    p1: Pool<T, N>,
    h: PoolHandle,
    other: PoolHandle,
)
    requires
        p0.wf(),
        p0.is_live(h),
        Pool::free_step(p0, p1, h),
    ensures
        !p1.is_live(h),
        p0.is_live(other) && other.slot() != h.slot() ==> p1.is_live(other),
{
    assert(p1.free_slots()[p0.free_slots().len() as int] == h.slot());
    if p0.is_live(other) && other.slot() != h.slot() {
        if p1.free_slots().contains(other.slot()) {
            let k = choose|k: int| 0 <= k < p1.free_slots().len() && p1.free_slots()[k] == other.slot();
            assert(k < p0.free_slots().len());
            assert(p0.free_slots()[k] == other.slot());
        }
    }
}

/// A value written into a slot through `get_uninit_mut` or `get_mut` is what
/// that slot then holds, so `get` returns it; the other slots keep their
/// contents.
pub proof fn law_pool_read_after_write<T, const N: usize>(
    p0: Pool<T, N>,
    p1: Pool<T, N>,
    h: PoolHandle,
    v: T,
    j: int,
)
    requires
        p0.wf(),
        Pool::<T, N>::names_slot(h),
        p1.contents() == p0.contents().update(h.slot() as int, v),
    ensures
        p1.contents()[h.slot() as int] == v,
        0 <= j < N && j != h.slot() ==> p1.contents()[j] == p0.contents()[j],
{
    p0.lemma_wf();
}

/// An arena allocation never starts before the bytes already used, and
/// starts at most `align - 1` bytes after them: allocations do not overlap
/// and come in address order.
pub proof fn law_arena_allocations_ordered(offset: usize, align: usize)
    requires
        1 <= align,
        offset + align <= usize::MAX,
    ensures
        offset <= aligned_offset(offset, align) <= offset + align - 1,
{
    let x: usize = (offset + align - 1) as usize;
    let m: usize = (align - 1) as usize;
    assert(x & !m <= x) by (bit_vector);
    assert(x - m <= (x & !m)) by (bit_vector)
        requires
            m <= x,
    ;
}

/// Every arena allocation starts on an `align` boundary: the low bits
/// selected by `align - 1` of its start are zero (for a power-of-two `align`,
/// the start is a multiple of `align`).
pub proof fn law_arena_alignment(offset: usize, align: usize)
    requires
        1 <= align,
        offset + align <= usize::MAX,
    ensures
        aligned_offset(offset, align) & ((align - 1) as usize) == 0,
{
    let x: usize = (offset + align - 1) as usize;
    let m: usize = (align - 1) as usize;
    assert((x & !m) & m == 0) by (bit_vector);
}

/// For a power-of-two `align` (`2^k`), the arena's rounding is rounding up
/// to the next multiple of `align`: every allocation starts at a multiple of
/// `align`.
pub proof fn law_arena_alignment_power_of_two(offset: usize, align: usize, k: nat)
    requires
        k < usize::BITS,
        align == pow2(k),
        offset + align <= usize::MAX,
    ensures
        (aligned_offset(offset, align) as int) % (align as int) == 0,
        aligned_offset(offset, align) == (offset + align - 1) / (align as int) * align,
{
    lemma_usize_pow2_no_overflow(k);
    let x: usize = (offset + align - 1) as usize;
    let m: usize = (align - 1) as usize;
    assert(low_bits_mask(k) == m);
    lemma_usize_low_bits_mask_is_mod(x, k);
    assert(x & m == x % align);
    assert((x & !m) + (x & m) == x) by (bit_vector);
    lemma_fundamental_div_mod(x as int, align as int);
    let q = (x as int) / (align as int);
    assert(aligned_offset(offset, align) == align * q);
    lemma_mod_multiples_basic(q, align as int);
    assert(q * align == align * q) by (nonlinear_arith);
}

/// A power of two that fits in `usize` is at most `isize::MAX + 1`.
proof fn lemma_usize_power_of_two_bound(k: nat)
    requires
        k < usize::BITS,
    ensures
        pow2(k) <= isize::MAX + 1,
{
    lemma2_to64();
    lemma2_to64_rest();
    assert(usize::BITS == 32 || usize::BITS == 64);
    if usize::BITS == 32 {
        assert(isize::MAX == 0x7fff_ffff);
        assert(pow2(31) == 0x8000_0000);
    } else {
        assert(isize::MAX == 0x7fff_ffff_ffff_ffff);
        assert(pow2(63) == 0x8000_0000_0000_0000);
    }
    if k < usize::BITS - 1 {
        lemma_pow2_strictly_increases(k, (usize::BITS - 1) as nat);
    }
}

/// On an arena, any power-of-two `align` and any `size` with
/// `used + align - 1 + size <= usize::MAX` meet what `allocate` asks: the
/// rounding cannot overflow (the arena holds at most `isize::MAX` bytes) and
/// neither can the end of the allocation. The allocation then starts at
/// `(used + align - 1) / align * align`, a multiple of `align` no lower than
/// `used`, and by `allocate`'s contract it fails, changing nothing, exactly
/// when that start plus `size` exceeds `N`.
pub proof fn law_arena_power_of_two_align_is_admitted<const N: usize>(
    a: &Arena<N>,
    align: usize,
    k: nat,
    size: usize,
)
    requires
        a.wf(),
        k < usize::BITS,
        align == pow2(k),
        a.used_bytes() + align - 1 + size <= usize::MAX,
    ensures
        1 <= align,
        a.used_bytes() + align <= usize::MAX,
        aligned_offset(a.used_bytes(), align) + size <= usize::MAX,
        a.used_bytes() <= aligned_offset(a.used_bytes(), align),
        (aligned_offset(a.used_bytes(), align) as int) % (align as int) == 0,
        aligned_offset(a.used_bytes(), align) == (a.used_bytes() + align - 1) / (align as int) * align,
{
    lemma_usize_power_of_two_bound(k);
    lemma_usize_pow2_no_overflow(k);
    law_arena_allocations_ordered(a.used_bytes(), align);
    law_arena_alignment_power_of_two(a.used_bytes(), align, k);
}

/// After `reset` the next allocation starts at byte 0, whatever its
/// alignment.
pub proof fn law_arena_reset_starts_at_zero(align: usize)
    requires
        1 <= align,
    ensures
        aligned_offset(0, align) == 0,
{
    let m: usize = (align - 1) as usize;
    assert(m & !m == 0) by (bit_vector);
}

/// A ring read gets back what a write put there: the `k`-th byte written
/// from position `start` sits at position `(start + k) % n`.
pub proof fn law_ring_write_then_read(buf: Seq<u8>, start: int, data: Seq<u8>, k: int)
    requires
        0 <= start < buf.len(),
        data.len() <= buf.len(),
        0 <= k < data.len(),
    ensures
        ring_write(buf, start, data)[(start + k) % (buf.len() as int)] == data[k],
{
    let n = buf.len() as int;
    let j = (start + k) % n;
    if start + k < n {
        assert(j == start + k) by (nonlinear_arith)
            requires
                0 <= start + k < n,
                j == (start + k) % n,
        ;
    } else {
        assert(j == start + k - n) by (nonlinear_arith)
            requires
                n <= start + k < 2 * n,
                j == (start + k) % n,
        ;
    }
    assert(ring_distance(j, start, n) == k);
}

/// When a write does not wrap, reading the same span from the same position
/// gives back exactly the bytes written.
pub proof fn law_ring_read_back_span(buf: Seq<u8>, start: int, data: Seq<u8>)
    requires
        0 <= start,
        start + data.len() <= buf.len(),
    ensures
        ring_write(buf, start, data).subrange(start, start + data.len()) == data,
{
    assert(ring_write(buf, start, data).subrange(start, start + data.len()) =~= data);
}

/// On a well-formed ring, the `k`-th byte of a successful write lands at the
/// write cursor plus `k`, wrapping at `N`; and when the reader stands where
/// the write began and the write does not wrap, the next read of the same
/// length returns exactly the bytes written.
pub proof fn law_ring_buffer_write_then_read<const N: usize>(r0: &RingBuffer<N>, data: Seq<u8>, k: int)
    requires
        r0.wf(),
        N > 0,
        data.len() <= N,
    ensures
        0 <= k < data.len() ==> ring_write(r0.contents(), r0.write_pos() as int, data)[(r0.write_pos() + k)
            % (N as int)] == data[k],
        r0.read_pos() == r0.write_pos() && r0.write_pos() + data.len() <= N ==> ring_write(
            r0.contents(),
            r0.write_pos() as int,
            data,
        ).subrange(r0.read_pos() as int, r0.read_pos() + data.len()) == data,
{
    r0.lemma_wf();
    if 0 <= k < data.len() {
        law_ring_write_then_read(r0.contents(), r0.write_pos() as int, data, k);
    }
    if r0.read_pos() == r0.write_pos() && r0.write_pos() + data.len() <= N {
        law_ring_read_back_span(r0.contents(), r0.write_pos() as int, data);
    }
}

/// A ring write leaves every byte outside the written span as it was.
pub proof fn law_ring_write_keeps_rest(buf: Seq<u8>, start: int, data: Seq<u8>, j: int)
    requires
        0 <= start < buf.len(),
        0 <= j < buf.len(),
        ring_distance(j, start, buf.len() as int) >= data.len(),
    ensures
        ring_write(buf, start, data)[j] == buf[j],
{
}

} // verus!
