//! A fixed-capacity arena that hands out aligned regions and never takes one
//! back, and the owning handle for a value placed in it.

use vstd::prelude::*;

verus! {

broadcast use vstd::layout::align_nonzero;

/// The smallest multiple of `align` that is not below `offset`.
pub open spec fn align_up(offset: int, align: int) -> int {
    if offset % align == 0 {
        offset
    } else {
        offset + (align - offset % align)
    }
}

/// `align_up` is a multiple of the alignment and lies less than one
/// alignment above the offset.
pub proof fn lemma_align_up(offset: int, align: int)
    requires
        0 <= offset,
        0 < align,
    ensures
        align_up(offset, align) % align == 0,
        offset <= align_up(offset, align) < offset + align,
{
    let r = offset % align;
    let up = align_up(offset, align);
    vstd::arithmetic::div_mod::lemma_fundamental_div_mod(offset, align);
    if r != 0 {
        let q = offset / align;
        assert(up == (q + 1) * align) by (nonlinear_arith)
            requires
                up == offset + (align - r),
                offset == align * q + r,
        ;
        vstd::arithmetic::div_mod::lemma_mod_multiples_basic(q + 1, align);
    }
}

/// No multiple of the alignment lies between the offset and `align_up`.
pub proof fn lemma_align_up_least(offset: int, align: int, m: int)
    requires
        0 <= offset <= m,
        0 < align,
        m % align == 0,
    ensures
        align_up(offset, align) <= m,
{
    let up = align_up(offset, align);
    lemma_align_up(offset, align);
    if m < up {
        vstd::arithmetic::div_mod::lemma_fundamental_div_mod(m, align);
        vstd::arithmetic::div_mod::lemma_fundamental_div_mod(up, align);
        let a = m / align;
        let b = up / align;
        assert(a < b) by (nonlinear_arith)
            requires
                align * a < align * b,
                0 < align,
        ;
        assert(align * a + align <= align * b) by (nonlinear_arith)
            requires
                a + 1 <= b,
                0 < align,
        ;
    }
}

/// The arena could not fit the request: the aligned region would end past
/// its capacity.
#[derive(Clone, Copy, Debug, PartialEq, Eq, Structural)]
pub struct OutOfMemory;

/// A run of bytes inside an arena, by offset from the arena's first byte.
#[derive(Clone, Copy, Debug, PartialEq, Eq, Structural)]
pub struct Region {
    pub start: usize,
    pub size: usize,
}

impl Region {
    /// The offset one past the region's last byte.
    pub open spec fn end(self) -> int {
        self.start + self.size
    }
}

/// Whether a request of `size` bytes at `align` fits an arena of `capacity`
/// bytes that starts at the address `base` and whose first `cursor` bytes
/// are used.
pub open spec fn fits(base: int, cursor: int, capacity: int, size: int, align: int) -> bool {
    align_up(base + cursor, align) + size <= base + capacity
}

/// The offset at which such a request is served: the first from the cursor
/// on whose address `align` divides.
pub open spec fn next_start(base: int, cursor: int, align: int) -> int {
    align_up(base + cursor, align) - base
}

/// The offset that `next_start` gives lies at or after the cursor, less
/// than one alignment after it, and at an address that the alignment
/// divides; where the alignment divides the arena's own address, it divides
/// the offset too.
pub proof fn lemma_next_start(base: int, cursor: int, align: int)
    requires
        0 <= base,
        0 <= cursor,
        0 < align,
    ensures
        cursor <= next_start(base, cursor, align) < cursor + align,
        (base + next_start(base, cursor, align)) % align == 0,
        base % align == 0 ==> next_start(base, cursor, align) % align == 0,
        base % align == 0 ==> next_start(base, cursor, align) == align_up(cursor, align),
{
    let start = next_start(base, cursor, align);
    lemma_align_up(base + cursor, align);
    if base % align == 0 {
        vstd::arithmetic::div_mod::lemma_fundamental_div_mod(base, align);
        vstd::arithmetic::div_mod::lemma_fundamental_div_mod(base + start, align);
        let low = base / align;
        let high = (base + start) / align;
        assert(start == (high - low) * align) by (nonlinear_arith)
            requires
                base == align * low,
                base + start == align * high,
        ;
        vstd::arithmetic::div_mod::lemma_mod_multiples_basic(high - low, align);
        lemma_align_up(cursor, align);
        lemma_align_up_least(cursor, align, start);
        let up = align_up(cursor, align);
        vstd::arithmetic::div_mod::lemma_fundamental_div_mod(up, align);
        let mid = up / align;
        assert(base + up == (low + mid) * align) by (nonlinear_arith)
            requires
                base == align * low,
                up == align * mid,
        ;
        vstd::arithmetic::div_mod::lemma_mod_multiples_basic(low + mid, align);
        lemma_align_up_least(base + cursor, align, base + up);
    }
}

/// The size of the kernel's own arena, in bytes.
pub const KERNEL_ARENA_SIZE: usize = 4 * 1024;

/// An arena of `SIZE` bytes with one cursor: the bytes below it are given
/// out, those from it on are free. The arena knows the address of its first
/// byte, and aligns addresses, not offsets.
pub struct BoundArena<const SIZE: usize> {
    base: usize,
    end: usize,
}

impl<const SIZE: usize> BoundArena<SIZE> {
    #[verifier::type_invariant]
    spec fn within_capacity(self) -> bool {
        self.end <= SIZE && self.base + SIZE <= usize::MAX
    }

    /// The address of the arena's first byte.
    pub closed spec fn base(self) -> int {
        self.base as int
    }

    /// The number of bytes consumed so far.
    pub closed spec fn cursor(self) -> int {
        self.end as int
    }

    /// Whether a request of `size` bytes at `align` fits.
    pub open spec fn has_room(self, size: int, align: int) -> bool {
        fits(self.base(), self.cursor(), SIZE as int, size, align)
    }

    /// An arena over the `SIZE` bytes from the address `base` on, with
    /// nothing given out. The bytes have to end within the address space.
    pub fn new(base: usize) -> (arena: Self)
        requires
            base + SIZE <= usize::MAX,
        ensures
            arena.base() == base,
            arena.cursor() == 0,
    {
        BoundArena { base, end: 0 }
    }

    /// The address of the arena's first byte.
    pub fn address(&self) -> (base: usize)
        ensures
            base == self.base(),
            base + SIZE <= usize::MAX,
    {
        proof {
            use_type_invariant(self);
        }
        self.base
    }

    /// The number of bytes consumed so far.
    pub fn used(&self) -> (n: usize)
        ensures
            n == self.cursor(),
            n <= SIZE,
    {
        proof {
            use_type_invariant(self);
        }
        self.end
    }

    /// Carves out `size` bytes at the next address that `align` divides.
    ///
    /// Fails, and leaves the cursor where it was, exactly when the aligned
    /// region would end past the capacity.
    pub fn alloc_layout(&mut self, size: usize, align: usize) -> (r: Result<Region, OutOfMemory>)
        requires
            align > 0,
        ensures
            final(self).base() == old(self).base(),
            r.is_ok() == old(self).has_room(size as int, align as int),
            r matches Ok(region) ==> {
                &&& region.start == next_start(old(self).base(), old(self).cursor(), align as int)
                &&& region.size == size
                &&& (old(self).base() + region.start) % (align as int) == 0
                &&& old(self).cursor() <= region.start
                &&& final(self).cursor() == region.end()
                &&& final(self).cursor() <= SIZE
            },
            r is Err ==> final(self).cursor() == old(self).cursor(),
    {
        proof {
            use_type_invariant(&*self);
            lemma_align_up(self.base + self.end, align as int);
        }
        let rem = (self.base + self.end) % align;
        let pad = if rem == 0 {
            0
        } else {
            align - rem
        };
        if pad > SIZE - self.end {
            return Err(OutOfMemory);
        }
        let start = self.end + pad;
        if size > SIZE - start {
            return Err(OutOfMemory);
        }
        self.end = start + size;
        Ok(Region { start, size })
    }

    /// Carves out room for one `T`, leaving it to the caller to fill. The
    /// region lies at an address that is aligned for `T`.
    pub fn raw_alloc<T>(&mut self) -> (r: Result<Region, OutOfMemory>)
        ensures
            final(self).base() == old(self).base(),
            r.is_ok() == old(self).has_room(
                vstd::layout::size_of::<T>() as int,
                vstd::layout::align_of::<T>() as int,
            ),
            r matches Ok(region) ==> {
                &&& region.start == next_start(
                    old(self).base(),
                    old(self).cursor(),
                    vstd::layout::align_of::<T>() as int,
                )
                &&& region.size == vstd::layout::size_of::<T>()
                &&& (old(self).base() + region.start) % (vstd::layout::align_of::<T>() as int) == 0
                &&& old(self).cursor() <= region.start
                &&& final(self).cursor() == region.end()
                &&& final(self).cursor() <= SIZE
            },
            r is Err ==> final(self).cursor() == old(self).cursor(),
    {
        let size = core::mem::size_of::<T>();
        let align = core::mem::align_of::<T>();
        self.alloc_layout(size, align)
    }

    /// Places `val` in the arena and returns the handle that owns it.
    pub fn allocate<T>(&mut self, val: T) -> (r: Result<KBox<T>, OutOfMemory>)
        ensures
            final(self).base() == old(self).base(),
            r.is_ok() == old(self).has_room(
                vstd::layout::size_of::<T>() as int,
                vstd::layout::align_of::<T>() as int,
            ),
            r matches Ok(handle) ==> {
                &&& handle@ == val
                &&& handle.region().start == next_start(
                    old(self).base(),
                    old(self).cursor(),
                    vstd::layout::align_of::<T>() as int,
                )
                &&& handle.region().size == vstd::layout::size_of::<T>()
                &&& (old(self).base() + handle.region().start) % (vstd::layout::align_of::<T>() as int)
                    == 0
                &&& final(self).cursor() == handle.region().end()
            },
            r is Err ==> final(self).cursor() == old(self).cursor(),
    {
        match self.raw_alloc::<T>() {
            Ok(region) => Ok(KBox { region, value: val }),
            Err(e) => Err(e),
        }
    }
}

/// The owner of a value that lives in an arena. The arena never takes a
/// region back, so dropping the handle frees nothing.
#[derive(Debug)]
pub struct KBox<T> {
    region: Region,
    value: T,
}

impl<T> View for KBox<T> {
    type V = T;

    closed spec fn view(&self) -> T {
        self.value
    }
}

impl<T> KBox<T> {
    /// The region of the arena that the value occupies.
    pub closed spec fn region(self) -> Region {
        self.region
    }

    /// Places `val` in `arena`. Fails, and leaves the arena as it was,
    /// exactly when the arena has no room for the value.
    pub fn new<const SIZE: usize>(arena: &mut BoundArena<SIZE>, val: T) -> (r: Result<
        Self,
        OutOfMemory,
    >)
        ensures
            final(arena).base() == old(arena).base(),
            r.is_ok() == old(arena).has_room(
                vstd::layout::size_of::<T>() as int,
                vstd::layout::align_of::<T>() as int,
            ),
            r matches Ok(handle) ==> {
                &&& handle@ == val
                &&& handle.region().start == next_start(
                    old(arena).base(),
                    old(arena).cursor(),
                    vstd::layout::align_of::<T>() as int,
                )
                &&& handle.region().size == vstd::layout::size_of::<T>()
                &&& (old(arena).base() + handle.region().start) % (vstd::layout::align_of::<T>() as int)
                    == 0
                &&& final(arena).cursor() == handle.region().end()
            },
            r is Err ==> final(arena).cursor() == old(arena).cursor(),
    {
        arena.allocate(val)
    }

    /// Where in the arena the value lives.
    pub fn place(&self) -> (region: Region)
        ensures
            region == self.region(),
    {
        self.region
    }

    pub fn deref(&self) -> (r: &T)
        ensures
            *r == self@,
    {
        &self.value
    }

    pub fn deref_mut(&mut self) -> (r: &mut T)
        ensures
            *r == old(self)@,
            final(self)@ == *final(r),
            final(self).region() == old(self).region(),
    {
        &mut self.value
    }

    pub fn as_ref(&self) -> (r: &T)
        ensures
            *r == self@,
    {
        &self.value
    }

    pub fn as_mut(&mut self) -> (r: &mut T)
        ensures
            *r == old(self)@,
            final(self)@ == *final(r),
            final(self).region() == old(self).region(),
    {
        &mut self.value
    }
}

/// One request to an arena: so many bytes, at an address that `align`
/// divides.
pub struct Request {
    pub size: nat,
    pub align: nat,
}

/// Where the cursor stands after an arena at `base` has answered `requests`
/// in order, starting from `cursor`.
pub open spec fn cursor_after(base: int, cursor: int, capacity: int, requests: Seq<Request>) -> int
    decreases requests.len(),
{
    if requests.len() == 0 {
        cursor
    } else {
        let before = cursor_after(base, cursor, capacity, requests.drop_last());
        let last = requests.last();
        if fits(base, before, capacity, last.size as int, last.align as int) {
            next_start(base, before, last.align as int) + last.size
        } else {
            before
        }
    }
}

/// Where the cursor stands when request `i` arrives.
pub open spec fn cursor_at(
    base: int,
    cursor: int,
    capacity: int,
    requests: Seq<Request>,
    i: int,
) -> int {
    cursor_after(base, cursor, capacity, requests.take(i))
}

/// The offset at which request `i` is served, or `None` where it is refused.
pub open spec fn granted(
    base: int,
    cursor: int,
    capacity: int,
    requests: Seq<Request>,
    i: int,
) -> Option<int> {
    let at = cursor_at(base, cursor, capacity, requests, i);
    if fits(base, at, capacity, requests[i].size as int, requests[i].align as int) {
        Some(next_start(base, at, requests[i].align as int))
    } else {
        None
    }
}

/// Request `i` is answered as it should be: it is served exactly when it
/// fits, at the first offset from the cursor on whose address its alignment
/// divides, and the cursor then stands at the end of its region; where it
/// is refused, the cursor stays. Either way the cursor does not move back
/// and does not pass the capacity.
pub open spec fn answered_well(
    base: int,
    cursor: int,
    capacity: int,
    requests: Seq<Request>,
    i: int,
) -> bool {
    let at = cursor_at(base, cursor, capacity, requests, i);
    let next = cursor_at(base, cursor, capacity, requests, i + 1);
    let size = requests[i].size as int;
    let align = requests[i].align as int;
    &&& cursor <= at <= next <= capacity
    &&& match granted(base, cursor, capacity, requests, i) {
        Some(start) => {
            &&& fits(base, at, capacity, size, align)
            &&& at <= start
            &&& (base + start) % align == 0
            &&& base % align == 0 ==> start % align == 0
            &&& next == start + size
        },
        None => !fits(base, at, capacity, size, align) && next == at,
    }
}

/// Where requests `i` and `j` are both served, the region of the earlier
/// one ends before the region of the later one starts.
pub open spec fn apart(
    base: int,
    cursor: int,
    capacity: int,
    requests: Seq<Request>,
    i: int,
    j: int,
) -> bool {
    granted(base, cursor, capacity, requests, i) matches Some(first) ==> (granted(
        base,
        cursor,
        capacity,
        requests,
        j,
    ) matches Some(second) ==> first + requests[i].size <= second)
}

proof fn lemma_cursor_step(base: int, cursor: int, capacity: int, requests: Seq<Request>, i: int)
    requires
        0 <= base,
        0 <= cursor <= capacity,
        forall|k: int| 0 <= k < requests.len() ==> (#[trigger] requests[k]).align > 0,
        0 <= i < requests.len(),
        cursor <= cursor_at(base, cursor, capacity, requests, i) <= capacity,
    ensures
        answered_well(base, cursor, capacity, requests, i),
{
    let next = requests.take(i + 1);
    assert(next.drop_last() == requests.take(i));
    assert(next.last() == requests[i]);
    lemma_next_start(
        base,
        cursor_at(base, cursor, capacity, requests, i),
        requests[i].align as int,
    );
}

proof fn lemma_cursor_monotone(
    base: int,
    cursor: int,
    capacity: int,
    requests: Seq<Request>,
    i: int,
    j: int,
)
    requires
        0 <= base,
        0 <= cursor <= capacity,
        forall|k: int| 0 <= k < requests.len() ==> (#[trigger] requests[k]).align > 0,
        0 <= i <= j <= requests.len(),
    ensures
        cursor <= cursor_at(base, cursor, capacity, requests, i) <= cursor_at(
            base,
            cursor,
            capacity,
            requests,
            j,
        ) <= capacity,
    decreases j,
{
    if j == 0 {
        assert(requests.take(0).len() == 0);
    } else if i == j {
        lemma_cursor_monotone(base, cursor, capacity, requests, i - 1, j - 1);
        lemma_cursor_step(base, cursor, capacity, requests, j - 1);
    } else {
        lemma_cursor_monotone(base, cursor, capacity, requests, i, j - 1);
        lemma_cursor_step(base, cursor, capacity, requests, j - 1);
    }
}

/// Whatever is asked of an arena, and in whatever order: the cursor never
/// moves back and never passes the capacity; a request is served exactly
/// when it fits, at an address that its alignment divides; a request that
/// is refused leaves the cursor where it was; and no two regions that were
/// served share a byte.
pub proof fn lemma_arena_regions(base: int, cursor: int, capacity: int, requests: Seq<Request>)
    requires
        0 <= base,
        0 <= cursor <= capacity,
        forall|k: int| 0 <= k < requests.len() ==> (#[trigger] requests[k]).align > 0,
    ensures
        forall|i: int|
            0 <= i < requests.len() ==> #[trigger] answered_well(
                base,
                cursor,
                capacity,
                requests,
                i,
            ),
        forall|i: int, j: int|
            0 <= i < j < requests.len() ==> #[trigger] apart(base, cursor, capacity, requests, i, j),
        forall|i: int, j: int|
            0 <= i <= j <= requests.len() ==> #[trigger] cursor_at(
                base,
                cursor,
                capacity,
                requests,
                i,
            ) <= #[trigger] cursor_at(base, cursor, capacity, requests, j),
{
    assert forall|i: int| 0 <= i < requests.len() implies #[trigger] answered_well(
        base,
        cursor,
        capacity,
        requests,
        i,
    ) by {
        lemma_cursor_monotone(base, cursor, capacity, requests, i, i);
        lemma_cursor_step(base, cursor, capacity, requests, i);
    }
    assert forall|i: int, j: int| 0 <= i < j < requests.len() implies #[trigger] apart(
        base,
        cursor,
        capacity,
        requests,
        i,
        j,
    ) by {
        lemma_cursor_monotone(base, cursor, capacity, requests, i, i);
        lemma_cursor_step(base, cursor, capacity, requests, i);
        lemma_cursor_monotone(base, cursor, capacity, requests, i + 1, j);
    }
    assert forall|i: int, j: int| 0 <= i <= j <= requests.len() implies #[trigger] cursor_at(
        base,
        cursor,
        capacity,
        requests,
        i,
    ) <= #[trigger] cursor_at(base, cursor, capacity, requests, j) by {
        lemma_cursor_monotone(base, cursor, capacity, requests, i, j);
    }
}

} // verus!
