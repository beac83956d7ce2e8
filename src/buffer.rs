//! A growable device buffer: a raw handle together with the number of
//! elements it has room for.
use vstd::prelude::*;

verus! {

/// What the capacity becomes when `requested` elements are asked of a buffer
/// that has room for `capacity`.
pub open spec fn grown(capacity: nat, requested: nat) -> nat {
    if capacity < requested {
        requested
    } else {
        capacity
    }
}

/// Size in bytes of a raw buffer that holds `count` elements of `T`.
pub open spec fn byte_size<T>(count: nat) -> nat {
    vstd::layout::size_of::<T>() * count
}

/// The capacity of a buffer that had room for `capacity` elements after
/// `requests` were asked of it, in order.
pub open spec fn capacity_after(capacity: nat, requests: Seq<nat>) -> nat
    decreases requests.len(),
{
    if requests.len() == 0 {
        capacity
    } else {
        grown(capacity_after(capacity, requests.drop_last()), requests.last())
    }
}

/// After any sequence of requests the capacity is the largest of the initial
/// capacity and all the requests; and asking for all of them again changes
/// nothing.
pub proof fn lemma_capacity_is_largest_request(capacity: nat, requests: Seq<nat>)
    ensures
        capacity_after(capacity, requests) >= capacity,
        forall|i: int| 0 <= i < requests.len() ==> capacity_after(capacity, requests) >= #[trigger] requests[i],
        capacity_after(capacity, requests) == capacity || exists|i: int|
            0 <= i < requests.len() && capacity_after(capacity, requests) == #[trigger] requests[i],
        capacity_after(capacity_after(capacity, requests), requests) == capacity_after(capacity, requests),
    decreases requests.len(),
{
    if requests.len() > 0 {
        let rest = requests.drop_last();
        lemma_capacity_is_largest_request(capacity, rest);
        lemma_capacity_is_largest_request(capacity_after(capacity, requests), rest);
        let c = capacity_after(capacity, requests);
        assert forall|i: int| 0 <= i < requests.len() implies c >= #[trigger] requests[i] by {
            if i < rest.len() {
                assert(requests[i] == rest[i]);
            }
        }
        if c != capacity && c != requests.last() {
            let k = choose|k: int| 0 <= k < rest.len() && capacity_after(capacity, rest) == #[trigger] rest[k];
            assert(requests[k] == rest[k]);
        }
        assert(capacity_after(c, rest) == c) by {
            lemma_capacity_fixed(c, rest);
        }
    }
}

/// Requests no larger than the capacity leave it as it is.
pub proof fn lemma_capacity_fixed(capacity: nat, requests: Seq<nat>)
    requires
        forall|i: int| 0 <= i < requests.len() ==> #[trigger] requests[i] <= capacity,
    ensures
        capacity_after(capacity, requests) == capacity,
    decreases requests.len(),
{
    if requests.len() > 0 {
        let rest = requests.drop_last();
        assert forall|i: int| 0 <= i < rest.len() implies #[trigger] rest[i] <= capacity by {
            assert(rest[i] == requests[i]);
        }
        lemma_capacity_fixed(capacity, rest);
    }
}

/// A device buffer holding elements of `T` through a raw handle `H`, created
/// with the usage `U`.
///
/// The raw handle is always large enough for `capacity()` elements: it is only
/// ever replaced by one allocated for the new capacity.
pub struct Buffer<T, H, U> {
    raw: H,
    size: usize,
    usage: U,
    _type: core::marker::PhantomData<T>,
}

impl<T, H, U: Copy> Buffer<T, H, U> {
    /// The number of elements the raw buffer has room for.
    pub closed spec fn capacity(&self) -> nat {
        self.size as nat
    }

    /// The raw handle.
    pub closed spec fn handle(&self) -> H {
        self.raw
    }

    /// The usage every allocation of this buffer is made with.
    pub closed spec fn usage_flags(&self) -> U {
        self.usage
    }

    /// Allocates a buffer for `size` elements through `allocate`, which is
    /// handed the size in bytes and the usage.
    pub fn new<F: FnOnce(u64, U) -> H>(allocate: F, size: usize, usage: U) -> (r: Self)
        requires
            byte_size::<T>(size as nat) <= u64::MAX,
            call_requires(allocate, (byte_size::<T>(size as nat) as u64, usage)),
        ensures
            r.capacity() == size,
            r.usage_flags() == usage,
            call_ensures(allocate, (byte_size::<T>(size as nat) as u64, usage), r.handle()),
    {
        let bytes = Self::bytes_for(size);
        let raw = allocate(bytes, usage);
        Buffer { raw, size, usage, _type: core::marker::PhantomData }
    }

    /// Makes room for at least `size` elements. When the buffer is already
    /// large enough nothing changes and `allocate` is not called; otherwise a
    /// new raw buffer of exactly `size` elements replaces the old one, whose
    /// contents are not kept.
    pub fn ensure_capacity<F: FnOnce(u64, U) -> H>(&mut self, allocate: F, size: usize)
        requires
            old(self).capacity() < size ==> byte_size::<T>(size as nat) <= u64::MAX,
            old(self).capacity() < size ==> call_requires(
                allocate,
                (byte_size::<T>(size as nat) as u64, old(self).usage_flags()),
            ),
        ensures
            final(self).capacity() == grown(old(self).capacity(), size as nat),
            final(self).usage_flags() == old(self).usage_flags(),
            old(self).capacity() >= size ==> *final(self) == *old(self),
            old(self).capacity() < size ==> call_ensures(
                allocate,
                (byte_size::<T>(size as nat) as u64, old(self).usage_flags()),
                final(self).handle(),
            ),
    {
        if self.size < size {
            let bytes = Self::bytes_for(size);
            self.raw = allocate(bytes, self.usage);
            self.size = size;
        }
    }

    /// The number of elements the raw buffer has room for.
    pub fn size(&self) -> (r: usize)
        ensures
            r == self.capacity(),
    {
        self.size
    }

    /// The raw handle, to bind or copy into.
    pub fn raw(&self) -> (r: &H)
        ensures
            *r == self.handle(),
    {
        &self.raw
    }

    /// The usage the buffer was created with.
    pub fn usage(&self) -> (r: U)
        ensures
            r == self.usage_flags(),
    {
        self.usage
    }

    fn bytes_for(size: usize) -> (r: u64)
        requires
            byte_size::<T>(size as nat) <= u64::MAX,
        ensures
            r == byte_size::<T>(size as nat),
    {
        let element = core::mem::size_of::<T>();
        let bytes = (element as u128) * (size as u128);
        bytes as u64
    }
}

} // verus!
