//! The bounded history of a subscription: the most recent events, oldest first.

use vstd::prelude::*;

verus! {

/// The smallest capacity a buffer can be given.
pub const MIN_CAPACITY: usize = 10;

/// The largest capacity a buffer can be given.
pub const MAX_CAPACITY: usize = 10000;

/// The capacity of a buffer nobody has configured.
pub const DEFAULT_CAPACITY: usize = 1000;

/// The capacity that a request for `wanted` entries results in: the nearest
/// value between `MIN_CAPACITY` and `MAX_CAPACITY`.
pub open spec fn clamped_capacity(wanted: usize) -> usize {
    if wanted < MIN_CAPACITY {
        MIN_CAPACITY
    } else if wanted > MAX_CAPACITY {
        MAX_CAPACITY
    } else {
        wanted
    }
}

/// What eviction keeps of `entries` under a capacity of `capacity`: the
/// `capacity` newest entries in their order, or all of them if there are fewer.
pub open spec fn retained<T>(entries: Seq<T>, capacity: nat) -> Seq<T> {
    if entries.len() > capacity {
        entries.subrange(entries.len() - capacity, entries.len() as int)
    } else {
        entries
    }
}

/// Brings a wanted capacity into the accepted range.
pub fn clamp_capacity(wanted: usize) -> (capacity: usize)
    ensures
        capacity == clamped_capacity(wanted),
        MIN_CAPACITY <= capacity <= MAX_CAPACITY,
{
    if wanted < MIN_CAPACITY {
        MIN_CAPACITY
    } else if wanted > MAX_CAPACITY {
        MAX_CAPACITY
    } else {
        wanted
    }
}

/// Drops the oldest of `entries` until no more than `capacity` are left, and
/// keeps the others in their order.
pub fn evict<T>(entries: &mut Vec<T>, capacity: usize)
    ensures
        final(entries)@ == retained(old(entries)@, capacity as nat),
{
    let len = entries.len();
    if len > capacity {
        let newest = entries.split_off(len - capacity);
        *entries = newest;
    }
}

/// A number of entries between `MIN_CAPACITY` and `MAX_CAPACITY`.
#[derive(Clone, Copy, Debug)]
pub struct Capacity {
    limit: usize,
}

impl View for Capacity {
    type V = usize;

    closed spec fn view(&self) -> usize {
        self.limit
    }
}

impl Capacity {
    #[verifier::type_invariant]
    closed spec fn in_range(&self) -> bool {
        MIN_CAPACITY <= self.limit <= MAX_CAPACITY
    }

    /// The accepted capacity nearest to `wanted`.
    pub fn nearest(wanted: usize) -> (capacity: Self)
        ensures
            capacity@ == clamped_capacity(wanted),
    {
        Capacity { limit: clamp_capacity(wanted) }
    }

    /// The number of entries.
    pub fn get(&self) -> (limit: usize)
        ensures
            limit == self@,
            MIN_CAPACITY <= limit <= MAX_CAPACITY,
    {
        proof {
            use_type_invariant(self);
        }
        self.limit
    }
}

/// An ordered sequence of entries, oldest first, with a capacity that
/// eviction enforces.
///
/// Appending never drops anything by itself: a caller appends a batch and
/// then evicts once, so that a burst costs one pass over the buffer.
pub struct EventBuffer<T> {
    entries: Vec<T>,
    capacity: Capacity,
}

impl<T> View for EventBuffer<T> {
    type V = Seq<T>;

    /// The entries, oldest first.
    closed spec fn view(&self) -> Seq<T> {
        self.entries@
    }
}

impl<T> EventBuffer<T> {
    /// The capacity that eviction enforces.
    pub closed spec fn spec_capacity(&self) -> usize {
        self.capacity@
    }

    /// Whether the buffer holds no more than its capacity, as it does after
    /// every eviction.
    pub open spec fn within_capacity(&self) -> bool {
        self@.len() <= self.spec_capacity()
    }

    /// An empty buffer with the default capacity.
    pub fn new() -> (buffer: Self)
        ensures
            buffer@ == Seq::<T>::empty(),
            buffer.spec_capacity() == DEFAULT_CAPACITY,
    {
        EventBuffer { entries: Vec::new(), capacity: Capacity::nearest(DEFAULT_CAPACITY) }
    }

    /// An empty buffer with the capacity nearest to `wanted` that is accepted.
    pub fn with_capacity(wanted: usize) -> (buffer: Self)
        ensures
            buffer@ == Seq::<T>::empty(),
            buffer.spec_capacity() == clamped_capacity(wanted),
    {
        EventBuffer { entries: Vec::new(), capacity: Capacity::nearest(wanted) }
    }

    /// The capacity that eviction enforces, always between `MIN_CAPACITY` and
    /// `MAX_CAPACITY`.
    #[verifier::when_used_as_spec(spec_capacity)]
    pub fn capacity(&self) -> (capacity: usize)
        ensures
            capacity == self.spec_capacity(),
            MIN_CAPACITY <= capacity <= MAX_CAPACITY,
    {
        self.capacity.get()
    }

    /// The number of entries held.
    pub fn len(&self) -> (len: usize)
        ensures
            len == self@.len(),
    {
        self.entries.len()
    }

    /// Whether the buffer holds no entry.
    pub fn is_empty(&self) -> (empty: bool)
        ensures
            empty == (self@.len() == 0),
    {
        self.entries.len() == 0
    }

    /// Changes the capacity to the accepted value nearest to `wanted`. The
    /// entries stay as they are until the next eviction.
    pub fn set_capacity(&mut self, wanted: usize)
        ensures
            final(self).spec_capacity() == clamped_capacity(wanted),
            final(self)@ == old(self)@,
    {
        self.capacity = Capacity::nearest(wanted);
    }

    /// Adds `entry` as the newest one. Nothing is dropped.
    pub fn append(&mut self, entry: T)
        ensures
            final(self)@ == old(self)@.push(entry),
            final(self).spec_capacity() == old(self).spec_capacity(),
    {
        self.entries.push(entry);
    }

    /// Drops the oldest entries until no more than the capacity are left, and
    /// keeps the others in their order.
    pub fn evict_to_capacity(&mut self)
        ensures
            final(self)@ == retained(old(self)@, old(self).spec_capacity() as nat),
            final(self).spec_capacity() == old(self).spec_capacity(),
            final(self).within_capacity(),
    {
        let capacity = self.capacity.get();
        evict(&mut self.entries, capacity);
    }

    /// Drops every entry. The capacity stays.
    pub fn clear(&mut self)
        ensures
            final(self)@ == Seq::<T>::empty(),
            final(self).spec_capacity() == old(self).spec_capacity(),
    {
        self.entries.clear();
    }

    /// The entries, oldest first.
    pub fn snapshot(&self) -> (entries: &Vec<T>)
        ensures
            entries@ == self@,
    {
        &self.entries
    }
}

/// Eviction never leaves more than the capacity, and changes nothing that
/// already fits.
pub proof fn lemma_retained_fits<T>(entries: Seq<T>, capacity: nat)
    ensures
        retained(entries, capacity).len() <= capacity,
        retained(entries, capacity).len() <= entries.len(),
        entries.len() <= capacity ==> retained(entries, capacity) == entries,
{
}

/// After a batch of more entries than the capacity, eviction leaves exactly
/// the last `capacity` entries of the batch, in the order they were appended
/// in, whatever the buffer held before.
pub proof fn lemma_overfull_batch_keeps_its_newest<T>(before: Seq<T>, batch: Seq<T>, capacity: nat)
    requires
        batch.len() > capacity,
    ensures
        retained(before + batch, capacity).len() == capacity,
        retained(before + batch, capacity) == batch.subrange(
            batch.len() - capacity,
            batch.len() as int,
        ),
{
    assert(retained(before + batch, capacity) =~= batch.subrange(
        batch.len() - capacity,
        batch.len() as int,
    ));
}

/// Evicting after each of two batches leaves what one eviction after both
/// would leave: the buffer holds the newest entries of everything appended.
pub proof fn lemma_eviction_composes<T>(first: Seq<T>, second: Seq<T>, capacity: nat)
    ensures
        retained(retained(first, capacity) + second, capacity) == retained(
            first + second,
            capacity,
        ),
{
    assert(retained(retained(first, capacity) + second, capacity) =~= retained(
        first + second,
        capacity,
    ));
}

/// Eviction keeps the relative order: each entry kept is the entry that
/// stood the same distance from the newest end before.
pub proof fn lemma_eviction_keeps_order<T>(entries: Seq<T>, capacity: nat, i: int)
    requires
        0 <= i < retained(entries, capacity).len(),
    ensures
        retained(entries, capacity)[i] == entries[entries.len() - retained(
            entries,
            capacity,
        ).len() + i],
{
}

} // verus!
