use vstd::prelude::*;

verus! {

/// What the device side of a [`BackedBuffer`] must do to match its mirror.
///
/// When `reallocate` holds, the device buffer is created anew with room for
/// `capacity` elements (any older one is dropped) before the range is written.
/// The elements in `start..end` of the mirror are then written at the same
/// element offsets.
#[derive(Clone, Copy, Debug, PartialEq, Eq, Structural)]
pub struct BufferUpload {
    pub reallocate: bool,
    pub capacity: usize,
    pub start: usize,
    pub end: usize,
}

/// Capacity chosen when `needed` elements must fit in a buffer of capacity `cap`:
/// unchanged when they fit, else twice the old capacity or exactly `needed`,
/// whichever is larger (exactly `needed` where doubling would not fit in `usize`).
pub open spec fn grown_capacity(cap: nat, needed: nat) -> nat {
    if needed <= cap {
        cap
    } else if 2 * cap >= needed && 2 * cap <= usize::MAX {
        2 * cap
    } else {
        needed
    }
}

/// Applying a run of pushes, one after another, to a buffer that holds `s`.
pub open spec fn pushes<T>(s: Seq<T>, pushed: Seq<T>) -> Seq<T>
    decreases pushed.len(),
{
    if pushed.len() == 0 {
        s
    } else {
        pushes(s, pushed.drop_last()).push(pushed.last())
    }
}

/// A growable, typed device buffer with a CPU-side mirror.
///
/// The mirror holds the `len` valid elements; the device buffer has room for
/// `capacity` elements. Every change made through the mirror is remembered
/// until [`BackedBuffer::flush`] hands out the one upload that brings the
/// device buffer up to date: the lowest element touched since the last flush,
/// and whether the device buffer must be (re)created first.
pub struct BackedBuffer<T> {
    data: Vec<T>,
    capacity: usize,
    dirty_from: usize,
    reallocate: bool,
}

impl<T> View for BackedBuffer<T> {
    type V = Seq<T>;

    closed spec fn view(&self) -> Seq<T> {
        self.data@
    }
}

impl<T> BackedBuffer<T> {
    /// The buffer's own invariant: the valid elements fit in the capacity, and
    /// the pending range starts inside them.
    pub closed spec fn wf(&self) -> bool {
        &&& self.data@.len() <= self.capacity
        &&& self.dirty_from <= self.data@.len()
    }

    pub closed spec fn spec_capacity(&self) -> usize {
        self.capacity
    }

    /// First element written since the last flush (the length when none was).
    pub closed spec fn spec_dirty_from(&self) -> usize {
        self.dirty_from
    }

    /// Whether the device buffer must be (re)created at the next flush.
    pub closed spec fn spec_reallocate(&self) -> bool {
        self.reallocate
    }

    /// A valid buffer holds no more elements than it has room for, and its
    /// pending range starts inside them.
    pub proof fn lemma_len_within_capacity(&self)
        requires
            self.wf(),
        ensures
            self@.len() <= self.spec_capacity(),
            self.spec_dirty_from() <= self@.len(),
    {
    }

    /// A buffer sized to `data` and holding it; its device buffer is yet to be
    /// created and filled.
    pub fn with_data(data: Vec<T>) -> (r: Self)
        ensures
            r.wf(),
            r@ == data@,
            r.spec_capacity() == data@.len(),
            r.spec_dirty_from() == 0,
            r.spec_reallocate(),
    {
        let capacity = data.len();
        BackedBuffer { data, capacity, dirty_from: 0, reallocate: true }
    }

    /// An empty buffer with room for `capacity` elements; its device buffer is
    /// yet to be created.
    pub fn with_capacity(capacity: usize) -> (r: Self)
        ensures
            r.wf(),
            r@ == Seq::<T>::empty(),
            r.spec_capacity() == capacity,
            r.spec_dirty_from() == 0,
            r.spec_reallocate(),
    {
        BackedBuffer { data: Vec::new(), capacity, dirty_from: 0, reallocate: true }
    }

    /// Number of valid elements.
    pub fn len(&self) -> (r: usize)
        ensures
            r == self@.len(),
    {
        self.data.len()
    }

    /// Number of elements the device buffer has room for.
    pub fn capacity(&self) -> (r: usize)
        ensures
            r == self.spec_capacity(),
    {
        self.capacity
    }

    /// The valid elements, as the device will hold them after the next flush.
    pub fn as_slice(&self) -> (r: &[T])
        ensures
            r@ == self@,
    {
        self.data.as_slice()
    }

    /// Drops every element. The capacity and the device bytes stay; the stale
    /// bytes are never read, as draws are bounded by the length.
    pub fn clear(&mut self)
        requires
            old(self).wf(),
        ensures
            final(self).wf(),
            final(self)@ == Seq::<T>::empty(),
            final(self).spec_capacity() == old(self).spec_capacity(),
            final(self).spec_dirty_from() == 0,
            final(self).spec_reallocate() == old(self).spec_reallocate(),
    {
        self.data.clear();
        self.dirty_from = 0;
    }

    /// Appends one element at the end, growing the capacity (double or exact)
    /// when it is full. Growth keeps every element already held.
    pub fn push(&mut self, value: T)
        requires
            old(self).wf(),
            old(self)@.len() < usize::MAX,
        ensures
            final(self).wf(),
            final(self)@ == old(self)@.push(value),
            final(self).spec_capacity() as nat == grown_capacity(
                old(self).spec_capacity() as nat,
                old(self)@.len() + 1,
            ),
            final(self).spec_capacity() >= old(self).spec_capacity(),
            final(self).spec_dirty_from() == old(self).spec_dirty_from(),
            final(self).spec_reallocate() == (old(self).spec_reallocate()
                || final(self).spec_capacity() != old(self).spec_capacity()),
    {
        let needed = self.data.len() + 1;
        if needed > self.capacity {
            self.capacity = grow(self.capacity, needed);
            self.reallocate = true;
        }
        self.data.push(value);
    }

    /// Replaces the whole content by `data`. The capacity grows (double or
    /// exact) only when `data` does not fit; everything is uploaded again.
    pub fn replace(&mut self, data: Vec<T>)
        requires
            old(self).wf(),
        ensures
            final(self).wf(),
            final(self)@ == data@,
            final(self).spec_capacity() as nat == grown_capacity(
                old(self).spec_capacity() as nat,
                data@.len(),
            ),
            final(self).spec_dirty_from() == 0,
            final(self).spec_reallocate() == (old(self).spec_reallocate()
                || final(self).spec_capacity() != old(self).spec_capacity()),
    {
        let needed = data.len();
        if needed > self.capacity {
            self.capacity = grow(self.capacity, needed);
            self.reallocate = true;
        }
        self.data = data;
        self.dirty_from = 0;
    }

    /// The upload that the pending changes call for, without clearing them.
    pub fn pending_upload(&self) -> (u: BufferUpload)
        requires
            self.wf(),
        ensures
            u == upload_for(self.spec_reallocate(), self.spec_capacity(), self.spec_dirty_from(), self@.len()),
    {
        if self.reallocate {
            BufferUpload { reallocate: true, capacity: self.capacity, start: 0, end: self.data.len() }
        } else {
            BufferUpload {
                reallocate: false,
                capacity: self.capacity,
                start: self.dirty_from,
                end: self.data.len(),
            }
        }
    }

    /// Closes the current batch of changes: hands out the upload that brings
    /// the device buffer up to date (only the touched range, or everything
    /// when the device buffer must be recreated) and marks the buffer clean.
    pub fn flush(&mut self) -> (u: BufferUpload)
        requires
            old(self).wf(),
        ensures
            final(self).wf(),
            u == upload_for(
                old(self).spec_reallocate(),
                old(self).spec_capacity(),
                old(self).spec_dirty_from(),
                old(self)@.len(),
            ),
            final(self)@ == old(self)@,
            final(self).spec_capacity() == old(self).spec_capacity(),
            final(self).spec_dirty_from() == old(self)@.len(),
            !final(self).spec_reallocate(),
    {
        let u = self.pending_upload();
        self.dirty_from = self.data.len();
        self.reallocate = false;
        u
    }
}

/// The upload for a buffer of `len` valid elements and capacity `cap` whose
/// changes start at `dirty_from`.
pub open spec fn upload_for(reallocate: bool, cap: usize, dirty_from: usize, len: nat) -> BufferUpload {
    BufferUpload {
        reallocate,
        capacity: cap,
        start: if reallocate { 0 } else { dirty_from },
        end: len as usize,
    }
}

fn grow(cap: usize, needed: usize) -> (r: usize)
    requires
        needed > cap,
    ensures
        r == grown_capacity(cap as nat, needed as nat),
{
    if cap <= usize::MAX / 2 && 2 * cap >= needed {
        2 * cap
    } else {
        needed
    }
}

/// Pushing the elements of `pushed` one after another onto a buffer that holds
/// `s` leaves `s` followed by `pushed`: the new length is the old one plus the
/// number of pushes, and the pushed values read back in push order.
pub proof fn lemma_pushes_append<T>(s: Seq<T>, pushed: Seq<T>)
    ensures
        pushes(s, pushed) == s + pushed,
        pushes(s, pushed).len() == s.len() + pushed.len(),
    decreases pushed.len(),
{
    if pushed.len() > 0 {
        lemma_pushes_append(s, pushed.drop_last());
        assert(s + pushed =~= (s + pushed.drop_last()).push(pushed.last()));
    } else {
        assert(s + pushed =~= s);
    }
}

/// After a clear the buffer is empty, so a batch of `k` pushes leaves exactly
/// those `k` elements, whatever the length was before.
pub proof fn lemma_clear_then_pushes<T>(pushed: Seq<T>)
    ensures
        pushes(Seq::<T>::empty(), pushed) == pushed,
        pushes(Seq::<T>::empty(), pushed).len() == pushed.len(),
{
    lemma_pushes_append(Seq::<T>::empty(), pushed);
    assert(Seq::<T>::empty() + pushed =~= pushed);
}

/// Growth never shrinks the buffer and always makes room for what is needed;
/// a push keeps every element that was there before it, in place.
pub proof fn lemma_growth_preserves<T>(s: Seq<T>, v: T, cap: nat)
    requires
        s.len() <= cap,
    ensures
        grown_capacity(cap, s.len() + 1) >= cap,
        grown_capacity(cap, s.len() + 1) >= s.len() + 1,
        s.push(v).subrange(0, s.len() as int) == s,
        forall|i: int| 0 <= i < s.len() ==> #[trigger] s.push(v)[i] == s[i],
{
    assert(s.push(v).subrange(0, s.len() as int) =~= s);
}

} // verus!
