use vstd::prelude::*;

verus! {

/// An ordered buffer of at most `capacity` items, oldest first.
///
/// Pushing onto a full buffer evicts the oldest item. Items are addressed by
/// a negative offset from the tail: `-1` is the most recent item.
#[derive(Debug)]
pub struct RingBuffer<T> {
    items: Vec<T>,
    capacity: usize,
}

impl<T> View for RingBuffer<T> {
    type V = Seq<T>;

    closed spec fn view(&self) -> Seq<T> {
        self.items@
    }
}

/// Position, counted from the front, of the item at a tail offset in a
/// sequence of length `len`.
pub open spec fn tail_index(len: nat, offset: int) -> int {
    len + offset
}

/// Whether `offset` addresses an item of a sequence of length `len`.
pub open spec fn valid_offset(len: nat, offset: int) -> bool {
    -(len as int) <= offset <= -1
}

/// The sequence after pushing `x` onto `s` with room for `capacity` items.
pub open spec fn pushed<T>(s: Seq<T>, capacity: nat, x: T) -> Seq<T> {
    if s.len() >= capacity {
        s.drop_first().push(x)
    } else {
        s.push(x)
    }
}

impl<T> RingBuffer<T> {
    /// The number of items the buffer can hold.
    pub closed spec fn capacity(&self) -> nat {
        self.capacity as nat
    }

    pub closed spec fn wf(&self) -> bool {
        &&& self.capacity > 0
        &&& self.items.len() <= self.capacity
    }

    pub fn new(capacity: usize) -> (r: Self)
        requires
            capacity > 0,
        ensures
            r.wf(),
            r@ == Seq::<T>::empty(),
            r.capacity() == capacity,
    {
        RingBuffer { items: Vec::new(), capacity }
    }

    pub fn len(&self) -> (r: usize)
        requires
            self.wf(),
        ensures
            r == self@.len(),
            r <= self.capacity(),
    {
        self.items.len()
    }

    /// Appends `item`; on a full buffer the oldest item is evicted first.
    pub fn push(&mut self, item: T)
        requires
            old(self).wf(),
        ensures
            final(self).wf(),
            final(self).capacity() == old(self).capacity(),
            final(self)@ == pushed(old(self)@, old(self).capacity(), item),
    {
        if self.items.len() >= self.capacity {
            self.items.remove(0);
        }
        self.items.push(item);
    }

    /// Removes every item; the capacity is kept.
    pub fn clear(&mut self)
        requires
            old(self).wf(),
        ensures
            final(self).wf(),
            final(self).capacity() == old(self).capacity(),
            final(self)@ == Seq::<T>::empty(),
    {
        self.items.clear();
    }

    /// The item at `offset` from the tail, or `None` when `offset` lies
    /// outside `[-len, -1]`.
    pub fn get(&self, offset: isize) -> (r: Option<&T>)
        requires
            self.wf(),
        ensures
            valid_offset(self@.len(), offset as int) ==> r == Some(
                &self@[tail_index(self@.len(), offset as int)],
            ),
            !valid_offset(self@.len(), offset as int) ==> r.is_none(),
    {
        if offset >= 0 {
            return None;
        }
        let back: usize = (-(offset + 1)) as usize;
        let len: usize = self.items.len();
        if back < len {
            Some(&self.items[len - 1 - back])
        } else {
            None
        }
    }

    /// A mutable reference to the item at `offset` from the tail, or `None`
    /// when `offset` lies outside `[-len, -1]`.
    pub fn get_mut(&mut self, offset: isize) -> (r: Option<&mut T>)
        requires
            old(self).wf(),
        ensures
            valid_offset(old(self)@.len(), offset as int) ==> {
                &&& r.is_some()
                &&& *r.unwrap() == old(self)@[tail_index(old(self)@.len(), offset as int)]
                &&& final(self)@ == old(self)@.update(
                    tail_index(old(self)@.len(), offset as int),
                    *final(r.unwrap()),
                )
            },
            !valid_offset(old(self)@.len(), offset as int) ==> r.is_none() && final(self)@
                == old(self)@,
            final(self).wf(),
            final(self).capacity() == old(self).capacity(),
    {
        if offset >= 0 {
            return None;
        }
        let back: usize = (-(offset + 1)) as usize;
        let len: usize = self.items.len();
        if back < len {
            Some(&mut self.items[len - 1 - back])
        } else {
            None
        }
    }
}

} // verus!
