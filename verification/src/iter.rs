use vstd::prelude::*;

verus! {

/// Immutable iterator over a [`Vec`](crate::Vec).
///
/// Created by calling [`Vec::iter()`](crate::Vec::iter). It walks over the elements that the
/// vector held when the iterator was made, from the first to the last, once.
#[must_use]
pub struct Iter<'a, T> {
    data: &'a [T],
    size: usize,
    index: usize,
}

impl<'a, T> Iter<'a, T> {
    /// The elements that the iterator walks over. They are fixed when it is made.
    pub closed spec fn elements(&self) -> Seq<T> {
        self.data@
    }

    /// How many elements the iterator walks over. It is fixed when the iterator is made.
    pub closed spec fn size(&self) -> nat {
        self.size as nat
    }

    /// How many elements the iterator has handed out.
    pub closed spec fn position(&self) -> nat {
        self.index as nat
    }

    /// The invariant of the type: the size is the number of elements, and the cursor is
    /// not beyond it.
    pub open spec fn wf(&self) -> bool {
        self.position() <= self.size() == self.elements().len()
    }

    /// The elements that the iterator has yet to hand out.
    pub open spec fn remaining(&self) -> Seq<T> {
        self.elements().skip(self.position() as int)
    }

    /// Creates immutable iterator over the first `size` elements of `data`.
    pub fn new(data: &'a [T], size: usize) -> (iter: Self)
        requires
            size <= data@.len(),
        ensures
            iter.wf(),
            iter.size() == size,
            iter.position() == 0,
            iter.elements() == data@.take(size as int),
    {
        let (head, _) = data.split_at(size);
        Self { data: head, size, index: 0 }
    }

    /// Hands out the element under the cursor and moves the cursor on, or returns [`None`]
    /// when every element was handed out. After that it returns [`None`] each time.
    pub fn next(&mut self) -> (element: Option<&'a T>)
        requires
            old(self).wf(),
        ensures
            final(self).wf(),
            final(self).size() == old(self).size(),
            final(self).elements() == old(self).elements(),
            match element {
                Some(value) => {
                    &&& old(self).position() < old(self).size()
                    &&& final(self).position() == old(self).position() + 1
                    &&& *value == old(self).elements()[old(self).position() as int]
                },
                None => old(self).position() == old(self).size() && *final(self) == *old(self),
            },
    {
        if self.index == self.size {
            None
        } else {
            let data: &'a [T] = self.data;
            let value = &data[self.index];
            self.index += 1;
            Some(value)
        }
    }
}

/// Mutable iterator over a [`Vec`](crate::Vec).
///
/// Created by calling [`Vec::iter_mut()`](crate::Vec::iter_mut). It hands out a mutable
/// reference to each element that the vector held when the iterator was made, from the
/// first to the last, once.
#[must_use]
pub struct IterMut<'a, T> {
    data: &'a mut [T],
    size: usize,
    index: usize,
}

impl<'a, T> IterMut<'a, T> {
    /// How many elements the iterator walks over. It is fixed when the iterator is made.
    pub closed spec fn size(&self) -> nat {
        self.size as nat
    }

    /// How many elements the iterator has handed out.
    pub closed spec fn position(&self) -> nat {
        self.index as nat
    }

    /// The elements that the iterator has yet to hand out, as they are now.
    pub closed spec fn remaining(&self) -> Seq<T> {
        self.data@
    }

    /// The borrow of the elements that the iterator has yet to hand out. Its final value is
    /// what those elements hold when the borrow ends.
    pub closed spec fn slots(self) -> &'a mut [T] {
        self.data
    }

    /// The invariant of the type: the cursor is not beyond the size, and what lies between
    /// them has yet to be handed out.
    pub open spec fn wf(&self) -> bool {
        self.position() <= self.size() && self.remaining().len() == self.size() - self.position()
    }

    /// Once the iterator is no longer used, the elements that it has not handed out hold
    /// for good what they hold now.
    pub proof fn lemma_resolved(self)
        requires
            has_resolved(self),
        ensures
            final(self.slots())@ == self.remaining(),
    {
    }

    /// Creates mutable iterator over the first `size` elements of `data`.
    ///
    /// The elements of `data` at `size` and after it stay as they are.
    pub fn new(data: &'a mut [T], size: usize) -> (iter: Self)
        requires
            size <= old(data)@.len(),
        ensures
            iter.wf(),
            iter.size() == size,
            iter.position() == 0,
            iter.remaining() == old(data)@.take(size as int),
            final(data)@ == final(iter.slots())@ + old(data)@.skip(size as int),
    {
        let (head, _) = data.split_at_mut(size);
        Self { data: head, size, index: 0 }
    }

    /// Hands out the first element that has not been handed out yet, or returns [`None`]
    /// when every element was handed out. After that it returns [`None`] each time.
    ///
    /// What is written through the reference is what that element holds when the borrow
    /// of the vector ends.
    pub fn next(&mut self) -> (element: Option<&'a mut T>)
        requires
            old(self).wf(),
        ensures
            final(self).wf(),
            final(self).size() == old(self).size(),
            match element {
                Some(value) => {
                    &&& old(self).position() < old(self).size()
                    &&& final(self).position() == old(self).position() + 1
                    &&& *value == old(self).remaining().first()
                    &&& final(self).remaining() == old(self).remaining().drop_first()
                    &&& final(old(self).slots())@ == seq![*final(value)]
                        + final(final(self).slots())@
                },
                None => old(self).position() == old(self).size() && *final(self) == *old(self),
            },
    {
        if self.index == self.size {
            None
        } else {
            let mut rest: &'a mut [T] = &mut [];
            core::mem::swap(&mut rest, &mut self.data);
            let (head, tail) = rest.split_at_mut(1);
            self.data = tail;
            self.index += 1;
            Some(&mut head[0])
        }
    }
}

} // verus!
