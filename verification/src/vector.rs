use vstd::prelude::*;

use crate::error::{CapacityError, CapacityErrorKind};
use crate::iter::{Iter, IterMut};
use crate::model::{
    after_pop, after_push, fits, has_room, is_clone_of, is_extension_of, is_resize_of, popped,
};

verus! {

/// A vector with a fixed capacity and a dynamic length.
///
/// It holds at most `CAPACITY` elements. An operation that would need more room is turned
/// down and leaves the vector as it was.
///
/// Its view is the sequence of the elements that it holds, from the first to the last.
/// Room for an element is taken up when the element is added, not before, and an element
/// that leaves the vector is handed out or dropped at that moment.
pub struct Vec<T, const CAPACITY: usize> {
    data: std::vec::Vec<T>,
}

impl<T, const CAPACITY: usize> View for Vec<T, CAPACITY> {
    type V = Seq<T>;

    /// The elements that the vector holds, in order.
    closed spec fn view(&self) -> Seq<T> {
        self.data@
    }
}

impl<T, const CAPACITY: usize> Vec<T, CAPACITY> {
    /// The invariant of the type: the capacity is not zero and the length does not exceed it.
    pub open spec fn wf(&self) -> bool {
        fits(self@, CAPACITY as nat)
    }

    /// Creates a new empty [`Vec`] with maximum `CAPACITY` elements of type `T`.
    ///
    /// Zero-capacity vectors are not supported.
    #[must_use]
    pub fn new() -> (vec: Self)
        requires
            CAPACITY > 0,
        ensures
            vec.wf(),
            vec@ == Seq::<T>::empty(),
    {
        Self { data: std::vec::Vec::new() }
    }

    /// Returns the maximum number of elements the vector can contain.
    #[must_use]
    pub fn capacity(&self) -> (capacity: usize)
        ensures
            capacity == CAPACITY,
    {
        CAPACITY
    }

    /// Returns the number of elements the vector currently contains.
    #[must_use]
    pub fn len(&self) -> (length: usize)
        ensures
            length == self@.len(),
    {
        self.data.len()
    }

    /// Returns whether the vector has no elements.
    #[must_use]
    pub fn is_empty(&self) -> (empty: bool)
        ensures
            empty == crate::model::is_empty(self@),
    {
        self.data.len() == 0
    }

    /// Returns whether the vector is at maximum capacity.
    #[must_use]
    pub fn is_full(&self) -> (full: bool)
        ensures
            full == crate::model::is_full(self@, CAPACITY as nat),
    {
        self.len() == self.capacity()
    }

    /// Adds the given `value` to the end of the vector.
    ///
    /// # Errors
    ///
    /// Returns [`CapacityError`] if the vector is already at full capacity. The vector is
    /// then unchanged.
    pub fn push(&mut self, value: T) -> (result: Result<(), CapacityError>)
        requires
            old(self).wf(),
        ensures
            final(self).wf(),
            result is Ok <==> has_room(old(self)@, CAPACITY as nat, 1),
            result matches Err(error) ==> error.kind == CapacityErrorKind::CapacityExceeded,
            final(self)@ == after_push(old(self)@, CAPACITY as nat, value),
    {
        if self.is_full() {
            Err(CapacityError { kind: CapacityErrorKind::CapacityExceeded })
        } else {
            self.push_unchecked(value);
            Ok(())
        }
    }

    /// Removes all elements. Size will be zero.
    pub fn clear(&mut self)
        requires
            old(self).wf(),
        ensures
            final(self).wf(),
            final(self)@ == crate::model::after_clear(old(self)@),
    {
        self.drop_range(0);
    }

    /// Resizes the vector to the `new_length`.
    ///
    /// Growing appends values of `T::default()`; shrinking drops the elements at
    /// `new_length` and after it.
    ///
    /// # Errors
    ///
    /// Returns [`CapacityError`] if `new_length` exceeds the vector's fixed capacity.
    pub fn set_len(&mut self, new_length: usize) -> (result: Result<(), CapacityError>) where
        T: Default,

        requires
            old(self).wf(),
        ensures
            final(self).wf(),
            result is Ok <==> new_length <= CAPACITY,
            result is Ok ==> is_resize_of(final(self)@, old(self)@, new_length as nat),
            result matches Err(error) ==> error.kind == CapacityErrorKind::LengthTooLarge
                && final(self)@ == old(self)@,
    {
        if new_length > CAPACITY {
            return Err(CapacityError { kind: CapacityErrorKind::LengthTooLarge });
        }
        if new_length > self.data.len() {
            while self.data.len() < new_length
                invariant
                    self.wf(),
                    new_length <= CAPACITY,
                    old(self)@.len() <= self@.len() <= new_length,
                    is_resize_of(self@, old(self)@, self@.len()),
                decreases new_length - self@.len(),
            {
                self.push_unchecked(T::default());
            }
        } else {
            self.drop_range(new_length);
        }
        Ok(())
    }

    /// Returns a reference to the first element in the vector, or [`None`] if the vector is
    /// empty.
    #[must_use]
    pub fn first(&self) -> (element: Option<&T>)
        ensures
            self@.len() > 0 ==> element == Some(&self@.first()),
            self@.len() == 0 ==> element is None,
    {
        self.get(0)
    }

    /// Returns a reference to the last element in the vector, or [`None`] if the vector is
    /// empty.
    #[must_use]
    pub fn last(&self) -> (element: Option<&T>)
        ensures
            self@.len() > 0 ==> element == Some(&self@.last()),
            self@.len() == 0 ==> element is None,
    {
        if self.is_empty() {
            None
        } else {
            self.get(self.len() - 1)
        }
    }

    /// Returns a reference to the element at the specified `index`, or [`None`] if out of
    /// bounds. The bound is the length, not the capacity.
    #[must_use]
    pub fn get(&self, index: usize) -> (element: Option<&T>)
        ensures
            index < self@.len() ==> element == Some(&self@[index as int]),
            index >= self@.len() ==> element is None,
    {
        if index >= self.data.len() {
            None
        } else {
            Some(&self.data[index])
        }
    }

    /// Returns (and removes) the last element from the vector, or [`None`] if the vector is
    /// empty.
    #[must_use]
    pub fn pop(&mut self) -> (element: Option<T>)
        requires
            old(self).wf(),
        ensures
            final(self).wf(),
            element == popped(old(self)@),
            final(self)@ == after_pop(old(self)@),
    {
        if self.is_empty() {
            None
        } else {
            self.data.pop()
        }
    }

    /// Returns a mutable reference to the first element in the vector, or [`None`] if the
    /// vector is empty.
    #[must_use]
    pub fn first_mut(&mut self) -> (element: Option<&mut T>)
        requires
            old(self).wf(),
        ensures
            final(self).wf(),
            old(self)@.len() == 0 ==> element is None && final(self)@ == old(self)@,
            old(self)@.len() > 0 ==> element is Some && *element->Some_0 == old(self)@.first()
                && final(self)@ == old(self)@.update(0, *final(element->Some_0)),
    {
        self.get_mut(0)
    }

    /// Returns a mutable reference to the last element in the vector, or [`None`] if the
    /// vector is empty.
    #[must_use]
    pub fn last_mut(&mut self) -> (element: Option<&mut T>)
        requires
            old(self).wf(),
        ensures
            final(self).wf(),
            old(self)@.len() == 0 ==> element is None && final(self)@ == old(self)@,
            old(self)@.len() > 0 ==> element is Some && *element->Some_0 == old(self)@.last()
                && final(self)@ == old(self)@.update(old(self)@.len() - 1, *final(element->Some_0)),
    {
        if self.is_empty() {
            None
        } else {
            let last = self.len() - 1;
            self.get_mut(last)
        }
    }

    /// Returns a mutable reference to the element at the specified `index`, or [`None`] if
    /// out of bounds. The bound is the length, not the capacity.
    ///
    /// What is written through the reference is the element at `index` once the borrow
    /// ends; nothing else changes.
    #[must_use]
    pub fn get_mut(&mut self, index: usize) -> (element: Option<&mut T>)
        requires
            old(self).wf(),
        ensures
            final(self).wf(),
            index >= old(self)@.len() ==> element is None && final(self)@ == old(self)@,
            index < old(self)@.len() ==> element is Some && *element->Some_0 == old(self)@[index as int]
                && final(self)@ == old(self)@.update(index as int, *final(element->Some_0)),
    {
        if index >= self.len() {
            None
        } else {
            Some(&mut self.data[index])
        }
    }

    /// Returns (and removes) the last element from the vector if the predicate returns true,
    /// or [`None`] if the vector is empty or the predicate returns false.
    ///
    /// The predicate is called on the last element, once, and only where there is one.
    #[must_use]
    pub fn pop_if<F: FnOnce(&T) -> bool>(&mut self, predicate: F) -> (element: Option<T>)
        requires
            old(self).wf(),
            old(self)@.len() > 0 ==> predicate.requires((&old(self)@.last(),)),
        ensures
            final(self).wf(),
            element is Some ==> old(self)@.len() > 0
                && predicate.ensures((&old(self)@.last(),), true)
                && element == popped(old(self)@)
                && final(self)@ == after_pop(old(self)@),
            element is None ==> final(self)@ == old(self)@
                && (old(self)@.len() == 0 || predicate.ensures((&old(self)@.last(),), false)),
    {
        let remove = match self.last() {
            Some(last) => predicate(last),
            None => false,
        };
        if remove {
            self.pop()
        } else {
            None
        }
    }

    /// Returns an iterator over immutable references to the elements in the vector.
    pub fn iter(&self) -> (iter: Iter<'_, T>)
        ensures
            iter.wf(),
            iter.size() == self@.len(),
            iter.position() == 0,
            iter.elements() == self@,
    {
        Iter::new(self.data.as_slice(), self.data.len())
    }

    /// Returns an iterator over mutable references to the elements in the vector.
    ///
    /// When the borrow ends the vector holds what the iterator's slots then hold. It is
    /// well-formed again as soon as they are known to be as many as before, which they
    /// always are.
    pub fn iter_mut(&mut self) -> (iter: IterMut<'_, T>)
        requires
            old(self).wf(),
        ensures
            iter.wf(),
            iter.size() == old(self)@.len(),
            iter.position() == 0,
            iter.remaining() == old(self)@,
            final(self)@ == final(iter.slots())@,
            final(iter.slots())@.len() == old(self)@.len() ==> final(self).wf(),
    {
        let size = self.data.len();
        IterMut::new(self.data.as_mut_slice(), size)
    }

    /// Returns a slice of the entire vector.
    #[must_use]
    pub fn as_slice(&self) -> (slice: &[T])
        ensures
            slice@ == self@,
    {
        self.data.as_slice()
    }

    /// Returns a mutable slice of the entire vector.
    ///
    /// When the borrow ends the vector holds what the slice then holds. It is well-formed
    /// again as soon as the slice is known to have kept its length, which every slice does.
    #[must_use]
    pub fn as_mut_slice(&mut self) -> (slice: &mut [T])
        requires
            old(self).wf(),
        ensures
            slice@ == old(self)@,
            final(self)@ == final(slice)@,
            final(slice)@.len() == slice@.len() ==> final(self).wf(),
    {
        self.data.as_mut_slice()
    }

    /// Inserts elements of given slice at the end of the vector.
    ///
    /// # Errors
    ///
    /// Returns [`CapacityError`] if adding elements of given slice would result in vector
    /// exceeding its capacity. The vector is then unchanged.
    pub fn extend_from_slice(&mut self, slice: &[T]) -> (result: Result<(), CapacityError>) where
        T: Clone,

        requires
            old(self).wf(),
        ensures
            final(self).wf(),
            result is Ok <==> has_room(old(self)@, CAPACITY as nat, slice@.len()),
            result is Ok ==> is_extension_of(final(self)@, old(self)@, slice@),
            result matches Err(error) ==> error.kind == CapacityErrorKind::CapacityExceeded
                && final(self)@ == old(self)@,
    {
        if slice.len() > CAPACITY - self.len() {
            return Err(CapacityError { kind: CapacityErrorKind::CapacityExceeded });
        }
        let mut index: usize = 0;
        while index < slice.len()
            invariant
                self.wf(),
                index <= slice@.len(),
                old(self)@.len() + slice@.len() <= CAPACITY,
                self@.len() == old(self)@.len() + index,
                is_extension_of(self@, old(self)@, slice@.take(index as int)),
            decreases slice@.len() - index,
        {
            self.push_unchecked(slice[index].clone());
            index += 1;
        }
        Ok(())
    }

    /// Moves elements of `other` vector at the end of the current vector. `other` will be
    /// empty.
    ///
    /// # Errors
    ///
    /// Returns [`CapacityError`] if adding elements from `other` would result in current
    /// vector exceeding its capacity. Both vectors are then unchanged.
    pub fn append<const OTHER_CAPACITY: usize>(
        &mut self,
        other: &mut Vec<T, OTHER_CAPACITY>,
    ) -> (result: Result<(), CapacityError>) where T: Clone
        requires
            old(self).wf(),
            old(other).wf(),
        ensures
            final(self).wf(),
            final(other).wf(),
            result is Ok <==> has_room(old(self)@, CAPACITY as nat, old(other)@.len()),
            result is Ok ==> is_extension_of(final(self)@, old(self)@, old(other)@)
                && final(other)@ == Seq::<T>::empty(),
            result matches Err(error) ==> error.kind == CapacityErrorKind::CapacityExceeded
                && final(self)@ == old(self)@ && final(other)@ == old(other)@,
    {
        match self.extend_from_slice(other.as_slice()) {
            Ok(()) => {
                other.clear();
                Ok(())
            },
            Err(error) => Err(error),
        }
    }

    /// Adds the given `value` to the end of the vector without checking bounds.
    /// For internal and controlled use only.
    fn push_unchecked(&mut self, value: T)
        requires
            old(self).wf(),
            old(self)@.len() < CAPACITY,
        ensures
            final(self).wf(),
            final(self)@ == old(self)@.push(value),
    {
        self.data.push(value);
    }

    /// Drops the elements from index `from` to the end, in order, and makes `from` the length.
    /// Needed when elements are considered to be going out of scope.
    fn drop_range(&mut self, from: usize)
        requires
            old(self).wf(),
            from <= old(self)@.len(),
        ensures
            final(self).wf(),
            final(self)@ == old(self)@.take(from as int),
    {
        self.data.truncate(from);
    }
}

impl<T, const CAPACITY: usize> Default for Vec<T, CAPACITY> {
    /// Creates an empty [`Vec`]. Equivalent to [`Vec::new()`], which is the one to call
    /// where the capacity is known not to be zero.
    fn default() -> (vec: Self)
        ensures
            vec@ == Seq::<T>::empty(),
            CAPACITY > 0 ==> vec.wf(),
    {
        Self { data: std::vec::Vec::new() }
    }
}

impl<T: Clone, const CAPACITY: usize> Clone for Vec<T, CAPACITY> {
    /// Creates a vector of the same capacity that holds one clone of each element, in order.
    fn clone(&self) -> (vec: Self)
        ensures
            is_clone_of(vec@, self@),
            self.wf() ==> vec.wf(),
    {
        let mut data: std::vec::Vec<T> = std::vec::Vec::new();
        let mut index: usize = 0;
        while index < self.data.len()
            invariant
                index <= self.data@.len(),
                is_clone_of(data@, self.data@.take(index as int)),
            decreases self.data@.len() - index,
        {
            data.push(self.data[index].clone());
            index += 1;
        }
        Self { data }
    }
}

} // verus!
