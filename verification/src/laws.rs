//! What holds of the operations of a fixed-capacity vector, whatever its element type,
//! capacity and contents. Each statement is proved over the model that the contracts of
//! the executable operations are written in.
use vstd::prelude::*;

use crate::model::{
    after_clear, after_pop, after_pops, after_push, after_pushes, fits, has_room, is_clone_of,
    is_default, is_empty, is_extension_of, is_full, is_resize_of, popped, popped_by,
};

verus! {

/// A push, a pop and a clear each leave contents that fit the capacity, whether or not the
/// push finds room and the pop an element.
pub proof fn lemma_contents_keep_fitting<T>(items: Seq<T>, capacity: nat, value: T)
    requires
        fits(items, capacity),
    ensures
        fits(after_push(items, capacity, value), capacity),
        fits(after_pop(items), capacity),
        fits(after_clear(items), capacity),
{
}

/// Pushing values one by one, no more of them than there is room for, appends them all in
/// order.
pub proof fn lemma_pushes_append<T>(items: Seq<T>, capacity: nat, values: Seq<T>)
    requires
        has_room(items, capacity, values.len()),
    ensures
        after_pushes(items, capacity, values) == items + values,
    decreases values.len(),
{
    if values.len() > 0 {
        lemma_pushes_append(items, capacity, values.drop_last());
    }
}

/// Push up to `capacity` values into an empty vector, one by one. After any number of these
/// pushes the length is that number, the vector is full exactly when that number is the
/// capacity, and until then the next push finds room.
pub proof fn lemma_push_counts<T>(capacity: nat, values: Seq<T>, count: int)
    requires
        0 < capacity,
        values.len() <= capacity,
        0 <= count <= values.len(),
    ensures
        fits(after_pushes(Seq::<T>::empty(), capacity, values.take(count)), capacity),
        after_pushes(Seq::<T>::empty(), capacity, values.take(count)).len() == count,
        is_full(after_pushes(Seq::<T>::empty(), capacity, values.take(count)), capacity) <==> count
            == capacity,
        count < capacity ==> has_room(
            after_pushes(Seq::<T>::empty(), capacity, values.take(count)),
            capacity,
            1,
        ),
{
    lemma_pushes_append(Seq::<T>::empty(), capacity, values.take(count));
}

/// A push into a full vector changes nothing: the contents, and so the length and the last
/// element, are what they were.
pub proof fn lemma_push_into_full<T>(items: Seq<T>, capacity: nat, value: T)
    requires
        fits(items, capacity),
        is_full(items, capacity),
    ensures
        !has_room(items, capacity, 1),
        after_push(items, capacity, value) == items,
        after_push(items, capacity, value).len() == items.len(),
        popped(after_push(items, capacity, value)) == popped(items),
{
}

/// A push that finds room is undone by a pop, which hands out the value that was pushed.
pub proof fn lemma_pop_after_push<T>(items: Seq<T>, capacity: nat, value: T)
    requires
        has_room(items, capacity, 1),
    ensures
        popped(after_push(items, capacity, value)) == Some(value),
        after_pop(after_push(items, capacity, value)) == items,
{
}

/// Pops hand out the elements from the last one backwards, and leave those that they have
/// not reached.
pub proof fn lemma_pops_reverse<T>(items: Seq<T>, count: nat)
    requires
        count <= items.len(),
    ensures
        popped_by(items, count) == items.skip(items.len() - count).reverse(),
        after_pops(items, count) == items.take(items.len() - count),
    decreases count,
{
    if count > 0 {
        lemma_pops_reverse(items.drop_last(), (count - 1) as nat);
    }
}

/// Pop as often as values were pushed into an empty vector: the values come back in the
/// reverse of the order in which they went in, and the vector is empty again.
pub proof fn lemma_pops_after_pushes<T>(capacity: nat, values: Seq<T>)
    requires
        0 < capacity,
        values.len() <= capacity,
    ensures
        popped_by(after_pushes(Seq::<T>::empty(), capacity, values), values.len())
            == values.reverse(),
        is_empty(after_pops(after_pushes(Seq::<T>::empty(), capacity, values), values.len())),
{
    lemma_pushes_append(Seq::<T>::empty(), capacity, values);
    lemma_pops_reverse(values, values.len());
}

/// A pop from an empty vector hands out nothing and leaves it empty, however often it is
/// repeated.
pub proof fn lemma_pop_from_empty<T>(items: Seq<T>, count: nat)
    requires
        is_empty(items),
    ensures
        popped(items) is None,
        after_pop(items) == items,
        popped_by(items, count) == Seq::<T>::empty(),
        after_pops(items, count) == items,
    decreases count,
{
    if count > 0 {
        lemma_pop_from_empty(items, (count - 1) as nat);
    }
}

/// A resize to a length that the vector already has at least keeps the elements before
/// that length and nothing else.
pub proof fn lemma_resize_shrinks<T: Default>(after: Seq<T>, before: Seq<T>, new_length: nat)
    requires
        is_resize_of(after, before, new_length),
        new_length <= before.len(),
    ensures
        after == before.take(new_length as int),
{
}

/// A resize to a longer length keeps every element and appends default values up to that
/// length.
pub proof fn lemma_resize_grows<T: Default>(after: Seq<T>, before: Seq<T>, new_length: nat)
    requires
        is_resize_of(after, before, new_length),
        new_length >= before.len(),
    ensures
        after.len() == new_length,
        after.take(before.len() as int) == before,
        forall|i: int| before.len() <= i < new_length ==> is_default(#[trigger] after[i]),
{
}

/// A cleared vector is empty, whatever it held.
pub proof fn lemma_clear_empties<T>(items: Seq<T>)
    ensures
        is_empty(after_clear(items)),
        after_clear(items).len() == 0,
{
}

/// Where a clone of an element is always equal to the element, extending a vector by
/// `values` gives exactly the old contents followed by `values`.
pub proof fn lemma_extension_by_equal_clones<T: Clone>(
    after: Seq<T>,
    before: Seq<T>,
    values: Seq<T>,
)
    requires
        is_extension_of(after, before, values),
        forall|element: T, clone: T| cloned(element, clone) ==> element == clone,
    ensures
        after == before + values,
{
}

/// An extension keeps the old contents in place, whatever a clone of an element is.
pub proof fn lemma_extension_keeps_prefix<T: Clone>(after: Seq<T>, before: Seq<T>, values: Seq<T>)
    requires
        is_extension_of(after, before, values),
    ensures
        after.len() == before.len() + values.len(),
        after.take(before.len() as int) == before,
        is_clone_of(after.skip(before.len() as int), values),
{
}

/// Where a clone of an element is always equal to the element, a clone of a vector holds
/// exactly what the vector holds.
pub proof fn lemma_equal_clones<T: Clone>(copy: Seq<T>, items: Seq<T>)
    requires
        is_clone_of(copy, items),
        forall|element: T, clone: T| cloned(element, clone) ==> element == clone,
    ensures
        copy == items,
{
}

} // verus!
