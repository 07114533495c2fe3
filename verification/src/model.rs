//! The mathematical model of a fixed-capacity vector: its contents are a `Seq`, its capacity a
//! `nat`. The contracts of the executable operations are stated over these functions.
use vstd::prelude::*;

verus! {

/// Whether `items` can be the contents of a vector of capacity `capacity`: the capacity is not
/// zero, and no more elements are held than it allows.
pub open spec fn fits<T>(items: Seq<T>, capacity: nat) -> bool {
    0 < capacity && items.len() <= capacity
}

/// Whether a vector with these contents holds no element.
pub open spec fn is_empty<T>(items: Seq<T>) -> bool {
    items.len() == 0
}

/// Whether a vector with these contents and this capacity has no room left.
pub open spec fn is_full<T>(items: Seq<T>, capacity: nat) -> bool {
    items.len() == capacity
}

/// Whether `count` more elements can be added to `items` without exceeding `capacity`.
pub open spec fn has_room<T>(items: Seq<T>, capacity: nat, count: nat) -> bool {
    items.len() + count <= capacity
}

/// The contents after `value` was pushed: one element longer where there was room, and
/// unchanged where there was none.
pub open spec fn after_push<T>(items: Seq<T>, capacity: nat, value: T) -> Seq<T> {
    if has_room(items, capacity, 1) {
        items.push(value)
    } else {
        items
    }
}

/// The element that a pop hands out: the last one, or nothing where there is none.
pub open spec fn popped<T>(items: Seq<T>) -> Option<T> {
    if items.len() > 0 {
        Some(items.last())
    } else {
        None
    }
}

/// The contents after a pop: the last element is gone, or nothing has changed where
/// there was none.
pub open spec fn after_pop<T>(items: Seq<T>) -> Seq<T> {
    if items.len() > 0 {
        items.drop_last()
    } else {
        items
    }
}

/// The contents after each element of `values` was pushed, from the first to the last.
pub open spec fn after_pushes<T>(items: Seq<T>, capacity: nat, values: Seq<T>) -> Seq<T>
    decreases values.len(),
{
    if values.len() == 0 {
        items
    } else {
        after_push(after_pushes(items, capacity, values.drop_last()), capacity, values.last())
    }
}

/// The contents after `count` pops.
pub open spec fn after_pops<T>(items: Seq<T>, count: nat) -> Seq<T>
    decreases count,
{
    if count == 0 {
        items
    } else {
        after_pops(after_pop(items), (count - 1) as nat)
    }
}

/// The elements that `count` pops hand out, in the order in which they come. A pop that
/// finds no element adds none.
pub open spec fn popped_by<T>(items: Seq<T>, count: nat) -> Seq<T>
    decreases count,
{
    if count == 0 {
        Seq::empty()
    } else {
        match popped(items) {
            Some(value) => seq![value] + popped_by(after_pop(items), (count - 1) as nat),
            None => popped_by(after_pop(items), (count - 1) as nat),
        }
    }
}

/// The contents after a clear.
pub open spec fn after_clear<T>(items: Seq<T>) -> Seq<T> {
    Seq::empty()
}

/// Whether `value` is a value that `T::default()` may return.
pub open spec fn is_default<T: Default>(value: T) -> bool {
    call_ensures(T::default, (), value)
}

/// Whether `after` is `before` brought to the length `new_length`: what both have room for
/// is kept, and every element beyond the old length is a default value.
pub open spec fn is_resize_of<T: Default>(after: Seq<T>, before: Seq<T>, new_length: nat) -> bool {
    &&& after.len() == new_length
    &&& forall|i: int| 0 <= i < new_length && i < before.len() ==> #[trigger] after[i] == before[i]
    &&& forall|i: int| before.len() <= i < new_length ==> is_default(#[trigger] after[i])
}

/// Whether `after` is `before` followed by one clone of each element of `values`, in order.
pub open spec fn is_extension_of<T: Clone>(after: Seq<T>, before: Seq<T>, values: Seq<T>) -> bool {
    &&& after.len() == before.len() + values.len()
    &&& forall|i: int| 0 <= i < before.len() ==> #[trigger] after[i] == before[i]
    &&& forall|i: int|
        before.len() <= i < after.len() ==> cloned(values[i - before.len()], #[trigger] after[i])
}

/// Whether `copy` holds one clone of each element of `items`, in order.
pub open spec fn is_clone_of<T: Clone>(copy: Seq<T>, items: Seq<T>) -> bool {
    &&& copy.len() == items.len()
    &&& forall|i: int| 0 <= i < items.len() ==> cloned(items[i], #[trigger] copy[i])
}

} // verus!
