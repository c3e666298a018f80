//! An ordered queue of pending work items.
//!
//! Items leave in the order in which they arrived. Only the head can be
//! looked at or taken, with one exception: a round over the whole queue
//! may reach an item by its position and drop one that has finished.

use std::collections::VecDeque;
use vstd::prelude::*;

verus! {

/// `VecDeque::front_mut`: a mutable reference to the first element, or
/// `None` when the deque is empty. Nothing but that element can change
/// through the reference.
#[verifier::external_body]
fn deque_front_mut<T>(deque: &mut VecDeque<T>) -> (head: Option<&mut T>)
    ensures
        old(deque)@.len() == 0 ==> head.is_none() && final(deque)@ == old(deque)@,
        old(deque)@.len() > 0 ==> head.is_some() && *head.unwrap() == old(deque)@[0]
            && final(deque)@ == old(deque)@.update(0, *final(head.unwrap())),
{
    deque.front_mut()
}

/// `VecDeque::get_mut`: a mutable reference to the element at `index`, or
/// `None` when `index` is out of bounds. Nothing but that element can
/// change through the reference.
#[verifier::external_body]
fn deque_get_mut<T>(deque: &mut VecDeque<T>, index: usize) -> (item: Option<&mut T>)
    ensures
        index >= old(deque)@.len() ==> item.is_none() && final(deque)@ == old(deque)@,
        index < old(deque)@.len() ==> item.is_some() && *item.unwrap() == old(deque)@[index as int]
            && final(deque)@ == old(deque)@.update(index as int, *final(item.unwrap())),
{
    deque.get_mut(index)
}

/// A first-in, first-out queue of work items.
pub struct FutureSet<V> {
    set: VecDeque<V>,
}

impl<V> View for FutureSet<V> {
    type V = Seq<V>;

    /// The items in the order in which they will leave, head first.
    closed spec fn view(&self) -> Seq<V> {
        self.set@
    }
}

impl<V> Default for FutureSet<V> {
    fn default() -> (queue: Self)
        ensures
            queue@ == Seq::<V>::empty(),
    {
        FutureSet { set: VecDeque::default() }
    }
}

impl<V> FutureSet<V> {
    /// Appends `v` at the tail. The slot that comes back is a
    /// placeholder: it is 0 for every item and identifies none.
    pub fn insert(&mut self, v: V) -> (slot: usize)
        ensures
            final(self)@ == old(self)@.push(v),
            slot == 0,
    {
        self.set.push_back(v);
        0
    }

    /// The head of the queue, if there is one.
    pub fn next(&self) -> (head: Option<&V>)
        ensures
            self@.len() == 0 ==> head.is_none(),
            self@.len() > 0 ==> head == Some(&self@[0]),
    {
        if self.set.len() == 0 {
            None
        } else {
            Some(&self.set[0])
        }
    }

    /// The head of the queue, open to change. The rest of the queue
    /// stays as it is.
    pub fn next_mut(&mut self) -> (head: Option<&mut V>)
        ensures
            old(self)@.len() == 0 ==> head.is_none() && final(self)@ == old(self)@,
            old(self)@.len() > 0 ==> head.is_some() && *head.unwrap() == old(self)@[0]
                && final(self)@ == old(self)@.update(0, *final(head.unwrap())),
    {
        deque_front_mut(&mut self.set)
    }

    /// Takes the head off the queue.
    pub fn pop(&mut self) -> (head: Option<V>)
        ensures
            old(self)@.len() == 0 ==> head.is_none() && final(self)@ == old(self)@,
            old(self)@.len() > 0 ==> head == Some(old(self)@[0])
                && final(self)@ == old(self)@.drop_first(),
    {
        self.set.pop_front()
    }

    /// Whether the queue holds no item.
    pub fn is_empty(&self) -> (empty: bool)
        ensures
            empty == (self@.len() == 0),
    {
        self.set.len() == 0
    }

    /// The number of items in the queue.
    pub fn len(&self) -> (n: usize)
        ensures
            n == self@.len(),
    {
        self.set.len()
    }

    /// Moves every item of `other` to the tail of this queue, in the
    /// order in which `other` held them, and leaves `other` empty.
    pub fn append(&mut self, other: &mut FutureSet<V>)
        ensures
            final(self)@ == old(self)@ + old(other)@,
            final(other)@ == Seq::<V>::empty(),
    {
        self.set.append(&mut other.set);
    }

    /// Takes the item at `index` out of the queue; the items behind it
    /// move up by one. Without such an item the queue stays as it is.
    pub fn remove(&mut self, index: usize) -> (item: Option<V>)
        ensures
            index >= old(self)@.len() ==> item.is_none() && final(self)@ == old(self)@,
            index < old(self)@.len() ==> item == Some(old(self)@[index as int])
                && final(self)@ == old(self)@.remove(index as int),
    {
        self.set.remove(index)
    }

    /// The item at `index`, open to change. The rest of the queue stays
    /// as it is.
    pub fn get_mut(&mut self, index: usize) -> (item: Option<&mut V>)
        ensures
            index >= old(self)@.len() ==> item.is_none() && final(self)@ == old(self)@,
            index < old(self)@.len() ==> item.is_some() && *item.unwrap() == old(
                self,
            )@[index as int] && final(self)@ == old(self)@.update(
                index as int,
                *final(item.unwrap()),
            ),
    {
        deque_get_mut(&mut self.set, index)
    }
}

} // verus!
