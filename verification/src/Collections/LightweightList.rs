use vstd::prelude::*;
use std::collections::VecDeque;

verus! {

/// A first-in, first-out line of items: `push` adds behind the last one,
/// `front` shows the oldest, `pop` takes it away.
pub struct LwList<T> {
    items: VecDeque<T>,
}

impl<T> View for LwList<T> {
    type V = Seq<T>;

    closed spec fn view(&self) -> Seq<T> {
        self.items@
    }
}

impl<T> LwList<T> {
    pub fn new() -> (list: Self)
        ensures
            list@ == Seq::<T>::empty(),
    {
        LwList { items: VecDeque::new() }
    }

    /// Adds `value` behind every item that the list holds.
    pub fn push(&mut self, value: T)
        ensures
            final(self)@ == old(self)@.push(value),
    {
        self.items.push_back(value);
    }

    /// The oldest item, if there is one.
    pub fn front(&self) -> (head: Option<&T>)
        ensures
            self@.len() == 0 ==> head is None,
            self@.len() > 0 ==> head == Some(&self@[0]),
    {
        if self.items.len() == 0 {
            None
        } else {
            Some(&self.items[0])
        }
    }

    /// Takes the oldest item away; an empty list stays empty.
    pub fn pop(&mut self)
        ensures
            old(self)@.len() == 0 ==> final(self)@ == old(self)@,
            old(self)@.len() > 0 ==> final(self)@ == old(self)@.drop_first(),
    {
        let _ = self.take_front();
    }

    /// Takes the oldest item away and hands it out.
    pub fn take_front(&mut self) -> (head: Option<T>)
        ensures
            old(self)@.len() == 0 ==> head is None && final(self)@ == old(self)@,
            old(self)@.len() > 0 ==> head == Some(old(self)@[0]) && final(self)@ == old(self)@.drop_first(),
    {
        let head = self.items.pop_front();
        proof {
            if old(self)@.len() > 0 {
                assert(final(self).items@ =~= old(self)@.drop_first());
            }
        }
        head
    }

    /// How many items wait in the list.
    pub fn len(&self) -> (count: usize)
        ensures
            count == self@.len(),
    {
        self.items.len()
    }

    pub fn is_empty(&self) -> (empty: bool)
        ensures
            empty == (self@.len() == 0),
    {
        self.items.len() == 0
    }
}

} // verus!
