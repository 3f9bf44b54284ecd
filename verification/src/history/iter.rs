//! Cursors for walking the items of a [`History`] without changing it.
//!
//! Each cursor knows the items it has yet to return, and hands them out from either end: `next`
//! takes the first of them, `next_back` the last. A cursor never returns an item twice, and once
//! it has none left it returns `None` for good.
//!
//! [`History`]: crate::history::History
use std::collections::VecDeque;

use vstd::prelude::*;

verus! {

/// A cursor over a History's list of committed items.
///
/// Items are returned in order from least-recently committed to most-recently committed.
#[derive(Debug)]
pub struct CommittedIter<'a, T> {
    /// The committed list that is walked.
    items: &'a VecDeque<T>,
    /// The index of the item that `next` returns.
    front: usize,
    /// One more than the index of the item that `next_back` returns.
    back: usize,
}

impl<'a, T> View for CommittedIter<'a, T> {
    type V = Seq<T>;

    /// The items that are yet to be returned, in the order in which `next` returns them.
    closed spec fn view(&self) -> Seq<T> {
        self.items@.subrange(self.front as int, self.back as int)
    }
}

impl<'a, T> Clone for CommittedIter<'a, T> {
    /// Returns a cursor at the same place over the same list.
    fn clone(&self) -> (copy: Self)
        ensures
            copy@ == self@,
    {
        proof {
            use_type_invariant(self);
        }
        Self { items: self.items, front: self.front, back: self.back }
    }
}

impl<'a, T> CommittedIter<'a, T> {
    #[verifier::type_invariant]
    spec fn in_bounds(self) -> bool {
        self.front <= self.back <= self.items@.len()
    }

    /// Returns a cursor over all of `committed`, oldest item first.
    pub fn new(committed: &'a VecDeque<T>) -> (iter: Self)
        ensures
            iter@ == committed@,
    {
        let back: usize = committed.len();
        proof {
            assert(committed@.subrange(0, back as int) =~= committed@);
        }
        Self { items: committed, front: 0, back }
    }

    /// Returns the oldest item that is left, if there is one, and moves past it.
    pub fn next(&mut self) -> (item: Option<&'a T>)
        ensures
            old(self)@.len() == 0 ==> item is None && final(self)@ == old(self)@,
            old(self)@.len() > 0 ==> item == Some(&old(self)@.first())
                && final(self)@ == old(self)@.drop_first(),
    {
        proof {
            use_type_invariant(&*self);
        }
        if self.front < self.back {
            let items: &'a VecDeque<T> = self.items;
            let item: &'a T = &items[self.front];
            self.front = self.front + 1;
            proof {
                assert(final(self)@ =~= old(self)@.drop_first());
            }
            Some(item)
        } else {
            None
        }
    }

    /// Returns the newest item that is left, if there is one, and moves before it.
    pub fn next_back(&mut self) -> (item: Option<&'a T>)
        ensures
            old(self)@.len() == 0 ==> item is None && final(self)@ == old(self)@,
            old(self)@.len() > 0 ==> item == Some(&old(self)@.last())
                && final(self)@ == old(self)@.drop_last(),
    {
        proof {
            use_type_invariant(&*self);
        }
        if self.front < self.back {
            let items: &'a VecDeque<T> = self.items;
            self.back = self.back - 1;
            let item: &'a T = &items[self.back];
            proof {
                assert(final(self)@ =~= old(self)@.drop_last());
            }
            Some(item)
        } else {
            None
        }
    }

    /// Returns the number of items that are left.
    pub fn len(&self) -> (len: usize)
        ensures
            len == self@.len(),
    {
        proof {
            use_type_invariant(self);
        }
        self.back - self.front
    }

    /// Returns the bounds on the number of items that are left: both are that number.
    pub fn size_hint(&self) -> (hint: (usize, Option<usize>))
        ensures
            hint.0 == self@.len(),
            hint.1 == Some(hint.0),
    {
        let len: usize = self.len();
        (len, Some(len))
    }
}

/// A cursor over a History's list of undone items.
///
/// Items are returned in order from most-recently undone to least-recently undone.
#[derive(Debug)]
pub struct UndoneIter<'a, T> {
    /// The undone list that is walked, most recently undone item last.
    items: &'a Vec<T>,
    /// The index of the item that `next_back` returns.
    front: usize,
    /// One more than the index of the item that `next` returns.
    back: usize,
}

impl<'a, T> View for UndoneIter<'a, T> {
    type V = Seq<T>;

    /// The items that are yet to be returned, in the order in which `next` returns them.
    closed spec fn view(&self) -> Seq<T> {
        self.items@.subrange(self.front as int, self.back as int).reverse()
    }
}

impl<'a, T> Clone for UndoneIter<'a, T> {
    /// Returns a cursor at the same place over the same list.
    fn clone(&self) -> (copy: Self)
        ensures
            copy@ == self@,
    {
        proof {
            use_type_invariant(self);
        }
        Self { items: self.items, front: self.front, back: self.back }
    }
}

impl<'a, T> UndoneIter<'a, T> {
    #[verifier::type_invariant]
    spec fn in_bounds(self) -> bool {
        self.front <= self.back <= self.items@.len()
    }

    /// Returns a cursor over all of `undone`, whose last item is the most recently undone one and
    /// is returned first.
    pub fn new(undone: &'a Vec<T>) -> (iter: Self)
        ensures
            iter@ == undone@.reverse(),
    {
        let back: usize = undone.len();
        proof {
            assert(undone@.subrange(0, back as int) =~= undone@);
        }
        Self { items: undone, front: 0, back }
    }

    /// Returns the most recently undone item that is left, if there is one, and moves past it.
    pub fn next(&mut self) -> (item: Option<&'a T>)
        ensures
            old(self)@.len() == 0 ==> item is None && final(self)@ == old(self)@,
            old(self)@.len() > 0 ==> item == Some(&old(self)@.first())
                && final(self)@ == old(self)@.drop_first(),
    {
        proof {
            use_type_invariant(&*self);
        }
        if self.front < self.back {
            let items: &'a Vec<T> = self.items;
            self.back = self.back - 1;
            let item: &'a T = &items[self.back];
            proof {
                assert(final(self)@ =~= old(self)@.drop_first());
            }
            Some(item)
        } else {
            None
        }
    }

    /// Returns the least recently undone item that is left, if there is one, and moves before it.
    pub fn next_back(&mut self) -> (item: Option<&'a T>)
        ensures
            old(self)@.len() == 0 ==> item is None && final(self)@ == old(self)@,
            old(self)@.len() > 0 ==> item == Some(&old(self)@.last())
                && final(self)@ == old(self)@.drop_last(),
    {
        proof {
            use_type_invariant(&*self);
        }
        if self.front < self.back {
            let items: &'a Vec<T> = self.items;
            let item: &'a T = &items[self.front];
            self.front = self.front + 1;
            proof {
                assert(final(self)@ =~= old(self)@.drop_last());
            }
            Some(item)
        } else {
            None
        }
    }

    /// Returns the number of items that are left.
    pub fn len(&self) -> (len: usize)
        ensures
            len == self@.len(),
    {
        proof {
            use_type_invariant(self);
        }
        self.back - self.front
    }

    /// Returns the bounds on the number of items that are left: both are that number.
    pub fn size_hint(&self) -> (hint: (usize, Option<usize>))
        ensures
            hint.0 == self@.len(),
            hint.1 == Some(hint.0),
    {
        let len: usize = self.len();
        (len, Some(len))
    }
}

/// A cursor over all of History's items, both committed and undone.
///
/// Committed items are returned first, in order from least-recently committed to most-recently
/// committed. Then, undone items are returned, in order from most-recently undone to least-recently
/// undone.
#[derive(Debug)]
pub struct Iter<'a, T> {
    /// The committed items that are left.
    committed: CommittedIter<'a, T>,
    /// The undone items that are left.
    undone: UndoneIter<'a, T>,
}

impl<'a, T> View for Iter<'a, T> {
    type V = Seq<T>;

    /// The items that are yet to be returned, in the order in which `next` returns them.
    closed spec fn view(&self) -> Seq<T> {
        self.committed@ + self.undone@
    }
}

impl<'a, T> Clone for Iter<'a, T> {
    /// Returns a cursor at the same place over the same lists.
    fn clone(&self) -> (copy: Self)
        ensures
            copy@ == self@,
    {
        Self { committed: self.committed.clone(), undone: self.undone.clone() }
    }
}

impl<'a, T> Iter<'a, T> {
    /// Returns a cursor that returns what `committed_iter` has left, and then what `undone_iter`
    /// has left.
    pub fn new(committed_iter: CommittedIter<'a, T>, undone_iter: UndoneIter<'a, T>) -> (iter: Self)
        ensures
            iter@ == committed_iter@ + undone_iter@,
    {
        Self { committed: committed_iter, undone: undone_iter }
    }

    /// Returns the first item that is left, if there is one, and moves past it.
    pub fn next(&mut self) -> (item: Option<&'a T>)
        ensures
            old(self)@.len() == 0 ==> item is None && final(self)@ == old(self)@,
            old(self)@.len() > 0 ==> item == Some(&old(self)@.first())
                && final(self)@ == old(self)@.drop_first(),
    {
        match self.committed.next() {
            Some(item) => {
                proof {
                    assert(final(self)@ =~= old(self)@.drop_first());
                }
                Some(item)
            },
            None => {
                let item = self.undone.next();
                proof {
                    assert(old(self)@ =~= old(self).undone@);
                    assert(final(self)@ =~= final(self).undone@);
                }
                item
            },
        }
    }

    /// Returns the last item that is left, if there is one, and moves before it.
    pub fn next_back(&mut self) -> (item: Option<&'a T>)
        ensures
            old(self)@.len() == 0 ==> item is None && final(self)@ == old(self)@,
            old(self)@.len() > 0 ==> item == Some(&old(self)@.last())
                && final(self)@ == old(self)@.drop_last(),
    {
        match self.undone.next_back() {
            Some(item) => {
                proof {
                    assert(final(self)@ =~= old(self)@.drop_last());
                }
                Some(item)
            },
            None => {
                let item = self.committed.next_back();
                proof {
                    assert(old(self)@ =~= old(self).committed@);
                    assert(final(self)@ =~= final(self).committed@);
                }
                item
            },
        }
    }

    /// Returns the bounds on the number of items that are left: both are that number, as far as
    /// it can be counted. The lower bound stops at `usize::MAX`, and there is no upper bound
    /// beyond it.
    pub fn size_hint(&self) -> (hint: (usize, Option<usize>))
        ensures
            self@.len() <= usize::MAX ==> hint.0 == self@.len() && hint.1 == Some(hint.0),
            self@.len() > usize::MAX ==> hint.0 == usize::MAX && hint.1 is None,
    {
        let committed: usize = self.committed.len();
        let undone: usize = self.undone.len();
        if committed <= usize::MAX - undone {
            (committed + undone, Some(committed + undone))
        } else {
            (usize::MAX, None)
        }
    }
}

} // verus!
