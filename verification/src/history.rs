//! Types related to [`History`], a collection which represents the history of something.
use std::collections::VecDeque;

use vstd::multiset::Multiset;
use vstd::prelude::*;

use crate::error::Error;
use crate::history::iter::{CommittedIter, Iter, UndoneIter};

pub mod iter;

verus! {

/// The mathematical model of a [`History`]: its two lists and its limit.
#[verifier::ext_equal]
pub struct HistoryView<T> {
    /// All committed items, oldest first.
    pub committed: Seq<T>,
    /// All undone items, most recently undone last.
    pub undone: Seq<T>,
    /// The maximum number of committed items kept by a push, if any.
    pub limit: Option<usize>,
}

/// The newest items of `items` that a history with the given `limit` keeps when it pushes.
///
/// A push always keeps the item it pushes, so a limit of zero keeps one item, as a limit of one
/// does.
pub open spec fn newest_within<T>(items: Seq<T>, limit: Option<usize>) -> Seq<T> {
    match limit {
        None => items,
        Some(l) => {
            let room: int = if l == 0 { 1 } else { l as int };
            if items.len() <= room {
                items
            } else {
                items.subrange(items.len() - room, items.len() as int)
            }
        },
    }
}

impl<T> HistoryView<T> {
    /// The history that holds nothing and has no limit.
    pub open spec fn empty() -> Self {
        HistoryView { committed: Seq::empty(), undone: Seq::empty(), limit: None }
    }

    /// The history after `item` is pushed: the item is committed, the oldest committed items
    /// beyond the limit are gone, and so are all undone items.
    pub open spec fn push(self, item: T) -> Self {
        HistoryView {
            committed: newest_within(self.committed.push(item), self.limit),
            undone: Seq::empty(),
            limit: self.limit,
        }
    }

    /// The history after each item of `items` is pushed in turn, first item first.
    pub open spec fn push_all(self, items: Seq<T>) -> Self
        decreases items.len(),
    {
        if items.len() == 0 {
            self
        } else {
            self.push_all(items.drop_last()).push(items.last())
        }
    }

    /// Whether there is a committed item to undo.
    pub open spec fn can_undo(self) -> bool {
        self.committed.len() > 0
    }

    /// Whether there is an undone item to redo.
    pub open spec fn can_redo(self) -> bool {
        self.undone.len() > 0
    }

    /// The history after the newest committed item is moved to the end of the undone list.
    pub open spec fn undo(self) -> Self
        recommends
            self.can_undo(),
    {
        HistoryView {
            committed: self.committed.drop_last(),
            undone: self.undone.push(self.committed.last()),
            limit: self.limit,
        }
    }

    /// The history after the most recently undone item is moved to the end of the committed list.
    ///
    /// A redo restores an item that was committed before, so the limit removes nothing here.
    pub open spec fn redo(self) -> Self
        recommends
            self.can_redo(),
    {
        HistoryView {
            committed: self.committed.push(self.undone.last()),
            undone: self.undone.drop_last(),
            limit: self.limit,
        }
    }

    /// The history with `item` in the place of its newest committed item.
    pub open spec fn with_last_committed(self, item: T) -> Self
        recommends
            self.committed.len() > 0,
    {
        HistoryView {
            committed: self.committed.drop_last().push(item),
            undone: self.undone,
            limit: self.limit,
        }
    }

    /// The history with `item` in the place of its most recently undone item.
    pub open spec fn with_last_undone(self, item: T) -> Self
        recommends
            self.undone.len() > 0,
    {
        HistoryView {
            committed: self.committed,
            undone: self.undone.drop_last().push(item),
            limit: self.limit,
        }
    }

    /// The history after `items` are added as [`History::extend`] adds them: without a limit all
    /// of them are committed at once and the undone list is emptied; with a limit each is pushed
    /// in turn.
    pub open spec fn extend(self, items: Seq<T>) -> Self {
        match self.limit {
            None => HistoryView {
                committed: self.committed + items,
                undone: Seq::empty(),
                limit: None,
            },
            Some(_) => self.push_all(items),
        }
    }

    /// All items that the history holds in its two lists, each as often as it is held.
    pub open spec fn items(self) -> Multiset<T> {
        self.committed.to_multiset().add(self.undone.to_multiset())
    }

    /// The history with the same items and the given limit.
    pub open spec fn with_limit(self, limit: Option<usize>) -> Self {
        HistoryView { committed: self.committed, undone: self.undone, limit }
    }

    /// The history with no items in either list.
    pub open spec fn clear(self) -> Self {
        HistoryView { committed: Seq::empty(), undone: Seq::empty(), limit: self.limit }
    }

    /// The history with no undone items.
    pub open spec fn clear_undone(self) -> Self {
        HistoryView { committed: self.committed, undone: Seq::empty(), limit: self.limit }
    }
}

/// A collection which holds a set of items that represents the history of something, and acts as a
/// cursor into that set of items.
///
/// A `History` only keeps track of items. Pushing, undoing or redoing an item does nothing but
/// move it between the two lists.
pub struct History<T> {
    /// A list of all items that have been committed, in the order they were committed. The
    /// front-most item is the oldest committed item, and the back-most item is the newest committed
    /// item.
    committed: VecDeque<T>,
    /// A list of all items that were committed, but have subsequently been undone. Items at the end
    /// of the list are the most recently undone.
    undone: Vec<T>,
    /// The maximum length of this history. Any committed items past this limit will be
    /// automatically culled the next time an item is pushed. A push always keeps the item it
    /// pushes, so a limit of zero acts as a limit of one.
    limit: Option<usize>,
}

/// The newest item of a deque, to be changed in place, if the deque has any item.
///
/// This is `VecDeque::back_mut`: `None` for an empty deque, which stays as it is; else a reference
/// to the item at the back, whose final value takes that place in the deque while every other
/// item stays.
#[verifier::external_body]
fn back_mut<T>(deque: &mut VecDeque<T>) -> (back: Option<&mut T>)
    ensures
        old(deque)@.len() == 0 ==> back is None && final(deque)@ == old(deque)@,
        old(deque)@.len() > 0 ==> back is Some && *back->Some_0 == old(deque)@.last()
            && final(deque)@ == old(deque)@.drop_last().push(*final(back->Some_0)),
{
    deque.back_mut()
}

impl<T> View for History<T> {
    type V = HistoryView<T>;

    closed spec fn view(&self) -> HistoryView<T> {
        HistoryView { committed: self.committed@, undone: self.undone@, limit: self.limit }
    }
}

impl<T> Default for History<T> {
    /// Creates a new `History`, with no items and no limit.
    fn default() -> (history: Self)
        ensures
            history@ == HistoryView::<T>::empty(),
    {
        Self::new()
    }
}

impl<T> History<T> {
    /// Creates a new `History`, with no items and no limit.
    #[must_use]
    pub fn new() -> (history: Self)
        ensures
            history@ == HistoryView::<T>::empty(),
    {
        Self { committed: VecDeque::new(), undone: Vec::new(), limit: None }
    }

    /// Returns the maximum number of committed items that a push leaves, if there is one.
    pub fn get_limit(&self) -> (limit: Option<usize>)
        ensures
            limit == self@.limit,
    {
        self.limit
    }

    /// Sets the maximum number of committed items that a push leaves; `None` for no maximum.
    ///
    /// This removes nothing by itself: any committed items past the limit are culled the next
    /// time an item is pushed.
    pub fn set_limit(&mut self, limit: Option<usize>)
        ensures
            final(self)@ == old(self)@.with_limit(limit),
    {
        self.limit = limit;
    }

    /// Clears the history of all items.
    pub fn clear(&mut self)
        ensures
            final(self)@ == old(self)@.clear(),
    {
        self.committed.clear();
        self.undone.clear();
    }

    /// Clears the history of all undone items. This prevents [`History::redo()`] from re-applying
    /// any such items.
    pub fn clear_undone(&mut self)
        ensures
            final(self)@ == old(self)@.clear_undone(),
    {
        self.undone.clear();
    }

    /// Pushes an item to the history. This also clears the undone list.
    ///
    /// If a history limit is set, any items past the limit will be removed, plus one more to make
    /// space for the item being pushed.
    pub fn push(&mut self, item: T)
        ensures
            final(self)@ == old(self)@.push(item),
            final(self)@.undone.len() == 0,
            final(self)@.committed.len() > 0,
            final(self)@.committed.last() == item,
            forall|limit: usize|
                old(self)@.limit == Some(limit) && limit > 0 ==> final(self)@.committed.len()
                    <= limit,
    {
        self.truncate_committed_to_limit_plus(1);
        self.committed.push_back(item);
        self.clear_undone();
        proof {
            assert(final(self)@.committed =~= newest_within(
                old(self)@.committed.push(item),
                old(self).limit,
            ));
        }
    }

    /// Adds every item of `items` to the history, first item first.
    ///
    /// Without a limit the items are committed at once and the undone list is cleared, even if
    /// there are no items. With a limit each item is pushed in turn, so that there are never more
    /// committed items than a push leaves; without items nothing changes then.
    pub fn extend(&mut self, items: Vec<T>)
        ensures
            final(self)@ == old(self)@.extend(items@),
    {
        match self.limit {
            None => {
                for item in cursor: items
                    invariant
                        cursor.seq() == items@,
                        self.limit == old(self).limit,
                        self.undone == old(self).undone,
                        self.committed@ == old(self)@.committed + items@.take(cursor.index()),
                {
                    self.committed.push_back(item);
                    proof {
                        assert(items@.take(cursor.index() + 1) =~= items@.take(cursor.index()).push(
                            item,
                        ));
                    }
                }
                self.clear_undone();
                proof {
                    assert(items@.take(items@.len() as int) =~= items@);
                }
            },
            Some(_limit) => {
                for item in cursor: items
                    invariant
                        cursor.seq() == items@,
                        self@ == old(self)@.push_all(items@.take(cursor.index())),
                {
                    proof {
                        let pushed = items@.take(cursor.index() + 1);
                        assert(pushed.drop_last() =~= items@.take(cursor.index()));
                        assert(pushed.last() == item);
                    }
                    self.push(item);
                }
                proof {
                    assert(items@.take(items@.len() as int) =~= items@);
                }
            },
        }
    }

    /// Creates a new `History` without a limit, whose committed items are `items`, first item
    /// oldest.
    pub fn from_iter(items: Vec<T>) -> (history: Self)
        ensures
            history@ == (HistoryView { committed: items@, undone: Seq::empty(), limit: None }),
    {
        let mut history = Self::new();
        history.extend(items);
        proof {
            assert(Seq::<T>::empty() + items@ =~= items@);
        }
        history
    }

    /// Marks the last undone item as "committed", and returns a mutable reference to it.
    ///
    /// The limit removes nothing here: a redo only restores what an undo has moved away.
    ///
    /// # Errors
    /// * [`Error::NoApplicableHistory`] - If there is no history available to redo. This usually
    ///   occurs if there haven't been any calls to [`Self::undo()`] since the last time an item was
    ///   pushed.
    pub fn redo(&mut self) -> (result: Result<&mut T, Error>)
        ensures
            !old(self)@.can_redo() ==> result == Err::<&mut T, Error>(Error::NoApplicableHistory)
                && final(self)@ == old(self)@,
            old(self)@.can_redo() ==> result is Ok
                && *result->Ok_0 == old(self)@.undone.last()
                && final(self)@ == old(self)@.redo().with_last_committed(*final(result->Ok_0)),
    {
        // Attempt to pop an item off the end of the undone list. If we fail, then we have no undone
        // items, and thus cannot perform the redo operation - in which case, we should return an
        // error.
        let Some(last_undone_item) = self.undone.pop() else {
            return Err(Error::NoApplicableHistory);
        };

        // And add that item to the end of the committed list.
        self.committed.push_back(last_undone_item);

        // Finally, return a mutable reference to the item we just moved between lists.
        match back_mut(&mut self.committed) {
            Some(item_ref) => Ok(item_ref),
            None => Err(Error::NoApplicableHistory),
        }
    }

    /// Marks the last committed item as "undone", and returns a mutable reference to it.
    ///
    /// # Errors
    /// * [`Error::NoApplicableHistory`] - If there is no history available to undo.
    pub fn undo(&mut self) -> (result: Result<&mut T, Error>)
        ensures
            !old(self)@.can_undo() ==> result == Err::<&mut T, Error>(Error::NoApplicableHistory)
                && final(self)@ == old(self)@,
            old(self)@.can_undo() ==> result is Ok
                && *result->Ok_0 == old(self)@.committed.last()
                && final(self)@ == old(self)@.undo().with_last_undone(*final(result->Ok_0)),
    {
        // Attempt to pop an item off the end of the history. If we fail, then we have no committed
        // items, and thus cannot perform the undo operation - in which case, we should return an
        // error.
        let Some(last_committed_item) = self.committed.pop_back() else {
            return Err(Error::NoApplicableHistory);
        };

        // And add that item to the end of the undone list.
        self.undone.push(last_committed_item);

        // Finally, return a mutable reference to the item we just moved between lists.
        let last: usize = self.undone.len() - 1;
        Ok(&mut self.undone[last])
    }

    /// Returns a cursor over all items: the committed ones from oldest to newest, then the undone
    /// ones from most recently undone to least recently undone.
    pub fn iter(&self) -> (iter: Iter<'_, T>)
        ensures
            iter@ == self@.committed + self@.undone.reverse(),
    {
        Iter::new(self.iter_committed(), self.iter_undone())
    }

    /// Returns a cursor over the committed items, from oldest to newest.
    pub fn iter_committed(&self) -> (iter: CommittedIter<'_, T>)
        ensures
            iter@ == self@.committed,
    {
        CommittedIter::new(&self.committed)
    }

    /// Returns a cursor over the undone items, from most recently undone to least recently
    /// undone.
    pub fn iter_undone(&self) -> (iter: UndoneIter<'_, T>)
        ensures
            iter@ == self@.undone.reverse(),
    {
        UndoneIter::new(&self.undone)
    }

    /// Truncates `self.committed` such that it only contains `self.limit` items.
    ///
    /// This also takes a parameter `plus`, which causes the truncation to act as if
    /// `self.committed` had `plus` more items. This is useful if you're about to push an item, as
    /// it ensures we'll never have more than `self.limit` items in `self.committed`. No more items
    /// are removed than there are.
    fn truncate_committed_to_limit_plus(&mut self, plus: usize)
        ensures
            final(self)@.undone == old(self)@.undone,
            final(self)@.limit == old(self)@.limit,
            final(self)@.committed == old(self)@.committed.subrange(
                Self::excess(old(self)@, plus),
                old(self)@.committed.len() as int,
            ),
    {
        if let Some(limit) = self.limit {
            let len: usize = self.committed.len();
            // Calculate how many items to remove, such that `plus` more items fit under the limit;
            // saturating at 0, and at the number of items there are.
            let count_to_remove: usize = if limit >= plus {
                let room: usize = limit - plus;
                if len > room { len - room } else { 0 }
            } else {
                len
            };
            let mut removed: usize = 0;
            while removed < count_to_remove
                invariant
                    removed <= count_to_remove <= len,
                    len == old(self)@.committed.len(),
                    self.undone == old(self).undone,
                    self.limit == old(self).limit,
                    self.committed@ == old(self)@.committed.subrange(removed as int, len as int),
                decreases count_to_remove - removed,
            {
                let _ = self.committed.pop_front();
                removed = removed + 1;
                proof {
                    assert(self.committed@ =~= old(self)@.committed.subrange(
                        removed as int,
                        len as int,
                    ));
                }
            }
        } else {
            proof {
                assert(self.committed@ =~= old(self)@.committed.subrange(
                    0,
                    old(self)@.committed.len() as int,
                ));
            }
        }
    }

    /// How many of the oldest committed items have to go before `plus` more items fit under the
    /// limit.
    spec fn excess(view: HistoryView<T>, plus: usize) -> int {
        match view.limit {
            None => 0,
            Some(limit) => {
                if limit >= plus {
                    if view.committed.len() > limit - plus {
                        view.committed.len() - (limit - plus)
                    } else {
                        0
                    }
                } else {
                    view.committed.len() as int
                }
            },
        }
    }
}

/// A push keeps the newest items that fit under the limit, whether or not the items before the
/// pushed one were cut down to the limit already.
pub proof fn lemma_newest_within_push<T>(items: Seq<T>, limit: Option<usize>, item: T)
    ensures
        newest_within(newest_within(items, limit).push(item), limit) == newest_within(
            items.push(item),
            limit,
        ),
{
    assert(newest_within(newest_within(items, limit).push(item), limit) =~= newest_within(
        items.push(item),
        limit,
    ));
}

/// Pushing one or more items in turn commits them after the items that were committed before,
/// keeps the newest of all these that fit under the limit, and leaves no undone item.
pub proof fn lemma_push_all<T>(history: HistoryView<T>, items: Seq<T>)
    requires
        items.len() > 0,
    ensures
        history.push_all(items) == (HistoryView {
            committed: newest_within(history.committed + items, history.limit),
            undone: Seq::empty(),
            limit: history.limit,
        }),
    decreases items.len(),
{
    let earlier = items.drop_last();
    assert((history.committed + earlier).push(items.last()) =~= history.committed + items);
    assert(history.push_all(items) == history.push_all(earlier).push(items.last()));
    if earlier.len() == 0 {
        assert(history.push_all(earlier) == history);
        assert(history.committed + earlier =~= history.committed);
    } else {
        lemma_push_all(history, earlier);
        lemma_newest_within_push(history.committed + earlier, history.limit, items.last());
    }
}

/// Pushing clears the undone list, whatever the history held before.
pub proof fn lemma_push_clears_undone<T>(history: HistoryView<T>, item: T)
    ensures
        history.push(item).undone.len() == 0,
        history.push(item).committed.len() > 0,
        history.push(item).committed.last() == item,
{
}

/// With a limit of `limit` items, which is not zero, pushing at least as many items as the limit
/// leaves exactly the `limit` most recently pushed items committed, in the order they were pushed
/// in, whatever was committed before.
///
/// A limit of zero is left out: a push keeps the item it pushes, so one item is committed then.
pub proof fn lemma_limit_enforced<T>(history: HistoryView<T>, limit: usize, items: Seq<T>)
    requires
        history.limit == Some(limit),
        limit > 0,
        items.len() >= limit,
    ensures
        history.push_all(items).committed.len() == limit,
        history.push_all(items).committed == items.subrange(
            items.len() - limit,
            items.len() as int,
        ),
{
    lemma_push_all(history, items);
    let all = history.committed + items;
    assert(newest_within(all, history.limit) =~= items.subrange(
        items.len() - limit,
        items.len() as int,
    ));
}

/// After a push onto a history with a limit that is not zero, no more items than the limit are
/// committed, however many were committed before.
pub proof fn lemma_push_within_limit<T>(history: HistoryView<T>, limit: usize, item: T)
    requires
        history.limit == Some(limit),
        limit > 0,
    ensures
        history.push(item).committed.len() <= limit,
{
}

/// An undo followed at once by a redo restores both lists to what they held before the undo:
/// the same items in the same order, with or without a limit.
pub proof fn lemma_undo_redo_round_trip<T>(history: HistoryView<T>)
    requires
        history.can_undo(),
    ensures
        history.undo().can_redo(),
        history.undo().redo() == history,
{
    assert(history.undo().redo() =~= history);
}

/// A redo followed at once by an undo restores both lists to what they held before the redo.
pub proof fn lemma_redo_undo_round_trip<T>(history: HistoryView<T>)
    requires
        history.can_redo(),
    ensures
        history.redo().can_undo(),
        history.redo().undo() == history,
{
    assert(history.redo().undo() =~= history);
}

/// An undo and a redo only move an item from one list to the other: the history holds the same
/// items afterwards, each as often as before.
pub proof fn lemma_moves_keep_items<T>(history: HistoryView<T>)
    ensures
        history.can_undo() ==> history.undo().items() == history.items(),
        history.can_redo() ==> history.redo().items() == history.items(),
{
    broadcast use vstd::seq_lib::to_multiset_build;

    if history.can_undo() {
        let moved = history.committed.last();
        assert(history.committed =~= history.committed.drop_last().push(moved));
        assert(history.undo().items() =~= history.items());
    }
    if history.can_redo() {
        let moved = history.undone.last();
        assert(history.undone =~= history.undone.drop_last().push(moved));
        assert(history.redo().items() =~= history.items());
    }
}

/// An item that is not changed through the reference that an undo or a redo returns leaves the
/// history as the move alone made it.
pub proof fn lemma_unchanged_item<T>(history: HistoryView<T>)
    ensures
        history.can_undo() ==> history.undo().with_last_undone(history.committed.last())
            == history.undo(),
        history.can_redo() ==> history.redo().with_last_committed(history.undone.last())
            == history.redo(),
{
    if history.can_undo() {
        assert(history.undo().with_last_undone(history.committed.last()) =~= history.undo());
    }
    if history.can_redo() {
        assert(history.redo().with_last_committed(history.undone.last()) =~= history.redo());
    }
}

} // verus!
