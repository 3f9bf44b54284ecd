//! A high-level interface for implementing undo/redo functionality.
use std::collections::VecDeque;

use bevy_ecs::system::Commands;
use vstd::prelude::*;

use crate::{
    error::Error,
    history::{History, HistoryView},
    operation::{applied_in_order, apply_step, each_applied, lemma_handed_on_next, Operation},
};

verus! {

/// The mathematical model of an [`UndoRedo`]: its queue and its history.
#[verifier::ext_equal]
pub struct UndoRedoView<O> {
    /// The operations that wait to be applied, the one that was pushed first at the front.
    pub queued: Seq<O>,
    /// The operations that are applied, and those of them that have been undone since.
    pub history: HistoryView<O>,
}

impl<O> UndoRedoView<O> {
    /// The state in which nothing is queued, applied or undone, and nothing limits the history.
    pub open spec fn empty() -> Self {
        UndoRedoView { queued: Seq::empty(), history: HistoryView::empty() }
    }
}

/// A high-level interface for implementing undo/redo functionality.
///
/// # Operation States
/// Operations are given one of three states:
///
/// * **Queued** - The operation has been pushed to the `UndoRedo`, and is ready to be applied to
///   the world.
/// * **Applied** - The operation's effects have been applied to the world, or will be applied the
///   next time [`Commands`] are applied. You can undo these operations.
/// * **Undone** - The operation's effects have been reversed, or will be the next time
///   [`Commands`] are applied. They can be redone, but all undone operations are lost the next
///   time an operation is marked as **Applied**.
///
/// An operation is held by exactly one of the three lists at any time. An `UndoRedo` starts
/// without a limit on its history and applies without one, so that no applied operation is
/// dropped to make room for another. To hold operations of several kinds at once, use
/// `Box<dyn DynOperation>` as the operation type.
pub struct UndoRedo<O: Operation> {
    /// The collection which manages the list of applied and undone operations, and acts as a
    /// pointer into that set of items.
    history: History<O>,
    /// A list of operations that have been pushed to this [`UndoRedo`], but have not been applied
    /// to the World.
    queued_operations: VecDeque<O>,
}

impl<O: Operation> View for UndoRedo<O> {
    type V = UndoRedoView<O>;

    closed spec fn view(&self) -> UndoRedoView<O> {
        UndoRedoView { queued: self.queued_operations@, history: self.history@ }
    }
}

impl<O: Operation> Default for UndoRedo<O> {
    /// Creates an `UndoRedo` with no operations in it, and no limit on its history.
    fn default() -> (undoredo: Self)
        ensures
            undoredo@ == UndoRedoView::<O>::empty(),
    {
        Self { history: History::new(), queued_operations: VecDeque::new() }
    }
}

impl<O: Operation> UndoRedo<O> {
    /// Returns the history of applied and undone operations, to be read.
    pub fn history(&self) -> (history: &History<O>)
        ensures
            history@ == self@.history,
    {
        &self.history
    }

    /// Clears all stored operations, including those that are still queued.
    pub fn clear(&mut self)
        ensures
            final(self)@.queued == Seq::<O>::empty(),
            final(self)@.history == old(self)@.history.clear(),
    {
        self.history.clear();
        self.queued_operations.clear();
    }

    /// Clears the list of queued operations.
    pub fn clear_queue(&mut self)
        ensures
            final(self)@.queued == Seq::<O>::empty(),
            final(self)@.history == old(self)@.history,
    {
        self.queued_operations.clear();
    }

    /// Pushes an operation into the list of queued operations. Queued operations are those that are
    /// ready to be applied later.
    ///
    /// After pushing one or more operations, call [`Self::apply_queue()`] to apply the operation(s)
    /// to the World.
    ///
    /// # See Also
    /// * [`Self::push_and_apply()`] - Pushes an operation, skipping the queue such that it will be
    ///   applied ASAP.
    pub fn push_to_queue(&mut self, operation: O)
        ensures
            final(self)@.queued == old(self)@.queued.push(operation),
            final(self)@.history == old(self)@.history,
    {
        self.queued_operations.push_back(operation);
    }

    /// Queues up the commands needed to apply all queued operations, and moves those queued
    /// operations to the list of applied operations.
    ///
    /// The operations are applied in the order they were queued in, each one once, and they
    /// follow the operations that were applied before in that order, each as its `apply` left it.
    /// Additionally, any operations which have been undone, but not subsequently redone, will be
    /// lost when calling this.
    ///
    /// # Errors
    /// * [`Error::NoQueuedOperations`] - There are no queued operations available to apply.
    pub fn apply_queue(&mut self, commands: &mut Commands) -> (result: Result<(), Error>)
        ensures
            old(self)@.queued.len() == 0 ==> result == Err::<(), Error>(Error::NoQueuedOperations)
                && final(self)@ == old(self)@ && *final(commands) == *old(commands),
            old(self)@.queued.len() > 0 ==> result is Ok
                && applied_in_order(old(self)@.queued, *old(commands), *final(commands))
                && final(self)@.queued == Seq::<O>::empty()
                && final(self)@.history.undone == Seq::<O>::empty()
                && final(self)@.history.limit is None
                && final(self)@.history.committed.len()
                    == old(self)@.history.committed.len() + old(self)@.queued.len()
                && final(self)@.history.committed.take(old(self)@.history.committed.len() as int)
                    == old(self)@.history.committed
                && each_applied(
                    old(self)@.queued,
                    final(self)@.history.committed.skip(old(self)@.history.committed.len() as int),
                ),
    {
        // If there are no queued operations available, we have no work to do. Let the caller know.
        if self.queued_operations.len() == 0 {
            return Err(Error::NoQueuedOperations);
        }
        // An `UndoRedo` keeps every operation it has applied: its history has no limit.
        self.history.set_limit(None);
        let ghost mut applied: Seq<O> = Seq::empty();
        let count: usize = self.queued_operations.len();
        let mut done: usize = 0;
        while done < count
            invariant
                done <= count,
                count == old(self)@.queued.len(),
                self.queued_operations@ == old(self)@.queued.skip(done as int),
                self.history@.limit is None,
                done == 0 ==> self.history@.undone == old(self)@.history.undone,
                done > 0 ==> self.history@.undone == Seq::<O>::empty(),
                self.history@.committed == old(self)@.history.committed + applied,
                each_applied(old(self)@.queued.take(done as int), applied),
                applied_in_order(old(self)@.queued.take(done as int), *old(commands), *commands),
            decreases count - done,
        {
            let ghost between = *commands;
            let Some(mut operation) = self.queued_operations.pop_front() else {
                return Err(Error::NoQueuedOperations);
            };
            operation.apply(commands);
            self.history.push(operation);
            proof {
                let next = old(self)@.queued.take(done as int + 1);
                assert(next.drop_last() =~= old(self)@.queued.take(done as int));
                assert(next.last() == old(self)@.queued[done as int]);
                lemma_handed_on_next(next, apply_step(), *old(commands), between, *commands);
                assert(self.history@.committed =~= old(self)@.history.committed + applied.push(
                    operation,
                ));
                applied = applied.push(operation);
                assert(self.queued_operations@ =~= old(self)@.queued.skip(done as int + 1));
            }
            done = done + 1;
        }
        proof {
            let kept = old(self)@.history.committed;
            assert(old(self)@.queued.take(count as int) =~= old(self)@.queued);
            assert(self.queued_operations@ =~= Seq::<O>::empty());
            assert((kept + applied).take(kept.len() as int) =~= kept);
            assert((kept + applied).skip(kept.len() as int) =~= applied);
        }
        Ok(())
    }

    /// Queues up the commands needed to apply `operation`, then pushes `operation` to the list of
    /// applied operations, as its `apply` left it.
    ///
    /// The list of queued operations is untouched when calling this. However, undone operations
    /// which have not been subsequently redone *will* be lost, as with [`Self::apply_queue()`].
    ///
    /// # Errors
    /// None as of yet.
    ///
    /// # See Also
    /// * [`Self::push_to_queue()`] - Pushes items to a queue, to be applied later all at once.
    pub fn push_and_apply(&mut self, operation: O, commands: &mut Commands) -> (result: Result<
        (),
        Error,
    >)
        ensures
            result is Ok,
            operation.apply_leaves(*old(commands), *final(commands)),
            final(self)@.queued == old(self)@.queued,
            final(self)@.history.undone == Seq::<O>::empty(),
            final(self)@.history.limit is None,
            final(self)@.history.committed.len() == old(self)@.history.committed.len() + 1,
            final(self)@.history.committed.drop_last() == old(self)@.history.committed,
            operation.apply_turns_into(&final(self)@.history.committed.last()),
    {
        // An `UndoRedo` keeps every operation it has applied: its history has no limit.
        self.history.set_limit(None);
        let mut operation = operation;
        operation.apply(commands);
        self.history.push(operation);
        proof {
            assert(self.history@.committed.drop_last() =~= old(self)@.history.committed);
        }
        Ok(())
    }

    /// Applies the last undone operation, if any, and marks it as applied, as its `apply` left
    /// it.
    ///
    /// # Errors
    /// * [`Error::NoApplicableHistory`] - No operations have been undone since the last time (if any)
    ///   queued operations were applied.
    pub fn redo(&mut self, commands: &mut Commands) -> (result: Result<(), Error>)
        ensures
            !old(self)@.history.can_redo() ==> result == Err::<(), Error>(
                Error::NoApplicableHistory,
            ) && final(self)@ == old(self)@ && *final(commands) == *old(commands),
            old(self)@.history.can_redo() ==> result is Ok
                && old(self)@.history.undone.last().apply_leaves(*old(commands), *final(commands))
                && final(self)@.queued == old(self)@.queued
                && final(self)@.history.limit == old(self)@.history.limit
                && final(self)@.history.undone == old(self)@.history.undone.drop_last()
                && final(self)@.history.committed.len() == old(self)@.history.committed.len() + 1
                && final(self)@.history.committed.drop_last() == old(self)@.history.committed
                && old(self)@.history.undone.last().apply_turns_into(
                    &final(self)@.history.committed.last(),
                ),
    {
        let item = match self.history.redo() {
            Ok(item) => item,
            Err(error) => {
                return Err(error);
            },
        };

        // Submit all the commands needed to apply...
        item.apply(commands);

        proof {
            assert(self.history@.committed.drop_last() =~= old(self)@.history.committed);
        }
        Ok(())
    }

    /// Undoes the last applied operation, if any, and marks it as undone.
    ///
    /// # Errors
    /// * [`Error::NoApplicableHistory`] - There are no operations available to undo.
    pub fn undo(&mut self, commands: &mut Commands) -> (result: Result<(), Error>)
        ensures
            !old(self)@.history.can_undo() ==> result == Err::<(), Error>(
                Error::NoApplicableHistory,
            ) && final(self)@ == old(self)@ && *final(commands) == *old(commands),
            old(self)@.history.can_undo() ==> result is Ok
                && old(self)@.history.committed.last().undo_leaves(
                    *old(commands),
                    *final(commands),
                )
                && final(self)@.queued == old(self)@.queued
                && final(self)@.history == old(self)@.history.undo(),
    {
        let item = match self.history.undo() {
            Ok(item) => item,
            Err(error) => {
                return Err(error);
            },
        };

        // Submit all the commands needed to undo...
        item.undo(commands);

        proof {
            crate::history::lemma_unchanged_item(old(self)@.history);
        }
        Ok(())
    }
}

} // verus!
