//! A collection of [`Operation`]s, used to group them together and treat them as one operation.
use bevy_ecs::system::Commands;
use vstd::prelude::*;

use crate::operation::{
    applied_in_order, apply_step, each_applied, handed_on, lemma_handed_on_next,
    lemma_handed_on_split, lemma_handed_on_three, undo_step, undone_in_order, Details, Operation,
};

verus! {

/// A collection of [`Operation`]s, used to group them together and treat them as one operation.
///
/// To group operations of several kinds, use `Box<dyn DynOperation>` as the operation type.
pub struct OperationGroup<O: Operation> {
    /// A descriptor for this set of Operations.
    details: Details,
    /// The set of operations that this [`OperationGroup`] groups together.
    op_list: Vec<O>,
}

impl<O: Operation> OperationGroup<O> {
    /// The operations of this group, in the order they were pushed in.
    pub closed spec fn operations(&self) -> Seq<O> {
        self.op_list@
    }

    /// The descriptor this group was made with.
    pub closed spec fn descriptor(&self) -> Details {
        self.details
    }

    /// Creates a new [`OperationGroup`], with no operations.
    #[must_use]
    pub fn new(details: Details) -> (group: Self)
        ensures
            group.operations() == Seq::<O>::empty(),
            group.descriptor() == details,
    {
        Self { details, op_list: vec![] }
    }

    /// Pushes an operation into this [`OperationGroup`]. Operations will be applied in the order
    /// they were pushed, and undone in reverse order.
    pub fn push(&mut self, operation: O)
        ensures
            final(self).operations() == old(self).operations().push(operation),
            final(self).descriptor() == old(self).descriptor(),
    {
        self.op_list.push(operation);
    }
}

impl<O: Operation> Operation for OperationGroup<O> {
    /// Applying the group applies every operation of the group, in the order they were pushed
    /// in.
    open spec fn apply_leaves<'w, 's>(
        &self,
        before: Commands<'w, 's>,
        after: Commands<'w, 's>,
    ) -> bool {
        applied_in_order(self.operations(), before, after)
    }

    /// Undoing the group undoes every operation of the group, in the reverse of the order they
    /// were pushed in.
    open spec fn undo_leaves<'w, 's>(
        &self,
        before: Commands<'w, 's>,
        after: Commands<'w, 's>,
    ) -> bool {
        undone_in_order(self.operations().reverse(), before, after)
    }

    /// Applying the group leaves a group with the same descriptor and the same operations in the
    /// same order, each as its own `apply` may have left it.
    open spec fn apply_turns_into(&self, after: &Self) -> bool {
        after.descriptor() == self.descriptor() && each_applied(
            self.operations(),
            after.operations(),
        )
    }

    /// The group gives the descriptor it was made with, and no other.
    open spec fn describes(&self, details: Details) -> bool {
        details == self.descriptor()
    }

    /// Returns the descriptor this group was made with.
    fn details(&self) -> (details: Details)
        ensures
            details == self.descriptor(),
    {
        self.details.clone()
    }

    /// Applies every operation of the group, in the order they were pushed in.
    ///
    /// The group holds as many operations afterwards as before, each as its own `apply` left it.
    fn apply(&mut self, commands: &mut Commands)
        ensures
            final(self).descriptor() == old(self).descriptor(),
            each_applied(old(self).operations(), final(self).operations()),
    {
        let count: usize = self.op_list.len();
        let mut index: usize = 0;
        while index < count
            invariant
                index <= count,
                count == old(self).op_list@.len(),
                self.op_list@.len() == count,
                self.details == old(self).details,
                forall|i: int| index <= i < count ==> self.op_list@[i] == old(self).op_list@[i],
                forall|i: int|
                    #![trigger self.op_list@[i]]
                    0 <= i < index ==> old(self).op_list@[i].apply_turns_into(&self.op_list@[i]),
                applied_in_order(old(self).op_list@.take(index as int), *old(commands), *commands),
            decreases count - index,
        {
            let ghost between = *commands;
            self.op_list[index].apply(commands);
            proof {
                let done = old(self).op_list@.take(index as int + 1);
                assert(done.drop_last() =~= old(self).op_list@.take(index as int));
                assert(done.last() == old(self).op_list@[index as int]);
                lemma_handed_on_next(done, apply_step(), *old(commands), between, *commands);
            }
            index = index + 1;
        }
        proof {
            assert(old(self).op_list@.take(count as int) =~= old(self).op_list@);
        }
    }

    /// Undoes every operation of the group, in the reverse of the order they were pushed in.
    fn undo(&self, commands: &mut Commands) {
        let count: usize = self.op_list.len();
        let mut left: usize = count;
        while left > 0
            invariant
                left <= count,
                count == self.op_list@.len(),
                undone_in_order(
                    self.op_list@.reverse().take(count - left),
                    *old(commands),
                    *commands,
                ),
            decreases left,
        {
            let ghost between = *commands;
            left = left - 1;
            self.op_list[left].undo(commands);
            proof {
                let done = self.op_list@.reverse().take(count - left);
                assert(done.drop_last() =~= self.op_list@.reverse().take(count - left - 1));
                assert(done.last() == self.op_list@[left as int]);
                lemma_handed_on_next(done, undo_step(), *old(commands), between, *commands);
            }
        }
        proof {
            assert(self.op_list@.reverse().take(count as int) =~= self.op_list@.reverse());
        }
    }
}

/// A group applies the operations that were pushed earlier before those that were pushed later,
/// and undoes those that were pushed later before those that were pushed earlier: wherever the
/// list of its operations is cut in two, applying the group is applying the earlier part and then
/// the later part, and undoing the group is undoing the later part and then the earlier part,
/// each part for itself in the group's order.
pub proof fn lemma_group_order<'w, 's, O: Operation>(
    group: OperationGroup<O>,
    earlier: Seq<O>,
    later: Seq<O>,
    before: Commands<'w, 's>,
    after: Commands<'w, 's>,
)
    requires
        group.operations() == earlier + later,
    ensures
        group.apply_leaves(before, after) <==> exists|between: Commands<'w, 's>|
            #[trigger] applied_in_order(earlier, before, between) && applied_in_order(
                later,
                between,
                after,
            ),
        group.undo_leaves(before, after) <==> exists|between: Commands<'w, 's>|
            #[trigger] undone_in_order(later.reverse(), before, between) && undone_in_order(
                earlier.reverse(),
                between,
                after,
            ),
{
    lemma_handed_on_split(earlier, later, apply_step(), before, after);
    if group.apply_leaves(before, after) {
        let between = choose|between: Commands<'w, 's>|
            #[trigger] handed_on(earlier, apply_step(), before, between) && handed_on(
                later,
                apply_step(),
                between,
                after,
            );
        assert(applied_in_order(earlier, before, between) && applied_in_order(
            later,
            between,
            after,
        ));
    }
    if exists|between: Commands<'w, 's>|
        #[trigger] applied_in_order(earlier, before, between) && applied_in_order(
            later,
            between,
            after,
        ) {
        let between = choose|between: Commands<'w, 's>|
            #[trigger] applied_in_order(earlier, before, between) && applied_in_order(
                later,
                between,
                after,
            );
        assert(handed_on(earlier, apply_step(), before, between));
    }
    assert((earlier + later).reverse() =~= later.reverse() + earlier.reverse());
    lemma_handed_on_split(later.reverse(), earlier.reverse(), undo_step(), before, after);
    if group.undo_leaves(before, after) {
        let between = choose|between: Commands<'w, 's>|
            #[trigger] handed_on(later.reverse(), undo_step(), before, between) && handed_on(
                earlier.reverse(),
                undo_step(),
                between,
                after,
            );
        assert(undone_in_order(later.reverse(), before, between) && undone_in_order(
            earlier.reverse(),
            between,
            after,
        ));
    }
    if exists|between: Commands<'w, 's>|
        #[trigger] undone_in_order(later.reverse(), before, between) && undone_in_order(
            earlier.reverse(),
            between,
            after,
        ) {
        let between = choose|between: Commands<'w, 's>|
            #[trigger] undone_in_order(later.reverse(), before, between) && undone_in_order(
                earlier.reverse(),
                between,
                after,
            );
        assert(handed_on(later.reverse(), undo_step(), before, between));
    }
}

/// A group applies its operations in the order they were pushed in, and undoes them in the
/// reverse of it: for a group of `first`, `second` and `third`, pushed in that order, applying
/// hands the sink to `first`, then to `second`, then to `third`, and undoing hands it to `third`,
/// then to `second`, then to `first`.
pub proof fn lemma_mirrored_order<'w, 's, O: Operation>(
    group: OperationGroup<O>,
    first: O,
    second: O,
    third: O,
    before: Commands<'w, 's>,
    after: Commands<'w, 's>,
)
    requires
        group.operations() == seq![first, second, third],
    ensures
        group.apply_leaves(before, after) <==> exists|one: Commands<'w, 's>, two: Commands<'w, 's>|
            #![trigger first.apply_leaves(before, one), second.apply_leaves(one, two)]
            first.apply_leaves(before, one) && second.apply_leaves(one, two) && third.apply_leaves(
                two,
                after,
            ),
        group.undo_leaves(before, after) <==> exists|one: Commands<'w, 's>, two: Commands<'w, 's>|
            #![trigger third.undo_leaves(before, one), second.undo_leaves(one, two)]
            third.undo_leaves(before, one) && second.undo_leaves(one, two) && first.undo_leaves(
                two,
                after,
            ),
{
    let apply = apply_step::<O>();
    lemma_handed_on_three(first, second, third, apply, before, after);
    if group.apply_leaves(before, after) {
        let (one, two) = choose|one: Commands<'w, 's>, two: Commands<'w, 's>|
            #![trigger apply(first, before, one), apply(second, one, two)]
            apply(first, before, one) && apply(second, one, two) && apply(third, two, after);
        assert(first.apply_leaves(before, one) && second.apply_leaves(one, two)
            && third.apply_leaves(two, after));
    }
    if exists|one: Commands<'w, 's>, two: Commands<'w, 's>|
        #![trigger first.apply_leaves(before, one), second.apply_leaves(one, two)]
        first.apply_leaves(before, one) && second.apply_leaves(one, two) && third.apply_leaves(
            two,
            after,
        ) {
        let (one, two) = choose|one: Commands<'w, 's>, two: Commands<'w, 's>|
            #![trigger first.apply_leaves(before, one), second.apply_leaves(one, two)]
            first.apply_leaves(before, one) && second.apply_leaves(one, two)
                && third.apply_leaves(two, after);
        assert(apply(first, before, one) && apply(second, one, two) && apply(third, two, after));
    }
    let undo = undo_step::<O>();
    assert(seq![first, second, third].reverse() =~= seq![third, second, first]);
    lemma_handed_on_three(third, second, first, undo, before, after);
    if group.undo_leaves(before, after) {
        let (one, two) = choose|one: Commands<'w, 's>, two: Commands<'w, 's>|
            #![trigger undo(third, before, one), undo(second, one, two)]
            undo(third, before, one) && undo(second, one, two) && undo(first, two, after);
        assert(third.undo_leaves(before, one) && second.undo_leaves(one, two)
            && first.undo_leaves(two, after));
    }
    if exists|one: Commands<'w, 's>, two: Commands<'w, 's>|
        #![trigger third.undo_leaves(before, one), second.undo_leaves(one, two)]
        third.undo_leaves(before, one) && second.undo_leaves(one, two) && first.undo_leaves(
            two,
            after,
        ) {
        let (one, two) = choose|one: Commands<'w, 's>, two: Commands<'w, 's>|
            #![trigger third.undo_leaves(before, one), second.undo_leaves(one, two)]
            third.undo_leaves(before, one) && second.undo_leaves(one, two)
                && first.undo_leaves(two, after);
        assert(undo(third, before, one) && undo(second, one, two) && undo(first, two, after));
    }
}

} // verus!
