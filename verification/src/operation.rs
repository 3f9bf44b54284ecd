//! Types and traits for implementing and handling [`Operation`]s.
use bevy_ecs::system::Commands;
use vstd::prelude::*;

verus! {

/// Bevy's `Commands` (`bevy_ecs::system::Commands`): the command sink, which operations write
/// their effects into.
///
/// Nothing is claimed of what such a value holds: it is only handed on to the operations, and
/// compared with itself to say that a call has left it alone.
#[verifier::external_type_specification]
#[verifier::external_body]
pub struct ExCommands<'w, 's>(Commands<'w, 's>);

/// An action or sequence of commands which can later be undone.
///
/// This can be thought of as an "undoable `Command`". An operation never changes the world
/// itself: it only queues commands, which the world applies later.
///
/// An operation may say what it does to the command sink, by [`Operation::apply_leaves`] and
/// [`Operation::undo_leaves`], what applying it makes of the operation itself, by
/// [`Operation::apply_turns_into`], and which details it gives, by [`Operation::describes`]. One
/// that does not say so promises nothing. The history types state by these which operations they
/// hold, and in which order they have applied and undone them.
pub trait Operation: Send + Sync + 'static {
    /// Whether [`Operation::apply`] may turn the sink `before` into the sink `after`.
    open spec fn apply_leaves<'w, 's>(
        &self,
        before: Commands<'w, 's>,
        after: Commands<'w, 's>,
    ) -> bool {
        true
    }

    /// Whether [`Operation::undo`] may turn the sink `before` into the sink `after`.
    open spec fn undo_leaves<'w, 's>(
        &self,
        before: Commands<'w, 's>,
        after: Commands<'w, 's>,
    ) -> bool {
        true
    }

    /// Whether [`Operation::apply`] may turn this operation into the operation `after`: what it
    /// keeps of itself, and what it records to undo itself by.
    open spec fn apply_turns_into(&self, after: &Self) -> bool {
        true
    }

    /// Whether [`Operation::details`] may return `details` for this operation.
    open spec fn describes(&self, details: Details) -> bool {
        true
    }

    /// Returns a list of details related to this operation.
    fn details(&self) -> (details: Details)
        ensures
            self.describes(details),
    ;

    /// Queues up the commands needed to apply this operation to the World.
    ///
    /// Operations get a mutable reference to themselves. This allows Operations to store some data
    /// (such as an `Entity`) which can later be used for undoing the operation.
    fn apply(&mut self, commands: &mut Commands)
        ensures
            old(self).apply_leaves(*old(commands), *final(commands)),
            old(self).apply_turns_into(final(self)),
    ;

    /// Queues up the commands needed to undo this operation.
    fn undo(&self, commands: &mut Commands)
        ensures
            self.undo_leaves(*old(commands), *final(commands)),
    ;
}

impl<T: Operation + ?Sized> Operation for Box<T> {
    /// What the boxed operation's `apply` may do.
    open spec fn apply_leaves<'w, 's>(
        &self,
        before: Commands<'w, 's>,
        after: Commands<'w, 's>,
    ) -> bool {
        (**self).apply_leaves(before, after)
    }

    /// What the boxed operation's `undo` may do.
    open spec fn undo_leaves<'w, 's>(
        &self,
        before: Commands<'w, 's>,
        after: Commands<'w, 's>,
    ) -> bool {
        (**self).undo_leaves(before, after)
    }

    /// What the boxed operation's `apply` may turn it into.
    open spec fn apply_turns_into(&self, after: &Self) -> bool {
        (**self).apply_turns_into(&**after)
    }

    /// The details that the boxed operation may give.
    open spec fn describes(&self, details: Details) -> bool {
        (**self).describes(details)
    }

    /// Returns the details of the boxed operation.
    fn details(&self) -> (details: Details)
        ensures
            (**self).describes(details),
    {
        (**self).details()
    }

    /// Applies the boxed operation.
    fn apply(&mut self, commands: &mut Commands) {
        (**self).apply(commands);
    }

    /// Undoes the boxed operation.
    fn undo(&self, commands: &mut Commands) {
        (**self).undo(commands);
    }
}

/// An operation of any kind: what is left of an [`Operation`] when its type is not known.
///
/// Every operation is one, and a `Box<dyn DynOperation>` is an [`Operation`] again, so that one
/// history can hold operations of many kinds. Of what `apply` makes of such an operation itself,
/// nothing is known.
pub trait DynOperation: Send + Sync + 'static {
    /// Whether [`DynOperation::dyn_apply`] may turn the sink `before` into the sink `after`.
    spec fn dyn_apply_leaves<'w, 's>(
        &self,
        before: Commands<'w, 's>,
        after: Commands<'w, 's>,
    ) -> bool;

    /// Whether [`DynOperation::dyn_undo`] may turn the sink `before` into the sink `after`.
    spec fn dyn_undo_leaves<'w, 's>(
        &self,
        before: Commands<'w, 's>,
        after: Commands<'w, 's>,
    ) -> bool;

    /// Whether [`DynOperation::dyn_details`] may return `details` for this operation.
    spec fn dyn_describes(&self, details: Details) -> bool;

    /// Returns a list of details related to this operation.
    fn dyn_details(&self) -> (details: Details)
        ensures
            self.dyn_describes(details),
    ;

    /// Queues up the commands needed to apply this operation to the World.
    fn dyn_apply(&mut self, commands: &mut Commands)
        ensures
            old(self).dyn_apply_leaves(*old(commands), *final(commands)),
    ;

    /// Queues up the commands needed to undo this operation.
    fn dyn_undo(&self, commands: &mut Commands)
        ensures
            self.dyn_undo_leaves(*old(commands), *final(commands)),
    ;
}

impl<O: Operation> DynOperation for O {
    /// What the operation's `apply` may do.
    open spec fn dyn_apply_leaves<'w, 's>(
        &self,
        before: Commands<'w, 's>,
        after: Commands<'w, 's>,
    ) -> bool {
        self.apply_leaves(before, after)
    }

    /// What the operation's `undo` may do.
    open spec fn dyn_undo_leaves<'w, 's>(
        &self,
        before: Commands<'w, 's>,
        after: Commands<'w, 's>,
    ) -> bool {
        self.undo_leaves(before, after)
    }

    /// The details that the operation may give.
    open spec fn dyn_describes(&self, details: Details) -> bool {
        self.describes(details)
    }

    /// Returns the details of the operation.
    fn dyn_details(&self) -> (details: Details) {
        self.details()
    }

    /// Applies the operation.
    fn dyn_apply(&mut self, commands: &mut Commands)
        ensures
            old(self).apply_turns_into(final(self)),
    {
        self.apply(commands);
    }

    /// Undoes the operation.
    fn dyn_undo(&self, commands: &mut Commands) {
        self.undo(commands);
    }
}

impl Operation for Box<dyn DynOperation> {
    /// What the boxed operation's `apply` may do.
    open spec fn apply_leaves<'w, 's>(
        &self,
        before: Commands<'w, 's>,
        after: Commands<'w, 's>,
    ) -> bool {
        (**self).dyn_apply_leaves(before, after)
    }

    /// What the boxed operation's `undo` may do.
    open spec fn undo_leaves<'w, 's>(
        &self,
        before: Commands<'w, 's>,
        after: Commands<'w, 's>,
    ) -> bool {
        (**self).dyn_undo_leaves(before, after)
    }

    /// The details that the boxed operation may give.
    open spec fn describes(&self, details: Details) -> bool {
        (**self).dyn_describes(details)
    }

    /// Returns the details of the boxed operation.
    fn details(&self) -> (details: Details) {
        (**self).dyn_details()
    }

    /// Applies the boxed operation.
    fn apply(&mut self, commands: &mut Commands) {
        (**self).dyn_apply(commands);
    }

    /// Undoes the boxed operation.
    fn undo(&self, commands: &mut Commands) {
        (**self).dyn_undo(commands);
    }
}

/// Whether the operations `after` are the operations `before`, in the same order, each as its
/// `apply` may have left it.
pub open spec fn each_applied<O: Operation>(before: Seq<O>, after: Seq<O>) -> bool {
    before.len() == after.len() && forall|i: int|
        #![trigger before[i]]
        #![trigger after[i]]
        0 <= i < before.len() ==> before[i].apply_turns_into(&after[i])
}

/// Whether handing the sink to each of `operations` in turn, the first one first, may turn the
/// sink `before` into the sink `after`, where `step` says what an operation may make of the sink
/// that it is handed: each operation is handed the sink as the one before it left it.
pub open spec fn handed_on<'w, 's, O>(
    operations: Seq<O>,
    step: spec_fn(O, Commands<'w, 's>, Commands<'w, 's>) -> bool,
    before: Commands<'w, 's>,
    after: Commands<'w, 's>,
) -> bool
    decreases operations.len(),
{
    if operations.len() == 0 {
        after == before
    } else {
        exists|between: Commands<'w, 's>|
            handed_on(operations.drop_last(), step, before, between) && #[trigger] step(
                operations.last(),
                between,
                after,
            )
    }
}

/// What applying one operation may make of the sink that it is handed.
pub open spec fn apply_step<'w, 's, O: Operation>() -> spec_fn(
    O,
    Commands<'w, 's>,
    Commands<'w, 's>,
) -> bool {
    |operation: O, from: Commands<'w, 's>, to: Commands<'w, 's>| operation.apply_leaves(from, to)
}

/// What undoing one operation may make of the sink that it is handed.
pub open spec fn undo_step<'w, 's, O: Operation>() -> spec_fn(
    O,
    Commands<'w, 's>,
    Commands<'w, 's>,
) -> bool {
    |operation: O, from: Commands<'w, 's>, to: Commands<'w, 's>| operation.undo_leaves(from, to)
}

/// Whether applying each of `operations` in turn, the first one first, may turn the sink `before`
/// into the sink `after`: each operation is handed the sink as the one before it left it.
pub open spec fn applied_in_order<'w, 's, O: Operation>(
    operations: Seq<O>,
    before: Commands<'w, 's>,
    after: Commands<'w, 's>,
) -> bool {
    handed_on(operations, apply_step(), before, after)
}

/// Whether undoing each of `operations` in turn, the first one first, may turn the sink `before`
/// into the sink `after`: each operation is handed the sink as the one before it left it.
pub open spec fn undone_in_order<'w, 's, O: Operation>(
    operations: Seq<O>,
    before: Commands<'w, 's>,
    after: Commands<'w, 's>,
) -> bool {
    handed_on(operations, undo_step(), before, after)
}

/// Handing the sink through a list of operations and then to one more operation is handing it
/// through the list with that operation at its end.
pub proof fn lemma_handed_on_next<'w, 's, O>(
    operations: Seq<O>,
    step: spec_fn(O, Commands<'w, 's>, Commands<'w, 's>) -> bool,
    before: Commands<'w, 's>,
    between: Commands<'w, 's>,
    after: Commands<'w, 's>,
)
    requires
        operations.len() > 0,
        handed_on(operations.drop_last(), step, before, between),
        step(operations.last(), between, after),
    ensures
        handed_on(operations, step, before, after),
{
}

/// Handing the sink through three operations is handing it to the first, then to the second,
/// then to the third.
pub proof fn lemma_handed_on_three<'w, 's, O>(
    first: O,
    second: O,
    third: O,
    step: spec_fn(O, Commands<'w, 's>, Commands<'w, 's>) -> bool,
    before: Commands<'w, 's>,
    after: Commands<'w, 's>,
)
    ensures
        handed_on(seq![first, second, third], step, before, after) <==> exists|
            one: Commands<'w, 's>,
            two: Commands<'w, 's>,
        |
            #![trigger step(first, before, one), step(second, one, two)]
            step(first, before, one) && step(second, one, two) && step(third, two, after),
{
    let all = seq![first, second, third];
    let pair = all.drop_last();
    let single = pair.drop_last();
    assert(all.last() == third && pair.last() == second && single.last() == first);
    assert(single.drop_last().len() == 0);
    if handed_on(all, step, before, after) {
        let two = choose|two: Commands<'w, 's>|
            handed_on(pair, step, before, two) && #[trigger] step(third, two, after);
        let one = choose|one: Commands<'w, 's>|
            handed_on(single, step, before, one) && #[trigger] step(second, one, two);
        let zero = choose|zero: Commands<'w, 's>|
            handed_on(single.drop_last(), step, before, zero) && #[trigger] step(first, zero, one);
        assert(zero == before);
        assert(step(first, before, one) && step(second, one, two) && step(third, two, after));
    }
    if exists|one: Commands<'w, 's>, two: Commands<'w, 's>|
        #![trigger step(first, before, one), step(second, one, two)]
        step(first, before, one) && step(second, one, two) && step(third, two, after) {
        let (one, two) = choose|one: Commands<'w, 's>, two: Commands<'w, 's>|
            #![trigger step(first, before, one), step(second, one, two)]
            step(first, before, one) && step(second, one, two) && step(third, two, after);
        assert(handed_on(single.drop_last(), step, before, before));
        lemma_handed_on_next(single, step, before, before, one);
        lemma_handed_on_next(pair, step, before, one, two);
        lemma_handed_on_next(all, step, before, two, after);
    }
}

/// Handing the sink through a list of operations is handing it through the first part of the
/// list, and then through the second part, which gets the sink as the first part left it.
pub proof fn lemma_handed_on_split<'w, 's, O>(
    earlier: Seq<O>,
    later: Seq<O>,
    step: spec_fn(O, Commands<'w, 's>, Commands<'w, 's>) -> bool,
    before: Commands<'w, 's>,
    after: Commands<'w, 's>,
)
    ensures
        handed_on(earlier + later, step, before, after) <==> exists|between: Commands<'w, 's>|
            #[trigger] handed_on(earlier, step, before, between) && handed_on(
                later,
                step,
                between,
                after,
            ),
    decreases later.len(),
{
    if later.len() == 0 {
        assert(earlier + later =~= earlier);
        if handed_on(earlier, step, before, after) {
            assert(handed_on(later, step, after, after));
        }
    } else {
        let all = earlier + later;
        let rest = later.drop_last();
        assert(all.drop_last() =~= earlier + rest);
        assert(all.last() == later.last());
        if handed_on(all, step, before, after) {
            let mid = choose|mid: Commands<'w, 's>|
                handed_on(all.drop_last(), step, before, mid) && #[trigger] step(
                    all.last(),
                    mid,
                    after,
                );
            lemma_handed_on_split(earlier, rest, step, before, mid);
            let between = choose|between: Commands<'w, 's>|
                #[trigger] handed_on(earlier, step, before, between) && handed_on(
                    rest,
                    step,
                    between,
                    mid,
                );
            assert(handed_on(later.drop_last(), step, between, mid));
            assert(handed_on(later, step, between, after));
        }
        if exists|between: Commands<'w, 's>|
            #[trigger] handed_on(earlier, step, before, between) && handed_on(
                later,
                step,
                between,
                after,
            ) {
            let between = choose|between: Commands<'w, 's>|
                #[trigger] handed_on(earlier, step, before, between) && handed_on(
                    later,
                    step,
                    between,
                    after,
                );
            let mid = choose|mid: Commands<'w, 's>|
                handed_on(later.drop_last(), step, between, mid) && #[trigger] step(
                    later.last(),
                    mid,
                    after,
                );
            lemma_handed_on_split(earlier, rest, step, before, mid);
            assert(handed_on(all.drop_last(), step, before, mid));
        }
    }
}

/// Data representing information about a operation or set of operations.
///
/// This can be obtained through [`Operation::details()`].
#[derive(Debug, Hash, PartialEq, Eq, PartialOrd, Ord)]
#[non_exhaustive]
pub struct Details {
    /// The type of operation that this is; i.e. "Move object"
    pub name: String,
}

impl Clone for Details {
    /// Returns details with the same name.
    fn clone(&self) -> (copy: Self)
        ensures
            copy == *self,
    {
        Details { name: self.name.clone() }
    }
}

impl Default for Details {
    /// Returns details with an empty name.
    fn default() -> (details: Self)
        ensures
            details.name@ == Seq::<char>::empty(),
    {
        Details { name: String::new() }
    }
}

} // verus!
