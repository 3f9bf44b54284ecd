use bevy_ecs::system::{Commands, Resource};
use bevy_ecs::world::{CommandQueue, World};
use bevy_undo_redo::operation::{Details, DynOperation, Operation};
use bevy_undo_redo::{Error, UndoRedo};

/// A list of numbers in the world, which the operations below change.
struct Numbers(Vec<i32>);

impl Resource for Numbers {}

/// Appends a number to the list; undoing removes the last number again.
struct Append {
    number: i32,
    times_applied: u32,
}

impl Append {
    fn new(number: i32) -> Self {
        Append { number, times_applied: 0 }
    }
}

impl Operation for Append {
    fn details(&self) -> Details {
        let mut details = Details::default();
        details.name = format!("append {} ({})", self.number, self.times_applied);
        details
    }

    fn apply(&mut self, commands: &mut Commands) {
        self.times_applied += 1;
        let number = self.number;
        commands.queue(move |world: &mut World| world.resource_mut::<Numbers>().0.push(number));
    }

    fn undo(&self, commands: &mut Commands) {
        commands.queue(|world: &mut World| {
            world.resource_mut::<Numbers>().0.pop();
        });
    }
}

/// Negates every number of the list; undoing negates them again.
struct Negate;

impl Operation for Negate {
    fn details(&self) -> Details {
        let mut details = Details::default();
        details.name = String::from("negate");
        details
    }

    fn apply(&mut self, commands: &mut Commands) {
        commands.queue(|world: &mut World| {
            for number in world.resource_mut::<Numbers>().0.iter_mut() {
                *number = -*number;
            }
        });
    }

    fn undo(&self, commands: &mut Commands) {
        commands.queue(|world: &mut World| {
            for number in world.resource_mut::<Numbers>().0.iter_mut() {
                *number = -*number;
            }
        });
    }
}

fn new_world() -> World {
    let mut world = World::new();
    world.insert_resource(Numbers(Vec::new()));
    world
}

fn numbers(world: &World) -> Vec<i32> {
    world.resource::<Numbers>().0.clone()
}

fn committed<O: Operation>(undoredo: &UndoRedo<O>) -> Vec<String> {
    let mut names = Vec::new();
    let mut iter = undoredo.history().iter_committed();
    while let Some(operation) = iter.next() {
        names.push(operation.details().name);
    }
    names
}

/// The names of the undone operations, least recently undone first.
fn undone<O: Operation>(undoredo: &UndoRedo<O>) -> Vec<String> {
    let mut names = Vec::new();
    let mut iter = undoredo.history().iter_undone();
    while let Some(operation) = iter.next_back() {
        names.push(operation.details().name);
    }
    names
}

#[test]
fn apply_queue_on_an_empty_queue_fails() {
    let world = new_world();
    let mut queue = CommandQueue::default();
    let mut commands = Commands::new(&mut queue, &world);
    let mut undoredo: UndoRedo<Append> = UndoRedo::default();
    assert_eq!(undoredo.apply_queue(&mut commands), Err(Error::NoQueuedOperations));
    assert_eq!(committed(&undoredo), Vec::<String>::new());
}

#[test]
fn undo_without_history_fails() {
    let world = new_world();
    let mut queue = CommandQueue::default();
    let mut commands = Commands::new(&mut queue, &world);
    let mut undoredo: UndoRedo<Append> = UndoRedo::default();
    assert_eq!(undoredo.undo(&mut commands), Err(Error::NoApplicableHistory));
}

#[test]
fn redo_without_undone_operations_fails() {
    let world = new_world();
    let mut queue = CommandQueue::default();
    let mut commands = Commands::new(&mut queue, &world);
    let mut undoredo: UndoRedo<Append> = UndoRedo::default();
    assert_eq!(undoredo.redo(&mut commands), Err(Error::NoApplicableHistory));
    undoredo.push_to_queue(Append::new(1));
    assert_eq!(undoredo.apply_queue(&mut commands), Ok(()));
    assert_eq!(undoredo.redo(&mut commands), Err(Error::NoApplicableHistory));
}

#[test]
fn failed_calls_leave_the_sink_empty() {
    let mut world = new_world();
    let mut queue = CommandQueue::default();
    {
        let mut commands = Commands::new(&mut queue, &world);
        let mut undoredo: UndoRedo<Append> = UndoRedo::default();
        assert!(undoredo.apply_queue(&mut commands).is_err());
        assert!(undoredo.undo(&mut commands).is_err());
        assert!(undoredo.redo(&mut commands).is_err());
    }
    assert!(queue.is_empty());
    queue.apply(&mut world);
    assert_eq!(numbers(&world), Vec::<i32>::new());
}

#[test]
fn queued_operations_are_applied_in_order() {
    let mut world = new_world();
    let mut queue = CommandQueue::default();
    let mut undoredo: UndoRedo<Append> = UndoRedo::default();
    undoredo.push_to_queue(Append::new(1));
    undoredo.push_to_queue(Append::new(2));
    assert_eq!(committed(&undoredo), Vec::<String>::new());
    {
        let mut commands = Commands::new(&mut queue, &world);
        assert_eq!(undoredo.apply_queue(&mut commands), Ok(()));
        assert_eq!(committed(&undoredo), vec!["append 1 (1)", "append 2 (1)"]);
        assert_eq!(undone(&undoredo), Vec::<String>::new());
        assert_eq!(undoredo.apply_queue(&mut commands), Err(Error::NoQueuedOperations));
    }
    assert_eq!(numbers(&world), Vec::<i32>::new());
    queue.apply(&mut world);
    assert_eq!(numbers(&world), vec![1, 2]);
}

#[test]
fn push_to_queue_has_no_effect_by_itself() {
    let mut world = new_world();
    let mut queue = CommandQueue::default();
    let mut undoredo: UndoRedo<Append> = UndoRedo::default();
    undoredo.push_to_queue(Append::new(1));
    {
        let mut commands = Commands::new(&mut queue, &world);
        assert_eq!(undoredo.undo(&mut commands), Err(Error::NoApplicableHistory));
    }
    assert!(queue.is_empty());
    queue.apply(&mut world);
    assert_eq!(numbers(&world), Vec::<i32>::new());
    assert_eq!(committed(&undoredo), Vec::<String>::new());
}

#[test]
fn undo_and_redo_move_the_newest_operation() {
    let mut world = new_world();
    let mut queue = CommandQueue::default();
    let mut undoredo: UndoRedo<Append> = UndoRedo::default();
    undoredo.push_to_queue(Append::new(1));
    undoredo.push_to_queue(Append::new(2));
    undoredo.push_to_queue(Append::new(3));
    {
        let mut commands = Commands::new(&mut queue, &world);
        assert_eq!(undoredo.apply_queue(&mut commands), Ok(()));
    }
    queue.apply(&mut world);
    assert_eq!(numbers(&world), vec![1, 2, 3]);
    {
        let mut commands = Commands::new(&mut queue, &world);
        assert_eq!(undoredo.undo(&mut commands), Ok(()));
        assert_eq!(undoredo.undo(&mut commands), Ok(()));
    }
    queue.apply(&mut world);
    assert_eq!(numbers(&world), vec![1]);
    assert_eq!(committed(&undoredo), vec!["append 1 (1)"]);
    assert_eq!(undone(&undoredo), vec!["append 3 (1)", "append 2 (1)"]);
    {
        let mut commands = Commands::new(&mut queue, &world);
        assert_eq!(undoredo.redo(&mut commands), Ok(()));
    }
    queue.apply(&mut world);
    assert_eq!(numbers(&world), vec![1, 2]);
    assert_eq!(committed(&undoredo), vec!["append 1 (1)", "append 2 (2)"]);
    assert_eq!(undone(&undoredo), vec!["append 3 (1)"]);
}

#[test]
fn redo_applies_the_operation_again() {
    let mut world = new_world();
    let mut queue = CommandQueue::default();
    let mut undoredo: UndoRedo<Append> = UndoRedo::default();
    {
        let mut commands = Commands::new(&mut queue, &world);
        assert_eq!(undoredo.push_and_apply(Append::new(7), &mut commands), Ok(()));
        assert_eq!(undoredo.undo(&mut commands), Ok(()));
        assert_eq!(undoredo.redo(&mut commands), Ok(()));
    }
    queue.apply(&mut world);
    assert_eq!(numbers(&world), vec![7]);
    assert_eq!(committed(&undoredo), vec!["append 7 (2)"]);
}

#[test]
fn applying_after_an_undo_drops_the_undone_operations() {
    let mut world = new_world();
    let mut queue = CommandQueue::default();
    let mut undoredo: UndoRedo<Append> = UndoRedo::default();
    {
        let mut commands = Commands::new(&mut queue, &world);
        assert_eq!(undoredo.push_and_apply(Append::new(1), &mut commands), Ok(()));
        assert_eq!(undoredo.push_and_apply(Append::new(2), &mut commands), Ok(()));
        assert_eq!(undoredo.undo(&mut commands), Ok(()));
        undoredo.push_to_queue(Append::new(3));
        assert_eq!(undone(&undoredo), vec!["append 2 (1)"]);
        assert_eq!(undoredo.apply_queue(&mut commands), Ok(()));
        assert_eq!(undone(&undoredo), Vec::<String>::new());
        assert_eq!(undoredo.redo(&mut commands), Err(Error::NoApplicableHistory));
    }
    queue.apply(&mut world);
    assert_eq!(numbers(&world), vec![1, 3]);
    assert_eq!(committed(&undoredo), vec!["append 1 (1)", "append 3 (1)"]);
}

#[test]
fn push_and_apply_leaves_the_queue_alone() {
    let mut world = new_world();
    let mut queue = CommandQueue::default();
    let mut undoredo: UndoRedo<Append> = UndoRedo::default();
    undoredo.push_to_queue(Append::new(1));
    {
        let mut commands = Commands::new(&mut queue, &world);
        assert_eq!(undoredo.push_and_apply(Append::new(2), &mut commands), Ok(()));
        assert_eq!(committed(&undoredo), vec!["append 2 (1)"]);
        assert_eq!(undoredo.apply_queue(&mut commands), Ok(()));
    }
    queue.apply(&mut world);
    assert_eq!(numbers(&world), vec![2, 1]);
    assert_eq!(committed(&undoredo), vec!["append 2 (1)", "append 1 (1)"]);
}

#[test]
fn clear_queue_drops_only_the_queued_operations() {
    let world = new_world();
    let mut queue = CommandQueue::default();
    let mut commands = Commands::new(&mut queue, &world);
    let mut undoredo: UndoRedo<Append> = UndoRedo::default();
    assert_eq!(undoredo.push_and_apply(Append::new(1), &mut commands), Ok(()));
    undoredo.push_to_queue(Append::new(2));
    undoredo.clear_queue();
    assert_eq!(undoredo.apply_queue(&mut commands), Err(Error::NoQueuedOperations));
    assert_eq!(committed(&undoredo), vec!["append 1 (1)"]);
    assert_eq!(undoredo.undo(&mut commands), Ok(()));
}

#[test]
fn clear_drops_everything() {
    let world = new_world();
    let mut queue = CommandQueue::default();
    let mut commands = Commands::new(&mut queue, &world);
    let mut undoredo: UndoRedo<Append> = UndoRedo::default();
    assert_eq!(undoredo.push_and_apply(Append::new(1), &mut commands), Ok(()));
    assert_eq!(undoredo.push_and_apply(Append::new(2), &mut commands), Ok(()));
    assert_eq!(undoredo.undo(&mut commands), Ok(()));
    undoredo.push_to_queue(Append::new(3));
    undoredo.clear();
    assert_eq!(committed(&undoredo), Vec::<String>::new());
    assert_eq!(undone(&undoredo), Vec::<String>::new());
    assert_eq!(undoredo.apply_queue(&mut commands), Err(Error::NoQueuedOperations));
    assert_eq!(undoredo.undo(&mut commands), Err(Error::NoApplicableHistory));
    assert_eq!(undoredo.redo(&mut commands), Err(Error::NoApplicableHistory));
}

#[test]
fn operations_of_several_kinds_share_one_history() {
    let mut world = new_world();
    let mut queue = CommandQueue::default();
    let mut undoredo: UndoRedo<Box<dyn DynOperation>> = UndoRedo::default();
    undoredo.push_to_queue(Box::new(Append::new(4)));
    undoredo.push_to_queue(Box::new(Negate));
    undoredo.push_to_queue(Box::new(Append::new(5)));
    {
        let mut commands = Commands::new(&mut queue, &world);
        assert_eq!(undoredo.apply_queue(&mut commands), Ok(()));
    }
    queue.apply(&mut world);
    assert_eq!(numbers(&world), vec![-4, 5]);
    assert_eq!(committed(&undoredo), vec!["append 4 (1)", "negate", "append 5 (1)"]);
    {
        let mut commands = Commands::new(&mut queue, &world);
        assert_eq!(undoredo.undo(&mut commands), Ok(()));
        assert_eq!(undoredo.undo(&mut commands), Ok(()));
    }
    queue.apply(&mut world);
    assert_eq!(numbers(&world), vec![4]);
    assert_eq!(undone(&undoredo), vec!["append 5 (1)", "negate"]);
}

#[test]
fn the_history_of_an_undoredo_has_no_limit() {
    let world = new_world();
    let mut queue = CommandQueue::default();
    let mut commands = Commands::new(&mut queue, &world);
    let mut undoredo: UndoRedo<Append> = UndoRedo::default();
    assert_eq!(undoredo.history().get_limit(), None);
    for number in 0..50 {
        assert_eq!(undoredo.push_and_apply(Append::new(number), &mut commands), Ok(()));
    }
    assert_eq!(undoredo.history().iter_committed().len(), 50);
    assert_eq!(undoredo.history().get_limit(), None);
}
