use bevy_ecs::system::{Commands, Resource};
use bevy_ecs::world::{CommandQueue, World};
use bevy_undo_redo::common_operations::OperationGroup;
use bevy_undo_redo::operation::{Details, DynOperation, Operation};

/// What the world was told, in the order it was told.
struct Told(Vec<String>);

impl Resource for Told {}

/// An operation that tells the world its name, and counts how often it was applied.
struct Tell {
    name: &'static str,
    applied: u32,
}

impl Tell {
    fn new(name: &'static str) -> Self {
        Tell { name, applied: 0 }
    }
}

impl Operation for Tell {
    fn details(&self) -> Details {
        named(self.name)
    }

    fn apply(&mut self, commands: &mut Commands) {
        self.applied += 1;
        let entry = format!("apply {}", self.name);
        commands.queue(move |world: &mut World| world.resource_mut::<Told>().0.push(entry));
    }

    fn undo(&self, commands: &mut Commands) {
        let entry = format!("undo {} after {}", self.name, self.applied);
        commands.queue(move |world: &mut World| world.resource_mut::<Told>().0.push(entry));
    }
}

/// An operation of another kind, which tells the world loudly.
struct Shout;

impl Operation for Shout {
    fn details(&self) -> Details {
        named("shout")
    }

    fn apply(&mut self, commands: &mut Commands) {
        commands.queue(|world: &mut World| {
            world.resource_mut::<Told>().0.push(String::from("APPLY"))
        });
    }

    fn undo(&self, commands: &mut Commands) {
        commands.queue(|world: &mut World| {
            world.resource_mut::<Told>().0.push(String::from("UNDO"))
        });
    }
}

fn named(name: &str) -> Details {
    let mut details = Details::default();
    details.name = name.to_string();
    details
}

fn new_world() -> World {
    let mut world = World::new();
    world.insert_resource(Told(Vec::new()));
    world
}

fn told(world: &World) -> Vec<String> {
    world.resource::<Told>().0.clone()
}

#[test]
fn group_applies_in_push_order() {
    let mut world = new_world();
    let mut queue = CommandQueue::default();
    let mut group = OperationGroup::new(named("group"));
    group.push(Tell::new("A"));
    group.push(Tell::new("B"));
    group.push(Tell::new("C"));
    {
        let mut commands = Commands::new(&mut queue, &world);
        group.apply(&mut commands);
    }
    assert_eq!(told(&world), Vec::<String>::new());
    queue.apply(&mut world);
    assert_eq!(told(&world), vec!["apply A", "apply B", "apply C"]);
}

#[test]
fn group_undoes_in_reverse_push_order() {
    let mut world = new_world();
    let mut queue = CommandQueue::default();
    let mut group = OperationGroup::new(named("group"));
    group.push(Tell::new("A"));
    group.push(Tell::new("B"));
    group.push(Tell::new("C"));
    {
        let mut commands = Commands::new(&mut queue, &world);
        group.apply(&mut commands);
        group.undo(&mut commands);
    }
    queue.apply(&mut world);
    assert_eq!(
        told(&world),
        vec![
            "apply A",
            "apply B",
            "apply C",
            "undo C after 1",
            "undo B after 1",
            "undo A after 1"
        ]
    );
}

#[test]
fn group_undo_uses_what_apply_recorded() {
    let mut world = new_world();
    let mut queue = CommandQueue::default();
    let mut group = OperationGroup::new(named("group"));
    group.push(Tell::new("A"));
    group.push(Tell::new("B"));
    {
        let mut commands = Commands::new(&mut queue, &world);
        group.apply(&mut commands);
        group.apply(&mut commands);
        group.undo(&mut commands);
    }
    queue.apply(&mut world);
    assert_eq!(
        told(&world),
        vec!["apply A", "apply B", "apply A", "apply B", "undo B after 2", "undo A after 2"]
    );
}

#[test]
fn empty_group_does_nothing() {
    let mut world = new_world();
    let mut queue = CommandQueue::default();
    let mut group: OperationGroup<Tell> = OperationGroup::new(named("nothing"));
    {
        let mut commands = Commands::new(&mut queue, &world);
        group.apply(&mut commands);
        group.undo(&mut commands);
    }
    queue.apply(&mut world);
    assert_eq!(told(&world), Vec::<String>::new());
}

#[test]
fn group_returns_its_details() {
    let group: OperationGroup<Tell> = OperationGroup::new(named("Move object"));
    assert_eq!(group.details().name, "Move object");
    assert_eq!(group.details(), named("Move object"));
}

#[test]
fn group_of_groups_mirrors_all_the_way_down() {
    let mut world = new_world();
    let mut queue = CommandQueue::default();
    let mut first = OperationGroup::new(named("first"));
    first.push(Tell::new("A"));
    first.push(Tell::new("B"));
    let mut second = OperationGroup::new(named("second"));
    second.push(Tell::new("C"));
    second.push(Tell::new("D"));
    let mut outer = OperationGroup::new(named("outer"));
    outer.push(first);
    outer.push(second);
    {
        let mut commands = Commands::new(&mut queue, &world);
        outer.apply(&mut commands);
        outer.undo(&mut commands);
    }
    queue.apply(&mut world);
    assert_eq!(
        told(&world),
        vec![
            "apply A",
            "apply B",
            "apply C",
            "apply D",
            "undo D after 1",
            "undo C after 1",
            "undo B after 1",
            "undo A after 1"
        ]
    );
}

#[test]
fn group_of_boxed_operations_of_several_kinds() {
    let mut world = new_world();
    let mut queue = CommandQueue::default();
    let mut group: OperationGroup<Box<dyn DynOperation>> = OperationGroup::new(named("mixed"));
    group.push(Box::new(Tell::new("A")));
    group.push(Box::new(Shout));
    {
        let mut commands = Commands::new(&mut queue, &world);
        group.apply(&mut commands);
        group.undo(&mut commands);
    }
    queue.apply(&mut world);
    assert_eq!(told(&world), vec!["apply A", "APPLY", "UNDO", "undo A after 1"]);
}

#[test]
fn boxed_operation_is_the_operation() {
    let mut world = new_world();
    let mut queue = CommandQueue::default();
    let mut boxed: Box<dyn DynOperation> = Box::new(Tell::new("A"));
    assert_eq!(boxed.details().name, "A");
    {
        let mut commands = Commands::new(&mut queue, &world);
        Operation::apply(&mut boxed, &mut commands);
        Operation::undo(&boxed, &mut commands);
    }
    queue.apply(&mut world);
    assert_eq!(told(&world), vec!["apply A", "undo A after 1"]);
}

#[test]
fn every_operation_is_an_operation_of_any_kind() {
    let mut world = new_world();
    let mut queue = CommandQueue::default();
    let mut operation = Tell::new("A");
    assert_eq!(operation.dyn_details().name, "A");
    {
        let mut commands = Commands::new(&mut queue, &world);
        operation.dyn_apply(&mut commands);
        operation.dyn_undo(&mut commands);
    }
    queue.apply(&mut world);
    assert_eq!(told(&world), vec!["apply A", "undo A after 1"]);
}

#[test]
fn details_default_has_an_empty_name() {
    assert_eq!(Details::default().name, "");
}

#[test]
fn details_clone_keeps_the_name() {
    let details = named("Move object");
    let copy = details.clone();
    assert_eq!(copy.name, "Move object");
    assert_eq!(copy, details);
}

#[test]
fn details_are_ordered_by_name() {
    assert!(named("a") < named("b"));
    assert_ne!(named("a"), named("b"));
}
