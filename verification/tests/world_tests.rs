use ecs_core::components::Direction;
use ecs_core::components::KeyboardControlled;
use ecs_core::components::MovementCommand;
use ecs_core::components::Point;
use ecs_core::components::Position;
use ecs_core::components::Rect;
use ecs_core::components::Sprite;
use ecs_core::components::Velocity;
use ecs_core::dispatcher::Dispatcher;
use ecs_core::dispatcher::can_integrate;
use ecs_core::world::World;

#[test]
fn entities_get_consecutive_ids() {
    let mut world = World::new();
    assert_eq!(world.num_entities(), 0);
    assert_eq!(world.create_entity(), 0);
    assert_eq!(world.create_entity(), 1);
    assert_eq!(world.num_entities(), 2);
}

#[test]
fn fresh_entity_has_no_components() {
    let mut world = World::new();
    let e = world.create_entity();
    assert_eq!(world.position_of(e), None);
    assert_eq!(world.sprite_of(e), None);
    assert_eq!(world.velocity_of(e), None);
}

#[test]
fn attached_components_are_readable() {
    let mut world = World::new();
    let e = world.create_entity();
    let sprite = Sprite { sprite_sheet: 2, region: Rect { x: 1, y: 2, width: 3, height: 4 } };
    world.attach_position(e, Position(Point { x: -4, y: 9 }));
    world.attach_velocity(e, Velocity { speed: 0, direction: Direction::Down });
    world.attach_sprite(e, sprite);
    assert_eq!(world.position_of(e), Some(Position(Point { x: -4, y: 9 })));
    assert_eq!(world.velocity_of(e), Some(Velocity { speed: 0, direction: Direction::Down }));
    assert_eq!(world.sprite_of(e), Some(sprite));
}

#[test]
fn maintain_changes_nothing() {
    let mut world = World::new();
    let e = world.create_entity();
    world.attach_position(e, Position(Point { x: 1, y: 2 }));
    world.maintain();
    assert_eq!(world.num_entities(), 1);
    assert_eq!(world.position_of(e), Some(Position(Point { x: 1, y: 2 })));
}

#[test]
fn integration_near_the_coordinate_limit_is_refused() {
    let mut world = World::new();
    let e = world.create_entity();
    world.attach_position(e, Position(Point { x: i32::MAX - 2, y: 0 }));
    world.attach_velocity(e, Velocity { speed: 5, direction: Direction::Right });

    assert!(!can_integrate(&world, None));
    let mut dispatcher = Dispatcher::new();
    assert!(!dispatcher.dispatch_checked(&mut world, None));
    assert_eq!(world.position_of(e), Some(Position(Point { x: i32::MAX - 2, y: 0 })));

    world.attach_velocity(e, Velocity { speed: 5, direction: Direction::Left });
    assert!(can_integrate(&world, None));
    assert!(dispatcher.dispatch_checked(&mut world, None));
    assert_eq!(world.position_of(e), Some(Position(Point { x: i32::MAX - 7, y: 0 })));
}

#[test]
fn command_aware_integration_check() {
    let mut world = World::new();
    let e = world.create_entity();
    world.attach_keyboard_controlled(e, KeyboardControlled);
    world.attach_position(e, Position(Point { x: i32::MAX - 2, y: 0 }));
    world.attach_velocity(e, Velocity { speed: 0, direction: Direction::Right });

    assert!(can_integrate(&world, None));
    assert!(!can_integrate(&world, Some(MovementCommand::Move(Direction::Right))));
    assert!(can_integrate(&world, Some(MovementCommand::Move(Direction::Left))));
    assert!(can_integrate(&world, Some(MovementCommand::Stop)));
}
