use roguelike::color::Color;
use roguelike::map::Game;
use roguelike::object::RogueObject;

fn object_at(x: i32, y: i32) -> RogueObject {
    RogueObject::new(x, y, '@', Color::white())
}

#[test]
fn new_keeps_its_arguments() {
    let object = RogueObject::new(3, -4, 'k', Color { r: 1, g: 2, b: 3 });
    assert_eq!(object.x, 3);
    assert_eq!(object.y, -4);
    assert_eq!(object.char, 'k');
    assert_eq!(object.color, Color { r: 1, g: 2, b: 3 });
}

#[test]
fn named_colours() {
    assert_eq!(Color::white(), Color { r: 255, g: 255, b: 255 });
    assert_eq!(Color::yellow(), Color { r: 255, g: 255, b: 0 });
    assert_eq!(Color::dark_wall(), Color { r: 0, g: 0, b: 100 });
    assert_eq!(Color::dark_ground(), Color { r: 50, g: 50, b: 50 });
}

#[test]
fn wall_stops_a_step() {
    let game = Game::new();
    assert!(game.is_blocked(5, 2));
    let mut object = object_at(5, 1);
    object.move_by(0, 1, &game);
    assert_eq!((object.x, object.y), (5, 1));
}

#[test]
fn free_cell_takes_a_step() {
    let game = Game::new();
    assert!(!game.is_blocked(5, 0));
    let mut object = object_at(5, 1);
    object.move_by(0, -1, &game);
    assert_eq!((object.x, object.y), (5, 0));
}

#[test]
fn a_step_changes_the_position_only() {
    let game = Game::new();
    let mut object = RogueObject::new(20, 12, 'x', Color::yellow());
    object.move_by(1, 1, &game);
    assert_eq!(object, RogueObject::new(21, 13, 'x', Color::yellow()));
}

#[test]
fn zero_step_changes_nothing() {
    let game = Game::new();
    // On open floor, inside a wall, and off the map.
    for (x, y) in [(0, 0), (20, 12), (5, 2), (39, 19), (-3, 7), (40, 20), (i32::MAX, i32::MIN)] {
        let mut object = object_at(x, y);
        object.move_by(0, 0, &game);
        assert_eq!(object, object_at(x, y), "at ({x}, {y})");
    }
}

#[test]
fn zero_step_changes_nothing_anywhere_on_the_map() {
    let game = Game::new();
    for x in 0..40 {
        for y in 0..20 {
            let mut object = object_at(x, y);
            object.move_by(0, 0, &game);
            assert_eq!((object.x, object.y), (x, y));
        }
    }
}

#[test]
fn edge_of_the_map_stops_a_step() {
    let game = Game::new();
    let mut object = object_at(0, 0);
    object.move_by(-1, 0, &game);
    assert_eq!((object.x, object.y), (0, 0));
    object.move_by(0, -1, &game);
    assert_eq!((object.x, object.y), (0, 0));

    let mut object = object_at(39, 19);
    object.move_by(1, 0, &game);
    assert_eq!((object.x, object.y), (39, 19));
    object.move_by(0, 1, &game);
    assert_eq!((object.x, object.y), (39, 19));
    object.move_by(-1, -1, &game);
    assert_eq!((object.x, object.y), (38, 18));
}

#[test]
fn step_beyond_the_integer_range_is_stopped() {
    let game = Game::new();
    let mut object = object_at(i32::MAX, 3);
    object.move_by(1, 0, &game);
    assert_eq!((object.x, object.y), (i32::MAX, 3));
    let mut object = object_at(3, i32::MIN);
    object.move_by(0, -1, &game);
    assert_eq!((object.x, object.y), (3, i32::MIN));
}

#[test]
fn object_off_the_map_can_step_onto_it() {
    let game = Game::new();
    let mut object = object_at(-1, 0);
    object.move_by(1, 0, &game);
    assert_eq!((object.x, object.y), (0, 0));
}

#[test]
fn long_step_jumps_over_a_wall() {
    let game = Game::new();
    assert!(game.is_blocked(2, 3));
    assert!(!game.is_blocked(3, 3));
    let mut object = object_at(1, 3);
    object.move_by(2, 0, &game);
    assert_eq!((object.x, object.y), (3, 3));
}

#[test]
fn long_step_onto_a_wall_is_stopped() {
    let game = Game::new();
    let mut object = object_at(20, 12);
    object.move_by(-8, 0, &game);
    assert_eq!((object.x, object.y), (20, 12));
    object.move_by(-7, 0, &game);
    assert_eq!((object.x, object.y), (13, 12));
}
