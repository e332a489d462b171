use intersection_sim::controller::{advance_cars, prune_cars, should_stop_at_light};
use intersection_sim::geometry::Dir;
use intersection_sim::signal::new_lights;
use intersection_sim::vehicle::{car_too_close, Car, Turns};

fn car(x: i32, y: i32, dir: Dir) -> Car {
    Car { x, y, dir, turn: Turns::Forward, turned: false }
}

#[test]
fn free_car_advances_one_step() {
    let lights = new_lights();
    let mut cars = vec![car(740, 0, Dir::Down)];
    advance_cars(&mut cars, &lights);
    assert_eq!((cars[0].x, cars[0].y), (740, 10));
    assert_eq!(cars[0].dir, Dir::Down);
    assert!(!cars[0].turned);
}

#[test]
fn red_light_holds_car_exactly_on_stop_line() {
    let lights = new_lights();
    // downward stop line: y + 2 cells == center y, so y == 480
    let held = car(740, 480, Dir::Down);
    assert!(should_stop_at_light(&held, &lights));
    let mut cars = vec![held];
    advance_cars(&mut cars, &lights);
    assert_eq!((cars[0].x, cars[0].y), (740, 480));
}

#[test]
fn red_light_is_a_point_check_not_a_range() {
    let lights = new_lights();
    // one step short of the line, and one step past it: neither halts
    assert!(!should_stop_at_light(&car(740, 470, Dir::Down), &lights));
    assert!(!should_stop_at_light(&car(740, 490, Dir::Down), &lights));
}

#[test]
fn green_light_releases_the_stop_line() {
    let mut lights = new_lights();
    lights[0].green = true;
    let held = car(740, 480, Dir::Down);
    assert!(!should_stop_at_light(&held, &lights));
    let mut cars = vec![held];
    advance_cars(&mut cars, &lights);
    assert_eq!((cars[0].x, cars[0].y), (740, 490));
}

#[test]
fn trailing_car_within_gap_does_not_move() {
    let lights = new_lights();
    let leader = car(740, 180, Dir::Down);
    let trailer = car(740, 100, Dir::Down);
    assert!(car_too_close(&trailer, &vec![trailer, leader]));
    let mut cars = vec![trailer, leader];
    advance_cars(&mut cars, &lights);
    // separation 80 < 105: the trailer holds, the leader drives on
    assert_eq!((cars[0].x, cars[0].y), (740, 100));
    assert_eq!((cars[1].x, cars[1].y), (740, 190));
}

#[test]
fn car_at_full_gap_moves() {
    let lights = new_lights();
    let leader = car(740, 205, Dir::Down);
    let trailer = car(740, 100, Dir::Down);
    assert!(!car_too_close(&trailer, &vec![trailer, leader]));
    let mut cars = vec![trailer, leader];
    advance_cars(&mut cars, &lights);
    assert_eq!((cars[0].x, cars[0].y), (740, 110));
}

#[test]
fn laterally_distant_car_does_not_block() {
    // same direction, within the gap longitudinally, but a full cell to
    // the side: no block
    let leader = car(810, 180, Dir::Down);
    let trailer = car(740, 100, Dir::Down);
    assert!(!car_too_close(&trailer, &vec![trailer, leader]));
}

#[test]
fn gap_checks_use_the_pre_tick_snapshot() {
    // The leader is processed first and moves out to separation 90, but
    // the trailer still sees the snapshot separation 80 and holds.
    let lights = new_lights();
    let leader = car(740, 180, Dir::Down);
    let trailer = car(740, 100, Dir::Down);
    let mut cars = vec![leader, trailer];
    advance_cars(&mut cars, &lights);
    assert_eq!((cars[0].x, cars[0].y), (740, 190));
    assert_eq!((cars[1].x, cars[1].y), (740, 100));
}

#[test]
fn rightward_car_with_right_intent_turns_once_at_its_checkpoint() {
    let lights = new_lights();
    let mut cars = vec![Car { x: 730, y: 600, dir: Dir::Right, turn: Turns::Right, turned: false }];
    advance_cars(&mut cars, &lights);
    // it reaches (center x - cell, center y) and rotates (s,0) -> (0,s)
    assert_eq!((cars[0].x, cars[0].y), (740, 600));
    assert_eq!(cars[0].dir, Dir::Down);
    assert!(cars[0].turned);
    // afterwards the direction never changes again
    for _ in 0..20 {
        advance_cars(&mut cars, &lights);
        assert_eq!(cars[0].dir, Dir::Down);
    }
}

#[test]
fn downward_car_with_left_intent_turns_at_the_shared_checkpoint() {
    let lights = new_lights();
    let mut lts = lights;
    lts[0].green = true;
    let mut cars = vec![Car { x: 740, y: 590, dir: Dir::Down, turn: Turns::Left, turned: false }];
    advance_cars(&mut cars, &lts);
    assert_eq!((cars[0].x, cars[0].y), (740, 600));
    assert_eq!(cars[0].dir, Dir::Right);
    assert!(cars[0].turned);
}

#[test]
fn forward_car_never_turns() {
    let lights = new_lights();
    let mut cars = vec![Car { x: 730, y: 600, dir: Dir::Right, turn: Turns::Forward, turned: false }];
    advance_cars(&mut cars, &lights);
    assert_eq!(cars[0].dir, Dir::Right);
    assert!(!cars[0].turned);
}

#[test]
fn out_of_bounds_car_is_removed() {
    // beyond the bottom margin (height + cell): gone after one pruning
    let mut cars = vec![car(740, 1265, Dir::Down), car(740, 1259, Dir::Down)];
    prune_cars(&mut cars);
    assert_eq!(cars.len(), 1);
    assert_eq!(cars[0].y, 1259);
}

#[test]
fn pruning_keeps_order_of_survivors() {
    let a = car(100, 600, Dir::Right);
    let b = car(-70, 600, Dir::Right);
    let c = car(200, 600, Dir::Right);
    let mut cars = vec![a, b, c];
    prune_cars(&mut cars);
    assert_eq!(cars, vec![a, c]);
}
