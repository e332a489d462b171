use intersection_sim::geometry::Dir;
use intersection_sim::spawner::{spawn_point, try_spawn, try_spawn_with_turn, MIN_SPAWN_DELAY};
use intersection_sim::vehicle::{Car, Turns};

fn empty_limiter() -> Vec<Option<i64>> {
    vec![None, None, None, None]
}

#[test]
fn spawn_points_match_the_approaches() {
    assert_eq!(spawn_point(0), (740, 0, Dir::Down));
    assert_eq!(spawn_point(1), (800, 1140, Dir::Up));
    assert_eq!(spawn_point(2), (0, 600, Dir::Right));
    assert_eq!(spawn_point(3), (1540, 540, Dir::Left));
}

#[test]
fn first_spawn_is_admitted() {
    let mut sp = empty_limiter();
    let mut cars: Vec<Car> = vec![];
    try_spawn_with_turn(&mut sp, &mut cars, 0, 10, Turns::Left);
    assert_eq!(cars.len(), 1);
    assert_eq!((cars[0].x, cars[0].y), (740, 0));
    assert_eq!(cars[0].dir, Dir::Down);
    assert_eq!(cars[0].turn, Turns::Left);
    assert!(!cars[0].turned);
    assert_eq!(sp[0], Some(10));
}

#[test]
fn second_spawn_within_cooldown_is_rejected() {
    let mut sp = empty_limiter();
    let mut cars: Vec<Car> = vec![];
    try_spawn_with_turn(&mut sp, &mut cars, 0, 10, Turns::Forward);
    try_spawn_with_turn(&mut sp, &mut cars, 0, 10 + MIN_SPAWN_DELAY - 1, Turns::Forward);
    assert_eq!(cars.len(), 1);
    assert_eq!(sp[0], Some(10));
    // once the cooldown has elapsed the next request succeeds — the
    // earlier car has driven on in the meantime
    cars[0].y = 200;
    try_spawn_with_turn(&mut sp, &mut cars, 0, 10 + MIN_SPAWN_DELAY, Turns::Forward);
    assert_eq!(cars.len(), 2);
    assert_eq!(sp[0], Some(10 + MIN_SPAWN_DELAY));
}

#[test]
fn cooldowns_are_per_approach() {
    let mut sp = empty_limiter();
    let mut cars: Vec<Car> = vec![];
    try_spawn_with_turn(&mut sp, &mut cars, 0, 10, Turns::Forward);
    try_spawn_with_turn(&mut sp, &mut cars, 2, 11, Turns::Forward);
    assert_eq!(cars.len(), 2);
}

#[test]
fn gap_blocked_spawn_is_dropped_but_consumes_the_cooldown() {
    let mut sp = empty_limiter();
    // a same-direction car just past the entry of approach 0, inside the
    // minimum gap
    let mut cars = vec![Car { x: 740, y: 80, dir: Dir::Down, turn: Turns::Forward, turned: false }];
    try_spawn_with_turn(&mut sp, &mut cars, 0, 10, Turns::Forward);
    assert_eq!(cars.len(), 1);
    assert_eq!(sp[0], Some(10));
}

#[test]
fn opposing_traffic_does_not_block_a_spawn() {
    let mut sp = empty_limiter();
    let mut cars = vec![Car { x: 740, y: 80, dir: Dir::Up, turn: Turns::Forward, turned: false }];
    try_spawn_with_turn(&mut sp, &mut cars, 0, 10, Turns::Forward);
    assert_eq!(cars.len(), 2);
}

#[test]
fn random_intent_spawn_creates_a_well_formed_car() {
    let mut sp = empty_limiter();
    let mut cars: Vec<Car> = vec![];
    try_spawn(&mut sp, &mut cars, 1, 7);
    assert_eq!(cars.len(), 1);
    assert_eq!((cars[0].x, cars[0].y), (800, 1140));
    assert_eq!(cars[0].dir, Dir::Up);
    assert!(!cars[0].turned);
    assert!(matches!(cars[0].turn, Turns::Right | Turns::Left | Turns::Forward));
    assert_eq!(sp[1], Some(7));
}
