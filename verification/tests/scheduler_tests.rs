use intersection_sim::geometry::Dir;
use intersection_sim::scheduler::{
    calculate_green_duration, light_order, Phase, Scheduler, ALL_RED_DURATION,
    MAX_GREEN_DURATION, MIN_GREEN_DURATION,
};
use intersection_sim::signal::new_lights;
use intersection_sim::vehicle::{Car, Turns};

fn car(x: i32, y: i32, dir: Dir) -> Car {
    Car { x, y, dir, turn: Turns::Forward, turned: false }
}

fn greens(lights: &Vec<intersection_sim::signal::Light>) -> usize {
    lights.iter().filter(|l| l.green).count()
}

#[test]
fn four_queued_cars_get_capped_green() {
    // Four vehicles on approach 0 (downward), all within the queue range
    // of the center: the green time is capped at the maximum.
    let lights = new_lights();
    let cars = vec![
        car(740, 480, Dir::Down),
        car(740, 360, Dir::Down),
        car(740, 240, Dir::Down),
        car(740, 220, Dir::Down),
    ];
    assert_eq!(calculate_green_duration(&cars, &lights, 0), MAX_GREEN_DURATION);
    assert_eq!(calculate_green_duration(&cars, &lights, 0), 100);
}

#[test]
fn one_queued_car_gets_one_green_unit() {
    let lights = new_lights();
    let cars = vec![car(740, 480, Dir::Down)];
    assert_eq!(calculate_green_duration(&cars, &lights, 0), MIN_GREEN_DURATION);
}

#[test]
fn distant_car_not_counted() {
    // A downward vehicle farther than the queue range from the center
    // contributes nothing.
    let lights = new_lights();
    let cars = vec![car(740, 100, Dir::Down)];
    assert_eq!(calculate_green_duration(&cars, &lights, 0), 0);
}

#[test]
fn cross_direction_car_not_counted() {
    let lights = new_lights();
    let cars = vec![car(300, 600, Dir::Right)];
    assert_eq!(calculate_green_duration(&cars, &lights, 0), 0);
}

#[test]
fn empty_approach_green_phase_skipped() {
    // With nothing queued the duration is zero: no signal turns green,
    // and the scheduler leaves the green phase on the very next tick.
    let mut lights = new_lights();
    let mut sched = Scheduler::new();
    let cars: Vec<Car> = vec![];
    assert_eq!(sched.phase, Phase::AllRed);
    sched.update(&mut lights, &cars, ALL_RED_DURATION);
    assert_eq!(sched.phase, Phase::Green);
    assert_eq!(greens(&lights), 0);
    sched.update(&mut lights, &cars, ALL_RED_DURATION + 1);
    assert_eq!(sched.phase, Phase::AllRed);
    assert_eq!(greens(&lights), 0);
}

#[test]
fn queued_approach_turns_green_and_times_out() {
    // The all-red buffer elapses; the next approach in the order is
    // slot 1 -> light 0 (downward). One queued vehicle earns one green
    // unit; the signal stays green until that time has elapsed and not
    // a tick longer than needed.
    let mut lights = new_lights();
    let mut sched = Scheduler::new();
    let cars = vec![car(740, 480, Dir::Down)];
    assert_eq!(light_order(1), 0);
    sched.update(&mut lights, &cars, 5);
    assert_eq!(sched.phase, Phase::Green);
    assert_eq!(sched.slot, 1);
    assert_eq!(sched.last_switch, 5);
    assert!(lights[0].green);
    assert_eq!(greens(&lights), 1);
    // strictly inside the green window: nothing changes
    sched.update(&mut lights, &cars, 5 + MIN_GREEN_DURATION - 1);
    assert_eq!(sched.phase, Phase::Green);
    assert!(lights[0].green);
    assert_eq!(sched.last_switch, 5);
    // the duration has elapsed: all red again
    sched.update(&mut lights, &cars, 5 + MIN_GREEN_DURATION);
    assert_eq!(sched.phase, Phase::AllRed);
    assert_eq!(greens(&lights), 0);
    assert_eq!(sched.last_switch, 5 + MIN_GREEN_DURATION);
}

#[test]
fn at_most_one_green_through_a_full_cycle() {
    // Drive the scheduler through several phase changes with traffic on
    // every approach; at no point are two signals green.
    let mut lights = new_lights();
    let mut sched = Scheduler::new();
    let cars = vec![
        car(740, 480, Dir::Down),
        car(800, 700, Dir::Up),
        car(500, 600, Dir::Right),
        car(1100, 540, Dir::Left),
    ];
    let mut now = 0i64;
    for _ in 0..200 {
        sched.update(&mut lights, &cars, now);
        assert!(greens(&lights) <= 1);
        now += 1;
    }
}

#[test]
fn visitation_order_skips_adjacent_conflicts() {
    assert_eq!(light_order(0), 2);
    assert_eq!(light_order(1), 0);
    assert_eq!(light_order(2), 3);
    assert_eq!(light_order(3), 1);
}
