//! The traffic controller: the per-tick pass over every vehicle
//! (stop-line compliance, minimum-gap enforcement, forward motion, turn
//! execution) and the pruning of vehicles that left the visible area.
//!
//! Gap checks read a snapshot of all vehicles taken before any vehicle
//! moves, so a vehicle's decision never depends on how many vehicles
//! before it in the list already moved this tick.

use vstd::prelude::*;
use crate::geometry::Dir;
use crate::signal::{Light, lights_wf, spec_dir_index, dir_index};
use crate::vehicle::{Car, spec_blocks, spec_too_close, car_too_close};

verus! {

/// The vehicle must halt this tick: the light governing its direction is
/// red and the vehicle stands exactly on its stop line.
pub open spec fn spec_should_stop(car: Car, lights: Seq<Light>) -> bool {
    &&& !lights[spec_dir_index(car.dir)].green
    &&& car.spec_at_stop_line()
}

pub fn should_stop_at_light(car: &Car, lights: &Vec<Light>) -> (r: bool)
    requires
        lights_wf(lights@),
    ensures
        r == spec_should_stop(*car, lights@),
{
    let light = lights[dir_index(car.dir)];
    !light.green && car.at_stop_line()
}

/// One vehicle's tick: it stays put if held at a red stop line or blocked
/// by the vehicle ahead in the snapshot; otherwise it advances one step
/// and then takes its single turn opportunity.
pub open spec fn spec_step_car(c: Car, snapshot: Seq<Car>, lights: Seq<Light>) -> Car {
    if spec_should_stop(c, lights) || spec_too_close(c, snapshot) {
        c
    } else {
        let moved = Car { x: (c.x + c.dir.spec_dx()) as i32, y: (c.y + c.dir.spec_dy()) as i32, ..c };
        moved.spec_try_turn()
    }
}

/// The whole fleet after one controller pass against a common snapshot.
pub open spec fn spec_advance(cars: Seq<Car>, lights: Seq<Light>) -> Seq<Car> {
    Seq::new(cars.len(), |i: int| spec_step_car(cars[i], cars, lights))
}

/// One controller pass over every vehicle, all gap checks made against
/// the pre-tick snapshot.
pub fn advance_cars(cars: &mut Vec<Car>, lights: &Vec<Light>)
    requires
        lights_wf(lights@),
        forall|i: int| 0 <= i < old(cars)@.len() ==> (#[trigger] old(cars)@[i]).spec_in_view(),
    ensures
        final(cars)@ == spec_advance(old(cars)@, lights@),
        forall|i: int| 0 <= i < final(cars)@.len() ==> (#[trigger] final(cars)@[i]).wf(),
{
    let ghost orig = cars@;
    let snapshot = cars.clone();
    assert(snapshot@ =~= orig);
    let n = cars.len();
    let mut i: usize = 0;
    while i < n
        invariant
            n == orig.len(),
            cars@.len() == n,
            snapshot@ == orig,
            lights_wf(lights@),
            forall|j: int| 0 <= j < n ==> (#[trigger] orig[j]).spec_in_view(),
            forall|j: int| 0 <= j < i ==> cars@[j] == spec_step_car(orig[j], orig, lights@),
            forall|j: int| 0 <= j < i ==> (#[trigger] cars@[j]).wf(),
            forall|j: int| i <= j < n ==> cars@[j] == orig[j],
        decreases n - i,
    {
        let c = cars[i];
        if !(should_stop_at_light(&c, lights) || car_too_close(&c, &snapshot)) {
            let mut m = c;
            m.x = m.x + c.dir.dx();
            m.y = m.y + c.dir.dy();
            m.try_turn();
            cars[i] = m;
        }
        i = i + 1;
    }
    assert(cars@ =~= spec_advance(orig, lights@));
}

/// The pruning predicate: a vehicle is kept while strictly inside the
/// visible bounds plus one cell of margin.
pub open spec fn in_view_pred() -> spec_fn(Car) -> bool {
    |c: Car| c.spec_in_view()
}

/// Remove every vehicle outside the visible bounds plus one cell of
/// margin; vehicles strictly inside stay, in their original order.
pub fn prune_cars(cars: &mut Vec<Car>)
    ensures
        final(cars)@ == old(cars)@.filter(in_view_pred()),
        forall|i: int| 0 <= i < final(cars)@.len() ==> (#[trigger] final(cars)@[i]).spec_in_view(),
{
    let ghost orig = cars@;
    let ghost pred = in_view_pred();
    let mut kept: Vec<Car> = Vec::new();
    let n = cars.len();
    let mut i: usize = 0;
    proof {
        reveal(Seq::filter);
        assert(kept@ =~= orig.take(0).filter(pred));
    }
    while i < n
        invariant
            n == orig.len(),
            cars@ == orig,
            kept@ == orig.take(i as int).filter(pred),
            pred == in_view_pred(),
            forall|j: int| 0 <= j < kept@.len() ==> (#[trigger] kept@[j]).spec_in_view(),
            0 <= i <= n,
        decreases n - i,
    {
        let c = cars[i];
        proof {
            reveal(Seq::filter);
            assert(orig.take(i as int + 1).drop_last() =~= orig.take(i as int));
            assert(orig.take(i as int + 1).last() == orig[i as int]);
        }
        if c.in_view() {
            kept.push(c);
        }
        i = i + 1;
    }
    proof {
        reveal(Seq::filter);
        assert(orig.take(n as int) =~= orig);
    }
    *cars = kept;
}

/// Gap invariant: a vehicle with a same-direction vehicle ahead of it
/// within the minimum gap in the pre-tick snapshot does not move that
/// tick; equivalently, a vehicle that moved had at least the minimum gap
/// to every laterally aligned vehicle ahead of it at the start of the
/// tick.
pub proof fn lemma_gap_respected(cars: Seq<Car>, lights: Seq<Light>, i: int, j: int)
    requires
        0 <= i < cars.len(),
        0 <= j < cars.len(),
        spec_blocks(cars[i], cars[j]),
    ensures
        spec_advance(cars, lights)[i] == cars[i],
{
    assert(spec_too_close(cars[i], cars));
}

/// Single turn: one controller step never changes the direction of a
/// vehicle whose turn is already taken, never clears the turn-completed
/// flag, and changes a direction only by completing the turn — so a
/// vehicle's direction changes at most once over its lifetime.
pub proof fn lemma_single_turn(c: Car, snapshot: Seq<Car>, lights: Seq<Light>)
    ensures
        c.turned ==> spec_step_car(c, snapshot, lights).dir == c.dir,
        c.turned ==> spec_step_car(c, snapshot, lights).turned,
        spec_step_car(c, snapshot, lights).dir != c.dir ==> !c.turned && spec_step_car(
            c,
            snapshot,
            lights,
        ).turned,
{
}

/// Boundary removal: a vehicle outside the visible bounds plus margin is
/// not in the pruned fleet.
pub proof fn lemma_boundary_removal(cars: Seq<Car>, c: Car)
    requires
        !c.spec_in_view(),
    ensures
        !cars.filter(in_view_pred()).contains(c),
{
    let kept = cars.filter(in_view_pred());
    if kept.contains(c) {
        let i = choose|i: int| 0 <= i < kept.len() && kept[i] == c;
        cars.lemma_filter_pred(in_view_pred(), i);
    }
}

} // verus!
