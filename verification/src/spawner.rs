//! The spawner: rate-limited vehicle creation per approach. A spawn is
//! rejected while the approach's cooldown runs, and dropped when the new
//! vehicle would violate the minimum-gap rule — though a dropped spawn
//! still consumes its cooldown.

use vstd::prelude::*;
use rand::seq::SliceRandom;
use crate::geometry::{Dir, CELL, WIDTH, HEIGHT, CENTER_X, CENTER_Y};
use crate::vehicle::{Car, Turns, spec_too_close, car_too_close};

verus! {

/// Minimum number of ticks between two accepted spawn requests on one
/// approach.
pub const MIN_SPAWN_DELAY: i64 = 3;

/// Entry x coordinate of the approach at each index.
pub open spec fn spec_spawn_x(i: int) -> int {
    if i == 0 {
        CENTER_X - CELL
    } else if i == 1 {
        CENTER_X as int
    } else if i == 2 {
        0
    } else {
        WIDTH - CELL
    }
}

/// Entry y coordinate of the approach at each index.
pub open spec fn spec_spawn_y(i: int) -> int {
    if i == 0 {
        0
    } else if i == 1 {
        HEIGHT - CELL
    } else if i == 2 {
        CENTER_Y as int
    } else {
        CENTER_Y - CELL
    }
}

/// Travel direction of vehicles entering at each approach index.
pub open spec fn spec_spawn_dir(i: int) -> Dir {
    if i == 0 {
        Dir::Down
    } else if i == 1 {
        Dir::Up
    } else if i == 2 {
        Dir::Right
    } else {
        Dir::Left
    }
}

/// Fixed entry point and direction of an approach.
pub fn spawn_point(index: usize) -> (r: (i32, i32, Dir))
    requires
        index < 4,
    ensures
        r.0 == spec_spawn_x(index as int),
        r.1 == spec_spawn_y(index as int),
        r.2 == spec_spawn_dir(index as int),
{
    if index == 0 {
        (CENTER_X - CELL, 0, Dir::Down)
    } else if index == 1 {
        (CENTER_X, HEIGHT - CELL, Dir::Up)
    } else if index == 2 {
        (0, CENTER_Y, Dir::Right)
    } else {
        (WIDTH - CELL, CENTER_Y - CELL, Dir::Left)
    }
}

/// The vehicle a spawn on `index` with intent `t` creates: at the entry
/// point, facing the approach's direction, turn not yet taken.
pub open spec fn spec_new_car(i: int, t: Turns) -> Car {
    Car {
        x: spec_spawn_x(i) as i32,
        y: spec_spawn_y(i) as i32,
        dir: spec_spawn_dir(i),
        turn: t,
        turned: false,
    }
}

/// Well-formed rate limiter: one slot per approach, and every recorded
/// spawn time is a valid (non-negative) clock reading.
pub open spec fn limiter_wf(last_spawn: Seq<Option<i64>>) -> bool {
    &&& last_spawn.len() == 4
    &&& forall|i: int|
        0 <= i < 4 ==> match #[trigger] last_spawn[i] {
            Some(t) => t >= 0,
            None => true,
        }
}

/// The approach's cooldown still runs: it has a recorded spawn time less
/// than the minimum delay ago.
pub open spec fn spec_rate_blocked(last_spawn: Seq<Option<i64>>, index: int, now: i64) -> bool {
    match last_spawn[index] {
        Some(last) => now - last < MIN_SPAWN_DELAY,
        None => false,
    }
}

/// What one spawn request with intent `t` does: nothing while the
/// cooldown runs; otherwise the cooldown restarts, and the new vehicle
/// joins the fleet unless a same-direction vehicle blocks its entry
/// point under the minimum-gap rule.
pub open spec fn spec_spawn_post(
    sp0: Seq<Option<i64>>,
    cars0: Seq<Car>,
    sp1: Seq<Option<i64>>,
    cars1: Seq<Car>,
    index: int,
    now: i64,
    t: Turns,
) -> bool {
    if spec_rate_blocked(sp0, index, now) {
        sp1 == sp0 && cars1 == cars0
    } else {
        let c = spec_new_car(index, t);
        &&& sp1 == sp0.update(index, Some(now))
        &&& cars1 == if spec_too_close(c, cars0) {
            cars0
        } else {
            cars0.push(c)
        }
    }
}

/// One spawn request with a caller-chosen turn intent.
pub fn try_spawn_with_turn(
    last_spawn: &mut Vec<Option<i64>>,
    cars: &mut Vec<Car>,
    index: usize,
    now: i64,
    turn: Turns,
)
    requires
        limiter_wf(old(last_spawn)@),
        index < 4,
        now >= 0,
        forall|i: int| 0 <= i < old(cars)@.len() ==> (#[trigger] old(cars)@[i]).wf(),
    ensures
        limiter_wf(final(last_spawn)@),
        spec_spawn_post(
            old(last_spawn)@,
            old(cars)@,
            final(last_spawn)@,
            final(cars)@,
            index as int,
            now,
            turn,
        ),
        forall|i: int| 0 <= i < final(cars)@.len() ==> (#[trigger] final(cars)@[i]).wf(),
        (forall|i: int| 0 <= i < old(cars)@.len() ==> (#[trigger] old(cars)@[i]).spec_in_view())
            ==> (forall|i: int|
            0 <= i < final(cars)@.len() ==> (#[trigger] final(cars)@[i]).spec_in_view()),
{
    if let Some(last) = last_spawn[index] {
        if now - last < MIN_SPAWN_DELAY {
            return ;
        }
    }
    let point = spawn_point(index);
    let ncar = Car { x: point.0, y: point.1, dir: point.2, turn, turned: false };
    assert(ncar.spec_in_view());
    if !car_too_close(&ncar, cars) {
        cars.push(ncar);
    }
    last_spawn[index] = Some(now);
}

/// Relies on rand's `SliceRandom::choose` over `thread_rng`: on a
/// non-empty slice it returns one of the elements; which one depends on
/// the generator's state, so nothing is promised of the result.
#[verifier::external_body]
fn random_turn() -> Turns {
    let options = [Turns::Right, Turns::Left, Turns::Forward];
    match options.choose(&mut rand::thread_rng()) {
        Some(t) => *t,
        None => Turns::Forward,
    }
}

/// One spawn request with the turn intent drawn at random, as the input
/// shell uses it. The cooldown is checked first, so a rate-blocked
/// request draws no intent; whatever intent comes back, the outcome is a
/// spawn with that intent.
pub fn try_spawn(last_spawn: &mut Vec<Option<i64>>, cars: &mut Vec<Car>, index: usize, now: i64)
    requires
        limiter_wf(old(last_spawn)@),
        index < 4,
        now >= 0,
        forall|i: int| 0 <= i < old(cars)@.len() ==> (#[trigger] old(cars)@[i]).wf(),
    ensures
        limiter_wf(final(last_spawn)@),
        exists|t: Turns|
            spec_spawn_post(
                old(last_spawn)@,
                old(cars)@,
                final(last_spawn)@,
                final(cars)@,
                index as int,
                now,
                t,
            ),
        forall|i: int| 0 <= i < final(cars)@.len() ==> (#[trigger] final(cars)@[i]).wf(),
        (forall|i: int| 0 <= i < old(cars)@.len() ==> (#[trigger] old(cars)@[i]).spec_in_view())
            ==> (forall|i: int|
            0 <= i < final(cars)@.len() ==> (#[trigger] final(cars)@[i]).spec_in_view()),
{
    if let Some(last) = last_spawn[index] {
        if now - last < MIN_SPAWN_DELAY {
            assert(spec_spawn_post(
                last_spawn@,
                cars@,
                last_spawn@,
                cars@,
                index as int,
                now,
                Turns::Forward,
            ));
            return ;
        }
    }
    let turn = random_turn();
    try_spawn_with_turn(last_spawn, cars, index, now, turn);
}

} // verus!
