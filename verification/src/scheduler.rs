//! The intersection scheduler: a cyclic two-phase state machine that
//! alternates a short all-red buffer with a demand-sized green phase for
//! one approach at a time.
//!
//! Time is an integer count of ticks, a tenth of a time-unit each; the
//! caller reads a monotonic clock once per tick and hands the same value
//! to every duration comparison of that tick.

use vstd::math::min;
use vstd::prelude::*;
use crate::geometry::{Dir, CENTER_X, CENTER_Y, QUEUE_RANGE};
use crate::signal::{Light, lights_wf, spec_light_dir, at_most_one_green};
use crate::vehicle::Car;

verus! {

/// Green time granted per queued vehicle, in ticks.
pub const MIN_GREEN_DURATION: i64 = 50;

/// Upper bound on one green phase, in ticks.
pub const MAX_GREEN_DURATION: i64 = 100;

/// Length of the all-red buffer between green phases, in ticks.
pub const ALL_RED_DURATION: i64 = 5;

/// The scheduler's mode: one approach green (or skipped when empty), or
/// the all-red buffer between approaches.
#[derive(Clone, Copy, Debug, PartialEq, Eq, Structural)]
pub enum Phase {
    Green,
    AllRed,
}

/// The fixed visitation order over the four approaches, chosen so that
/// conflicting approaches are not adjacent in the cycle.
pub open spec fn spec_light_order(slot: int) -> int {
    if slot == 0 {
        2
    } else if slot == 1 {
        0
    } else if slot == 2 {
        3
    } else {
        1
    }
}

pub fn light_order(slot: usize) -> (r: usize)
    requires
        slot < 4,
    ensures
        r == spec_light_order(slot as int),
        r < 4,
{
    if slot == 0 {
        2
    } else if slot == 1 {
        0
    } else if slot == 2 {
        3
    } else {
        1
    }
}

/// The vehicle counts toward approach direction `d`: it travels in `d`
/// and is within the queue range of the center, measured along its axis
/// of travel toward (and past) the center.
pub open spec fn spec_queued(c: Car, d: Dir) -> bool {
    c.dir == d && match d {
        Dir::Down => CENTER_Y - c.y < QUEUE_RANGE,
        Dir::Up => c.y - CENTER_Y < QUEUE_RANGE,
        Dir::Right => CENTER_X - c.x < QUEUE_RANGE,
        Dir::Left => c.x - CENTER_X < QUEUE_RANGE,
    }
}

/// How many vehicles are queued for direction `d`.
pub open spec fn spec_queued_count(cars: Seq<Car>, d: Dir) -> int
    decreases cars.len(),
{
    if cars.len() == 0 {
        0
    } else {
        spec_queued_count(cars.drop_last(), d) + if spec_queued(cars.last(), d) {
            1int
        } else {
            0int
        }
    }
}

/// Green time owed to direction `d`: one unit per queued vehicle, capped.
/// Zero when nothing is queued, so an empty approach's green phase is
/// skipped on the very next tick.
pub open spec fn spec_green_duration(cars: Seq<Car>, d: Dir) -> int {
    min(spec_queued_count(cars, d) * MIN_GREEN_DURATION, MAX_GREEN_DURATION as int)
}

proof fn lemma_queued_count_bounds(cars: Seq<Car>, d: Dir)
    ensures
        0 <= spec_queued_count(cars, d) <= cars.len(),
    decreases cars.len(),
{
    if cars.len() > 0 {
        lemma_queued_count_bounds(cars.drop_last(), d);
    }
}

/// Demand for the approach served by light `green_idx`: counts the
/// vehicles travelling in that light's direction near the center and
/// converts the count to a capped green time.
pub fn calculate_green_duration(cars: &Vec<Car>, lights: &Vec<Light>, green_idx: usize) -> (r: i64)
    requires
        lights_wf(lights@),
        green_idx < 4,
        forall|i: int| 0 <= i < cars@.len() ==> (#[trigger] cars@[i]).wf(),
    ensures
        r == spec_green_duration(cars@, lights@[green_idx as int].dir),
        0 <= r <= MAX_GREEN_DURATION,
{
    let d = lights[green_idx].dir;
    let mut count: usize = 0;
    let mut i: usize = 0;
    while i < cars.len()
        invariant
            0 <= i <= cars@.len(),
            count <= i,
            count == spec_queued_count(cars@.take(i as int), d),
            forall|j: int| 0 <= j < cars@.len() ==> (#[trigger] cars@[j]).wf(),
        decreases cars@.len() - i,
    {
        let c = cars[i];
        proof {
            assert(cars@.take(i as int + 1).drop_last() =~= cars@.take(i as int));
            assert(cars@.take(i as int + 1).last() == cars@[i as int]);
        }
        let near = if c.dir == d {
            match d {
                Dir::Down => CENTER_Y - c.y < QUEUE_RANGE,
                Dir::Up => c.y - CENTER_Y < QUEUE_RANGE,
                Dir::Right => CENTER_X - c.x < QUEUE_RANGE,
                Dir::Left => c.x - CENTER_X < QUEUE_RANGE,
            }
        } else {
            false
        };
        if near {
            count = count + 1;
        }
        i = i + 1;
    }
    proof {
        assert(cars@.take(cars@.len() as int) =~= cars@);
        lemma_queued_count_bounds(cars@, d);
    }
    if count >= 2 {
        MAX_GREEN_DURATION
    } else if count == 1 {
        MIN_GREEN_DURATION
    } else {
        0
    }
}

/// Every signal red, positions and directions kept.
pub open spec fn spec_all_red(lights: Seq<Light>) -> Seq<Light> {
    Seq::new(lights.len(), |i: int| Light { green: false, ..lights[i] })
}

/// Exactly the signal at `gi` green when `on` holds, all others red.
pub open spec fn spec_green_only(lights: Seq<Light>, gi: int, on: bool) -> Seq<Light> {
    Seq::new(lights.len(), |i: int| Light { green: i == gi && on, ..lights[i] })
}

/// The scheduler transition: the next scheduler state and signal set for
/// one tick at time `now` with the given vehicles.
pub open spec fn spec_update(s: Scheduler, lights: Seq<Light>, cars: Seq<Car>, now: i64) -> (
    Scheduler,
    Seq<Light>,
) {
    match s.phase {
        Phase::Green => {
            let gi = spec_light_order(s.slot as int);
            let dur = spec_green_duration(cars, spec_light_dir(gi));
            if now - s.last_switch >= dur {
                (Scheduler { phase: Phase::AllRed, last_switch: now, ..s }, spec_all_red(lights))
            } else {
                (s, lights)
            }
        },
        Phase::AllRed => {
            if now - s.last_switch >= ALL_RED_DURATION {
                let slot = (((s.slot + 1) % 4) as usize);
                let gi = spec_light_order(slot as int);
                let dur = spec_green_duration(cars, spec_light_dir(gi));
                (
                    Scheduler { phase: Phase::Green, slot, last_switch: now },
                    spec_green_only(lights, gi, dur != 0),
                )
            } else {
                (s, lights)
            }
        },
    }
}

/// Mutual exclusion: if at most one signal was green, then after any
/// scheduler tick at most one signal is green.
pub proof fn lemma_mutual_exclusion(s: Scheduler, lights: Seq<Light>, cars: Seq<Car>, now: i64)
    requires
        at_most_one_green(lights),
    ensures
        at_most_one_green(spec_update(s, lights, cars, now).1),
{
}

/// Phase timing: while the green time owed to the current approach has
/// not yet elapsed, a tick changes neither the scheduler nor any signal,
/// so a signal turned green stays green until the computed duration has
/// passed.
pub proof fn lemma_phase_timing(s: Scheduler, lights: Seq<Light>, cars: Seq<Car>, now: i64)
    requires
        s.phase == Phase::Green,
        now - s.last_switch < spec_green_duration(
            cars,
            spec_light_dir(spec_light_order(s.slot as int)),
        ),
    ensures
        spec_update(s, lights, cars, now) == (s, lights),
{
}

/// An approach with no queued vehicles is owed no green time, so its
/// green phase ends on the first tick at or after the phase change.
pub proof fn lemma_empty_green_skipped(s: Scheduler, lights: Seq<Light>, cars: Seq<Car>, now: i64)
    requires
        s.phase == Phase::Green,
        now >= s.last_switch,
        spec_green_duration(cars, spec_light_dir(spec_light_order(s.slot as int))) == 0,
    ensures
        spec_update(s, lights, cars, now).0.phase == Phase::AllRed,
        forall|i: int|
            0 <= i < lights.len() ==> !(#[trigger] spec_update(s, lights, cars, now).1[i]).green,
{
}

/// Entering a green phase for an approach with no queued vehicles turns
/// no signal green: the whole phase passes dark.
pub proof fn lemma_empty_phase_no_green(s: Scheduler, lights: Seq<Light>, cars: Seq<Car>, now: i64)
    requires
        s.phase == Phase::AllRed,
        now - s.last_switch >= ALL_RED_DURATION,
        spec_green_duration(
            cars,
            spec_light_dir(spec_light_order(((s.slot + 1) % 4) as int)),
        ) == 0,
    ensures
        spec_update(s, lights, cars, now).0.phase == Phase::Green,
        forall|i: int|
            0 <= i < lights.len() ==> !(#[trigger] spec_update(s, lights, cars, now).1[i]).green,
{
}

/// The scheduler's cross-tick state: the current phase, the current slot
/// in the visitation order, and the time of the last phase change.
pub struct Scheduler {
    pub phase: Phase,
    pub slot: usize,
    pub last_switch: i64,
}

impl Scheduler {
    pub open spec fn wf(self) -> bool {
        &&& self.slot < 4
        &&& self.last_switch >= 0
    }

    /// Startup state: the all-red buffer, first slot, clock at zero.
    pub fn new() -> (s: Scheduler)
        ensures
            s.wf(),
            s.phase == Phase::AllRed,
            s.slot == 0,
            s.last_switch == 0,
    {
        Scheduler { phase: Phase::AllRed, slot: 0, last_switch: 0 }
    }

    /// One scheduler tick.
    ///
    /// In the green phase, once the elapsed time reaches the green time
    /// owed to the current approach (re-measured against the vehicles of
    /// this tick), every signal goes red and the all-red buffer begins;
    /// before that nothing changes, so a green signal stays green for the
    /// full computed duration. In the all-red buffer, once the buffer
    /// time has elapsed the cycle advances one slot and the next approach
    /// turns green — unless it has no queued vehicles, in which case no
    /// signal turns green and the empty phase times out instantly.
    pub fn update(&mut self, lights: &mut Vec<Light>, cars: &Vec<Car>, now: i64)
        requires
            old(self).wf(),
            lights_wf(old(lights)@),
            now >= 0,
            forall|i: int| 0 <= i < cars@.len() ==> (#[trigger] cars@[i]).wf(),
        ensures
            final(self).wf(),
            lights_wf(final(lights)@),
            *final(self) == spec_update(*old(self), old(lights)@, cars@, now).0,
            final(lights)@ == spec_update(*old(self), old(lights)@, cars@, now).1,
    {
        match self.phase {
            Phase::Green => {
                let green_idx = light_order(self.slot);
                let green_duration = calculate_green_duration(cars, lights, green_idx);
                if now - self.last_switch >= green_duration {
                    self.phase = Phase::AllRed;
                    self.last_switch = now;
                    set_all_red(lights);
                }
            },
            Phase::AllRed => {
                if now - self.last_switch >= ALL_RED_DURATION {
                    self.slot = (self.slot + 1) % 4;
                    let green_idx = light_order(self.slot);
                    self.phase = Phase::Green;
                    self.last_switch = now;
                    let green_duration = calculate_green_duration(cars, lights, green_idx);
                    set_green(lights, green_idx, green_duration != 0);
                }
            },
        }
    }
}

/// Turn every signal red, leaving positions and directions alone.
fn set_all_red(lights: &mut Vec<Light>)
    requires
        lights_wf(old(lights)@),
    ensures
        lights_wf(final(lights)@),
        final(lights)@ == spec_all_red(old(lights)@),
{
    let ghost orig = lights@;
    let mut i: usize = 0;
    while i < lights.len()
        invariant
            lights@.len() == 4,
            orig.len() == 4,
            lights_wf(lights@),
            0 <= i <= 4,
            forall|j: int| 0 <= j < i ==> lights@[j] == (Light { green: false, ..orig[j] }),
            forall|j: int| i <= j < 4 ==> lights@[j] == orig[j],
        decreases lights@.len() - i,
    {
        let old_light = lights[i];
        lights[i] = Light { green: false, ..old_light };
        i = i + 1;
    }
    assert(lights@ =~= spec_all_red(orig));
}

/// Make exactly the signal at `green_idx` green when `on` holds, and
/// every other signal red.
fn set_green(lights: &mut Vec<Light>, green_idx: usize, on: bool)
    requires
        lights_wf(old(lights)@),
        green_idx < 4,
    ensures
        lights_wf(final(lights)@),
        final(lights)@ == spec_green_only(old(lights)@, green_idx as int, on),
{
    let ghost orig = lights@;
    let mut i: usize = 0;
    while i < lights.len()
        invariant
            lights@.len() == 4,
            orig.len() == 4,
            lights_wf(lights@),
            green_idx < 4,
            0 <= i <= 4,
            forall|j: int|
                0 <= j < i ==> lights@[j] == (Light {
                    green: j == green_idx && on,
                    ..orig[j]
                }),
            forall|j: int| i <= j < 4 ==> lights@[j] == orig[j],
        decreases lights@.len() - i,
    {
        let old_light = lights[i];
        lights[i] = Light { green: i == green_idx && on, ..old_light };
        i = i + 1;
    }
    assert(lights@ =~= spec_green_only(orig, green_idx as int, on));
}

} // verus!
