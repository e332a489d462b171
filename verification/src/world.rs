//! The owned simulation state and the per-tick pipeline: prune vehicles
//! that left the area, run the scheduler, admit the tick's spawn
//! requests, then advance every vehicle against a common snapshot.

use vstd::prelude::*;
use crate::controller::{advance_cars, prune_cars, spec_advance, in_view_pred};
use crate::scheduler::{Phase, Scheduler, spec_update};
use crate::signal::{Light, lights_wf, at_most_one_green, new_lights};
use crate::spawner::{limiter_wf, spec_spawn_post, try_spawn};
use crate::vehicle::Car;

verus! {

/// What a tick's sequence of spawn requests does to the rate limiter and
/// the fleet: each request in order behaves as one spawn with some turn
/// intent (the intent of each accepted spawn is drawn at random).
pub open spec fn spec_requests_rel(
    sp0: Seq<Option<i64>>,
    cars0: Seq<Car>,
    requests: Seq<usize>,
    now: i64,
    sp1: Seq<Option<i64>>,
    cars1: Seq<Car>,
) -> bool
    decreases requests.len(),
{
    if requests.len() == 0 {
        sp1 == sp0 && cars1 == cars0
    } else {
        exists|t: crate::vehicle::Turns, spm: Seq<Option<i64>>, carsm: Seq<Car>|
            {
                &&& spec_spawn_post(sp0, cars0, spm, carsm, requests[0] as int, now, t)
                &&& spec_requests_rel(spm, carsm, requests.drop_first(), now, sp1, cars1)
            }
    }
}

proof fn lemma_requests_rel_snoc(
    sp0: Seq<Option<i64>>,
    cars0: Seq<Car>,
    requests: Seq<usize>,
    now: i64,
    sp1: Seq<Option<i64>>,
    cars1: Seq<Car>,
    r: usize,
    t: crate::vehicle::Turns,
    sp2: Seq<Option<i64>>,
    cars2: Seq<Car>,
)
    requires
        spec_requests_rel(sp0, cars0, requests, now, sp1, cars1),
        spec_spawn_post(sp1, cars1, sp2, cars2, r as int, now, t),
    ensures
        spec_requests_rel(sp0, cars0, requests.push(r), now, sp2, cars2),
    decreases requests.len(),
{
    if requests.len() == 0 {
        assert(requests.push(r).drop_first() =~= Seq::<usize>::empty());
        assert(spec_spawn_post(sp0, cars0, sp2, cars2, requests.push(r)[0] as int, now, t));
        assert(spec_requests_rel(sp2, cars2, requests.push(r).drop_first(), now, sp2, cars2));
    } else {
        let (t0, spm, carsm) = choose|
            t0: crate::vehicle::Turns,
            spm: Seq<Option<i64>>,
            carsm: Seq<Car>,
        |
            {
                &&& spec_spawn_post(sp0, cars0, spm, carsm, requests[0] as int, now, t0)
                &&& spec_requests_rel(spm, carsm, requests.drop_first(), now, sp1, cars1)
            };
        lemma_requests_rel_snoc(
            spm,
            carsm,
            requests.drop_first(),
            now,
            sp1,
            cars1,
            r,
            t,
            sp2,
            cars2,
        );
        assert(requests.push(r).drop_first() =~= requests.drop_first().push(r));
        assert(spec_spawn_post(sp0, cars0, spm, carsm, requests.push(r)[0] as int, now, t0));
        assert(spec_requests_rel(spm, carsm, requests.push(r).drop_first(), now, sp2, cars2));
    }
}

/// Admit this tick's spawn requests, in order, each through the
/// rate-limited, gap-checked spawner.
pub fn process_requests(
    last_spawn: &mut Vec<Option<i64>>,
    cars: &mut Vec<Car>,
    requests: &Vec<usize>,
    now: i64,
)
    requires
        limiter_wf(old(last_spawn)@),
        now >= 0,
        forall|i: int| 0 <= i < requests@.len() ==> (#[trigger] requests@[i]) < 4,
        forall|i: int| 0 <= i < old(cars)@.len() ==> (#[trigger] old(cars)@[i]).wf(),
    ensures
        limiter_wf(final(last_spawn)@),
        spec_requests_rel(
            old(last_spawn)@,
            old(cars)@,
            requests@,
            now,
            final(last_spawn)@,
            final(cars)@,
        ),
        forall|i: int| 0 <= i < final(cars)@.len() ==> (#[trigger] final(cars)@[i]).wf(),
        (forall|i: int| 0 <= i < old(cars)@.len() ==> (#[trigger] old(cars)@[i]).spec_in_view())
            ==> (forall|i: int|
            0 <= i < final(cars)@.len() ==> (#[trigger] final(cars)@[i]).spec_in_view()),
{
    let ghost sp0 = last_spawn@;
    let ghost cars0 = cars@;
    let ghost all_in_view = forall|i: int|
        0 <= i < cars@.len() ==> (#[trigger] cars@[i]).spec_in_view();
    let mut i: usize = 0;
    while i < requests.len()
        invariant
            limiter_wf(last_spawn@),
            now >= 0,
            0 <= i <= requests@.len(),
            forall|j: int| 0 <= j < requests@.len() ==> (#[trigger] requests@[j]) < 4,
            spec_requests_rel(sp0, cars0, requests@.take(i as int), now, last_spawn@, cars@),
            forall|j: int| 0 <= j < cars@.len() ==> (#[trigger] cars@[j]).wf(),
            all_in_view == (forall|j: int|
                0 <= j < cars0.len() ==> (#[trigger] cars0[j]).spec_in_view()),
            all_in_view ==> (forall|j: int|
                0 <= j < cars@.len() ==> (#[trigger] cars@[j]).spec_in_view()),
        decreases requests@.len() - i,
    {
        let ghost sp_before = last_spawn@;
        let ghost cars_before = cars@;
        let idx = requests[i];
        try_spawn(last_spawn, cars, idx, now);
        proof {
            let t = choose|t: crate::vehicle::Turns|
                spec_spawn_post(sp_before, cars_before, last_spawn@, cars@, idx as int, now, t);
            lemma_requests_rel_snoc(
                sp0,
                cars0,
                requests@.take(i as int),
                now,
                sp_before,
                cars_before,
                idx,
                t,
                last_spawn@,
                cars@,
            );
            assert(requests@.take(i as int).push(idx) =~= requests@.take(i as int + 1));
        }
        i = i + 1;
    }
    proof {
        assert(requests@.take(requests@.len() as int) =~= requests@);
    }
}

/// The whole simulation: the active vehicles, the four signals, the
/// scheduler, and the per-approach spawn rate limiter. A single owned
/// value of this type is threaded through the frame loop.
pub struct World {
    pub cars: Vec<Car>,
    pub lights: Vec<Light>,
    pub sched: Scheduler,
    pub last_spawn: Vec<Option<i64>>,
}

impl World {
    pub open spec fn wf(self) -> bool {
        &&& lights_wf(self.lights@)
        &&& at_most_one_green(self.lights@)
        &&& self.sched.wf()
        &&& limiter_wf(self.last_spawn@)
        &&& forall|i: int| 0 <= i < self.cars@.len() ==> (#[trigger] self.cars@[i]).wf()
    }

    /// The startup state: no vehicles, all signals red, the scheduler in
    /// its all-red buffer, no spawn recorded on any approach.
    pub fn new() -> (w: World)
        ensures
            w.wf(),
            w.cars@.len() == 0,
            w.sched.phase == Phase::AllRed,
            w.sched.slot == 0,
            w.sched.last_switch == 0,
            forall|i: int| 0 <= i < 4 ==> !(#[trigger] w.lights@[i]).green,
            forall|i: int| 0 <= i < 4 ==> (#[trigger] w.last_spawn@[i]) == Option::<i64>::None,
    {
        let last_spawn: Vec<Option<i64>> = vec![None, None, None, None];
        World { cars: Vec::new(), lights: new_lights(), sched: Scheduler::new(), last_spawn }
    }

    /// One frame of the simulation, at clock reading `now`, with the
    /// spawn requests the input shell collected this frame (one approach
    /// index per request).
    ///
    /// The pipeline runs in a fixed order: vehicles out of bounds are
    /// removed, the scheduler sees the pruned fleet and drives the
    /// signals, the spawn requests are admitted, and every vehicle then
    /// takes its step against a snapshot of the fleet and the new
    /// signals.
    pub fn tick(&mut self, now: i64, requests: &Vec<usize>)
        requires
            old(self).wf(),
            now >= 0,
            forall|i: int| 0 <= i < requests@.len() ==> (#[trigger] requests@[i]) < 4,
        ensures
            final(self).wf(),
            ({
                let pruned = old(self).cars@.filter(in_view_pred());
                let su = spec_update(old(self).sched, old(self).lights@, pruned, now);
                &&& final(self).sched == su.0
                &&& final(self).lights@ == su.1
                &&& exists|mid: Seq<Car>|
                    {
                        &&& spec_requests_rel(
                            old(self).last_spawn@,
                            pruned,
                            requests@,
                            now,
                            final(self).last_spawn@,
                            mid,
                        )
                        &&& final(self).cars@ == spec_advance(mid, su.1)
                    }
            }),
    {
        prune_cars(&mut self.cars);
        self.sched.update(&mut self.lights, &self.cars, now);
        proof {
            crate::scheduler::lemma_mutual_exclusion(
                old(self).sched,
                old(self).lights@,
                self.cars@,
                now,
            );
        }
        process_requests(&mut self.last_spawn, &mut self.cars, requests, now);
        let ghost mid = self.cars@;
        advance_cars(&mut self.cars, &self.lights);
    }
}

} // verus!
