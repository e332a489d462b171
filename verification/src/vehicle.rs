//! The vehicle model: position, direction, assigned turn intent, and the
//! per-vehicle rules of the road — the stop-line check, the turn
//! checkpoints, and the minimum-gap rule toward the vehicle ahead.

use vstd::prelude::*;
use crate::geometry::{Dir, CELL, MIN_GAP, STEP, WIDTH, HEIGHT, CENTER_X, CENTER_Y};

verus! {

/// A vehicle's assigned turn intent, chosen at spawn and never changed.
#[derive(Clone, Copy, Debug, PartialEq, Eq, Structural)]
pub enum Turns {
    Right,
    Left,
    Forward,
}

/// One vehicle. `turned` starts false and is set exactly once, when the
/// vehicle executes its assigned turn at its checkpoint.
#[derive(Clone, Copy, Debug, PartialEq, Eq, Structural)]
pub struct Car {
    pub x: i32,
    pub y: i32,
    pub dir: Dir,
    pub turn: Turns,
    pub turned: bool,
}

impl Car {
    /// Every live vehicle stays inside the visible area extended by one
    /// cell of margin plus at most one step taken since the last pruning.
    pub open spec fn wf(self) -> bool {
        &&& -(CELL + STEP) <= self.x <= WIDTH + CELL + STEP
        &&& -(CELL + STEP) <= self.y <= HEIGHT + CELL + STEP
    }

    /// Strictly inside the visible area plus one cell of margin: the
    /// pruning pass keeps exactly these vehicles.
    pub open spec fn spec_in_view(&self) -> bool {
        &&& -CELL < self.x < WIDTH + CELL
        &&& -CELL < self.y < HEIGHT + CELL
    }

    #[verifier::when_used_as_spec(spec_in_view)]
    pub fn in_view(&self) -> (r: bool)
        ensures
            r == self.spec_in_view(),
    {
        self.x > -CELL && self.x < WIDTH + CELL && self.y > -CELL && self.y < HEIGHT + CELL
    }

    /// The vehicle stands exactly on the stop line for its direction: a
    /// fixed offset from the center, checked by equality, so a vehicle
    /// short of or past the line is not held by a red light.
    pub open spec fn spec_at_stop_line(&self) -> bool {
        match self.dir {
            Dir::Down => self.y + 2 * CELL == CENTER_Y,
            Dir::Up => self.y - CELL == CENTER_Y,
            Dir::Right => self.x + 2 * CELL == CENTER_X,
            Dir::Left => self.x - CELL == CENTER_X,
        }
    }

    #[verifier::when_used_as_spec(spec_at_stop_line)]
    pub fn at_stop_line(&self) -> (r: bool)
        ensures
            r == self.spec_at_stop_line(),
    {
        match self.dir {
            Dir::Down => self.y == CENTER_Y - 2 * CELL,
            Dir::Up => self.y == CENTER_Y + CELL,
            Dir::Right => self.x == CENTER_X - 2 * CELL,
            Dir::Left => self.x == CENTER_X + CELL,
        }
    }

    /// The vehicle stands on the checkpoint at which its (direction,
    /// intent) pair executes its turn. The eight turning combinations
    /// share four checkpoints inside the intersection footprint.
    pub open spec fn spec_at_checkpoint(&self) -> bool {
        match (self.dir, self.turn) {
            (Dir::Right, Turns::Right) | (Dir::Down, Turns::Left) => {
                self.x == CENTER_X - CELL && self.y == CENTER_Y
            },
            (Dir::Left, Turns::Left) | (Dir::Down, Turns::Right) => {
                self.x == CENTER_X - CELL && self.y == CENTER_Y - CELL
            },
            (Dir::Left, Turns::Right) | (Dir::Up, Turns::Left) => {
                self.x == CENTER_X && self.y == CENTER_Y - CELL
            },
            (Dir::Up, Turns::Right) | (Dir::Right, Turns::Left) => {
                self.x == CENTER_X && self.y == CENTER_Y
            },
            _ => false,
        }
    }

    #[verifier::when_used_as_spec(spec_at_checkpoint)]
    pub fn at_checkpoint(&self) -> (r: bool)
        ensures
            r == self.spec_at_checkpoint(),
    {
        match (self.dir, self.turn) {
            (Dir::Right, Turns::Right) | (Dir::Down, Turns::Left) => {
                self.x == CENTER_X - CELL && self.y == CENTER_Y
            },
            (Dir::Left, Turns::Left) | (Dir::Down, Turns::Right) => {
                self.x == CENTER_X - CELL && self.y == CENTER_Y - CELL
            },
            (Dir::Left, Turns::Right) | (Dir::Up, Turns::Left) => {
                self.x == CENTER_X && self.y == CENTER_Y - CELL
            },
            (Dir::Up, Turns::Right) | (Dir::Right, Turns::Left) => {
                self.x == CENTER_X && self.y == CENTER_Y
            },
            _ => false,
        }
    }

    /// The vehicle after its single turn opportunity: a vehicle that
    /// already turned, or intends to go forward, or is not on its
    /// checkpoint, is unchanged; otherwise its direction rotates 90
    /// degrees toward its intent and `turned` becomes true.
    pub open spec fn spec_try_turn(self) -> Car {
        if self.turn == Turns::Forward || self.turned {
            self
        } else if self.spec_at_checkpoint() {
            Car {
                dir: if self.turn == Turns::Left {
                    self.dir.spec_left_turn()
                } else {
                    self.dir.spec_right_turn()
                },
                turned: true,
                ..self
            }
        } else {
            self
        }
    }

    pub fn try_turn(&mut self)
        ensures
            *final(self) == old(self).spec_try_turn(),
    {
        if self.turn == Turns::Forward || self.turned {
            return ;
        }
        if self.at_checkpoint() {
            self.dir = if self.turn == Turns::Left {
                self.dir.left_turn()
            } else {
                self.dir.right_turn()
            };
            self.turned = true;
        }
    }
}

/// `other` travels in the same lane direction as `car`, stands strictly
/// ahead of it, is laterally within one cell, and is nearer than the
/// minimum gap. A vehicle equal to `car` in every field is not counted:
/// the gap check runs against a snapshot that contains the vehicle itself.
pub open spec fn spec_blocks(car: Car, other: Car) -> bool {
    &&& other != car
    &&& other.dir == car.dir
    &&& {
        let dx = other.x - car.x;
        let dy = other.y - car.y;
        match car.dir {
            Dir::Down => dy > 0 && -CELL < dx < CELL && dy < MIN_GAP,
            Dir::Up => dy < 0 && -CELL < dx < CELL && -dy < MIN_GAP,
            Dir::Right => dx > 0 && -CELL < dy < CELL && dx < MIN_GAP,
            Dir::Left => dx < 0 && -CELL < dy < CELL && -dx < MIN_GAP,
        }
    }
}

/// Some vehicle in `others` blocks `car` under the minimum-gap rule.
pub open spec fn spec_too_close(car: Car, others: Seq<Car>) -> bool {
    exists|i: int| 0 <= i < others.len() && spec_blocks(car, others[i])
}

/// Minimum-gap check of one vehicle against a snapshot of all vehicles.
pub fn car_too_close(car: &Car, others: &Vec<Car>) -> (r: bool)
    requires
        car.wf(),
        forall|i: int| 0 <= i < others@.len() ==> others@[i].wf(),
    ensures
        r == spec_too_close(*car, others@),
{
    let mut i: usize = 0;
    while i < others.len()
        invariant
            0 <= i <= others@.len(),
            car.wf(),
            forall|j: int| 0 <= j < others@.len() ==> others@[j].wf(),
            forall|j: int| 0 <= j < i ==> !spec_blocks(*car, others@[j]),
        decreases others@.len() - i,
    {
        let other = others[i];
        if other != *car && other.dir == car.dir {
            let dx = other.x - car.x;
            let dy = other.y - car.y;
            let hit = match car.dir {
                Dir::Down => dy > 0 && -CELL < dx && dx < CELL && dy < MIN_GAP,
                Dir::Up => dy < 0 && -CELL < dx && dx < CELL && -dy < MIN_GAP,
                Dir::Right => dx > 0 && -CELL < dy && dy < CELL && dx < MIN_GAP,
                Dir::Left => dx < 0 && -CELL < dy && dy < CELL && -dx < MIN_GAP,
            };
            if hit {
                assert(spec_blocks(*car, others@[i as int]));
                return true;
            }
        }
        i = i + 1;
    }
    false
}

} // verus!
