//! The signal model: exactly four lights, one per approach, each governing
//! the vehicles that travel in its facing direction. Only the scheduler
//! ever changes a light's `green` flag.

use vstd::prelude::*;
use crate::geometry::{Dir, CELL, CENTER_X, CENTER_Y};

verus! {

/// One approach light: a fixed position and facing direction, and the
/// green/red state the scheduler drives.
#[derive(Clone, Copy, Debug, PartialEq, Eq, Structural)]
pub struct Light {
    pub x: i32,
    pub y: i32,
    pub green: bool,
    pub dir: Dir,
}

/// The fixed facing direction of the light at each index.
pub open spec fn spec_light_dir(i: int) -> Dir {
    if i == 0 {
        Dir::Down
    } else if i == 1 {
        Dir::Left
    } else if i == 2 {
        Dir::Right
    } else {
        Dir::Up
    }
}

/// The index of the light that governs direction `d`.
pub open spec fn spec_dir_index(d: Dir) -> int {
    match d {
        Dir::Down => 0,
        Dir::Left => 1,
        Dir::Right => 2,
        Dir::Up => 3,
    }
}

pub fn dir_index(d: Dir) -> (r: usize)
    ensures
        r == spec_dir_index(d),
        r < 4,
{
    match d {
        Dir::Down => 0,
        Dir::Left => 1,
        Dir::Right => 2,
        Dir::Up => 3,
    }
}

/// The fixed corner position of the light at each index.
pub open spec fn spec_light_x(i: int) -> int {
    if i == 0 || i == 2 {
        CENTER_X - 2 * CELL
    } else {
        CENTER_X + CELL
    }
}

pub open spec fn spec_light_y(i: int) -> int {
    if i == 0 || i == 1 {
        CENTER_Y - 2 * CELL
    } else {
        CENTER_Y + CELL
    }
}

/// Well-formed signal set: exactly four lights, each at its fixed corner
/// and facing its fixed direction. Only `green` varies over time.
pub open spec fn lights_wf(lights: Seq<Light>) -> bool {
    &&& lights.len() == 4
    &&& forall|i: int|
        0 <= i < 4 ==> {
            &&& (#[trigger] lights[i]).dir == spec_light_dir(i)
            &&& lights[i].x == spec_light_x(i)
            &&& lights[i].y == spec_light_y(i)
        }
}

/// At most one of the four signals is green.
pub open spec fn at_most_one_green(lights: Seq<Light>) -> bool {
    forall|i: int, j: int|
        0 <= i < lights.len() && 0 <= j < lights.len() && (#[trigger] lights[i]).green
            && (#[trigger] lights[j]).green ==> i == j
}

/// The four lights at startup: fixed corners, all red.
pub fn new_lights() -> (lights: Vec<Light>)
    ensures
        lights_wf(lights@),
        forall|i: int| 0 <= i < 4 ==> !(#[trigger] lights@[i]).green,
        at_most_one_green(lights@),
{
    let mut lights: Vec<Light> = Vec::new();
    lights.push(Light { x: CENTER_X - 2 * CELL, y: CENTER_Y - 2 * CELL, green: false, dir: Dir::Down });
    lights.push(Light { x: CENTER_X + CELL, y: CENTER_Y - 2 * CELL, green: false, dir: Dir::Left });
    lights.push(Light { x: CENTER_X - 2 * CELL, y: CENTER_Y + CELL, green: false, dir: Dir::Right });
    lights.push(Light { x: CENTER_X + CELL, y: CENTER_Y + CELL, green: false, dir: Dir::Up });
    lights
}

} // verus!
