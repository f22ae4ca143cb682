//! The grid-world state space.
//!
//! States are discrete coordinates on a `width × height` grid. Eight fixed
//! actions (four orthogonal, four diagonal moves) take a coordinate to a
//! neighbour, clamped to the grid bounds: hitting a wall simply leaves the
//! agent on the boundary, with no wrap-around. A fixed sparse reward lookup
//! pays off at five goal coordinates and yields zero everywhere else.

use core::ops::Range;
use vstd::prelude::*;

verus! {

/// The number of distinct actions: four orthogonal and four diagonal moves.
pub const ACTION_COUNT: usize = 8;

/// A discrete grid coordinate.
#[derive(Clone, Copy, Debug, PartialEq, Eq, Structural)]
pub struct Coord {
    pub x: usize,
    pub y: usize,
}

/// The horizontal offset of an action, in the fixed enumeration order of the
/// eight moves.
pub open spec fn action_dx(action: int) -> int {
    if action == 1 || action == 4 || action == 5 {
        1
    } else if action == 3 || action == 6 || action == 7 {
        -1
    } else {
        0
    }
}

/// The vertical offset of an action, in the same enumeration order.
pub open spec fn action_dy(action: int) -> int {
    if action == 0 || action == 4 || action == 6 {
        1
    } else if action == 2 || action == 5 || action == 7 {
        -1
    } else {
        0
    }
}

/// One position moved by one offset and clamped into `[0, bound)`.
pub open spec fn clamped(pos: int, delta: int, bound: int) -> int {
    let moved = pos + delta;
    if moved < 0 {
        0
    } else if moved > bound - 1 {
        bound - 1
    } else {
        moved
    }
}

impl Coord {
    /// Draws a uniformly random coordinate with `x` in `m` and `y` in `n`.
    pub fn random(m: Range<usize>, n: Range<usize>, rng: &mut rand::rngs::ThreadRng) -> (c: Coord)
        requires
            m.start < m.end,
            n.start < n.end,
        ensures
            m.start <= c.x < m.end,
            n.start <= c.y < n.end,
    {
        Coord { x: crate::rng::gen_index(rng, m.start, m.end), y: crate::rng::gen_index(rng, n.start, n.end) }
    }

    /// Applies one of the eight moves to this coordinate, clamping the result
    /// to the grid bounds: the successor never leaves
    /// `[0, width) × [0, height)`.
    pub fn apply_action(&self, action: usize, width: usize, height: usize) -> (c: Coord)
        requires
            action < ACTION_COUNT,
            0 < width,
            0 < height,
            self.x < width,
            self.y < height,
        ensures
            c.x == clamped(self.x as int, action_dx(action as int), width as int),
            c.y == clamped(self.y as int, action_dy(action as int), height as int),
            c.x < width,
            c.y < height,
    {
        let x = if action == 1 || action == 4 || action == 5 {
            if self.x + 1 >= width {
                width - 1
            } else {
                self.x + 1
            }
        } else if action == 3 || action == 6 || action == 7 {
            if self.x == 0 {
                0
            } else {
                self.x - 1
            }
        } else {
            self.x
        };
        let y = if action == 0 || action == 4 || action == 6 {
            if self.y + 1 >= height {
                height - 1
            } else {
                self.y + 1
            }
        } else if action == 2 || action == 5 || action == 7 {
            if self.y == 0 {
                0
            } else {
                self.y - 1
            }
        } else {
            self.y
        };
        Coord { x, y }
    }
}

/// The fixed reward lookup: five goal coordinates with their payoffs, zero
/// anywhere else.
pub open spec fn spec_reward(c: Coord) -> u64 {
    if c.x == 1 && c.y == 1 {
        25
    } else if c.x == 1 && c.y == 18 {
        20
    } else if c.x == 18 && c.y == 18 {
        15
    } else if c.x == 18 && c.y == 1 {
        10
    } else if c.x == 10 && c.y == 10 {
        5
    } else {
        0
    }
}

/// The terminal reward of a state: each configured goal coordinate pays its
/// fixed amount, and every other coordinate pays zero.
pub fn reward(state: &Coord) -> (r: u64)
    ensures
        r == spec_reward(*state),
{
    match *state {
        Coord { x: 1, y: 1 } => 25,
        Coord { x: 1, y: 18 } => 20,
        Coord { x: 18, y: 18 } => 15,
        Coord { x: 18, y: 1 } => 10,
        Coord { x: 10, y: 10 } => 5,
        _ => 0,
    }
}

/// True exactly when every goal coordinate of the reward lookup lies inside a
/// `width × height` grid; a goal outside the grid is a configuration error,
/// since it could never be reached.
pub fn goals_within(width: usize, height: usize) -> (b: bool)
    ensures
        b == forall|c: Coord| #[trigger] spec_reward(c) != 0 ==> c.x < width && c.y < height,
{
    let b = 18 < width && 18 < height;
    proof {
        if b {
            assert forall|c: Coord| #[trigger] spec_reward(c) != 0 implies c.x < width && c.y
                < height by {};
        } else {
            assert(spec_reward(Coord { x: 18, y: 18 }) != 0);
        }
    }
    b
}

/// One transition of an episode: applying `action` in state `s` yields the
/// clamped successor state and the successor's reward.
pub fn episode_step(s: &Coord, action: usize, width: usize, height: usize) -> (out: (Coord, u64))
    requires
        action < ACTION_COUNT,
        0 < width,
        0 < height,
        s.x < width,
        s.y < height,
    ensures
        out.0.x == clamped(s.x as int, action_dx(action as int), width as int),
        out.0.y == clamped(s.y as int, action_dy(action as int), height as int),
        out.0.x < width,
        out.0.y < height,
        out.1 == spec_reward(out.0),
{
    let s_n = s.apply_action(action, width, height);
    let r = reward(&s_n);
    (s_n, r)
}

/// The episode-loop decision: an episode goes on exactly while no reward has
/// been observed and the step limit has not been reached.
pub fn episode_continues(r: u64, steps: usize, max_steps: usize) -> (b: bool)
    ensures
        b == (r == 0 && steps < max_steps),
{
    r == 0 && steps < max_steps
}

} // verus!
