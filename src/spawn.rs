use vstd::prelude::*;

use crate::window::Color;

verus! {

/// How many balls a fresh world holds.
pub const NUM_OF_BALLS: usize = 256;

/// Launch speeds are drawn below this bound, in m/s.
pub const SPEED_DRAW_BOUND: u32 = 16;

/// The slowest launch speed, in m/s.
pub const MIN_LAUNCH_SPEED: u32 = 2;

/// Elasticity is drawn in hundredths below this bound.
pub const ELASTICITY_DRAW_BOUND: u32 = 100;

/// The smallest drawn elasticity, in hundredths.
pub const MIN_ELASTICITY_PERCENT: u32 = 92;

/// How many colors a ball may take.
pub const NUM_OF_COLORS: u32 = 4;

/// The random draws that decide one ball, in the order they are made.
#[derive(Clone, Copy, Debug, PartialEq, Eq, Structural)]
pub struct BallDraws {
    pub x: u32,
    pub y: u32,
    pub speed: u32,
    pub elasticity: u32,
    pub color: u32,
    pub direction: u32,
}

/// The integer decisions from which a ball is built.
///
/// The ball starts at the corner of cell (`cell_x`, `cell_y`), in meters, moves
/// horizontally at `speed` m/s (the sign gives the direction), has elasticity
/// `elasticity_percent / 100 - 0.01`, and takes color `color_index`.
#[derive(Clone, Copy, Debug, PartialEq, Eq, Structural)]
pub struct BallSeed {
    pub cell_x: u32,
    pub cell_y: u32,
    pub speed: i32,
    pub elasticity_percent: u32,
    pub color_index: usize,
}

pub open spec fn max_u32(a: u32, b: u32) -> u32 {
    if a >= b { a } else { b }
}

/// The seed that a set of draws gives in a world of `cols` by `rows` cells.
pub open spec fn seed_of(d: BallDraws, cols: u32, rows: u32) -> BallSeed {
    let magnitude = max_u32(d.speed % SPEED_DRAW_BOUND, MIN_LAUNCH_SPEED);
    BallSeed {
        cell_x: d.x % cols,
        cell_y: d.y % rows,
        speed: if d.direction % 2 == 0 { -(magnitude as int) } else { magnitude as int } as i32,
        elasticity_percent: max_u32(d.elasticity % ELASTICITY_DRAW_BOUND, MIN_ELASTICITY_PERCENT),
        color_index: (d.color % NUM_OF_COLORS) as usize,
    }
}

impl BallSeed {
    /// Turns one ball's draws into its seed.
    pub fn from_draws(draws: BallDraws, cols: u32, rows: u32) -> (r: BallSeed)
        requires
            cols > 0,
            rows > 0,
        ensures
            r == seed_of(draws, cols, rows),
            r.cell_x < cols,
            r.cell_y < rows,
            MIN_LAUNCH_SPEED <= r.speed <= SPEED_DRAW_BOUND - 1
                || -(SPEED_DRAW_BOUND - 1) <= r.speed <= -MIN_LAUNCH_SPEED,
            MIN_ELASTICITY_PERCENT <= r.elasticity_percent < ELASTICITY_DRAW_BOUND,
            r.color_index < NUM_OF_COLORS,
    {
        let drawn_speed = draws.speed % SPEED_DRAW_BOUND;
        let magnitude: u32 = if drawn_speed >= MIN_LAUNCH_SPEED {
            drawn_speed
        } else {
            MIN_LAUNCH_SPEED
        };
        let speed: i32 = if draws.direction % 2 == 0 {
            -(magnitude as i32)
        } else {
            magnitude as i32
        };
        let drawn_elasticity = draws.elasticity % ELASTICITY_DRAW_BOUND;
        let elasticity_percent: u32 = if drawn_elasticity >= MIN_ELASTICITY_PERCENT {
            drawn_elasticity
        } else {
            MIN_ELASTICITY_PERCENT
        };
        BallSeed {
            cell_x: draws.x % cols,
            cell_y: draws.y % rows,
            speed,
            elasticity_percent,
            color_index: (draws.color % NUM_OF_COLORS) as usize,
        }
    }

    /// Seeds one ball per entry of `draws`, in order.
    pub fn batch(draws: &Vec<BallDraws>, cols: u32, rows: u32) -> (r: Vec<BallSeed>)
        requires
            cols > 0,
            rows > 0,
        ensures
            r@ == draws@.map_values(|d: BallDraws| seed_of(d, cols, rows)),
    {
        let mut seeds: Vec<BallSeed> = Vec::new();
        let mut i: usize = 0;
        while i < draws.len()
            invariant
                cols > 0,
                rows > 0,
                i <= draws@.len(),
                seeds@ == draws@.subrange(0, i as int).map_values(
                    |d: BallDraws| seed_of(d, cols, rows),
                ),
            decreases draws@.len() - i,
        {
            seeds.push(BallSeed::from_draws(draws[i], cols, rows));
            i += 1;
            assert(draws@.subrange(0, i as int) == draws@.subrange(0, i - 1).push(draws@[i - 1]));
        }
        assert(draws@.subrange(0, i as int) == draws@);
        seeds
    }
}

/// The colors a ball may take, by color index: pink, purple, sky blue, yellow.
pub open spec fn palette(index: int) -> Color {
    if index == 0 {
        Color { r: 255, g: 109, b: 194, a: 255 }
    } else if index == 1 {
        Color { r: 200, g: 122, b: 255, a: 255 }
    } else if index == 2 {
        Color { r: 102, g: 191, b: 255, a: 255 }
    } else {
        Color { r: 253, g: 249, b: 0, a: 255 }
    }
}

/// The color of a ball with the given color index.
pub fn ball_color(index: usize) -> (r: Color)
    requires
        index < NUM_OF_COLORS,
    ensures
        r == palette(index as int),
{
    if index == 0 {
        Color { r: 255, g: 109, b: 194, a: 255 }
    } else if index == 1 {
        Color { r: 200, g: 122, b: 255, a: 255 }
    } else if index == 2 {
        Color { r: 102, g: 191, b: 255, a: 255 }
    } else {
        Color { r: 253, g: 249, b: 0, a: 255 }
    }
}

} // verus!
