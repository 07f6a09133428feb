//! The food: current position, the consumed flag, and the random respawn
//! that avoids the snake.

use vstd::prelude::*;
use rand::Rng;
use crate::grid::{Grid, grid_set, pos_in_bounds, pos_interior, FOOD, HEIGHT, WIDTH};
use crate::snake::{contains_pos, Snake};

verus! {

/// How many random samples the respawn draws before it falls back to a
/// deterministic scan of the interior cells.
pub const RESPAWN_TRIES: usize = 1000;

/// The food: its position and whether it has just been eaten.
pub struct Food {
    pub position: (usize, usize),
    pub eated: bool,
}

/// Builds the starting food: row 7, column 8, not yet eaten.
pub fn create_food() -> (f: Food)
    ensures
        f.position == (7usize, 8usize),
        !f.eated,
        pos_interior(f.position),
{
    Food { position: (7, 8), eated: false }
}

/// Whether a position sits on the snake's head or on one of its body
/// segments.
pub fn position_on_snake(p: (usize, usize), snake: &Snake) -> (r: bool)
    ensures
        r == (p == snake.head || snake.body@.contains(p)),
{
    if p.0 == snake.head.0 && p.1 == snake.head.1 {
        true
    } else {
        contains_pos(&snake.body, p)
    }
}

/// Whether the food's position lies inside the grid; the executable check
/// that its overlay needs.
pub fn food_in_bounds(food: &Food) -> (b: bool)
    ensures
        b == pos_in_bounds(food.position),
{
    food.position.0 < HEIGHT && food.position.1 < WIDTH
}

/// Whether the food sits on the snake's head or on one of its body segments.
pub fn is_food_collide_with_snake(food: &Food, snake: &Snake) -> (r: bool)
    ensures
        r == (food.position == snake.head || snake.body@.contains(food.position)),
{
    position_on_snake(food.position, snake)
}

/// Relies on rand::thread_rng and rand::Rng::gen_range: the sampled value is
/// uniformly distributed in the half-open range `lo..hi`, which must not be
/// empty.
#[verifier::external_body]
fn random_in_range(lo: usize, hi: usize) -> (r: usize)
    requires
        lo < hi,
    ensures
        lo <= r < hi,
{
    rand::thread_rng().gen_range(lo..hi)
}

/// Respawns the food when it has been eaten: samples random interior
/// positions until one misses the snake, falling back to the first free
/// interior cell once the sampling bound is spent, then clears the consumed
/// flag. Does nothing when the food is still uneaten, and leaves the food
/// untouched when the snake covers every interior cell.
pub fn random_new_food(food: &mut Food, snake: &Snake)
    ensures
        !old(food).eated ==> *final(food) == *old(food),
        old(food).eated && !final(food).eated ==> {
            &&& pos_interior(final(food).position)
            &&& final(food).position != snake.head
            &&& !snake.body@.contains(final(food).position)
        },
        old(food).eated && final(food).eated ==> *final(food) == *old(food),
        old(food).eated && (exists|p: (usize, usize)|
            #[trigger] pos_interior(p) && p != snake.head && !snake.body@.contains(p))
            ==> !final(food).eated,
{
    if !food.eated {
        return ;
    }
    let mut tries: usize = 0;
    while tries < RESPAWN_TRIES
        invariant
            *food == *old(food),
            old(food).eated,
        decreases RESPAWN_TRIES - tries,
    {
        let row = random_in_range(1, HEIGHT - 1);
        let col = random_in_range(1, WIDTH - 1);
        if !position_on_snake((row, col), snake) {
            food.position = (row, col);
            food.eated = false;
            return ;
        }
        tries = tries + 1;
    }
    let mut row: usize = 1;
    while row < HEIGHT - 1
        invariant
            *food == *old(food),
            old(food).eated,
            1 <= row,
            forall|p: (usize, usize)|
                #[trigger] pos_interior(p) && p.0 < row ==> p == snake.head
                    || snake.body@.contains(p),
        decreases HEIGHT - row,
    {
        let mut col: usize = 1;
        while col < WIDTH - 1
            invariant
                *food == *old(food),
                old(food).eated,
                1 <= row < HEIGHT - 1,
                1 <= col,
                forall|p: (usize, usize)|
                    #[trigger] pos_interior(p) && p.0 < row ==> p == snake.head
                        || snake.body@.contains(p),
                forall|p: (usize, usize)|
                    #[trigger] pos_interior(p) && p.0 == row && p.1 < col ==> p == snake.head
                        || snake.body@.contains(p),
            decreases WIDTH - col,
        {
            if !position_on_snake((row, col), snake) {
                food.position = (row, col);
                food.eated = false;
                return ;
            }
            assert forall|p: (usize, usize)|
                #[trigger] pos_interior(p) && p.0 == row && p.1 < col + 1 implies p == snake.head
                || snake.body@.contains(p) by {
                if p.1 == col {
                    assert(p == (row, col));
                }
            }
            col = col + 1;
        }
        row = row + 1;
    }
}

/// Writes the food glyph at the food's position when it is uneaten; leaves
/// the grid unchanged when it has been eaten.
pub fn add_food_to_map(food: &Food, map: &mut Grid)
    requires
        old(map).wf(),
        !food.eated ==> pos_in_bounds(food.position),
    ensures
        final(map).wf(),
        food.eated ==> final(map)@ == old(map)@,
        !food.eated ==> final(map)@ == grid_set(old(map)@, food.position, FOOD),
{
    if food.eated {
        return ;
    }
    map.set_cell(food.position, FOOD);
}

} // verus!
