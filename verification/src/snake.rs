//! The snake: head position, ordered body segments, speed, directional
//! movement with growth on food, and the self-collision check.

use vstd::prelude::*;
use crate::grid::{
    border_is_wall, grid_set, lemma_grid_set_preserves_border, pos_in_bounds, pos_interior, Grid,
    BODY, EMPTY, HEAD, HEIGHT, WIDTH,
};
use crate::food::Food;

verus! {

/// The four movement directions of one step.
#[derive(Clone, Copy, PartialEq, Eq, Structural, Debug)]
pub enum Direction {
    Up,
    Down,
    Left,
    Right,
}

/// The snake: head, body segments ordered from the one nearest the head to
/// the tail, and the delay in milliseconds between two ticks.
pub struct Snake {
    pub head: (usize, usize),
    pub body: Vec<(usize, usize)>,
    pub speed: usize,
}

impl Snake {
    /// Head and every body segment lie inside the grid.
    pub open spec fn wf(self) -> bool {
        &&& pos_in_bounds(self.head)
        &&& forall|k: int| 0 <= k < self.body@.len() ==> pos_in_bounds(#[trigger] self.body@[k])
    }
}

/// Builds the starting snake: head at row 5, column 6, two body segments
/// directly behind it, one tick every 300 milliseconds.
pub fn create_snake() -> (s: Snake)
    ensures
        s.head == (5usize, 6usize),
        s.body@ =~= seq![(4usize, 6usize), (3usize, 6usize)],
        s.speed == 300,
        s.wf(),
{
    let mut body: Vec<(usize, usize)> = Vec::new();
    body.push((4, 6));
    body.push((3, 6));
    let s = Snake { head: (5, 6), body, speed: 300 };
    assert(s.body@[0] == (4usize, 6usize));
    assert(s.body@[1] == (3usize, 6usize));
    s
}

/// Whether a vector of positions holds the given position.
pub fn contains_pos(v: &Vec<(usize, usize)>, p: (usize, usize)) -> (r: bool)
    ensures
        r == v@.contains(p),
{
    let mut k: usize = 0;
    while k < v.len()
        invariant
            k <= v@.len(),
            forall|m: int| 0 <= m < k ==> v@[m] != p,
        decreases v@.len() - k,
    {
        if v[k].0 == p.0 && v[k].1 == p.1 {
            assert(v@[k as int] == p);
            return true;
        }
        k = k + 1;
    }
    false
}

/// The self-collision check that ends the game. Returns `true` while the
/// snake is alive, and `false` exactly when some body segment equals the
/// head position.
pub fn is_game_over(snake: &Snake) -> (alive: bool)
    ensures
        alive == !snake.body@.contains(snake.head),
{
    !contains_pos(&snake.body, snake.head)
}

/// The head position one step away in the given direction, as a pair of
/// unbounded integers.
pub open spec fn next_head_spec(h: (usize, usize), d: Direction) -> (int, int) {
    match d {
        Direction::Up => (h.0 - 1, h.1 as int),
        Direction::Down => (h.0 + 1, h.1 as int),
        Direction::Left => (h.0 as int, h.1 - 1),
        Direction::Right => (h.0 as int, h.1 + 1),
    }
}

/// The head position one step away in the given direction stays inside the
/// grid.
pub open spec fn next_head_in_bounds(h: (usize, usize), d: Direction) -> bool {
    let n = next_head_spec(h, d);
    0 <= n.0 < HEIGHT && 0 <= n.1 < WIDTH
}

/// A move of the snake in direction `d` lands its head on the food.
pub open spec fn eats(h: (usize, usize), d: Direction, food_pos: (usize, usize)) -> bool {
    next_head_spec(h, d).0 == food_pos.0 && next_head_spec(h, d).1 == food_pos.1
}

/// Whether one step in direction `d` keeps the snake's head inside the grid;
/// the only moves `move_snake` accepts.
pub fn can_move(snake: &Snake, d: Direction) -> (b: bool)
    ensures
        b == next_head_in_bounds(snake.head, d),
{
    match d {
        Direction::Up => 1 <= snake.head.0 && snake.head.0 <= HEIGHT && snake.head.1 < WIDTH,
        Direction::Down => snake.head.0 < HEIGHT - 1 && snake.head.1 < WIDTH,
        Direction::Left => 1 <= snake.head.1 && snake.head.1 <= WIDTH && snake.head.0 < HEIGHT,
        Direction::Right => snake.head.1 < WIDTH - 1 && snake.head.0 < HEIGHT,
    }
}

/// Whether the head and every body segment lie inside the grid; the
/// executable form of the snake's well-formedness.
pub fn snake_in_bounds(snake: &Snake) -> (b: bool)
    ensures
        b == snake.wf(),
{
    if !(snake.head.0 < HEIGHT && snake.head.1 < WIDTH) {
        return false;
    }
    let mut k: usize = 0;
    while k < snake.body.len()
        invariant
            k <= snake.body@.len(),
            pos_in_bounds(snake.head),
            forall|m: int| 0 <= m < k ==> pos_in_bounds(#[trigger] snake.body@[m]),
        decreases snake.body@.len() - k,
    {
        if !(snake.body[k].0 < HEIGHT && snake.body[k].1 < WIDTH) {
            return false;
        }
        k = k + 1;
    }
    true
}

/// How one move relates the new snake, food and grid to the old ones: the
/// head shifts one cell in direction `d`; the old head is prepended to the
/// body; the tail is dropped unless the new head lands on the food; the food
/// is marked eaten exactly when it does; the grid gets the head glyph at the
/// new head, the body glyph at the old head, and, unless the food was eaten,
/// the empty glyph at the dropped tail.
pub open spec fn move_post(
    s0: Snake,
    f0: Food,
    g0: Seq<char>,
    s1: Snake,
    f1: Food,
    g1: Seq<char>,
    d: Direction,
) -> bool {
    let nh = next_head_spec(s0.head, d);
    let ate = eats(s0.head, d, f0.position);
    &&& s1.head.0 == nh.0
    &&& s1.head.1 == nh.1
    &&& s1.speed == s0.speed
    &&& s1.body@ == (if ate {
        seq![s0.head] + s0.body@
    } else {
        seq![s0.head] + s0.body@.drop_last()
    })
    &&& f1.position == f0.position
    &&& f1.eated == ate
    &&& g1 == (if ate {
        grid_set(grid_set(g0, s1.head, HEAD), s0.head, BODY)
    } else {
        grid_set(grid_set(grid_set(g0, s1.head, HEAD), s0.head, BODY), s0.body@.last(), EMPTY)
    })
}

/// Moves the snake one cell in the given direction: prepends the old head to
/// the body, drops the tail unless the food was reached, marks the food
/// eaten exactly when it was, and repaints the affected grid cells.
pub fn move_snake(snake: &mut Snake, direction: Direction, food: &mut Food, map: &mut Grid)
    requires
        old(map).wf(),
        old(snake).wf(),
        old(snake).body@.len() >= 1,
        next_head_in_bounds(old(snake).head, direction),
    ensures
        final(map).wf(),
        final(snake).wf(),
        final(snake).body@.len() >= 1,
        move_post(
            *old(snake),
            *old(food),
            old(map)@,
            *final(snake),
            *final(food),
            final(map)@,
            direction,
        ),
        final(snake).body@.len() == old(snake).body@.len() + (if eats(
            old(snake).head,
            direction,
            old(food).position,
        ) {
            1int
        } else {
            0int
        }),
{
    let before_head = snake.head;
    match direction {
        Direction::Up => {
            snake.head = (before_head.0 - 1, before_head.1);
        },
        Direction::Down => {
            snake.head = (before_head.0 + 1, before_head.1);
        },
        Direction::Left => {
            snake.head = (before_head.0, before_head.1 - 1);
        },
        Direction::Right => {
            snake.head = (before_head.0, before_head.1 + 1);
        },
    }
    let eated = snake.head.0 == food.position.0 && snake.head.1 == food.position.1;
    map.set_cell(snake.head, HEAD);
    map.set_cell(before_head, BODY);
    if !eated {
        let tail = snake.body.remove(snake.body.len() - 1);
        assert(tail == old(snake).body@.last());
        assert(snake.body@ =~= old(snake).body@.drop_last());
        map.set_cell(tail, EMPTY);
    }
    food.eated = eated;
    snake.body.insert(0, before_head);
    assert(eated ==> snake.body@ =~= seq![old(snake).head] + old(snake).body@);
    assert(!eated ==> snake.body@ =~= seq![old(snake).head] + old(snake).body@.drop_last());
}

/// The direction a pressed key selects: `w`, `s`, `a` and `d` steer the
/// snake; any other key, and no key at all, keep the current direction.
pub open spec fn resolve_direction_spec(key: Option<char>, dir: Direction) -> Direction {
    match key {
        Option::Some(k) => if k == 'w' {
            Direction::Up
        } else if k == 's' {
            Direction::Down
        } else if k == 'a' {
            Direction::Left
        } else if k == 'd' {
            Direction::Right
        } else {
            dir
        },
        Option::None => dir,
    }
}

/// Maps a pressed key to the direction of the next move, keeping the current
/// direction when no steering key was pressed.
pub fn resolve_direction(key: Option<char>, dir: Direction) -> (d: Direction)
    ensures
        d == resolve_direction_spec(key, dir),
{
    match key {
        Option::Some(k) => {
            if k == 'w' {
                Direction::Up
            } else if k == 's' {
                Direction::Down
            } else if k == 'a' {
                Direction::Left
            } else if k == 'd' {
                Direction::Right
            } else {
                dir
            }
        },
        Option::None => dir,
    }
}

/// One steering step of the game loop: resolves the pressed key to a
/// direction, moves the snake that way, and returns the direction for the
/// next tick.
pub fn control_snake(
    snake: &mut Snake,
    dir: Direction,
    key: Option<char>,
    food: &mut Food,
    map: &mut Grid,
) -> (d: Direction)
    requires
        old(map).wf(),
        old(snake).wf(),
        old(snake).body@.len() >= 1,
        next_head_in_bounds(old(snake).head, resolve_direction_spec(key, dir)),
    ensures
        d == resolve_direction_spec(key, dir),
        final(map).wf(),
        final(snake).wf(),
        final(snake).body@.len() >= 1,
        move_post(*old(snake), *old(food), old(map)@, *final(snake), *final(food), final(map)@, d),
{
    let d = resolve_direction(key, dir);
    move_snake(snake, d, food, map);
    d
}

/// The grid after the body glyph is written at every segment of `body`, in
/// order from the segment nearest the head to the tail.
pub open spec fn overlay_body(g: Seq<char>, body: Seq<(usize, usize)>) -> Seq<char>
    decreases body.len(),
{
    if body.len() == 0 {
        g
    } else {
        grid_set(overlay_body(g, body.drop_last()), body.last(), BODY)
    }
}

/// Writes the head glyph at the snake's head and the body glyph at every
/// body segment.
pub fn add_snake_to_map(snake: &Snake, map: &mut Grid)
    requires
        old(map).wf(),
        snake.wf(),
    ensures
        final(map).wf(),
        final(map)@ == overlay_body(grid_set(old(map)@, snake.head, HEAD), snake.body@),
{
    map.set_cell(snake.head, HEAD);
    let mut k: usize = 0;
    while k < snake.body.len()
        invariant
            k <= snake.body@.len(),
            snake.wf(),
            map.wf(),
            map@ == overlay_body(grid_set(old(map)@, snake.head, HEAD), snake.body@.take(k as int)),
        decreases snake.body@.len() - k,
    {
        let seg = snake.body[k];
        map.set_cell(seg, BODY);
        proof {
            let t1 = snake.body@.take(k + 1 as int);
            assert(t1.drop_last() =~= snake.body@.take(k as int));
            assert(t1.last() == snake.body@[k as int]);
        }
        k = k + 1;
    }
    proof {
        assert(snake.body@.take(snake.body@.len() as int) =~= snake.body@);
    }
}

/// Law: overlaying a body whose segments are all interior leaves every
/// border cell as it was, so the wall ring survives the snake overlay.
pub proof fn lemma_overlay_body_preserves_border(g: Seq<char>, body: Seq<(usize, usize)>)
    requires
        g.len() == HEIGHT * WIDTH,
        border_is_wall(g),
        forall|k: int| 0 <= k < body.len() ==> pos_interior(#[trigger] body[k]),
    ensures
        overlay_body(g, body).len() == g.len(),
        border_is_wall(overlay_body(g, body)),
    decreases body.len(),
{
    if body.len() > 0 {
        assert forall|k: int| 0 <= k < body.drop_last().len() implies pos_interior(
            #[trigger] body.drop_last()[k],
        ) by {
            assert(body.drop_last()[k] == body[k]);
        }
        lemma_overlay_body_preserves_border(g, body.drop_last());
        lemma_grid_set_preserves_border(overlay_body(g, body.drop_last()), body.last(), BODY);
    }
}

/// Law: a move whose written cells are all interior keeps the wall ring.
/// The new head, the old head and, when the tail is dropped, the old tail
/// must be interior; then the grid after `move_snake` still has the wall
/// glyph on its whole border.
pub proof fn lemma_move_preserves_border(
    s0: Snake,
    f0: Food,
    g0: Seq<char>,
    s1: Snake,
    f1: Food,
    g1: Seq<char>,
    d: Direction,
)
    requires
        g0.len() == HEIGHT * WIDTH,
        border_is_wall(g0),
        move_post(s0, f0, g0, s1, f1, g1, d),
        pos_interior(s1.head),
        pos_interior(s0.head),
        s0.body@.len() >= 1,
        !eats(s0.head, d, f0.position) ==> pos_interior(s0.body@.last()),
    ensures
        border_is_wall(g1),
{
    lemma_grid_set_preserves_border(g0, s1.head, HEAD);
    lemma_grid_set_preserves_border(grid_set(g0, s1.head, HEAD), s0.head, BODY);
    if !eats(s0.head, d, f0.position) {
        lemma_grid_set_preserves_border(
            grid_set(grid_set(g0, s1.head, HEAD), s0.head, BODY),
            s0.body@.last(),
            EMPTY,
        );
    }
}

} // verus!
