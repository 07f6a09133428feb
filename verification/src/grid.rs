//! The grid: a fixed-size rectangular character buffer, stored row-major,
//! with a wall ring on its outer border.

use vstd::prelude::*;

verus! {

/// Number of columns of the grid.
pub const WIDTH: usize = 50;
/// Number of rows of the grid.
pub const HEIGHT: usize = 20;

/// Glyph of a wall cell.
pub const WALL: char = '■';
/// Glyph of an empty cell.
pub const EMPTY: char = ' ';
/// Glyph of the snake's head.
pub const HEAD: char = '●';
/// Glyph of a snake body segment.
pub const BODY: char = '▣';
/// Glyph of the food.
pub const FOOD: char = '♥';

/// A `(row, column)` position lies inside the grid.
pub open spec fn pos_in_bounds(p: (usize, usize)) -> bool {
    p.0 < HEIGHT && p.1 < WIDTH
}

/// A `(row, column)` position lies strictly inside the wall ring.
pub open spec fn pos_interior(p: (usize, usize)) -> bool {
    1 <= p.0 < HEIGHT - 1 && 1 <= p.1 < WIDTH - 1
}

/// The flat, row-major index of row `i`, column `j`.
pub open spec fn flat_idx(i: int, j: int) -> int {
    i * WIDTH + j
}

/// The grid after one cell is overwritten.
pub open spec fn grid_set(g: Seq<char>, p: (usize, usize), c: char) -> Seq<char> {
    g.update(flat_idx(p.0 as int, p.1 as int), c)
}

/// A row-major grid has the wall glyph on its whole outer border.
pub open spec fn border_is_wall(g: Seq<char>) -> bool {
    forall|i: int, j: int|
        0 <= i < HEIGHT && 0 <= j < WIDTH && (i == 0 || i == HEIGHT - 1 || j == 0 || j == WIDTH
            - 1) ==> g[flat_idx(i, j)] == WALL
}

/// The game grid: `HEIGHT` rows of `WIDTH` cells, flattened row-major.
pub struct Grid {
    pub cells: Vec<char>,
}

impl View for Grid {
    type V = Seq<char>;

    open spec fn view(&self) -> Seq<char> {
        self.cells@
    }
}

impl Grid {
    /// The grid holds exactly one cell per position.
    pub open spec fn wf(self) -> bool {
        self@.len() == HEIGHT * WIDTH
    }

    /// The glyph at row `i`, column `j`.
    pub open spec fn at(self, i: int, j: int) -> char {
        self@[flat_idx(i, j)]
    }

    /// Overwrites the cell at position `p`.
    pub fn set_cell(&mut self, p: (usize, usize), c: char)
        requires
            old(self).wf(),
            pos_in_bounds(p),
        ensures
            final(self).wf(),
            final(self)@ == grid_set(old(self)@, p, c),
    {
        let i: usize = p.0 * WIDTH + p.1;
        self.cells[i] = c;
    }

    /// Whether the grid holds exactly one cell per position; the executable
    /// form of its well-formedness.
    pub fn well_formed(&self) -> (b: bool)
        ensures
            b == self.wf(),
    {
        self.cells.len() == HEIGHT * WIDTH
    }

    /// Reads the cell at row `i`, column `j`.
    pub fn get_cell(&self, i: usize, j: usize) -> (c: char)
        requires
            self.wf(),
            i < HEIGHT,
            j < WIDTH,
        ensures
            c == self.at(i as int, j as int),
    {
        let k: usize = i * WIDTH + j;
        self.cells[k]
    }
}

/// Builds the initial grid: walls on row 0, row `HEIGHT - 1`, column 0 and
/// column `WIDTH - 1`, empty cells everywhere else.
pub fn create_map() -> (m: Grid)
    ensures
        m.wf(),
        forall|i: int, j: int|
            0 <= i < HEIGHT && 0 <= j < WIDTH ==> m.at(i, j) == (if i == 0 || i == HEIGHT - 1 || j
                == 0 || j == WIDTH - 1 {
                WALL
            } else {
                EMPTY
            }),
        border_is_wall(m@),
{
    let mut cells: Vec<char> = Vec::new();
    let mut i: usize = 0;
    while i < HEIGHT
        invariant
            i <= HEIGHT,
            cells@.len() == i * WIDTH,
            forall|r: int, c: int|
                0 <= r < i && 0 <= c < WIDTH ==> cells@[flat_idx(r, c)] == (if r == 0 || r == HEIGHT
                    - 1 || c == 0 || c == WIDTH - 1 {
                    WALL
                } else {
                    EMPTY
                }),
        decreases HEIGHT - i,
    {
        let mut j: usize = 0;
        while j < WIDTH
            invariant
                i < HEIGHT,
                j <= WIDTH,
                cells@.len() == i * WIDTH + j,
                forall|r: int, c: int|
                    0 <= r < i && 0 <= c < WIDTH ==> cells@[flat_idx(r, c)] == (if r == 0 || r
                        == HEIGHT - 1 || c == 0 || c == WIDTH - 1 {
                        WALL
                    } else {
                        EMPTY
                    }),
                forall|c: int|
                    0 <= c < j ==> cells@[flat_idx(i as int, c)] == (if i == 0 || i == HEIGHT - 1
                        || c == 0 || c == WIDTH - 1 {
                        WALL
                    } else {
                        EMPTY
                    }),
            decreases WIDTH - j,
        {
            if i == 0 || i == HEIGHT - 1 || j == 0 || j == WIDTH - 1 {
                cells.push(WALL);
            } else {
                cells.push(EMPTY);
            }
            j = j + 1;
        }
        i = i + 1;
    }
    Grid { cells }
}

/// The first `i` rows of the textual frame: each row's cells in order,
/// terminated by a newline.
pub open spec fn render_upto(g: Seq<char>, i: int) -> Seq<char>
    decreases i,
{
    if i <= 0 {
        Seq::empty()
    } else {
        render_upto(g, i - 1) + g.subrange(flat_idx(i - 1, 0), flat_idx(i - 1, WIDTH as int))
            + seq!['\n']
    }
}

/// The textual frame of a whole grid: `HEIGHT` lines of `WIDTH` glyphs.
pub open spec fn render_spec(g: Seq<char>) -> Seq<char> {
    render_upto(g, HEIGHT as int)
}

/// Produces the frame to print: one line per row, one glyph per cell, each
/// row terminated by a newline.
pub fn render_map(map: &Grid) -> (out: Vec<char>)
    requires
        map.wf(),
    ensures
        out@ == render_spec(map@),
{
    let mut out: Vec<char> = Vec::new();
    let mut i: usize = 0;
    while i < HEIGHT
        invariant
            i <= HEIGHT,
            map.wf(),
            out@ == render_upto(map@, i as int),
        decreases HEIGHT - i,
    {
        let mut j: usize = 0;
        while j < WIDTH
            invariant
                i < HEIGHT,
                j <= WIDTH,
                map.wf(),
                out@ == render_upto(map@, i as int) + map@.subrange(
                    flat_idx(i as int, 0),
                    flat_idx(i as int, j as int),
                ),
            decreases WIDTH - j,
        {
            out.push(map.get_cell(i, j));
            proof {
                assert(map@.subrange(flat_idx(i as int, 0), flat_idx(i as int, j + 1))
                    =~= map@.subrange(flat_idx(i as int, 0), flat_idx(i as int, j as int)).push(
                    map@[flat_idx(i as int, j as int)],
                ));
                assert(out@ =~= render_upto(map@, i as int) + map@.subrange(
                    flat_idx(i as int, 0),
                    flat_idx(i as int, j + 1),
                ));
            }
            j = j + 1;
        }
        out.push('\n');
        proof {
            assert(out@ =~= render_upto(map@, i + 1));
        }
        i = i + 1;
    }
    out
}

/// Law: overwriting an interior cell leaves every border cell as it was, so
/// a grid whose border is the wall ring keeps it under any interior write.
pub proof fn lemma_grid_set_preserves_border(g: Seq<char>, p: (usize, usize), c: char)
    requires
        g.len() == HEIGHT * WIDTH,
        border_is_wall(g),
        pos_interior(p),
    ensures
        grid_set(g, p, c).len() == g.len(),
        border_is_wall(grid_set(g, p, c)),
{
    assert forall|i: int, j: int|
        0 <= i < HEIGHT && 0 <= j < WIDTH && (i == 0 || i == HEIGHT - 1 || j == 0 || j == WIDTH
            - 1) implies grid_set(g, p, c)[flat_idx(i, j)] == WALL by {
        assert(flat_idx(i, j) != flat_idx(p.0 as int, p.1 as int));
        assert(grid_set(g, p, c)[flat_idx(i, j)] == g[flat_idx(i, j)]);
    }
}

} // verus!
