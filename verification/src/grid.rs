use vstd::prelude::*;
use vstd::relations::injective_on;
use vstd::set_lib::lemma_int_range;
use vstd::set_lib::lemma_map_size;
use vstd::set_lib::set_int_range;

verus! {

/// Number of grid cells across the playing field.
pub const GRID_WIDTH: i32 = 40;

/// Number of grid cells down the playing field.
pub const GRID_HEIGHT: i32 = 30;

/// A cell of the playing grid, compared by its coordinates.
#[derive(Clone, Copy, PartialEq, Eq, Structural, Debug)]
pub struct Position {
    pub x: i32,
    pub y: i32,
}

impl Position {
    pub fn new(x: i32, y: i32) -> (p: Position)
        ensures
            p == (Position { x, y }),
    {
        Position { x, y }
    }
}

/// Whether `p` lies on the `width` by `height` grid.
pub open spec fn in_grid(p: Position, width: int, height: int) -> bool {
    0 <= p.x < width && 0 <= p.y < height
}

/// A cardinal heading for the snake's movement.
#[derive(Clone, Copy, PartialEq, Eq, Structural, Debug)]
pub enum Direction {
    Up,
    Down,
    Left,
    Right,
}

impl Direction {
    /// The heading that points the exact opposite way.
    pub open spec fn spec_opposite(self) -> Direction {
        match self {
            Direction::Up => Direction::Down,
            Direction::Down => Direction::Up,
            Direction::Left => Direction::Right,
            Direction::Right => Direction::Left,
        }
    }

    #[verifier::when_used_as_spec(spec_opposite)]
    pub fn opposite(self) -> (d: Direction)
        ensures
            d == self.spec_opposite(),
    {
        match self {
            Direction::Up => Direction::Down,
            Direction::Down => Direction::Up,
            Direction::Left => Direction::Right,
            Direction::Right => Direction::Left,
        }
    }
}

/// The cell one step from `p` along heading `d`.
pub open spec fn spec_step(p: Position, d: Direction) -> Position {
    match d {
        Direction::Up => Position { x: p.x, y: (p.y - 1) as i32 },
        Direction::Down => Position { x: p.x, y: (p.y + 1) as i32 },
        Direction::Left => Position { x: (p.x - 1) as i32, y: p.y },
        Direction::Right => Position { x: (p.x + 1) as i32, y: p.y },
    }
}

pub fn step(p: Position, d: Direction) -> (q: Position)
    requires
        i32::MIN < p.x < i32::MAX,
        i32::MIN < p.y < i32::MAX,
    ensures
        q == spec_step(p, d),
{
    match d {
        Direction::Up => Position { x: p.x, y: p.y - 1 },
        Direction::Down => Position { x: p.x, y: p.y + 1 },
        Direction::Left => Position { x: p.x - 1, y: p.y },
        Direction::Right => Position { x: p.x + 1, y: p.y },
    }
}

/// All cells of the playing grid.
pub open spec fn grid_set() -> Set<Position> {
    Set::new(|p: Position| in_grid(p, GRID_WIDTH as int, GRID_HEIGHT as int))
}

/// The playing grid holds exactly `GRID_WIDTH * GRID_HEIGHT` cells.
pub proof fn lemma_grid_set_cardinality()
    ensures
        grid_set().finite(),
        grid_set().len() == GRID_WIDTH * GRID_HEIGHT,
{
    let h = GRID_HEIGHT as int;
    let g = |k: int| Position { x: (k / h) as i32, y: (k % h) as i32 };
    let range = set_int_range(0, GRID_WIDTH * GRID_HEIGHT);
    lemma_int_range(0, GRID_WIDTH * GRID_HEIGHT);
    assert(injective_on(g, range)) by {
        assert forall|k1: int, k2: int|
            range.contains(k1) && range.contains(k2) && #[trigger] g(k1) == #[trigger] g(k2)
                implies k1 == k2 by {
            assert(k1 == h * (k1 / h) + k1 % h);
            assert(k2 == h * (k2 / h) + k2 % h);
        }
    }
    assert forall|p: Position| grid_set().contains(p) implies range.map(g).contains(p) by {
        let k = p.x * h + p.y;
        assert(k / h == p.x && k % h == p.y) by (nonlinear_arith)
            requires
                h == GRID_HEIGHT,
                0 <= p.x < GRID_WIDTH,
                0 <= p.y < GRID_HEIGHT,
                k == p.x * h + p.y,
        ;
        assert(range.contains(k) && g(k) == p);
    }
    assert(range.map(g) =~= grid_set());
    lemma_map_size(range, grid_set(), g);
}

/// Whether the background tile at `(row, col)` gets the grass colour: the
/// tiles alternate in a checkerboard, by the parity of `row + col`.
pub fn is_grass_cell(row: i32, col: i32) -> (r: bool)
    requires
        0 <= row,
        0 <= col,
    ensures
        r <==> (row + col) % 2 == 0,
{
    if row % 2 == 0 {
        col % 2 == 0
    } else {
        col % 2 == 1
    }
}

} // verus!
