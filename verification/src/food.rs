use vstd::prelude::*;
use vstd::assert_by_contradiction;
use vstd::set_lib::lemma_len_subset;

use rand::Rng;

use crate::grid::{grid_set, in_grid, lemma_grid_set_cardinality, Position, GRID_HEIGHT, GRID_WIDTH};

verus! {

/// rand's thread-local generator type, declared so that verified code can
/// hold and pass a handle to it.
#[verifier::external_type_specification]
#[verifier::external_body]
pub struct ExThreadRng(rand::rngs::ThreadRng);

/// Relies on rand::thread_rng: hands out the thread-local random generator.
#[verifier::external_body]
fn fresh_rng() -> (rng: rand::rngs::ThreadRng) {
    rand::thread_rng()
}

/// Relies on rand::Rng::gen_range over `lo..hi`: the sample lies in that
/// half-open range. The call panics on an empty range, which the
/// precondition rules out. Nothing more is stated: the draw is random.
#[verifier::external_body]
fn gen_range_i32(rng: &mut rand::rngs::ThreadRng, lo: i32, hi: i32) -> (r: i32)
    requires
        lo < hi,
    ensures
        lo <= r < hi,
{
    rng.gen_range(lo..hi)
}

/// Whether `cells` holds `p`.
pub fn contains_position(cells: &Vec<Position>, p: Position) -> (r: bool)
    ensures
        r == cells@.contains(p),
{
    let mut i: usize = 0;
    while i < cells.len()
        invariant
            i <= cells@.len(),
            forall|j: int| 0 <= j < i ==> #[trigger] cells@[j] != p,
        decreases cells@.len() - i,
    {
        if cells[i] == p {
            return true;
        }
        i += 1;
    }
    false
}

/// The food: a single grid cell.
pub struct Food {
    pub position: Position,
}

impl Food {
    /// A food cell drawn uniformly over the whole grid. The starting snake
    /// body is deliberately not avoided here; placement against a body is
    /// `randomize`'s job.
    pub fn new() -> (f: Food)
        ensures
            in_grid(f.position, GRID_WIDTH as int, GRID_HEIGHT as int),
    {
        Food { position: Self::random_position() }
    }

    /// A uniformly random cell of the grid.
    pub fn random_position() -> (p: Position)
        ensures
            in_grid(p, GRID_WIDTH as int, GRID_HEIGHT as int),
    {
        let mut rng = fresh_rng();
        let x = gen_range_i32(&mut rng, 0, GRID_WIDTH);
        let y = gen_range_i32(&mut rng, 0, GRID_HEIGHT);
        Position::new(x, y)
    }

    /// Re-rolls the food cell until it misses every cell of `avoid`.
    /// Termination is almost sure, since `avoid` covers less of the grid than
    /// the whole; the draw count that the loop bookkeeping allows is far
    /// beyond anything an execution reaches, and were it ever exhausted the
    /// first free cell in scan order is taken instead.
    pub fn randomize(&mut self, avoid: &Vec<Position>)
        requires
            avoid@.len() < GRID_WIDTH * GRID_HEIGHT,
        ensures
            in_grid(final(self).position, GRID_WIDTH as int, GRID_HEIGHT as int),
            !avoid@.contains(final(self).position),
    {
        let mut found = false;
        let mut tries: u64 = 0;
        while !found && tries < u64::MAX
            invariant
                tries <= u64::MAX,
                found ==> in_grid(self.position, GRID_WIDTH as int, GRID_HEIGHT as int)
                    && !avoid@.contains(self.position),
            decreases u64::MAX - tries,
        {
            self.position = Self::random_position();
            found = !contains_position(avoid, self.position);
            tries += 1;
        }
        if !found {
            self.position = first_free_cell(avoid);
        }
    }
}

/// A collection of fewer cells than the grid holds cannot cover the grid.
pub proof fn lemma_free_cell_exists(avoid: Seq<Position>)
    requires
        avoid.len() < GRID_WIDTH * GRID_HEIGHT,
    ensures
        exists|p: Position|
            in_grid(p, GRID_WIDTH as int, GRID_HEIGHT as int) && !avoid.contains(p),
{
    lemma_grid_set_cardinality();
    avoid.lemma_cardinality_of_set();
    broadcast use vstd::seq_lib::seq_to_set_is_finite;

    assert_by_contradiction!(
        exists|p: Position|
            in_grid(p, GRID_WIDTH as int, GRID_HEIGHT as int) && !avoid.contains(p),
        {
            assert(grid_set().subset_of(avoid.to_set()));
            lemma_len_subset(grid_set(), avoid.to_set());
        }
    );
}

/// The first grid cell, scanning row by row, that is not in `avoid`; since
/// `avoid` is shorter than the grid, such a cell exists.
fn first_free_cell(avoid: &Vec<Position>) -> (p: Position)
    requires
        avoid@.len() < GRID_WIDTH * GRID_HEIGHT,
    ensures
        in_grid(p, GRID_WIDTH as int, GRID_HEIGHT as int),
        !avoid@.contains(p),
{
    let mut y: i32 = 0;
    while y < GRID_HEIGHT
        invariant
            0 <= y <= GRID_HEIGHT,
            forall|q: Position|
                in_grid(q, GRID_WIDTH as int, GRID_HEIGHT as int) && q.y < y
                    ==> #[trigger] avoid@.contains(q),
        decreases GRID_HEIGHT - y,
    {
        let mut x: i32 = 0;
        while x < GRID_WIDTH
            invariant
                0 <= x <= GRID_WIDTH,
                0 <= y < GRID_HEIGHT,
                forall|q: Position|
                    in_grid(q, GRID_WIDTH as int, GRID_HEIGHT as int) && q.y < y
                        ==> #[trigger] avoid@.contains(q),
                forall|q: Position|
                    in_grid(q, GRID_WIDTH as int, GRID_HEIGHT as int) && q.y == y && q.x < x
                        ==> #[trigger] avoid@.contains(q),
            decreases GRID_WIDTH - x,
        {
            let c = Position::new(x, y);
            if !contains_position(avoid, c) {
                return c;
            }
            x += 1;
        }
        y += 1;
    }
    proof {
        lemma_free_cell_exists(avoid@);
        let w = choose|q: Position|
            in_grid(q, GRID_WIDTH as int, GRID_HEIGHT as int) && !avoid@.contains(q);
        assert(avoid@.contains(w));
        assert(false);
    }
    Position::new(0, 0)
}

} // verus!
