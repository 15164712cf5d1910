use vstd::prelude::*;

use crate::grid::{spec_step, step, Direction, Position};

verus! {

/// The snake's mathematical state: the body cells from head (front) to tail
/// (back), the current heading, and whether the next advance lengthens the
/// body instead of translating it.
#[verifier::ext_equal]
pub struct SnakeView {
    pub body: Seq<Position>,
    pub direction: Direction,
    pub grow_next: bool,
}

impl SnakeView {
    /// A snake is well formed when its body is non-empty.
    pub open spec fn wf(self) -> bool {
        self.body.len() > 0
    }

    pub open spec fn head(self) -> Position {
        self.body[0]
    }

    /// The starting snake: three cells on one row, heading right.
    pub open spec fn initial() -> SnakeView {
        SnakeView {
            body: seq![
                Position { x: 5, y: 10 },
                Position { x: 4, y: 10 },
                Position { x: 3, y: 10 },
            ],
            direction: Direction::Right,
            grow_next: false,
        }
    }

    /// The state after one movement tick: the cell one step along the heading
    /// becomes the new head; the tail cell is dropped unless a growth was
    /// pending, in which case it is kept and the pending flag is consumed.
    pub open spec fn advanced(self) -> SnakeView {
        let new_head = spec_step(self.head(), self.direction);
        if self.grow_next {
            SnakeView { body: seq![new_head] + self.body, grow_next: false, ..self }
        } else {
            SnakeView { body: seq![new_head] + self.body.drop_last(), ..self }
        }
    }

    /// The state after a growth request: only the pending flag is raised, so
    /// repeated requests before the next advance change nothing further.
    pub open spec fn grown(self) -> SnakeView {
        SnakeView { grow_next: true, ..self }
    }

    /// The state after a direction request: the heading is overwritten unless
    /// the request is the exact reverse of the current heading, in which case
    /// it is silently dropped.
    pub open spec fn turned(self, d: Direction) -> SnakeView {
        if d == self.direction.spec_opposite() {
            self
        } else {
            SnakeView { direction: d, ..self }
        }
    }

    /// Whether the head lies outside the `width` by `height` grid.
    pub open spec fn hits_wall(self, width: int, height: int) -> bool {
        self.head().x < 0 || self.head().x >= width || self.head().y < 0 || self.head().y
            >= height
    }

    /// Whether the head coincides with some body cell other than itself.
    pub open spec fn hits_self(self) -> bool {
        exists|i: int| 1 <= i < self.body.len() && self.body[i] == self.head()
    }
}

/// The snake: an ordered body of grid cells (head first), a heading, and a
/// deferred-growth flag.
pub struct Snake {
    /// Body cells, the head at index 0 and the tail last.
    pub body: Vec<Position>,
    pub direction: Direction,
    pub grow_next: bool,
}

impl View for Snake {
    type V = SnakeView;

    open spec fn view(&self) -> SnakeView {
        SnakeView { body: self.body@, direction: self.direction, grow_next: self.grow_next }
    }
}

impl Snake {
    pub fn new() -> (s: Snake)
        ensures
            s@ == SnakeView::initial(),
    {
        let mut body: Vec<Position> = Vec::new();
        body.push(Position::new(5, 10));
        body.push(Position::new(4, 10));
        body.push(Position::new(3, 10));
        let s = Snake { body, direction: Direction::Right, grow_next: false };
        proof {
            assert(s@ =~= SnakeView::initial());
        }
        s
    }

    pub fn head(&self) -> (p: Position)
        requires
            self@.wf(),
        ensures
            p == self@.head(),
    {
        self.body[0]
    }

    /// One movement tick. Wall and self collision are not checked here; the
    /// caller detects them on the new state.
    pub fn update(&mut self)
        requires
            old(self)@.wf(),
            i32::MIN < old(self)@.head().x < i32::MAX,
            i32::MIN < old(self)@.head().y < i32::MAX,
        ensures
            final(self)@ == old(self)@.advanced(),
    {
        let head = self.body[0];
        let new_head = step(head, self.direction);
        self.body.insert(0, new_head);
        if !self.grow_next {
            self.body.pop();
        } else {
            self.grow_next = false;
        }
        proof {
            assert(self@ =~= old(self)@.advanced());
        }
    }

    /// Requests that the next movement tick lengthen the body by one cell.
    pub fn grow(&mut self)
        ensures
            final(self)@ == old(self)@.grown(),
    {
        self.grow_next = true;
    }

    /// Applies a direction request, dropping a request to reverse outright.
    pub fn change_direction(&mut self, new_direction: Direction)
        ensures
            final(self)@ == old(self)@.turned(new_direction),
    {
        match (self.direction, new_direction) {
            (Direction::Up, Direction::Down) => (),
            (Direction::Down, Direction::Up) => (),
            (Direction::Left, Direction::Right) => (),
            (Direction::Right, Direction::Left) => (),
            _ => {
                self.direction = new_direction;
            },
        }
    }

    pub fn check_wall_collision(&self, width: i32, height: i32) -> (r: bool)
        requires
            self@.wf(),
        ensures
            r == self@.hits_wall(width as int, height as int),
    {
        let head = self.body[0];
        head.x < 0 || head.x >= width || head.y < 0 || head.y >= height
    }

    pub fn check_self_collision(&self) -> (r: bool)
        requires
            self@.wf(),
        ensures
            r == self@.hits_self(),
    {
        let head = self.body[0];
        let mut i: usize = 1;
        while i < self.body.len()
            invariant
                self@.wf(),
                1 <= i <= self.body@.len(),
                head == self.body@[0],
                forall|j: int| 1 <= j < i ==> #[trigger] self.body@[j] != self.body@[0],
            decreases self.body@.len() - i,
        {
            if self.body[i] == head {
                return true;
            }
            i += 1;
        }
        false
    }
}

/// Law: a request to reverse the heading outright leaves the snake unchanged,
/// direction included.
pub proof fn lemma_reverse_request_ignored(s: SnakeView)
    ensures
        s.turned(s.direction.spec_opposite()) == s,
{
}

/// Law: advancing with no growth pending keeps the body length.
pub proof fn lemma_advance_preserves_length(s: SnakeView)
    requires
        s.wf(),
        !s.grow_next,
    ensures
        s.advanced().body.len() == s.body.len(),
{
}

/// Law: a pending growth is consumed by exactly the next advance: the body
/// gains one cell and the pending flag is cleared afterwards.
pub proof fn lemma_grow_then_advance(s: SnakeView)
    requires
        s.wf(),
    ensures
        s.grown().advanced().body.len() == s.body.len() + 1,
        !s.grown().advanced().grow_next,
{
}

} // verus!
