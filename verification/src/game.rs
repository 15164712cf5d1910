use vstd::prelude::*;

use crate::food::Food;
use crate::grid::{in_grid, Direction, GRID_HEIGHT, GRID_WIDTH};
use crate::snake::{Snake, SnakeView};

verus! {

/// Milliseconds of real time between two movement ticks.
pub const TICK_INTERVAL_MS: u64 = 150;

/// The whole game state: the snake, the food, the score, the terminal
/// game-over flag, and the clock bookkeeping that gates ticks.
pub struct Game {
    pub snake: Snake,
    pub food: Food,
    pub score: u32,
    pub game_over: bool,
    /// The clock reading, in milliseconds, at which the last tick ran.
    pub last_update: u64,
    /// Milliseconds that must have elapsed before the next tick runs.
    pub update_interval: u64,
}

/// How one tick transforms the game. The snake advances one cell; if its new
/// head sits on the food, a growth is queued for the next tick, the score
/// rises by one and the food is re-rolled onto some cell off the body;
/// the game ends exactly when the new head is off the grid or on the rest of
/// the body; the tick clock is re-anchored at `now`, so missed intervals are
/// never back-filled.
pub open spec fn ticked(pre: Game, post: Game, now: u64) -> bool {
    let moved = pre.snake@.advanced();
    let ate = moved.head() == pre.food.position;
    &&& post.snake@ == if ate {
        moved.grown()
    } else {
        moved
    }
    &&& post.score == if ate {
        pre.score + 1
    } else {
        pre.score as int
    }
    &&& if ate {
        in_grid(post.food.position, GRID_WIDTH as int, GRID_HEIGHT as int)
            && !post.snake@.body.contains(post.food.position)
    } else {
        post.food.position == pre.food.position
    }
    &&& post.game_over == (moved.hits_wall(GRID_WIDTH as int, GRID_HEIGHT as int)
        || moved.hits_self())
    &&& post.last_update == now
    &&& post.update_interval == pre.update_interval
}

impl Game {
    /// Well-formedness: the snake has a body; while the game is running, its
    /// head lies on the grid, so one more step cannot overflow a coordinate.
    pub open spec fn wf(self) -> bool {
        &&& self.snake@.wf()
        &&& !self.game_over ==> in_grid(
            self.snake@.head(),
            GRID_WIDTH as int,
            GRID_HEIGHT as int,
        )
    }

    /// A fresh game: the starting snake, a random food cell (the starting
    /// body is not avoided on this first placement), zero score, running,
    /// with the tick clock anchored at `now` (milliseconds).
    pub fn new(now: u64) -> (g: Game)
        ensures
            g.wf(),
            g.snake@ == SnakeView::initial(),
            in_grid(g.food.position, GRID_WIDTH as int, GRID_HEIGHT as int),
            g.score == 0,
            !g.game_over,
            g.last_update == now,
            g.update_interval == TICK_INTERVAL_MS,
    {
        Game {
            snake: Snake::new(),
            food: Food::new(),
            score: 0,
            game_over: false,
            last_update: now,
            update_interval: TICK_INTERVAL_MS,
        }
    }

    /// One frame's worth of game logic, given the current clock reading in
    /// milliseconds. Once the game is over nothing changes any more; before
    /// the tick interval has elapsed nothing changes either; otherwise
    /// exactly one tick runs.
    pub fn update(&mut self, now: u64)
        requires
            old(self).wf(),
            old(self).score < u32::MAX,
            old(self).snake@.body.len() + 1 < GRID_WIDTH * GRID_HEIGHT,
            now >= old(self).last_update,
        ensures
            final(self).wf(),
            old(self).game_over ==> *final(self) == *old(self),
            !old(self).game_over && now - old(self).last_update < old(self).update_interval
                ==> *final(self) == *old(self),
            !old(self).game_over && now - old(self).last_update >= old(self).update_interval
                ==> ticked(*old(self), *final(self), now),
    {
        if self.game_over {
            return;
        }
        if now - self.last_update >= self.update_interval {
            self.snake.update();
            self.check_food_collision();
            self.check_game_over();
            self.last_update = now;
        }
    }

    /// Resolves eating: when the head sits on the food, queue a growth, count
    /// the point, and move the food off the body.
    fn check_food_collision(&mut self)
        requires
            old(self).snake@.wf(),
            old(self).score < u32::MAX,
            old(self).snake@.body.len() < GRID_WIDTH * GRID_HEIGHT,
        ensures
            old(self).snake@.head() == old(self).food.position ==> final(self).snake@ == old(
                self,
            ).snake@.grown() && final(self).score == old(self).score + 1 && in_grid(
                final(self).food.position,
                GRID_WIDTH as int,
                GRID_HEIGHT as int,
            ) && !final(self).snake@.body.contains(final(self).food.position),
            old(self).snake@.head() != old(self).food.position ==> *final(self) == *old(self),
            final(self).game_over == old(self).game_over,
            final(self).last_update == old(self).last_update,
            final(self).update_interval == old(self).update_interval,
    {
        let head = self.snake.head();
        if head == self.food.position {
            self.snake.grow();
            self.score = self.score + 1;
            self.food.randomize(&self.snake.body);
        }
    }

    /// Ends the game when the snake's head is off the grid or on the rest of
    /// its body.
    fn check_game_over(&mut self)
        requires
            old(self).snake@.wf(),
        ensures
            final(self).snake == old(self).snake,
            final(self).food == old(self).food,
            final(self).score == old(self).score,
            final(self).last_update == old(self).last_update,
            final(self).update_interval == old(self).update_interval,
            final(self).game_over == (old(self).game_over || old(self).snake@.hits_wall(
                GRID_WIDTH as int,
                GRID_HEIGHT as int,
            ) || old(self).snake@.hits_self()),
    {
        if self.snake.check_wall_collision(GRID_WIDTH, GRID_HEIGHT)
            || self.snake.check_self_collision() {
            self.game_over = true;
        }
    }

    /// Applies one direction request from the player to the snake; a request
    /// to reverse outright is dropped, and of several requests in one frame
    /// the last accepted one wins, since each overwrites the heading.
    pub fn steer(&mut self, d: Direction)
        ensures
            final(self).snake@ == old(self).snake@.turned(d),
            final(self).food == old(self).food,
            final(self).score == old(self).score,
            final(self).game_over == old(self).game_over,
            final(self).last_update == old(self).last_update,
            final(self).update_interval == old(self).update_interval,
    {
        self.snake.change_direction(d);
    }
}

} // verus!
