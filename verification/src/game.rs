//! The game simulation core: a state machine owning the snake body, the food
//! set, the pending-direction buffer and the termination flag. It is mutated
//! only through `tick` and `change_direction`, and every reachable state
//! satisfies the well-formedness invariant `wf`.

use vstd::prelude::*;

use std::collections::VecDeque;

use crate::geometry::Direction;
use crate::geometry::Vector;
use crate::random::random_range;

verus! {

/// Why constructing a game can fail.
#[derive(Debug, PartialEq, Eq, Structural, Clone, Copy)]
pub enum GameError {
    /// The grid dimensions were not positive.
    InvalidConfiguration,
}

/// The persisted best-score record. The current score is never stored: it is
/// derived from the snake's length.
#[derive(Debug, PartialEq, Eq, Structural, Clone, Copy)]
pub struct GameData {
    pub high_score: usize,
}

impl Default for GameData {
    /// A fresh record starts at zero.
    fn default() -> (d: GameData)
        ensures
            d.high_score == 0,
    {
        GameData { high_score: 0 }
    }
}

impl GameData {
    /// Raise the stored best score when `score` beats it; the record never
    /// decreases. Returns whether a new record was set, in which case the
    /// embedding persists the updated record.
    pub fn record_score(&mut self, score: usize) -> (improved: bool)
        ensures
            improved == (score > old(self).high_score),
            improved ==> final(self).high_score == score,
            !improved ==> final(self).high_score == old(self).high_score,
    {
        if score > self.high_score {
            self.high_score = score;
            true
        } else {
            false
        }
    }
}

/// `s` begins with `p`: every entry of `p` is still there, in order, and only
/// appended entries follow.
pub open spec fn seq_extends<T>(s: Seq<T>, p: Seq<T>) -> bool {
    p.len() <= s.len() && forall|k: int| 0 <= k < p.len() ==> s[k] == p[k]
}

/// The simulation state. The snake is an ordered sequence of cells, head
/// first; foods are paired one-to-one, by index, with their display icons.
#[derive(Debug)]
pub struct SnakeGame {
    pub width: usize,
    pub height: usize,
    pub snake: VecDeque<Vector>,
    pub foods: Vec<Vector>,
    pub food_icons: Vec<char>,
    pub direction: Direction,
    pub changed_direction: Direction,
    pub food_count: usize,
    pub finished: bool,
}

impl SnakeGame {
    /// The position lies within the `[0, width) x [0, height)` grid.
    pub open spec fn pos_in_bounds(self, v: Vector) -> bool {
        0 <= v.0 < self.width && 0 <= v.1 < self.height
    }

    /// Some snake cell occupies `v`.
    pub open spec fn snake_has(self, v: Vector) -> bool {
        exists|i: int| 0 <= i < self.snake@.len() && self.snake@[i] == v
    }

    /// Some food occupies `v`.
    pub open spec fn food_at(self, v: Vector) -> bool {
        exists|i: int| 0 <= i < self.foods@.len() && self.foods@[i] == v
    }

    /// The index of the food at `v`; meaningful only when `food_at(v)`
    /// holds, and then unique, since foods never share a cell.
    pub open spec fn food_index(self, v: Vector) -> int {
        choose|i: int| 0 <= i < self.foods@.len() && self.foods@[i] == v
    }

    /// Well-formedness, maintained by every operation:
    /// the grid is non-degenerate, the snake is non-empty, snake cells are
    /// pairwise distinct and in bounds, and foods are paired one-to-one with
    /// icons, capped by the food target, in bounds, pairwise distinct and
    /// disjoint from the snake.
    pub open spec fn wf(self) -> bool {
        &&& 1 <= self.width <= isize::MAX
        &&& 1 <= self.height <= isize::MAX
        &&& self.width * self.height <= usize::MAX
        &&& 1 <= self.snake@.len()
        &&& forall|i: int|
            0 <= i < self.snake@.len() ==> self.pos_in_bounds(#[trigger] self.snake@[i])
        &&& forall|i: int, j: int|
            0 <= i < j < self.snake@.len() ==> #[trigger] self.snake@[i] != #[trigger] self.snake@[j]
        &&& self.foods@.len() == self.food_icons@.len()
        &&& self.foods@.len() <= self.food_count
        &&& forall|i: int|
            0 <= i < self.foods@.len() ==> self.pos_in_bounds(#[trigger] self.foods@[i])
        &&& forall|i: int, j: int|
            0 <= i < j < self.foods@.len() ==> #[trigger] self.foods@[i] != #[trigger] self.foods@[j]
        &&& forall|i: int, j: int|
            0 <= i < self.foods@.len() && 0 <= j < self.snake@.len()
                ==> #[trigger] self.foods@[i] != #[trigger] self.snake@[j]
    }

    /// No self-overlap, and everything on the grid: in every well-formed
    /// state — and every reachable state is well-formed, since `new`
    /// establishes `wf` and `tick` and `change_direction` preserve it — the
    /// snake's cells are pairwise distinct, and every snake and food cell
    /// lies in `[0, width) x [0, height)`.
    pub proof fn lemma_wf_no_overlap_and_bounds(self)
        requires
            self.wf(),
        ensures
            forall|i: int, j: int|
                0 <= i < j < self.snake@.len()
                    ==> #[trigger] self.snake@[i] != #[trigger] self.snake@[j],
            forall|i: int|
                0 <= i < self.snake@.len()
                    ==> 0 <= (#[trigger] self.snake@[i]).0 < self.width && 0 <= self.snake@[i].1
                    < self.height,
            forall|i: int|
                0 <= i < self.foods@.len()
                    ==> 0 <= (#[trigger] self.foods@[i]).0 < self.width && 0 <= self.foods@[i].1
                    < self.height,
    {
    }

    /// The cell the head moves to on the next tick, once the pending
    /// direction is applied.
    pub open spec fn next_head(self) -> Vector {
        Vector(
            (self.snake@[0].0 + self.changed_direction.dx()) as isize,
            (self.snake@[0].1 + self.changed_direction.dy()) as isize,
        )
    }

    /// The next tick advances rather than terminates: the next head cell is
    /// on the grid and free of the snake's own body.
    pub open spec fn can_advance(self) -> bool {
        self.pos_in_bounds(self.next_head()) && !self.snake_has(self.next_head())
    }

    /// Build a fresh game: a single snake segment at `(width - 1, height / 2)`
    /// heading left, and up to `food_count` foods placed at random free cells.
    /// Non-positive dimensions are rejected.
    pub fn new(width: usize, height: usize, food_count: usize) -> (r: Result<SnakeGame, GameError>)
        requires
            width <= isize::MAX,
            height <= isize::MAX,
            width * height <= usize::MAX,
        ensures
            r is Ok <==> 1 <= width && 1 <= height,
            r matches Ok(g) ==> {
                &&& g.wf()
                &&& g.width == width
                &&& g.height == height
                &&& g.food_count == food_count
                &&& g.snake@ =~= seq![Vector((width - 1) as isize, (height / 2) as isize)]
                &&& g.direction == Direction::Left
                &&& g.changed_direction == Direction::Left
                &&& !g.finished
            },
            r matches Err(e) ==> e == GameError::InvalidConfiguration,
    {
        if width == 0 || height == 0 {
            return Err(GameError::InvalidConfiguration);
        }
        let mut snake: VecDeque<Vector> = VecDeque::new();
        snake.push_front(Vector((width - 1) as isize, (height / 2) as isize));
        let mut game = SnakeGame {
            width,
            height,
            snake,
            foods: Vec::new(),
            food_icons: Vec::new(),
            direction: Direction::Left,
            changed_direction: Direction::Left,
            food_count,
            finished: false,
        };
        game.spawn_food();
        Ok(game)
    }

    /// The current score: one point for each food eaten so far.
    pub fn score(&self) -> (s: usize)
        requires
            1 <= self.snake@.len(),
        ensures
            s == self.snake@.len() - 1,
    {
        self.snake.len() - 1
    }

    /// Buffer a direction request for the next tick. The request is ignored
    /// when the game is over, when it repeats the direction applied on the
    /// last tick, and when it reverses it: a snake may never make a U-turn
    /// into itself within one step.
    ///
    /// The check is made against the direction actually applied, not against
    /// an as-yet-unapplied pending request, so two inputs arriving within one
    /// tick interval cannot combine into an illegal reversal.
    pub fn change_direction(&mut self, direction: Direction)
        ensures
            final(self).width == old(self).width,
            final(self).height == old(self).height,
            final(self).snake == old(self).snake,
            final(self).foods == old(self).foods,
            final(self).food_icons == old(self).food_icons,
            final(self).direction == old(self).direction,
            final(self).food_count == old(self).food_count,
            final(self).finished == old(self).finished,
            final(self).changed_direction == if !old(self).finished && direction != old(
                self,
            ).direction && direction != old(self).direction.spec_opposite() {
                direction
            } else {
                old(self).changed_direction
            },
            old(self).finished ==> *final(self) == *old(self),
            direction == old(self).direction ==> *final(self) == *old(self),
            direction == old(self).direction.spec_opposite() ==> *final(self) == *old(self),
            old(self).wf() ==> final(self).wf(),
    {
        if self.finished {
            return;
        }
        if self.direction == direction || self.direction == direction.opposite() {
            return;
        }
        self.changed_direction = direction;
    }

    /// The head may move to `pos`: it is on the grid and not on the snake.
    fn valid_pos(&self, pos: &Vector) -> (r: bool)
        requires
            self.width <= isize::MAX,
            self.height <= isize::MAX,
        ensures
            r == (self.pos_in_bounds(*pos) && !self.snake_has(*pos)),
    {
        pos.0 >= 0 && pos.0 < self.width as isize && pos.1 >= 0 && pos.1 < self.height as isize
            && !self.snake_contains(pos)
    }

    /// Whether some snake cell occupies `pos`.
    pub(crate) fn snake_contains(&self, pos: &Vector) -> (r: bool)
        ensures
            r == self.snake_has(*pos),
    {
        let n = self.snake.len();
        let mut i: usize = 0;
        while i < n
            invariant
                n == self.snake@.len(),
                i <= n,
                forall|k: int| 0 <= k < i ==> self.snake@[k] != *pos,
            decreases n - i,
        {
            if self.snake[i] == *pos {
                return true;
            }
            i += 1;
        }
        false
    }

    /// The index of the food at `pos`, if any.
    pub(crate) fn food_index_at(&self, pos: &Vector) -> (r: Option<usize>)
        ensures
            match r {
                Some(i) => i < self.foods@.len() && self.foods@[i as int] == *pos,
                None => !self.food_at(*pos),
            },
    {
        let n = self.foods.len();
        let mut i: usize = 0;
        while i < n
            invariant
                n == self.foods@.len(),
                i <= n,
                forall|k: int| 0 <= k < i ==> self.foods@[k] != *pos,
            decreases n - i,
        {
            if self.foods[i] == *pos {
                return Some(i);
            }
            i += 1;
        }
        None
    }

    /// Whether `pos` is free for a new food: no food and no snake cell there.
    fn cell_free(&self, pos: &Vector) -> (r: bool)
        ensures
            r == (!self.food_at(*pos) && !self.snake_has(*pos)),
    {
        if self.snake_contains(pos) {
            return false;
        }
        match self.food_index_at(pos) {
            Some(_) => false,
            None => true,
        }
    }

    /// Place foods at random free cells until the food target is reached,
    /// best-effort: each missing food gets a bounded budget of random
    /// samples, and when a budget runs out the game keeps fewer foods rather
    /// than failing. Already-placed foods and the snake are never touched.
    fn spawn_food(&mut self)
        requires
            old(self).wf(),
        ensures
            final(self).wf(),
            final(self).width == old(self).width,
            final(self).height == old(self).height,
            final(self).snake == old(self).snake,
            final(self).direction == old(self).direction,
            final(self).changed_direction == old(self).changed_direction,
            final(self).food_count == old(self).food_count,
            final(self).finished == old(self).finished,
            seq_extends(final(self).foods@, old(self).foods@),
            seq_extends(final(self).food_icons@, old(self).food_icons@),
    {
        while self.foods.len() < self.food_count
            invariant_except_break
                self.wf(),
                self.width == old(self).width,
                self.height == old(self).height,
                self.snake == old(self).snake,
                self.direction == old(self).direction,
                self.changed_direction == old(self).changed_direction,
                self.food_count == old(self).food_count,
                self.finished == old(self).finished,
                seq_extends(self.foods@, old(self).foods@),
                seq_extends(self.food_icons@, old(self).food_icons@),
            ensures
                self.wf(),
                self.width == old(self).width,
                self.height == old(self).height,
                self.snake == old(self).snake,
                self.direction == old(self).direction,
                self.changed_direction == old(self).changed_direction,
                self.food_count == old(self).food_count,
                self.finished == old(self).finished,
                seq_extends(self.foods@, old(self).foods@),
                seq_extends(self.food_icons@, old(self).food_icons@),
            decreases self.food_count - self.foods@.len(),
        {
            if !self.spawn_one_food() {
                break;
            }
        }
    }

    /// Try to place a single food at a random free cell, giving up after a
    /// bounded number of rejected samples. Returns whether one was placed.
    fn spawn_one_food(&mut self) -> (placed: bool)
        requires
            old(self).wf(),
            old(self).foods@.len() < old(self).food_count,
        ensures
            final(self).wf(),
            final(self).width == old(self).width,
            final(self).height == old(self).height,
            final(self).snake == old(self).snake,
            final(self).direction == old(self).direction,
            final(self).changed_direction == old(self).changed_direction,
            final(self).food_count == old(self).food_count,
            final(self).finished == old(self).finished,
            placed ==> final(self).foods@.len() == old(self).foods@.len() + 1,
            seq_extends(final(self).foods@, old(self).foods@),
            seq_extends(final(self).food_icons@, old(self).food_icons@),
            !placed ==> final(self).foods@ == old(self).foods@ && final(self).food_icons@ == old(
                self,
            ).food_icons@,
    {
        let mut attempts: usize = 0;
        while attempts < 1000
            invariant
                self.wf(),
                self.foods@.len() < self.food_count,
                self.width == old(self).width,
                self.height == old(self).height,
                self.snake == old(self).snake,
                self.direction == old(self).direction,
                self.changed_direction == old(self).changed_direction,
                self.food_count == old(self).food_count,
                self.finished == old(self).finished,
                self.foods@ == old(self).foods@,
                self.food_icons@ == old(self).food_icons@,
            decreases 1000 - attempts,
        {
            attempts += 1;
            let new_food = Vector(
                random_range(0, self.width) as isize,
                random_range(0, self.height) as isize,
            );
            if self.cell_free(&new_food) {
                let icon_pick = random_range(0, 4);
                let icon = if icon_pick == 0 {
                    '\u{1F955}'
                } else if icon_pick == 1 {
                    '\u{1F35E}'
                } else if icon_pick == 2 {
                    '\u{1F951}'
                } else {
                    '\u{1F352}'
                };
                self.food_icons.push(icon);
                self.foods.push(new_food);
                return true;
            }
        }
        false
    }

    /// Advance the simulation one step. When the game is over this is a
    /// no-op. Otherwise the pending direction is applied and the head moves
    /// one cell that way:
    /// - off the grid or onto the body, the game terminates and nothing else
    ///   changes — the sole termination path;
    /// - onto a food, the snake grows by that cell at the front, the food and
    ///   its icon are removed (one fewer food, before respawning), and a
    ///   replacement is spawned best-effort;
    /// - onto a free cell, the snake translates: new head in front, tail
    ///   dropped, length unchanged.
    pub fn tick(&mut self)
        requires
            old(self).wf(),
        ensures
            final(self).wf(),
            final(self).width == old(self).width,
            final(self).height == old(self).height,
            final(self).food_count == old(self).food_count,
            old(self).finished ==> *final(self) == *old(self),
            !old(self).finished ==> {
                &&& final(self).direction == old(self).changed_direction
                &&& final(self).changed_direction == old(self).changed_direction
                &&& final(self).finished == !old(self).can_advance()
            },
            !old(self).finished && !old(self).can_advance() ==> {
                &&& final(self).snake@ == old(self).snake@
                &&& final(self).foods@ == old(self).foods@
                &&& final(self).food_icons@ == old(self).food_icons@
            },
            !old(self).finished && old(self).can_advance() && old(self).food_at(
                old(self).next_head(),
            ) ==> {
                &&& final(self).snake@ == seq![old(self).next_head()] + old(self).snake@
                &&& final(self).snake@.len() == old(self).snake@.len() + 1
                &&& forall|i: int|
                    0 <= i < old(self).foods@.len() && old(self).foods@[i] == old(self).next_head()
                        ==> seq_extends(final(self).foods@, old(self).foods@.remove(i))
                        && seq_extends(final(self).food_icons@, old(self).food_icons@.remove(i))
            },
            !old(self).finished && old(self).can_advance() && !old(self).food_at(
                old(self).next_head(),
            ) ==> {
                &&& final(self).snake@ == seq![old(self).next_head()] + old(self).snake@.drop_last()
                &&& final(self).snake@.len() == old(self).snake@.len()
                &&& final(self).foods@ == old(self).foods@
                &&& final(self).food_icons@ == old(self).food_icons@
            },
    {
        if self.finished {
            return;
        }
        self.direction = self.changed_direction;
        let head = self.snake[0];
        let new_head = head.add(self.direction.to_vec());

        if !self.valid_pos(&new_head) {
            self.finished = true;
            return;
        }

        match self.food_index_at(&new_head) {
            Some(i) => {
                self.foods.remove(i);
                self.food_icons.remove(i);
                self.snake.push_front(new_head);
                self.spawn_food();
            },
            None => {
                self.snake.pop_back();
                self.snake.push_front(new_head);
            },
        }
    }
}

} // verus!
