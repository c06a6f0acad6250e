//! The player entity: an ordered body of grid cells (tail first, head last),
//! a facing direction, an aliveness flag and a score, together with the
//! per-tick movement and collision rules.

use vstd::prelude::*;
use std::collections::VecDeque;
use crate::geometry::{Point, Direction, spec_unit, spec_opposite, spec_in_bounds, in_bounds};
use crate::food::Food;

verus! {

/// The snake controlled by the player.
///
/// The body is ordered from tail (front) to head (back); the cells are
/// pairwise distinct and in bounds, which `wf` captures.
pub struct Player {
    pub body: VecDeque<Point>,
    pub direction: Direction,
    pub alive: bool,
    pub score: u32,
}

impl Player {
    /// Well-formedness of the body: non-empty, every cell in bounds, and no
    /// cell occupied twice.
    pub open spec fn wf(self) -> bool {
        &&& self.body@.len() >= 1
        &&& forall|i: int| 0 <= i < self.body@.len() ==> spec_in_bounds(#[trigger] self.body@[i])
        &&& forall|i: int, j: int|
            0 <= i < j < self.body@.len() ==> self.body@[i] != self.body@[j]
    }

    /// The head cell: the most recently added element of the body.
    pub open spec fn spec_head(self) -> Point {
        self.body@.last()
    }

    /// The direction actually taken for a tick: the input direction, unless
    /// it points straight back into the neck, in which case the input is
    /// ignored and the current direction is kept.
    pub open spec fn committed_direction(self, input: Direction) -> Direction {
        if input == spec_opposite(self.direction) {
            self.direction
        } else {
            input
        }
    }

    /// The cell the head moves to in a tick with the given input.
    pub open spec fn next_cell(self, input: Direction) -> Point {
        let d = spec_unit(self.committed_direction(input));
        Point((self.spec_head().0 + d.0) as i32, (self.spec_head().1 + d.1) as i32)
    }

    /// Whether the move of a tick is fatal: the target cell is occupied by
    /// the body as it stands before the move (the tail has not been vacated
    /// yet — a deliberately conservative collision rule), or lies outside
    /// the grid.
    pub open spec fn hits(self, input: Direction) -> bool {
        self.body@.contains(self.next_cell(input)) || !spec_in_bounds(self.next_cell(input))
    }

    /// Whether a (non-fatal) tick consumes the food at `food_loc`: the body
    /// after growing by the new head covers that cell.
    pub open spec fn eats(self, food_loc: Point, input: Direction) -> bool {
        &&& !self.hits(input)
        &&& (self.body@.contains(food_loc) || self.next_cell(input) == food_loc)
    }
}

/// How one tick of `Player::update` relates the player state before (`pre`)
/// and after (`post`), given the food location and the buffered input
/// direction:
/// - the facing direction becomes the committed direction;
/// - a fatal move leaves the body untouched, clears `alive` and keeps the
///   score;
/// - a move onto the food appends the new head and raises the score by one;
/// - any other move appends the new head and vacates the tail.
pub open spec fn update_spec(pre: Player, post: Player, food_loc: Point, input: Direction) -> bool {
    let next = pre.next_cell(input);
    &&& post.direction == pre.committed_direction(input)
    &&& if pre.hits(input) {
        &&& post.body@ == pre.body@
        &&& post.alive == false
        &&& post.score == pre.score
    } else if pre.eats(food_loc, input) {
        &&& post.body@ == pre.body@.push(next)
        &&& post.alive == pre.alive
        &&& post.score == pre.score + 1
    } else {
        &&& post.body@ == pre.body@.subrange(1, pre.body@.len() as int).push(next)
        &&& post.alive == pre.alive
        &&& post.score == pre.score
    }
}

impl Player {
    /// A fresh player: three cells long in the top-left corner, facing
    /// right, alive, with a score equal to the body length.
    pub fn new() -> (p: Player)
        ensures
            p.body@ == seq![Point(1, 1), Point(2, 1), Point(3, 1)],
            p.direction == Direction::Right,
            p.alive == true,
            p.score == 3,
            p.wf(),
    {
        let mut body: VecDeque<Point> = VecDeque::new();
        body.push_back(Point(1, 1));
        body.push_back(Point(2, 1));
        body.push_back(Point(3, 1));
        proof {
            assert(body@ =~= seq![Point(1, 1), Point(2, 1), Point(3, 1)]);
        }
        Player { body, direction: Direction::Right, alive: true, score: 3 }
    }

    /// Whether `point` is one of the cells of the body.
    pub fn contains(&self, point: &Point) -> (b: bool)
        ensures
            b == self.body@.contains(*point),
    {
        let n = self.body.len();
        let mut i: usize = 0;
        while i < n
            invariant
                n == self.body@.len(),
                i <= n,
                forall|j: int| 0 <= j < i ==> self.body@[j] != *point,
            decreases n - i,
        {
            if self.body[i] == *point {
                return true;
            }
            i = i + 1;
        }
        false
    }

    /// Whether the player has died. Death is terminal: no update revives
    /// the player.
    pub fn is_dead(&self) -> (b: bool)
        ensures
            b == !self.alive,
    {
        !self.alive
    }

    /// Advance the snake by one tick: commit the input direction unless it
    /// reverses the current one, move the head one cell, die on a wall or
    /// body collision, grow and score when the food cell is reached, and
    /// otherwise vacate the tail.
    pub fn update(&mut self, food: &Food, input_direction: Direction)
        requires
            old(self).wf(),
            old(self).score < u32::MAX,
        ensures
            update_spec(*old(self), *final(self), food.location, input_direction),
            final(self).wf(),
            old(self).alive == false ==> final(self).alive == false,
    {
        let opp = self.direction.opposite();
        if input_direction != opp {
            self.direction = input_direction;
        }

        proof {
            assert(spec_in_bounds(old(self).body@[old(self).body@.len() - 1]));
        }
        let head: Point = self.body[self.body.len() - 1];
        let next_move = head.plus(self.direction.unit());

        let self_intersects = self.contains(&next_move);
        let collides_with_wall = !in_bounds(&next_move);

        if self_intersects || collides_with_wall {
            self.alive = false;
            return;
        }

        self.body.push_back(next_move);

        let food_eaten = self.contains(&food.location);
        proof {
            let pre = *old(self);
            vstd::seq_lib::lemma_seq_contains_after_push(
                pre.body@,
                pre.next_cell(input_direction),
                food.location,
            );
        }
        if !food_eaten {
            self.body.pop_front();
            proof {
                let pre = *old(self);
                let next = pre.next_cell(input_direction);
                assert(self.body@ =~= pre.body@.subrange(1, pre.body@.len() as int).push(next));
            }
        } else {
            self.score = self.score + 1;
        }
    }
}

/// Growth law: a tick that eats the food grows the body and the score by
/// exactly one; every other tick, fatal or not, leaves both the body length
/// and the score unchanged.
pub proof fn lemma_growth(pre: Player, post: Player, food_loc: Point, input: Direction)
    requires
        pre.wf(),
        update_spec(pre, post, food_loc, input),
    ensures
        pre.eats(food_loc, input) ==> post.body@.len() == pre.body@.len() + 1
            && post.score == pre.score + 1,
        !pre.eats(food_loc, input) ==> post.body@.len() == pre.body@.len()
            && post.score == pre.score,
{
}

/// Reversal rejection law: an input pointing straight back keeps the
/// current direction, and a surviving move still carries the head one cell
/// the way the snake was already facing.
pub proof fn lemma_reversal_rejected(pre: Player, post: Player, food_loc: Point, input: Direction)
    requires
        pre.wf(),
        update_spec(pre, post, food_loc, input),
        input == spec_opposite(pre.direction),
    ensures
        post.direction == pre.direction,
        !pre.hits(input) ==> post.spec_head() == Point(
            (pre.spec_head().0 + spec_unit(pre.direction).0) as i32,
            (pre.spec_head().1 + spec_unit(pre.direction).1) as i32,
        ),
{
}

/// Death is terminal: once `alive` is false, no tick sets it back to true.
pub proof fn lemma_death_terminal(pre: Player, post: Player, food_loc: Point, input: Direction)
    requires
        update_spec(pre, post, food_loc, input),
        pre.alive == false,
    ensures
        post.alive == false,
{
}

} // verus!
