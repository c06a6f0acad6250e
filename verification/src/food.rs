//! The food entity: a single cell that relocates to a random free cell
//! whenever the player's body covers it.

use vstd::prelude::*;
use rand::Rng;
use crate::geometry::{Point, spec_in_bounds, GRID_X_SIZE, GRID_Y_SIZE};
use crate::player::Player;

verus! {

/// How many random draws a relocation makes before it falls back to a
/// deterministic scan of the grid. The fallback keeps the relocation loop
/// provably terminating; with a 39 x 29 board it is reached only with
/// vanishing probability, so the observable distribution is that of plain
/// rejection sampling.
const RESPAWN_ATTEMPTS: u32 = 1000;

#[verifier::external_type_specification]
#[verifier::external_body]
pub struct ExThreadRng(rand::rngs::ThreadRng);

/// Relies on rand::thread_rng: a handle to the thread-local random number
/// generator.
#[verifier::external_body]
fn new_rng() -> rand::rngs::ThreadRng {
    rand::thread_rng()
}

/// Relies on rand::Rng::gen_range: a value drawn uniformly from `lo..hi`.
/// The call panics on an empty range, which the precondition rules out.
#[verifier::external_body]
fn rand_range(rng: &mut rand::rngs::ThreadRng, lo: i32, hi: i32) -> (r: i32)
    requires
        lo < hi,
    ensures
        lo <= r < hi,
{
    rng.gen_range(lo..hi)
}

/// Whether some in-bounds cell is not covered by `body`.
pub open spec fn has_free_cell(body: Seq<Point>) -> bool {
    exists|p: Point| spec_in_bounds(p) && !body.contains(p)
}

/// A food item occupying one grid cell.
pub struct Food {
    pub location: Point,
}

/// How one `Food::update` call relates the food before (`pre`) and after
/// (`post`) to the body it was checked against:
/// - a food cell the body does not cover is left where it is;
/// - as long as some in-bounds cell is free, the food ends up on an
///   in-bounds cell the body does not cover;
/// - on a board with no free cell left the food is not moved.
pub open spec fn food_update_spec(pre: Food, post: Food, body: Seq<Point>) -> bool {
    &&& !body.contains(pre.location) ==> post == pre
    &&& has_free_cell(body) ==> !body.contains(post.location)
    &&& body.contains(pre.location) && has_free_cell(body) ==> spec_in_bounds(post.location)
    &&& !has_free_cell(body) ==> post == pre
}

/// The first in-bounds cell, scanning row by row and left to right, that
/// the player's body does not cover, or `None` when the body covers every
/// in-bounds cell.
pub fn first_free_cell(player: &Player) -> (r: Option<Point>)
    ensures
        match r {
            Some(p) => spec_in_bounds(p) && !player.body@.contains(p),
            None => !has_free_cell(player.body@),
        },
{
    let mut y: i32 = 1;
    while y < GRID_Y_SIZE
        invariant
            1 <= y <= GRID_Y_SIZE,
            forall|p: Point| spec_in_bounds(p) && p.1 < y ==> #[trigger] player.body@.contains(p),
        decreases GRID_Y_SIZE - y,
    {
        let mut x: i32 = 1;
        while x < GRID_X_SIZE
            invariant
                1 <= x <= GRID_X_SIZE,
                1 <= y < GRID_Y_SIZE,
                forall|p: Point| spec_in_bounds(p) && p.1 < y ==> #[trigger] player.body@.contains(p),
                forall|p: Point|
                    spec_in_bounds(p) && p.1 == y && p.0 < x ==> #[trigger] player.body@.contains(p),
            decreases GRID_X_SIZE - x,
        {
            let candidate = Point(x, y);
            if !player.contains(&candidate) {
                return Some(candidate);
            }
            x = x + 1;
        }
        y = y + 1;
    }
    None
}

impl Food {
    /// A fresh food item at the fixed starting cell.
    pub fn new() -> (f: Food)
        ensures
            f.location == Point(3, 3),
            spec_in_bounds(f.location),
    {
        Food { location: Point(3, 3) }
    }

    /// Relocate the food while the player's body covers it: draw uniformly
    /// random in-bounds cells until a free one comes up, falling back to a
    /// deterministic scan once the attempt budget is spent so that the
    /// update provably terminates.
    pub fn update(&mut self, player: &Player)
        ensures
            food_update_spec(*old(self), *final(self), player.body@),
    {
        let occupied_at_entry = player.contains(&self.location);
        if !occupied_at_entry {
            return;
        }
        let orig = self.location;
        let mut occupied = true;
        let mut attempts: u32 = 0;
        while occupied && attempts < RESPAWN_ATTEMPTS
            invariant
                occupied == player.body@.contains(self.location),
                !occupied ==> spec_in_bounds(self.location),
            decreases RESPAWN_ATTEMPTS - attempts,
        {
            let mut rng = new_rng();
            let x = rand_range(&mut rng, 1, GRID_X_SIZE);
            let y = rand_range(&mut rng, 1, GRID_Y_SIZE);
            self.location = Point(x, y);
            occupied = player.contains(&self.location);
            attempts = attempts + 1;
        }
        if occupied {
            match first_free_cell(player) {
                Some(p) => {
                    self.location = p;
                    proof {
                        assert(has_free_cell(player.body@));
                    }
                },
                None => {
                    self.location = orig;
                },
            }
        } else {
            proof {
                assert(has_free_cell(player.body@));
            }
        }
    }
}

/// Respawn exclusion law: however many times the food is relocated against
/// one and the same body, every relocated position avoids that body, as
/// long as the board has a free cell at all. `states` lists the food after
/// each successive update, starting from the initial state.
pub proof fn lemma_respawn_exclusion(states: Seq<Food>, body: Seq<Point>)
    requires
        has_free_cell(body),
        forall|i: int|
            0 <= i < states.len() - 1 ==> food_update_spec(
                #[trigger] states[i],
                states[i + 1],
                body,
            ),
    ensures
        forall|i: int| 1 <= i < states.len() ==> !body.contains(#[trigger] states[i].location),
{
    assert forall|i: int| 1 <= i < states.len() implies !body.contains(
        #[trigger] states[i].location,
    ) by {
        assert(food_update_spec(states[i - 1], states[i], body));
    }
}

} // verus!
