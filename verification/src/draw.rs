//! Picking a position in the catalog at random.

use rand::Rng;
use vstd::prelude::*;

verus! {

/// Whether `idx` is a position in a catalog of `total` games.
pub open spec fn in_catalog(idx: int, total: int) -> bool {
    0 <= idx < total
}

/// A catalog of one game has one position, the first.
pub proof fn law_one_game_has_one_position(idx: int)
    requires
        in_catalog(idx, 1),
    ensures
        idx == 0,
{
}

/// Calls `rand::Rng::gen_range` on the thread's generator, with the range
/// from zero up to, and without, `max`. The generator samples an integer
/// uniformly from a range that is not empty, and stops the program on an
/// empty one; so `max` is at least one, and all that is claimed of the
/// outcome is that it lies in the range.
#[verifier::external_body]
fn random(max: i64) -> (idx: i64)
    requires
        max >= 1,
    ensures
        in_catalog(idx as int, max as int),
{
    rand::thread_rng().gen_range(0..max)
}

/// Draws a position in a catalog of `total` games, each with the same
/// chance. A catalog of one game has one position, the first.
pub fn draw_index(total: i64) -> (idx: i64)
    requires
        total >= 1,
    ensures
        in_catalog(idx as int, total as int),
        total == 1 ==> idx == 0,
{
    random(total)
}

} // verus!
