use vstd::prelude::*;
use crate::states::{SpriteLocation, row_next_index, row_step_fits};

verus! {

/// The sprite frame and mirroring to draw after an animation tick: when the
/// frame timer has just run out the animation moves one frame on; the sprite
/// is mirrored as the animation says.
pub fn advance_sprite<T: SpriteLocation>(info: &T, index: usize, frame_elapsed: bool) -> (r: (usize, bool))
    requires
        frame_elapsed ==> row_step_fits(info.row().0, index),
    ensures
        r.0 == if frame_elapsed {
            row_next_index(info.row().0, info.row().1, index)
        } else {
            index as int
        },
        r.1 == info.flipped(),
{
    let next = if frame_elapsed { info.next_index(index) } else { index };
    (next, info.is_flip())
}

} // verus!
