use vstd::prelude::*;

verus! {

use crate::input::ActionInput;

/// The horizontal displacement, in whole units, that one frame of
/// movement input produces: one unit right while the right action is
/// pressed, otherwise one unit left while the left action is pressed,
/// otherwise none.
pub fn horizontal_step(input: &ActionInput) -> (dx: i32)
    ensures
        input.right ==> dx == 1,
        !input.right && input.left ==> dx == -1,
        !input.right && !input.left ==> dx == 0,
{
    if input.right {
        1
    } else if input.left {
        -1
    } else {
        0
    }
}

} // verus!
