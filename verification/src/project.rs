//! What the program calls itself.

use vstd::prelude::*;

verus! {

pub const APP_NAME: &'static str = "Vulkan Project Rust";

pub const VERSION_MAJOR: u32 = 0;

pub const VERSION_MINOR: u32 = 1;

/// Width of the window before the first resize.
pub const INITIAL_WINDOW_WIDTH: i32 = 640;

/// Height of the window before the first resize.
pub const INITIAL_WINDOW_HEIGHT: i32 = 480;

/// What the program hands back to the system when it ends with `failed`: zero after a
/// clean shutdown, and -1 after an error at startup or in a frame.
pub fn exit_code(failed: bool) -> (code: i32)
    ensures
        code == (if failed {
            -1i32
        } else {
            0i32
        }),
{
    if failed {
        -1
    } else {
        0
    }
}

} // verus!
