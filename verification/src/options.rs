//! What the options menu offers.

use vstd::prelude::*;

verus! {

/// Display modes the options menu offers: wider than 800, taller than 600,
/// with 32-bit colour.
pub fn is_usable_video_mode(width: u32, height: u32, bit_depth: u16) -> (b: bool)
    ensures
        b == (width > 800 && height > 600 && bit_depth == 32),
{
    width > 800 && height > 600 && bit_depth == 32
}

} // verus!
