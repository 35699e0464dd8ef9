//! Random choices, drawn from the `rand` crate's thread-local generator.

use vstd::prelude::*;
use rand::Rng;

verus! {

/// Draws an index below `len` with `rand::thread_rng().gen_range(0..len)`.
/// rand documents that `gen_range` returns a value inside the range and
/// panics on an empty one; which index comes is chance, so only the bound
/// is claimed.
#[verifier::external_body]
pub(crate) fn random_index(len: usize) -> (i: usize)
    requires
        len > 0,
    ensures
        i < len,
{
    rand::thread_rng().gen_range(0..len)
}

/// The step sounds a walking character plays.
pub open spec fn footstep_sound(i: int) -> &'static str {
    if i == 0 {
        "data/sounds/footsteps/FootStep_shoe_stone_step1.wav"
    } else if i == 1 {
        "data/sounds/footsteps/FootStep_shoe_stone_step2.wav"
    } else if i == 2 {
        "data/sounds/footsteps/FootStep_shoe_stone_step3.wav"
    } else {
        "data/sounds/footsteps/FootStep_shoe_stone_step4.wav"
    }
}

/// The step sound at position `i` of the list of four.
pub fn footstep_sound_at(i: usize) -> (s: &'static str)
    requires
        i < 4,
    ensures
        s == footstep_sound(i as int),
{
    if i == 0 {
        "data/sounds/footsteps/FootStep_shoe_stone_step1.wav"
    } else if i == 1 {
        "data/sounds/footsteps/FootStep_shoe_stone_step2.wav"
    } else if i == 2 {
        "data/sounds/footsteps/FootStep_shoe_stone_step3.wav"
    } else {
        "data/sounds/footsteps/FootStep_shoe_stone_step4.wav"
    }
}

/// One of the four step sounds, picked at random.
pub fn random_footstep_sound() -> (s: &'static str)
    ensures
        exists|i: int| 0 <= i < 4 && s == footstep_sound(i),
{
    let i = random_index(4);
    footstep_sound_at(i)
}

/// The four step sounds are the files `FootStep_shoe_stone_step1.wav` to
/// `step4.wav`, in that order, and no two are the same.
pub proof fn footstep_sounds_are_four_different_files(i: int, j: int)
    requires
        0 <= i < 4,
        0 <= j < 4,
    ensures
        i == 0 ==> footstep_sound(i) == "data/sounds/footsteps/FootStep_shoe_stone_step1.wav",
        i == 1 ==> footstep_sound(i) == "data/sounds/footsteps/FootStep_shoe_stone_step2.wav",
        i == 2 ==> footstep_sound(i) == "data/sounds/footsteps/FootStep_shoe_stone_step3.wav",
        i == 3 ==> footstep_sound(i) == "data/sounds/footsteps/FootStep_shoe_stone_step4.wav",
        i != j ==> footstep_sound(i)@ != footstep_sound(j)@,
{
    reveal_strlit("data/sounds/footsteps/FootStep_shoe_stone_step1.wav");
    reveal_strlit("data/sounds/footsteps/FootStep_shoe_stone_step2.wav");
    reveal_strlit("data/sounds/footsteps/FootStep_shoe_stone_step3.wav");
    reveal_strlit("data/sounds/footsteps/FootStep_shoe_stone_step4.wav");
    if i != j {
        assert(footstep_sound(i)@[46] != footstep_sound(j)@[46]);
    }
}

} // verus!
