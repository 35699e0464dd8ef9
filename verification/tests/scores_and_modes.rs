use rusty_shooter::chance::footstep_sound_at;
use rusty_shooter::level::is_match_over;
use rusty_shooter::hud::two_highest;
use rusty_shooter::options::is_usable_video_mode;

#[test]
fn two_highest_scores() {
    assert_eq!(two_highest(&[]), (None, None));
    assert_eq!(two_highest(&[7]), (Some(7), None));
    assert_eq!(two_highest(&[3, 9, 5]), (Some(9), Some(5)));
    assert_eq!(two_highest(&[4, 8, 8, 1]), (Some(8), Some(8)));
    assert_eq!(two_highest(&[0, 0]), (Some(0), Some(0)));
}

#[test]
fn usable_video_modes() {
    assert!(is_usable_video_mode(1920, 1080, 32));
    assert!(!is_usable_video_mode(800, 1080, 32));
    assert!(!is_usable_video_mode(1024, 600, 32));
    assert!(!is_usable_video_mode(1024, 768, 16));
}

#[test]
fn deathmatch_ends_at_a_limit() {
    assert!(!is_match_over(&[3, 5, 1], 30, false));
    assert!(is_match_over(&[3, 30, 1], 30, false));
    assert!(is_match_over(&[31], 30, false));
    // At the time limit a sole leader wins, and a tie plays on.
    assert!(is_match_over(&[3, 5, 1], 30, true));
    assert!(!is_match_over(&[5, 5, 1], 30, true));
    assert!(is_match_over(&[2], 30, true));
    assert!(!is_match_over(&[], 30, true));
    // The frag limit ends a tied match too.
    assert!(is_match_over(&[30, 30], 30, false));
}

#[test]
fn footstep_sounds_by_position() {
    assert_eq!(footstep_sound_at(0), "data/sounds/footsteps/FootStep_shoe_stone_step1.wav");
    assert_eq!(footstep_sound_at(3), "data/sounds/footsteps/FootStep_shoe_stone_step4.wav");
}
