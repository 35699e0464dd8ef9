use rusty_shooter::bot::{bot_rules, BotSenses};
use rusty_shooter::control_scheme::{ControlButton, ControlScheme, KEY_A, KEY_D, KEY_S, KEY_SPACE, KEY_W};
use rusty_shooter::item::ItemKind;
use rusty_shooter::level::{jump_pad_marker_names, map_marker, MapMarker};
use rusty_shooter::player::Controller;
use rusty_shooter::text::starts_with;

#[test]
fn map_nodes_are_classified_by_name() {
    assert_eq!(map_marker("JumpPad01"), MapMarker::JumpPad);
    assert_eq!(map_marker("Medkit_3"), MapMarker::Item(ItemKind::Medkit));
    assert_eq!(map_marker("Ammo_Ak47_1"), MapMarker::Item(ItemKind::Ak47Ammo762));
    assert_eq!(map_marker("Ammo_M4"), MapMarker::Item(ItemKind::M4Ammo556));
    assert_eq!(map_marker("Ammo_Plasma2"), MapMarker::Item(ItemKind::Plasma));
    assert_eq!(map_marker("SpawnPoint5"), MapMarker::SpawnPoint);
    assert_eq!(map_marker("DeathZone"), MapMarker::DeathZone);
    assert_eq!(map_marker("Polygon"), MapMarker::Scenery);
    assert_eq!(map_marker("Jump"), MapMarker::Scenery);
    assert_eq!(map_marker(""), MapMarker::Scenery);
    assert_eq!(map_marker("Medkït"), MapMarker::Scenery);
}

#[test]
fn jump_pad_markers() {
    let (begin, end) = jump_pad_marker_names("JumpPad3");
    assert_eq!(begin, "JumpPad3_Begin");
    assert_eq!(end, "JumpPad3_End");
}

#[test]
fn prefixes() {
    assert!(starts_with("DeathZone1", "DeathZone"));
    assert!(starts_with("abc", ""));
    assert!(!starts_with("ab", "abc"));
    assert!(starts_with("äbc", "äb"));
    assert!(!starts_with("abc", "abd"));
}

#[test]
fn walking_directions() {
    let s = ControlScheme::default();
    let mut c = Controller::default();
    assert_eq!(c.move_axes(), (0, 0));
    c.apply_button(&s, ControlButton::Key(KEY_W), true);
    c.apply_button(&s, ControlButton::Key(KEY_A), true);
    assert_eq!(c.move_axes(), (1, 1));
    c.apply_button(&s, ControlButton::Key(KEY_S), true);
    c.apply_button(&s, ControlButton::Key(KEY_D), true);
    assert_eq!(c.move_axes(), (0, 0));
    c.apply_button(&s, ControlButton::Key(KEY_W), false);
    c.apply_button(&s, ControlButton::Key(KEY_A), false);
    assert_eq!(c.move_axes(), (-1, -1));
}

#[test]
fn jumps_need_ground() {
    let s = ControlScheme::default();
    let mut c = Controller::default();
    c.apply_button(&s, ControlButton::Key(KEY_SPACE), true);
    assert!(!c.take_jump(false));
    assert!(!c.jump);
    c.apply_button(&s, ControlButton::Key(KEY_SPACE), true);
    assert!(c.take_jump(true));
    assert!(!c.jump);
    assert!(!c.take_jump(true));
}

#[test]
fn bot_machine_rules() {
    let far_hit = BotSenses {
        far: true,
        near: false,
        target_above: true,
        in_reach: false,
        has_ground_contact: true,
        was_damaged: true,
        recovered: true,
    };
    let r = bot_rules(far_hit);
    assert!(r.idle_to_walk && r.whip_to_aim && !r.walk_to_idle && !r.aim_to_whip);
    assert!(r.whip_to_hit_reaction && r.aim_to_hit_reaction && !r.hit_reaction_to_aim);
    assert!(!r.need_jump && !r.walk_to_jump && !r.idle_to_jump);
    assert!(r.falling_to_idle && !r.jump_to_falling);

    let close_above = BotSenses {
        far: false,
        near: true,
        in_reach: true,
        was_damaged: false,
        recovered: true,
        ..far_hit
    };
    let r = bot_rules(close_above);
    assert!(r.need_jump && r.walk_to_jump && r.idle_to_jump);
    assert!(r.walk_to_idle && r.aim_to_whip && r.hit_reaction_to_aim);

    // A bot hit on this frame does not aim, though it had recovered before.
    assert!(!bot_rules(BotSenses { was_damaged: true, ..close_above }).hit_reaction_to_aim);
    assert!(!bot_rules(BotSenses { recovered: false, ..close_above }).hit_reaction_to_aim);

    let airborne = BotSenses { has_ground_contact: false, ..close_above };
    let r = bot_rules(airborne);
    assert!(!r.need_jump && r.jump_to_falling && !r.falling_to_idle);
}
