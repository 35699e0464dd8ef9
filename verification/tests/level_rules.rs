use rusty_shooter::bot::{advance_path_point, decide_shot, BotKind, BotSenses, ShotDecision};
use rusty_shooter::chance::random_footstep_sound;
use rusty_shooter::hud::{clock_text, NotificationUpdate, Notifications};
use rusty_shooter::item::ItemKind;
use rusty_shooter::level::{
    bot_name, bot_spawned_notification, earns_frag, give_item, item_pickup_notification,
    weapon_pickup_notification, ItemEffect,
};
use rusty_shooter::text::{push_decimal, push_padded2, push_signed_decimal};
use rusty_shooter::weapon::WeaponKind;

fn senses(far: bool, recovered: bool, was_damaged: bool) -> BotSenses {
    BotSenses {
        far,
        near: !far,
        target_above: false,
        in_reach: !far,
        has_ground_contact: true,
        was_damaged,
        recovered,
    }
}

#[test]
fn medkits_heal() {
    assert_eq!(give_item(ItemKind::Medkit, &[]), ItemEffect::Heal(20));
    assert_eq!(
        give_item(ItemKind::Medkit, &[WeaponKind::M4]),
        ItemEffect::Heal(20)
    );
}

#[test]
fn ammo_goes_to_the_first_matching_weapon() {
    let carried = [WeaponKind::M4, WeaponKind::Ak47, WeaponKind::Ak47, WeaponKind::PlasmaRifle];
    assert_eq!(
        give_item(ItemKind::Ak47Ammo762, &carried),
        ItemEffect::AddAmmo { weapon: 1, amount: 200 }
    );
    assert_eq!(
        give_item(ItemKind::Plasma, &carried),
        ItemEffect::AddAmmo { weapon: 3, amount: 200 }
    );
    assert_eq!(
        give_item(ItemKind::M4Ammo556, &carried),
        ItemEffect::AddAmmo { weapon: 0, amount: 200 }
    );
    assert_eq!(
        give_item(ItemKind::Plasma, &[WeaponKind::M4]),
        ItemEffect::Nothing
    );
}

#[test]
fn frags() {
    assert!(earns_frag(false, true, true));
    assert!(!earns_frag(true, true, true));
    assert!(!earns_frag(false, false, true));
    assert!(!earns_frag(false, true, false));
}

#[test]
fn notifications_text() {
    assert_eq!(
        weapon_pickup_notification(WeaponKind::Ak47),
        "Actor picked up weapon Ak47"
    );
    assert_eq!(
        item_pickup_notification(ItemKind::Medkit),
        "Actor picked up item Medkit"
    );
    assert_eq!(bot_spawned_notification("Maw"), "Bot Maw spawned!");
    assert_eq!(bot_name(BotKind::Mutant, None, 3), "Bot Mutant 3");
    assert_eq!(
        bot_name(BotKind::Mutant, Some("Killer".to_string()), 3),
        "Killer"
    );
}

#[test]
fn clock_shows_hours_minutes_seconds() {
    assert_eq!(clock_text(0), "00:00:00");
    assert_eq!(clock_text(59), "00:00:59");
    assert_eq!(clock_text(61), "00:01:01");
    // Minutes count every minute played.
    assert_eq!(clock_text(3725), "01:62:05");
    assert_eq!(clock_text(360_000), "100:6000:00");
}

#[test]
fn notifications_are_shown_in_order() {
    let mut n = Notifications::new();
    n.add_message("first");
    n.add_message("second");
    assert_eq!(n.len(), 2);
    assert!(matches!(n.update(false), NotificationUpdate::Keep));
    assert_eq!(n.len(), 2);
    match n.update(true) {
        NotificationUpdate::Show(m) => assert_eq!(m, "first"),
        _ => panic!("expected a notification"),
    }
    match n.update(true) {
        NotificationUpdate::Show(m) => assert_eq!(m, "second"),
        _ => panic!("expected a notification"),
    }
    assert!(matches!(n.update(true), NotificationUpdate::Clear));
}

#[test]
fn bots_fire_in_bursts_of_four() {
    let mut shots = 0;
    let mut bursts = 0;
    for frame in 0..8 {
        let d = decide_shot(shots, senses(true, true, false), true, true);
        assert!(d.shoot);
        shots = d.shots_made;
        if d.burst_done {
            bursts += 1;
            assert_eq!(frame % 4, 3);
        }
    }
    assert_eq!(bursts, 2);
    assert_eq!(
        decide_shot(2, senses(false, true, false), true, true),
        ShotDecision { shoot: false, shots_made: 2, burst_done: false }
    );
    assert!(!decide_shot(0, senses(true, true, false), true, false).shoot);
    assert!(!decide_shot(0, senses(true, false, false), true, true).shoot);
    assert!(!decide_shot(0, senses(true, true, false), false, true).shoot);
    // A bot hit on this frame holds its fire, though it had recovered before.
    assert!(!decide_shot(0, senses(true, true, true), true, true).shoot);
}

#[test]
fn bots_walk_their_path() {
    assert_eq!(advance_path_point(0, 3, true), 1);
    assert_eq!(advance_path_point(0, 3, false), 0);
    assert_eq!(advance_path_point(2, 3, true), 2);
    assert_eq!(advance_path_point(0, 0, true), 0);
    assert_eq!(advance_path_point(5, 3, true), 5);
}

#[test]
fn footsteps_are_step_sounds() {
    for _ in 0..20 {
        let s = random_footstep_sound();
        assert!(s.starts_with("data/sounds/footsteps/FootStep_shoe_stone_step"));
        assert!(s.ends_with(".wav"));
    }
}

#[test]
fn decimal_text() {
    let mut s = String::new();
    push_decimal(&mut s, 1203);
    s.push(' ');
    push_signed_decimal(&mut s, -45);
    s.push(' ');
    push_padded2(&mut s, 7);
    s.push(' ');
    push_padded2(&mut s, 123);
    assert_eq!(s, "1203 -45 07 123");
    let mut m = String::new();
    push_signed_decimal(&mut m, i64::MIN);
    assert_eq!(m, i64::MIN.to_string());
}
