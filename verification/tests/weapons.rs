use rusty_shooter::character::{Loadout, ShowWeapon, Team};
use rusty_shooter::handle::{ActorHandle, WeaponHandle};
use rusty_shooter::weapon::{Weapon, WeaponKind};

fn handle(index: u32) -> WeaponHandle {
    WeaponHandle { index, generation: 1 }
}

fn show(index: u32, state: bool) -> ShowWeapon {
    ShowWeapon { weapon: handle(index), state }
}

#[test]
fn new_weapon_holds_definition_ammo() {
    let w = Weapon::new(WeaponKind::PlasmaRifle);
    assert_eq!(w.get_kind(), WeaponKind::PlasmaRifle);
    assert_eq!(w.get_ammo(), 100);
    assert!(w.get_owner().is_none());
    let d = Weapon::default();
    assert_eq!(d.get_kind(), WeaponKind::M4);
    assert_eq!(d.get_ammo(), 250);
}

#[test]
fn shooting_spends_one_round_per_shot() {
    let mut w = Weapon::new(WeaponKind::M4);
    assert!(!w.try_shoot(false));
    assert_eq!(w.get_ammo(), 200);
    assert!(w.try_shoot(true));
    assert_eq!(w.get_ammo(), 199);
    let mut shots = 0;
    while w.try_shoot(true) {
        shots += 1;
    }
    assert_eq!(shots, 199);
    assert_eq!(w.get_ammo(), 0);
    assert!(!w.try_shoot(true));
    w.add_ammo(200);
    assert_eq!(w.get_ammo(), 200);
}

#[test]
fn owner_can_be_set() {
    let mut w = Weapon::new(WeaponKind::Ak47);
    let owner = ActorHandle { index: 3, generation: 2 };
    w.set_owner(owner);
    assert_eq!(w.get_owner(), owner);
    assert!(w.get_owner().is_some());
    assert!(ActorHandle::none().is_none());
}

#[test]
fn adding_weapons_hides_the_others_and_shows_the_new_one() {
    let mut l = Loadout::new();
    assert!(l.current_weapon().is_none());
    assert_eq!(l.add_weapon(handle(1)), vec![show(1, true)]);
    assert_eq!(
        l.add_weapon(handle(2)),
        vec![show(1, false), show(2, true)]
    );
    assert_eq!(
        l.add_weapon(handle(3)),
        vec![show(1, false), show(2, false), show(3, true)]
    );
    assert_eq!(l.current_weapon(), handle(3));
    assert_eq!(l.current_index(), 2);
    assert_eq!(l.weapons(), &[handle(1), handle(2), handle(3)]);
}

#[test]
fn switching_weapons() {
    let mut l = Loadout::new();
    l.add_weapon(handle(1));
    l.add_weapon(handle(2));
    l.add_weapon(handle(3));
    // The last weapon is in hand: there is no next one.
    assert!(l.next_weapon().is_empty());
    assert_eq!(l.prev_weapon(), vec![show(3, false), show(2, true)]);
    assert_eq!(l.prev_weapon(), vec![show(2, false), show(1, true)]);
    assert!(l.prev_weapon().is_empty());
    assert_eq!(l.current_weapon(), handle(1));
    assert_eq!(l.next_weapon(), vec![show(1, false), show(2, true)]);
    assert_eq!(l.set_current_weapon(0), vec![show(2, false), show(1, true)]);
    assert!(l.set_current_weapon(3).is_empty());
    assert_eq!(l.current_weapon(), handle(1));
}

#[test]
fn switching_without_weapons_does_nothing() {
    let mut l = Loadout::new();
    assert!(l.next_weapon().is_empty());
    assert!(l.prev_weapon().is_empty());
    assert!(l.set_current_weapon(0).is_empty());
    assert_eq!(l.current_index(), 0);
}

#[test]
fn next_then_prev_restores_the_selection() {
    let mut l = Loadout::new();
    l.add_weapon(handle(1));
    l.add_weapon(handle(2));
    l.set_current_weapon(0);
    l.next_weapon();
    l.prev_weapon();
    assert_eq!(l.current_weapon(), handle(1));
}

#[test]
fn team_defaults_to_no_team() {
    assert_eq!(Team::default(), Team::NoTeam);
}

#[test]
fn selection_stays_on_a_carried_weapon() {
    let mut l = Loadout::new();
    assert_eq!(l.current_weapon(), WeaponHandle::none());
    l.prev_weapon();
    l.next_weapon();
    l.set_current_weapon(3);
    assert_eq!(l.current_index(), 0);
    assert_eq!(l.current_weapon(), WeaponHandle::none());
    l.add_weapon(handle(1));
    l.add_weapon(handle(2));
    l.next_weapon();
    assert_eq!(l.current_weapon(), handle(2));
    l.set_current_weapon(7);
    assert_eq!(l.current_weapon(), handle(2));
    l.prev_weapon();
    l.prev_weapon();
    assert_eq!(l.current_index(), 0);
    assert_eq!(l.current_weapon(), handle(1));
    l.add_weapon(handle(3));
    assert_eq!(l.current_index(), 2);
    assert_eq!(l.current_weapon(), handle(3));
}
