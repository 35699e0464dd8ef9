use rusty_shooter::control_scheme::{
    ControlButton, ControlScheme, KEY_A, KEY_C, KEY_D, KEY_LSHIFT, KEY_S, KEY_SPACE, KEY_W,
};
use rusty_shooter::player::Controller;

#[test]
fn default_scheme() {
    let s = ControlScheme::default();
    let b = s.buttons();
    let expected = [
        ("Move Forward", ControlButton::Key(KEY_W)),
        ("Move Backward", ControlButton::Key(KEY_S)),
        ("Move Left", ControlButton::Key(KEY_A)),
        ("Move Right", ControlButton::Key(KEY_D)),
        ("Jump", ControlButton::Key(KEY_SPACE)),
        ("Crouch", ControlButton::Key(KEY_C)),
        ("Aim Down Sights", ControlButton::Mouse(3)),
        ("Shoot", ControlButton::Mouse(1)),
        ("Next Weapon", ControlButton::WheelUp),
        ("Previous Weapon", ControlButton::WheelDown),
        ("Run", ControlButton::Key(KEY_LSHIFT)),
    ];
    for (def, (description, button)) in b.iter().zip(expected.iter()) {
        assert_eq!(def.description, *description);
        assert_eq!(def.button, *button);
    }
    assert!(!s.mouse_y_inverse);
    assert!(s.smooth_mouse);
    assert!(s.shake_camera);
}

#[test]
fn rebind_and_reset() {
    let mut s = ControlScheme::default();
    s.rebind(4, ControlButton::Mouse(2));
    assert_eq!(s.jump.button, ControlButton::Mouse(2));
    assert_eq!(s.jump.description, "Jump");
    assert_eq!(s.move_forward.button, ControlButton::Key(KEY_W));
    s.mouse_y_inverse = true;
    s.reset();
    assert_eq!(s.jump.button, ControlButton::Key(KEY_SPACE));
    assert!(!s.mouse_y_inverse);
}

#[test]
fn button_names() {
    assert_eq!(ControlButton::Mouse(1).name("W"), "LMB");
    assert_eq!(ControlButton::Mouse(2).name("W"), "RMB");
    assert_eq!(ControlButton::Mouse(3).name("W"), "MMB");
    assert_eq!(ControlButton::Mouse(4).name("W"), "MB4");
    assert_eq!(ControlButton::Mouse(5).name("W"), "MB5");
    assert_eq!(ControlButton::Mouse(9).name("W"), "Unknown");
    assert_eq!(ControlButton::WheelUp.name("W"), "Wheel Up");
    assert_eq!(ControlButton::WheelDown.name("W"), "Wheel Down");
    assert_eq!(ControlButton::Key(KEY_W).name("W"), "W");
    assert_eq!(ControlButton::Key(KEY_SPACE).name("Space"), "Space");
}

#[test]
fn presses_and_releases_drive_the_controller() {
    let s = ControlScheme::default();
    let mut c = Controller::default();
    c.apply_button(&s, ControlButton::Key(KEY_W), true);
    assert!(c.move_forward);
    c.apply_button(&s, ControlButton::Mouse(1), true);
    assert!(c.shoot);
    c.apply_button(&s, ControlButton::Key(KEY_LSHIFT), true);
    assert!(c.run);
    c.apply_button(&s, ControlButton::Key(KEY_W), false);
    assert!(!c.move_forward);
    assert!(c.shoot);
    c.apply_button(&s, ControlButton::Mouse(1), false);
    assert!(!c.shoot);
    // A button bound to nothing changes nothing.
    let before = c;
    c.apply_button(&s, ControlButton::Key(1), true);
    assert_eq!(c, before);
}

#[test]
fn releasing_jump_keeps_the_jump_requested() {
    let s = ControlScheme::default();
    let mut c = Controller::default();
    c.apply_button(&s, ControlButton::Key(KEY_SPACE), true);
    assert!(c.jump);
    c.apply_button(&s, ControlButton::Key(KEY_SPACE), false);
    assert!(c.jump);
}

#[test]
fn earlier_actions_win_a_shared_button() {
    let mut s = ControlScheme::default();
    // Bind crouch to the shoot button: shoot comes first and takes it.
    s.rebind(5, ControlButton::Mouse(1));
    let mut c = Controller::default();
    c.apply_button(&s, ControlButton::Mouse(1), true);
    assert!(c.shoot);
    assert!(!c.crouch);
}

#[test]
fn release_undoes_press() {
    let s = ControlScheme::default();
    let mut pressed = Controller::default();
    pressed.apply_button(&s, ControlButton::Key(KEY_D), true);
    pressed.apply_button(&s, ControlButton::Key(KEY_D), false);
    assert_eq!(pressed, Controller::default());
}
