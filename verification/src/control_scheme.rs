//! Buttons that control the player, and the bindings of game actions to them.

use vstd::prelude::*;

verus! {

/// Key codes are positions in the engine's list of virtual keys.
pub const KEY_A: u32 = 10;
pub const KEY_C: u32 = 12;
pub const KEY_D: u32 = 13;
pub const KEY_S: u32 = 28;
pub const KEY_W: u32 = 32;
pub const KEY_SPACE: u32 = 76;
pub const KEY_LSHIFT: u32 = 118;

/// A button the player can bind an action to: a mouse button by index
/// (1 left, 2 right, 3 middle), a keyboard key by its virtual key code,
/// or a turn of the mouse wheel.
#[derive(Clone, Copy, PartialEq, Eq, Structural, Hash, Debug)]
pub enum ControlButton {
    Mouse(u8),
    Key(u32),
    WheelUp,
    WheelDown,
}

/// The name shown for a button, where `key_name` is the engine's name of
/// the key when the button is a keyboard key.
pub open spec fn spec_button_name(button: ControlButton, key_name: Seq<char>) -> Seq<char> {
    match button {
        ControlButton::Mouse(index) => if index == 1 {
            "LMB"@
        } else if index == 2 {
            "RMB"@
        } else if index == 3 {
            "MMB"@
        } else if index == 4 {
            "MB4"@
        } else if index == 5 {
            "MB5"@
        } else {
            "Unknown"@
        },
        ControlButton::Key(_) => key_name,
        ControlButton::WheelUp => "Wheel Up"@,
        ControlButton::WheelDown => "Wheel Down"@,
    }
}

impl ControlButton {
    /// The name shown for the button in the options menu. A keyboard key
    /// is shown by the name the engine gives it, passed in as `key_name`;
    /// other buttons ignore `key_name`.
    pub fn name(self, key_name: &'static str) -> (n: &'static str)
        ensures
            n@ == spec_button_name(self, key_name@),
    {
        match self {
            ControlButton::Mouse(index) => {
                if index == 1 {
                    "LMB"
                } else if index == 2 {
                    "RMB"
                } else if index == 3 {
                    "MMB"
                } else if index == 4 {
                    "MB4"
                } else if index == 5 {
                    "MB5"
                } else {
                    "Unknown"
                }
            },
            ControlButton::Key(_) => key_name,
            ControlButton::WheelUp => "Wheel Up",
            ControlButton::WheelDown => "Wheel Down",
        }
    }
}

/// An action of the game together with the button bound to it.
pub struct ControlButtonDefinition {
    pub description: String,
    pub button: ControlButton,
}

/// The buttons bound to the player's actions and the mouse options.
pub struct ControlScheme {
    pub move_forward: ControlButtonDefinition,
    pub move_backward: ControlButtonDefinition,
    pub move_left: ControlButtonDefinition,
    pub move_right: ControlButtonDefinition,
    pub jump: ControlButtonDefinition,
    pub crouch: ControlButtonDefinition,
    pub ads: ControlButtonDefinition,
    pub shoot: ControlButtonDefinition,
    pub next_weapon: ControlButtonDefinition,
    pub prev_weapon: ControlButtonDefinition,
    pub run: ControlButtonDefinition,
    pub mouse_y_inverse: bool,
    pub smooth_mouse: bool,
    pub shake_camera: bool,
}

/// The number of bindable actions.
pub const BUTTON_COUNT: usize = 11;

/// A binding as the rules see it: the description of the action and its button.
pub open spec fn binding(d: &ControlButtonDefinition) -> (Seq<char>, ControlButton) {
    (d.description@, d.button)
}

/// The bindings that a fresh or reset scheme has, in the order `buttons` lists them.
pub open spec fn default_bindings() -> Seq<(Seq<char>, ControlButton)> {
    seq![
        ("Move Forward"@, ControlButton::Key(KEY_W)),
        ("Move Backward"@, ControlButton::Key(KEY_S)),
        ("Move Left"@, ControlButton::Key(KEY_A)),
        ("Move Right"@, ControlButton::Key(KEY_D)),
        ("Jump"@, ControlButton::Key(KEY_SPACE)),
        ("Crouch"@, ControlButton::Key(KEY_C)),
        ("Aim Down Sights"@, ControlButton::Mouse(3)),
        ("Shoot"@, ControlButton::Mouse(1)),
        ("Next Weapon"@, ControlButton::WheelUp),
        ("Previous Weapon"@, ControlButton::WheelDown),
        ("Run"@, ControlButton::Key(KEY_LSHIFT)),
    ]
}

impl ControlScheme {
    /// The bindings of the scheme, in the order of `buttons`.
    pub open spec fn bindings(&self) -> Seq<(Seq<char>, ControlButton)> {
        seq![
            binding(&self.move_forward),
            binding(&self.move_backward),
            binding(&self.move_left),
            binding(&self.move_right),
            binding(&self.jump),
            binding(&self.crouch),
            binding(&self.ads),
            binding(&self.shoot),
            binding(&self.next_weapon),
            binding(&self.prev_weapon),
            binding(&self.run),
        ]
    }

    /// The scheme has the default bindings and options.
    pub open spec fn is_default(&self) -> bool {
        &&& self.bindings() == default_bindings()
        &&& !self.mouse_y_inverse
        &&& self.smooth_mouse
        &&& self.shake_camera
    }

    /// The bindings of every action, in a fixed order.
    pub fn buttons(&self) -> (b: [&ControlButtonDefinition; BUTTON_COUNT])
        ensures
            forall|i: int| 0 <= i < 11 ==> #[trigger] binding(b@[i]) == self.bindings()[i],
    {
        [
            &self.move_forward,
            &self.move_backward,
            &self.move_left,
            &self.move_right,
            &self.jump,
            &self.crouch,
            &self.ads,
            &self.shoot,
            &self.next_weapon,
            &self.prev_weapon,
            &self.run,
        ]
    }

    /// Binds the action at `index` (in the order of `buttons`) to `button`.
    pub fn rebind(&mut self, index: usize, button: ControlButton)
        requires
            index < BUTTON_COUNT,
        ensures
            final(self).bindings() == old(self).bindings().update(
                index as int,
                (old(self).bindings()[index as int].0, button),
            ),
            final(self).mouse_y_inverse == old(self).mouse_y_inverse,
            final(self).smooth_mouse == old(self).smooth_mouse,
            final(self).shake_camera == old(self).shake_camera,
    {
        if index == 0 {
            self.move_forward.button = button;
        } else if index == 1 {
            self.move_backward.button = button;
        } else if index == 2 {
            self.move_left.button = button;
        } else if index == 3 {
            self.move_right.button = button;
        } else if index == 4 {
            self.jump.button = button;
        } else if index == 5 {
            self.crouch.button = button;
        } else if index == 6 {
            self.ads.button = button;
        } else if index == 7 {
            self.shoot.button = button;
        } else if index == 8 {
            self.next_weapon.button = button;
        } else if index == 9 {
            self.prev_weapon.button = button;
        } else {
            self.run.button = button;
        }
        assert(self.bindings() =~= old(self).bindings().update(
            index as int,
            (old(self).bindings()[index as int].0, button),
        ));
    }

    /// Puts back the default bindings and options.
    pub fn reset(&mut self)
        ensures
            final(self).is_default(),
    {
        *self = ControlScheme::default();
    }
}

fn definition(description: &str, button: ControlButton) -> (d: ControlButtonDefinition)
    ensures
        binding(&d) == (description@, button),
{
    ControlButtonDefinition { description: String::from_str(description), button }
}

impl Default for ControlScheme {
    /// WASD to move, space to jump, C to crouch, the left mouse button to
    /// shoot, the middle one to aim, the wheel to switch weapons, left
    /// shift to run; smooth mouse and camera shake on.
    fn default() -> (s: Self)
        ensures
            s.is_default(),
    {
        let s = ControlScheme {
            move_forward: definition("Move Forward", ControlButton::Key(KEY_W)),
            move_backward: definition("Move Backward", ControlButton::Key(KEY_S)),
            move_left: definition("Move Left", ControlButton::Key(KEY_A)),
            move_right: definition("Move Right", ControlButton::Key(KEY_D)),
            jump: definition("Jump", ControlButton::Key(KEY_SPACE)),
            crouch: definition("Crouch", ControlButton::Key(KEY_C)),
            ads: definition("Aim Down Sights", ControlButton::Mouse(3)),
            shoot: definition("Shoot", ControlButton::Mouse(1)),
            next_weapon: definition("Next Weapon", ControlButton::WheelUp),
            prev_weapon: definition("Previous Weapon", ControlButton::WheelDown),
            run: definition("Run", ControlButton::Key(KEY_LSHIFT)),
            mouse_y_inverse: false,
            smooth_mouse: true,
            shake_camera: true,
        };
        assert(s.bindings() =~= default_bindings());
        s
    }
}

/// The bindings are listed in the order move forward, move backward, move
/// left, move right, jump, crouch, aim down sights, shoot, next weapon,
/// previous weapon, run.
pub proof fn bindings_in_action_order(s: ControlScheme)
    ensures
        s.bindings().len() == 11,
        s.bindings()[0] == (s.move_forward.description@, s.move_forward.button),
        s.bindings()[1] == (s.move_backward.description@, s.move_backward.button),
        s.bindings()[2] == (s.move_left.description@, s.move_left.button),
        s.bindings()[3] == (s.move_right.description@, s.move_right.button),
        s.bindings()[4] == (s.jump.description@, s.jump.button),
        s.bindings()[5] == (s.crouch.description@, s.crouch.button),
        s.bindings()[6] == (s.ads.description@, s.ads.button),
        s.bindings()[7] == (s.shoot.description@, s.shoot.button),
        s.bindings()[8] == (s.next_weapon.description@, s.next_weapon.button),
        s.bindings()[9] == (s.prev_weapon.description@, s.prev_weapon.button),
        s.bindings()[10] == (s.run.description@, s.run.button),
{
}

/// The default scheme: W, S, A and D move, space jumps, C crouches, the
/// middle mouse button aims, the left one shoots, the wheel switches
/// weapons and left shift runs; mouse Y is not inverted, and the mouse is
/// smoothed and the camera shakes.
pub proof fn default_scheme_bindings(s: ControlScheme)
    requires
        s.is_default(),
    ensures
        s.move_forward.button == ControlButton::Key(KEY_W) && s.move_forward.description@ == "Move Forward"@,
        s.move_backward.button == ControlButton::Key(KEY_S) && s.move_backward.description@ == "Move Backward"@,
        s.move_left.button == ControlButton::Key(KEY_A) && s.move_left.description@ == "Move Left"@,
        s.move_right.button == ControlButton::Key(KEY_D) && s.move_right.description@ == "Move Right"@,
        s.jump.button == ControlButton::Key(KEY_SPACE) && s.jump.description@ == "Jump"@,
        s.crouch.button == ControlButton::Key(KEY_C) && s.crouch.description@ == "Crouch"@,
        s.ads.button == ControlButton::Mouse(3) && s.ads.description@ == "Aim Down Sights"@,
        s.shoot.button == ControlButton::Mouse(1) && s.shoot.description@ == "Shoot"@,
        s.next_weapon.button == ControlButton::WheelUp && s.next_weapon.description@ == "Next Weapon"@,
        s.prev_weapon.button == ControlButton::WheelDown && s.prev_weapon.description@ == "Previous Weapon"@,
        s.run.button == ControlButton::Key(KEY_LSHIFT) && s.run.description@ == "Run"@,
        !s.mouse_y_inverse && s.smooth_mouse && s.shake_camera,
{
    assert(s.bindings()[0] == default_bindings()[0]);
    assert(s.bindings()[1] == default_bindings()[1]);
    assert(s.bindings()[2] == default_bindings()[2]);
    assert(s.bindings()[3] == default_bindings()[3]);
    assert(s.bindings()[4] == default_bindings()[4]);
    assert(s.bindings()[5] == default_bindings()[5]);
    assert(s.bindings()[6] == default_bindings()[6]);
    assert(s.bindings()[7] == default_bindings()[7]);
    assert(s.bindings()[8] == default_bindings()[8]);
    assert(s.bindings()[9] == default_bindings()[9]);
    assert(s.bindings()[10] == default_bindings()[10]);
}

/// Button names: mouse buttons 1 to 5 are LMB, RMB, MMB, MB4 and MB5 and
/// others Unknown, the wheel turns are Wheel Up and Wheel Down, and a key
/// has the name the engine gives it.
pub proof fn button_names_by_kind(b: ControlButton, key_name: Seq<char>)
    ensures
        b == ControlButton::Mouse(1) ==> spec_button_name(b, key_name) == "LMB"@,
        b == ControlButton::Mouse(2) ==> spec_button_name(b, key_name) == "RMB"@,
        b == ControlButton::Mouse(3) ==> spec_button_name(b, key_name) == "MMB"@,
        b == ControlButton::Mouse(4) ==> spec_button_name(b, key_name) == "MB4"@,
        b == ControlButton::Mouse(5) ==> spec_button_name(b, key_name) == "MB5"@,
        b matches ControlButton::Mouse(i) && (i == 0 || i > 5) ==> spec_button_name(b, key_name) == "Unknown"@,
        b is Key ==> spec_button_name(b, key_name) == key_name,
        b == ControlButton::WheelUp ==> spec_button_name(b, key_name) == "Wheel Up"@,
        b == ControlButton::WheelDown ==> spec_button_name(b, key_name) == "Wheel Down"@,
{
}

} // verus!
