//! The player's controller: which actions the player's buttons hold down.

use vstd::prelude::*;
use crate::control_scheme::{ControlButton, ControlScheme};

verus! {

/// The actions the player holds down.
#[derive(Clone, Copy, PartialEq, Eq, Structural, Debug)]
pub struct Controller {
    pub move_forward: bool,
    pub move_backward: bool,
    pub move_left: bool,
    pub move_right: bool,
    pub crouch: bool,
    pub jump: bool,
    pub run: bool,
    pub shoot: bool,
}

/// An action a button of the control scheme drives.
#[derive(Clone, Copy, PartialEq, Eq, Structural, Debug)]
pub enum ControlAction {
    Shoot,
    MoveForward,
    MoveBackward,
    MoveLeft,
    MoveRight,
    Crouch,
    Run,
    Jump,
}

/// The action a button drives: the first of shoot, move forward, move
/// backward, move left, move right, crouch, run and jump whose binding is
/// that button.
pub open spec fn spec_action_of(scheme: &ControlScheme, button: ControlButton) -> Option<ControlAction> {
    if button == scheme.shoot.button {
        Some(ControlAction::Shoot)
    } else if button == scheme.move_forward.button {
        Some(ControlAction::MoveForward)
    } else if button == scheme.move_backward.button {
        Some(ControlAction::MoveBackward)
    } else if button == scheme.move_left.button {
        Some(ControlAction::MoveLeft)
    } else if button == scheme.move_right.button {
        Some(ControlAction::MoveRight)
    } else if button == scheme.crouch.button {
        Some(ControlAction::Crouch)
    } else if button == scheme.run.button {
        Some(ControlAction::Run)
    } else if button == scheme.jump.button {
        Some(ControlAction::Jump)
    } else {
        None
    }
}

impl Controller {
    /// The controller with the flag of `action` set to `value`.
    pub open spec fn with(self, action: ControlAction, value: bool) -> Controller {
        match action {
            ControlAction::Shoot => Controller { shoot: value, ..self },
            ControlAction::MoveForward => Controller { move_forward: value, ..self },
            ControlAction::MoveBackward => Controller { move_backward: value, ..self },
            ControlAction::MoveLeft => Controller { move_left: value, ..self },
            ControlAction::MoveRight => Controller { move_right: value, ..self },
            ControlAction::Crouch => Controller { crouch: value, ..self },
            ControlAction::Run => Controller { run: value, ..self },
            ControlAction::Jump => Controller { jump: value, ..self },
        }
    }

    /// A press holds down the action of the button; a release lets it go,
    /// except a jump, which the player's movement consumes once it is done.
    pub open spec fn after_button(self, scheme: &ControlScheme, button: ControlButton, pressed: bool) -> Controller {
        match spec_action_of(scheme, button) {
            Some(action) => if pressed {
                self.with(action, true)
            } else if action == ControlAction::Jump {
                self
            } else {
                self.with(action, false)
            },
            None => self,
        }
    }

    /// Applies a press (`pressed`) or a release of `button` under `scheme`.
    pub fn apply_button(&mut self, scheme: &ControlScheme, button: ControlButton, pressed: bool)
        ensures
            *final(self) == old(self).after_button(scheme, button, pressed),
    {
        if pressed {
            if button == scheme.shoot.button {
                self.shoot = true;
            } else if button == scheme.move_forward.button {
                self.move_forward = true;
            } else if button == scheme.move_backward.button {
                self.move_backward = true;
            } else if button == scheme.move_left.button {
                self.move_left = true;
            } else if button == scheme.move_right.button {
                self.move_right = true;
            } else if button == scheme.crouch.button {
                self.crouch = true;
            } else if button == scheme.run.button {
                self.run = true;
            } else if button == scheme.jump.button {
                self.jump = true;
            }
        } else {
            if button == scheme.shoot.button {
                self.shoot = false;
            } else if button == scheme.move_forward.button {
                self.move_forward = false;
            } else if button == scheme.move_backward.button {
                self.move_backward = false;
            } else if button == scheme.move_left.button {
                self.move_left = false;
            } else if button == scheme.move_right.button {
                self.move_right = false;
            } else if button == scheme.crouch.button {
                self.crouch = false;
            } else if button == scheme.run.button {
                self.run = false;
            }
        }
    }
}

impl Controller {
    /// The direction the player walks in, as multiples of the body's look
    /// vector and side vector: forward minus backward, left minus right.
    pub fn move_axes(&self) -> (axes: (i8, i8))
        ensures
            axes.0 == (if self.move_forward { 1int } else { 0 }) - (if self.move_backward { 1int } else { 0 }),
            axes.1 == (if self.move_left { 1int } else { 0 }) - (if self.move_right { 1int } else { 0 }),
    {
        let mut look: i8 = 0;
        let mut side: i8 = 0;
        if self.move_forward {
            look = look + 1;
        }
        if self.move_backward {
            look = look - 1;
        }
        if self.move_left {
            side = side + 1;
        }
        if self.move_right {
            side = side - 1;
        }
        (look, side)
    }

    /// Consumes a requested jump: the player leaps if a jump was requested
    /// and the body stands on the ground; the request is dropped either way.
    pub fn take_jump(&mut self, has_ground_contact: bool) -> (leap: bool)
        ensures
            leap == (old(self).jump && has_ground_contact),
            *final(self) == (Controller { jump: false, ..*old(self) }),
    {
        let leap = self.jump && has_ground_contact;
        self.jump = false;
        leap
    }
}

impl Default for Controller {
    /// No action is held down.
    fn default() -> (c: Controller)
        ensures
            c == (Controller {
                move_forward: false,
                move_backward: false,
                move_left: false,
                move_right: false,
                crouch: false,
                jump: false,
                run: false,
                shoot: false,
            }),
    {
        Controller {
            move_backward: false,
            move_forward: false,
            move_left: false,
            move_right: false,
            crouch: false,
            jump: false,
            run: false,
            shoot: false,
        }
    }
}

/// Pressing a button and releasing it again undoes the press: the
/// controller ends as if the button had only been released. A jump is the
/// exception, since releasing its button keeps the jump requested.
pub proof fn release_undoes_press(c: Controller, scheme: &ControlScheme, button: ControlButton)
    requires
        spec_action_of(scheme, button) != Some(ControlAction::Jump),
    ensures
        c.after_button(scheme, button, true).after_button(scheme, button, false) == c.after_button(
            scheme,
            button,
            false,
        ),
{
}

/// Pressing a button twice is the same as pressing it once, and releasing
/// it twice the same as releasing it once. A press never lets an action go,
/// and a release never holds one down.
pub proof fn buttons_are_idempotent(c: Controller, scheme: &ControlScheme, button: ControlButton, pressed: bool)
    ensures
        c.after_button(scheme, button, pressed).after_button(scheme, button, pressed) == c.after_button(
            scheme,
            button,
            pressed,
        ),
        held_within(c, c.after_button(scheme, button, true)),
        held_within(c.after_button(scheme, button, false), c),
{
}

/// Every action held down in `a` is held down in `b`.
pub open spec fn held_within(a: Controller, b: Controller) -> bool {
    &&& a.move_forward ==> b.move_forward
    &&& a.move_backward ==> b.move_backward
    &&& a.move_left ==> b.move_left
    &&& a.move_right ==> b.move_right
    &&& a.crouch ==> b.crouch
    &&& a.jump ==> b.jump
    &&& a.run ==> b.run
    &&& a.shoot ==> b.shoot
}

/// Pressing the button bound to an action holds down that action and
/// nothing else, and releasing it lets that action go and nothing else,
/// as long as no action earlier in the order shoot, move forward, move
/// backward, move left, move right, crouch, run, jump has the same button.
/// Releasing the jump button changes nothing: the jump stays requested.
pub proof fn buttons_drive_their_own_actions(c: Controller, scheme: &ControlScheme)
    ensures
        c.after_button(scheme, scheme.shoot.button, true) == (Controller { shoot: true, ..c }),
        c.after_button(scheme, scheme.shoot.button, false) == (Controller { shoot: false, ..c }),
        scheme.move_forward.button != scheme.shoot.button ==> {
            &&& c.after_button(scheme, scheme.move_forward.button, true) == (Controller { move_forward: true, ..c })
            &&& c.after_button(scheme, scheme.move_forward.button, false) == (Controller { move_forward: false, ..c })
        },
        scheme.move_backward.button != scheme.shoot.button && scheme.move_backward.button
            != scheme.move_forward.button ==> {
            &&& c.after_button(scheme, scheme.move_backward.button, true) == (Controller { move_backward: true, ..c })
            &&& c.after_button(scheme, scheme.move_backward.button, false) == (Controller { move_backward: false, ..c })
        },
        scheme.move_left.button != scheme.shoot.button && scheme.move_left.button
            != scheme.move_forward.button && scheme.move_left.button != scheme.move_backward.button
            ==> {
            &&& c.after_button(scheme, scheme.move_left.button, true) == (Controller { move_left: true, ..c })
            &&& c.after_button(scheme, scheme.move_left.button, false) == (Controller { move_left: false, ..c })
        },
        scheme.move_right.button != scheme.shoot.button && scheme.move_right.button
            != scheme.move_forward.button && scheme.move_right.button != scheme.move_backward.button
            && scheme.move_right.button != scheme.move_left.button ==> {
            &&& c.after_button(scheme, scheme.move_right.button, true) == (Controller { move_right: true, ..c })
            &&& c.after_button(scheme, scheme.move_right.button, false) == (Controller { move_right: false, ..c })
        },
        scheme.crouch.button != scheme.shoot.button && scheme.crouch.button
            != scheme.move_forward.button && scheme.crouch.button != scheme.move_backward.button
            && scheme.crouch.button != scheme.move_left.button && scheme.crouch.button
            != scheme.move_right.button ==> {
            &&& c.after_button(scheme, scheme.crouch.button, true) == (Controller { crouch: true, ..c })
            &&& c.after_button(scheme, scheme.crouch.button, false) == (Controller { crouch: false, ..c })
        },
        scheme.run.button != scheme.shoot.button && scheme.run.button != scheme.move_forward.button
            && scheme.run.button != scheme.move_backward.button && scheme.run.button
            != scheme.move_left.button && scheme.run.button != scheme.move_right.button
            && scheme.run.button != scheme.crouch.button ==> {
            &&& c.after_button(scheme, scheme.run.button, true) == (Controller { run: true, ..c })
            &&& c.after_button(scheme, scheme.run.button, false) == (Controller { run: false, ..c })
        },
        scheme.jump.button != scheme.shoot.button && scheme.jump.button
            != scheme.move_forward.button && scheme.jump.button != scheme.move_backward.button
            && scheme.jump.button != scheme.move_left.button && scheme.jump.button
            != scheme.move_right.button && scheme.jump.button != scheme.crouch.button
            && scheme.jump.button != scheme.run.button ==> {
            &&& c.after_button(scheme, scheme.jump.button, true) == (Controller { jump: true, ..c })
            &&& c.after_button(scheme, scheme.jump.button, false) == c
        },
{
}

/// A button bound to no action changes nothing.
pub proof fn unbound_buttons_do_nothing(c: Controller, scheme: &ControlScheme, button: ControlButton, pressed: bool)
    requires
        button != scheme.shoot.button,
        button != scheme.move_forward.button,
        button != scheme.move_backward.button,
        button != scheme.move_left.button,
        button != scheme.move_right.button,
        button != scheme.crouch.button,
        button != scheme.run.button,
        button != scheme.jump.button,
    ensures
        c.after_button(scheme, button, pressed) == c,
{
}

} // verus!
