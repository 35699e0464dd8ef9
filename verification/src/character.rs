//! Teams, and the weapons a character carries with the one in its hands.

use vstd::prelude::*;
use crate::handle::WeaponHandle;

verus! {

/// The team a character plays for.
#[derive(Clone, Copy, PartialEq, Eq, Structural, Hash, Debug)]
pub enum Team {
    NoTeam,
    Red,
    Blue,
}

impl Default for Team {
    /// A character plays for no team unless told otherwise.
    fn default() -> (t: Self)
        ensures
            t == Team::NoTeam,
    {
        Team::NoTeam
    }
}

/// The message a character sends to show or hide one of its weapons.
#[derive(Clone, Copy, PartialEq, Eq, Structural, Debug)]
pub struct ShowWeapon {
    pub weapon: WeaponHandle,
    pub state: bool,
}

/// The weapons a character carries, in the order it got them, and the
/// index of the one in its hands.
pub struct Loadout {
    weapons: Vec<WeaponHandle>,
    current_weapon: u32,
}

/// The weapons carried and the index of the selected one.
pub struct LoadoutState {
    pub weapons: Seq<WeaponHandle>,
    pub current: nat,
}

/// The message that shows (`state`) or hides the weapon at `index`, if there is one.
pub open spec fn show_at(weapons: Seq<WeaponHandle>, index: nat, state: bool) -> Seq<ShowWeapon> {
    if index < weapons.len() {
        seq![ShowWeapon { weapon: weapons[index as int], state }]
    } else {
        seq![]
    }
}

impl LoadoutState {
    /// Every index into the weapons fits the `u32` that holds the selection.
    pub open spec fn fits_index(self) -> bool {
        self.weapons.len() <= u32::MAX
    }

    /// The selection names a carried weapon, or there is none to name and it is zero.
    pub open spec fn selection_valid(self) -> bool {
        self.current < self.weapons.len() || (self.weapons.len() == 0 && self.current == 0)
    }

    /// Switching to the next weapon happens only if there is a next one.
    pub open spec fn can_go_next(self) -> bool {
        self.weapons.len() > 0 && self.current < self.weapons.len() - 1
    }

    pub open spec fn after_next(self) -> LoadoutState {
        if self.can_go_next() {
            LoadoutState { current: self.current + 1, ..self }
        } else {
            self
        }
    }

    pub open spec fn next_messages(self) -> Seq<ShowWeapon> {
        if self.can_go_next() {
            show_at(self.weapons, self.current, false) + show_at(self.weapons, self.current + 1, true)
        } else {
            seq![]
        }
    }

    pub open spec fn after_prev(self) -> LoadoutState {
        if self.current > 0 {
            LoadoutState { current: (self.current - 1) as nat, ..self }
        } else {
            self
        }
    }

    pub open spec fn prev_messages(self) -> Seq<ShowWeapon> {
        if self.current > 0 {
            show_at(self.weapons, self.current, false) + show_at(
                self.weapons,
                (self.current - 1) as nat,
                true,
            )
        } else {
            seq![]
        }
    }

    pub open spec fn after_select(self, i: nat) -> LoadoutState {
        if i < self.weapons.len() {
            LoadoutState { current: i, ..self }
        } else {
            self
        }
    }

    pub open spec fn select_messages(self, i: nat) -> Seq<ShowWeapon> {
        if i < self.weapons.len() {
            show_at(self.weapons, self.current, false) + show_at(self.weapons, i, true)
        } else {
            seq![]
        }
    }

    /// A new weapon goes to the end of the list and into the character's hands.
    pub open spec fn after_add(self, weapon: WeaponHandle) -> LoadoutState {
        LoadoutState { weapons: self.weapons.push(weapon), current: self.weapons.len() }
    }

    /// Every carried weapon is hidden, then the new one is shown.
    pub open spec fn add_messages(self, weapon: WeaponHandle) -> Seq<ShowWeapon> {
        self.weapons.map_values(|w: WeaponHandle| ShowWeapon { weapon: w, state: false })
            + seq![ShowWeapon { weapon, state: true }]
    }

    /// The weapon in the character's hands, or no weapon if the index names none.
    pub open spec fn current_handle(self) -> WeaponHandle {
        if self.current < self.weapons.len() {
            self.weapons[self.current as int]
        } else {
            WeaponHandle { index: 0, generation: 0 }
        }
    }
}

impl View for Loadout {
    type V = LoadoutState;

    closed spec fn view(&self) -> LoadoutState {
        LoadoutState { weapons: self.weapons@, current: self.current_weapon as nat }
    }
}

impl Loadout {
    /// A character with no weapons.
    pub fn new() -> (l: Self)
        ensures
            l@.weapons.len() == 0,
            l@.current == 0,
            l@.selection_valid(),
            l@.fits_index(),
    {
        Loadout { weapons: Vec::new(), current_weapon: 0 }
    }

    /// The carried weapons.
    pub fn weapons(&self) -> (w: &[WeaponHandle])
        ensures
            w@ == self@.weapons,
    {
        self.weapons.as_slice()
    }

    /// The index of the selected weapon.
    pub fn current_index(&self) -> (i: u32)
        ensures
            i == self@.current,
    {
        self.current_weapon
    }

    /// The weapon in the character's hands; no weapon if the selection names none.
    pub fn current_weapon(&self) -> (h: WeaponHandle)
        ensures
            h == self@.current_handle(),
    {
        let i = self.current_weapon as usize;
        if i < self.weapons.len() {
            self.weapons[i]
        } else {
            WeaponHandle::none()
        }
    }

    /// Takes a new weapon into the character's hands; returns the messages
    /// that hide the carried weapons and show the new one.
    pub fn add_weapon(&mut self, weapon: WeaponHandle) -> (msgs: Vec<ShowWeapon>)
        requires
            old(self)@.weapons.len() < u32::MAX,
        ensures
            final(self)@ == old(self)@.after_add(weapon),
            msgs@ == old(self)@.add_messages(weapon),
            final(self)@.selection_valid(),
            final(self)@.fits_index(),
    {
        let mut msgs: Vec<ShowWeapon> = Vec::new();
        let n = self.weapons.len();
        for i in 0..n
            invariant
                n == self.weapons@.len(),
                msgs@ =~= self.weapons@.take(i as int).map_values(
                    |w: WeaponHandle| ShowWeapon { weapon: w, state: false },
                ),
        {
            msgs.push(ShowWeapon { weapon: self.weapons[i], state: false });
            assert(self.weapons@.take(i + 1) =~= self.weapons@.take(i as int).push(self.weapons@[i as int]));
        }
        assert(self.weapons@.take(n as int) =~= self.weapons@);
        self.current_weapon = n as u32;
        self.weapons.push(weapon);
        msgs.push(ShowWeapon { weapon, state: true });
        msgs
    }

    /// The messages that show or hide the selected weapon, if there is one.
    fn request_current_weapon_visible(&self, state: bool) -> (msgs: Vec<ShowWeapon>)
        ensures
            msgs@ == show_at(self@.weapons, self@.current, state),
    {
        let mut msgs: Vec<ShowWeapon> = Vec::new();
        let i = self.current_weapon as usize;
        if i < self.weapons.len() {
            msgs.push(ShowWeapon { weapon: self.weapons[i], state });
        }
        assert(msgs@ =~= show_at(self@.weapons, self@.current, state));
        msgs
    }

    /// Selects the next weapon if there is one; returns the messages that
    /// hide the old weapon and show the new one.
    pub fn next_weapon(&mut self) -> (msgs: Vec<ShowWeapon>)
        requires
            old(self)@.fits_index(),
        ensures
            final(self)@ == old(self)@.after_next(),
            msgs@ == old(self)@.next_messages(),
            old(self)@.selection_valid() ==> final(self)@.selection_valid(),
    {
        if !self.weapons.is_empty() && (self.current_weapon as usize) < self.weapons.len() - 1 {
            let mut msgs = self.request_current_weapon_visible(false);
            self.current_weapon = self.current_weapon + 1;
            let mut shown = self.request_current_weapon_visible(true);
            msgs.append(&mut shown);
            msgs
        } else {
            Vec::new()
        }
    }

    /// Selects the previous weapon if there is one; returns the messages that
    /// hide the old weapon and show the new one.
    pub fn prev_weapon(&mut self) -> (msgs: Vec<ShowWeapon>)
        ensures
            final(self)@ == old(self)@.after_prev(),
            msgs@ == old(self)@.prev_messages(),
            old(self)@.selection_valid() ==> final(self)@.selection_valid(),
    {
        if self.current_weapon > 0 {
            let mut msgs = self.request_current_weapon_visible(false);
            self.current_weapon = self.current_weapon - 1;
            let mut shown = self.request_current_weapon_visible(true);
            msgs.append(&mut shown);
            msgs
        } else {
            Vec::new()
        }
    }

    /// Selects the weapon at index `i` if there is one; returns the messages
    /// that hide the old weapon and show the new one.
    pub fn set_current_weapon(&mut self, i: usize) -> (msgs: Vec<ShowWeapon>)
        requires
            old(self)@.fits_index(),
        ensures
            final(self)@ == old(self)@.after_select(i as nat),
            msgs@ == old(self)@.select_messages(i as nat),
            old(self)@.selection_valid() ==> final(self)@.selection_valid(),
    {
        if i < self.weapons.len() {
            let mut msgs = self.request_current_weapon_visible(false);
            self.current_weapon = i as u32;
            let mut shown = self.request_current_weapon_visible(true);
            msgs.append(&mut shown);
            msgs
        } else {
            Vec::new()
        }
    }
}

/// Switching to the next weapon and then back to the previous one leaves
/// the selection as it was.
pub proof fn next_then_prev_restores(s: LoadoutState)
    requires
        s.can_go_next(),
    ensures
        s.after_next().after_prev() == s,
{
}

/// Switching to the previous weapon and then to the next one leaves the
/// selection as it was.
pub proof fn prev_then_next_restores(s: LoadoutState)
    requires
        0 < s.current < s.weapons.len(),
    ensures
        s.after_prev().after_next() == s,
{
}

/// A character that carries weapons always holds one of them, and after
/// taking a new weapon it holds that one.
pub proof fn held_weapon_is_carried(s: LoadoutState, new_weapon: WeaponHandle)
    requires
        s.selection_valid(),
    ensures
        s.weapons.len() > 0 ==> s.weapons.contains(s.current_handle()),
        s.after_add(new_weapon).current_handle() == new_weapon,
{
    if s.weapons.len() > 0 {
        assert(s.weapons[s.current as int] == s.current_handle());
    }
}

/// Selecting a carried weapon hides exactly the weapon held before and
/// shows exactly the weapon held after, in that order.
pub proof fn switch_hides_held_and_shows_selected(s: LoadoutState, i: nat)
    requires
        s.selection_valid(),
        s.weapons.len() > 0,
        i < s.weapons.len(),
    ensures
        s.select_messages(i) == seq![
            ShowWeapon { weapon: s.current_handle(), state: false },
            ShowWeapon { weapon: s.after_select(i).current_handle(), state: true },
        ],
{
    assert(s.select_messages(i) =~= seq![
        ShowWeapon { weapon: s.current_handle(), state: false },
        ShowWeapon { weapon: s.after_select(i).current_handle(), state: true },
    ]);
}

/// One of the operations that change a character's weapons.
pub enum LoadoutOp {
    Add(WeaponHandle),
    Next,
    Prev,
    Select(nat),
}

/// The weapons and selection after one operation, as the methods of
/// `Loadout` state them.
pub open spec fn apply_op(s: LoadoutState, op: LoadoutOp) -> LoadoutState {
    match op {
        LoadoutOp::Add(w) => s.after_add(w),
        LoadoutOp::Next => s.after_next(),
        LoadoutOp::Prev => s.after_prev(),
        LoadoutOp::Select(i) => s.after_select(i),
    }
}

/// The weapons and selection after a run of operations, first to last.
pub open spec fn apply_ops(s: LoadoutState, ops: Seq<LoadoutOp>) -> LoadoutState
    decreases ops.len(),
{
    if ops.len() == 0 {
        s
    } else {
        apply_ops(apply_op(s, ops[0]), ops.drop_first())
    }
}

/// Whatever a character does with its weapons, from no weapons or a valid
/// selection on, the selection stays valid: with no weapons it is zero,
/// otherwise it names a carried weapon, and that weapon is the one held.
pub proof fn selection_stays_valid(s: LoadoutState, ops: Seq<LoadoutOp>)
    requires
        s.selection_valid(),
    ensures
        apply_ops(s, ops).selection_valid(),
        apply_ops(s, ops).weapons.len() > 0 ==> apply_ops(s, ops).current_handle()
            == apply_ops(s, ops).weapons[apply_ops(s, ops).current as int],
        apply_ops(s, ops).weapons.len() == 0 ==> apply_ops(s, ops).current_handle()
            == (WeaponHandle { index: 0, generation: 0 }),
    decreases ops.len(),
{
    if ops.len() > 0 {
        selection_stays_valid(apply_op(s, ops[0]), ops.drop_first());
    }
}

/// How each operation moves the selection, in terms of positions in the
/// list of weapons: the next weapon is one further on if there is one, the
/// previous one back unless the first is held, a selected position is
/// taken if it names a weapon, and a new weapon goes to the end and into
/// the hands. Only taking a weapon changes the list. The held weapon is the
/// one at the selected position, or none.
pub proof fn weapon_switching_moves_the_selection(s: LoadoutState, w: WeaponHandle, i: nat)
    ensures
        s.after_next().weapons == s.weapons,
        s.current + 1 < s.weapons.len() ==> s.after_next().current == s.current + 1,
        s.current + 1 >= s.weapons.len() ==> s.after_next().current == s.current,
        s.after_prev().weapons == s.weapons,
        s.current > 0 ==> s.after_prev().current == s.current - 1,
        s.current == 0 ==> s.after_prev().current == 0,
        s.after_select(i).weapons == s.weapons,
        i < s.weapons.len() ==> s.after_select(i).current == i,
        i >= s.weapons.len() ==> s.after_select(i).current == s.current,
        s.after_add(w).weapons == s.weapons.push(w),
        s.after_add(w).current == s.weapons.len(),
        s.current < s.weapons.len() ==> s.current_handle() == s.weapons[s.current as int],
        s.current >= s.weapons.len() ==> s.current_handle() == (WeaponHandle { index: 0, generation: 0 }),
{
}

/// The show and hide messages of each operation on a valid selection: a
/// switch hides the weapon held and shows the one taken, and sends nothing
/// when the selection stays; taking a weapon hides every carried weapon,
/// in order, then shows the new one.
pub proof fn switching_hides_and_shows_weapons(s: LoadoutState, w: WeaponHandle, i: nat)
    requires
        s.selection_valid(),
    ensures
        s.current + 1 < s.weapons.len() ==> s.next_messages() == seq![
            ShowWeapon { weapon: s.weapons[s.current as int], state: false },
            ShowWeapon { weapon: s.weapons[s.current + 1int], state: true },
        ],
        s.current + 1 >= s.weapons.len() ==> s.next_messages().len() == 0,
        s.current > 0 ==> s.prev_messages() == seq![
            ShowWeapon { weapon: s.weapons[s.current as int], state: false },
            ShowWeapon { weapon: s.weapons[s.current - 1], state: true },
        ],
        s.current == 0 ==> s.prev_messages().len() == 0,
        i < s.weapons.len() ==> s.select_messages(i) == seq![
            ShowWeapon { weapon: s.weapons[s.current as int], state: false },
            ShowWeapon { weapon: s.weapons[i as int], state: true },
        ],
        i >= s.weapons.len() ==> s.select_messages(i).len() == 0,
        s.add_messages(w).len() == s.weapons.len() + 1,
        forall|k: int| 0 <= k < s.weapons.len() ==> s.add_messages(w)[k] == (ShowWeapon { weapon: s.weapons[k], state: false }),
        s.add_messages(w)[s.weapons.len() as int] == (ShowWeapon { weapon: w, state: true }),
{
    if s.current + 1 < s.weapons.len() {
        assert(s.next_messages() =~= seq![
            ShowWeapon { weapon: s.weapons[s.current as int], state: false },
            ShowWeapon { weapon: s.weapons[s.current + 1int], state: true },
        ]);
    }
    if s.current > 0 {
        assert(s.prev_messages() =~= seq![
            ShowWeapon { weapon: s.weapons[s.current as int], state: false },
            ShowWeapon { weapon: s.weapons[s.current - 1], state: true },
        ]);
    }
    if i < s.weapons.len() {
        assert(s.select_messages(i) =~= seq![
            ShowWeapon { weapon: s.weapons[s.current as int], state: false },
            ShowWeapon { weapon: s.weapons[i as int], state: true },
        ]);
    }
}

} // verus!
