//! Kinds of bots and the assets each kind is built from.

use vstd::prelude::*;
use crate::text::{signed_decimal, unknown_id_message};

verus! {

/// The kinds of bots that roam a level.
#[derive(Clone, Copy, PartialEq, Eq, Structural, Hash, Debug)]
pub enum BotKind {
    // Beasts
    Mutant,
    Parasite,
    Maw,
}

impl BotKind {
    /// The id under which a kind is saved.
    pub open spec fn spec_id(self) -> int {
        match self {
            BotKind::Mutant => 0,
            BotKind::Parasite => 1,
            BotKind::Maw => 2,
        }
    }

    /// The kind saved under `id`; an id that names no kind is refused with a message.
    pub fn new(id: i32) -> (r: Result<Self, String>)
        ensures
            r is Ok <==> 0 <= id < 3,
            r matches Ok(k) ==> k.spec_id() == id,
            r matches Err(e) ==> e@ == "Invalid bot kind "@ + signed_decimal(id as int),
    {
        match id {
            0 => Ok(BotKind::Mutant),
            1 => Ok(BotKind::Parasite),
            2 => Ok(BotKind::Maw),
            _ => Err(unknown_id_message("Invalid bot kind ", id as i64)),
        }
    }

    /// The id under which this kind is saved.
    pub fn id(&self) -> (i: i32)
        ensures
            i == self.spec_id(),
    {
        match self {
            BotKind::Mutant => 0,
            BotKind::Parasite => 1,
            BotKind::Maw => 2,
        }
    }
}

impl BotKind {
    /// The name of a kind, as `{:?}` prints it.
    pub open spec fn spec_name(self) -> Seq<char> {
        match self {
            BotKind::Mutant => "Mutant"@,
            BotKind::Parasite => "Parasite"@,
            BotKind::Maw => "Maw"@,
        }
    }

    /// The name of this kind, as `{:?}` prints it.
    pub fn name(&self) -> (n: &'static str)
        ensures
            n@ == self.spec_name(),
    {
        match self {
            BotKind::Mutant => "Mutant",
            BotKind::Parasite => "Parasite",
            BotKind::Maw => "Maw",
        }
    }
}

/// Ids name kinds one to one: every kind has an id in `0..3`, and no two
/// kinds share one. So a kind written by its id is read back as itself.
pub proof fn bot_kind_ids_are_unique(a: BotKind, b: BotKind)
    ensures
        0 <= a.spec_id() < 3,
        a.spec_id() == b.spec_id() ==> a == b,
{
}

/// The assets and skeleton bone names of a kind of bot.
#[derive(Clone, Copy, PartialEq, Eq, Debug)]
pub struct BotDefinition {
    pub kind: BotKind,
    pub model: &'static str,
    pub idle_animation: &'static str,
    pub walk_animation: &'static str,
    pub aim_animation: &'static str,
    pub whip_animation: &'static str,
    pub jump_animation: &'static str,
    pub falling_animation: &'static str,
    pub hit_reaction_animation: &'static str,
    pub dying_animation: &'static str,
    pub dead_animation: &'static str,
    pub weapon_hand_name: &'static str,
    pub left_leg_name: &'static str,
    pub right_leg_name: &'static str,
    pub spine: &'static str,
}

/// The definition of each kind of bot.
pub open spec fn spec_bot_definition(kind: BotKind) -> BotDefinition {
    match kind {
        BotKind::Mutant => BotDefinition {
            kind: BotKind::Mutant,
            model: "data/models/mutant.FBX",
            idle_animation: "data/animations/mutant/idle.fbx",
            walk_animation: "data/animations/mutant/walk.fbx",
            aim_animation: "data/animations/mutant/aim.fbx",
            whip_animation: "data/animations/mutant/whip.fbx",
            jump_animation: "data/animations/mutant/jump.fbx",
            falling_animation: "data/animations/mutant/falling.fbx",
            hit_reaction_animation: "data/animations/mutant/hit_reaction.fbx",
            dying_animation: "data/animations/mutant/dying.fbx",
            dead_animation: "data/animations/mutant/dead.fbx",
            weapon_hand_name: "Mutant:RightHand",
            left_leg_name: "Mutant:LeftUpLeg",
            right_leg_name: "Mutant:RightUpLeg",
            spine: "Mutant:Spine",
        },
        BotKind::Parasite => BotDefinition {
            kind: BotKind::Parasite,
            model: "data/models/parasite.FBX",
            idle_animation: "data/animations/parasite/idle.fbx",
            walk_animation: "data/animations/parasite/walk.fbx",
            aim_animation: "data/animations/parasite/aim.fbx",
            whip_animation: "data/animations/parasite/whip.fbx",
            jump_animation: "data/animations/parasite/jump.fbx",
            falling_animation: "data/animations/parasite/falling.fbx",
            hit_reaction_animation: "data/animations/parasite/hit_reaction.fbx",
            dying_animation: "data/animations/parasite/dying.fbx",
            dead_animation: "data/animations/parasite/dead.fbx",
            weapon_hand_name: "RightHand",
            left_leg_name: "LeftUpLeg",
            right_leg_name: "RightUpLeg",
            spine: "Spine",
        },
        BotKind::Maw => BotDefinition {
            kind: BotKind::Maw,
            model: "data/models/maw.fbx",
            idle_animation: "data/animations/maw/idle.fbx",
            walk_animation: "data/animations/maw/walk.fbx",
            aim_animation: "data/animations/maw/aim.fbx",
            whip_animation: "data/animations/maw/whip.fbx",
            jump_animation: "data/animations/maw/jump.fbx",
            falling_animation: "data/animations/maw/falling.fbx",
            hit_reaction_animation: "data/animations/maw/hit_reaction.fbx",
            dying_animation: "data/animations/maw/dying.fbx",
            dead_animation: "data/animations/maw/dead.fbx",
            weapon_hand_name: "RightHand",
            left_leg_name: "LeftUpLeg",
            right_leg_name: "RightUpLeg",
            spine: "Spine",
        },
    }
}

/// The definition of a kind of bot: its model, animations and bone names.
pub fn get_definition(kind: BotKind) -> (d: BotDefinition)
    ensures
        d == spec_bot_definition(kind),
        d.kind == kind,
{
    match kind {
        BotKind::Mutant => BotDefinition {
            kind: BotKind::Mutant,
            model: "data/models/mutant.FBX",
            idle_animation: "data/animations/mutant/idle.fbx",
            walk_animation: "data/animations/mutant/walk.fbx",
            aim_animation: "data/animations/mutant/aim.fbx",
            whip_animation: "data/animations/mutant/whip.fbx",
            jump_animation: "data/animations/mutant/jump.fbx",
            falling_animation: "data/animations/mutant/falling.fbx",
            hit_reaction_animation: "data/animations/mutant/hit_reaction.fbx",
            dying_animation: "data/animations/mutant/dying.fbx",
            dead_animation: "data/animations/mutant/dead.fbx",
            weapon_hand_name: "Mutant:RightHand",
            left_leg_name: "Mutant:LeftUpLeg",
            right_leg_name: "Mutant:RightUpLeg",
            spine: "Mutant:Spine",
        },
        BotKind::Parasite => BotDefinition {
            kind: BotKind::Parasite,
            model: "data/models/parasite.FBX",
            idle_animation: "data/animations/parasite/idle.fbx",
            walk_animation: "data/animations/parasite/walk.fbx",
            aim_animation: "data/animations/parasite/aim.fbx",
            whip_animation: "data/animations/parasite/whip.fbx",
            jump_animation: "data/animations/parasite/jump.fbx",
            falling_animation: "data/animations/parasite/falling.fbx",
            hit_reaction_animation: "data/animations/parasite/hit_reaction.fbx",
            dying_animation: "data/animations/parasite/dying.fbx",
            dead_animation: "data/animations/parasite/dead.fbx",
            weapon_hand_name: "RightHand",
            left_leg_name: "LeftUpLeg",
            right_leg_name: "RightUpLeg",
            spine: "Spine",
        },
        BotKind::Maw => BotDefinition {
            kind: BotKind::Maw,
            model: "data/models/maw.fbx",
            idle_animation: "data/animations/maw/idle.fbx",
            walk_animation: "data/animations/maw/walk.fbx",
            aim_animation: "data/animations/maw/aim.fbx",
            whip_animation: "data/animations/maw/whip.fbx",
            jump_animation: "data/animations/maw/jump.fbx",
            falling_animation: "data/animations/maw/falling.fbx",
            hit_reaction_animation: "data/animations/maw/hit_reaction.fbx",
            dying_animation: "data/animations/maw/dying.fbx",
            dead_animation: "data/animations/maw/dead.fbx",
            weapon_hand_name: "RightHand",
            left_leg_name: "LeftUpLeg",
            right_leg_name: "RightUpLeg",
            spine: "Spine",
        },
    }
}

/// What a bot makes of its surroundings on a frame.
#[derive(Clone, Copy, PartialEq, Eq, Structural, Debug)]
pub struct BotSenses {
    /// The target is farther than melee range.
    pub far: bool,
    /// The target is within melee range, its edge included.
    pub near: bool,
    /// The target is above the bot's line of sight.
    pub target_above: bool,
    /// The target is strictly inside melee range.
    pub in_reach: bool,
    /// The bot stands on the ground.
    pub has_ground_contact: bool,
    /// The bot lost health since the last frame.
    pub was_damaged: bool,
    /// The bot's recovery from its last hit was over before this frame.
    pub recovered: bool,
}

/// A bot aims, and shoots, only once it has recovered from its last hit
/// and has not been hit again on this frame.
pub open spec fn spec_can_aim(s: BotSenses) -> bool {
    s.recovered && !s.was_damaged
}

/// The rules that drive a bot's animation machines on a frame: the
/// locomotion machine (idle, walk, jump, falling) and the combat machine
/// (aim, whip, hit reaction).
#[derive(Clone, Copy, PartialEq, Eq, Structural, Debug)]
pub struct BotRules {
    pub idle_to_walk: bool,
    pub walk_to_idle: bool,
    pub walk_to_jump: bool,
    pub idle_to_jump: bool,
    pub jump_to_falling: bool,
    pub falling_to_idle: bool,
    pub whip_to_aim: bool,
    pub aim_to_whip: bool,
    pub whip_to_hit_reaction: bool,
    pub aim_to_hit_reaction: bool,
    pub hit_reaction_to_aim: bool,
    /// The bot jumps towards a target above it that it has almost reached.
    pub need_jump: bool,
}

/// A bot walks and aims at a far target and stands and whips a near one;
/// it jumps at a target above it within reach while on the ground, falls
/// when off the ground, reacts to hits, and aims again once recovered.
pub open spec fn spec_bot_rules(s: BotSenses) -> BotRules {
    let need_jump = s.target_above && s.has_ground_contact && s.in_reach;
    BotRules {
        idle_to_walk: s.far,
        walk_to_idle: s.near,
        walk_to_jump: need_jump,
        idle_to_jump: need_jump,
        jump_to_falling: !s.has_ground_contact,
        falling_to_idle: s.has_ground_contact,
        whip_to_aim: s.far,
        aim_to_whip: s.near,
        whip_to_hit_reaction: s.was_damaged,
        aim_to_hit_reaction: s.was_damaged,
        hit_reaction_to_aim: spec_can_aim(s),
        need_jump,
    }
}

/// The animation machine rules of a bot for what it senses on this frame.
pub fn bot_rules(s: BotSenses) -> (r: BotRules)
    ensures
        r == spec_bot_rules(s),
{
    let need_jump = s.target_above && s.has_ground_contact && s.in_reach;
    BotRules {
        idle_to_walk: s.far,
        walk_to_idle: s.near,
        walk_to_jump: need_jump,
        idle_to_jump: need_jump,
        jump_to_falling: !s.has_ground_contact,
        falling_to_idle: s.has_ground_contact,
        whip_to_aim: s.far,
        aim_to_whip: s.near,
        whip_to_hit_reaction: s.was_damaged,
        aim_to_hit_reaction: s.was_damaged,
        hit_reaction_to_aim: s.recovered && !s.was_damaged,
        need_jump,
    }
}

/// The shots that fill a burst: on the last one the count starts over.
pub const BURST_LENGTH: usize = 4;

/// What a bot does about shooting on a frame.
#[derive(Clone, Copy, PartialEq, Eq, Structural, Debug)]
pub struct ShotDecision {
    /// The bot fires its weapon.
    pub shoot: bool,
    /// The shots of the current burst after this frame.
    pub shots_made: usize,
    /// The shot filled the burst: the count starts over and the bot's
    /// shot interval is set anew.
    pub burst_done: bool,
}

/// The shooting decision of a bot that has fired `shots_made` shots of its
/// current burst: it fires when its target is beyond melee range (`far`),
/// it can aim (`spec_can_aim`), it is aiming (`aiming`) and it
/// holds a weapon; the shot that completes a burst starts over the count
/// and marks the burst as done.
pub open spec fn spec_decide_shot(shots_made: nat, s: BotSenses, aiming: bool, has_weapon: bool) -> ShotDecision {
    if s.far && spec_can_aim(s) && aiming && has_weapon {
        if shots_made + 1 >= BURST_LENGTH {
            ShotDecision { shoot: true, shots_made: 0, burst_done: true }
        } else {
            ShotDecision { shoot: true, shots_made: (shots_made + 1) as usize, burst_done: false }
        }
    } else {
        ShotDecision { shoot: false, shots_made: shots_made as usize, burst_done: false }
    }
}

/// Decides whether a bot fires on this frame and counts the shot.
pub fn decide_shot(shots_made: usize, s: BotSenses, aiming: bool, has_weapon: bool) -> (d: ShotDecision)
    requires
        shots_made < usize::MAX,
    ensures
        d == spec_decide_shot(shots_made as nat, s, aiming, has_weapon),
{
    if s.far && s.recovered && !s.was_damaged && aiming && has_weapon {
        let shots_made = shots_made + 1;
        if shots_made >= BURST_LENGTH {
            ShotDecision { shoot: true, shots_made: 0, burst_done: true }
        } else {
            ShotDecision { shoot: true, shots_made, burst_done: false }
        }
    } else {
        ShotDecision { shoot: false, shots_made, burst_done: false }
    }
}

/// A bot's burst count stays below the burst length, and a burst is done
/// exactly on the shot that fills it: after `BURST_LENGTH` shots in a row
/// from the start of a burst, the count starts over.
pub proof fn bursts_stay_short(shots_made: nat, s: BotSenses, aiming: bool, has_weapon: bool)
    requires
        shots_made < BURST_LENGTH,
    ensures
        spec_decide_shot(shots_made, s, aiming, has_weapon).shots_made < BURST_LENGTH,
        spec_decide_shot(shots_made, s, aiming, has_weapon).burst_done <==> (
        spec_decide_shot(shots_made, s, aiming, has_weapon).shoot && shots_made + 1
            == BURST_LENGTH),
{
}

/// The path point a bot heads for after this frame: it moves on to the
/// next point once it has reached (`reached`) the one it heads for, unless
/// that is the last point of the path.
pub open spec fn spec_next_path_point(current: nat, path_len: nat, reached: bool) -> nat {
    if current < path_len && reached && current + 1 < path_len {
        current + 1
    } else {
        current
    }
}

/// Moves a bot along its path of `path_len` points.
pub fn advance_path_point(current: usize, path_len: usize, reached: bool) -> (next: usize)
    ensures
        next == spec_next_path_point(current as nat, path_len as nat, reached),
{
    if current < path_len && reached {
        if current < path_len - 1 {
            return current + 1;
        }
    }
    current
}

/// A bot on its path stays on it: the point it heads for is always a
/// point of the path, it never goes back, and it moves at most one point
/// a frame.
pub proof fn bot_stays_on_path(current: nat, path_len: nat, reached: bool)
    requires
        current < path_len,
    ensures
        spec_next_path_point(current, path_len, reached) < path_len,
        current <= spec_next_path_point(current, path_len, reached) <= current + 1,
{
}

/// A bot that has reached a point of its path other than the last moves
/// on to the next one, the last point included; a bot that has not reached
/// its point, or stands on the last point, keeps heading for it.
pub proof fn bot_moves_on_along_its_path(current: nat, path_len: nat, reached: bool)
    ensures
        reached && current + 1 < path_len ==> spec_next_path_point(current, path_len, reached)
            == current + 1,
        !reached ==> spec_next_path_point(current, path_len, reached) == current,
        current + 1 >= path_len ==> spec_next_path_point(current, path_len, reached) == current,
{
}

/// What a bot's machines do for what it senses: it walks and aims at a
/// target beyond melee range and stands and whips one within it; it jumps
/// only at a target above it, within reach, while it stands on the ground;
/// it falls when off the ground; a hit makes it react, and it aims again
/// only once recovered and not hit again on this frame.
pub proof fn bot_rules_follow_the_senses(s: BotSenses)
    ensures
        spec_bot_rules(s).need_jump <==> (s.target_above && s.has_ground_contact && s.in_reach),
        !s.target_above ==> !spec_bot_rules(s).need_jump && !spec_bot_rules(s).walk_to_jump
            && !spec_bot_rules(s).idle_to_jump,
        spec_bot_rules(s).walk_to_jump == spec_bot_rules(s).need_jump,
        spec_bot_rules(s).idle_to_jump == spec_bot_rules(s).need_jump,
        spec_bot_rules(s).idle_to_walk == s.far,
        spec_bot_rules(s).whip_to_aim == s.far,
        spec_bot_rules(s).walk_to_idle == s.near,
        spec_bot_rules(s).aim_to_whip == s.near,
        spec_bot_rules(s).jump_to_falling == !s.has_ground_contact,
        spec_bot_rules(s).falling_to_idle == s.has_ground_contact,
        spec_bot_rules(s).whip_to_hit_reaction == s.was_damaged,
        spec_bot_rules(s).aim_to_hit_reaction == s.was_damaged,
        spec_bot_rules(s).hit_reaction_to_aim == (s.recovered && !s.was_damaged),
{
}

/// A bot fires exactly when its target is beyond melee range, it has
/// recovered and is not hit on this frame, it aims and it holds a weapon.
/// A frame without a shot leaves the burst count as it was; a shot counts
/// one more, and the fourth shot of a burst starts the count over.
pub proof fn shots_are_counted_in_bursts_of_four(shots_made: nat, s: BotSenses, aiming: bool, has_weapon: bool)
    requires
        shots_made < usize::MAX,
    ensures
        spec_decide_shot(shots_made, s, aiming, has_weapon).shoot <==> (s.far && s.recovered
            && !s.was_damaged && aiming && has_weapon),
        !spec_decide_shot(shots_made, s, aiming, has_weapon).shoot ==> spec_decide_shot(
            shots_made,
            s,
            aiming,
            has_weapon,
        ).shots_made == shots_made && !spec_decide_shot(shots_made, s, aiming, has_weapon).burst_done,
        spec_decide_shot(shots_made, s, aiming, has_weapon).shoot && shots_made + 1 < 4
            ==> spec_decide_shot(shots_made, s, aiming, has_weapon).shots_made == shots_made + 1
            && !spec_decide_shot(shots_made, s, aiming, has_weapon).burst_done,
        spec_decide_shot(shots_made, s, aiming, has_weapon).shoot && shots_made + 1 >= 4
            ==> spec_decide_shot(shots_made, s, aiming, has_weapon).shots_made == 0
            && spec_decide_shot(shots_made, s, aiming, has_weapon).burst_done,
{
}

/// Each kind is saved under its place in the list of kinds, from 0, and
/// is named by its variant, as `{:?}` prints it.
pub proof fn botkind_ids_and_names(k: BotKind)
    ensures
        k.spec_id() == (if k == BotKind::Mutant { 0int } else if k == BotKind::Parasite { 1int } else { 2int }),
        k == BotKind::Mutant ==> k.spec_name() == "Mutant"@,
        k == BotKind::Parasite ==> k.spec_name() == "Parasite"@,
        k == BotKind::Maw ==> k.spec_name() == "Maw"@,
{
}

/// Each kind of bot is built from its own model, and its definition
/// names its kind.
pub proof fn bot_models(k: BotKind)
    ensures
        spec_bot_definition(k).kind == k,
        k == BotKind::Mutant ==> spec_bot_definition(k).model == "data/models/mutant.FBX",
        k == BotKind::Parasite ==> spec_bot_definition(k).model == "data/models/parasite.FBX",
        k == BotKind::Maw ==> spec_bot_definition(k).model == "data/models/maw.fbx",
{
}

} // verus!
