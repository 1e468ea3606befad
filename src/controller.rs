//! Grounded/airborne state machine, contact scan and velocity law.
//!
//! Speeds and impulses are integers in thousandths of the host's unit, so the
//! default horizontal speed of 3.0 is `3000`.
use vstd::prelude::*;
use crate::input::{InputState, Key};

verus! {

/// Default horizontal speed, in thousandths.
pub const DEFAULT_HORIZONTAL_SPEED: u32 = 3000;

/// Default upward jump impulse, in thousandths.
pub const DEFAULT_JUMP_IMPULSE: u32 = 10150;

/// A contact reported for the foot sensor, naming the entities that own the
/// two touching shapes.
#[derive(Clone, Copy, Debug, PartialEq, Eq, Structural)]
pub struct ContactPair {
    pub body_a: u64,
    pub body_b: u64,
}

/// What the host does to the rigid body this tick. Exactly one is returned.
#[derive(Clone, Copy, Debug, PartialEq, Eq, Structural)]
pub enum Command {
    /// Set the horizontal velocity to `x`; the vertical velocity is left as it is.
    SetHorizontalVelocity { x: i64 },
    /// Apply an upward impulse of `y`; the velocity is not set.
    ApplyImpulse { y: i64 },
}

/// The party of `pair` that is not `own`.
pub open spec fn other_party(pair: ContactPair, own: u64) -> u64 {
    if pair.body_a == own {
        pair.body_b
    } else {
        pair.body_a
    }
}

/// Whether `pair` touches an entity carrying the ground marker.
pub open spec fn is_ground_contact(pair: ContactPair, own: u64, ground: Seq<u64>) -> bool {
    ground.contains(other_party(pair, own))
}

/// Whether any of `contacts` touches ground.
pub open spec fn touches_ground(contacts: Seq<ContactPair>, own: u64, ground: Seq<u64>) -> bool {
    exists|i: int| 0 <= i < contacts.len() && #[trigger] is_ground_contact(contacts[i], own, ground)
}

/// The horizontal speed law: left input wins over right, and left moves in the
/// positive direction.
pub open spec fn x_speed(input: InputState, speed: u32) -> int {
    if input.move_left {
        speed as int
    } else if input.move_right {
        -(speed as int)
    } else {
        0
    }
}

/// The controller of one player entity.
#[derive(Clone, Copy, Debug, PartialEq, Eq, Structural)]
pub struct Player {
    pub input: InputState,
    /// Sticky: cleared only by a jump, set again only by ground contact.
    pub is_grounded: bool,
    pub horizontal_speed: u32,
    pub jump_impulse: u32,
}

impl Player {
    /// The state after the contact scan of a tick.
    pub open spec fn after_scan(self, contacts: Seq<ContactPair>, own: u64, ground: Seq<u64>) -> Player {
        if !self.is_grounded && touches_ground(contacts, own, ground) {
            Player { is_grounded: true, ..self }
        } else {
            self
        }
    }

    /// The state after a whole tick.
    pub open spec fn after_tick(self, contacts: Seq<ContactPair>, own: u64, ground: Seq<u64>) -> Player {
        let p = self.after_scan(contacts, own, ground);
        if p.input.jump_held && p.is_grounded {
            Player { is_grounded: false, ..p }
        } else {
            p
        }
    }

    /// The command of a tick.
    pub open spec fn tick_command(self, contacts: Seq<ContactPair>, own: u64, ground: Seq<u64>) -> Command {
        let p = self.after_scan(contacts, own, ground);
        if p.input.jump_held && p.is_grounded {
            Command::ApplyImpulse { y: self.jump_impulse as i64 }
        } else {
            Command::SetHorizontalVelocity { x: x_speed(self.input, self.horizontal_speed) as i64 }
        }
    }

    /// A grounded player with no key held and the default tunables.
    pub fn new() -> (r: Player)
        ensures
            r.input == (InputState { move_left: false, move_right: false, jump_held: false }),
            r.is_grounded,
            r.horizontal_speed == DEFAULT_HORIZONTAL_SPEED,
            r.jump_impulse == DEFAULT_JUMP_IMPULSE,
    {
        Player {
            input: InputState::new(),
            is_grounded: true,
            horizontal_speed: DEFAULT_HORIZONTAL_SPEED,
            jump_impulse: DEFAULT_JUMP_IMPULSE,
        }
    }

    /// Passes one key event to the input state.
    pub fn on_key_event(&mut self, key: Key, pressed: bool)
        ensures
            *final(self) == (Player { input: old(self).input.after_key(key, pressed), ..*old(self) }),
    {
        self.input.on_key_event(key, pressed);
    }

    /// Scans the foot sensor's contacts of this tick and becomes grounded on
    /// the first one that touches ground. `own` is the entity of the player's
    /// body; `ground` lists the entities that carry the ground marker.
    pub fn check_ground_collision(&mut self, own: u64, contacts: &Vec<ContactPair>, ground: &Vec<u64>)
        ensures
            *final(self) == (Player {
                is_grounded: old(self).is_grounded || touches_ground(contacts@, own, ground@),
                ..*old(self)
            }),
    {
        let mut found = false;
        let mut i: usize = 0;
        while i < contacts.len() && !found
            invariant
                0 <= i <= contacts.len(),
                found == exists|j: int|
                    0 <= j < i && #[trigger] is_ground_contact(contacts@[j], own, ground@),
            decreases contacts.len() - i,
        {
            let pair = contacts[i];
            let other = if pair.body_a == own { pair.body_b } else { pair.body_a };
            let hit = is_ground(other, ground);
            assert(hit == is_ground_contact(contacts@[i as int], own, ground@));
            found = hit;
            i = i + 1;
        }
        if found {
            self.is_grounded = true;
        }
    }

    /// One tick: computes the speed law, scans for ground while airborne, then
    /// either jumps (grounded with jump held) or commands the horizontal
    /// velocity.
    pub fn on_update(&mut self, own: u64, contacts: &Vec<ContactPair>, ground: &Vec<u64>) -> (c: Command)
        ensures
            *final(self) == old(self).after_tick(contacts@, own, ground@),
            c == old(self).tick_command(contacts@, own, ground@),
    {
        let x: i64 = if self.input.move_left {
            self.horizontal_speed as i64
        } else if self.input.move_right {
            -(self.horizontal_speed as i64)
        } else {
            0
        };
        if !self.is_grounded {
            self.check_ground_collision(own, contacts, ground);
        }
        if self.input.jump_held && self.is_grounded {
            self.is_grounded = false;
            Command::ApplyImpulse { y: self.jump_impulse as i64 }
        } else {
            Command::SetHorizontalVelocity { x }
        }
    }
}

/// Whether `entity` carries the ground marker.
fn is_ground(entity: u64, ground: &Vec<u64>) -> (r: bool)
    ensures
        r == ground@.contains(entity),
{
    let mut i: usize = 0;
    while i < ground.len()
        invariant
            0 <= i <= ground.len(),
            forall|j: int| 0 <= j < i ==> ground@[j] != entity,
        decreases ground.len() - i,
    {
        if ground[i] == entity {
            return true;
        }
        i = i + 1;
    }
    false
}

/// The state after a run of ticks with no key events between them, one
/// contact list per tick.
pub open spec fn after_ticks(p: Player, frames: Seq<Seq<ContactPair>>, own: u64, ground: Seq<u64>) -> Player
    decreases frames.len(),
{
    if frames.len() == 0 {
        p
    } else {
        after_ticks(p, frames.drop_last(), own, ground).after_tick(frames.last(), own, ground)
    }
}

/// A grounded player leaves the ground in a tick exactly when jump is held,
/// and that tick's one command is the jump impulse, with no velocity set.
pub proof fn lemma_takeoff(p: Player, contacts: Seq<ContactPair>, own: u64, ground: Seq<u64>)
    ensures
        (p.is_grounded && !p.after_tick(contacts, own, ground).is_grounded) <==> (p.is_grounded
            && p.input.jump_held),
        p.is_grounded && p.input.jump_held ==> p.tick_command(contacts, own, ground)
            == (Command::ApplyImpulse { y: p.jump_impulse as i64 }),
{
}

/// An airborne player never lands in a tick without a ground contact; with
/// jump released it lands exactly when a contact touches ground.
pub proof fn lemma_landing(p: Player, contacts: Seq<ContactPair>, own: u64, ground: Seq<u64>)
    requires
        !p.is_grounded,
    ensures
        !touches_ground(contacts, own, ground) ==> !p.after_tick(contacts, own, ground).is_grounded,
        !p.input.jump_held ==> (p.after_tick(contacts, own, ground).is_grounded <==> touches_ground(
            contacts,
            own,
            ground,
        )),
{
}

/// Without ground contacts an airborne player stays airborne over any number
/// of ticks.
pub proof fn lemma_no_spontaneous_grounding(
    p: Player,
    frames: Seq<Seq<ContactPair>>,
    own: u64,
    ground: Seq<u64>,
)
    requires
        !p.is_grounded,
        forall|i: int| 0 <= i < frames.len() ==> !touches_ground(#[trigger] frames[i], own, ground),
    ensures
        !after_ticks(p, frames, own, ground).is_grounded,
    decreases frames.len(),
{
    if frames.len() > 0 {
        let rest = frames.drop_last();
        assert forall|i: int| 0 <= i < rest.len() implies !touches_ground(#[trigger] rest[i], own, ground) by {
            assert(rest[i] == frames[i]);
        }
        lemma_no_spontaneous_grounding(p, rest, own, ground);
        let q = after_ticks(p, rest, own, ground);
        assert(!touches_ground(frames[frames.len() - 1], own, ground));
        lemma_landing(q, frames.last(), own, ground);
    }
}

/// While grounded and not jumping, a tick changes no state and commands
/// exactly the speed law's horizontal velocity.
pub proof fn lemma_grounded_walk(p: Player, contacts: Seq<ContactPair>, own: u64, ground: Seq<u64>)
    requires
        p.is_grounded,
        !p.input.jump_held,
    ensures
        p.after_tick(contacts, own, ground) == p,
        p.tick_command(contacts, own, ground) == (Command::SetHorizontalVelocity {
            x: x_speed(p.input, p.horizontal_speed) as i64,
        }),
{
}

/// Left and right held together give the left speed.
pub proof fn lemma_left_wins(p: Player, contacts: Seq<ContactPair>, own: u64, ground: Seq<u64>)
    requires
        p.input.move_left,
        p.input.move_right,
    ensures
        x_speed(p.input, p.horizontal_speed) == p.horizontal_speed,
        !p.input.jump_held ==> p.tick_command(contacts, own, ground) == (
        Command::SetHorizontalVelocity { x: p.horizontal_speed as i64 }),
{
}

} // verus!
