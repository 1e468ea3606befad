//! Translation of key edges into the three held-key levels.
use vstd::prelude::*;

verus! {

/// A physical key as the host reports it; only three keys are bound.
#[derive(Clone, Copy, Debug, PartialEq, Eq, Structural)]
pub enum Key {
    /// Bound to `move_left`.
    KeyA,
    /// Bound to `move_right`.
    KeyD,
    /// Bound to `jump_held`.
    Space,
    /// Any key that is not bound.
    Other,
}

/// The held state of the three bound keys, last write wins.
#[derive(Clone, Copy, Debug, PartialEq, Eq, Structural)]
pub struct InputState {
    pub move_left: bool,
    pub move_right: bool,
    pub jump_held: bool,
}

impl InputState {
    /// The state after one key event.
    pub open spec fn after_key(self, key: Key, pressed: bool) -> InputState {
        match key {
            Key::KeyA => InputState { move_left: pressed, ..self },
            Key::KeyD => InputState { move_right: pressed, ..self },
            Key::Space => InputState { jump_held: pressed, ..self },
            Key::Other => self,
        }
    }

    /// The state after a stream of events, applied in order.
    pub open spec fn after_keys(self, events: Seq<(Key, bool)>) -> InputState
        decreases events.len(),
    {
        if events.len() == 0 {
            self
        } else {
            self.after_keys(events.drop_last()).after_key(events.last().0, events.last().1)
        }
    }

    /// The held level of a bound key.
    pub open spec fn level(self, key: Key) -> bool {
        match key {
            Key::KeyA => self.move_left,
            Key::KeyD => self.move_right,
            Key::Space => self.jump_held,
            Key::Other => false,
        }
    }

    /// All three keys released.
    pub fn new() -> (r: InputState)
        ensures
            !r.move_left,
            !r.move_right,
            !r.jump_held,
    {
        InputState { move_left: false, move_right: false, jump_held: false }
    }

    /// Records one key event: a bound key's level becomes `pressed`, any other
    /// key is ignored.
    pub fn on_key_event(&mut self, key: Key, pressed: bool)
        ensures
            *final(self) == old(self).after_key(key, pressed),
    {
        match key {
            Key::KeyA => self.move_left = pressed,
            Key::KeyD => self.move_right = pressed,
            Key::Space => self.jump_held = pressed,
            Key::Other => {},
        }
    }
}

/// The `pressed` flag of the most recent event for `key` in `events`, or
/// `initial` when no event names it.
pub open spec fn last_level(events: Seq<(Key, bool)>, key: Key, initial: bool) -> bool
    decreases events.len(),
{
    if events.len() == 0 {
        initial
    } else if events.last().0 == key {
        events.last().1
    } else {
        last_level(events.drop_last(), key, initial)
    }
}

/// After any stream of events, each bound key's level is the `pressed` flag of
/// the most recent event for that key (its earlier level when there is none).
pub proof fn lemma_last_event_wins(s: InputState, events: Seq<(Key, bool)>, key: Key)
    requires
        key != Key::Other,
    ensures
        s.after_keys(events).level(key) == last_level(events, key, s.level(key)),
    decreases events.len(),
{
    if events.len() > 0 {
        lemma_last_event_wins(s, events.drop_last(), key);
    }
}

/// Unbound keys never change the state, whatever stream they come in.
pub proof fn lemma_unbound_keys_ignored(s: InputState, events: Seq<(Key, bool)>)
    requires
        forall|i: int| 0 <= i < events.len() ==> #[trigger] events[i].0 == Key::Other,
    ensures
        s.after_keys(events) == s,
    decreases events.len(),
{
    if events.len() > 0 {
        lemma_unbound_keys_ignored(s, events.drop_last());
    }
}

/// Repeating an event, as auto-repeat does while a key is held, changes
/// nothing beyond the first.
pub proof fn lemma_repeat_idempotent(s: InputState, key: Key, pressed: bool)
    ensures
        s.after_key(key, pressed).after_key(key, pressed) == s.after_key(key, pressed),
{
}

} // verus!
