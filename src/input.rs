//! Input normalisation: key reports pass through with a translated code,
//! and modifier-state reports, which only give the level of each modifier,
//! become discrete press and release events.
use vstd::prelude::*;

use crate::keys::{
    browser_key, is_modifier_key, key_code_from_browser, key_code_from_platform, modifier_key,
    platform_key, KeyCode, KeyModifiers,
};

verus! {

/// One key going down or up.
#[derive(Debug, Clone, Copy, PartialEq, Eq, Structural)]
pub struct KeyEvent {
    pub code: KeyCode,
    pub modifiers: KeyModifiers,
    pub pressed: bool,
    pub repeat: bool,
}

/// The event for modifier `bit`, whose key is `code`, when the modifier
/// state goes from `previous` to `current`: none if the bit did not change,
/// else a press if it is now set and a release if it is now clear.
pub open spec fn modifier_edge(previous: u8, current: u8, bit: u8, code: KeyCode) -> Seq<KeyEvent> {
    if (previous ^ current) & bit != 0 {
        seq![KeyEvent { code, modifiers: KeyModifiers(current), pressed: current & bit != 0, repeat: false }]
    } else {
        Seq::empty()
    }
}

/// The events for a change of modifier state, in bit order. Caps lock,
/// shift, control and option have keys of their own; command, numeric pad,
/// help and function have none and give no event.
pub open spec fn modifier_events(previous: u8, current: u8) -> Seq<KeyEvent> {
    modifier_edge(previous, current, KeyModifiers::CAPSLOCK, KeyCode::CapsLock)
        + modifier_edge(previous, current, KeyModifiers::SHIFT, KeyCode::LeftShift)
        + modifier_edge(previous, current, KeyModifiers::CONTROL, KeyCode::LeftControl)
        + modifier_edge(previous, current, KeyModifiers::OPTION, KeyCode::LeftAlt)
}

/// Builds the event for a key report from the platform: the virtual key
/// code is translated, the platform modifier word reduced to the modifiers.
pub fn key_event_from_platform(code: u16, modifier_bits: u64, pressed: bool, repeat: bool) -> (e: KeyEvent)
    ensures
        e.code == platform_key(code),
        e.modifiers.0 as u64 == (modifier_bits >> 16u64) & 0xffu64,
        e.pressed == pressed,
        e.repeat == repeat,
{
    KeyEvent {
        code: key_code_from_platform(code),
        modifiers: KeyModifiers::from_platform_bits(modifier_bits),
        pressed,
        repeat,
    }
}

/// The events for a browser key report: first the edges of the modifier
/// state it carries, then the key itself unless it is a modifier key, whose
/// edges the modifier state already gave.
pub open spec fn browser_key_events(
    previous: u8,
    code: u32,
    modifiers: KeyModifiers,
    pressed: bool,
    repeat: bool,
) -> Seq<KeyEvent> {
    modifier_events(previous, modifiers.0) + if is_modifier_key(browser_key(code)) {
        Seq::empty()
    } else {
        seq![KeyEvent { code: browser_key(code), modifiers, pressed, repeat }]
    }
}

/// Remembers the last modifier state seen, to turn level reports into edges.
pub struct ModifierTracker {
    previous: KeyModifiers,
}

impl ModifierTracker {
    /// The modifier state last reported.
    pub closed spec fn previous(&self) -> u8 {
        self.previous.0
    }

    /// A tracker that has seen no modifier held.
    pub fn new() -> (t: ModifierTracker)
        ensures
            t.previous() == 0,
    {
        ModifierTracker { previous: KeyModifiers(0) }
    }

    /// The modifier state last reported.
    pub fn previous_modifiers(&self) -> (m: KeyModifiers)
        ensures
            m.0 == self.previous(),
    {
        self.previous
    }

    /// Takes a browser key report, with the modifier state it carries, and
    /// returns the events it stands for.
    pub fn browser_key_report(&mut self, code: u32, modifiers: KeyModifiers, pressed: bool, repeat: bool) -> (events:
        Vec<KeyEvent>)
        ensures
            events@ == browser_key_events(old(self).previous(), code, modifiers, pressed, repeat),
            final(self).previous() == modifiers.0,
    {
        let mut events = self.flags_changed(modifiers);
        let key = key_code_from_browser(code);
        if !modifier_key(key) {
            events.push(KeyEvent { code: key, modifiers, pressed, repeat });
        }
        proof {
            assert(events@ =~= browser_key_events(old(self).previous(), code, modifiers, pressed, repeat));
        }
        events
    }

    /// Takes a modifier-state report and returns one press or release for
    /// each modifier with a key whose bit changed since the last report, in
    /// bit order; the report becomes the state to compare the next against.
    pub fn flags_changed(&mut self, current: KeyModifiers) -> (events: Vec<KeyEvent>)
        ensures
            events@ == modifier_events(old(self).previous(), current.0),
            final(self).previous() == current.0,
    {
        let previous = self.previous.0;
        let changed = previous ^ current.0;
        let mut events: Vec<KeyEvent> = Vec::new();
        let keyed: [(u8, KeyCode); 4] = [
            (KeyModifiers::CAPSLOCK, KeyCode::CapsLock),
            (KeyModifiers::SHIFT, KeyCode::LeftShift),
            (KeyModifiers::CONTROL, KeyCode::LeftControl),
            (KeyModifiers::OPTION, KeyCode::LeftAlt),
        ];
        let mut i: usize = 0;
        while i < 4
            invariant
                0 <= i <= 4,
                changed == previous ^ current.0,
                keyed@ == seq![
                    (KeyModifiers::CAPSLOCK, KeyCode::CapsLock),
                    (KeyModifiers::SHIFT, KeyCode::LeftShift),
                    (KeyModifiers::CONTROL, KeyCode::LeftControl),
                    (KeyModifiers::OPTION, KeyCode::LeftAlt),
                ],
                events@ == edges_upto(previous, current.0, keyed@, i as int),
            decreases 4 - i,
        {
            let (bit, code) = keyed[i];
            if changed & bit != 0 {
                events.push(
                    KeyEvent { code, modifiers: current, pressed: current.0 & bit != 0, repeat: false },
                );
            }
            proof {
                assert(edges_upto(previous, current.0, keyed@, i + 1) =~= edges_upto(
                    previous,
                    current.0,
                    keyed@,
                    i as int,
                ) + modifier_edge(previous, current.0, bit, code));
            }
            i = i + 1;
        }
        proof {
            reveal_with_fuel(edges_upto, 5);
            let first = modifier_edge(previous, current.0, KeyModifiers::CAPSLOCK, KeyCode::CapsLock);
            assert(Seq::<KeyEvent>::empty() + first =~= first);
            assert(edges_upto(previous, current.0, keyed@, 4) =~= modifier_events(previous, current.0));
        }
        self.previous = current;
        events
    }
}

/// The edges of the first `n` entries of `keyed`, in order.
spec fn edges_upto(previous: u8, current: u8, keyed: Seq<(u8, KeyCode)>, n: int) -> Seq<KeyEvent>
    decreases n,
{
    if n <= 0 {
        Seq::empty()
    } else {
        edges_upto(previous, current, keyed, n - 1) + modifier_edge(
            previous,
            current,
            keyed[n - 1].0,
            keyed[n - 1].1,
        )
    }
}

} // verus!
