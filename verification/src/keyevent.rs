//! Key events: the eating policy the four key callbacks share, the
//! compartment reads it depends on, and the preserved (hot) keys that are
//! delivered independently of that policy.  The policy is evaluated fresh
//! on every call, never cached: a key is eaten only if the host's
//! enablement flag reports not-disabled, the open/closed toggle is open,
//! and the key is a letter; while composing, the editing keys are
//! additionally committed so the composition can consume them.

use vstd::prelude::*;
use crate::editsession::EditSessionRequest;
use crate::editsession::spec_key_session_request;
use crate::service::TextService;

verus! {

/// Virtual key code of the Return key.
pub const VK_RETURN: u32 = 0x0d;

/// Virtual key code of the Kanji key on a Japanese keyboard.
pub const VK_KANJI: u32 = 0x19;

/// Virtual key code of the space key.
pub const VK_SPACE: u32 = 0x20;

/// Virtual key code of the left arrow key.
pub const VK_LEFT: u32 = 0x25;

/// Virtual key code of the right arrow key.
pub const VK_RIGHT: u32 = 0x27;

/// Virtual key code of the letter A.
pub const VK_A: u32 = 0x41;

/// Virtual key code of the letter Z.
pub const VK_Z: u32 = 0x5a;

/// Virtual key code of the F6 key.
pub const VK_F6: u32 = 0x75;

/// Virtual key code of the tilde key, preserved together with Alt.
pub const VK_OEM_3: u32 = 0xc0;

/// Modifier mask: the Alt key.
pub const TF_MOD_ALT: u32 = 0x0001;

/// Modifier mask: deliver on key-up.
pub const TF_MOD_ON_KEYUP: u32 = 0x0200;

/// Modifier mask: deliver whatever modifiers are held.
pub const TF_MOD_IGNORE_ALL_MODIFIER: u32 = 0x0400;

/// Identity of the on/off hot key that flips the open/closed toggle.
pub const GUID_PRESERVEDKEY_ONOFF: u128 = 0x6a0bde41_6adf_11d7_a6ea_00065b84435c;

/// Identity of the F6 hot key.
pub const GUID_PRESERVEDKEY_F6: u128 = 0x6a0bde42_6adf_11d7_a6ea_00065b84435c;

/// The key is a letter, A through Z.
pub open spec fn spec_letter_key(key: u32) -> bool {
    VK_A <= key <= VK_Z
}

/// The key is one the active composition consumes: an arrow, Return or
/// space.
pub open spec fn spec_editing_key(key: u32) -> bool {
    key == VK_LEFT || key == VK_RIGHT || key == VK_RETURN || key == VK_SPACE
}

/// The eating policy of the query callbacks: a key is eaten only if the
/// keyboard is not disabled, the open/closed toggle is open, and the key is
/// a letter.
pub open spec fn spec_key_eaten(disabled: bool, open: bool, key: u32) -> bool {
    &&& !disabled
    &&& open
    &&& spec_letter_key(key)
}

/// The commit policy: a key is consumed when the query policy eats it, or
/// when a composition is active and the key is one of the editing keys the
/// composition handles.
pub open spec fn spec_key_committed(disabled: bool, open: bool, composing: bool, key: u32) -> bool {
    spec_key_eaten(disabled, open, key) || (composing && spec_editing_key(key))
}

/// What the host exposed when the keyboard-disabled state was read from
/// the focused document's top context.
#[derive(Clone, Copy, PartialEq, Eq, Structural, Debug)]
pub struct KeyboardStateReads {
    /// Whether any document manager has focus.
    pub has_focus_doc: bool,
    /// Whether the focused document has a top context.
    pub has_top_context: bool,
    /// The keyboard-disabled compartment value, when it could be read.
    pub disabled_flag: Option<i32>,
    /// The empty-context compartment value, when it could be read.
    pub empty_context_flag: Option<i32>,
}

/// The keyboard-disabled decision: no focused document or no context means
/// disabled; otherwise the first compartment that could be read decides,
/// the disabled compartment taking precedence over the empty-context one;
/// with neither readable the keyboard counts as enabled.
pub open spec fn spec_keyboard_disabled(reads: KeyboardStateReads) -> bool {
    if !reads.has_focus_doc {
        true
    } else if !reads.has_top_context {
        true
    } else {
        match reads.disabled_flag {
            Some(v) => v != 0,
            None => match reads.empty_context_flag {
                Some(v) => v != 0,
                None => false,
            },
        }
    }
}

impl TextService {
    /// Decides whether the keyboard is disabled from what the host exposed.
    pub fn is_keyboard_disabled(&self, reads: &KeyboardStateReads) -> (r: bool)
        ensures
            r == spec_keyboard_disabled(*reads),
    {
        if !reads.has_focus_doc {
            // with no focused document manager the keyboard is disabled
            return true;
        }
        if !reads.has_top_context {
            // with no context object the keyboard is disabled
            return true;
        }
        match reads.disabled_flag {
            Some(v) => v != 0,
            None => match reads.empty_context_flag {
                Some(v) => v != 0,
                None => false,
            },
        }
    }

    /// Decides whether the keyboard is open from the open/close compartment
    /// value; an unreadable compartment counts as closed.
    pub fn is_keyboard_open(&self, open_flag: Option<i32>) -> (r: bool)
        ensures
            r == (match open_flag {
                Some(v) => v != 0,
                None => false,
            }),
    {
        match open_flag {
            Some(v) => v != 0,
            None => false,
        }
    }

    /// The value to write into the open/close compartment to set the
    /// toggle.
    pub fn set_keyboard_open(&self, open: bool) -> (v: i32)
        ensures
            v == (if open {
                1int
            } else {
                0int
            }),
    {
        if open {
            1
        } else {
            0
        }
    }

    /// The shared eating policy, evaluated fresh per call.
    pub fn is_key_eaten(&self, disabled: bool, open: bool, key: u32) -> (r: bool)
        ensures
            r == spec_key_eaten(disabled, open, key),
    {
        // with the keyboard disabled no key is eaten
        if disabled {
            return false;
        }
        if !open {
            return false;
        }
        // only the letters A through Z are of interest while open
        VK_A <= key && key <= VK_Z
    }

    /// Query callback: would this key be eaten on key-down?
    pub fn on_test_key_down(&self, disabled: bool, open: bool, key: u32) -> (eaten: bool)
        ensures
            eaten == spec_key_eaten(disabled, open, key),
    {
        self.is_key_eaten(disabled, open, key)
    }

    /// Query callback: would this key be eaten on key-up?
    pub fn on_test_key_up(&self, disabled: bool, open: bool, key: u32) -> (eaten: bool)
        ensures
            eaten == spec_key_eaten(disabled, open, key),
    {
        self.is_key_eaten(disabled, open, key)
    }

    /// Commit callback for key-down: reports whether the key is consumed,
    /// and for a consumed key requests the one synchronous read-write edit
    /// session that commits it.
    pub fn on_key_down(&self, disabled: bool, open: bool, key: u32) -> (r: (
        bool,
        Option<EditSessionRequest>,
    ))
        ensures
            r.0 == spec_key_committed(disabled, open, self.composition is Some, key),
            r.0 <==> r.1 is Some,
            r.1 matches Some(q) ==> q == spec_key_session_request(self.client_id, key),
    {
        let eaten = self.is_key_eaten(disabled, open, key) || (self.is_composing() && (key
            == VK_LEFT || key == VK_RIGHT || key == VK_RETURN || key == VK_SPACE));
        if eaten {
            (true, Some(self.invoke_key_handler(key)))
        } else {
            (false, None)
        }
    }

    /// Commit callback for key-up: same policy as key-down, but a key-up
    /// commits no work.
    pub fn on_key_up(&self, disabled: bool, open: bool, key: u32) -> (eaten: bool)
        ensures
            eaten == spec_key_eaten(disabled, open, key),
    {
        self.is_key_eaten(disabled, open, key)
    }

    /// Preserved-key callback, delivered regardless of the eating policy:
    /// the on/off hot key flips the open/closed toggle.  Returns whether
    /// the hot key was consumed and, when it was, the value to write into
    /// the open/close compartment.
    pub fn on_preserved_key(&self, guid: u128, open: bool) -> (r: (bool, Option<i32>))
        ensures
            r.0 == (guid == GUID_PRESERVEDKEY_ONOFF),
            r.1 == (if guid == GUID_PRESERVEDKEY_ONOFF {
                Some(
                    if open {
                        0i32
                    } else {
                        1i32
                    },
                )
            } else {
                None::<i32>
            }),
    {
        if guid == GUID_PRESERVEDKEY_ONOFF {
            let v = self.set_keyboard_open(!open);
            (true, Some(v))
        } else {
            (false, None)
        }
    }
}

/// While a composition is active, the Return key is always committed,
/// whatever the enablement flag and the open/closed toggle say; the
/// composition consumes it (and terminates, inserting no text).
pub proof fn lemma_enter_always_committed_while_composing(disabled: bool, open: bool)
    ensures
        spec_key_committed(disabled, open, true, VK_RETURN),
{
}

/// A declarative hot-key registration.
#[derive(Clone, Copy, Debug)]
pub struct PreservedKeyBinding {
    /// Identity the hot key is delivered under.
    pub guid: u128,
    /// The virtual key.
    pub vkey: u32,
    /// The modifier mask.
    pub modifiers: u32,
    /// Human-readable description of the hot key.
    pub description: &'static str,
}

/// The hot keys registered at activation and unregistered at deactivation:
/// Alt+tilde and the Kanji key both toggle on/off, and F6 is delivered on
/// key-up.
pub fn preserved_key_bindings() -> (r: Vec<PreservedKeyBinding>)
    ensures
        r@.len() == 3,
        r@[0].guid == GUID_PRESERVEDKEY_ONOFF && r@[0].vkey == VK_OEM_3 && r@[0].modifiers
            == TF_MOD_ALT,
        r@[1].guid == GUID_PRESERVEDKEY_ONOFF && r@[1].vkey == VK_KANJI && r@[1].modifiers
            == TF_MOD_IGNORE_ALL_MODIFIER,
        r@[2].guid == GUID_PRESERVEDKEY_F6 && r@[2].vkey == VK_F6 && r@[2].modifiers
            == TF_MOD_ON_KEYUP,
{
    let mut keys: Vec<PreservedKeyBinding> = Vec::new();
    keys.push(
        PreservedKeyBinding {
            guid: GUID_PRESERVEDKEY_ONOFF,
            vkey: VK_OEM_3,
            modifiers: TF_MOD_ALT,
            description: "OnOff",
        },
    );
    keys.push(
        PreservedKeyBinding {
            guid: GUID_PRESERVEDKEY_ONOFF,
            vkey: VK_KANJI,
            modifiers: TF_MOD_IGNORE_ALL_MODIFIER,
            description: "OnOff",
        },
    );
    keys.push(
        PreservedKeyBinding {
            guid: GUID_PRESERVEDKEY_F6,
            vkey: VK_F6,
            modifiers: TF_MOD_ON_KEYUP,
            description: "Function 6",
        },
    );
    keys
}

} // verus!
