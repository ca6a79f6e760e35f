//! The remap engine: tracks Left-Ctrl and Caps-Lock, swallows the physical
//! Caps-Lock key, and while Caps-Lock is held substitutes arrow keys for
//! I/J/K/L.

use vstd::prelude::*;

use crate::codec::DecodeError;
use crate::codec::EventRecord;
use crate::codec::KeyEvent;
use crate::codec::KeyValue;
use crate::codec::spec_encode;
use crate::codec::spec_key_value_of_int;

verus! {

/// Whether a tracked modifier key is currently held down.
#[derive(Clone, Copy, PartialEq, Eq, Structural, Debug)]
pub enum KeyState {
    Pressed,
    Released,
}

/// The engine's whole mutable state: one flag per tracked modifier.
#[derive(Clone, Copy, PartialEq, Eq, Structural, Debug)]
pub struct ModifierState {
    pub l_ctrl: KeyState,
    pub capslock: KeyState,
}

/// The stateful policy evaluator. It owns the modifier state exclusively;
/// callers observe it only through the abstract view.
pub struct Engine {
    l_ctrl: KeyState,
    capslock: KeyState,
}

impl View for Engine {
    type V = ModifierState;

    closed spec fn view(&self) -> ModifierState {
        ModifierState { l_ctrl: self.l_ctrl, capslock: self.capslock }
    }
}

/// The state a modifier key is left in by an event with the given value:
/// a release releases it, a press or a repeat holds it down.
pub open spec fn spec_modifier_after(v: KeyValue) -> KeyState {
    if v is Release {
        KeyState::Released
    } else {
        KeyState::Pressed
    }
}

/// The modifier-update step: the state after one key event, and whether that
/// event is still due to be forwarded. Left-Ctrl is tracked but forwarded;
/// Caps-Lock is tracked and always swallowed; every other key passes through.
pub open spec fn spec_update(s: ModifierState, code: u16, v: KeyValue) -> (ModifierState, bool) {
    if code == crate::KEY_LEFTCTRL_CODE {
        (ModifierState { l_ctrl: spec_modifier_after(v), capslock: s.capslock }, true)
    } else if code == crate::KEY_CAPSLOCK_CODE {
        (ModifierState { l_ctrl: s.l_ctrl, capslock: spec_modifier_after(v) }, false)
    } else {
        (s, true)
    }
}

/// The fixed substitution table: the arrow-key code emitted in place of a
/// trigger code while Caps-Lock is held, if the code is a trigger at all.
pub open spec fn spec_subst_target(code: u16) -> Option<u16> {
    if code == crate::KEY_L_CODE {
        Some(crate::KEY_RIGHT_CODE)
    } else if code == crate::KEY_J_CODE {
        Some(crate::KEY_LEFT_CODE)
    } else if code == crate::KEY_I_CODE {
        Some(crate::KEY_UP_CODE)
    } else if code == crate::KEY_K_CODE {
        Some(crate::KEY_DOWN_CODE)
    } else {
        None
    }
}

/// One whole engine step: the modifier update followed by the substitution
/// check. Yields the new state, whether the incoming event is still due to be
/// forwarded, and the synthesized event to emit in its place, if any.
pub open spec fn spec_handle(s: ModifierState, code: u16, v: KeyValue) -> (
    ModifierState,
    bool,
    Option<KeyEvent>,
) {
    let (s2, bubble) = spec_update(s, code, v);
    if s2.capslock is Pressed && spec_subst_target(code) is Some {
        (s2, false, Some(KeyEvent { code: spec_subst_target(code)->Some_0, value: v, bubble: true }))
    } else {
        (s2, bubble, None)
    }
}

impl Engine {
    /// A fresh engine: both modifiers start out released.
    pub fn new() -> (e: Engine)
        ensures
            e@ == (ModifierState { l_ctrl: KeyState::Released, capslock: KeyState::Released }),
    {
        Engine { l_ctrl: KeyState::Released, capslock: KeyState::Released }
    }

    /// Whether the engine currently takes Left-Ctrl to be held down.
    pub fn l_ctrl_pressed(&self) -> (b: bool)
        ensures
            b == (self@.l_ctrl is Pressed),
    {
        matches!(self.l_ctrl, KeyState::Pressed)
    }

    /// Whether the engine currently takes Caps-Lock to be held down.
    pub fn capslock_pressed(&self) -> (b: bool)
        ensures
            b == (self@.capslock is Pressed),
    {
        matches!(self.capslock, KeyState::Pressed)
    }

    /// The modifier-update step: adjusts the tracked state when the event is
    /// Left-Ctrl or Caps-Lock, and sets the event's forward flag — true for
    /// everything except Caps-Lock, which is always swallowed.
    pub fn update_modifiers(&mut self, event: &mut KeyEvent)
        ensures
            ({
                let (s2, bubble) = spec_update(old(self)@, old(event).code, old(event).value);
                final(self)@ == s2 && final(event).code == old(event).code && final(event).value
                    == old(event).value && final(event).bubble == bubble
            }),
    {
        if event.code == crate::KEY_LEFTCTRL_CODE {
            match event.value {
                KeyValue::Release => self.l_ctrl = KeyState::Released,
                _ => self.l_ctrl = KeyState::Pressed,
            };
            event.bubble = true;
        } else if event.code == crate::KEY_CAPSLOCK_CODE {
            match event.value {
                KeyValue::Release => self.capslock = KeyState::Released,
                _ => self.capslock = KeyState::Pressed,
            };
            event.bubble = false;
        } else {
            event.bubble = true;
        }
    }

    /// One whole engine step on a decoded key event: updates the modifiers,
    /// then, while Caps-Lock is held, substitutes the matching arrow key for
    /// I/J/K/L. A synthesized event is handed back for the caller to emit
    /// first; the incoming event's forward flag says whether it should still
    /// follow.
    pub fn handle(&mut self, evt: &mut KeyEvent) -> (emitted: Option<KeyEvent>)
        ensures
            ({
                let (s2, bubble, synth) = spec_handle(old(self)@, old(evt).code, old(evt).value);
                final(self)@ == s2 && final(evt).code == old(evt).code && final(evt).value == old(
                    evt,
                ).value && final(evt).bubble == bubble && emitted == synth
            }),
    {
        self.update_modifiers(evt);

        if matches!(self.capslock, KeyState::Pressed) && evt.code == crate::KEY_L_CODE {
            let new_event = KeyEvent { code: crate::KEY_RIGHT_CODE, value: evt.value, bubble: true };
            evt.bubble = false;
            Some(new_event)
        } else if matches!(self.capslock, KeyState::Pressed) && evt.code == crate::KEY_J_CODE {
            let new_event = KeyEvent { code: crate::KEY_LEFT_CODE, value: evt.value, bubble: true };
            evt.bubble = false;
            Some(new_event)
        } else if matches!(self.capslock, KeyState::Pressed) && evt.code == crate::KEY_I_CODE {
            let new_event = KeyEvent { code: crate::KEY_UP_CODE, value: evt.value, bubble: true };
            evt.bubble = false;
            Some(new_event)
        } else if matches!(self.capslock, KeyState::Pressed) && evt.code == crate::KEY_K_CODE {
            let new_event = KeyEvent { code: crate::KEY_DOWN_CODE, value: evt.value, bubble: true };
            evt.bubble = false;
            Some(new_event)
        } else {
            None
        }
    }

    /// One whole loop iteration on one inbound record: a record that is not a
    /// key event bypasses the engine and is forwarded untouched; a key-event
    /// record is decoded (a value outside {0, 1, 2} is an unrecoverable
    /// error), handed to the engine, and the records due on the output stream
    /// come back in emission order — any synthesized event first, then the
    /// original record if it is still due to be forwarded.
    pub fn process_record(&mut self, record: &EventRecord) -> (r: Result<
        Vec<EventRecord>,
        DecodeError,
    >)
        ensures
            ({
                match spec_process(old(self)@, *record) {
                    Ok((s2, outs)) => r matches Ok(v) && final(self)@ == s2 && v@ == outs,
                    Err(e) => r == Err::<Vec<EventRecord>, DecodeError>(e) && final(self)@ == old(
                        self,
                    )@,
                }
            }),
    {
        let mut outputs: Vec<EventRecord> = Vec::new();
        if record.type_ != crate::EV_KEY_TYPE {
            outputs.push(*record);
            proof {
                assert(outputs@ =~= spec_process(old(self)@, *record)->Ok_0.1);
            }
            return Ok(outputs);
        }
        let mut evt = match KeyEvent::decode(record) {
            Ok(evt) => evt,
            Err(e) => {
                return Err(e);
            },
        };
        let emitted = self.handle(&mut evt);
        match emitted {
            Some(e) => outputs.push(KeyEvent::encode(e.code, e.value)),
            None => {},
        }
        if evt.bubble {
            outputs.push(*record);
        }
        proof {
            assert(outputs@ =~= spec_process(old(self)@, *record)->Ok_0.1);
        }
        Ok(outputs)
    }
}

/// The image of one whole loop iteration: the engine state after the record
/// and the records due on the output stream, or the decode error. A non-key
/// record leaves the state alone and is forwarded by itself, untouched.
pub open spec fn spec_process(s: ModifierState, rec: EventRecord) -> Result<
    (ModifierState, Seq<EventRecord>),
    DecodeError,
> {
    if rec.type_ != crate::EV_KEY_TYPE {
        Ok((s, seq![rec]))
    } else {
        match spec_key_value_of_int(rec.value) {
            Some(v) => {
                let (s2, bubble, synth) = spec_handle(s, rec.code, v);
                let synth_out = match synth {
                    Some(e) => seq![spec_encode(e.code, e.value)],
                    None => Seq::<EventRecord>::empty(),
                };
                let original_out = if bubble {
                    seq![rec]
                } else {
                    Seq::<EventRecord>::empty()
                };
                Ok((s2, synth_out + original_out))
            },
            None => Err(DecodeError::InvalidKeyValue),
        }
    }
}

/// For every code other than Left-Ctrl and Caps-Lock, while Caps-Lock is
/// released, the engine's decision is "forward unchanged": the state does not
/// move, the event is still due to be forwarded, and nothing is synthesized.
pub proof fn lemma_passthrough_when_caps_released(s: ModifierState, code: u16, v: KeyValue)
    requires
        s.capslock is Released,
        code != crate::KEY_LEFTCTRL_CODE,
        code != crate::KEY_CAPSLOCK_CODE,
    ensures
        spec_handle(s, code, v) == (s, true, None::<KeyEvent>),
{
}

/// Caps-Lock key events are never forwarded and never substituted, whatever
/// their value; they only move the Caps-Lock flag — a release releases it,
/// a press or a repeat holds it down — and leave Left-Ctrl alone.
pub proof fn lemma_capslock_swallowed(s: ModifierState, v: KeyValue)
    ensures
        ({
            let (s2, bubble, synth) = spec_handle(s, crate::KEY_CAPSLOCK_CODE, v);
            &&& !bubble
            &&& synth is None
            &&& s2.l_ctrl == s.l_ctrl
            &&& v is Release ==> s2.capslock is Released
            &&& (v is Press || v is Repeat) ==> s2.capslock is Pressed
        }),
{
}

/// Left-Ctrl key events are always forwarded and never substituted, whatever
/// their value; they only move the Left-Ctrl flag — a release releases it,
/// a press or a repeat holds it down — and leave Caps-Lock alone.
pub proof fn lemma_lctrl_forwarded(s: ModifierState, v: KeyValue)
    ensures
        ({
            let (s2, bubble, synth) = spec_handle(s, crate::KEY_LEFTCTRL_CODE, v);
            &&& bubble
            &&& synth is None
            &&& s2.capslock == s.capslock
            &&& v is Release ==> s2.l_ctrl is Released
            &&& (v is Press || v is Repeat) ==> s2.l_ctrl is Pressed
        }),
{
}

/// While Caps-Lock is held, a trigger code yields exactly one synthesized
/// event carrying the substituted code and the trigger's own value, the
/// original event is suppressed, and the state does not move.
pub proof fn lemma_substitution(s: ModifierState, code: u16, v: KeyValue)
    requires
        s.capslock is Pressed,
        spec_subst_target(code) is Some,
    ensures
        spec_handle(s, code, v) == (
            s,
            false,
            Some(KeyEvent { code: spec_subst_target(code)->Some_0, value: v, bubble: true }),
        ),
{
}

} // verus!
