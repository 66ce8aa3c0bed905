//! Layout-aware scancode decoding: raw bytes in, logical key events out.
//!
//! The stateful translation — accumulating multi-byte scancode sequences,
//! tracking modifier state, and applying the US 104-key layout — is done by
//! the `pc_keyboard` crate; this module owns its decoder state and narrows
//! the result to the two things the kernel prints: a Unicode character or the
//! name of a non-printable key.

use vstd::prelude::*;

use pc_keyboard::DecodedKey;
use pc_keyboard::HandleControl;
use pc_keyboard::KeyEvent;
use pc_keyboard::PS2Keyboard;
use pc_keyboard::ScancodeSet1;
use pc_keyboard::layouts::Us104Key;

verus! {

#[verifier::external_type_specification]
#[verifier::external_body]
pub struct ExKeyEvent(KeyEvent);

/// Holds the outside decoder state; opaque here because its type cannot be
/// declared to the verifier (its generic parameters carry outside trait
/// bounds), so the whole cell is taken on trust instead.
#[verifier::external_body]
struct KeyboardCell {
    kb: PS2Keyboard<Us104Key, ScancodeSet1>,
}

/// A decoded key, ready for the output sink: either a printable character or
/// the name of a non-printable key.
#[derive(Debug)]
pub enum KeyOutput {
    Unicode(char),
    RawKey(String),
}

/// Relies on `PS2Keyboard::new`: builds the decoder for scancode set 1 and
/// the US 104-key layout, with control keys passed through unmapped.
#[verifier::external_body]
fn fresh_keyboard() -> KeyboardCell {
    KeyboardCell { kb: PS2Keyboard::new(ScancodeSet1::new(), Us104Key, HandleControl::Ignore) }
}

/// Relies on `PS2Keyboard::add_byte`: advances the multi-byte scancode state
/// machine by one raw byte.  A byte that completes a sequence yields its key
/// event; a mid-sequence byte, or one the set cannot decode, yields nothing.
#[verifier::external_body]
fn advance(cell: &mut KeyboardCell, code: u8) -> Option<KeyEvent> {
    match cell.kb.add_byte(code) {
        Ok(ev) => ev,
        Err(_) => None,
    }
}

/// Relies on `PS2Keyboard::process_keyevent`: applies modifier state and the
/// layout to a completed key event, yielding a printable character, a named
/// non-printable key, or nothing (for example a plain key release).
#[verifier::external_body]
fn decode(cell: &mut KeyboardCell, ev: KeyEvent) -> Option<KeyOutput> {
    match cell.kb.process_keyevent(ev) {
        Some(DecodedKey::Unicode(c)) => Some(KeyOutput::Unicode(c)),
        Some(DecodedKey::RawKey(k)) => Some(KeyOutput::RawKey(format!("{:?}", k))),
        None => None,
    }
}

/// Stateful translator from raw scancode bytes to logical key events.
pub struct KeyDecoder {
    kb: KeyboardCell,
}

impl KeyDecoder {
    pub fn new() -> KeyDecoder {
        KeyDecoder { kb: fresh_keyboard() }
    }

    /// Feed one raw byte from the scancode stream.  Bytes that only extend a
    /// multi-byte sequence, or key events the layout maps to nothing, produce
    /// no output; what comes back is ready for the sink.
    pub fn feed(&mut self, code: u8) -> Option<KeyOutput> {
        match advance(&mut self.kb, code) {
            Some(ev) => decode(&mut self.kb, ev),
            None => None,
        }
    }
}

} // verus!
