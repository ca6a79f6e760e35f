//! The record codec: the typed view of a fixed-size input-event record and
//! the conversions between the wire fields and the in-memory key event.

use vstd::prelude::*;

verus! {

/// The plain-value image of one fixed-size input-event record: a timestamp
/// (opaque to the policy, echoed on passthrough and zeroed on synthesis), a
/// type tag, a key code and a value.
#[derive(Clone, Copy, PartialEq, Eq, Structural, Debug)]
pub struct EventRecord {
    pub tv_sec: i64,
    pub tv_usec: i64,
    pub type_: u16,
    pub code: u16,
    pub value: i32,
}

/// What a key did: released, pressed, or held long enough to auto-repeat.
/// On the wire these are the integers 0, 1 and 2; any other value is a
/// protocol violation.
#[derive(Clone, Copy, PartialEq, Eq, Structural, Debug)]
pub enum KeyValue {
    Press,
    Repeat,
    Release,
}

/// A decoded key event: which key, what it did, and whether the record is
/// still due to be forwarded to the output stream (`bubble`).
#[derive(Clone, Copy, PartialEq, Eq, Structural, Debug)]
pub struct KeyEvent {
    pub code: u16,
    pub value: KeyValue,
    pub bubble: bool,
}

/// Why a record could not be decoded into a key event.
#[derive(Clone, Copy, PartialEq, Eq, Structural, Debug)]
pub enum DecodeError {
    /// The record's type tag is not the key-event tag.
    NotAKeyEvent,
    /// The record's value field is outside {0, 1, 2}.
    InvalidKeyValue,
}

/// The wire integer of a key value.
pub open spec fn spec_key_value_int(v: KeyValue) -> i32 {
    match v {
        KeyValue::Release => 0,
        KeyValue::Press => 1,
        KeyValue::Repeat => 2,
    }
}

/// The key value of a wire integer, where one exists.
pub open spec fn spec_key_value_of_int(value: i32) -> Option<KeyValue> {
    if value == 0 {
        Some(KeyValue::Release)
    } else if value == 1 {
        Some(KeyValue::Press)
    } else if value == 2 {
        Some(KeyValue::Repeat)
    } else {
        None
    }
}

/// The record that encoding a key event produces: the key-event type tag,
/// the given code and value, and a zeroed timestamp.
pub open spec fn spec_encode(code: u16, v: KeyValue) -> EventRecord {
    EventRecord {
        tv_sec: 0,
        tv_usec: 0,
        type_: crate::EV_KEY_TYPE,
        code: code,
        value: spec_key_value_int(v),
    }
}

impl KeyEvent {
    /// Builds a key event from a record already known to carry the key-event
    /// type tag and a valid value; the event starts out due to be forwarded.
    pub fn new(record: &EventRecord) -> (r: KeyEvent)
        requires
            record.type_ == crate::EV_KEY_TYPE,
            0 <= record.value <= 2,
        ensures
            r.code == record.code,
            Some(r.value) == spec_key_value_of_int(record.value),
            r.bubble,
    {
        KeyEvent { code: record.code, value: KeyValue::from(record.value), bubble: true }
    }

    /// Decodes a record into a key event, rejecting records whose type tag is
    /// not the key-event tag or whose value is outside {0, 1, 2}.
    pub fn decode(record: &EventRecord) -> (r: Result<KeyEvent, DecodeError>)
        ensures
            record.type_ != crate::EV_KEY_TYPE ==> r == Err::<KeyEvent, DecodeError>(
                DecodeError::NotAKeyEvent,
            ),
            record.type_ == crate::EV_KEY_TYPE && !(0 <= record.value <= 2) ==> r
                == Err::<KeyEvent, DecodeError>(DecodeError::InvalidKeyValue),
            record.type_ == crate::EV_KEY_TYPE && 0 <= record.value <= 2 ==> (r matches Ok(evt)
                && evt.code == record.code
                && Some(evt.value) == spec_key_value_of_int(record.value)
                && evt.bubble),
    {
        if record.type_ != crate::EV_KEY_TYPE {
            return Err(DecodeError::NotAKeyEvent);
        }
        match KeyValue::try_from_i32(record.value) {
            Some(value) => Ok(KeyEvent { code: record.code, value, bubble: true }),
            None => Err(DecodeError::InvalidKeyValue),
        }
    }

    /// Encodes a key value under a given code (which may differ from the code
    /// of the event it mirrors, enabling substitution) as a fresh record with
    /// a zeroed timestamp.
    pub fn encode(code: u16, value: KeyValue) -> (r: EventRecord)
        ensures
            r == spec_encode(code, value),
    {
        EventRecord {
            tv_sec: 0,
            tv_usec: 0,
            type_: crate::EV_KEY_TYPE,
            code: code,
            value: value.as_i32(),
        }
    }
}

/// Decoding a key-event record and re-encoding the decoded value under the
/// same code reproduces the record's type tag, code and value exactly; only
/// the timestamp is not required to survive the round trip.
pub proof fn lemma_decode_encode_round_trip(record: EventRecord)
    requires
        record.type_ == crate::EV_KEY_TYPE,
        0 <= record.value <= 2,
    ensures
        ({
            let v = spec_key_value_of_int(record.value)->Some_0;
            let out = spec_encode(record.code, v);
            out.type_ == record.type_ && out.code == record.code && out.value == record.value
        }),
{
}

/// Every wire integer outside {0, 1, 2} decodes to no key value, and each
/// value inside that set decodes to the key value whose encoding it is.
pub proof fn lemma_key_value_int_bijection(value: i32)
    ensures
        !(0 <= value <= 2) ==> spec_key_value_of_int(value) is None,
        0 <= value <= 2 ==> (spec_key_value_of_int(value) matches Some(v) && spec_key_value_int(v)
            == value),
{
}

impl KeyValue {
    /// Decodes a wire integer known to be a valid key value.
    pub fn from(value: i32) -> (r: KeyValue)
        requires
            0 <= value <= 2,
        ensures
            Some(r) == spec_key_value_of_int(value),
    {
        match value {
            0 => KeyValue::Release,
            1 => KeyValue::Press,
            _ => KeyValue::Repeat,
        }
    }

    /// Decodes a wire integer, rejecting everything outside {0, 1, 2}.
    pub fn try_from_i32(value: i32) -> (r: Option<KeyValue>)
        ensures
            r == spec_key_value_of_int(value),
            r is Some <==> 0 <= value <= 2,
    {
        match value {
            0 => Some(KeyValue::Release),
            1 => Some(KeyValue::Press),
            2 => Some(KeyValue::Repeat),
            _ => None,
        }
    }

    /// Encodes this key value as its wire integer.
    pub fn as_i32(&self) -> (r: i32)
        ensures
            r == spec_key_value_int(*self),
            spec_key_value_of_int(r) == Some(*self),
    {
        match self {
            KeyValue::Release => 0,
            KeyValue::Press => 1,
            KeyValue::Repeat => 2,
        }
    }
}

} // verus!
