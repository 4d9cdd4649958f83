//! Fixed-size records exchanged with the upper and lower stack.
//!
//! These are the wire-level payload shapes the filter reads and writes: the
//! registration record handed in by the upper consumer, the hardware
//! attribute record obtained from the lower driver, and the input-event
//! record streamed by the hardware.  Opaque pointer-sized values (device
//! objects, callback entry points) are carried as word-sized handles where
//! zero stands for the null value.

use vstd::prelude::*;

verus! {

/// Typematic (key-repeat) timing sub-record: unit, rate and delay.
#[derive(Copy, Clone, Debug, PartialEq, Eq, Structural)]
pub struct KeyboardTypematicParameters {
    pub unit_id: u16,
    pub rate: u16,
    pub delay: u16,
}

/// Identifier of the keyboard hardware: type and subtype.
#[derive(Copy, Clone, Debug, PartialEq, Eq, Structural)]
pub struct KeyboardId {
    pub keyboard_type: u8,
    pub subtype: u8,
}

/// One fixed-size input-event record streamed by the lower driver.
#[derive(Copy, Clone, Debug, PartialEq, Eq, Structural)]
pub struct KeyboardInputData {
    pub unit_id: u16,
    pub make_code: u16,
    pub flags: u16,
    pub reserved: u16,
    pub extra_information: u32,
}

/// The hardware attribute record: identifier, mode, counts and the two
/// typematic timing sub-records.
#[derive(Copy, Clone, Debug, PartialEq, Eq, Structural)]
pub struct KeyboardAttributes {
    pub keyboard_identifier: KeyboardId,
    pub keyboard_mode: u16,
    pub number_of_function_keys: u16,
    pub number_of_indicators: u16,
    pub number_of_keys_total: u16,
    pub input_data_queue_length: u32,
    pub key_repeat_minimum: KeyboardTypematicParameters,
    pub key_repeat_maximum: KeyboardTypematicParameters,
}

/// The attribute record with every field zero: the state of the attribute
/// cache before the first successful query forward.
pub open spec fn zeroed_attributes() -> KeyboardAttributes {
    KeyboardAttributes {
        keyboard_identifier: KeyboardId { keyboard_type: 0, subtype: 0 },
        keyboard_mode: 0,
        number_of_function_keys: 0,
        number_of_indicators: 0,
        number_of_keys_total: 0,
        input_data_queue_length: 0,
        key_repeat_minimum: KeyboardTypematicParameters { unit_id: 0, rate: 0, delay: 0 },
        key_repeat_maximum: KeyboardTypematicParameters { unit_id: 0, rate: 0, delay: 0 },
    }
}

impl KeyboardAttributes {
    /// Builds the all-zero attribute record.
    pub fn zeroed() -> (a: Self)
        ensures
            a == zeroed_attributes(),
    {
        KeyboardAttributes {
            keyboard_identifier: KeyboardId { keyboard_type: 0, subtype: 0 },
            keyboard_mode: 0,
            number_of_function_keys: 0,
            number_of_indicators: 0,
            number_of_keys_total: 0,
            input_data_queue_length: 0,
            key_repeat_minimum: KeyboardTypematicParameters { unit_id: 0, rate: 0, delay: 0 },
            key_repeat_maximum: KeyboardTypematicParameters { unit_id: 0, rate: 0, delay: 0 },
        }
    }
}

/// The registration record crossing the stack boundary: the consumer's
/// identity (its device object) and its event-delivery callback, both as
/// word-sized handles, zero for null.
#[derive(Copy, Clone, Debug, PartialEq, Eq, Structural)]
pub struct ConnectData {
    pub class_device_object: u64,
    pub class_service: u64,
}

impl Default for ConnectData {
    /// The empty registration: both handles null.
    fn default() -> (d: Self)
        ensures
            d == (ConnectData { class_device_object: 0, class_service: 0 }),
    {
        ConnectData { class_device_object: 0, class_service: 0 }
    }
}

/// Size in bytes of the attribute record as laid out on the wire.
pub const KEYBOARD_ATTRIBUTES_SIZE: usize = 28;

/// Size in bytes of one input-event record.
pub const KEYBOARD_INPUT_DATA_SIZE: usize = 12;

/// A 16-bit value as two little-endian bytes.
pub open spec fn le16(x: u16) -> Seq<u8> {
    seq![(x % 256) as u8, (x / 256) as u8]
}

/// A 32-bit value as four little-endian bytes.
pub open spec fn le32(x: u32) -> Seq<u8> {
    seq![
        (x % 256) as u8,
        ((x / 256) % 256) as u8,
        ((x / 0x10000) % 256) as u8,
        (x / 0x1000000) as u8,
    ]
}

/// Byte layout of a typematic timing sub-record.
pub open spec fn typematic_bytes(t: KeyboardTypematicParameters) -> Seq<u8> {
    le16(t.unit_id) + le16(t.rate) + le16(t.delay)
}

/// Byte layout of the attribute record: identifier, mode and counts, two
/// bytes of zero padding before the 32-bit queue length, then the two
/// typematic sub-records.  Twenty-eight bytes in all.
pub open spec fn attribute_bytes(a: KeyboardAttributes) -> Seq<u8> {
    seq![a.keyboard_identifier.keyboard_type, a.keyboard_identifier.subtype]
        + le16(a.keyboard_mode)
        + le16(a.number_of_function_keys)
        + le16(a.number_of_indicators)
        + le16(a.number_of_keys_total)
        + seq![0u8, 0u8]
        + le32(a.input_data_queue_length)
        + typematic_bytes(a.key_repeat_minimum)
        + typematic_bytes(a.key_repeat_maximum)
}

/// Appends a 16-bit value to a byte buffer in little-endian order.
fn push_le16(v: &mut Vec<u8>, x: u16)
    requires
        old(v)@.len() + 2 <= usize::MAX,
    ensures
        final(v)@ == old(v)@ + le16(x),
{
    v.push((x % 256) as u8);
    v.push((x / 256) as u8);
    assert(final(v)@ =~= old(v)@ + le16(x));
}

/// Appends a 32-bit value to a byte buffer in little-endian order.
fn push_le32(v: &mut Vec<u8>, x: u32)
    requires
        old(v)@.len() + 4 <= usize::MAX,
    ensures
        final(v)@ == old(v)@ + le32(x),
{
    v.push((x % 256) as u8);
    v.push(((x / 256) % 256) as u8);
    v.push(((x / 0x10000) % 256) as u8);
    v.push((x / 0x1000000) as u8);
    assert(final(v)@ =~= old(v)@ + le32(x));
}

/// Serialises the attribute record to its wire layout.  The caller's output
/// region receives exactly these bytes: either the full record is written,
/// or none of it.
pub fn encode_attributes(a: &KeyboardAttributes) -> (v: Vec<u8>)
    ensures
        v@ == attribute_bytes(*a),
        v@.len() == KEYBOARD_ATTRIBUTES_SIZE,
{
    let mut v: Vec<u8> = Vec::new();
    v.push(a.keyboard_identifier.keyboard_type);
    v.push(a.keyboard_identifier.subtype);
    push_le16(&mut v, a.keyboard_mode);
    push_le16(&mut v, a.number_of_function_keys);
    push_le16(&mut v, a.number_of_indicators);
    push_le16(&mut v, a.number_of_keys_total);
    v.push(0);
    v.push(0);
    push_le32(&mut v, a.input_data_queue_length);
    push_le16(&mut v, a.key_repeat_minimum.unit_id);
    push_le16(&mut v, a.key_repeat_minimum.rate);
    push_le16(&mut v, a.key_repeat_minimum.delay);
    push_le16(&mut v, a.key_repeat_maximum.unit_id);
    push_le16(&mut v, a.key_repeat_maximum.rate);
    push_le16(&mut v, a.key_repeat_maximum.delay);
    assert(v@ =~= attribute_bytes(*a));
    v
}

} // verus!
