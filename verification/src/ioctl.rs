//! Control-operation codes recognised by the filter.
//!
//! Each code is a 32-bit word built from a device type, a function number,
//! a transfer method and an access mask.  The filter interprets only the
//! keyboard connect, disconnect and query-attributes codes, plus one code of
//! its own on the child device; everything else passes through.

use vstd::prelude::*;

verus! {

pub const FILE_DEVICE_KEYBOARD: u32 = 0x0000_000B;
pub const FILE_DEVICE_UNKNOWN: u32 = 0x0000_0022;
pub const METHOD_BUFFERED: u32 = 0;
pub const METHOD_NEITHER: u32 = 3;
pub const FILE_ANY_ACCESS: u32 = 0;
pub const FILE_READ_DATA: u32 = 1;

/// How a control code is assembled from its four parts.
pub open spec fn ctl_code_spec(device_type: u32, function: u32, method: u32, access: u32) -> u32 {
    (device_type << 16) | (access << 14) | (function << 2) | method
}

/// Builds a control code from device type, function number, transfer method
/// and access mask.
pub fn ctl_code(device_type: u32, function: u32, method: u32, access: u32) -> (code: u32)
    ensures
        code == ctl_code_spec(device_type, function, method, access),
{
    (device_type << 16) | (access << 14) | (function << 2) | method
}

pub const SET_PRECEDENCE_CODE: u32 = 0x0022_2004;
pub const GET_PRECEDENCE_CODE: u32 = 0x0022_2008;
pub const SET_FILTER_CODE: u32 = 0x0022_2010;
pub const GET_FILTER_CODE: u32 = 0x0022_2020;
pub const SET_EVENT_CODE: u32 = 0x0022_2040;
pub const WRITE_CODE: u32 = 0x0022_2080;
pub const READ_CODE: u32 = 0x0022_2100;
pub const GET_HARDWARE_ID_CODE: u32 = 0x0022_2200;
pub const KEYBOARD_CONNECT_CODE: u32 = 0x000B_0203;
pub const KEYBOARD_DISCONNECT_CODE: u32 = 0x000B_0403;
pub const KEYBOARD_QUERY_ATTRIBUTES_CODE: u32 = 0x000B_0000;
pub const PDO_KEYBOARD_ATTRIBUTES_CODE: u32 = 0x000B_6000;

/// Each named code equals the word assembled from its four parts.
pub proof fn lemma_codes_match_formula()
    ensures
        SET_PRECEDENCE_CODE == ctl_code_spec(FILE_DEVICE_UNKNOWN, 0x801, METHOD_BUFFERED, FILE_ANY_ACCESS),
        GET_PRECEDENCE_CODE == ctl_code_spec(FILE_DEVICE_UNKNOWN, 0x802, METHOD_BUFFERED, FILE_ANY_ACCESS),
        SET_FILTER_CODE == ctl_code_spec(FILE_DEVICE_UNKNOWN, 0x804, METHOD_BUFFERED, FILE_ANY_ACCESS),
        GET_FILTER_CODE == ctl_code_spec(FILE_DEVICE_UNKNOWN, 0x808, METHOD_BUFFERED, FILE_ANY_ACCESS),
        SET_EVENT_CODE == ctl_code_spec(FILE_DEVICE_UNKNOWN, 0x810, METHOD_BUFFERED, FILE_ANY_ACCESS),
        WRITE_CODE == ctl_code_spec(FILE_DEVICE_UNKNOWN, 0x820, METHOD_BUFFERED, FILE_ANY_ACCESS),
        READ_CODE == ctl_code_spec(FILE_DEVICE_UNKNOWN, 0x840, METHOD_BUFFERED, FILE_ANY_ACCESS),
        GET_HARDWARE_ID_CODE == ctl_code_spec(FILE_DEVICE_UNKNOWN, 0x880, METHOD_BUFFERED, FILE_ANY_ACCESS),
        KEYBOARD_CONNECT_CODE == ctl_code_spec(FILE_DEVICE_KEYBOARD, 0x80, METHOD_NEITHER, FILE_ANY_ACCESS),
        KEYBOARD_DISCONNECT_CODE == ctl_code_spec(FILE_DEVICE_KEYBOARD, 0x100, METHOD_NEITHER, FILE_ANY_ACCESS),
        PDO_KEYBOARD_ATTRIBUTES_CODE == ctl_code_spec(FILE_DEVICE_KEYBOARD, 0x800, METHOD_BUFFERED, FILE_READ_DATA),
{
    assert(0x0022_2004u32 == ((0x22u32 << 16) | (0u32 << 14) | (0x801u32 << 2) | 0u32)) by (bit_vector);
    assert(0x0022_2008u32 == ((0x22u32 << 16) | (0u32 << 14) | (0x802u32 << 2) | 0u32)) by (bit_vector);
    assert(0x0022_2010u32 == ((0x22u32 << 16) | (0u32 << 14) | (0x804u32 << 2) | 0u32)) by (bit_vector);
    assert(0x0022_2020u32 == ((0x22u32 << 16) | (0u32 << 14) | (0x808u32 << 2) | 0u32)) by (bit_vector);
    assert(0x0022_2040u32 == ((0x22u32 << 16) | (0u32 << 14) | (0x810u32 << 2) | 0u32)) by (bit_vector);
    assert(0x0022_2080u32 == ((0x22u32 << 16) | (0u32 << 14) | (0x820u32 << 2) | 0u32)) by (bit_vector);
    assert(0x0022_2100u32 == ((0x22u32 << 16) | (0u32 << 14) | (0x840u32 << 2) | 0u32)) by (bit_vector);
    assert(0x0022_2200u32 == ((0x22u32 << 16) | (0u32 << 14) | (0x880u32 << 2) | 0u32)) by (bit_vector);
    assert(0x000B_0203u32 == ((0xBu32 << 16) | (0u32 << 14) | (0x80u32 << 2) | 3u32)) by (bit_vector);
    assert(0x000B_0403u32 == ((0xBu32 << 16) | (0u32 << 14) | (0x100u32 << 2) | 3u32)) by (bit_vector);
    assert(0x000B_6000u32 == ((0xBu32 << 16) | (1u32 << 14) | (0x800u32 << 2) | 0u32)) by (bit_vector);
}

/// The control operations this filter knows by name.
#[derive(Debug, Copy, Clone, PartialEq, Eq, Structural)]
pub enum KeyboardIoctl {
    SetPrecedence,
    GetPrecedence,
    SetFiler,
    GetFilter,
    SetEvent,
    Write,
    Read,
    GetHardwareId,
    KeyboardConnect,
    KeyboardDisconnect,
    KeyboardQueryAttributes,
    PdoKeyboardAttributes,
}

/// The code word of each named operation.
pub open spec fn ioctl_code_spec(k: KeyboardIoctl) -> u32 {
    match k {
        KeyboardIoctl::SetPrecedence => SET_PRECEDENCE_CODE,
        KeyboardIoctl::GetPrecedence => GET_PRECEDENCE_CODE,
        KeyboardIoctl::SetFiler => SET_FILTER_CODE,
        KeyboardIoctl::GetFilter => GET_FILTER_CODE,
        KeyboardIoctl::SetEvent => SET_EVENT_CODE,
        KeyboardIoctl::Write => WRITE_CODE,
        KeyboardIoctl::Read => READ_CODE,
        KeyboardIoctl::GetHardwareId => GET_HARDWARE_ID_CODE,
        KeyboardIoctl::KeyboardConnect => KEYBOARD_CONNECT_CODE,
        KeyboardIoctl::KeyboardDisconnect => KEYBOARD_DISCONNECT_CODE,
        KeyboardIoctl::KeyboardQueryAttributes => KEYBOARD_QUERY_ATTRIBUTES_CODE,
        KeyboardIoctl::PdoKeyboardAttributes => PDO_KEYBOARD_ATTRIBUTES_CODE,
    }
}

/// The named operation of a code word, if the filter knows it.
pub open spec fn ioctl_from_code_spec(code: u32) -> Option<KeyboardIoctl> {
    if code == SET_PRECEDENCE_CODE {
        Some(KeyboardIoctl::SetPrecedence)
    } else if code == GET_PRECEDENCE_CODE {
        Some(KeyboardIoctl::GetPrecedence)
    } else if code == SET_FILTER_CODE {
        Some(KeyboardIoctl::SetFiler)
    } else if code == GET_FILTER_CODE {
        Some(KeyboardIoctl::GetFilter)
    } else if code == SET_EVENT_CODE {
        Some(KeyboardIoctl::SetEvent)
    } else if code == WRITE_CODE {
        Some(KeyboardIoctl::Write)
    } else if code == READ_CODE {
        Some(KeyboardIoctl::Read)
    } else if code == GET_HARDWARE_ID_CODE {
        Some(KeyboardIoctl::GetHardwareId)
    } else if code == KEYBOARD_CONNECT_CODE {
        Some(KeyboardIoctl::KeyboardConnect)
    } else if code == KEYBOARD_DISCONNECT_CODE {
        Some(KeyboardIoctl::KeyboardDisconnect)
    } else if code == KEYBOARD_QUERY_ATTRIBUTES_CODE {
        Some(KeyboardIoctl::KeyboardQueryAttributes)
    } else if code == PDO_KEYBOARD_ATTRIBUTES_CODE {
        Some(KeyboardIoctl::PdoKeyboardAttributes)
    } else {
        None
    }
}

impl KeyboardIoctl {
    /// Returns the code word of this operation.
    pub fn code(&self) -> (code: u32)
        ensures
            code == ioctl_code_spec(*self),
    {
        match self {
            KeyboardIoctl::SetPrecedence => SET_PRECEDENCE_CODE,
            KeyboardIoctl::GetPrecedence => GET_PRECEDENCE_CODE,
            KeyboardIoctl::SetFiler => SET_FILTER_CODE,
            KeyboardIoctl::GetFilter => GET_FILTER_CODE,
            KeyboardIoctl::SetEvent => SET_EVENT_CODE,
            KeyboardIoctl::Write => WRITE_CODE,
            KeyboardIoctl::Read => READ_CODE,
            KeyboardIoctl::GetHardwareId => GET_HARDWARE_ID_CODE,
            KeyboardIoctl::KeyboardConnect => KEYBOARD_CONNECT_CODE,
            KeyboardIoctl::KeyboardDisconnect => KEYBOARD_DISCONNECT_CODE,
            KeyboardIoctl::KeyboardQueryAttributes => KEYBOARD_QUERY_ATTRIBUTES_CODE,
            KeyboardIoctl::PdoKeyboardAttributes => PDO_KEYBOARD_ATTRIBUTES_CODE,
        }
    }

    /// Recognises a code word, returning the named operation or `None` for a
    /// code the filter does not interpret.
    pub fn try_from_code(code: u32) -> (r: Option<KeyboardIoctl>)
        ensures
            r == ioctl_from_code_spec(code),
    {
        if code == SET_PRECEDENCE_CODE {
            Some(KeyboardIoctl::SetPrecedence)
        } else if code == GET_PRECEDENCE_CODE {
            Some(KeyboardIoctl::GetPrecedence)
        } else if code == SET_FILTER_CODE {
            Some(KeyboardIoctl::SetFiler)
        } else if code == GET_FILTER_CODE {
            Some(KeyboardIoctl::GetFilter)
        } else if code == SET_EVENT_CODE {
            Some(KeyboardIoctl::SetEvent)
        } else if code == WRITE_CODE {
            Some(KeyboardIoctl::Write)
        } else if code == READ_CODE {
            Some(KeyboardIoctl::Read)
        } else if code == GET_HARDWARE_ID_CODE {
            Some(KeyboardIoctl::GetHardwareId)
        } else if code == KEYBOARD_CONNECT_CODE {
            Some(KeyboardIoctl::KeyboardConnect)
        } else if code == KEYBOARD_DISCONNECT_CODE {
            Some(KeyboardIoctl::KeyboardDisconnect)
        } else if code == KEYBOARD_QUERY_ATTRIBUTES_CODE {
            Some(KeyboardIoctl::KeyboardQueryAttributes)
        } else if code == PDO_KEYBOARD_ATTRIBUTES_CODE {
            Some(KeyboardIoctl::PdoKeyboardAttributes)
        } else {
            None
        }
    }
}

/// Naming a code and reading it back are inverse to each other: every named
/// operation is recognised from its own code, and a recognised code is the
/// code of the operation it names.
pub proof fn lemma_ioctl_round_trip()
    ensures
        forall|k: KeyboardIoctl| ioctl_from_code_spec(ioctl_code_spec(k)) == Some(k),
        forall|code: u32, k: KeyboardIoctl|
            ioctl_from_code_spec(code) == Some(k) ==> ioctl_code_spec(k) == code,
{
}

} // verus!
