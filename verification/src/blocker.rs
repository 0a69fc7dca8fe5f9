//! Deciding whether a native wheel message belongs to the keyboard: the
//! hook matches messages by millisecond timestamps from a 32-bit counter
//! that wraps, so distances are computed wrap-aware.

use vstd::prelude::*;

verus! {

/// Timestamps within a day of the counter wrapping are treated as wrapped.
pub const DAY_MS: u32 = 86_400_000;

/// How long a block decision stays valid, in milliseconds.
pub const MESSAGE_TIMEOUT_MS: i32 = 10;

/// The signed distance from `message_time` to `data_time` on the wrapping
/// 32-bit millisecond counter: positive when the message came first.
pub open spec fn spec_tick_distance(message_time: u32, data_time: u32) -> int {
    if data_time < DAY_MS && message_time >= u32::MAX - DAY_MS {
        u32::MAX - message_time + data_time
    } else if message_time < DAY_MS && data_time >= u32::MAX - DAY_MS {
        -(u32::MAX - data_time + message_time)
    } else {
        data_time - message_time
    }
}

/// Wrap-aware distance between two tick-counter readings.  The readings
/// must be close enough for the distance to fit a signed 32-bit value,
/// which the hook's ten-millisecond matching window guarantees.
pub fn tick_distance(message_time: u32, data_time: u32) -> (r: i32)
    requires
        -0x8000_0000 < spec_tick_distance(message_time, data_time) < 0x8000_0000,
    ensures
        r == spec_tick_distance(message_time, data_time),
{
    let m = message_time as i64;
    let d = data_time as i64;
    let max = u32::MAX as i64;
    let dist: i64 = if data_time < DAY_MS && message_time >= u32::MAX - DAY_MS {
        // The counter wrapped between the message and the event.
        max - m + d
    } else if message_time < DAY_MS && data_time >= u32::MAX - DAY_MS {
        // The counter wrapped between the event and the message.
        -(max - d + m)
    } else {
        d - m
    };
    dist as i32
}

/// Whether a block message applies to an event: it must not be stale.
pub fn message_applies(message_time: u32, data_time: u32) -> (r: bool)
    requires
        -0x8000_0000 < spec_tick_distance(message_time, data_time) < 0x8000_0000,
    ensures
        r == (spec_tick_distance(message_time, data_time) < MESSAGE_TIMEOUT_MS),
{
    tick_distance(message_time, data_time) < MESSAGE_TIMEOUT_MS
}

/// The ASCII code of a hexadecimal digit, lower case.
pub open spec fn spec_hex_digit_lower(n: int) -> u8 {
    if n < 10 {
        (0x30 + n) as u8
    } else {
        (0x57 + n) as u8
    }
}

/// The ASCII code of a hexadecimal digit, upper case.
pub open spec fn spec_hex_digit_upper(n: int) -> u8 {
    if n < 10 {
        (0x30 + n) as u8
    } else {
        (0x37 + n) as u8
    }
}

/// Four lower-case hexadecimal digits of a 16-bit value, most significant
/// first.
pub open spec fn spec_hex4_lower(v: int) -> Seq<u8> {
    seq![
        spec_hex_digit_lower(v / 4096 % 16),
        spec_hex_digit_lower(v / 256 % 16),
        spec_hex_digit_lower(v / 16 % 16),
        spec_hex_digit_lower(v % 16),
    ]
}

/// Four upper-case hexadecimal digits of a 16-bit value, most significant
/// first.
pub open spec fn spec_hex4_upper(v: int) -> Seq<u8> {
    seq![
        spec_hex_digit_upper(v / 4096 % 16),
        spec_hex_digit_upper(v / 256 % 16),
        spec_hex_digit_upper(v / 16 % 16),
        spec_hex_digit_upper(v % 16),
    ]
}

fn hex_digit_lower(n: u16) -> (r: u8)
    requires
        n < 16,
    ensures
        r == spec_hex_digit_lower(n as int),
{
    if n < 10 {
        0x30 + (n as u8)
    } else {
        0x57 + (n as u8)
    }
}

fn hex_digit_upper(n: u16) -> (r: u8)
    requires
        n < 16,
    ensures
        r == spec_hex_digit_upper(n as int),
{
    if n < 10 {
        0x30 + (n as u8)
    } else {
        0x37 + (n as u8)
    }
}

/// A 16-bit value as four lower-case hexadecimal ASCII digits.
pub fn hex4_lower(v: u16) -> (r: Vec<u8>)
    ensures
        r@ =~= spec_hex4_lower(v as int),
{
    let mut out: Vec<u8> = Vec::new();
    out.push(hex_digit_lower(v / 4096 % 16));
    out.push(hex_digit_lower(v / 256 % 16));
    out.push(hex_digit_lower(v / 16 % 16));
    out.push(hex_digit_lower(v % 16));
    out
}

/// A 16-bit value as four upper-case hexadecimal ASCII digits.
pub fn hex4_upper(v: u16) -> (r: Vec<u8>)
    ensures
        r@ =~= spec_hex4_upper(v as int),
{
    let mut out: Vec<u8> = Vec::new();
    out.push(hex_digit_upper(v / 4096 % 16));
    out.push(hex_digit_upper(v / 256 % 16));
    out.push(hex_digit_upper(v / 16 % 16));
    out.push(hex_digit_upper(v % 16));
    out
}

/// The substring that identifies the blocked device in a raw-input device
/// path, as the wheel blocker matches it.
pub fn wheel_blocker_identifier(vendor_id: u16, product_id: u16) -> (r: Vec<u8>)
    ensures
        r@ =~= "VID&02"@.map_values(|c: char| c as u8) + spec_hex4_lower(vendor_id as int)
            + "_PID&"@.map_values(|c: char| c as u8) + spec_hex4_lower(product_id as int),
{
    proof {
        reveal_strlit("VID&02");
        reveal_strlit("_PID&");
    }
    let mut out: Vec<u8> = Vec::new();
    out.push(0x56);  // V
    out.push(0x49);  // I
    out.push(0x44);  // D
    out.push(0x26);  // &
    out.push(0x30);  // 0
    out.push(0x32);  // 2
    let mut vid = hex4_lower(vendor_id);
    out.append(&mut vid);
    out.push(0x5F);  // _
    out.push(0x50);  // P
    out.push(0x49);  // I
    out.push(0x44);  // D
    out.push(0x26);  // &
    let mut pid = hex4_lower(product_id);
    out.append(&mut pid);
    out
}

/// The substring that identifies the Bluetooth mouse interface in a
/// raw-input device path.
pub fn mouse_identifier(vendor_id: u16, product_id: u16) -> (r: Vec<u8>)
    ensures
        r@ =~= "VID_"@.map_values(|c: char| c as u8) + spec_hex4_upper(vendor_id as int)
            + "&PID_"@.map_values(|c: char| c as u8) + spec_hex4_upper(product_id as int),
{
    proof {
        reveal_strlit("VID_");
        reveal_strlit("&PID_");
    }
    let mut out: Vec<u8> = Vec::new();
    out.push(0x56);  // V
    out.push(0x49);  // I
    out.push(0x44);  // D
    out.push(0x5F);  // _
    let mut vid = hex4_upper(vendor_id);
    out.append(&mut vid);
    out.push(0x26);  // &
    out.push(0x50);  // P
    out.push(0x49);  // I
    out.push(0x44);  // D
    out.push(0x5F);  // _
    let mut pid = hex4_upper(product_id);
    out.append(&mut pid);
    out
}

} // verus!
