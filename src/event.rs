//! Decoding of raw input-event records and the event codes the pipelines use.

use vstd::prelude::*;
use vstd::string::*;

verus! {

/// Record width when the remote word size is 32 bits (8-byte timestamp).
pub const INPUT_EVENT_SIZE_32: usize = 16;

/// Record width when the remote word size is 64 bits (16-byte timestamp).
pub const INPUT_EVENT_SIZE_64: usize = 24;

pub const EV_SYN: u16 = 0x00;

pub const EV_KEY: u16 = 0x01;

pub const EV_ABS: u16 = 0x03;

pub const SYN_REPORT: u16 = 0;

pub const ABS_X: u16 = 0x00;

pub const ABS_Y: u16 = 0x01;

pub const ABS_PRESSURE: u16 = 0x18;

pub const ABS_DISTANCE: u16 = 0x19;

pub const ABS_TILT_X: u16 = 0x1a;

pub const ABS_TILT_Y: u16 = 0x1b;

pub const ABS_MT_SLOT: u16 = 0x2f;

pub const ABS_MT_POSITION_X: u16 = 0x35;

pub const ABS_MT_POSITION_Y: u16 = 0x36;

pub const ABS_MT_TRACKING_ID: u16 = 0x39;

pub const BTN_LEFT: u16 = 0x110;

pub const BTN_TOOL_PEN: u16 = 0x140;

pub const BTN_TOOL_FINGER: u16 = 0x145;

pub const BTN_TOUCH: u16 = 0x14a;

pub const BTN_STYLUS: u16 = 0x14b;

pub const BTN_TOOL_DOUBLETAP: u16 = 0x14d;

pub const BTN_TOOL_TRIPLETAP: u16 = 0x14e;

pub const BTN_TOOL_QUADTAP: u16 = 0x14f;

/// One input event without its timestamp.
#[derive(Clone, Copy, Debug, PartialEq, Eq, Structural)]
pub struct RawEvent {
    pub event_type: u16,
    pub code: u16,
    pub value: i32,
}

/// A little-endian unsigned 16-bit integer.
pub open spec fn le_u16(b0: u8, b1: u8) -> int {
    b0 as int + 256 * (b1 as int)
}

/// A little-endian two's-complement 32-bit integer.
pub open spec fn le_i32(b0: u8, b1: u8, b2: u8, b3: u8) -> int {
    let u = b0 as int + 256 * (b1 as int) + 65536 * (b2 as int) + 16777216 * (b3 as int);
    if u < 0x8000_0000 {
        u
    } else {
        u - 0x1_0000_0000
    }
}

/// Where the type field starts: after the 16-byte timestamp of the wide
/// layout when the buffer can hold it, else after the 8-byte one.
pub open spec fn type_offset(len: nat) -> int {
    if len >= INPUT_EVENT_SIZE_64 {
        16
    } else {
        8
    }
}

/// `e` is the event whose fields stand in `b` from offset `off` on.
pub open spec fn decodes_to(b: Seq<u8>, off: int, e: RawEvent) -> bool {
    &&& e.event_type as int == le_u16(b[off], b[off + 1])
    &&& e.code as int == le_u16(b[off + 2], b[off + 3])
    &&& e.value as int == le_i32(b[off + 4], b[off + 5], b[off + 6], b[off + 7])
}

fn read_u16_le(buf: &[u8], off: usize) -> (r: u16)
    requires
        off + 2 <= buf@.len(),
    ensures
        r as int == le_u16(buf@[off as int], buf@[off + 1]),
{
    buf[off] as u16 + (buf[off + 1] as u16) * 256
}

fn read_i32_le(buf: &[u8], off: usize) -> (r: i32)
    requires
        off + 4 <= buf@.len(),
    ensures
        r as int == le_i32(buf@[off as int], buf@[off + 1], buf@[off + 2], buf@[off + 3]),
{
    let u: u32 = buf[off] as u32 + (buf[off + 1] as u32) * 256 + (buf[off + 2] as u32) * 65536
        + (buf[off + 3] as u32) * 16777216;
    if u < 0x8000_0000 {
        u as i32
    } else {
        let low: i32 = (u - 0x8000_0000) as i32;
        low - 0x7fff_ffff - 1
    }
}

fn decode_at(buf: &[u8], off: usize) -> (r: RawEvent)
    requires
        off <= 16,
        off + 8 <= buf@.len(),
    ensures
        decodes_to(buf@, off as int, r),
{
    RawEvent {
        event_type: read_u16_le(buf, off),
        code: read_u16_le(buf, off + 2),
        value: read_i32_le(buf, off + 4),
    }
}

fn parse_input_event_32(buf: &[u8]) -> (r: Option<RawEvent>)
    requires
        buf@.len() >= INPUT_EVENT_SIZE_32,
    ensures
        r matches Some(e) && decodes_to(buf@, 8, e),
{
    Some(decode_at(buf, 8))
}

fn parse_input_event_64(buf: &[u8]) -> (r: Option<RawEvent>)
    requires
        buf@.len() >= INPUT_EVENT_SIZE_64,
    ensures
        r matches Some(e) && decodes_to(buf@, 16, e),
{
    Some(decode_at(buf, 16))
}

/// Decodes one record: the 32-bit layout for 16 to 23 bytes, the 64-bit
/// layout for 24 bytes or more, and no event for a shorter buffer.
pub fn parse_input_event(buf: &[u8]) -> (r: Option<RawEvent>)
    ensures
        buf@.len() < INPUT_EVENT_SIZE_32 <==> r is None,
        r matches Some(e) ==> decodes_to(buf@, type_offset(buf@.len()), e),
{
    let len = buf.len();
    if len >= INPUT_EVENT_SIZE_64 {
        parse_input_event_64(buf)
    } else if len >= INPUT_EVENT_SIZE_32 {
        parse_input_event_32(buf)
    } else {
        None
    }
}

/// Decodes one record of the negotiated `width` (16 bytes for a 32-bit
/// remote, 24 for a 64-bit one): the fields follow the `width - 8` bytes of
/// timestamp; a buffer shorter than `width` is no event.
pub fn decode_record(buf: &[u8], width: usize) -> (r: Option<RawEvent>)
    requires
        width == INPUT_EVENT_SIZE_32 || width == INPUT_EVENT_SIZE_64,
    ensures
        buf@.len() < width <==> r is None,
        r matches Some(e) ==> decodes_to(buf@, width - 8, e),
{
    if buf.len() < width {
        None
    } else if width == INPUT_EVENT_SIZE_64 {
        parse_input_event_64(buf)
    } else {
        parse_input_event_32(buf)
    }
}

/// A key event (`EV_KEY`) with the given code and value.
pub fn key_event(code: u16, value: i32) -> (r: RawEvent)
    ensures
        r == (RawEvent { event_type: EV_KEY, code, value }),
{
    RawEvent { event_type: EV_KEY, code, value }
}

/// The character of a decimal digit.
pub open spec fn digit_char(d: nat) -> char {
    ('0' as nat + d) as char
}

/// Decimal digits of `n`, without sign or padding.
pub open spec fn decimal(n: nat) -> Seq<char>
    decreases n,
{
    if n < 10 {
        seq![digit_char(n)]
    } else {
        decimal(n / 10).push(digit_char(n % 10))
    }
}

/// Relies on `u16`'s `Display`, through `ToString`: the number in decimal
/// digits, without sign or padding.
#[verifier::external_body]
fn decimal_string(n: u16) -> (r: String)
    ensures
        r@ == decimal(n as nat),
{
    n.to_string()
}

/// Short name of an absolute-axis code, "?" for codes not listed.
pub open spec fn abs_code_name(code: u16) -> Seq<char> {
    match code {
        0x00u16 => "X"@,
        0x01u16 => "Y"@,
        0x18u16 => "PRESSURE"@,
        0x19u16 => "DISTANCE"@,
        0x1au16 => "TILT_X"@,
        0x1bu16 => "TILT_Y"@,
        0x2fu16 => "MT_SLOT"@,
        0x30u16 => "MT_TOUCH_MAJOR"@,
        0x31u16 => "MT_TOUCH_MINOR"@,
        0x34u16 => "MT_ORIENTATION"@,
        0x35u16 => "MT_POSITION_X"@,
        0x36u16 => "MT_POSITION_Y"@,
        0x37u16 => "MT_TOOL_TYPE"@,
        0x39u16 => "MT_TRACKING_ID"@,
        0x3au16 => "MT_PRESSURE"@,
        _ => "?"@,
    }
}

fn abs_name(code: u16) -> (r: &'static str)
    ensures
        r@ == abs_code_name(code),
{
    match code {
        0x00 => "X",
        0x01 => "Y",
        0x18 => "PRESSURE",
        0x19 => "DISTANCE",
        0x1a => "TILT_X",
        0x1b => "TILT_Y",
        0x2f => "MT_SLOT",
        0x30 => "MT_TOUCH_MAJOR",
        0x31 => "MT_TOUCH_MINOR",
        0x34 => "MT_ORIENTATION",
        0x35 => "MT_POSITION_X",
        0x36 => "MT_POSITION_Y",
        0x37 => "MT_TOOL_TYPE",
        0x39 => "MT_TRACKING_ID",
        0x3a => "MT_PRESSURE",
        _ => "?",
    }
}

/// How an event's type and code are shown in a dump.
pub open spec fn code_label(ty: u16, code: u16) -> Seq<char> {
    if ty == EV_SYN {
        "SYN_REPORT"@
    } else if ty == EV_KEY {
        "KEY/"@ + decimal(code as nat)
    } else if ty == EV_ABS {
        "ABS_"@ + abs_code_name(code) + "("@ + decimal(code as nat) + ")"@
    } else {
        "type"@ + decimal(ty as nat) + " code"@ + decimal(code as nat)
    }
}

/// Names an event's type and code for a dump.
pub fn code_name(ty: u16, code: u16) -> (r: String)
    ensures
        r@ == code_label(ty, code),
{
    if ty == EV_SYN {
        return String::from_str("SYN_REPORT");
    }
    if ty == EV_KEY {
        return String::from_str("KEY/").concat(decimal_string(code).as_str());
    }
    if ty == EV_ABS {
        return String::from_str("ABS_").concat(abs_name(code)).concat("(").concat(
            decimal_string(code).as_str(),
        ).concat(")");
    }
    String::from_str("type").concat(decimal_string(ty).as_str()).concat(" code").concat(
        decimal_string(code).as_str(),
    )
}

} // verus!
