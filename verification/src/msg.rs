//! Native messages as plain data: a code and two packed parameter words,
//! together with the decoders for the packed fields the router reads.

use vstd::prelude::*;

verus! {

/// Window activation: the window has appeared on screen.
pub const WM_ACTIVATE: u32 = 0x0006;

/// Focus lost to another window.
pub const WM_KILLFOCUS: u32 = 0x0008;

/// A key went down; bit 30 of the extra parameter marks an auto-repeat echo.
pub const WM_KEYDOWN: u32 = 0x0100;

/// A key was released.
pub const WM_KEYUP: u32 = 0x0101;

/// A decoded character of text input.
pub const WM_CHAR: u32 = 0x0102;

/// A key went down while the menu key was held; routed like `WM_KEYDOWN`.
pub const WM_SYSKEYDOWN: u32 = 0x0104;

/// A key was released while the menu key was held; routed like `WM_KEYUP`.
pub const WM_SYSKEYUP: u32 = 0x0105;

/// The pointer moved; the extra parameter packs the client coordinates.
pub const WM_MOUSEMOVE: u32 = 0x0200;

/// Left mouse button pressed.
pub const WM_LBUTTONDOWN: u32 = 0x0201;

/// Left mouse button released.
pub const WM_LBUTTONUP: u32 = 0x0202;

/// Right mouse button pressed.
pub const WM_RBUTTONDOWN: u32 = 0x0204;

/// Right mouse button released.
pub const WM_RBUTTONUP: u32 = 0x0205;

/// Horizontal wheel motion; the first parameter packs the signed delta.
pub const WM_MOUSEHWHEEL: u32 = 0x020E;

/// The client area was resized; the extra parameter packs the new size.
pub const WM_SIZE: u32 = 0x0005;

/// The window must be repainted.
pub const WM_PAINT: u32 = 0x000F;

/// The window is being destroyed.
pub const WM_DESTROY: u32 = 0x0002;

/// The quit signal: the pump returns instead of dispatching it.
pub const WM_QUIT: u32 = 0x0012;

/// One unit of native event input: a message code and the two opaque
/// parameter words that came with it.
#[derive(Clone, Copy, Debug, PartialEq, Eq, Structural)]
pub struct Msg {
    pub code: u32,
    pub wparam: u64,
    pub lparam: u64,
}

/// The low 16 bits of a packed parameter word, read unsigned: a width.
pub open spec fn low_word(param: u64) -> i32 {
    (param & 0xffff) as i32
}

/// Bits 16..32 of a packed parameter word, read unsigned: a height.
pub open spec fn high_word(param: u64) -> i32 {
    ((param >> 16) & 0xffff) as i32
}

/// The low 16 bits read as a signed quantity: an x coordinate, which input
/// capture delivers in two's complement once the pointer is dragged beyond
/// the left edge of the client area.
pub open spec fn signed_low_word(param: u64) -> i32 {
    if low_word(param) >= 0x8000 {
        (low_word(param) - 0x10000) as i32
    } else {
        low_word(param)
    }
}

/// The high word read as a signed quantity: a y coordinate, which input
/// capture delivers in two's complement once the pointer is dragged above
/// the top edge of the client area.
pub open spec fn signed_high_word(param: u64) -> i32 {
    if high_word(param) >= 0x8000 {
        (high_word(param) - 0x10000) as i32
    } else {
        high_word(param)
    }
}

/// The high word read as a signed 16-bit quantity: the wheel delta.
pub open spec fn wheel_delta(param: u64) -> i32 {
    signed_high_word(param)
}

/// Bit 30 of a key message's extra parameter: set when the key was already
/// down, that is, when this key-down is an auto-repeat echo.
pub open spec fn is_repeat_echo(lparam: u64) -> bool {
    lparam & 0x40000000 != 0
}

/// Decodes the low 16 bits of a packed parameter word.
pub fn decode_low_word(param: u64) -> (r: i32)
    ensures
        r == low_word(param),
{
    let v = param & 0xffff;
    proof {
        assert(param & 0xffff <= 0xffff) by (bit_vector);
    }
    v as i32
}

/// Decodes bits 16..32 of a packed parameter word.
pub fn decode_high_word(param: u64) -> (r: i32)
    ensures
        r == high_word(param),
{
    let v = (param >> 16) & 0xffff;
    proof {
        assert((param >> 16) & 0xffff <= 0xffff) by (bit_vector);
    }
    v as i32
}

/// Decodes the low 16 bits as a signed coordinate.
pub fn decode_signed_low_word(param: u64) -> (r: i32)
    ensures
        r == signed_low_word(param),
{
    let v = decode_low_word(param);
    if v >= 0x8000 {
        v - 0x10000
    } else {
        v
    }
}

/// Decodes the high word as a signed coordinate.
pub fn decode_signed_high_word(param: u64) -> (r: i32)
    ensures
        r == signed_high_word(param),
{
    let v = decode_high_word(param);
    if v >= 0x8000 {
        v - 0x10000
    } else {
        v
    }
}

/// Decodes the high word as the signed 16-bit wheel delta.
pub fn decode_wheel_delta(param: u64) -> (r: i32)
    ensures
        r == wheel_delta(param),
{
    decode_signed_high_word(param)
}

/// Reads the auto-repeat bit of a key message's extra parameter.
pub fn decode_repeat_echo(lparam: u64) -> (r: bool)
    ensures
        r == is_repeat_echo(lparam),
{
    lparam & 0x40000000 != 0
}

} // verus!
