//! Plain descriptions of what a frame draws, for a renderer to carry out.

use vstd::prelude::*;

verus! {

/// Dark slate, RGBA.
pub const DARK: u32 = 0x323b42ff;

/// Opaque white, RGBA.
pub const WHITE: u32 = 0xffffffff;

/// A filled rectangle.
#[derive(Debug, Clone, Copy, PartialEq, Eq)]
pub struct RectCommand {
    pub x: i32,
    pub y: i32,
    pub w: i32,
    pub h: i32,
    pub color: u32,
}

/// A line of text whose top-left corner stands at `(x, y)`.
#[derive(Debug, PartialEq, Eq)]
pub struct TextCommand {
    pub text: String,
    pub x: i32,
    pub y: i32,
    pub color: u32,
}

/// What a button draws: its background, its label, and below the label its
/// click counter.
#[derive(Debug, PartialEq, Eq)]
pub struct ButtonDrawing {
    pub background: RectCommand,
    pub label: TextCommand,
    pub counter: TextCommand,
}

/// `v` divided by two, rounded toward zero, as integer division does.
pub open spec fn half(v: int) -> int {
    if v >= 0 { v / 2 } else { -((-v) / 2) }
}

/// `v` clamped to the range of `i32`.
pub open spec fn clamp_i32(v: int) -> i32 {
    if v < i32::MIN { i32::MIN } else if v > i32::MAX { i32::MAX } else { v as i32 }
}

/// `v` halved toward zero.
pub(crate) fn half_i128(v: i32) -> (r: i128)
    ensures
        r == half(v as int),
{
    let w = v as i128;
    if w >= 0 { w / 2 } else { -((-w) / 2) }
}

/// `v` clamped to the range of `i32`.
pub(crate) fn clamp_to_i32(v: i128) -> (r: i32)
    ensures
        r == clamp_i32(v as int),
{
    if v < i32::MIN as i128 {
        i32::MIN
    } else if v > i32::MAX as i128 {
        i32::MAX
    } else {
        v as i32
    }
}

/// The digit `d` (below ten) as a character.
pub open spec fn digit_char(d: int) -> char {
    seq!['0', '1', '2', '3', '4', '5', '6', '7', '8', '9'][d]
}

/// The decimal numeral of `n`, without sign or leading zeros.
pub open spec fn decimal(n: nat) -> Seq<char>
    decreases n,
{
    if n < 10 {
        seq![digit_char(n as int)]
    } else {
        decimal(n / 10).push(digit_char((n % 10) as int))
    }
}

/// Relies on `u32::to_string` (its `Display`): the decimal numeral of `n`.
#[verifier::external_body]
pub(crate) fn decimal_text(n: u32) -> (r: String)
    ensures
        r@ == decimal(n as nat),
{
    n.to_string()
}

} // verus!
