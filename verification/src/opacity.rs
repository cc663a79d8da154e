//! Quantisation of a requested window opacity and the layered-style bit.
//!
//! An opacity request is carried in thousandths of an alpha step: full
//! opacity is 255 alpha steps, so 255000 thousandths. In that unit the
//! clamp boundaries are exact integers and one truncating division by
//! 1000 is exactly the truncating multiplication of the clamped opacity
//! by 255. The driver that receives a fractional opacity from the front
//! end scales it by 255000 before calling in.

use vstd::prelude::*;

verus! {

/// Lowest opacity ever applied, a tenth of full opacity, in thousandths
/// of an alpha step. Requests below it are pulled up, so that a window
/// can never be made invisible.
pub const ALPHA_MILLIS_FLOOR: i64 = 25_500;

/// Full opacity in thousandths of an alpha step. Requests above it are
/// pulled down.
pub const ALPHA_MILLIS_CEILING: i64 = 255_000;

/// Thousandths in one alpha step.
pub const MILLIS_PER_ALPHA_STEP: i64 = 1000;

/// Extended window style bit that marks a window as layered, the mode the
/// window manager requires before per-pixel alpha blending takes effect.
pub const WS_EX_LAYERED_BIT: u32 = 0x0008_0000;

/// An opacity request pulled into the applied range.
pub open spec fn clamp_alpha_millis(alpha_millis: int) -> int {
    if alpha_millis < ALPHA_MILLIS_FLOOR as int {
        ALPHA_MILLIS_FLOOR as int
    } else if alpha_millis > ALPHA_MILLIS_CEILING as int {
        ALPHA_MILLIS_CEILING as int
    } else {
        alpha_millis
    }
}

/// The alpha byte an opacity request quantises to: the clamped request,
/// truncated to whole alpha steps.
pub open spec fn alpha_of_millis(alpha_millis: int) -> int {
    clamp_alpha_millis(alpha_millis) / (MILLIS_PER_ALPHA_STEP as int)
}

/// Quantises an opacity request to the alpha byte handed to the compositor.
pub fn opacity_alpha(alpha_millis: i64) -> (alpha: u8)
    ensures
        alpha as int == alpha_of_millis(alpha_millis as int),
{
    let clamped: i64 = if alpha_millis < ALPHA_MILLIS_FLOOR {
        ALPHA_MILLIS_FLOOR
    } else if alpha_millis > ALPHA_MILLIS_CEILING {
        ALPHA_MILLIS_CEILING
    } else {
        alpha_millis
    };
    (clamped / MILLIS_PER_ALPHA_STEP) as u8
}

/// An extended style word with the layered bit set and all other bits kept.
pub open spec fn with_layered(ex_style: u32) -> u32 {
    ex_style | WS_EX_LAYERED_BIT
}

/// Sets the layered bit in an extended style word read from the window, so
/// that the word written back differs from it in that bit alone.
pub fn layered_style(ex_style: u32) -> (styled: u32)
    ensures
        styled == with_layered(ex_style),
{
    ex_style | WS_EX_LAYERED_BIT
}

/// Every opacity request below the floor is applied as the floor's alpha
/// byte, 25 (the floor's 25.5 alpha steps truncate).
pub proof fn lemma_low_opacity_floors(alpha_millis: int)
    requires
        alpha_millis <= ALPHA_MILLIS_FLOOR as int,
    ensures
        alpha_of_millis(alpha_millis) == 25,
{
}

/// Every opacity request above full opacity is applied as the ceiling's
/// alpha byte, 255.
pub proof fn lemma_high_opacity_caps(alpha_millis: int)
    requires
        alpha_millis >= ALPHA_MILLIS_CEILING as int,
    ensures
        alpha_of_millis(alpha_millis) == 255,
{
}

/// Setting the layered bit sets it whatever the style was, changes no other
/// bit, and is idempotent: a second application, as a later opacity call
/// makes, leaves the word as it is and never unsets the bit.
pub proof fn lemma_layered_bit_is_sticky(ex_style: u32)
    ensures
        with_layered(ex_style) & WS_EX_LAYERED_BIT == WS_EX_LAYERED_BIT,
        with_layered(with_layered(ex_style)) == with_layered(ex_style),
        with_layered(ex_style) & !WS_EX_LAYERED_BIT == ex_style & !WS_EX_LAYERED_BIT,
        ex_style & WS_EX_LAYERED_BIT == WS_EX_LAYERED_BIT ==> with_layered(ex_style) == ex_style,
{
    assert((ex_style | 0x0008_0000u32) & 0x0008_0000u32 == 0x0008_0000u32) by (bit_vector);
    assert((ex_style | 0x0008_0000u32) | 0x0008_0000u32 == ex_style | 0x0008_0000u32) by (bit_vector);
    assert((ex_style | 0x0008_0000u32) & !0x0008_0000u32 == ex_style & !0x0008_0000u32) by (bit_vector);
    assert(ex_style & 0x0008_0000u32 == 0x0008_0000u32 ==> (ex_style | 0x0008_0000u32) == ex_style)
        by (bit_vector);
}

} // verus!
