//! Deterministic per-node draw colors.
//!
//! The outline color of a node is a pure function of the node's identity
//! index: a quasi-random golden-ratio walk through hue space, with full
//! saturation, half lightness and full alpha. The hue computation itself is
//! the host color crate's; its result is named here and otherwise opaque.

use vstd::prelude::*;
use crate::node::DrawColor;

verus! {

/// The engine's 32-bit value pattern for a full (one) color channel.
pub const CHANNEL_FULL_BITS: u32 = 0x3F80_0000;

/// The engine's 32-bit value pattern for a half (one half) color channel.
pub const CHANNEL_HALF_BITS: u32 = 0x3F00_0000;

/// The hue, as the engine's 32-bit value pattern, that the golden-ratio
/// dispersal assigns to an identity index.
pub uninterp spec fn dispersed_hue_bits(index: u32) -> u32;

/// The draw color assigned to an identity index: the dispersed hue with
/// fixed full saturation, half lightness and full alpha.
pub open spec fn overlay_color(index: u32) -> DrawColor {
    DrawColor {
        hue_bits: dispersed_hue_bits(index),
        saturation_bits: CHANNEL_FULL_BITS,
        lightness_bits: CHANNEL_HALF_BITS,
        alpha_bits: CHANNEL_FULL_BITS,
    }
}

/// Relies on `bevy_color::Hsla::sequential_dispersed`: the result is a pure
/// function of the index (a golden-ratio multiple of the index mapped into
/// hue space), with saturation 1, lightness 1/2 and alpha 1 fixed by its
/// source.
#[verifier::external_body]
fn sequential_dispersed_bits(index: u32) -> (r: (u32, u32, u32, u32))
    ensures
        r.0 == dispersed_hue_bits(index),
        r.1 == CHANNEL_FULL_BITS,
        r.2 == CHANNEL_HALF_BITS,
        r.3 == CHANNEL_FULL_BITS,
{
    let c = bevy_color::Hsla::sequential_dispersed(index);
    (c.hue.to_bits(), c.saturation.to_bits(), c.lightness.to_bits(), c.alpha.to_bits())
}

/// The draw color for an identity index.
pub fn color_for_index(index: u32) -> (c: DrawColor)
    ensures
        c == overlay_color(index),
{
    let (hue_bits, saturation_bits, lightness_bits, alpha_bits) = sequential_dispersed_bits(index);
    DrawColor { hue_bits, saturation_bits, lightness_bits, alpha_bits }
}

} // verus!
