//! The extractor's input and output records.
//!
//! The extractor interprets very little of a node: it filters on the
//! visibility flag and the camera association, computes with the stacking
//! index and the inverse scale factor, and forwards everything else verbatim.
//! Forwarded quantities (sizes, corner radii, transform cells, clip
//! rectangles) are carried opaquely as the host engine's 32-bit value
//! patterns, so the extractor's contracts can state exactly that they are
//! copied unchanged.

use vstd::prelude::*;
use crate::scalar::Scalar;

verus! {

/// A two-dimensional point or extent, each coordinate carried opaquely as the
/// engine's 32-bit value pattern.
#[derive(Clone, Copy, Debug, PartialEq, Eq)]
pub struct Vec2Bits {
    pub x_bits: u32,
    pub y_bits: u32,
}

/// An axis-aligned rectangle between two corners.
#[derive(Clone, Copy, Debug, PartialEq, Eq)]
pub struct RectBits {
    pub min: Vec2Bits,
    pub max: Vec2Bits,
}

/// Per-corner border radii, each carried opaquely as the engine's 32-bit
/// value pattern.
#[derive(Clone, Copy, Debug, PartialEq, Eq)]
pub struct BorderRadiusBits {
    pub top_left_bits: u32,
    pub top_right_bits: u32,
    pub bottom_left_bits: u32,
    pub bottom_right_bits: u32,
}

/// A node's world transform: the sixteen cells of its 4-by-4 matrix in
/// column-major order, each carried opaquely as the engine's 32-bit value
/// pattern.
#[derive(Clone, Copy, Debug, PartialEq, Eq)]
pub struct TransformBits {
    pub cells_bits: [u32; 16],
}

/// A draw color in hue-saturation-lightness-alpha form, each channel carried
/// as the engine's 32-bit value pattern.
#[derive(Clone, Copy, Debug, PartialEq, Eq)]
pub struct DrawColor {
    pub hue_bits: u32,
    pub saturation_bits: u32,
    pub lightness_bits: u32,
    pub alpha_bits: u32,
}

/// How a primitive's rectangle is to be drawn: as a filled rectangle, or as
/// a border ring only. The overlay emits border rings.
#[derive(Clone, Copy, Debug, PartialEq, Eq)]
pub enum NodeKind {
    Fill,
    Border,
}

/// Uniform border thickness on all four sides, in device pixels.
#[derive(Clone, Copy, Debug, PartialEq, Eq)]
pub struct BorderWidths {
    pub left: Scalar,
    pub right: Scalar,
    pub top: Scalar,
    pub bottom: Scalar,
}

/// One frame's snapshot of a laid-out UI node, as the host engine's layout,
/// visibility and camera systems left it.
#[derive(Clone, Copy, Debug, PartialEq, Eq)]
pub struct UiNodeSnapshot {
    /// The node's stable identity handle; its low 32 bits are the identity
    /// index the draw color is derived from.
    pub id: u64,
    /// Draw order of the node among ordinary UI content.
    pub stack_index: u32,
    /// The node's computed size: the outline rectangle runs from the origin
    /// to this extent in the node's local space.
    pub size: Vec2Bits,
    /// The node's computed corner radii, forwarded verbatim.
    pub border_radius: BorderRadiusBits,
    /// Device-pixels-per-logical-pixel, inverted: the configured line width
    /// is divided by this to obtain the border thickness in device pixels.
    pub inverse_scale_factor: Scalar,
    /// The node's world transform, forwarded verbatim.
    pub transform: TransformBits,
    /// The clip rectangle a clipping ancestor imposed on the node, if any.
    pub clip: Option<RectBits>,
    /// The node's computed visibility.
    pub visible: bool,
    /// The camera the node is explicitly associated with, if any.
    pub camera: Option<u64>,
}

/// One border-outline draw primitive, emitted for one qualifying node.
#[derive(Clone, Copy, Debug, PartialEq, Eq)]
pub struct ExtractedOverlayPrimitive {
    /// The temporary render-entity handle allocated for this primitive; valid
    /// for the current frame only.
    pub render_entity: u64,
    /// The identity handle of the node this primitive outlines.
    pub source_id: u64,
    /// The node's stacking index raised into the upper half of the index
    /// range, so the overlay draws above ordinary UI content.
    pub stack_index: u32,
    /// The outline's color, derived from the node's identity index alone.
    pub color: DrawColor,
    /// The outline rectangle: from the origin to the node's size.
    pub rect: RectBits,
    /// The clip rectangle the outline is restricted to, if any.
    pub clip: Option<RectBits>,
    /// The render-side camera this primitive is drawn with.
    pub camera: u64,
    /// Border thickness in device pixels, equal on all four sides.
    pub border: BorderWidths,
    /// The node's corner radii, copied verbatim.
    pub border_radius: BorderRadiusBits,
    /// The node's world transform, copied verbatim.
    pub transform: TransformBits,
    /// Always [`NodeKind::Border`]: only the border ring is rendered.
    pub kind: NodeKind,
}

} // verus!
