//! The extraction pass: from a frame's node snapshots to overlay primitives.

use vstd::prelude::*;
use crate::camera::CameraMap;
use crate::camera::lookup_spec;
use crate::color::color_for_index;
use crate::color::overlay_color;
use crate::config::UiDebugOverlay;
use crate::node::BorderWidths;
use crate::node::ExtractedOverlayPrimitive;
use crate::node::NodeKind;
use crate::node::RectBits;
use crate::node::UiNodeSnapshot;
use crate::node::Vec2Bits;
use crate::scalar::Scalar;
use crate::scalar::scalar_div_spec;
use crate::scalar::SCALAR_RAW_MAX;

verus! {

/// Offset added to a kept node's stacking index: half the index range, so
/// that overlay primitives always sort above ordinary UI content (which, by
/// contract with the renderer, keeps to the lower half).
pub const OVERLAY_STACK_OFFSET: u32 = u32::MAX / 2;

/// The identity index of a node handle: its low 32 bits.
pub open spec fn identity_index_spec(id: u64) -> u32 {
    (id & 0xFFFF_FFFF) as u32
}

/// The identity index of a node handle.
pub fn identity_index(id: u64) -> (index: u32)
    ensures
        index == identity_index_spec(id),
{
    proof {
        assert((id & 0xFFFF_FFFF) < 0x1_0000_0000) by (bit_vector);
    }
    (id & 0xFFFF_FFFF) as u32
}

/// The camera a node elects: its explicit association when present, else the
/// frame's default camera.
pub open spec fn chosen_camera(default_camera: Option<u64>, node: UiNodeSnapshot) -> Option<u64> {
    if node.camera is Some {
        node.camera
    } else {
        default_camera
    }
}

/// The render-side camera a node is drawn with: the elected camera resolved
/// through the frame's camera map; `None` when the node elects no camera or
/// resolution fails.
pub open spec fn camera_of(
    cameras: Seq<(u64, u64)>,
    default_camera: Option<u64>,
    node: UiNodeSnapshot,
) -> Option<u64> {
    if chosen_camera(default_camera, node) is Some {
        lookup_spec(cameras, chosen_camera(default_camera, node).unwrap())
    } else {
        None
    }
}

/// Whether the extractor emits a primitive for a node: the overlay must be
/// enabled, the node visible (or hidden nodes shown), and its camera must
/// resolve.
pub open spec fn kept(
    config: UiDebugOverlay,
    cameras: Seq<(u64, u64)>,
    default_camera: Option<u64>,
    node: UiNodeSnapshot,
) -> bool {
    config.enabled
        && (node.visible || config.show_hidden)
        && camera_of(cameras, default_camera, node) is Some
}

/// The same thickness on all four sides.
pub open spec fn uniform_border(width: Scalar) -> BorderWidths {
    BorderWidths { left: width, right: width, top: width, bottom: width }
}

/// The primitive emitted for a kept node, given the render-entity handle
/// allocated for it.
pub open spec fn primitive_of(
    config: UiDebugOverlay,
    cameras: Seq<(u64, u64)>,
    default_camera: Option<u64>,
    node: UiNodeSnapshot,
    handle: u64,
) -> ExtractedOverlayPrimitive {
    ExtractedOverlayPrimitive {
        render_entity: handle,
        source_id: node.id,
        stack_index: (node.stack_index + OVERLAY_STACK_OFFSET) as u32,
        color: overlay_color(identity_index_spec(node.id)),
        rect: RectBits { min: Vec2Bits { x_bits: 0, y_bits: 0 }, max: node.size },
        clip: if config.show_clipped {
            None
        } else {
            node.clip
        },
        camera: camera_of(cameras, default_camera, node).unwrap(),
        border: uniform_border(scalar_div_spec(config.line_width, node.inverse_scale_factor)),
        border_radius: node.border_radius,
        transform: node.transform,
        kind: NodeKind::Border,
    }
}

/// The subsequence of nodes the extractor keeps, in input order.
pub open spec fn kept_seq(
    config: UiDebugOverlay,
    cameras: Seq<(u64, u64)>,
    default_camera: Option<u64>,
    nodes: Seq<UiNodeSnapshot>,
) -> Seq<UiNodeSnapshot>
    decreases nodes.len(),
{
    if nodes.len() == 0 {
        Seq::empty()
    } else {
        let rest = kept_seq(config, cameras, default_camera, nodes.drop_last());
        if kept(config, cameras, default_camera, nodes.last()) {
            rest.push(nodes.last())
        } else {
            rest
        }
    }
}

/// Everything one extraction pass emits for a node sequence when handles are
/// allocated in sequence from `first_handle`: one primitive per kept node,
/// in input order.
pub open spec fn extract_seq(
    config: UiDebugOverlay,
    cameras: Seq<(u64, u64)>,
    default_camera: Option<u64>,
    nodes: Seq<UiNodeSnapshot>,
    first_handle: u64,
) -> Seq<ExtractedOverlayPrimitive>
    decreases nodes.len(),
{
    if nodes.len() == 0 {
        Seq::empty()
    } else {
        let rest = extract_seq(config, cameras, default_camera, nodes.drop_last(), first_handle);
        if kept(config, cameras, default_camera, nodes.last()) {
            rest.push(
                primitive_of(
                    config,
                    cameras,
                    default_camera,
                    nodes.last(),
                    (first_handle + rest.len()) as u64,
                ),
            )
        } else {
            rest
        }
    }
}

/// One pass emits exactly one primitive per kept node, and no more
/// primitives than there are nodes.
pub proof fn lemma_extract_len(
    config: UiDebugOverlay,
    cameras: Seq<(u64, u64)>,
    default_camera: Option<u64>,
    nodes: Seq<UiNodeSnapshot>,
    first_handle: u64,
)
    ensures
        extract_seq(config, cameras, default_camera, nodes, first_handle).len()
            == kept_seq(config, cameras, default_camera, nodes).len(),
        kept_seq(config, cameras, default_camera, nodes).len() <= nodes.len(),
    decreases nodes.len(),
{
    if nodes.len() > 0 {
        lemma_extract_len(config, cameras, default_camera, nodes.drop_last(), first_handle);
    }
}

/// The primitive at position `j` of a pass's output is the one for the
/// `j`-th kept node, with the `j`-th handle.
pub proof fn lemma_extract_index(
    config: UiDebugOverlay,
    cameras: Seq<(u64, u64)>,
    default_camera: Option<u64>,
    nodes: Seq<UiNodeSnapshot>,
    first_handle: u64,
)
    ensures
        forall|j: int|
            0 <= j < extract_seq(config, cameras, default_camera, nodes, first_handle).len()
                ==> #[trigger] extract_seq(config, cameras, default_camera, nodes, first_handle)[j]
                == primitive_of(
                    config,
                    cameras,
                    default_camera,
                    kept_seq(config, cameras, default_camera, nodes)[j],
                    (first_handle + j) as u64,
                ),
    decreases nodes.len(),
{
    if nodes.len() > 0 {
        lemma_extract_index(config, cameras, default_camera, nodes.drop_last(), first_handle);
        lemma_extract_len(config, cameras, default_camera, nodes.drop_last(), first_handle);
    }
}

/// With the overlay disabled, a pass emits nothing.
pub proof fn lemma_extract_seq_disabled(
    config: UiDebugOverlay,
    cameras: Seq<(u64, u64)>,
    default_camera: Option<u64>,
    nodes: Seq<UiNodeSnapshot>,
    first_handle: u64,
)
    requires
        !config.enabled,
    ensures
        extract_seq(config, cameras, default_camera, nodes, first_handle).len() == 0,
    decreases nodes.len(),
{
    if nodes.len() > 0 {
        lemma_extract_seq_disabled(config, cameras, default_camera, nodes.drop_last(), first_handle);
    }
}

/// Extending the input by one node extends the output by that node's
/// primitive exactly when the node is kept.
proof fn lemma_extract_seq_push(
    config: UiDebugOverlay,
    cameras: Seq<(u64, u64)>,
    default_camera: Option<u64>,
    nodes: Seq<UiNodeSnapshot>,
    node: UiNodeSnapshot,
    first_handle: u64,
)
    ensures
        extract_seq(config, cameras, default_camera, nodes.push(node), first_handle)
            == if kept(config, cameras, default_camera, node) {
                extract_seq(config, cameras, default_camera, nodes, first_handle).push(
                    primitive_of(
                        config,
                        cameras,
                        default_camera,
                        node,
                        (first_handle
                            + extract_seq(config, cameras, default_camera, nodes, first_handle).len())
                            as u64,
                    ),
                )
            } else {
                extract_seq(config, cameras, default_camera, nodes, first_handle)
            },
{
    assert(nodes.push(node).drop_last() =~= nodes);
    assert(nodes.push(node).last() == node);
}

/// Allocates the frame's temporary render-entity handles in sequence.
#[derive(Clone, Copy, Debug, PartialEq, Eq)]
pub struct RenderEntityAllocator {
    /// The next handle to hand out.
    pub next: u64,
}

impl RenderEntityAllocator {
    /// An allocator whose first handle is `first`.
    pub fn new(first: u64) -> (a: RenderEntityAllocator)
        ensures
            a.next == first,
    {
        RenderEntityAllocator { next: first }
    }

    /// Hands out the next handle.
    pub fn allocate(&mut self) -> (handle: u64)
        requires
            old(self).next < u64::MAX,
        ensures
            handle == old(self).next,
            final(self).next == old(self).next + 1,
    {
        let handle = self.next;
        self.next = self.next + 1;
        handle
    }
}

/// One extraction pass.
///
/// With the overlay disabled it returns at once: no primitive is emitted and
/// no render-entity handle is allocated. Otherwise it walks `nodes` in
/// order, skips nodes that fail the visibility filter or whose camera does
/// not resolve, and emits one border-outline primitive per remaining node,
/// with handles allocated in sequence — exactly the sequence
/// [`extract_seq`] describes.
pub fn extract_debug_overlay(
    config: &UiDebugOverlay,
    nodes: &Vec<UiNodeSnapshot>,
    cameras: &CameraMap,
    default_camera: Option<u64>,
    alloc: &mut RenderEntityAllocator,
) -> (out: Vec<ExtractedOverlayPrimitive>)
    requires
        old(alloc).next + nodes@.len() <= u64::MAX,
        config.line_width.raw <= SCALAR_RAW_MAX,
        forall|i: int|
            0 <= i < nodes@.len() ==> (#[trigger] nodes@[i]).inverse_scale_factor.raw > 0,
        forall|i: int|
            0 <= i < nodes@.len()
                ==> (#[trigger] nodes@[i]).stack_index + OVERLAY_STACK_OFFSET <= u32::MAX,
    ensures
        out@ == extract_seq(*config, cameras.entries@, default_camera, nodes@, old(alloc).next),
        final(alloc).next == old(alloc).next + out@.len(),
        out@.len() <= nodes@.len(),
        !config.enabled ==> out@.len() == 0 && *final(alloc) == *old(alloc),
{
    let ghost start: u64 = alloc.next;
    let mut out: Vec<ExtractedOverlayPrimitive> = Vec::new();
    if !config.enabled {
        proof {
            lemma_extract_seq_disabled(*config, cameras.entries@, default_camera, nodes@, start);
            assert(out@ =~= extract_seq(*config, cameras.entries@, default_camera, nodes@, start));
        }
        return out;
    }
    let n = nodes.len();
    let mut i: usize = 0;
    while i < n
        invariant
            i <= n,
            n == nodes@.len(),
            config.enabled,
            config.line_width.raw <= SCALAR_RAW_MAX,
            forall|k: int|
                0 <= k < nodes@.len() ==> (#[trigger] nodes@[k]).inverse_scale_factor.raw > 0,
            forall|k: int|
                0 <= k < nodes@.len()
                    ==> (#[trigger] nodes@[k]).stack_index + OVERLAY_STACK_OFFSET <= u32::MAX,
            start + nodes@.len() <= u64::MAX,
            out@.len() <= i,
            alloc.next == start + out@.len(),
            out@ == extract_seq(
                *config,
                cameras.entries@,
                default_camera,
                nodes@.subrange(0, i as int),
                start,
            ),
        decreases n - i,
    {
        let node = nodes[i];
        proof {
            assert(nodes@.subrange(0, i as int + 1)
                =~= nodes@.subrange(0, i as int).push(nodes@[i as int]));
            lemma_extract_seq_push(
                *config,
                cameras.entries@,
                default_camera,
                nodes@.subrange(0, i as int),
                nodes@[i as int],
                start,
            );
        }
        if config.show_hidden || node.visible {
            let elected = match node.camera {
                Some(camera) => Some(camera),
                None => default_camera,
            };
            if let Some(camera) = elected {
                if let Some(render_camera) = cameras.resolve(camera) {
                    let handle = alloc.allocate();
                    let color = color_for_index(identity_index(node.id));
                    let border_width = config.line_width.div(node.inverse_scale_factor);
                    out.push(ExtractedOverlayPrimitive {
                        render_entity: handle,
                        source_id: node.id,
                        stack_index: node.stack_index + OVERLAY_STACK_OFFSET,
                        color,
                        rect: RectBits {
                            min: Vec2Bits { x_bits: 0, y_bits: 0 },
                            max: node.size,
                        },
                        clip: if config.show_clipped {
                            None
                        } else {
                            node.clip
                        },
                        camera: render_camera,
                        border: BorderWidths {
                            left: border_width,
                            right: border_width,
                            top: border_width,
                            bottom: border_width,
                        },
                        border_radius: node.border_radius,
                        transform: node.transform,
                        kind: NodeKind::Border,
                    });
                }
            }
        }
        i = i + 1;
    }
    proof {
        assert(nodes@.subrange(0, n as int) =~= nodes@);
    }
    out
}

} // verus!
