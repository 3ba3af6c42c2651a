//! Properties of the extraction pass, each proved from the specification
//! functions that [`crate::extract::extract_debug_overlay`]'s contract is
//! stated over.

use vstd::prelude::*;
use crate::camera::lookup_spec;
use crate::config::UiDebugOverlay;
use crate::extract::OVERLAY_STACK_OFFSET;
use crate::extract::camera_of;
use crate::extract::extract_seq;
use crate::extract::kept;
use crate::extract::kept_seq;
use crate::extract::lemma_extract_index;
use crate::extract::lemma_extract_len;
use crate::extract::primitive_of;
use crate::node::UiNodeSnapshot;
use crate::scalar::scalar_div_spec;

verus! {

/// Visibility filter: with the overlay enabled and the node's camera
/// resolvable, a non-visible node yields exactly one primitive when hidden
/// nodes are shown, and none otherwise.
pub proof fn lemma_visibility_filter(
    config: UiDebugOverlay,
    cameras: Seq<(u64, u64)>,
    default_camera: Option<u64>,
    node: UiNodeSnapshot,
    first_handle: u64,
)
    requires
        config.enabled,
        !node.visible,
        camera_of(cameras, default_camera, node) is Some,
    ensures
        kept(config, cameras, default_camera, node) <==> config.show_hidden,
        extract_seq(config, cameras, default_camera, seq![node], first_handle).len()
            == if config.show_hidden {
                1int
            } else {
                0int
            },
{
    let nodes = seq![node];
    assert(nodes.drop_last() =~= Seq::<UiNodeSnapshot>::empty());
    assert(nodes.last() == node);
    assert(extract_seq(
        config,
        cameras,
        default_camera,
        Seq::<UiNodeSnapshot>::empty(),
        first_handle,
    ).len() == 0);
}

/// Color determinism: the draw color of an emitted primitive is a function
/// of the source node's identity alone — two nodes with the same identity
/// get the same color, whatever the configurations, camera maps, default
/// cameras and handles of the two passes.
pub proof fn lemma_color_determinism(
    config_a: UiDebugOverlay,
    cameras_a: Seq<(u64, u64)>,
    default_camera_a: Option<u64>,
    node_a: UiNodeSnapshot,
    handle_a: u64,
    config_b: UiDebugOverlay,
    cameras_b: Seq<(u64, u64)>,
    default_camera_b: Option<u64>,
    node_b: UiNodeSnapshot,
    handle_b: u64,
)
    requires
        node_a.id == node_b.id,
    ensures
        primitive_of(config_a, cameras_a, default_camera_a, node_a, handle_a).color
            == primitive_of(config_b, cameras_b, default_camera_b, node_b, handle_b).color,
{
}

/// Each kept node's stacking bound carries over to the kept subsequence.
proof fn lemma_kept_seq_stack_bound(
    config: UiDebugOverlay,
    cameras: Seq<(u64, u64)>,
    default_camera: Option<u64>,
    nodes: Seq<UiNodeSnapshot>,
    bound: u32,
)
    requires
        forall|i: int| 0 <= i < nodes.len() ==> (#[trigger] nodes[i]).stack_index <= bound,
    ensures
        forall|j: int|
            0 <= j < kept_seq(config, cameras, default_camera, nodes).len()
                ==> (#[trigger] kept_seq(config, cameras, default_camera, nodes)[j]).stack_index
                    <= bound,
    decreases nodes.len(),
{
    if nodes.len() > 0 {
        assert(forall|i: int|
            0 <= i < nodes.drop_last().len()
                ==> (#[trigger] nodes.drop_last()[i]).stack_index <= bound);
        lemma_kept_seq_stack_bound(config, cameras, default_camera, nodes.drop_last(), bound);
    }
}

/// Stacking invariant: every emitted primitive's stacking index is its
/// source node's plus the overlay offset, and the order of two source
/// stacking indices is preserved between their primitives.
pub proof fn lemma_stacking_invariant(
    config: UiDebugOverlay,
    cameras: Seq<(u64, u64)>,
    default_camera: Option<u64>,
    nodes: Seq<UiNodeSnapshot>,
    first_handle: u64,
)
    requires
        forall|i: int|
            0 <= i < nodes.len()
                ==> (#[trigger] nodes[i]).stack_index + OVERLAY_STACK_OFFSET <= u32::MAX,
    ensures
        forall|j: int|
            0 <= j < extract_seq(config, cameras, default_camera, nodes, first_handle).len()
                ==> (#[trigger] extract_seq(config, cameras, default_camera, nodes, first_handle)[j])
                    .stack_index
                    == kept_seq(config, cameras, default_camera, nodes)[j].stack_index
                        + OVERLAY_STACK_OFFSET,
        forall|j: int, k: int|
            0 <= j < k < extract_seq(config, cameras, default_camera, nodes, first_handle).len()
                && kept_seq(config, cameras, default_camera, nodes)[j].stack_index
                    < kept_seq(config, cameras, default_camera, nodes)[k].stack_index
                ==> (#[trigger] extract_seq(config, cameras, default_camera, nodes, first_handle)[j])
                    .stack_index
                    < (#[trigger] extract_seq(config, cameras, default_camera, nodes, first_handle)[k])
                        .stack_index,
{
    lemma_extract_len(config, cameras, default_camera, nodes, first_handle);
    lemma_extract_index(config, cameras, default_camera, nodes, first_handle);
    assert(forall|i: int|
        0 <= i < nodes.len()
            ==> (#[trigger] nodes[i]).stack_index <= u32::MAX - OVERLAY_STACK_OFFSET);
    lemma_kept_seq_stack_bound(
        config,
        cameras,
        default_camera,
        nodes,
        (u32::MAX - OVERLAY_STACK_OFFSET) as u32,
    );
}

/// Clip suppression: when clipped sections are shown the primitive carries
/// no clip rectangle at all; otherwise it carries the source node's clip
/// rectangle unchanged, including its absence.
pub proof fn lemma_clip_suppression(
    config: UiDebugOverlay,
    cameras: Seq<(u64, u64)>,
    default_camera: Option<u64>,
    node: UiNodeSnapshot,
    handle: u64,
)
    ensures
        config.show_clipped
            ==> primitive_of(config, cameras, default_camera, node, handle).clip is None,
        !config.show_clipped
            ==> primitive_of(config, cameras, default_camera, node, handle).clip == node.clip,
{
}

/// Border thickness: a primitive's border is the configured line width
/// divided by the source node's inverse scale factor, equal on all four
/// sides.
pub proof fn lemma_border_thickness(
    config: UiDebugOverlay,
    cameras: Seq<(u64, u64)>,
    default_camera: Option<u64>,
    node: UiNodeSnapshot,
    handle: u64,
)
    ensures
        primitive_of(config, cameras, default_camera, node, handle).border.left
            == scalar_div_spec(config.line_width, node.inverse_scale_factor),
        primitive_of(config, cameras, default_camera, node, handle).border.right
            == primitive_of(config, cameras, default_camera, node, handle).border.left,
        primitive_of(config, cameras, default_camera, node, handle).border.top
            == primitive_of(config, cameras, default_camera, node, handle).border.left,
        primitive_of(config, cameras, default_camera, node, handle).border.bottom
            == primitive_of(config, cameras, default_camera, node, handle).border.left,
{
}

/// Camera fallback: a node with no explicit camera is drawn with the
/// frame's default camera, resolved through the camera map; with no default
/// camera either, the node is not kept.
pub proof fn lemma_camera_fallback(
    config: UiDebugOverlay,
    cameras: Seq<(u64, u64)>,
    default_camera: Option<u64>,
    node: UiNodeSnapshot,
    handle: u64,
)
    requires
        node.camera is None,
    ensures
        default_camera is None ==> !kept(config, cameras, default_camera, node),
        default_camera is Some
            ==> camera_of(cameras, default_camera, node)
                == lookup_spec(cameras, default_camera.unwrap()),
        default_camera is Some && lookup_spec(cameras, default_camera.unwrap()) is Some
            ==> primitive_of(config, cameras, default_camera, node, handle).camera
                == lookup_spec(cameras, default_camera.unwrap()).unwrap(),
{
}

} // verus!
