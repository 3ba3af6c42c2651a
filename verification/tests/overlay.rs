use ui_debug_overlay::CameraMap;
use ui_debug_overlay::UiDebugOverlayPlugin;
use ui_debug_overlay::ExtractedOverlayPrimitive;
use ui_debug_overlay::RenderEntityAllocator;
use ui_debug_overlay::Scalar;
use ui_debug_overlay::UiDebugOverlay;
use ui_debug_overlay::UiNodeSnapshot;
use ui_debug_overlay::extract_debug_overlay;
use ui_debug_overlay::extract::OVERLAY_STACK_OFFSET;
use ui_debug_overlay::node::BorderRadiusBits;
use ui_debug_overlay::node::NodeKind;
use ui_debug_overlay::node::RectBits;
use ui_debug_overlay::node::TransformBits;
use ui_debug_overlay::node::Vec2Bits;

fn enabled_config() -> UiDebugOverlay {
    let mut config = UiDebugOverlay::default();
    config.enabled = true;
    config
}

fn plain_node(id: u64) -> UiNodeSnapshot {
    UiNodeSnapshot {
        id,
        stack_index: 0,
        size: Vec2Bits { x_bits: 0, y_bits: 0 },
        border_radius: BorderRadiusBits {
            top_left_bits: 0,
            top_right_bits: 0,
            bottom_left_bits: 0,
            bottom_right_bits: 0,
        },
        inverse_scale_factor: Scalar::one(),
        transform: TransformBits { cells_bits: [0; 16] },
        clip: None,
        visible: true,
        camera: None,
    }
}

fn one_camera_map() -> (CameraMap, u64, u64) {
    let mut cameras = CameraMap::new();
    let ui_camera = 40u64;
    let render_camera = 900u64;
    cameras.insert(ui_camera, render_camera);
    (cameras, ui_camera, render_camera)
}

fn run(
    config: &UiDebugOverlay,
    nodes: &Vec<UiNodeSnapshot>,
    cameras: &CameraMap,
    default_camera: Option<u64>,
) -> Vec<ExtractedOverlayPrimitive> {
    let mut alloc = RenderEntityAllocator::new(1000);
    extract_debug_overlay(config, nodes, cameras, default_camera, &mut alloc)
}

#[test]
fn default_config_starts_disabled() {
    let config = UiDebugOverlay::default();
    assert!(!config.enabled);
    assert_eq!(config.line_width, Scalar::one());
    assert!(!config.show_hidden);
    assert!(!config.show_clipped);
}

#[test]
fn toggle_flips_only_the_switch() {
    let mut config = UiDebugOverlay::default();
    config.toggle();
    assert!(config.enabled);
    assert_eq!(config.line_width, Scalar::one());
    assert!(!config.show_hidden);
    assert!(!config.show_clipped);
    config.toggle();
    assert!(!config.enabled);
}

#[test]
fn plugin_constructors() {
    let disabled = UiDebugOverlayPlugin::start_disabled();
    assert!(!disabled.0.enabled);
    let enabled = UiDebugOverlayPlugin::start_enabled();
    assert!(enabled.0.enabled);
    assert_eq!(enabled.0.line_width, Scalar::one());
    let wide = UiDebugOverlayPlugin::start_enabled().with_line_width(Scalar::from_units(3));
    assert!(wide.0.enabled);
    assert_eq!(wide.0.line_width.raw, 3 * 65536);
    let plugin_default = UiDebugOverlayPlugin::default();
    assert_eq!(plugin_default.0, UiDebugOverlay::default());
}

#[test]
fn scalar_division_is_exact_on_binary_fractions() {
    // 2.0 / 0.5 == 4.0, and 1.0 / 1.0 == 1.0, in raw units of 1/65536.
    let two = Scalar::from_units(2);
    let half = Scalar::from_raw(65536 / 2);
    assert_eq!(two.div(half).raw, 4 * 65536);
    assert_eq!(Scalar::one().div(Scalar::one()), Scalar::one());
    // 1.0 / 3.0 rounds down.
    let third = Scalar::one().div(Scalar::from_units(3));
    assert_eq!(third.raw, 65536 / 3);
}

#[test]
fn disabled_short_circuit_emits_nothing_and_allocates_nothing() {
    let config = UiDebugOverlay::default();
    assert!(!config.enabled);
    let (cameras, _, _) = one_camera_map();
    let nodes = vec![plain_node(1), plain_node(2), plain_node(3)];
    let mut alloc = RenderEntityAllocator::new(55);
    let out = extract_debug_overlay(&config, &nodes, &cameras, Some(40), &mut alloc);
    assert!(out.is_empty());
    assert_eq!(alloc.next, 55);
}

#[test]
fn visibility_filter() {
    let (cameras, ui_camera, _) = one_camera_map();
    let mut hidden = plain_node(1);
    hidden.visible = false;

    let config = enabled_config();
    let out = run(&config, &vec![hidden], &cameras, Some(ui_camera));
    assert_eq!(out.len(), 0);

    let mut config = enabled_config();
    config.show_hidden = true;
    let out = run(&config, &vec![hidden], &cameras, Some(ui_camera));
    assert_eq!(out.len(), 1);
}

#[test]
fn color_is_deterministic_per_identity() {
    let (cameras, ui_camera, _) = one_camera_map();
    let config = enabled_config();
    let first = run(&config, &vec![plain_node(7)], &cameras, Some(ui_camera));
    let second = run(&config, &vec![plain_node(7)], &cameras, Some(ui_camera));
    assert_eq!(first[0].color, second[0].color);
}

#[test]
fn colors_differ_over_a_contiguous_identity_range() {
    let (cameras, ui_camera, _) = one_camera_map();
    let config = enabled_config();
    let nodes: Vec<UiNodeSnapshot> = (0u64..8).map(plain_node).collect();
    let out = run(&config, &nodes, &cameras, Some(ui_camera));
    assert_eq!(out.len(), 8);
    for a in 0..out.len() {
        for b in 0..a {
            assert_ne!(out[a].color, out[b].color);
        }
    }
}

#[test]
fn color_matches_the_sequential_dispersed_palette() {
    let (cameras, ui_camera, _) = one_camera_map();
    let config = enabled_config();
    for id in [0u64, 1, 123, 0xFFFF_FFFF] {
        let out = run(&config, &vec![plain_node(id)], &cameras, Some(ui_camera));
        let expected = bevy_color::Hsla::sequential_dispersed(id as u32);
        assert_eq!(out[0].color.hue_bits, expected.hue.to_bits());
        assert_eq!(out[0].color.saturation_bits, expected.saturation.to_bits());
        assert_eq!(out[0].color.lightness_bits, expected.lightness.to_bits());
        assert_eq!(out[0].color.alpha_bits, expected.alpha.to_bits());
        assert_eq!(out[0].color.saturation_bits, 1.0f32.to_bits());
        assert_eq!(out[0].color.lightness_bits, 0.5f32.to_bits());
        assert_eq!(out[0].color.alpha_bits, 1.0f32.to_bits());
    }
}

#[test]
fn identity_index_is_the_low_half_of_the_handle() {
    let (cameras, ui_camera, _) = one_camera_map();
    let config = enabled_config();
    // Two handles that agree in their low 32 bits get the same color.
    let out_low = run(&config, &vec![plain_node(5)], &cameras, Some(ui_camera));
    let out_high = run(&config, &vec![plain_node(5u64 | (77u64 << 32))], &cameras, Some(ui_camera));
    assert_eq!(out_low[0].color, out_high[0].color);
}

#[test]
fn stacking_index_is_offset_into_the_upper_half() {
    let (cameras, ui_camera, _) = one_camera_map();
    let config = enabled_config();
    let mut low = plain_node(1);
    low.stack_index = 3;
    let mut high = plain_node(2);
    high.stack_index = 7;
    let out = run(&config, &vec![low, high], &cameras, Some(ui_camera));
    assert_eq!(OVERLAY_STACK_OFFSET, u32::MAX / 2);
    assert_eq!(out[0].stack_index, 3 + u32::MAX / 2);
    assert_eq!(out[1].stack_index, 7 + u32::MAX / 2);
    assert!(out[0].stack_index < out[1].stack_index);
}

#[test]
fn clip_suppression() {
    let (cameras, ui_camera, _) = one_camera_map();
    let clip = RectBits {
        min: Vec2Bits { x_bits: 5.0f32.to_bits(), y_bits: 6.0f32.to_bits() },
        max: Vec2Bits { x_bits: 50.0f32.to_bits(), y_bits: 60.0f32.to_bits() },
    };
    let mut clipped = plain_node(1);
    clipped.clip = Some(clip);

    let mut config = enabled_config();
    config.show_clipped = true;
    let out = run(&config, &vec![clipped], &cameras, Some(ui_camera));
    assert_eq!(out[0].clip, None);

    let config = enabled_config();
    let out = run(&config, &vec![clipped], &cameras, Some(ui_camera));
    assert_eq!(out[0].clip, Some(clip));

    let out = run(&config, &vec![plain_node(2)], &cameras, Some(ui_camera));
    assert_eq!(out[0].clip, None);
}

#[test]
fn border_thickness_scales_with_the_inverse_scale_factor() {
    let (cameras, ui_camera, _) = one_camera_map();
    let mut config = enabled_config();
    config.line_width = Scalar::from_units(2);
    let mut node = plain_node(1);
    node.inverse_scale_factor = Scalar::from_raw(65536 / 2);
    let out = run(&config, &vec![node], &cameras, Some(ui_camera));
    let border = out[0].border;
    assert_eq!(border.left, Scalar::from_units(4));
    assert_eq!(border.right, border.left);
    assert_eq!(border.top, border.left);
    assert_eq!(border.bottom, border.left);
}

#[test]
fn camera_fallback() {
    let (cameras, ui_camera, render_camera) = one_camera_map();
    let config = enabled_config();

    // No explicit camera, valid default: drawn with the resolved default.
    let out = run(&config, &vec![plain_node(1)], &cameras, Some(ui_camera));
    assert_eq!(out.len(), 1);
    assert_eq!(out[0].camera, render_camera);

    // No explicit camera, no default: skipped.
    let out = run(&config, &vec![plain_node(1)], &cameras, None);
    assert_eq!(out.len(), 0);

    // An explicit camera wins over the default.
    let mut cameras2 = CameraMap::new();
    cameras2.insert(40, 900);
    cameras2.insert(41, 901);
    let mut explicit = plain_node(1);
    explicit.camera = Some(41);
    let out = run(&config, &vec![explicit], &cameras2, Some(40));
    assert_eq!(out[0].camera, 901);

    // An explicit camera the map does not know: skipped, even with a valid
    // default on hand.
    let mut unknown = plain_node(1);
    unknown.camera = Some(77);
    let out = run(&config, &vec![unknown], &cameras, Some(ui_camera));
    assert_eq!(out.len(), 0);
}

#[test]
fn camera_map_resolution_is_first_match() {
    let mut cameras = CameraMap::new();
    cameras.insert(1, 10);
    cameras.insert(2, 20);
    cameras.insert(1, 11);
    assert_eq!(cameras.resolve(1), Some(10));
    assert_eq!(cameras.resolve(2), Some(20));
    assert_eq!(cameras.resolve(3), None);
}

#[test]
fn handles_are_allocated_in_sequence_for_kept_nodes_only() {
    let (cameras, ui_camera, _) = one_camera_map();
    let config = enabled_config();
    let mut hidden = plain_node(2);
    hidden.visible = false;
    let nodes = vec![plain_node(1), hidden, plain_node(3)];
    let mut alloc = RenderEntityAllocator::new(500);
    let out = extract_debug_overlay(&config, &nodes, &cameras, Some(ui_camera), &mut alloc);
    assert_eq!(out.len(), 2);
    assert_eq!(out[0].render_entity, 500);
    assert_eq!(out[1].render_entity, 501);
    assert_eq!(alloc.next, 502);
    assert_eq!(out[0].source_id, 1);
    assert_eq!(out[1].source_id, 3);
}

#[test]
fn end_to_end_scenario() {
    let (cameras, ui_camera, render_camera) = one_camera_map();
    let config = enabled_config();
    assert_eq!(config.line_width, Scalar::one());
    assert!(!config.show_hidden);
    assert!(!config.show_clipped);

    let size = Vec2Bits { x_bits: 100.0f32.to_bits(), y_bits: 50.0f32.to_bits() };
    let radius = BorderRadiusBits {
        top_left_bits: 4.0f32.to_bits(),
        top_right_bits: 0,
        bottom_left_bits: 0,
        bottom_right_bits: 2.0f32.to_bits(),
    };
    let mut transform = TransformBits { cells_bits: [0; 16] };
    transform.cells_bits[0] = 1.0f32.to_bits();
    let node = UiNodeSnapshot {
        id: 9,
        stack_index: 5,
        size,
        border_radius: radius,
        inverse_scale_factor: Scalar::one(),
        transform,
        clip: None,
        visible: true,
        camera: None,
    };

    let mut alloc = RenderEntityAllocator::new(0);
    let out = extract_debug_overlay(&config, &vec![node], &cameras, Some(ui_camera), &mut alloc);
    assert_eq!(out.len(), 1);
    let primitive = &out[0];
    assert_eq!(primitive.stack_index, 5 + u32::MAX / 2);
    assert_eq!(primitive.rect.min, Vec2Bits { x_bits: 0, y_bits: 0 });
    assert_eq!(primitive.rect.max, size);
    assert_eq!(primitive.border.left, Scalar::one());
    assert_eq!(primitive.border.right, Scalar::one());
    assert_eq!(primitive.border.top, Scalar::one());
    assert_eq!(primitive.border.bottom, Scalar::one());
    assert_eq!(primitive.clip, None);
    assert_eq!(primitive.camera, render_camera);
    assert_eq!(primitive.border_radius, radius);
    assert_eq!(primitive.transform, transform);
    assert_eq!(primitive.source_id, 9);
    assert_eq!(primitive.kind, NodeKind::Border);
    assert_eq!(alloc.next, 1);
}

#[test]
fn emission_order_follows_input_order() {
    let (cameras, ui_camera, _) = one_camera_map();
    let config = enabled_config();
    let mut first = plain_node(10);
    first.stack_index = 9;
    let mut second = plain_node(11);
    second.stack_index = 2;
    let out = run(&config, &vec![first, second], &cameras, Some(ui_camera));
    // Not re-sorted: input order is kept even when stacking indices descend.
    assert_eq!(out[0].source_id, 10);
    assert_eq!(out[1].source_id, 11);
}
