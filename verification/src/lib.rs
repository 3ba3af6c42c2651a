//! Debug-overlay extraction for a UI layout tree.
//!
//! Once per frame, the extractor walks a snapshot of the laid-out UI nodes,
//! keeps those that qualify under the current [`config::UiDebugOverlay`]
//! settings, and emits one border-outline draw primitive per kept node, with a
//! stacking index raised into the upper half of the index range so the
//! overlay always draws above ordinary UI content.

pub mod camera;
pub mod color;
pub mod config;
pub mod extract;
pub mod laws;
pub mod node;
pub mod scalar;

pub use camera::CameraMap;
pub use config::UiDebugOverlay;
pub use config::UiDebugOverlayPlugin;
pub use extract::RenderEntityAllocator;
pub use extract::extract_debug_overlay;
pub use node::ExtractedOverlayPrimitive;
pub use node::UiNodeSnapshot;
pub use scalar::Scalar;
