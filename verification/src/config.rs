//! The overlay's runtime configuration and the plugin value that installs it.

use vstd::prelude::*;
use crate::scalar::Scalar;
use crate::scalar::SCALAR_UNIT;

verus! {

/// Runtime configuration of the UI debug overlay: one instance per running
/// application, read once per extraction pass.
#[derive(Clone, Copy, Debug, PartialEq, Eq)]
pub struct UiDebugOverlay {
    /// Master switch: when false, extraction is a no-op.
    pub enabled: bool,
    /// Width of the overlay's lines in logical pixels; divided by each node's
    /// inverse scale factor before use, so the visual thickness does not
    /// depend on the node's pixel density.
    pub line_width: Scalar,
    /// Show outlines for non-visible UI nodes.
    pub show_hidden: bool,
    /// Show outlines for clipped sections of UI nodes: when true, emitted
    /// primitives carry no clip rectangle at all.
    pub show_clipped: bool,
}

impl UiDebugOverlay {
    /// The configuration a fresh application starts with: disabled, with a
    /// one-pixel line width, hidden and clipped nodes not shown.
    pub open spec fn default_spec() -> UiDebugOverlay {
        UiDebugOverlay {
            enabled: false,
            line_width: Scalar { raw: SCALAR_UNIT },
            show_hidden: false,
            show_clipped: false,
        }
    }

    /// Flips the master switch and changes nothing else.
    pub fn toggle(&mut self)
        ensures
            final(self).enabled == !old(self).enabled,
            final(self).line_width == old(self).line_width,
            final(self).show_hidden == old(self).show_hidden,
            final(self).show_clipped == old(self).show_clipped,
    {
        self.enabled = !self.enabled;
    }
}

impl Default for UiDebugOverlay {
    fn default() -> (c: UiDebugOverlay)
        ensures
            c == UiDebugOverlay::default_spec(),
    {
        UiDebugOverlay {
            enabled: false,
            line_width: Scalar { raw: SCALAR_UNIT },
            show_hidden: false,
            show_clipped: false,
        }
    }
}

/// The plugin value a host application is built with: it carries the initial
/// overlay configuration to be installed at startup.
#[derive(Clone, Copy, Debug, PartialEq, Eq)]
pub struct UiDebugOverlayPlugin(pub UiDebugOverlay);

impl UiDebugOverlayPlugin {
    /// Start the app with the debug overlay disabled.
    pub fn start_disabled() -> (p: UiDebugOverlayPlugin)
        ensures
            p.0 == UiDebugOverlay::default_spec(),
    {
        UiDebugOverlayPlugin(Default::default())
    }

    /// Start the app with the debug overlay enabled.
    pub fn start_enabled() -> (p: UiDebugOverlayPlugin)
        ensures
            p.0.enabled == true,
            p.0.line_width.raw == SCALAR_UNIT,
            p.0.show_hidden == false,
            p.0.show_clipped == false,
    {
        UiDebugOverlayPlugin(UiDebugOverlay {
            enabled: true,
            line_width: Scalar { raw: SCALAR_UNIT },
            show_hidden: false,
            show_clipped: false,
        })
    }

    /// Set the debug overlay's line width in logical pixels.
    pub fn with_line_width(self, line_width: Scalar) -> (p: UiDebugOverlayPlugin)
        ensures
            p.0.line_width == line_width,
            p.0.enabled == self.0.enabled,
            p.0.show_hidden == self.0.show_hidden,
            p.0.show_clipped == self.0.show_clipped,
    {
        let mut config = self.0;
        config.line_width = line_width;
        UiDebugOverlayPlugin(config)
    }
}

impl Default for UiDebugOverlayPlugin {
    fn default() -> (p: UiDebugOverlayPlugin)
        ensures
            p.0 == UiDebugOverlay::default_spec(),
    {
        UiDebugOverlayPlugin(Default::default())
    }
}

} // verus!
