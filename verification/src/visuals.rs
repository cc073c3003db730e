//! How a gizmo looks.

use crate::scalar::Scalar;
use vstd::prelude::*;

verus! {

/// The pattern of `0.5`.
pub const DEFAULT_INACTIVE_ALPHA: u64 = 0x3fe0_0000_0000_0000;

/// The pattern of `0.9` to single precision.
pub const DEFAULT_HIGHLIGHT_ALPHA: u64 = 0x3fec_cccc_c000_0000;

/// The pattern of `4.0`.
pub const DEFAULT_STROKE_WIDTH: u64 = 0x4010_0000_0000_0000;

/// The pattern of `75.0`.
pub const DEFAULT_GIZMO_SIZE: u64 = 0x4052_c000_0000_0000;

/// A colour of 8 bits to the channel.
#[derive(Clone, Copy, Debug, PartialEq, Eq, Structural)]
pub struct Color {
    pub r: u8,
    pub g: u8,
    pub b: u8,
    pub a: u8,
}

impl Color {
    /// The opaque colour of the given channels.
    pub open spec fn spec_rgb(r: u8, g: u8, b: u8) -> Color {
        Color { r, g, b, a: 255 }
    }

    /// The opaque colour of the given channels.
    #[verifier::when_used_as_spec(spec_rgb)]
    pub fn rgb(r: u8, g: u8, b: u8) -> (c: Color)
        ensures
            c == Color::spec_rgb(r, g, b),
    {
        Color { r, g, b, a: 255 }
    }
}

/// Controls the visual style of the gizmo
#[derive(Clone, Copy, Debug, PartialEq, Eq)]
pub struct GizmoVisuals {
    /// Color of the x axis
    pub x_color: Color,
    /// Color of the y axis
    pub y_color: Color,
    /// Color of the z axis
    pub z_color: Color,
    /// Color of the forward axis
    pub s_color: Color,
    /// Alpha of the gizmo color when inactive
    pub inactive_alpha: Scalar,
    /// Alpha of the gizmo color when highlighted/active
    pub highlight_alpha: Scalar,
    /// Color to use for highlighted and active axes. By default, the axis color is used with `highlight_alpha`
    pub highlight_color: Option<Color>,
    /// Width (thickness) of the gizmo strokes
    pub stroke_width: Scalar,
    /// Gizmo size in pixels
    pub gizmo_size: Scalar,
}

impl GizmoVisuals {
    /// The visuals of a gizmo that was given none.
    pub open spec fn spec_default() -> GizmoVisuals {
        GizmoVisuals {
            x_color: Color::spec_rgb(255, 50, 0),
            y_color: Color::spec_rgb(50, 255, 0),
            z_color: Color::spec_rgb(0, 50, 255),
            s_color: Color::spec_rgb(255, 255, 255),
            inactive_alpha: Scalar { bits: DEFAULT_INACTIVE_ALPHA },
            highlight_alpha: Scalar { bits: DEFAULT_HIGHLIGHT_ALPHA },
            highlight_color: None,
            stroke_width: Scalar { bits: DEFAULT_STROKE_WIDTH },
            gizmo_size: Scalar { bits: DEFAULT_GIZMO_SIZE },
        }
    }
}

impl Default for GizmoVisuals {
    fn default() -> (v: Self)
        ensures
            v == GizmoVisuals::spec_default(),
    {
        Self {
            x_color: Color::rgb(255, 50, 0),
            y_color: Color::rgb(50, 255, 0),
            z_color: Color::rgb(0, 50, 255),
            s_color: Color::rgb(255, 255, 255),
            inactive_alpha: Scalar::from_bits(DEFAULT_INACTIVE_ALPHA),
            highlight_alpha: Scalar::from_bits(DEFAULT_HIGHLIGHT_ALPHA),
            highlight_color: None,
            stroke_width: Scalar::from_bits(DEFAULT_STROKE_WIDTH),
            gizmo_size: Scalar::from_bits(DEFAULT_GIZMO_SIZE),
        }
    }
}

} // verus!
