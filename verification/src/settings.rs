//! The watermark configuration record.
//!
//! Scale and opacity are carried as whole numbers of thousandths (a scale of
//! `1000` is 1.0), so their declared ranges — scale in [0.1, 2.0], opacity in
//! [0.0, 1.0] — and the clamping of out-of-range values are exact.

use vstd::prelude::*;
use vstd::string::StringExecFns;

verus! {

/// Which kind of watermark is drawn.
#[derive(Debug, Clone, Copy, PartialEq, Eq, Structural)]
pub enum WatermarkType {
    Text,
    Image,
}

/// Alignment of the watermark along the horizontal axis.
#[derive(Debug, Clone, Copy, PartialEq, Eq, Structural)]
pub enum HorizontalAlignment {
    Left,
    Center,
    Right,
}

/// Alignment of the watermark along the vertical axis.
#[derive(Debug, Clone, Copy, PartialEq, Eq, Structural)]
pub enum VerticalAlignment {
    Top,
    Center,
    Bottom,
}

/// Where the watermark is placed. Margins are in pixels from the named edge
/// and are ignored on a centered axis.
#[derive(Debug, Clone, Copy, PartialEq, Eq, Structural)]
pub struct WatermarkPosition {
    pub horizontal: HorizontalAlignment,
    pub vertical: VerticalAlignment,
    pub margin_x: i32,
    pub margin_y: i32,
}

/// Configuration of a text watermark. The font size is in thousandths of a
/// pixel; colors are RGBA with straight alpha.
#[derive(Debug, Clone)]
pub struct TextWatermarkSettings {
    /// Template text; may embed `{name}` placeholders.
    pub text: String,
    /// Font size in thousandths of a pixel, before the global scale applies.
    pub font_size_milli: u32,
    /// RGBA text color, straight alpha.
    pub color: [u8; 4],
    /// Logical font family resolved through the font registry.
    pub font_family: String,
    pub bold: bool,
    pub italic: bool,
    /// Whether a shadow pass is drawn behind the main text.
    pub shadow: bool,
    /// RGBA shadow color, straight alpha.
    pub shadow_color: [u8; 4],
    /// Pixel offset of the shadow pass relative to the main pass.
    pub shadow_offset_x: i32,
    pub shadow_offset_y: i32,
}

/// The top-level watermark configuration.
#[derive(Debug, Clone)]
pub struct WatermarkSettings {
    /// Master switch; when false the engine changes nothing.
    pub enabled: bool,
    pub watermark_type: WatermarkType,
    pub position: WatermarkPosition,
    /// Scale in thousandths; the declared range is 100 ..= 2000.
    pub scale_milli: u32,
    /// Opacity in thousandths; the declared range is 0 ..= 1000.
    pub opacity_milli: u32,
    /// Required when `watermark_type` is `Text`; its absence is a soft no-op.
    pub text_settings: Option<TextWatermarkSettings>,
    /// Required when `watermark_type` is `Image`; its absence is a soft no-op.
    pub image_path: Option<String>,
}

/// `v` forced into `lo ..= hi`.
pub open spec fn spec_clamp(v: int, lo: int, hi: int) -> int {
    if v < lo {
        lo
    } else if v > hi {
        hi
    } else {
        v
    }
}

/// `v` forced into `lo ..= hi`.
pub fn clamp_u32(v: u32, lo: u32, hi: u32) -> (r: u32)
    requires
        lo <= hi,
    ensures
        r == spec_clamp(v as int, lo as int, hi as int),
{
    if v < lo {
        lo
    } else if v > hi {
        hi
    } else {
        v
    }
}

impl WatermarkSettings {
    /// The scale after clamping to its declared range.
    pub open spec fn spec_scale_clamped(&self) -> int {
        spec_clamp(self.scale_milli as int, 100, 2000)
    }

    /// The opacity after clamping to its declared range.
    pub open spec fn spec_opacity_clamped(&self) -> int {
        spec_clamp(self.opacity_milli as int, 0, 1000)
    }

    /// The scale after clamping to its declared range.
    pub fn scale_clamped(&self) -> (r: u32)
        ensures
            r == self.spec_scale_clamped(),
            100 <= r <= 2000,
    {
        clamp_u32(self.scale_milli, 100, 2000)
    }

    /// The opacity after clamping to its declared range.
    pub fn opacity_clamped(&self) -> (r: u32)
        ensures
            r == self.spec_opacity_clamped(),
            r <= 1000,
    {
        clamp_u32(self.opacity_milli, 0, 1000)
    }
}

impl Default for WatermarkSettings {
    /// A disabled text watermark at the bottom-right corner: white text with
    /// a soft black shadow, full camera caption, scale 1.0, opacity 0.8.
    fn default() -> (d: WatermarkSettings)
        ensures
            !d.enabled,
            d.watermark_type == WatermarkType::Text,
            d.position == (WatermarkPosition {
                horizontal: HorizontalAlignment::Right,
                vertical: VerticalAlignment::Bottom,
                margin_x: 50,
                margin_y: 50,
            }),
            d.scale_milli == 1000,
            d.opacity_milli == 800,
            d.text_settings matches Some(t) && t.text@
                == "© {photographer} - {camera_make} {camera_model} - {focal_length}mm f/{aperture} {shutter_speed}s ISO{iso}"@
                && t.font_size_milli == 24000 && t.color@ =~= seq![255u8, 255u8, 255u8, 255u8]
                && t.font_family@ == "Arial"@ && !t.bold && !t.italic && t.shadow && t.shadow_color@
                =~= seq![0u8, 0u8, 0u8, 128u8] && t.shadow_offset_x == 1 && t.shadow_offset_y == 1,
            d.image_path is None,
    {
        WatermarkSettings {
            enabled: false,
            watermark_type: WatermarkType::Text,
            position: WatermarkPosition {
                horizontal: HorizontalAlignment::Right,
                vertical: VerticalAlignment::Bottom,
                margin_x: 50,
                margin_y: 50,
            },
            scale_milli: 1000,
            opacity_milli: 800,
            text_settings: Some(
                TextWatermarkSettings {
                    text: String::from_str(
                        "© {photographer} - {camera_make} {camera_model} - {focal_length}mm f/{aperture} {shutter_speed}s ISO{iso}",
                    ),
                    font_size_milli: 24000,
                    color: [255, 255, 255, 255],
                    font_family: String::from_str("Arial"),
                    bold: false,
                    italic: false,
                    shadow: true,
                    shadow_color: [0, 0, 0, 128],
                    shadow_offset_x: 1,
                    shadow_offset_y: 1,
                },
            ),
            image_path: None,
        }
    }
}

} // verus!
