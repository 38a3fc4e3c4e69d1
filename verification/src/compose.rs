//! The compositor: dispatches on the watermark kind, computes layout, and
//! blends the watermark into the target raster in place.
//!
//! The raster is a plain RGBA8 buffer with straight alpha. The image path
//! runs here from decoded bytes to the blended result; the text path is
//! prepared here — resolved text, effective size and colors, font choice,
//! and draw passes — while the glyph rasterization itself is left to the
//! caller, which holds the measured text extent.

use vstd::prelude::*;

use crate::layout::{compute_position, scale_dim, spec_scale_dim, spec_x_position, spec_y_position};
use crate::metadata::ImageMetadata;
use crate::registry::WatermarkRenderer;
use crate::resolve::{is_blank, replace_metadata_placeholders, resolve_spec, spec_is_blank};
use crate::settings::{TextWatermarkSettings, WatermarkPosition, WatermarkSettings, WatermarkType};

verus! {

/// A mutable RGBA8 raster: four bytes per pixel, rows top to bottom.
#[derive(Debug, Clone)]
pub struct Raster {
    pub width: u32,
    pub height: u32,
    pub data: Vec<u8>,
}

impl Raster {
    /// The buffer holds exactly four bytes for every pixel.
    pub open spec fn wf(&self) -> bool {
        self.data@.len() == 4 * (self.width as nat) * (self.height as nat)
    }

    /// A fully transparent black raster of the given extent.
    pub fn new(width: u32, height: u32) -> (r: Raster)
        requires
            4 * (width as int) * (height as int) <= usize::MAX as int,
        ensures
            r.wf(),
            r.width == width,
            r.height == height,
            forall|j: int| 0 <= j < r.data@.len() ==> r.data@[j] == 0,
    {
        proof {
            assert((4 * (width as int)) * (height as int) == 4 * (width as int) * (height as int))
                by (nonlinear_arith);
        }
        let n: u64 = (4u64 * (width as u64)) * (height as u64);
        let count: usize = n as usize;
        let mut data: Vec<u8> = Vec::new();
        let mut j: usize = 0;
        while j < count
            invariant
                j <= count,
                data@.len() == j,
                forall|q: int| 0 <= q < j ==> data@[q] == 0,
            decreases count - j,
        {
            data.push(0);
            j = j + 1;
        }
        Raster { width, height, data }
    }
}

/// The failures the engine can surface, each naming its context.
#[derive(Debug, Clone)]
pub enum WatermarkError {
    /// A text watermark was requested and neither the requested family nor
    /// the `Arial` fallback is loaded; carries the requested family.
    FontUnavailable { family: String },
    /// The watermark image could not be read or decoded; carries its path.
    WatermarkLoadFailed { path: String },
}

/// A prepared text watermark: everything the caller needs to rasterize it,
/// short of the measured text extent.
#[derive(Debug, Clone)]
pub struct TextJob {
    /// Index of the chosen font in the renderer's registry.
    pub font_index: usize,
    /// The resolved (placeholder-substituted) text.
    pub text: String,
    /// Effective glyph scale in thousandths of a pixel.
    pub size_milli: u32,
    /// Main color, alpha already modulated by the opacity.
    pub color: [u8; 4],
    /// Whether a shadow pass precedes the main pass.
    pub shadow: bool,
    /// Shadow color, alpha already modulated by the opacity.
    pub shadow_color: [u8; 4],
    pub shadow_offset_x: i32,
    pub shadow_offset_y: i32,
}

/// One rasterization pass of the text path.
#[derive(Debug, Clone, Copy)]
pub struct DrawPass {
    pub x: i32,
    pub y: i32,
    pub color: [u8; 4],
}

/// What a call to the engine did.
#[derive(Debug)]
pub enum ApplyOutcome {
    /// The raster was deliberately left untouched.
    Unchanged,
    /// An image watermark was composited into the raster.
    ImageApplied,
    /// A text watermark is prepared; the caller measures and draws it.
    TextReady(TextJob),
}

/// An alpha byte scaled by `opacity` thousandths, rounded half-up.
pub open spec fn spec_mod_alpha(a: int, opacity: int) -> int {
    (a * opacity + 500) / 1000
}

/// `data` with every alpha byte scaled by `opacity` thousandths, rounded
/// half-up, and every color byte kept.
pub open spec fn spec_modulated_data(data: Seq<u8>, opacity: int) -> Seq<u8> {
    Seq::new(
        data.len(),
        |j: int|
            if j % 4 == 3 {
                spec_mod_alpha(data[j] as int, opacity) as u8
            } else {
                data[j]
            },
    )
}

/// The raster that `image` decodes `bytes` to, if any: decoding is a
/// function of the bytes alone.
pub uninterp spec fn spec_decode(bytes: Seq<u8>) -> Option<Raster>;

/// Relies on `image::load_from_memory` and the RGBA8 conversion: decodes
/// the bytes into a raster holding exactly four bytes per pixel, and fails
/// exactly when the bytes are not a decodable image.
#[verifier::external_body]
fn decode_image_bytes(bytes: &Vec<u8>) -> (r: Option<Raster>)
    ensures
        r == spec_decode(bytes@),
        r matches Some(img) ==> img.wf(),
{
    match image::load_from_memory(bytes.as_slice()) {
        Ok(img) => {
            let rgba = img.to_rgba8();
            let (w, h) = rgba.dimensions();
            Some(Raster { width: w, height: h, data: rgba.into_raw() })
        },
        Err(_) => None,
    }
}

/// The RGBA8 data of `image`'s Lanczos-3 resample of a raster to exactly
/// the new extent: a function of its arguments alone.
pub uninterp spec fn resample_data(
    data: Seq<u8>,
    width: nat,
    height: nat,
    new_width: nat,
    new_height: nat,
) -> Seq<u8>;

/// Relies on `image::DynamicImage::resize_exact` with the Lanczos-3
/// filter: the raster is resampled to exactly the requested extent, again
/// four bytes per pixel.
#[verifier::external_body]
fn resize_lanczos(img: &Raster, new_width: u32, new_height: u32) -> (r: Raster)
    requires
        img.wf(),
        img.width >= 1,
        img.height >= 1,
        new_width >= 1,
        new_height >= 1,
    ensures
        r.wf(),
        r.width == new_width,
        r.height == new_height,
        r.data@ == resample_data(
            img.data@,
            img.width as nat,
            img.height as nat,
            new_width as nat,
            new_height as nat,
        ),
{
    let buf = image::RgbaImage::from_raw(img.width, img.height, img.data.clone()).unwrap();
    let scaled = image::DynamicImage::ImageRgba8(buf).resize_exact(
        new_width,
        new_height,
        image::imageops::FilterType::Lanczos3,
    );
    let rgba = scaled.to_rgba8();
    let (w, h) = rgba.dimensions();
    Raster { width: w, height: h, data: rgba.into_raw() }
}

/// The RGBA8 data of `image`'s blend of a top raster over a base raster at
/// `(x, y)`: a function of its arguments alone.
pub uninterp spec fn overlay_data(
    base: Seq<u8>,
    base_width: nat,
    base_height: nat,
    top: Seq<u8>,
    top_width: nat,
    top_height: nat,
    x: int,
    y: int,
) -> Seq<u8>;

/// Relies on `image::imageops::overlay`: blends `top` over `base` at
/// `(x, y)` with Porter-Duff source-over on straight alpha, clipping at
/// the edges. It writes only inside the overlay rectangle, its pixel blend
/// leaves the lower pixel exactly unchanged when the upper alpha is zero,
/// and the base extent never changes. (The blended byte values themselves
/// come from the crate's floating-point arithmetic and are only named, not
/// stated.)
#[verifier::external_body]
fn overlay_raster(base: &mut Raster, top: &Raster, x: i64, y: i64)
    requires
        old(base).wf(),
        top.wf(),
    ensures
        final(base).width == old(base).width,
        final(base).height == old(base).height,
        final(base).wf(),
        final(base).data@ == overlay_data(
            old(base).data@,
            old(base).width as nat,
            old(base).height as nat,
            top.data@,
            top.width as nat,
            top.height as nat,
            x as int,
            y as int,
        ),
        forall|j: int|
            0 <= j < old(base).data@.len() && !((x as int) <= (j / 4) % (old(base).width as int)
                < (x as int) + top.width && (y as int) <= (j / 4) / (old(base).width as int) < (
            y as int) + top.height) ==> final(base).data@[j] == old(base).data@[j],
        (forall|j: int| 0 <= j < top.data@.len() && j % 4 == 3 ==> top.data@[j] == 0)
            ==> final(base).data@ == old(base).data@,
{
    let mut b = image::RgbaImage::from_raw(base.width, base.height, base.data.clone()).unwrap();
    let t = image::RgbaImage::from_raw(top.width, top.height, top.data.clone()).unwrap();
    image::imageops::overlay(&mut b, &t, x, y);
    base.data = b.into_raw();
}

/// A copy of `src` whose alpha bytes are scaled by `opacity` thousandths,
/// rounded half-up; color bytes are untouched.
pub fn modulate_alpha(src: &Raster, opacity: u32) -> (m: Raster)
    requires
        src.wf(),
        opacity <= 1000,
    ensures
        m.width == src.width,
        m.height == src.height,
        m.wf(),
        m.data@.len() == src.data@.len(),
        m.data@ == spec_modulated_data(src.data@, opacity as int),
        forall|q: int|
            0 <= q < m.data@.len() && q % 4 == 3 ==> m.data@[q] == spec_mod_alpha(
                src.data@[q] as int,
                opacity as int,
            ),
        forall|q: int| 0 <= q < m.data@.len() && q % 4 != 3 ==> m.data@[q] == src.data@[q],
{
    let mut out: Vec<u8> = Vec::new();
    let mut j: usize = 0;
    while j < src.data.len()
        invariant
            j <= src.data@.len(),
            out@.len() == j,
            opacity <= 1000,
            forall|q: int|
                0 <= q < j && q % 4 == 3 ==> out@[q] == spec_mod_alpha(
                    src.data@[q] as int,
                    opacity as int,
                ),
            forall|q: int| 0 <= q < j && q % 4 != 3 ==> out@[q] == src.data@[q],
        decreases src.data@.len() - j,
    {
        let b = src.data[j];
        if j % 4 == 3 {
            proof {
                assert((b as int) * (opacity as int) <= 255 * 1000) by (nonlinear_arith)
                    requires
                        b <= 255,
                        opacity <= 1000,
                ;
            }
            let v: u32 = (b as u32) * opacity + 500;
            let a: u32 = v / 1000;
            out.push(a as u8);
        } else {
            out.push(b);
        }
        j = j + 1;
    }
    proof {
        assert forall|q: int|
            0 <= q < out@.len() implies out@[q] == spec_modulated_data(
            src.data@,
            opacity as int,
        )[q] by {
            if q % 4 == 3 {
                assert(out@[q] == spec_mod_alpha(src.data@[q] as int, opacity as int));
            }
        }
        assert(out@ =~= spec_modulated_data(src.data@, opacity as int));
    }
    Raster { width: src.width, height: src.height, data: out }
}

/// A color with its alpha scaled by `opacity` thousandths, rounded half-up.
pub fn modulate_color(c: &[u8; 4], opacity: u32) -> (r: [u8; 4])
    requires
        opacity <= 1000,
    ensures
        r@[0] == c@[0],
        r@[1] == c@[1],
        r@[2] == c@[2],
        r@[3] == spec_mod_alpha(c@[3] as int, opacity as int),
{
    let a0 = c[3];
    proof {
        assert((a0 as int) * (opacity as int) <= 255 * 1000) by (nonlinear_arith)
            requires
                a0 <= 255,
                opacity <= 1000,
        ;
    }
    let v: u32 = (a0 as u32) * opacity + 500;
    let a: u32 = v / 1000;
    [c[0], c[1], c[2], a as u8]
}

/// `v` narrowed to an `i32` coordinate, saturating at the largest `i32`.
pub fn u32_to_i32_sat(v: u32) -> (r: i32)
    ensures
        r as int == if v as int > i32::MAX as int {
            i32::MAX as int
        } else {
            v as int
        },
        r >= 0,
{
    if v > 0x7fff_ffff {
        i32::MAX
    } else {
        v as i32
    }
}

/// Whether a prepared text job is exactly what the configuration, metadata
/// and registry call for: resolved text, the looked-up font with its
/// `Arial` fallback, the scaled glyph size, and opacity-modulated colors.
pub open spec fn text_job_matches(
    job: TextJob,
    renderer: WatermarkRenderer,
    settings: WatermarkSettings,
    ts: TextWatermarkSettings,
    m: ImageMetadata,
    filename: Seq<char>,
) -> bool {
    &&& job.text@ == resolve_spec(ts.text@, m, filename)
    &&& job.font_index < renderer.fonts@.len()
    &&& (renderer.has_family(ts.font_family@) ==> renderer.fonts@[job.font_index as int].family@
        == ts.font_family@)
    &&& (!renderer.has_family(ts.font_family@) ==> renderer.fonts@[job.font_index as int].family@
        == "Arial"@)
    &&& job.size_milli as nat == spec_scale_dim(
        ts.font_size_milli as nat,
        settings.spec_scale_clamped() as nat,
    )
    &&& job.color@[0] == ts.color@[0]
    &&& job.color@[1] == ts.color@[1]
    &&& job.color@[2] == ts.color@[2]
    &&& job.color@[3] == spec_mod_alpha(ts.color@[3] as int, settings.spec_opacity_clamped())
    &&& job.shadow == ts.shadow
    &&& job.shadow_color@[0] == ts.shadow_color@[0]
    &&& job.shadow_color@[1] == ts.shadow_color@[1]
    &&& job.shadow_color@[2] == ts.shadow_color@[2]
    &&& job.shadow_color@[3] == spec_mod_alpha(
        ts.shadow_color@[3] as int,
        settings.spec_opacity_clamped(),
    )
    &&& job.shadow_offset_x == ts.shadow_offset_x
    &&& job.shadow_offset_y == ts.shadow_offset_y
}

/// The raster data after a successful image-watermark pass over `base`
/// with decoded watermark `wm`: the watermark is resampled to the clamped
/// scale's extent (truncating; a zero extent is lifted to one pixel, as the
/// resampler requires), its alpha is modulated by the clamped opacity, and
/// the result is blended in at the laid-out position, which is computed
/// from the truncated extent.
pub open spec fn spec_image_result(base: Raster, settings: WatermarkSettings, wm: Raster) -> Seq<
    u8,
> {
    let sw = spec_scale_dim(wm.width as nat, settings.spec_scale_clamped() as nat);
    let sh = spec_scale_dim(wm.height as nat, settings.spec_scale_clamped() as nat);
    let rw = if sw == 0 {
        1nat
    } else {
        sw
    };
    let rh = if sh == 0 {
        1nat
    } else {
        sh
    };
    let rs = resample_data(wm.data@, wm.width as nat, wm.height as nat, rw, rh);
    let md = spec_modulated_data(rs, settings.spec_opacity_clamped());
    let ox = spec_x_position(
        settings.position.horizontal,
        base.width as int,
        if sw > i32::MAX as nat {
            i32::MAX as int
        } else {
            sw as int
        },
        settings.position.margin_x as int,
    );
    let oy = spec_y_position(
        settings.position.vertical,
        base.height as int,
        if sh > i32::MAX as nat {
            i32::MAX as int
        } else {
            sh as int
        },
        settings.position.margin_y as int,
    );
    overlay_data(base.data@, base.width as nat, base.height as nat, md, rw, rh, ox, oy)
}

impl WatermarkRenderer {
    /// Places a text extent on the image; see `compute_position`.
    pub fn calculate_text_position(
        &self,
        img_width: i32,
        img_height: i32,
        text_width: i32,
        text_height: i32,
        position: &WatermarkPosition,
    ) -> (r: (i32, i32))
        requires
            0 <= img_width,
            0 <= img_height,
            0 <= text_width,
            0 <= text_height,
        ensures
            r.0 == spec_x_position(
                position.horizontal,
                img_width as int,
                text_width as int,
                position.margin_x as int,
            ),
            r.1 == spec_y_position(
                position.vertical,
                img_height as int,
                text_height as int,
                position.margin_y as int,
            ),
            r.0 >= 0,
            r.1 >= 0,
    {
        compute_position(img_width, img_height, text_width, text_height, position)
    }

    /// Places a watermark-image extent on the image; see `compute_position`.
    pub fn calculate_image_position(
        &self,
        img_width: i32,
        img_height: i32,
        watermark_width: i32,
        watermark_height: i32,
        position: &WatermarkPosition,
    ) -> (r: (i32, i32))
        requires
            0 <= img_width,
            0 <= img_height,
            0 <= watermark_width,
            0 <= watermark_height,
        ensures
            r.0 == spec_x_position(
                position.horizontal,
                img_width as int,
                watermark_width as int,
                position.margin_x as int,
            ),
            r.1 == spec_y_position(
                position.vertical,
                img_height as int,
                watermark_height as int,
                position.margin_y as int,
            ),
            r.0 >= 0,
            r.1 >= 0,
    {
        compute_position(img_width, img_height, watermark_width, watermark_height, position)
    }

    /// Prepares the text path: resolves the template, skips when it trims
    /// to nothing, looks up the font with the `Arial` fallback, and scales
    /// size and colors. Fails exactly when text is to be drawn and no font
    /// matches.
    pub fn prepare_text_watermark(
        &self,
        settings: &WatermarkSettings,
        text_settings: &TextWatermarkSettings,
        metadata: &ImageMetadata,
        filename: &str,
    ) -> (r: Result<Option<TextJob>, WatermarkError>)
        ensures
            spec_is_blank(resolve_spec(text_settings.text@, *metadata, filename@)) ==> (r matches
                Ok(o) && o is None),
            !spec_is_blank(resolve_spec(text_settings.text@, *metadata, filename@)) && !(
            self.has_family(text_settings.font_family@) || self.has_family("Arial"@)) ==> (
            r matches Err(e) && (e matches WatermarkError::FontUnavailable { family } && family@
                == text_settings.font_family@)),
            !spec_is_blank(resolve_spec(text_settings.text@, *metadata, filename@)) && (
            self.has_family(text_settings.font_family@) || self.has_family("Arial"@)) ==> (
            r matches Ok(o) && (o matches Some(job) && text_job_matches(
                job,
                *self,
                *settings,
                *text_settings,
                *metadata,
                filename@,
            ))),
    {
        let resolved = replace_metadata_placeholders(
            text_settings.text.as_str(),
            metadata,
            filename,
        );
        if is_blank(resolved.as_str()) {
            return Ok(None);
        }
        match self.lookup_index(&text_settings.font_family) {
            None => Err(
                WatermarkError::FontUnavailable { family: text_settings.font_family.clone() },
            ),
            Some(idx) => {
                let om = settings.opacity_clamped();
                let sm = settings.scale_clamped();
                let size = scale_dim(text_settings.font_size_milli, sm);
                let color = modulate_color(&text_settings.color, om);
                let shadow_color = modulate_color(&text_settings.shadow_color, om);
                Ok(
                    Some(
                        TextJob {
                            font_index: idx,
                            text: resolved,
                            size_milli: size,
                            color,
                            shadow: text_settings.shadow,
                            shadow_color,
                            shadow_offset_x: text_settings.shadow_offset_x,
                            shadow_offset_y: text_settings.shadow_offset_y,
                        },
                    ),
                )
            },
        }
    }

    /// The image path: decodes the watermark bytes, scales the extent by
    /// the clamped scale (truncating), resamples, modulates alpha by the
    /// clamped opacity, places the result, and blends it in, clipped at the
    /// edges. Fails exactly when the bytes do not decode to a usable image,
    /// names the offending path in the error, and never touches the raster
    /// on failure.
    pub fn apply_image_watermark(
        &self,
        image: &mut Raster,
        settings: &WatermarkSettings,
        watermark_path: &String,
        watermark_bytes: &Vec<u8>,
    ) -> (r: Result<(), WatermarkError>)
        requires
            old(image).wf(),
            old(image).width as int <= i32::MAX as int,
            old(image).height as int <= i32::MAX as int,
        ensures
            final(image).wf(),
            final(image).width == old(image).width,
            final(image).height == old(image).height,
            r matches Err(e) ==> (e matches WatermarkError::WatermarkLoadFailed { path } && path@
                == watermark_path@ && final(image).data@ == old(image).data@),
            r is Err <==> (spec_decode(watermark_bytes@) is None || (spec_decode(watermark_bytes@)
                matches Some(wm) && (wm.width == 0 || wm.height == 0))),
            spec_decode(watermark_bytes@) matches Some(wm) ==> (wm.width > 0 && wm.height > 0
                ==> (r is Ok && final(image).data@ == spec_image_result(
                *old(image),
                *settings,
                wm,
            ))),
            settings.spec_opacity_clamped() == 0 ==> final(image).data@ == old(image).data@,
    {
        let decoded = decode_image_bytes(watermark_bytes);
        match decoded {
            None => Err(WatermarkError::WatermarkLoadFailed { path: watermark_path.clone() }),
            Some(wm) => {
                if wm.width == 0 || wm.height == 0 {
                    return Err(
                        WatermarkError::WatermarkLoadFailed { path: watermark_path.clone() },
                    );
                }
                let sm = settings.scale_clamped();
                let om = settings.opacity_clamped();
                let scaled_width = scale_dim(wm.width, sm);
                let scaled_height = scale_dim(wm.height, sm);
                let resample_width: u32 = if scaled_width == 0 {
                    1
                } else {
                    scaled_width
                };
                let resample_height: u32 = if scaled_height == 0 {
                    1
                } else {
                    scaled_height
                };
                let scaled = resize_lanczos(&wm, resample_width, resample_height);
                let modulated = modulate_alpha(&scaled, om);
                let (x, y) = self.calculate_image_position(
                    image.width as i32,
                    image.height as i32,
                    u32_to_i32_sat(scaled_width),
                    u32_to_i32_sat(scaled_height),
                    &settings.position,
                );
                proof {
                    if settings.spec_opacity_clamped() == 0 {
                        assert(forall|q: int|
                            0 <= q < modulated.data@.len() && q % 4 == 3 ==> modulated.data@[q]
                                == 0);
                    }
                }
                overlay_raster(image, &modulated, x as i64, y as i64);
                proof {
                    assert(image.data@ == spec_image_result(*old(image), *settings, wm));
                }
                Ok(())
            },
        }
    }

    /// The engine's entry point. Disabled settings and missing required
    /// inputs leave the raster byte-identical; the image path composites in
    /// place; the text path hands back a prepared job and leaves the raster
    /// untouched here.
    pub fn apply_watermark(
        &self,
        image: &mut Raster,
        settings: &WatermarkSettings,
        metadata: &ImageMetadata,
        filename: &str,
        watermark_bytes: Option<&Vec<u8>>,
    ) -> (r: Result<ApplyOutcome, WatermarkError>)
        requires
            old(image).wf(),
            old(image).width as int <= i32::MAX as int,
            old(image).height as int <= i32::MAX as int,
        ensures
            final(image).wf(),
            final(image).width == old(image).width,
            final(image).height == old(image).height,
            !settings.enabled ==> (r matches Ok(o) && o is Unchanged && final(image).data@ == old(
                image,
            ).data@),
            settings.watermark_type is Text ==> final(image).data@ == old(image).data@,
            settings.enabled && settings.watermark_type is Text && settings.text_settings is None
                ==> (r matches Ok(o) && o is Unchanged),
            settings.enabled && settings.watermark_type is Text ==> (settings.text_settings
                matches Some(ts) ==> ((self.fonts@.len() == 0 ==> (r matches Ok(o) && o
                is Unchanged)) && (self.fonts@.len() > 0 && spec_is_blank(
                resolve_spec(ts.text@, *metadata, filename@),
            ) ==> (r matches Ok(o) && o is Unchanged)) && (self.fonts@.len() > 0 && !spec_is_blank(
                resolve_spec(ts.text@, *metadata, filename@),
            ) && !(self.has_family(ts.font_family@) || self.has_family("Arial"@)) ==> (r matches
                Err(e) && (e matches WatermarkError::FontUnavailable { family } && family@
                == ts.font_family@))) && (self.fonts@.len() > 0
                && !spec_is_blank(resolve_spec(ts.text@, *metadata, filename@)) && (
            self.has_family(ts.font_family@) || self.has_family("Arial"@)) ==> (r matches Ok(o)
                && (o matches ApplyOutcome::TextReady(job) && text_job_matches(
                job,
                *self,
                *settings,
                ts,
                *metadata,
                filename@,
            )))))),
            settings.enabled && settings.watermark_type is Image && settings.image_path is None
                ==> (r matches Ok(o) && o is Unchanged && final(image).data@ == old(image).data@),
            settings.enabled && settings.watermark_type is Image ==> (settings.image_path matches
                Some(p) ==> ((watermark_bytes is None ==> (r matches Err(e) && (e matches
                WatermarkError::WatermarkLoadFailed { path } && path@ == p@) && final(image).data@
                == old(image).data@)) && (watermark_bytes matches Some(b) ==> ((r is Err <==> (
            spec_decode(b@) is None || (spec_decode(b@) matches Some(wm) && (wm.width == 0
                || wm.height == 0)))) && (r matches Err(e) ==> (e matches
                WatermarkError::WatermarkLoadFailed { path } && path@ == p@ && final(image).data@
                == old(image).data@)) && (spec_decode(b@) matches Some(wm) ==> (wm.width > 0
                && wm.height > 0 ==> (r matches Ok(o) && o is ImageApplied && final(image).data@
                == spec_image_result(*old(image), *settings, wm)))))))),
            r is Err ==> final(image).data@ == old(image).data@,
            settings.spec_opacity_clamped() == 0 ==> final(image).data@ == old(image).data@,
    {
        if !settings.enabled {
            return Ok(ApplyOutcome::Unchanged);
        }
        match settings.watermark_type {
            WatermarkType::Text => {
                match &settings.text_settings {
                    None => Ok(ApplyOutcome::Unchanged),
                    Some(ts) => {
                        if self.fonts.len() == 0 {
                            return Ok(ApplyOutcome::Unchanged);
                        }
                        match self.prepare_text_watermark(settings, ts, metadata, filename) {
                            Err(e) => Err(e),
                            Ok(None) => Ok(ApplyOutcome::Unchanged),
                            Ok(Some(job)) => Ok(ApplyOutcome::TextReady(job)),
                        }
                    },
                }
            },
            WatermarkType::Image => {
                match &settings.image_path {
                    None => Ok(ApplyOutcome::Unchanged),
                    Some(path) => {
                        match watermark_bytes {
                            None => Err(
                                WatermarkError::WatermarkLoadFailed { path: path.clone() },
                            ),
                            Some(bytes) => {
                                match self.apply_image_watermark(image, settings, path, bytes) {
                                    Ok(_) => Ok(ApplyOutcome::ImageApplied),
                                    Err(e) => Err(e),
                                }
                            },
                        }
                    },
                }
            },
        }
    }
}

/// The rasterization passes for a prepared text job placed at `(x, y)`:
/// the shadow pass first, offset and in the shadow color, when enabled;
/// the main pass last.
pub fn text_draw_passes(job: &TextJob, x: i32, y: i32) -> (v: Vec<DrawPass>)
    requires
        job.shadow ==> i32::MIN <= x + job.shadow_offset_x <= i32::MAX,
        job.shadow ==> i32::MIN <= y + job.shadow_offset_y <= i32::MAX,
    ensures
        v@.len() == if job.shadow {
            2int
        } else {
            1int
        },
        job.shadow ==> v@[0].x == x + job.shadow_offset_x && v@[0].y == y + job.shadow_offset_y
            && v@[0].color@ == job.shadow_color@,
        v@[v@.len() - 1].x == x && v@[v@.len() - 1].y == y && v@[v@.len() - 1].color@
            == job.color@,
{
    let mut v: Vec<DrawPass> = Vec::new();
    if job.shadow {
        v.push(
            DrawPass {
                x: x + job.shadow_offset_x,
                y: y + job.shadow_offset_y,
                color: job.shadow_color,
            },
        );
    }
    v.push(DrawPass { x, y, color: job.color });
    v
}

} // verus!
