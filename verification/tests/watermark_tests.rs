use std::io::Cursor;

use watermark::compose::{ApplyOutcome, Raster, WatermarkError};
use watermark::metadata::{ExifData, ImageMetadata};
use watermark::registry::{OsKind, WatermarkRenderer};
use watermark::resolve::replace_metadata_placeholders;
use watermark::settings::{
    HorizontalAlignment, TextWatermarkSettings, VerticalAlignment, WatermarkPosition,
    WatermarkSettings, WatermarkType,
};

fn empty_metadata() -> ImageMetadata {
    ImageMetadata { exif: None }
}

fn metadata_with(exif: ExifData) -> ImageMetadata {
    ImageMetadata { exif: Some(exif) }
}

fn text_settings(template: &str) -> TextWatermarkSettings {
    TextWatermarkSettings {
        text: String::from(template),
        font_size_milli: 24000,
        color: [255, 255, 255, 255],
        font_family: String::from("Arial"),
        bold: false,
        italic: false,
        shadow: false,
        shadow_color: [0, 0, 0, 128],
        shadow_offset_x: 1,
        shadow_offset_y: 1,
    }
}

fn image_settings(opacity_milli: u32, position: WatermarkPosition) -> WatermarkSettings {
    WatermarkSettings {
        enabled: true,
        watermark_type: WatermarkType::Image,
        position,
        scale_milli: 1000,
        opacity_milli,
        text_settings: None,
        image_path: Some(String::from("watermark.png")),
    }
}

fn corner_position() -> WatermarkPosition {
    WatermarkPosition {
        horizontal: HorizontalAlignment::Left,
        vertical: VerticalAlignment::Top,
        margin_x: 0,
        margin_y: 0,
    }
}

fn red_png_2x2() -> Vec<u8> {
    let img = image::RgbaImage::from_pixel(2, 2, image::Rgba([255, 0, 0, 255]));
    let mut bytes: Vec<u8> = Vec::new();
    image::DynamicImage::ImageRgba8(img)
        .write_to(&mut Cursor::new(&mut bytes), image::ImageFormat::Png)
        .unwrap();
    bytes
}

#[test]
fn shutter_formatting_fast() {
    let exif = ExifData {
        exposure_time_micro: Some(4000),
        ..ExifData::empty()
    };
    let r = replace_metadata_placeholders("{shutter_speed}s", &metadata_with(exif), "p.jpg");
    assert_eq!(r, "1/250s");
}

#[test]
fn shutter_formatting_slow() {
    let exif = ExifData {
        exposure_time_micro: Some(2_500_000),
        ..ExifData::empty()
    };
    let r = replace_metadata_placeholders("{shutter_speed}s", &metadata_with(exif), "p.jpg");
    assert_eq!(r, "2.5s");
}

#[test]
fn shutter_formatting_one_second_and_half() {
    let exif = ExifData {
        exposure_time_micro: Some(1_000_000),
        ..ExifData::empty()
    };
    let m = metadata_with(exif);
    assert_eq!(replace_metadata_placeholders("{shutter_speed}", &m, ""), "1.0");
    let exif_half = ExifData {
        exposure_time_micro: Some(500_000),
        ..ExifData::empty()
    };
    let m2 = metadata_with(exif_half);
    assert_eq!(replace_metadata_placeholders("{shutter_speed}", &m2, ""), "1/2");
}

#[test]
fn aperture_and_iso() {
    let exif = ExifData {
        f_number_micro: Some(2_800_000),
        iso: Some(400),
        ..ExifData::empty()
    };
    let r = replace_metadata_placeholders("f/{aperture} ISO{iso}", &metadata_with(exif), "p.jpg");
    assert_eq!(r, "f/2.8 ISO400");
}

#[test]
fn missing_field_resolves_empty() {
    let exif = ExifData {
        make: Some(String::from("Sony")),
        ..ExifData::empty()
    };
    let r = replace_metadata_placeholders(
        "{photographer} © {camera_make}",
        &metadata_with(exif),
        "p.jpg",
    );
    assert_eq!(r, " © Sony");
}

#[test]
fn focal_length_rounds_half_up() {
    let exif = ExifData {
        focal_length_micro: Some(33_500_000),
        ..ExifData::empty()
    };
    let r = replace_metadata_placeholders("{focal_length}mm", &metadata_with(exif), "");
    assert_eq!(r, "34mm");
}

#[test]
fn aperture_tie_rounds_half_up() {
    let exif = ExifData {
        f_number_micro: Some(1_250_000),
        ..ExifData::empty()
    };
    let r = replace_metadata_placeholders("{aperture}", &metadata_with(exif), "");
    assert_eq!(r, "1.3");
}

#[test]
fn verbatim_tokens_substituted() {
    let exif = ExifData {
        model: Some(String::from("A7")),
        lens_model: Some(String::from("FE 35mm")),
        date_time: Some(String::from("2024:01:01 00:00:00")),
        ..ExifData::empty()
    };
    let r = replace_metadata_placeholders(
        "{camera_model}|{lens_model}|{date_time}",
        &metadata_with(exif),
        "",
    );
    assert_eq!(r, "A7|FE 35mm|2024:01:01 00:00:00");
}

#[test]
fn adjacent_tokens_substituted() {
    let exif = ExifData {
        make: Some(String::from("X")),
        model: Some(String::from("Y")),
        ..ExifData::empty()
    };
    let r = replace_metadata_placeholders("{camera_make}{camera_model}", &metadata_with(exif), "");
    assert_eq!(r, "XY");
}

#[test]
fn zero_exposure_saturates() {
    let exif = ExifData {
        exposure_time_micro: Some(0),
        ..ExifData::empty()
    };
    let r = replace_metadata_placeholders("{shutter_speed}", &metadata_with(exif), "");
    assert_eq!(r, "1/2147483647");
}

#[test]
fn filename_substitution() {
    let r = replace_metadata_placeholders("file: {filename}", &empty_metadata(), "IMG_0001.jpg");
    assert_eq!(r, "file: IMG_0001.jpg");
}

#[test]
fn unrecognized_token_kept() {
    let r = replace_metadata_placeholders("{unknown} {camera_make}!", &empty_metadata(), "f");
    assert_eq!(r, "{unknown} !");
}

#[test]
fn literal_template_unchanged() {
    let exif = ExifData {
        make: Some(String::from("Sony")),
        artist: Some(String::from("Ada")),
        ..ExifData::empty()
    };
    let r = replace_metadata_placeholders("hello world", &metadata_with(exif), "p.jpg");
    assert_eq!(r, "hello world");
}

#[test]
fn resolution_idempotent_on_plain_values() {
    let exif = ExifData {
        make: Some(String::from("Canon")),
        iso: Some(200),
        ..ExifData::empty()
    };
    let m = metadata_with(exif);
    let once = replace_metadata_placeholders("{camera_make} ISO{iso} {photographer}", &m, "x");
    let twice = replace_metadata_placeholders(&once, &m, "x");
    assert_eq!(once, twice);
}

#[test]
fn bottom_right_placement() {
    let renderer = WatermarkRenderer::empty();
    let pos = WatermarkPosition {
        horizontal: HorizontalAlignment::Right,
        vertical: VerticalAlignment::Bottom,
        margin_x: 50,
        margin_y: 50,
    };
    let (x, y) = renderer.calculate_text_position(1000, 800, 200, 30, &pos);
    assert_eq!((x, y), (750, 720));
}

#[test]
fn centered_overlay_placement() {
    let renderer = WatermarkRenderer::empty();
    let pos = WatermarkPosition {
        horizontal: HorizontalAlignment::Center,
        vertical: VerticalAlignment::Center,
        margin_x: 50,
        margin_y: 50,
    };
    let (x, y) = renderer.calculate_image_position(1000, 800, 300, 100, &pos);
    assert_eq!((x, y), (350, 350));
}

#[test]
fn position_clamped_at_zero() {
    let renderer = WatermarkRenderer::empty();
    let pos = WatermarkPosition {
        horizontal: HorizontalAlignment::Right,
        vertical: VerticalAlignment::Top,
        margin_x: 500,
        margin_y: -7,
    };
    let (x, y) = renderer.calculate_text_position(100, 100, 50, 50, &pos);
    assert_eq!((x, y), (0, 0));
}

#[test]
fn disabled_pass_through() {
    let renderer = WatermarkRenderer::empty();
    let mut settings = WatermarkSettings::default();
    settings.watermark_type = WatermarkType::Image;
    settings.image_path = Some(String::from("watermark.png"));
    assert!(!settings.enabled);
    let mut raster = Raster::new(10, 10);
    for (i, b) in raster.data.iter_mut().enumerate() {
        *b = (i % 251) as u8;
    }
    let before = raster.data.clone();
    let bytes = red_png_2x2();
    let outcome = renderer
        .apply_watermark(&mut raster, &settings, &empty_metadata(), "p.jpg", Some(&bytes))
        .unwrap();
    assert!(matches!(outcome, ApplyOutcome::Unchanged));
    assert_eq!(raster.data, before);
}

#[test]
fn image_watermark_blended_top_left() {
    let renderer = WatermarkRenderer::empty();
    let settings = image_settings(1000, corner_position());
    let mut raster = Raster::new(8, 8);
    let bytes = red_png_2x2();
    let outcome = renderer
        .apply_watermark(&mut raster, &settings, &empty_metadata(), "p.jpg", Some(&bytes))
        .unwrap();
    assert!(matches!(outcome, ApplyOutcome::ImageApplied));
    assert_eq!(raster.width, 8);
    assert_eq!(raster.height, 8);
    assert_eq!(&raster.data[0..4], &[255, 0, 0, 255]);
    // The pixel at (4, 4) lies outside the 2x2 overlay and stays untouched.
    let off: usize = 4 * (4 * 8 + 4);
    assert_eq!(&raster.data[off..off + 4], &[0, 0, 0, 0]);
}

#[test]
fn image_watermark_zero_opacity_unchanged() {
    let renderer = WatermarkRenderer::empty();
    let settings = image_settings(0, corner_position());
    let mut raster = Raster::new(8, 8);
    for (i, b) in raster.data.iter_mut().enumerate() {
        *b = (i % 17) as u8;
    }
    let before = raster.data.clone();
    let bytes = red_png_2x2();
    let outcome = renderer
        .apply_watermark(&mut raster, &settings, &empty_metadata(), "p.jpg", Some(&bytes))
        .unwrap();
    assert!(matches!(outcome, ApplyOutcome::ImageApplied));
    assert_eq!(raster.data, before);
}

#[test]
fn image_watermark_bad_bytes_fail() {
    let renderer = WatermarkRenderer::empty();
    let settings = image_settings(1000, corner_position());
    let mut raster = Raster::new(4, 4);
    let garbage = vec![1u8, 2, 3, 4, 5];
    let r = renderer.apply_watermark(&mut raster, &settings, &empty_metadata(), "p", Some(&garbage));
    match r.unwrap_err() {
        WatermarkError::WatermarkLoadFailed { path } => assert_eq!(path, "watermark.png"),
        e => panic!("unexpected error: {:?}", e),
    }
}

#[test]
fn image_watermark_missing_bytes_fail() {
    let renderer = WatermarkRenderer::empty();
    let settings = image_settings(1000, corner_position());
    let mut raster = Raster::new(4, 4);
    let r = renderer.apply_watermark(&mut raster, &settings, &empty_metadata(), "p", None);
    match r.unwrap_err() {
        WatermarkError::WatermarkLoadFailed { path } => assert_eq!(path, "watermark.png"),
        e => panic!("unexpected error: {:?}", e),
    }
}

#[test]
fn image_watermark_missing_path_is_soft_skip() {
    let renderer = WatermarkRenderer::empty();
    let mut settings = image_settings(1000, corner_position());
    settings.image_path = None;
    let mut raster = Raster::new(4, 4);
    let outcome = renderer
        .apply_watermark(&mut raster, &settings, &empty_metadata(), "p", None)
        .unwrap();
    assert!(matches!(outcome, ApplyOutcome::Unchanged));
}

#[test]
fn text_watermark_without_fonts_is_soft_skip() {
    let renderer = WatermarkRenderer::empty();
    let mut settings = WatermarkSettings::default();
    settings.enabled = true;
    settings.text_settings = Some(text_settings("hello"));
    let mut raster = Raster::new(4, 4);
    let before = raster.data.clone();
    let outcome = renderer
        .apply_watermark(&mut raster, &settings, &empty_metadata(), "p", None)
        .unwrap();
    assert!(matches!(outcome, ApplyOutcome::Unchanged));
    assert_eq!(raster.data, before);
}

#[test]
fn text_watermark_missing_settings_is_soft_skip() {
    let renderer = WatermarkRenderer::empty();
    let mut settings = WatermarkSettings::default();
    settings.enabled = true;
    settings.text_settings = None;
    let mut raster = Raster::new(4, 4);
    let outcome = renderer
        .apply_watermark(&mut raster, &settings, &empty_metadata(), "p", None)
        .unwrap();
    assert!(matches!(outcome, ApplyOutcome::Unchanged));
}

#[test]
fn blank_resolution_skips_before_font_lookup() {
    let renderer = WatermarkRenderer::empty();
    let settings = WatermarkSettings::default();
    let ts = text_settings("  {camera_make}  ");
    let r = renderer
        .prepare_text_watermark(&settings, &ts, &empty_metadata(), "")
        .unwrap();
    assert!(r.is_none());
}

#[test]
fn missing_font_is_an_error() {
    let renderer = WatermarkRenderer::empty();
    let settings = WatermarkSettings::default();
    let ts = text_settings("hello");
    let r = renderer.prepare_text_watermark(&settings, &ts, &empty_metadata(), "");
    match r.unwrap_err() {
        WatermarkError::FontUnavailable { family } => assert_eq!(family, "Arial"),
        e => panic!("unexpected error: {:?}", e),
    }
}

#[test]
fn scale_and_opacity_clamped() {
    let mut settings = WatermarkSettings::default();
    settings.scale_milli = 5000;
    settings.opacity_milli = 2000;
    assert_eq!(settings.scale_clamped(), 2000);
    assert_eq!(settings.opacity_clamped(), 1000);
    settings.scale_milli = 50;
    assert_eq!(settings.scale_clamped(), 100);
}

#[test]
fn modulate_alpha_rounds_to_nearest() {
    let mut raster = Raster::new(1, 2);
    raster.data = vec![10, 20, 30, 128, 40, 50, 60, 255];
    let m = watermark::compose::modulate_alpha(&raster, 500);
    assert_eq!(m.data, vec![10, 20, 30, 64, 40, 50, 60, 128]);
}

#[test]
fn text_draw_passes_shadow_first() {
    let mut ts = text_settings("x");
    ts.shadow = true;
    ts.shadow_offset_x = 2;
    ts.shadow_offset_y = 3;
    let job = watermark::compose::TextJob {
        font_index: 0,
        text: String::from("x"),
        size_milli: 24000,
        color: [1, 2, 3, 4],
        shadow: true,
        shadow_color: [5, 6, 7, 8],
        shadow_offset_x: 2,
        shadow_offset_y: 3,
    };
    let passes = watermark::compose::text_draw_passes(&job, 10, 20);
    assert_eq!(passes.len(), 2);
    assert_eq!((passes[0].x, passes[0].y), (12, 23));
    assert_eq!(passes[0].color, [5, 6, 7, 8]);
    assert_eq!((passes[1].x, passes[1].y), (10, 20));
    assert_eq!(passes[1].color, [1, 2, 3, 4]);
}

#[test]
fn default_settings_match_expectations() {
    let d = WatermarkSettings::default();
    assert!(!d.enabled);
    assert!(matches!(d.watermark_type, WatermarkType::Text));
    assert_eq!(d.scale_milli, 1000);
    assert_eq!(d.opacity_milli, 800);
    assert_eq!(d.position.margin_x, 50);
    assert_eq!(d.position.margin_y, 50);
    let ts = d.text_settings.unwrap();
    assert_eq!(ts.font_family, "Arial");
    assert_eq!(ts.font_size_milli, 24000);
    assert!(ts.shadow);
    assert_eq!(ts.shadow_color, [0, 0, 0, 128]);
    assert!(d.image_path.is_none());
}

#[test]
fn linux_font_paths() {
    let paths = WatermarkRenderer::get_system_font_paths(OsKind::Linux);
    assert_eq!(paths.len(), 2);
    assert_eq!(paths[0].0, "Arial");
    assert_eq!(paths[1].0, "Default");
    assert_eq!(
        paths[0].1[0],
        "/usr/share/fonts/truetype/liberation/LiberationSans-Regular.ttf"
    );
    assert_eq!(paths[1].1[0], "/usr/share/fonts/truetype/dejavu/DejaVuSans.ttf");
}

#[test]
fn windows_font_paths() {
    let paths = WatermarkRenderer::get_system_font_paths(OsKind::Windows);
    assert_eq!(paths[0].1[0], "C:/Windows/Fonts/arial.ttf");
    assert_eq!(paths[1].1[1], "C:/Windows/Fonts/tahoma.ttf");
}

#[test]
fn registry_rejects_bad_font_data() {
    let mut renderer = WatermarkRenderer::empty();
    let ok = renderer.add_font_data(String::from("Arial"), vec![0u8, 1, 2, 3]);
    assert!(!ok);
    assert_eq!(renderer.font_count(), 0);
}

#[test]
fn image_scaled_down_only_touches_its_extent() {
    let renderer = WatermarkRenderer::empty();
    let mut settings = image_settings(1000, corner_position());
    settings.scale_milli = 500;
    let mut raster = Raster::new(8, 8);
    let bytes = red_png_2x2();
    let outcome = renderer
        .apply_watermark(&mut raster, &settings, &empty_metadata(), "p", Some(&bytes))
        .unwrap();
    assert!(matches!(outcome, ApplyOutcome::ImageApplied));
    // A 2x2 watermark at scale 0.5 becomes 1x1 at the top-left corner.
    assert_ne!(&raster.data[0..4], &[0, 0, 0, 0]);
    let off: usize = 4 * 1;
    assert_eq!(&raster.data[off..off + 4], &[0, 0, 0, 0]);
}
