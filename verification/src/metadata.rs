//! The photographic metadata record that drives placeholder substitution.
//!
//! Every entry is optional; an absent entry makes its placeholder resolve to
//! the empty string. Real-valued entries are carried as whole numbers of
//! millionths of their unit (seconds, f-stops, millimetres), which keeps the
//! formatting rules exact.

use vstd::prelude::*;

use crate::numfmt::{dec_seq, shutter_seq, tenths_seq, unit_seq};

verus! {

/// The EXIF entries that placeholders may draw from.
#[derive(Debug, Clone)]
pub struct ExifData {
    /// Camera maker, substituted verbatim for `{camera_make}`.
    pub make: Option<String>,
    /// Camera model, substituted verbatim for `{camera_model}`.
    pub model: Option<String>,
    /// Lens model, substituted verbatim for `{lens_model}`.
    pub lens_model: Option<String>,
    /// F-number in millionths of an f-stop, for `{aperture}`.
    pub f_number_micro: Option<u64>,
    /// Exposure time in millionths of a second, for `{shutter_speed}`.
    pub exposure_time_micro: Option<u64>,
    /// Sensitivity, for `{iso}`.
    pub iso: Option<u64>,
    /// Focal length in millionths of a millimetre, for `{focal_length}`.
    pub focal_length_micro: Option<u64>,
    /// Capture time, substituted verbatim for `{date_time}`.
    pub date_time: Option<String>,
    /// Photographer, substituted verbatim for `{photographer}`.
    pub artist: Option<String>,
}

/// The metadata handed to the engine: an optional EXIF sub-record.
#[derive(Debug, Clone)]
pub struct ImageMetadata {
    pub exif: Option<ExifData>,
}

impl ExifData {
    /// An EXIF record with every entry absent.
    pub fn empty() -> (r: ExifData)
        ensures
            r.make is None,
            r.model is None,
            r.lens_model is None,
            r.f_number_micro is None,
            r.exposure_time_micro is None,
            r.iso is None,
            r.focal_length_micro is None,
            r.date_time is None,
            r.artist is None,
    {
        ExifData {
            make: None,
            model: None,
            lens_model: None,
            f_number_micro: None,
            exposure_time_micro: None,
            iso: None,
            focal_length_micro: None,
            date_time: None,
            artist: None,
        }
    }
}

/// What a verbatim string entry contributes: its characters when present,
/// nothing otherwise.
pub open spec fn verbatim_value(v: Option<String>) -> Seq<char> {
    match v {
        Some(s) => s@,
        None => Seq::empty(),
    }
}

/// What a formatted numeric entry contributes: `fmt` applied to the carried
/// millionths when present, nothing otherwise.
pub open spec fn formatted_value(v: Option<u64>, fmt: spec_fn(nat) -> Seq<char>) -> Seq<char> {
    match v {
        Some(n) => fmt(n as nat),
        None => Seq::empty(),
    }
}

/// The aperture text of a metadata record.
pub open spec fn aperture_value(m: ImageMetadata) -> Seq<char> {
    match m.exif {
        Some(e) => formatted_value(e.f_number_micro, |n: nat| tenths_seq(n)),
        None => Seq::empty(),
    }
}

/// The shutter-speed text of a metadata record.
pub open spec fn shutter_value(m: ImageMetadata) -> Seq<char> {
    match m.exif {
        Some(e) => formatted_value(e.exposure_time_micro, |n: nat| shutter_seq(n)),
        None => Seq::empty(),
    }
}

/// The sensitivity text of a metadata record.
pub open spec fn iso_value(m: ImageMetadata) -> Seq<char> {
    match m.exif {
        Some(e) => formatted_value(e.iso, |n: nat| dec_seq(n)),
        None => Seq::empty(),
    }
}

/// The focal-length text of a metadata record.
pub open spec fn focal_length_value(m: ImageMetadata) -> Seq<char> {
    match m.exif {
        Some(e) => formatted_value(e.focal_length_micro, |n: nat| unit_seq(n)),
        None => Seq::empty(),
    }
}

/// The camera-make text of a metadata record.
pub open spec fn make_value(m: ImageMetadata) -> Seq<char> {
    match m.exif {
        Some(e) => verbatim_value(e.make),
        None => Seq::empty(),
    }
}

/// The camera-model text of a metadata record.
pub open spec fn model_value(m: ImageMetadata) -> Seq<char> {
    match m.exif {
        Some(e) => verbatim_value(e.model),
        None => Seq::empty(),
    }
}

/// The lens-model text of a metadata record.
pub open spec fn lens_model_value(m: ImageMetadata) -> Seq<char> {
    match m.exif {
        Some(e) => verbatim_value(e.lens_model),
        None => Seq::empty(),
    }
}

/// The capture-time text of a metadata record.
pub open spec fn date_time_value(m: ImageMetadata) -> Seq<char> {
    match m.exif {
        Some(e) => verbatim_value(e.date_time),
        None => Seq::empty(),
    }
}

/// The photographer text of a metadata record.
pub open spec fn artist_value(m: ImageMetadata) -> Seq<char> {
    match m.exif {
        Some(e) => verbatim_value(e.artist),
        None => Seq::empty(),
    }
}

} // verus!
