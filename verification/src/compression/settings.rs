//! Run configuration: the target format, the per-format quality knobs, the
//! metadata policy, and the output directory, together with the validation
//! gate that must pass before a batch is allowed to start.

use vstd::prelude::*;
use vstd::string::StringExecFns;

verus! {

/// The format every file of a batch is encoded into.
#[derive(Clone, Copy, Debug, PartialEq, Eq, Structural)]
pub enum OutputFormat {
    Png,
    WebP,
    Jpeg,
}

/// Immutable-per-run configuration. Exactly one quality knob is read during a
/// run, selected by `output_format`; the other knobs are inert but still
/// range-checked by [`CompressionSettings::validate`].
#[derive(Clone, Debug)]
pub struct CompressionSettings {
    pub output_format: OutputFormat,
    /// Lossless PNG optimization effort; valid range 1 to 6.
    pub png_level: u8,
    /// Lossy WebP quality in tenths of a quality point: 0 to 1000 stands for
    /// the scale 0.0 to 100.0, where 1000 is the highest quality.
    pub webp_quality_tenths: i32,
    /// JPEG quality; valid range 1 to 100.
    pub jpeg_quality: u8,
    /// When false, the PNG path strips all non-essential chunks; when true it
    /// strips none.
    pub preserve_metadata: bool,
    pub output_directory: String,
}

impl CompressionSettings {
    /// Every quality knob is inside its documented range.
    pub open spec fn is_valid(self) -> bool {
        &&& 1 <= self.png_level <= 6
        &&& 0 <= self.webp_quality_tenths <= 1000
        &&& 1 <= self.jpeg_quality <= 100
    }

    /// The configuration a fresh panel starts from.
    pub open spec fn is_default(self) -> bool {
        &&& self.output_format is Png
        &&& self.png_level == 6
        &&& self.webp_quality_tenths == 800
        &&& self.jpeg_quality == 85
        &&& !self.preserve_metadata
        &&& self.output_directory@ == "output"@
    }

    /// Pure range check of all three knobs; reports the first violated
    /// constraint. Succeeds exactly on valid settings, so callers may gate a
    /// run on `Ok` alone.
    pub fn validate(&self) -> (r: Result<(), String>)
        ensures
            r is Ok <==> self.is_valid(),
            (self.png_level < 1 || self.png_level > 6) ==> (r matches Err(m)
                && m@ == "PNG level must be 1-6"@),
            (1 <= self.png_level <= 6 && !(0 <= self.webp_quality_tenths <= 1000)) ==> (
            r matches Err(m) && m@ == "WebP quality must be 0-100"@),
            (1 <= self.png_level <= 6 && 0 <= self.webp_quality_tenths <= 1000 && !(1
                <= self.jpeg_quality <= 100)) ==> (r matches Err(m) && m@
                == "JPEG quality must be 1-100"@),
    {
        if self.png_level < 1 || self.png_level > 6 {
            return Err(String::from_str("PNG level must be 1-6"));
        }
        if self.webp_quality_tenths < 0 || self.webp_quality_tenths > 1000 {
            return Err(String::from_str("WebP quality must be 0-100"));
        }
        if self.jpeg_quality < 1 || self.jpeg_quality > 100 {
            return Err(String::from_str("JPEG quality must be 1-100"));
        }
        Ok(())
    }
}

impl Default for CompressionSettings {
    /// Lossless PNG at the highest effort level, metadata stripped, written
    /// beside the working directory under `output`.
    fn default() -> (r: Self)
        ensures
            r.is_default(),
            r.is_valid(),
    {
        CompressionSettings {
            output_format: OutputFormat::Png,
            png_level: 6,
            webp_quality_tenths: 800,
            jpeg_quality: 85,
            preserve_metadata: false,
            output_directory: String::from_str("output"),
        }
    }
}

} // verus!
