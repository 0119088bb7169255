//! Candidate files: one descriptor per selected image, the extension-based
//! format probe, and the human-readable size rendering.

use vstd::prelude::*;
use vstd::string::StrSliceExecFns;
use vstd::string::StringExecFns;

use crate::text::dec_digit;
use crate::text::dec_digit_str;
use crate::text::dec_string;
use crate::text::extension_of;
use crate::text::file_name_of;
use crate::text::file_name_part;
use crate::text::find_last_char;
use crate::text::lemma_last_index_of;
use crate::text::lower_seq;
use crate::text::push_dec;
use crate::text::region_matches_lower;

verus! {

/// One candidate image: where it lives, how it is shown, how large it is and
/// what its extension says it is. Immutable once created.
#[derive(Clone, Debug)]
pub struct ImageFile {
    pub path: String,
    pub name: String,
    pub size: u64,
    pub format: ImageFormat,
}

/// The closed set of formats the extension probe can report. `Unknown` is a
/// valid, non-fatal value.
#[derive(Clone, Copy, Debug, PartialEq, Eq, Structural)]
pub enum ImageFormat {
    Jpeg,
    Png,
    WebP,
    Gif,
    Bmp,
    Tiff,
    Unknown,
}

pub struct FileManager;

/// The format inferred from the file extension alone, case-insensitively.
pub open spec fn spec_detect_format(path: Seq<char>) -> ImageFormat {
    let e = lower_seq(extension_of(file_name_of(path)));
    if e == "jpg"@ || e == "jpeg"@ {
        ImageFormat::Jpeg
    } else if e == "png"@ {
        ImageFormat::Png
    } else if e == "webp"@ {
        ImageFormat::WebP
    } else if e == "gif"@ {
        ImageFormat::Gif
    } else if e == "bmp"@ {
        ImageFormat::Bmp
    } else if e == "tiff"@ || e == "tif"@ {
        ImageFormat::Tiff
    } else {
        ImageFormat::Unknown
    }
}

/// The divisor of the unit a byte count is displayed in.
pub open spec fn size_unit_divisor(bytes: int) -> int {
    if bytes >= 0x40000000 {
        0x40000000
    } else if bytes >= 0x100000 {
        0x100000
    } else if bytes >= 1024 {
        1024
    } else {
        1
    }
}

/// The label of the unit a byte count is displayed in.
pub open spec fn size_unit_label(bytes: int) -> Seq<char> {
    if bytes >= 0x40000000 {
        "GB"@
    } else if bytes >= 0x100000 {
        "MB"@
    } else if bytes >= 1024 {
        "KB"@
    } else {
        "B"@
    }
}

/// A byte count rendered with one decimal digit, rounded half up, in the
/// largest unit of B, KB, MB, GB that keeps the whole part at least 1.
pub open spec fn spec_format_file_size(bytes: int) -> Seq<char> {
    let div = size_unit_divisor(bytes);
    let tenths = (bytes * 10 + div / 2) / div;
    dec_string(tenths / 10) + "."@ + dec_digit(tenths % 10) + " "@ + size_unit_label(bytes)
}

impl FileManager {
    /// Infers the format from the extension, ignoring ASCII case; a missing
    /// or alien extension is `Unknown`, never an error.
    pub fn detect_format(path: &str) -> (r: ImageFormat)
        ensures
            r == spec_detect_format(path@),
    {
        let name = file_name_part(path);
        let nn = name.unicode_len();
        proof {
            lemma_last_index_of(name@, '.');
        }
        let efrom: usize = match find_last_char(name, '.') {
            Some(d) => if d > 0 {
                d + 1
            } else {
                nn
            },
            None => nn,
        };
        proof {
            assert(name@.subrange(efrom as int, nn as int) =~= extension_of(file_name_of(path@)));
        }
        if region_matches_lower(name, efrom, nn, "jpg") {
            ImageFormat::Jpeg
        } else if region_matches_lower(name, efrom, nn, "jpeg") {
            ImageFormat::Jpeg
        } else if region_matches_lower(name, efrom, nn, "png") {
            ImageFormat::Png
        } else if region_matches_lower(name, efrom, nn, "webp") {
            ImageFormat::WebP
        } else if region_matches_lower(name, efrom, nn, "gif") {
            ImageFormat::Gif
        } else if region_matches_lower(name, efrom, nn, "bmp") {
            ImageFormat::Bmp
        } else if region_matches_lower(name, efrom, nn, "tiff") {
            ImageFormat::Tiff
        } else if region_matches_lower(name, efrom, nn, "tif") {
            ImageFormat::Tiff
        } else {
            ImageFormat::Unknown
        }
    }

    /// Builds the descriptor of one probed file from its path and the byte
    /// size the probe reported. Fails exactly when the path carries no file
    /// name, mirroring an inaccessible selection entry being skipped.
    pub fn analyze_file(path: String, size: u64) -> (r: Option<ImageFile>)
        ensures
            (r is None <==> file_name_of(path@).len() == 0),
            (r matches Some(f) ==> {
                &&& f.path@ == path@
                &&& f.name@ == file_name_of(path@)
                &&& f.size == size
                &&& f.format == spec_detect_format(path@)
            }),
    {
        let name = String::from_str(file_name_part(path.as_str()));
        if name.as_str().unicode_len() == 0 {
            return None;
        }
        let format = Self::detect_format(path.as_str());
        Some(ImageFile { path, name, size, format })
    }

    /// Renders a byte count for display, e.g. 1536 bytes as `1.5 KB`.
    pub fn format_file_size(bytes: u64) -> (r: String)
        ensures
            r@ == spec_format_file_size(bytes as int),
    {
        let div: u64 = if bytes >= 0x40000000 {
            0x40000000
        } else if bytes >= 0x100000 {
            0x100000
        } else if bytes >= 1024 {
            1024
        } else {
            1
        };
        let label: &'static str = if bytes >= 0x40000000 {
            "GB"
        } else if bytes >= 0x100000 {
            "MB"
        } else if bytes >= 1024 {
            "KB"
        } else {
            "B"
        };
        let tenths: u128 = ((bytes as u128) * 10 + (div as u128) / 2) / (div as u128);
        let mut out = String::new();
        push_dec(&mut out, tenths / 10);
        out.append(".");
        out.append(dec_digit_str((tenths % 10) as u64));
        out.append(" ");
        out.append(label);
        proof {
            assert(out@ =~= spec_format_file_size(bytes as int));
        }
        out
    }
}

} // verus!
