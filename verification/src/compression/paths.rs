//! Output-path derivation: a pure function of the input path, the output
//! directory and the target format. Two inputs with the same stem silently
//! share one output path; that is a documented limitation of the pipeline.

use vstd::prelude::*;
use vstd::string::StrSliceExecFns;
use vstd::string::StringExecFns;

use super::settings::OutputFormat;
use crate::text::file_name_of;
use crate::text::file_name_part;
use crate::text::find_last_char;
use crate::text::last_index_of;
use crate::text::lemma_last_index_of;
use crate::text::stem_of;

verus! {

/// The file extension written for each target format.
pub open spec fn format_extension(format: OutputFormat) -> Seq<char> {
    match format {
        OutputFormat::Png => "png"@,
        OutputFormat::WebP => "webp"@,
        OutputFormat::Jpeg => "jpg"@,
    }
}

/// `dir` and `file` joined with a single slash; an empty `dir` contributes
/// nothing.
pub open spec fn dir_join(dir: Seq<char>, file: Seq<char>) -> Seq<char> {
    if dir.len() == 0 {
        file
    } else if dir.last() == '/' {
        dir + file
    } else {
        dir + "/"@ + file
    }
}

/// The file name an input is compressed to: its stem, the `_compressed`
/// marker, and the extension of the target format.
pub open spec fn compressed_name(input: Seq<char>, format: OutputFormat) -> Seq<char> {
    stem_of(file_name_of(input)) + "_compressed."@ + format_extension(format)
}

/// Where the compressed output of `input` is written.
pub open spec fn output_path_of(input: Seq<char>, dir: Seq<char>, format: OutputFormat) -> Seq<
    char,
> {
    dir_join(dir, compressed_name(input, format))
}

/// The intermediate PNG the lossless path writes before optimization; it sits
/// beside the final output and must not outlive the run.
pub open spec fn temp_path_of(input: Seq<char>, dir: Seq<char>) -> Seq<char> {
    dir_join(dir, stem_of(file_name_of(input)) + "_compressed.temp.png"@)
}

/// Path derivation is deterministic: identical inputs always yield the
/// identical output path.
pub proof fn lemma_output_path_deterministic(
    input1: Seq<char>,
    dir1: Seq<char>,
    format1: OutputFormat,
    input2: Seq<char>,
    dir2: Seq<char>,
    format2: OutputFormat,
)
    requires
        input1 == input2,
        dir1 == dir2,
        format1 == format2,
    ensures
        output_path_of(input1, dir1, format1) == output_path_of(input2, dir2, format2),
{
}

fn format_extension_str(format: OutputFormat) -> (r: &'static str)
    ensures
        r@ == format_extension(format),
{
    match format {
        OutputFormat::Png => "png",
        OutputFormat::WebP => "webp",
        OutputFormat::Jpeg => "jpg",
    }
}

/// The stem of the file name of `path`.
fn stem_part<'a>(path: &'a str) -> (r: &'a str)
    ensures
        r@ == stem_of(file_name_of(path@)),
{
    let name = file_name_part(path);
    let nn = name.unicode_len();
    proof {
        lemma_last_index_of(name@, '.');
    }
    let stem_end: usize = match find_last_char(name, '.') {
        Some(d) => if d > 0 {
            d
        } else {
            nn
        },
        None => nn,
    };
    name.substring_char(0, stem_end)
}

/// `dir`, a slash when one is needed, the stem of `input_path`'s file name,
/// then `tail1` and `tail2`.
fn join_with_stem(input_path: &str, dir: &str, tail1: &str, tail2: &str) -> (r: String)
    ensures
        r@ == dir_join(dir@, stem_of(file_name_of(input_path@)) + tail1@ + tail2@),
{
    let stem = stem_part(input_path);
    let mut out = String::new();
    let dlen = dir.unicode_len();
    if dlen > 0 {
        out.append(dir);
        if dir.get_char(dlen - 1) != '/' {
            out.append("/");
        }
    }
    out.append(stem);
    out.append(tail1);
    out.append(tail2);
    proof {
        assert(out@ =~= dir_join(dir@, stem_of(file_name_of(input_path@)) + tail1@ + tail2@));
    }
    out
}

/// The deterministically derived output path:
/// `{dir}/{input_stem}_compressed.{ext}` with the extension selected by
/// `format`.
pub fn generate_output_path(input_path: &str, dir: &str, format: OutputFormat) -> (r: String)
    ensures
        r@ == output_path_of(input_path@, dir@, format),
{
    let r = join_with_stem(input_path, dir, "_compressed.", format_extension_str(format));
    proof {
        assert(stem_of(file_name_of(input_path@)) + "_compressed."@ + format_extension(format)
            =~= compressed_name(input_path@, format));
    }
    r
}

/// The intermediate path the PNG route writes before optimizing.
pub fn generate_temp_path(input_path: &str, dir: &str) -> (r: String)
    ensures
        r@ == temp_path_of(input_path@, dir@),
{
    let r = join_with_stem(input_path, dir, "_compressed.temp.png", "");
    proof {
        reveal_strlit("");
        assert(stem_of(file_name_of(input_path@)) + "_compressed.temp.png"@ + ""@ =~= stem_of(
            file_name_of(input_path@),
        ) + "_compressed.temp.png"@);
    }
    r
}

} // verus!
