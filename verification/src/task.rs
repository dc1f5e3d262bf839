//! Conversion tasks and the format registry.

use vstd::prelude::*;

verus! {

/// The closed set of output formats the converter can produce.
#[derive(Clone, Copy, Debug, PartialEq, Eq, Structural)]
pub enum ImageFormat {
    Webp,
    Jpeg,
    Png,
    Tiff,
    Bmp,
}

/// One requested conversion. A task is an immutable value: it is created once
/// per batch request and describes a single conversion attempt.
pub struct ConversionTask {
    /// Target output format.
    pub format: ImageFormat,
    /// Base output filename; the extension is derived from `format`, never
    /// taken from the name.
    pub name: String,
    /// Quality parameter; meaningful only for the lossy WebP encoder.
    pub quality: i8,
    /// Path of the source image.
    pub src: String,
}

/// The canonical output extension of each format: the registry is a pure,
/// total function, so no format is left unmapped.
pub open spec fn extension_spec(format: ImageFormat) -> Seq<char> {
    match format {
        ImageFormat::Webp => "webp"@,
        ImageFormat::Jpeg => "jpg"@,
        ImageFormat::Png => "png"@,
        ImageFormat::Tiff => "tiff"@,
        ImageFormat::Bmp => "bmp"@,
    }
}

/// Registry lookup: the extension that output files of `format` carry.
pub fn get_format_extension(format: ImageFormat) -> (r: String)
    ensures
        r@ == extension_spec(format),
{
    match format {
        ImageFormat::Webp => String::from_str("webp"),
        ImageFormat::Jpeg => String::from_str("jpg"),
        ImageFormat::Png => String::from_str("png"),
        ImageFormat::Tiff => String::from_str("tiff"),
        ImageFormat::Bmp => String::from_str("bmp"),
    }
}

/// Where a task's output lands: `<folder>/<name>.<extension>`, with the
/// extension determined solely by the format.
pub open spec fn output_path_spec(folder: Seq<char>, name: Seq<char>, format: ImageFormat) -> Seq<
    char,
> {
    folder + "/"@ + name + "."@ + extension_spec(format)
}

/// Derives the output path for one task. An existing file at this path is
/// simply overwritten by the write that follows: there is no collision
/// detection within or across batches.
pub fn output_path(folder_to_save: &str, name: &str, format: ImageFormat) -> (r: String)
    ensures
        r@ == output_path_spec(folder_to_save@, name@, format),
{
    let mut p = String::from_str(folder_to_save);
    p.append("/");
    p.append(name);
    p.append(".");
    let ext = get_format_extension(format);
    p.append(ext.as_str());
    p
}

/// Two tasks of one batch that share a name and a format are written to the
/// same path, so only the later task's output survives at that path.
pub proof fn lemma_duplicate_tasks_share_path(
    folder: Seq<char>,
    first: ConversionTask,
    second: ConversionTask,
)
    requires
        first.name@ == second.name@,
        first.format == second.format,
    ensures
        output_path_spec(folder, first.name@, first.format) == output_path_spec(
            folder,
            second.name@,
            second.format,
        ),
{
}

} // verus!
