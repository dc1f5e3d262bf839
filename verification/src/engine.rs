//! The conversion engine: per-format encoder dispatch, the per-task pipeline,
//! and the batch orchestrator.

use vstd::prelude::*;

use crate::batch::{successes, BatchReport};
use crate::codec::{
    bmp_encode, bmp_result_of, decode_image, decoded_of, jpeg_encode, jpeg_result_of, png_encode,
    png_result_of, tiff_encode, tiff_result_of, webp_encode_rgb, webp_encode_rgba,
    webp_lossy_result_of,
};
use crate::errors::{EncodeError, Stage, TaskError};
use crate::pixels::{ColorModel, NormalizedImage};
use crate::task::{output_path, ConversionTask, ImageFormat};

verus! {

/// Whether the lossy WebP adapter accepts this image and quality: it encodes
/// only 8-bit RGB and RGBA layouts, the quality must be a percentage, and
/// both dimensions must stay within libwebp's limit of 16383.
pub open spec fn webp_encodable(img: NormalizedImage, quality: i8) -> bool {
    &&& img.color is Rgb8 || img.color is Rgba8
    &&& 0 <= quality <= 100
    &&& img.width <= 16383
    &&& img.height <= 16383
}

/// What the encode step yields for this format, image and quality: the
/// output bytes, or `None` when the adapter rejects the image or quality.
pub open spec fn encoded_result_spec(
    format: ImageFormat,
    img: NormalizedImage,
    quality: i8,
) -> Option<Seq<u8>> {
    match format {
        ImageFormat::Webp => if webp_encodable(img, quality) {
            webp_lossy_result_of(img.pixels@, img.width, img.height, img.color is Rgba8, quality)
        } else {
            None
        },
        ImageFormat::Jpeg => jpeg_result_of(img.pixels@, img.width, img.height, img.color),
        ImageFormat::Png => png_result_of(img.pixels@, img.width, img.height, img.color),
        ImageFormat::Tiff => tiff_result_of(img.pixels@, img.width, img.height, img.color),
        ImageFormat::Bmp => bmp_result_of(img.pixels@, img.width, img.height, img.color),
    }
}

/// For every format but WebP the quality parameter is accepted only for
/// interface uniformity: the encode outcome — success and bytes alike —
/// does not depend on it.
pub proof fn lemma_raster_quality_ignored(
    format: ImageFormat,
    img: NormalizedImage,
    first: i8,
    second: i8,
)
    requires
        !(format is Webp),
    ensures
        encoded_result_spec(format, img, first) == encoded_result_spec(format, img, second),
{
}

/// Encoder adapter dispatch: every format is handled by exactly one adapter,
/// each adapter makes its complete output in memory, and the call succeeds
/// exactly when `encoded_result_spec` has bytes for it, so a failed encode
/// leaves nothing at all. Out-of-range WebP quality, oversized WebP
/// dimensions and layouts the lossy encoder cannot take are rejected here
/// with a clear error; for JPEG the acceptance condition is stated outright.
pub fn encode_image(task: &ConversionTask, img: &NormalizedImage) -> (r: Result<
    Vec<u8>,
    EncodeError,
>)
    requires
        img.wf(),
    ensures
        r is Ok <==> encoded_result_spec(task.format, *img, task.quality) is Some,
        r matches Ok(out) ==> Some(out@) == encoded_result_spec(task.format, *img, task.quality),
        task.format is Webp && !webp_encodable(*img, task.quality) ==> r is Err,
        task.format is Jpeg ==> (r is Ok <==> {
            &&& 1 <= img.width <= 65535
            &&& 1 <= img.height <= 65535
            &&& (img.color is L8 || img.color is Rgb8)
        }),
{
    match task.format {
        ImageFormat::Webp => {
            if task.quality < 0 || task.quality > 100 {
                Err(
                    EncodeError {
                        message: String::from_str("webp quality must lie between 0 and 100"),
                    },
                )
            } else if img.width > 16383 || img.height > 16383 {
                Err(
                    EncodeError {
                        message: String::from_str("webp encodes at most 16383 by 16383 pixels"),
                    },
                )
            } else {
                match img.color {
                    ColorModel::Rgb8 => webp_encode_rgb(
                        &img.pixels,
                        img.width,
                        img.height,
                        task.quality,
                    ),
                    ColorModel::Rgba8 => webp_encode_rgba(
                        &img.pixels,
                        img.width,
                        img.height,
                        task.quality,
                    ),
                    _ => Err(
                        EncodeError {
                            message: String::from_str(
                                "webp encodes only 8-bit RGB and RGBA images",
                            ),
                        },
                    ),
                }
            }
        },
        ImageFormat::Jpeg => jpeg_encode(&img.pixels, img.width, img.height, img.color),
        ImageFormat::Png => png_encode(&img.pixels, img.width, img.height, img.color),
        ImageFormat::Tiff => tiff_encode(&img.pixels, img.width, img.height, img.color),
        ImageFormat::Bmp => bmp_encode(&img.pixels, img.width, img.height, img.color),
    }
}

/// The per-task pipeline on in-memory data: decode the source bytes, then
/// encode the decoded image for the task's format. The call succeeds exactly
/// when the bytes decode and the decoded image encodes; a failure at either
/// stage belongs to that task alone, and no output bytes exist for it.
pub fn convert_task(task: &ConversionTask, data: &[u8]) -> (r: Result<Vec<u8>, TaskError>)
    ensures
        (r matches Err(TaskError::Decode(_))) <==> decoded_of(data@) is None,
        decoded_of(data@) matches Some(img) ==> {
            &&& img.wf()
            &&& (r is Ok <==> encoded_result_spec(task.format, img, task.quality) is Some)
            &&& (r matches Ok(out) ==> Some(out@) == encoded_result_spec(
                task.format,
                img,
                task.quality,
            ))
        },
{
    match decode_image(data) {
        Ok(img) => match encode_image(task, &img) {
            Ok(out) => Ok(out),
            Err(e) => Err(TaskError::Encode(e)),
        },
        Err(e) => Err(TaskError::Decode(e)),
    }
}

/// Every outcome the load step can yield is a success whose bytes decode:
/// each source names a readable file holding a recognizable image.
pub open spec fn loads_decodable<L: Fn(&str) -> Result<Vec<u8>, String>>(load_source: L) -> bool {
    forall|s: &str, ret: Result<Vec<u8>, String>|
        #[trigger] call_ensures(load_source, (s,), ret) ==> (ret matches Ok(d) && decoded_of(d@)
            is Some)
}

/// Every outcome the load step allows for this one source path is a
/// failure: that source cannot be read.
pub open spec fn load_always_fails<L: Fn(&str) -> Result<Vec<u8>, String>>(
    load_source: L,
    src: Seq<char>,
) -> bool {
    forall|s: &str, ret: Result<Vec<u8>, String>|
        s@ == src && #[trigger] call_ensures(load_source, (s,), ret) ==> ret is Err
}

/// Every success the load step allows for this one source path yields bytes
/// that are not a recognizable image.
pub open spec fn load_never_decodes<L: Fn(&str) -> Result<Vec<u8>, String>>(
    load_source: L,
    src: Seq<char>,
) -> bool {
    forall|s: &str, ret: Result<Vec<u8>, String>|
        s@ == src && #[trigger] call_ensures(load_source, (s,), ret) ==> (ret matches Ok(d)
            ==> decoded_of(d@) is None)
}

/// Every outcome the load step allows for this one source path is a success
/// whose bytes decode.
pub open spec fn load_decodable_for<L: Fn(&str) -> Result<Vec<u8>, String>>(
    load_source: L,
    src: Seq<char>,
) -> bool {
    forall|s: &str, ret: Result<Vec<u8>, String>|
        s@ == src && #[trigger] call_ensures(load_source, (s,), ret) ==> (ret matches Ok(d)
            && decoded_of(d@) is Some)
}

/// This one task's encode step accepts any well-formed decoded image.
pub open spec fn task_always_encodable(task: ConversionTask) -> bool {
    forall|img: NormalizedImage|
        img.wf() ==> (#[trigger] encoded_result_spec(task.format, img, task.quality)) is Some
}

/// What the orchestrator guarantees of a batch's outcome history, task by
/// task: a task whose source never loads, whose bytes never decode, or whose
/// WebP quality is out of range is not counted; a task whose source always
/// loads and decodes, whose encode is always accepted and whose writes all
/// succeed is counted.
pub open spec fn history_constrained<L, W>(
    files: Seq<ConversionTask>,
    load_source: L,
    write_output: W,
    history: Seq<bool>,
) -> bool where L: Fn(&str) -> Result<Vec<u8>, String>, W: Fn(&str, &Vec<u8>) -> Result<
    (),
    String,
> {
    &&& history.len() == files.len()
    &&& forall|i: int|
        0 <= i < files.len() && load_always_fails(load_source, files[i].src@) ==> !history[i]
    &&& forall|i: int|
        0 <= i < files.len() && load_never_decodes(load_source, files[i].src@) ==> !history[i]
    &&& forall|i: int|
        0 <= i < files.len() && files[i].format is Webp && !(0 <= files[i].quality <= 100)
            ==> !history[i]
    &&& forall|i: int|
        0 <= i < files.len() && load_decodable_for(load_source, files[i].src@)
            && task_always_encodable(files[i]) && writes_succeed(write_output) ==> history[i]
}

/// Every task's encode step accepts any well-formed decoded image.
pub open spec fn tasks_always_encodable(files: Seq<ConversionTask>) -> bool {
    forall|i: int, img: NormalizedImage|
        0 <= i < files.len() && img.wf() ==> (#[trigger] encoded_result_spec(
            files[i].format,
            img,
            files[i].quality,
        )) is Some
}

/// Every outcome the write step can yield is a success: the destination is
/// writable.
pub open spec fn writes_succeed<W: Fn(&str, &Vec<u8>) -> Result<(), String>>(
    write_output: W,
) -> bool {
    forall|p: &str, d: &Vec<u8>, ret: Result<(), String>|
        #[trigger] call_ensures(write_output, (p, d), ret) ==> ret is Ok
}

/// Every outcome the write step can yield is a failure: the destination
/// refuses every write.
pub open spec fn writes_fail<W: Fn(&str, &Vec<u8>) -> Result<(), String>>(write_output: W) -> bool {
    forall|p: &str, d: &Vec<u8>, ret: Result<(), String>|
        #[trigger] call_ensures(write_output, (p, d), ret) ==> ret is Err
}

/// Batch orchestrator: processes the tasks strictly in input order, one task
/// fully before the next begins. Each task is loaded through `load_source`,
/// decoded and encoded in memory, and written through `write_output`; every
/// failure is recorded and the loop continues, so no task's failure stops the
/// tasks after it. The report holds one outcome per task and counts exactly
/// the successes; a task the engine itself must reject (WebP quality out of
/// range) never counts; if every source loads and decodes, every encode is
/// accepted and every write succeeds, every task counts; if every write
/// fails, none does.
pub fn run_batch<L, W>(
    files: &Vec<ConversionTask>,
    folder_to_save: &str,
    load_source: L,
    write_output: W,
) -> (report: BatchReport) where
    L: Fn(&str) -> Result<Vec<u8>, String>,
    W: Fn(&str, &Vec<u8>) -> Result<(), String>,

    requires
        files@.len() <= 127,
        forall|s: &str| #[trigger] call_requires(load_source, (s,)),
        forall|p: &str, d: &Vec<u8>| #[trigger] call_requires(write_output, (p, d)),
    ensures
        report.wf(),
        report.history().len() == files@.len(),
        report.count_spec() == successes(report.history()),
        history_constrained(files@, load_source, write_output, report.history()),
        writes_fail(write_output) ==> report.count_spec() == 0,
        loads_decodable(load_source) && tasks_always_encodable(files@) && writes_succeed(
            write_output,
        ) ==> report.count_spec() == files@.len(),
{
    let mut report = BatchReport::new();
    let mut i: usize = 0;
    while i < files.len()
        invariant
            files@.len() <= 127,
            forall|s: &str| #[trigger] call_requires(load_source, (s,)),
            forall|p: &str, d: &Vec<u8>| #[trigger] call_requires(write_output, (p, d)),
            i <= files@.len(),
            report.wf(),
            report.history().len() == i,
            forall|j: int|
                0 <= j < i && load_always_fails(load_source, files@[j].src@)
                    ==> !report.history()[j],
            forall|j: int|
                0 <= j < i && load_never_decodes(load_source, files@[j].src@)
                    ==> !report.history()[j],
            forall|j: int|
                0 <= j < i && files@[j].format is Webp && !(0 <= files@[j].quality <= 100)
                    ==> !report.history()[j],
            forall|j: int|
                0 <= j < i && load_decodable_for(load_source, files@[j].src@)
                    && task_always_encodable(files@[j]) && writes_succeed(write_output)
                    ==> report.history()[j],
            writes_fail(write_output) ==> report.count_spec() == 0,
            loads_decodable(load_source) && tasks_always_encodable(files@) && writes_succeed(
                write_output,
            ) ==> report.count_spec() == i,
        decreases files@.len() - i,
    {
        let task = &files[i];
        proof {
            report.lemma_count_faithful();
        }
        match load_source(task.src.as_str()) {
            Err(msg) => report.record_failure(task.name.clone(), Stage::Load, msg),
            Ok(data) => match convert_task(task, data.as_slice()) {
                Err(err) => {
                    let stage = match &err {
                        TaskError::Decode(_) => Stage::Decode,
                        TaskError::Encode(_) => Stage::Encode,
                    };
                    let msg = err.message().clone();
                    report.record_failure(task.name.clone(), stage, msg);
                },
                Ok(out) => {
                    let path = output_path(folder_to_save, task.name.as_str(), task.format);
                    match write_output(path.as_str(), &out) {
                        Ok(_) => report.record_success(),
                        Err(msg) => report.record_failure(task.name.clone(), Stage::Write, msg),
                    }
                },
            },
        }
        i = i + 1;
    }
    proof {
        report.lemma_count_faithful();
    }
    report
}

/// The engine's entry: converts every task of the batch and returns how many
/// produced their output file. The count never exceeds the number of tasks;
/// an empty batch returns zero; a batch whose sources all load and decode,
/// whose encodes are all accepted and whose writes all succeed counts fully;
/// a destination that refuses every write counts nothing.
pub fn process_images<L, W>(
    files: &Vec<ConversionTask>,
    folder_to_save: &str,
    load_source: L,
    write_output: W,
) -> (r: i8) where
    L: Fn(&str) -> Result<Vec<u8>, String>,
    W: Fn(&str, &Vec<u8>) -> Result<(), String>,

    requires
        files@.len() <= 127,
        forall|s: &str| #[trigger] call_requires(load_source, (s,)),
        forall|p: &str, d: &Vec<u8>| #[trigger] call_requires(write_output, (p, d)),
    ensures
        0 <= r <= files@.len(),
        files@.len() == 0 ==> r == 0,
        writes_fail(write_output) ==> r == 0,
        loads_decodable(load_source) && tasks_always_encodable(files@) && writes_succeed(
            write_output,
        ) ==> r as int == files@.len(),
        exists|history: Seq<bool>|
            #[trigger] history_constrained(files@, load_source, write_output, history) && r as int
                == successes(history),
{
    let report = run_batch(files, folder_to_save, load_source, write_output);
    let count = report.count();
    proof {
        assert(history_constrained(files@, load_source, write_output, report.history()));
    }
    count
}

} // verus!
