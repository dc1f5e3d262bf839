//! Batch image conversion engine.
//!
//! A batch is an ordered list of conversion tasks plus a destination folder.
//! Each task names a source image, a target format, a base output name and a
//! quality. The engine decodes the source bytes into a normalized pixel
//! buffer, encodes it for the task's format, and counts how many tasks
//! succeeded. A failing task never stops the tasks after it.

pub mod batch;
pub mod codec;
pub mod engine;
pub mod errors;
pub mod pixels;
pub mod task;
