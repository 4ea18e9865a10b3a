use vstd::prelude::*;

use crate::files::{is_image_file, is_image_file_spec};

verus! {

/// What can go wrong in a watermarking run. Configuration and font errors end
/// the run; decode and write errors belong to one file.
#[derive(Clone, Debug)]
pub enum WatermarkError {
    ConfigParse(String),
    FontLoad(String),
    InvalidInputPath,
    Decode(String),
    Write(String),
}

impl WatermarkError {
    pub open spec fn is_per_file(&self) -> bool {
        self is Decode || self is Write
    }

    /// Whether the error concerns a single file, so that a batch goes on past it.
    pub fn per_file(&self) -> (r: bool)
        ensures
            r == self.is_per_file(),
    {
        match self {
            WatermarkError::Decode(_) | WatermarkError::Write(_) => true,
            _ => false,
        }
    }
}

/// How an input path is processed.
#[derive(Clone, Copy, Debug, PartialEq, Eq, Structural)]
pub enum InputKind {
    /// Every image file directly inside the directory.
    Directory,
    /// The one image file itself.
    SingleImage,
}

pub open spec fn view_extension(extension: Option<&str>) -> Option<Seq<char>> {
    match extension {
        Some(e) => Some(e@),
        None => None,
    }
}

/// Decides how to treat the input path from what the file system says of it:
/// a directory is scanned, an image file is processed alone, anything else is
/// refused.
pub fn classify_input(is_dir: bool, is_file: bool, extension: Option<&str>) -> (r: Result<
    InputKind,
    WatermarkError,
>)
    ensures
        is_dir ==> r == Ok::<InputKind, WatermarkError>(InputKind::Directory),
        !is_dir && is_file && is_image_file_spec(view_extension(extension)) ==> r == Ok::<
            InputKind,
            WatermarkError,
        >(InputKind::SingleImage),
        !is_dir && !(is_file && is_image_file_spec(view_extension(extension))) ==> r matches Err(
            WatermarkError::InvalidInputPath,
        ),
{
    if is_dir {
        Ok(InputKind::Directory)
    } else if is_file && is_image_file(extension) {
        Ok(InputKind::SingleImage)
    } else {
        Err(WatermarkError::InvalidInputPath)
    }
}

/// Whether a directory entry is watermarked: a regular file with an image extension.
pub fn should_process_entry(is_file: bool, extension: Option<&str>) -> (r: bool)
    ensures
        r == (is_file && is_image_file_spec(view_extension(extension))),
{
    is_file && is_image_file(extension)
}

/// Outcome of a batch: the files written, and each source that failed with its error.
pub struct BatchReport {
    pub written: Vec<String>,
    pub failures: Vec<(String, WatermarkError)>,
}

impl BatchReport {
    pub fn new() -> (r: BatchReport)
        ensures
            r.written@.len() == 0,
            r.failures@.len() == 0,
    {
        BatchReport { written: Vec::new(), failures: Vec::new() }
    }

    /// Records the outcome for one source file: the path written on success,
    /// the error on failure. Earlier entries are kept as they were.
    pub fn record(&mut self, source: String, outcome: Result<String, WatermarkError>)
        ensures
            outcome matches Ok(out) ==> {
                &&& final(self).written@ == old(self).written@.push(out)
                &&& final(self).failures@ == old(self).failures@
            },
            outcome matches Err(e) ==> {
                &&& final(self).written@ == old(self).written@
                &&& final(self).failures@ == old(self).failures@.push((source, e))
            },
    {
        match outcome {
            Ok(out) => self.written.push(out),
            Err(e) => self.failures.push((source, e)),
        }
    }
}

} // verus!
