use crate::clock::{strftime, strftime_of};
use vstd::prelude::*;

verus! {

/// What joining a file name onto a directory path gives.
pub uninterp spec fn path_joined(dir: Seq<char>, name: Seq<char>) -> Seq<char>;

/// Relies on std::path::Path::join: the joined path depends on the two parts alone.
#[verifier::external_body]
fn join_path(dir: &str, name: &str) -> (r: String)
    ensures
        r@ == path_joined(dir@, name@),
{
    std::path::Path::new(dir).join(name).to_string_lossy().into_owned()
}

/// Width used by the start-up self-test capture.
pub const TEST_WIDTH: u32 = 640;

/// Height used by the start-up self-test capture.
pub const TEST_HEIGHT: u32 = 480;

/// Why a capture did not yield an image.
#[derive(Debug, Clone)]
pub enum CaptureError {
    /// The output directory could not be created.
    CreateDir(String),
    /// The capture program could not be started.
    Spawn(String),
    /// The capture program reported failure; holds its error output.
    Failed(String),
    /// The capture program reported success but left no file at this path.
    NotCreated(String),
    /// No file name could be formed from the capture time with this pattern.
    Filename(String),
}

/// What the external capture program reported when it finished.
#[derive(Debug, Clone)]
pub struct ProcessReport {
    pub success: bool,
    pub stderr: String,
}

/// Outcome of a capture whose program ran to completion.
pub open spec fn capture_outcome(report: ProcessReport, file_exists: bool, path: String) -> Result<String, CaptureError> {
    if !report.success {
        Err(CaptureError::Failed(report.stderr))
    } else if !file_exists {
        Err(CaptureError::NotCreated(path))
    } else {
        Ok(path)
    }
}

/// Camera controller that drives an external capture program.
pub struct Camera {
    script_path: String,
    output_dir: String,
    filename_format: String,
    width: u32,
    height: u32,
}

impl Camera {
    pub closed spec fn script_spec(&self) -> Seq<char> {
        self.script_path@
    }

    pub closed spec fn dir_spec(&self) -> Seq<char> {
        self.output_dir@
    }

    pub closed spec fn format_spec(&self) -> Seq<char> {
        self.filename_format@
    }

    pub closed spec fn width_spec(&self) -> u32 {
        self.width
    }

    pub closed spec fn height_spec(&self) -> u32 {
        self.height
    }

    /// Create a camera controller.
    pub fn new(script_path: String, output_dir: String, filename_format: String, width: u32, height: u32) -> (r: Self)
        ensures
            r.script_spec() == script_path@,
            r.dir_spec() == output_dir@,
            r.format_spec() == filename_format@,
            r.width_spec() == width,
            r.height_spec() == height,
    {
        Camera { script_path, output_dir, filename_format, width, height }
    }

    pub fn script_path(&self) -> (r: &str)
        ensures
            r@ == self.script_spec(),
    {
        self.script_path.as_str()
    }

    pub fn output_dir(&self) -> (r: &str)
        ensures
            r@ == self.dir_spec(),
    {
        self.output_dir.as_str()
    }

    pub fn filename_format(&self) -> (r: &str)
        ensures
            r@ == self.format_spec(),
    {
        self.filename_format.as_str()
    }

    pub fn width(&self) -> (r: u32)
        ensures
            r == self.width_spec(),
    {
        self.width
    }

    pub fn height(&self) -> (r: u32)
        ensures
            r == self.height_spec(),
    {
        self.height
    }

    /// Where an image named `filename` is stored.
    pub fn output_path(&self, filename: &str) -> (r: String)
        ensures
            r@ == path_joined(self.dir_spec(), filename@),
    {
        join_path(self.output_dir.as_str(), filename)
    }

    /// Where an image captured at a local time is stored: the time, given as
    /// seconds since the epoch and the local offset east of UTC, is formatted
    /// with the filename pattern and joined onto the output directory.
    pub fn capture_path(&self, secs: i64, offset_secs: i32) -> (r: Result<String, CaptureError>)
        ensures
            match strftime_of(secs as int, offset_secs as int, self.format_spec()) {
                Some(name) => r matches Ok(p) && p@ == path_joined(self.dir_spec(), name),
                None => r matches Err(CaptureError::Filename(f)) && f@ == self.format_spec(),
            },
    {
        match strftime(secs, offset_secs, self.filename_format.as_str()) {
            Some(name) => Ok(self.output_path(name.as_str())),
            None => Err(CaptureError::Filename(self.filename_format.clone())),
        }
    }

    /// Where the self-test image is stored.
    pub fn test_path(&self) -> (r: String)
        ensures
            r@ == path_joined(self.dir_spec(), "test.jpg"@),
    {
        join_path(self.output_dir.as_str(), "test.jpg")
    }

    /// Judge a finished capture to `path`: the program must have succeeded
    /// and the file must exist afterwards.
    pub fn capture_result(report: ProcessReport, file_exists: bool, path: String) -> (r: Result<String, CaptureError>)
        ensures
            r == capture_outcome(report, file_exists, path),
    {
        if !report.success {
            Err(CaptureError::Failed(report.stderr))
        } else if !file_exists {
            Err(CaptureError::NotCreated(path))
        } else {
            Ok(path)
        }
    }

    /// Judge the finished self-test capture to `path`: as for a capture, the
    /// program must have succeeded and the file must exist afterwards.
    pub fn test_result(report: ProcessReport, file_exists: bool, path: String) -> (r: Result<(), CaptureError>)
        ensures
            r == match capture_outcome(report, file_exists, path) {
                Ok(_) => Ok::<(), CaptureError>(()),
                Err(e) => Err(e),
            },
    {
        match Camera::capture_result(report, file_exists, path) {
            Ok(_) => Ok(()),
            Err(e) => Err(e),
        }
    }
}

} // verus!
