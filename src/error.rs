use vstd::prelude::*;

verus! {

#[verifier::external_type_specification]
#[verifier::external_body]
pub struct ExIoError(std::io::Error);

/// The closed set of failures of the pipeline.
#[derive(Debug)]
pub enum FFMpegError {
    /// The source path does not exist; checked before any process is started.
    FileDoesNotExistsError { file: String },
    /// Malformed probe output, no unambiguous video stream, or a missing
    /// per-frame timestamp.
    ParseError,
    /// The probing or decoding tool could not be started.
    CommandSpawnError { source: std::io::Error },
    /// A read from one of the pipes failed, including a truncated frame.
    IOError { source: std::io::Error },
}

impl FFMpegError {
    /// The text that describes this error.
    pub fn message(&self) -> String {
        match self {
            FFMpegError::FileDoesNotExistsError { file } => {
                let s = String::from_str("File '");
                let s = s.concat(file.as_str());
                s.concat("' does not exists.")
            },
            FFMpegError::ParseError => String::from_str("Could not parse ffmpeg/ffprobe output."),
            FFMpegError::CommandSpawnError { .. } => String::from_str("Failed to spawn ffmpeg/ffprobe."),
            FFMpegError::IOError { .. } => String::from_str("Failed to read data from ffmpeg/ffprobe."),
        }
    }
}

} // verus!
