//! Frame extraction around an external decoder: the decisions of the pipeline
//! (argument lists, diagnostic line parsing, stream selection and the paced
//! two-pipe read cycle) with their contracts. Spawning processes and reading
//! pipes is left to the caller, which hands the results back as plain values.
mod error;
mod options;
mod probe;
mod reader;
mod showinfo;

pub use error::FFMpegError;
pub use options::{decode_args, filter_graph, probe_args, FFMpegVideoOptions};
pub use probe::{
    require_source, split_fraction, FFProbeInfo, Fraction, ProbeStream, StreamInfo,
    VideoStreamInfo,
};
pub use reader::{Frame, FrameReader, Progress, ReadRequest, LINES_PER_FRAME};
pub use showinfo::{contains, parse_showinfo, starts_with, str_equal, ShowInfoFields};
