use vstd::prelude::*;

verus! {

#[verifier::external_type_specification]
#[verifier::external_body]
pub struct ExPathBuf(std::path::PathBuf);

/// How frames are extracted: an optional sampling interval (every frame when
/// absent) and optional paths of the decoding and probing tools (looked up on
/// the executable search path when absent).
pub struct FFMpegVideoOptions {
    sampling_interval: Option<std::time::Duration>,
    ffmpeg_path: Option<std::path::PathBuf>,
    ffprobe_path: Option<std::path::PathBuf>,
}

impl Default for FFMpegVideoOptions {
    fn default() -> (r: Self)
        ensures
            r.spec_sampling_interval() is None,
            r.spec_ffmpeg_path() is None,
            r.spec_ffprobe_path() is None,
    {
        FFMpegVideoOptions { sampling_interval: None, ffmpeg_path: None, ffprobe_path: None }
    }
}

impl FFMpegVideoOptions {
    pub closed spec fn spec_sampling_interval(&self) -> Option<std::time::Duration> {
        self.sampling_interval
    }

    pub closed spec fn spec_ffmpeg_path(&self) -> Option<std::path::PathBuf> {
        self.ffmpeg_path
    }

    pub closed spec fn spec_ffprobe_path(&self) -> Option<std::path::PathBuf> {
        self.ffprobe_path
    }

    /// Keeps one frame per `sampling_interval` instead of every frame.
    pub fn with_sampling_interval(self, sampling_interval: std::time::Duration) -> (r: Self)
        ensures
            r.spec_sampling_interval() == Some(sampling_interval),
            r.spec_ffmpeg_path() == self.spec_ffmpeg_path(),
            r.spec_ffprobe_path() == self.spec_ffprobe_path(),
    {
        FFMpegVideoOptions { sampling_interval: Some(sampling_interval), ..self }
    }

    /// Runs the decoding tool found at `path`.
    pub fn with_ffmpeg_path(self, path: std::path::PathBuf) -> (r: Self)
        ensures
            r.spec_sampling_interval() == self.spec_sampling_interval(),
            r.spec_ffmpeg_path() == Some(path),
            r.spec_ffprobe_path() == self.spec_ffprobe_path(),
    {
        FFMpegVideoOptions { ffmpeg_path: Some(path), ..self }
    }

    /// Runs the probing tool found at `path`.
    pub fn with_ffprobe_path(self, path: std::path::PathBuf) -> (r: Self)
        ensures
            r.spec_sampling_interval() == self.spec_sampling_interval(),
            r.spec_ffmpeg_path() == self.spec_ffmpeg_path(),
            r.spec_ffprobe_path() == Some(path),
    {
        FFMpegVideoOptions { ffprobe_path: Some(path), ..self }
    }

    pub fn sampling_interval(&self) -> (r: Option<std::time::Duration>)
        ensures
            r == self.spec_sampling_interval(),
    {
        self.sampling_interval
    }

    pub fn ffmpeg_path(&self) -> (r: Option<&std::path::PathBuf>)
        ensures
            r matches Some(p) ==> self.spec_ffmpeg_path() == Some(*p),
            r is None ==> self.spec_ffmpeg_path() is None,
    {
        match &self.ffmpeg_path {
            Some(p) => Some(p),
            None => None,
        }
    }

    pub fn ffprobe_path(&self) -> (r: Option<&std::path::PathBuf>)
        ensures
            r matches Some(p) ==> self.spec_ffprobe_path() == Some(*p),
            r is None ==> self.spec_ffprobe_path() is None,
    {
        match &self.ffprobe_path {
            Some(p) => Some(p),
            None => None,
        }
    }
}

pub open spec fn digit_char(d: nat) -> char {
    seq!['0', '1', '2', '3', '4', '5', '6', '7', '8', '9'][d as int]
}

/// `n` in decimal, without sign or leading zeros.
pub open spec fn decimal(n: nat) -> Seq<char>
    decreases n,
{
    if n < 10 {
        seq![digit_char(n)]
    } else {
        decimal(n / 10).push(digit_char(n % 10))
    }
}

/// Relies on u64's Display, through ToString::to_string: the number in
/// decimal, without sign, padding or leading zeros.
#[verifier::external_body]
fn decimal_text(n: u64) -> (r: String)
    ensures
        r@ == decimal(n as nat),
{
    n.to_string()
}

/// The decoder's filter graph: a frame-rate reduction to one frame per
/// `sampling_secs` seconds where given, then the per-frame info filter.
pub open spec fn filter_graph_spec(sampling_secs: Option<u64>) -> Seq<char> {
    match sampling_secs {
        Some(s) => "fps=1/"@ + decimal(s as nat) + ","@ + "showinfo"@,
        None => "showinfo"@,
    }
}

/// The decoder's arguments: the input, the filter graph, and raw
/// concatenated RGB images on standard output, without audio or subtitles.
pub open spec fn decode_args_spec(input: Seq<char>, sampling_secs: Option<u64>) -> Seq<Seq<char>> {
    seq![
        "-i"@,
        input,
        "-vf"@,
        filter_graph_spec(sampling_secs),
        "-f"@,
        "image2pipe"@,
        "-an"@,
        "-sn"@,
        "-pix_fmt"@,
        "rgb24"@,
        "-nostats"@,
        "-vcodec"@,
        "rawvideo"@,
        "-"@,
    ]
}

/// The probing tool's arguments: stream and format entries, as JSON.
pub open spec fn probe_args_spec(input: Seq<char>) -> Seq<Seq<char>> {
    seq![
        "-v"@,
        "error"@,
        "-show_entries"@,
        "stream"@,
        "-show_entries"@,
        "format"@,
        "-of"@,
        "json"@,
        input,
    ]
}

pub open spec fn strings_view(v: Seq<String>) -> Seq<Seq<char>> {
    v.map_values(|s: String| s@)
}

/// The filter graph for the given sampling interval in whole seconds.
pub fn filter_graph(sampling_secs: Option<u64>) -> (r: String)
    ensures
        r@ == filter_graph_spec(sampling_secs),
{
    match sampling_secs {
        Some(s) => {
            let digits = decimal_text(s);
            let g = String::from_str("fps=1/").concat(digits.as_str());
            g.concat(",").concat("showinfo")
        },
        None => String::from_str("showinfo"),
    }
}

/// The argument list of the decoding tool for `input`.
pub fn decode_args(input: &str, sampling_secs: Option<u64>) -> (r: Vec<String>)
    ensures
        strings_view(r@) == decode_args_spec(input@, sampling_secs),
{
    let mut v: Vec<String> = Vec::new();
    v.push(String::from_str("-i"));
    v.push(String::from_str(input));
    v.push(String::from_str("-vf"));
    v.push(filter_graph(sampling_secs));
    v.push(String::from_str("-f"));
    v.push(String::from_str("image2pipe"));
    v.push(String::from_str("-an"));
    v.push(String::from_str("-sn"));
    v.push(String::from_str("-pix_fmt"));
    v.push(String::from_str("rgb24"));
    v.push(String::from_str("-nostats"));
    v.push(String::from_str("-vcodec"));
    v.push(String::from_str("rawvideo"));
    v.push(String::from_str("-"));
    assert(strings_view(v@) =~= decode_args_spec(input@, sampling_secs));
    v
}

/// The argument list of the probing tool for `input`.
pub fn probe_args(input: &str) -> (r: Vec<String>)
    ensures
        strings_view(r@) == probe_args_spec(input@),
{
    let mut v: Vec<String> = Vec::new();
    v.push(String::from_str("-v"));
    v.push(String::from_str("error"));
    v.push(String::from_str("-show_entries"));
    v.push(String::from_str("stream"));
    v.push(String::from_str("-show_entries"));
    v.push(String::from_str("format"));
    v.push(String::from_str("-of"));
    v.push(String::from_str("json"));
    v.push(String::from_str(input));
    assert(strings_view(v@) =~= probe_args_spec(input@));
    v
}

} // verus!
