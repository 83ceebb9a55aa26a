use ffmpeg_frames::{
    decode_args, filter_graph, probe_args, require_source, split_fraction, FFMpegError,
    FFMpegVideoOptions,
};
use std::path::PathBuf;
use std::time::Duration;

fn ratio(s: &str) -> Option<f64> {
    let f = split_fraction(s)?;
    let n: f64 = f.numerator.parse().ok()?;
    let d: f64 = f.denominator.parse().ok()?;
    Some(n / d)
}

#[test]
fn fraction_ntsc_rate() {
    let r = ratio("24000/1001").unwrap();
    assert!((r - 23.976).abs() < 0.001);
}

#[test]
fn fraction_whole_rate() {
    assert_eq!(ratio("30/1"), Some(30.0));
    let f = split_fraction("30/1").unwrap();
    assert_eq!((f.numerator.as_str(), f.denominator.as_str()), ("30", "1"));
}

#[test]
fn fraction_needs_exactly_one_separator() {
    assert!(split_fraction("30").is_none());
    assert!(split_fraction("").is_none());
    assert!(split_fraction("1/2/3").is_none());
    assert!(split_fraction("//").is_none());
    let f = split_fraction("/").unwrap();
    assert_eq!((f.numerator.as_str(), f.denominator.as_str()), ("", ""));
    assert_eq!(ratio("a/1"), None);
}

#[test]
fn filter_graph_with_and_without_sampling() {
    assert_eq!(filter_graph(None), "showinfo");
    assert_eq!(filter_graph(Some(5)), "fps=1/5,showinfo");
    assert_eq!(filter_graph(Some(120)), "fps=1/120,showinfo");
    assert_eq!(filter_graph(Some(0)), "fps=1/0,showinfo");
}

#[test]
fn decoder_arguments() {
    let args = decode_args("in.mp4", Some(10));
    let expected = [
        "-i", "in.mp4", "-vf", "fps=1/10,showinfo", "-f", "image2pipe", "-an", "-sn",
        "-pix_fmt", "rgb24", "-nostats", "-vcodec", "rawvideo", "-",
    ];
    assert_eq!(args, expected.iter().map(|s| s.to_string()).collect::<Vec<_>>());
    assert_eq!(decode_args("a b.mkv", None)[3], "showinfo");
}

#[test]
fn probe_arguments() {
    let args = probe_args("clip.mov");
    let expected = [
        "-v", "error", "-show_entries", "stream", "-show_entries", "format", "-of", "json",
        "clip.mov",
    ];
    assert_eq!(args, expected.iter().map(|s| s.to_string()).collect::<Vec<_>>());
}

#[test]
fn missing_source_is_reported_with_its_path() {
    assert!(require_source("x.mp4", true).is_ok());
    match require_source("missing.mp4", false) {
        Err(FFMpegError::FileDoesNotExistsError { file }) => assert_eq!(file, "missing.mp4"),
        _ => panic!("expected a missing source"),
    }
    let e = require_source("m.mp4", false).unwrap_err();
    assert_eq!(e.message(), "File 'm.mp4' does not exists.");
}

#[test]
fn options_builders() {
    let o = FFMpegVideoOptions::default();
    assert!(o.sampling_interval().is_none());
    assert!(o.ffmpeg_path().is_none());
    assert!(o.ffprobe_path().is_none());
    let o = o
        .with_sampling_interval(Duration::from_secs(2))
        .with_ffmpeg_path(PathBuf::from("/opt/ffmpeg"))
        .with_ffprobe_path(PathBuf::from("/opt/ffprobe"));
    assert_eq!(o.sampling_interval(), Some(Duration::from_secs(2)));
    assert_eq!(o.ffmpeg_path(), Some(&PathBuf::from("/opt/ffmpeg")));
    assert_eq!(o.ffprobe_path(), Some(&PathBuf::from("/opt/ffprobe")));
}
