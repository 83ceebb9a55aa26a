use ffmpeg_frames::{
    split_fraction, FFMpegError, FFProbeInfo, Frame, FrameReader, Progress, ProbeStream,
    ReadRequest, VideoStreamInfo,
};
use std::time::Duration;

fn stream(width: u32, height: u32) -> VideoStreamInfo {
    VideoStreamInfo {
        width,
        height,
        frame_rate: split_fraction("30/1").unwrap(),
        frames_count: 150,
    }
}

fn frame_line(n: u32, pts: &str) -> String {
    format!(
        "[Parsed_showinfo_1 @ 0x55d0] n:{:>4} pts:{:>7} pts_time:{:<8} pos: 1 fmt:yuv420p sar:1/1 s:1920x1080 i:P iskey:0 type:I checksum:0 plane_checksum:[0 0 0]",
        n, n, pts
    )
}

fn color_line() -> String {
    "[Parsed_showinfo_1 @ 0x55d0] color_range:tv color_space:bt709 color_primaries:bt709 color_trc:bt709".to_string()
}

fn feed_line(r: &mut FrameReader, line: &str) -> Progress {
    assert!(matches!(r.request(), ReadRequest::Line));
    r.on_line(Ok(Some(line.to_string())))
}

fn expect_pixels(r: &FrameReader) -> usize {
    match r.request() {
        ReadRequest::Pixels(n) => n,
        _ => panic!("expected a pixel read"),
    }
}

#[test]
fn requests_exactly_one_frame_of_bytes() {
    let mut r = FrameReader::new(&stream(4, 3)).unwrap();
    assert!(matches!(feed_line(&mut r, "Input #0, mov,mp4"), Progress::Continue));
    assert!(matches!(feed_line(&mut r, "[Parsed_showinfo_1 @ 1] config in time_base: 1/30"), Progress::Continue));
    assert!(matches!(feed_line(&mut r, &frame_line(0, "0")), Progress::Continue));
    assert!(matches!(r.request(), ReadRequest::Line));
    assert!(matches!(feed_line(&mut r, &color_line()), Progress::Continue));
    assert_eq!(expect_pixels(&r), 4 * 3 * 3);
}

#[test]
fn full_frame_is_yielded_with_its_timestamp() {
    let mut r = FrameReader::new(&stream(2, 2)).unwrap();
    feed_line(&mut r, &frame_line(0, "0.5"));
    feed_line(&mut r, &color_line());
    let bytes: Vec<u8> = (0..12).collect();
    match r.on_pixels(Ok(bytes.clone())) {
        Progress::Frame(Frame { width, height, pixels, pts_time }) => {
            assert_eq!((width, height), (2, 2));
            assert_eq!(pixels, bytes);
            assert_eq!(pts_time, "0.5");
        }
        _ => panic!("expected a frame"),
    }
    assert!(matches!(r.request(), ReadRequest::Line));
}

#[test]
fn short_pixel_read_is_io_error() {
    for got in [1usize, 6, 11] {
        let mut r = FrameReader::new(&stream(2, 2)).unwrap();
        feed_line(&mut r, &frame_line(0, "0"));
        feed_line(&mut r, &color_line());
        match r.on_pixels(Ok(vec![7u8; got])) {
            Progress::Failed(FFMpegError::IOError { source }) => {
                assert_eq!(source.kind(), std::io::ErrorKind::UnexpectedEof)
            }
            _ => panic!("a truncated frame must fail"),
        }
        assert!(matches!(r.request(), ReadRequest::Finished));
    }
}

#[test]
fn pixel_pipe_closing_at_boundary_ends_cleanly() {
    let mut r = FrameReader::new(&stream(2, 2)).unwrap();
    feed_line(&mut r, &frame_line(0, "0"));
    feed_line(&mut r, &color_line());
    assert!(matches!(r.on_pixels(Ok(Vec::new())), Progress::End));
    assert!(matches!(r.request(), ReadRequest::Finished));
}

#[test]
fn diagnostic_pipe_closing_at_boundary_ends_cleanly() {
    let mut r = FrameReader::new(&stream(2, 2)).unwrap();
    assert!(matches!(r.on_line(Ok(None)), Progress::End));
    assert!(matches!(r.request(), ReadRequest::Finished));
}

#[test]
fn diagnostic_pipe_closing_after_one_line_is_io_error() {
    let mut r = FrameReader::new(&stream(2, 2)).unwrap();
    feed_line(&mut r, &frame_line(0, "0"));
    assert!(matches!(
        r.on_line(Ok(None)),
        Progress::Failed(FFMpegError::IOError { .. })
    ));
    assert!(matches!(r.request(), ReadRequest::Finished));
}

#[test]
fn read_error_is_io_error() {
    let mut r = FrameReader::new(&stream(2, 2)).unwrap();
    let e = std::io::Error::new(std::io::ErrorKind::Other, "broken");
    assert!(matches!(r.on_line(Err(e)), Progress::Failed(FFMpegError::IOError { .. })));
}

#[test]
fn missing_timestamp_is_parse_error() {
    let mut r = FrameReader::new(&stream(2, 2)).unwrap();
    feed_line(&mut r, &color_line());
    assert!(matches!(
        feed_line(&mut r, &color_line()),
        Progress::Failed(FFMpegError::ParseError)
    ));
}

#[test]
fn oversized_frame_is_refused() {
    assert!(FrameReader::new(&stream(u32::MAX, u32::MAX)).is_none());
}

fn probed(width: Option<u32>, height: Option<u32>) -> ProbeStream {
    ProbeStream {
        width,
        height,
        avg_frame_rate: split_fraction("24000/1001").unwrap(),
        nb_frames: 120,
    }
}

#[test]
fn one_video_stream_is_primary() {
    let info = FFProbeInfo::from_streams(
        Duration::from_secs(5),
        vec![probed(None, None), probed(Some(1920), Some(1080)), probed(Some(640), None)],
    );
    let v = info.primary_video_stream().expect("one video stream");
    assert_eq!((v.width, v.height, v.frames_count), (1920, 1080, 120));
    assert_eq!(info.duration(), Duration::from_secs(5));
}

#[test]
fn no_video_stream_has_no_primary() {
    let info = FFProbeInfo::from_streams(Duration::from_secs(1), vec![probed(None, None)]);
    assert!(info.primary_video_stream().is_none());
    let info = FFProbeInfo::from_streams(Duration::from_secs(1), vec![]);
    assert!(info.primary_video_stream().is_none());
    assert!(matches!(FrameReader::for_probe(&info), Err(FFMpegError::ParseError)));
}

#[test]
fn two_video_streams_have_no_primary() {
    let info = FFProbeInfo::from_streams(
        Duration::from_secs(1),
        vec![probed(Some(1920), Some(1080)), probed(Some(320), Some(240))],
    );
    assert!(info.primary_video_stream().is_none());
    assert!(matches!(FrameReader::for_probe(&info), Err(FFMpegError::ParseError)));
}

#[test]
fn zero_sized_stream_is_not_video() {
    let info = FFProbeInfo::from_streams(
        Duration::from_secs(1),
        vec![probed(Some(0), Some(1080)), probed(Some(8), Some(8))],
    );
    assert_eq!(info.primary_video_stream().map(|v| v.width), Some(8));
}

#[test]
fn end_to_end_full_hd_source() {
    let info = FFProbeInfo::from_streams(
        Duration::from_secs(5),
        vec![probed(Some(1920), Some(1080))],
    );
    let mut r = FrameReader::for_probe(&info).unwrap();
    let stamps = ["0", "0.041708", "0.083417", "0.125125"];
    let mut lines: Vec<Option<String>> = Vec::new();
    for (i, s) in stamps.iter().enumerate() {
        lines.push(Some(frame_line(i as u32, s)));
        lines.push(Some(color_line()));
    }
    lines.push(None);
    let mut lines = lines.into_iter();
    let mut frames_left = stamps.len();
    let mut frames: Vec<Frame> = Vec::new();
    loop {
        let progress = match r.request() {
            ReadRequest::Line => r.on_line(Ok(lines.next().unwrap())),
            ReadRequest::Pixels(n) => {
                assert_eq!(n, 1920 * 1080 * 3);
                if frames_left == 0 {
                    r.on_pixels(Ok(Vec::new()))
                } else {
                    frames_left -= 1;
                    r.on_pixels(Ok(vec![0u8; n]))
                }
            }
            ReadRequest::Finished => break,
        };
        match progress {
            Progress::Frame(f) => frames.push(f),
            Progress::Failed(e) => panic!("unexpected error: {}", e.message()),
            Progress::Continue | Progress::End => {}
        }
    }
    assert_eq!(frames.len(), 4);
    let mut last = -1.0f64;
    for f in &frames {
        assert_eq!((f.width, f.height), (1920, 1080));
        assert_eq!(f.pixels.len(), 1920 * 1080 * 3);
        let t: f64 = f.pts_time.parse().unwrap();
        assert!(t > last);
        last = t;
    }
}
