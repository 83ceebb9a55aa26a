use vstd::prelude::*;

use crate::error::FFMpegError;

verus! {

/// How many times `c` occurs in `s`.
pub open spec fn count_char(s: Seq<char>, c: char) -> nat
    decreases s.len(),
{
    if s.len() == 0 {
        0
    } else {
        count_char(s.drop_last(), c) + if s.last() == c {
            1nat
        } else {
            0nat
        }
    }
}

/// The check made before any process is started: a source that does not
/// exist is reported with its path.
pub fn require_source(path: &str, exists: bool) -> (r: Result<(), FFMpegError>)
    ensures
        exists <==> r is Ok,
        !exists ==> (r matches Err(FFMpegError::FileDoesNotExistsError { file }) && file@ == path@),
{
    if exists {
        Ok(())
    } else {
        Err(FFMpegError::FileDoesNotExistsError { file: String::from_str(path) })
    }
}

/// The two sides of a rational written `N/D`, as text.
pub struct Fraction {
    pub numerator: String,
    pub denominator: String,
}

/// Splits `N/D` at its separator. Succeeds exactly when `s` holds one `/`;
/// the numeric reading of the two sides is the caller's.
pub fn split_fraction(s: &str) -> (r: Option<Fraction>)
    ensures
        r is Some <==> count_char(s@, '/') == 1,
        r is Some ==> r.unwrap().numerator@ + seq!['/'] + r.unwrap().denominator@ == s@,
        r is Some ==> count_char(r.unwrap().numerator@, '/') == 0,
{
    let n = s.unicode_len();
    let mut count: usize = 0;
    let mut pos: usize = 0;
    let mut i: usize = 0;
    while i < n
        invariant
            n == s@.len(),
            0 <= i <= n,
            count as nat == count_char(s@.take(i as int), '/'),
            count <= i,
            count >= 1 ==> pos < i && s@[pos as int] == '/' && count_char(
                s@.take(pos as int),
                '/',
            ) == 0,
        decreases n - i,
    {
        let c = s.get_char(i);
        proof {
            assert(s@.take(i + 1).drop_last() =~= s@.take(i as int));
        }
        if c == '/' {
            if count == 0 {
                pos = i;
            }
            count += 1;
        }
        i += 1;
    }
    assert(s@.take(n as int) =~= s@);
    if count != 1 {
        return None;
    }
    let num = s.substring_char(0, pos);
    let den = s.substring_char(pos + 1, n);
    assert(num@ + seq!['/'] + den@ =~= s@);
    assert(num@ =~= s@.take(pos as int));
    Some(Fraction { numerator: String::from_str(num), denominator: String::from_str(den) })
}

/// A video stream of the source.
pub struct VideoStreamInfo {
    /// The width of each frame.
    pub width: u32,
    /// The height of each frame.
    pub height: u32,
    /// The average frame rate, as the probe reported it.
    pub frame_rate: Fraction,
    /// The frame count of the metadata; the frames actually read may differ.
    pub frames_count: u64,
}

/// A stream of the source, by media kind.
pub enum StreamInfo {
    Video(VideoStreamInfo),
}

/// One stream as the probing tool describes it.
pub struct ProbeStream {
    pub width: Option<u32>,
    pub height: Option<u32>,
    pub avg_frame_rate: Fraction,
    pub nb_frames: u64,
}

/// A probed stream is admitted as video when it has a nonzero width and height.
pub open spec fn is_video(p: ProbeStream) -> bool {
    p.width is Some && p.width.unwrap() > 0 && p.height is Some && p.height.unwrap() > 0
}

pub open spec fn video_info_of(p: ProbeStream) -> VideoStreamInfo {
    VideoStreamInfo {
        width: p.width.unwrap(),
        height: p.height.unwrap(),
        frame_rate: p.avg_frame_rate,
        frames_count: p.nb_frames,
    }
}

/// The streams admitted from the probe's list, in order.
pub open spec fn admitted(s: Seq<ProbeStream>) -> Seq<StreamInfo>
    decreases s.len(),
{
    if s.len() == 0 {
        seq![]
    } else if is_video(s.last()) {
        admitted(s.drop_last()).push(StreamInfo::Video(video_info_of(s.last())))
    } else {
        admitted(s.drop_last())
    }
}

/// The video streams among `s`, in order.
pub open spec fn video_streams(s: Seq<StreamInfo>) -> Seq<VideoStreamInfo>
    decreases s.len(),
{
    if s.len() == 0 {
        seq![]
    } else {
        match s.last() {
            StreamInfo::Video(v) => video_streams(s.drop_last()).push(v),
        }
    }
}

/// The descriptions of the probed streams that qualify as video, in order.
pub open spec fn qualifying(s: Seq<ProbeStream>) -> Seq<VideoStreamInfo>
    decreases s.len(),
{
    if s.len() == 0 {
        seq![]
    } else if is_video(s.last()) {
        qualifying(s.drop_last()).push(video_info_of(s.last()))
    } else {
        qualifying(s.drop_last())
    }
}

/// The video streams kept from a probe are exactly the probed streams that
/// qualify, in order; so the primary stream of a probe exists exactly when one
/// stream qualifies, and is that stream.
pub proof fn lemma_video_streams_of_probe(s: Seq<ProbeStream>)
    ensures
        video_streams(admitted(s)) == qualifying(s),
    decreases s.len(),
{
    if s.len() > 0 {
        lemma_video_streams_of_probe(s.drop_last());
        if is_video(s.last()) {
            let a = admitted(s);
            assert(a.drop_last() =~= admitted(s.drop_last()));
        }
    }
}

/// What the probing tool reported of a source.
pub struct FFProbeInfo {
    pub duration: std::time::Duration,
    streams: Vec<StreamInfo>,
}

impl FFProbeInfo {
    /// The admitted streams, in the probe's order.
    pub closed spec fn streams(&self) -> Seq<StreamInfo> {
        self.streams@
    }

    /// The length of the source, as probed.
    pub closed spec fn spec_duration(&self) -> std::time::Duration {
        self.duration
    }

    /// Keeps the probed streams that have both dimensions, as video streams.
    pub fn from_streams(duration: std::time::Duration, probed: Vec<ProbeStream>) -> (r: Self)
        ensures
            r.spec_duration() == duration,
            r.streams() == admitted(probed@),
    {
        let n = probed.len();
        let mut rest = probed;
        let mut streams: Vec<StreamInfo> = Vec::new();
        let mut i: usize = 0;
        while i < n
            invariant
                n == probed@.len(),
                0 <= i <= n,
                rest@ == probed@.skip(i as int),
                streams@ == admitted(probed@.take(i as int)),
            decreases n - i,
        {
            let ghost before = rest@;
            let p = rest.remove(0);
            proof {
                assert(rest@ =~= probed@.skip(i + 1));
                assert(p == probed@[i as int]);
                assert(probed@.take(i + 1).drop_last() =~= probed@.take(i as int));
                assert(probed@.take(i + 1).last() == p);
            }
            let ok = match (p.width, p.height) {
                (Some(w), Some(h)) => w > 0 && h > 0,
                _ => false,
            };
            if ok {
                let v = VideoStreamInfo {
                    width: p.width.unwrap(),
                    height: p.height.unwrap(),
                    frame_rate: p.avg_frame_rate,
                    frames_count: p.nb_frames,
                };
                streams.push(StreamInfo::Video(v));
            }
            i += 1;
        }
        assert(probed@.take(n as int) =~= probed@);
        FFProbeInfo { duration, streams }
    }

    /// The length of the source.
    pub fn duration(&self) -> (r: std::time::Duration)
        ensures
            r == self.spec_duration(),
    {
        self.duration
    }

    /// The one video stream of the source; `None` where there are none or
    /// several, rather than a guess among them.
    pub fn primary_video_stream(&self) -> (r: Option<&VideoStreamInfo>)
        ensures
            r is Some <==> video_streams(self.streams()).len() == 1,
            r matches Some(v) ==> *v == video_streams(self.streams())[0],
    {
        let n = self.streams.len();
        let mut found: Option<&VideoStreamInfo> = None;
        let mut count: usize = 0;
        let mut i: usize = 0;
        while i < n
            invariant
                n == self.streams@.len(),
                0 <= i <= n,
                count <= i,
                count as nat == video_streams(self.streams@.take(i as int)).len(),
                count > 0 <==> found is Some,
                found matches Some(v) ==> *v == video_streams(self.streams@.take(i as int))[0],
            decreases n - i,
        {
            proof {
                assert(self.streams@.take(i + 1).drop_last() =~= self.streams@.take(i as int));
            }
            match &self.streams[i] {
                StreamInfo::Video(v) => {
                    if count == 0 {
                        found = Some(v);
                    }
                    count += 1;
                },
            }
            i += 1;
        }
        assert(self.streams@.take(n as int) =~= self.streams@);
        if count == 1 {
            found
        } else {
            None
        }
    }
}

} // verus!
