use vstd::prelude::*;

use crate::error::FFMpegError;
use crate::probe::{video_streams, FFProbeInfo, VideoStreamInfo};
use crate::showinfo::{
    insert_all, is_showinfo_line, parse_showinfo, regex_pair_captures, ShowInfoFields,
    TOKEN_PATTERN,
};

verus! {

/// Relies on std::io::Error::from: an error of kind UnexpectedEof, for a
/// stream that ended inside a frame.
#[verifier::external_body]
fn unexpected_eof() -> (r: std::io::Error) {
    std::io::Error::from(std::io::ErrorKind::UnexpectedEof)
}

/// One decoded frame.
pub struct Frame {
    /// The width of the image.
    pub width: u32,
    /// The height of the image.
    pub height: u32,
    /// The image: rows of interleaved 8-bit red, green and blue, top row first.
    pub pixels: Vec<u8>,
    /// The frame's presentation time in seconds, as the decoder printed it.
    pub pts_time: String,
}

/// What the reader needs next from the decoder's pipes.
pub enum ReadRequest {
    /// One more line of the diagnostic pipe.
    Line,
    /// Exactly this many bytes of the pixel pipe, or fewer where it ends.
    Pixels(usize),
    /// Nothing: the sequence of frames is over.
    Finished,
}

/// What a read brought about.
pub enum Progress {
    /// The cycle goes on; see `request` for the next read.
    Continue,
    /// A frame is complete.
    Frame(Frame),
    /// Both pipes closed at a cycle boundary: no more frames.
    End,
    /// The sequence stops on this error.
    Failed(FFMpegError),
}

/// Diagnostic lines printed by the filter for each frame.
pub const LINES_PER_FRAME: usize = 2;

/// A line that counts toward a cycle: a per-frame diagnostic line whose
/// tokens could be read.
pub open spec fn recognized(line: Seq<char>) -> bool {
    is_showinfo_line(line) && regex_pair_captures(TOKEN_PATTERN@, line) is Some
}

pub open spec fn line_tokens(line: Seq<char>) -> Seq<(Seq<char>, Seq<char>)> {
    regex_pair_captures(TOKEN_PATTERN@, line).unwrap()
}

/// The paced two-pipe read cycle: two recognized diagnostic lines, whose
/// fields give the frame's timestamp, then exactly one frame of pixel bytes.
pub struct FrameReader {
    width: u32,
    height: u32,
    frame_len: usize,
    fields: ShowInfoFields,
    lines_seen: usize,
    pending_pts: Option<String>,
    finished: bool,
}

impl FrameReader {
    pub closed spec fn spec_width(&self) -> u32 {
        self.width
    }

    pub closed spec fn spec_height(&self) -> u32 {
        self.height
    }

    /// Bytes of one frame: width × height × 3.
    pub closed spec fn spec_frame_len(&self) -> nat {
        self.frame_len as nat
    }

    /// Recognized lines read in the current cycle.
    pub closed spec fn spec_lines_seen(&self) -> nat {
        self.lines_seen as nat
    }

    /// Fields gathered in the current cycle.
    pub closed spec fn spec_fields(&self) -> Map<Seq<char>, Seq<char>> {
        self.fields@
    }

    /// The timestamp of the frame whose pixels are awaited, if any.
    pub closed spec fn spec_pending_pts(&self) -> Option<Seq<char>> {
        match self.pending_pts {
            Some(s) => Some(s@),
            None => None,
        }
    }

    pub closed spec fn spec_finished(&self) -> bool {
        self.finished
    }

    pub closed spec fn wf(&self) -> bool {
        &&& self.frame_len as nat == self.width * self.height * 3
        &&& self.lines_seen < LINES_PER_FRAME
        &&& self.pending_pts is Some ==> self.lines_seen == 0 && self.fields@ == Map::<
            Seq<char>,
            Seq<char>,
        >::empty()
    }

    /// A reader for frames of `stream`'s size; `None` where one frame would
    /// not fit in memory.
    pub fn new(stream: &VideoStreamInfo) -> (r: Option<Self>)
        ensures
            r is Some <==> stream.width * stream.height * 3 <= usize::MAX,
            r matches Some(rd) ==> {
                &&& rd.wf()
                &&& rd.spec_width() == stream.width
                &&& rd.spec_height() == stream.height
                &&& rd.spec_frame_len() == stream.width * stream.height * 3
                &&& rd.spec_lines_seen() == 0
                &&& rd.spec_fields() == Map::<Seq<char>, Seq<char>>::empty()
                &&& rd.spec_pending_pts() is None
                &&& !rd.spec_finished()
            },
    {
        let w = stream.width as u64;
        let h = stream.height as u64;
        assert(w * h <= 0xffff_ffffu64 * 0xffff_ffffu64) by (nonlinear_arith)
            requires
                w <= 0xffff_ffffu64,
                h <= 0xffff_ffffu64,
        ;
        let wh: u64 = w * h;
        if wh > u64::MAX / 3 {
            return None;
        }
        let total: u64 = wh * 3;
        if total > usize::MAX as u64 {
            return None;
        }
        Some(
            FrameReader {
                width: stream.width,
                height: stream.height,
                frame_len: total as usize,
                fields: ShowInfoFields::new(),
                lines_seen: 0,
                pending_pts: None,
                finished: false,
            },
        )
    }

    /// A reader for the primary video stream of `info`; a parse failure where
    /// there is not exactly one video stream, or its frames would not fit in
    /// memory.
    pub fn for_probe(info: &FFProbeInfo) -> (r: Result<Self, FFMpegError>)
        ensures
            r is Ok <==> video_streams(info.streams()).len() == 1 && ({
                let v = video_streams(info.streams())[0];
                v.width * v.height * 3 <= usize::MAX
            }),
            r is Err ==> r matches Err(FFMpegError::ParseError),
            r matches Ok(rd) ==> {
                let v = video_streams(info.streams())[0];
                &&& rd.wf()
                &&& rd.spec_width() == v.width
                &&& rd.spec_height() == v.height
                &&& rd.spec_frame_len() == v.width * v.height * 3
                &&& rd.spec_lines_seen() == 0
                &&& rd.spec_fields() == Map::<Seq<char>, Seq<char>>::empty()
                &&& rd.spec_pending_pts() is None
                &&& !rd.spec_finished()
            },
    {
        match info.primary_video_stream() {
            Some(v) => match FrameReader::new(v) {
                Some(rd) => Ok(rd),
                None => Err(FFMpegError::ParseError),
            },
            None => Err(FFMpegError::ParseError),
        }
    }

    /// The next read: lines until two were recognized, then one frame's bytes.
    pub fn request(&self) -> (r: ReadRequest)
        ensures
            self.spec_finished() ==> r is Finished,
            !self.spec_finished() && self.spec_pending_pts() is Some ==> r == ReadRequest::Pixels(
                self.spec_frame_len() as usize,
            ),
            !self.spec_finished() && self.spec_pending_pts() is None ==> r is Line,
    {
        if self.finished {
            ReadRequest::Finished
        } else if self.pending_pts.is_some() {
            ReadRequest::Pixels(self.frame_len)
        } else {
            ReadRequest::Line
        }
    }

    /// Takes the result of reading one line of the diagnostic pipe: the line,
    /// `None` at its end, or the read's error.
    ///
    /// The pipe ending before any recognized line of a cycle ends the sequence
    /// cleanly. Ending after one of the two is a desynchronized stream and an
    /// I/O failure. A second recognized line without a `pts_time` field is a
    /// parse failure.
    pub fn on_line(&mut self, read: Result<Option<String>, std::io::Error>) -> (r: Progress)
        requires
            old(self).wf(),
            !old(self).spec_finished(),
            old(self).spec_pending_pts() is None,
        ensures
            final(self).wf(),
            final(self).spec_width() == old(self).spec_width(),
            final(self).spec_height() == old(self).spec_height(),
            final(self).spec_frame_len() == old(self).spec_frame_len(),
            r is Frame ==> false,
            final(self).spec_finished() <==> (r is End || r is Failed),
            read is Err ==> r matches Progress::Failed(FFMpegError::IOError { .. }),
            read == Ok::<Option<String>, std::io::Error>(None) ==> (if old(self).spec_lines_seen()
                == 0 {
                r is End
            } else {
                r matches Progress::Failed(FFMpegError::IOError { .. })
            }),
            read matches Ok(Some(line)) ==> (!recognized(line@) ==> {
                &&& r is Continue
                &&& final(self).spec_lines_seen() == old(self).spec_lines_seen()
                &&& final(self).spec_fields() == old(self).spec_fields()
                &&& final(self).spec_pending_pts() is None
            }),
            read matches Ok(Some(line)) ==> (recognized(line@) && old(self).spec_lines_seen() + 1
                < LINES_PER_FRAME ==> {
                &&& r is Continue
                &&& final(self).spec_lines_seen() == old(self).spec_lines_seen() + 1
                &&& final(self).spec_fields() == insert_all(
                    old(self).spec_fields(),
                    line_tokens(line@),
                )
                &&& final(self).spec_pending_pts() is None
            }),
            read matches Ok(Some(line)) ==> (recognized(line@) && old(self).spec_lines_seen() + 1
                == LINES_PER_FRAME ==> {
                let fields = insert_all(old(self).spec_fields(), line_tokens(line@));
                if fields.contains_key("pts_time"@) {
                    &&& r is Continue
                    &&& final(self).spec_pending_pts() == Some(fields["pts_time"@])
                    &&& final(self).spec_lines_seen() == 0
                    &&& final(self).spec_fields() == Map::<Seq<char>, Seq<char>>::empty()
                    &&& !final(self).spec_finished()
                } else {
                    r matches Progress::Failed(FFMpegError::ParseError)
                }
            }),
    {
        match read {
            Err(e) => {
                self.finished = true;
                Progress::Failed(FFMpegError::IOError { source: e })
            },
            Ok(None) => {
                self.finished = true;
                if self.lines_seen == 0 {
                    Progress::End
                } else {
                    Progress::Failed(FFMpegError::IOError { source: unexpected_eof() })
                }
            },
            Ok(Some(line)) => {
                if parse_showinfo(line.as_str(), &mut self.fields).is_none() {
                    return Progress::Continue;
                }
                self.lines_seen = self.lines_seen + 1;
                if self.lines_seen < LINES_PER_FRAME {
                    return Progress::Continue;
                }
                let pts = match self.fields.get("pts_time") {
                    Some(v) => v.clone(),
                    None => {
                        self.finished = true;
                        self.lines_seen = 0;
                        return Progress::Failed(FFMpegError::ParseError);
                    },
                };
                self.pending_pts = Some(pts);
                self.lines_seen = 0;
                self.fields = ShowInfoFields::new();
                Progress::Continue
            },
        }
    }

    /// Takes the result of reading one frame's bytes from the pixel pipe: what
    /// was read before the pipe ended (at most `request`'s count), or the read's
    /// error.
    ///
    /// No bytes at all is the clean end of the sequence; exactly one frame's
    /// bytes give the frame; any other count is a truncated frame and an I/O
    /// failure, never a padded or cut image.
    pub fn on_pixels(&mut self, read: Result<Vec<u8>, std::io::Error>) -> (r: Progress)
        requires
            old(self).wf(),
            !old(self).spec_finished(),
            old(self).spec_pending_pts() is Some,
        ensures
            final(self).wf(),
            final(self).spec_width() == old(self).spec_width(),
            final(self).spec_height() == old(self).spec_height(),
            final(self).spec_frame_len() == old(self).spec_frame_len(),
            final(self).spec_finished() <==> (r is End || r is Failed),
            read is Err ==> r matches Progress::Failed(FFMpegError::IOError { .. }),
            read matches Ok(b) && b@.len() == 0 ==> r is End,
            read matches Ok(b) ==> (b@.len() > 0 && b@.len() == old(self).spec_frame_len() ==> {
                &&& r is Frame
                &&& Some(r->Frame_0.pts_time@) == old(self).spec_pending_pts()
                &&& r->Frame_0.pixels == b
                &&& r->Frame_0.width == old(self).spec_width()
                &&& r->Frame_0.height == old(self).spec_height()
                &&& final(self).spec_pending_pts() is None
                &&& final(self).spec_lines_seen() == 0
                &&& final(self).spec_fields() == Map::<Seq<char>, Seq<char>>::empty()
                &&& !final(self).spec_finished()
            }),
            read matches Ok(b) && b@.len() > 0 && b@.len() != old(self).spec_frame_len()
                ==> r matches Progress::Failed(FFMpegError::IOError { .. }),
    {
        match read {
            Err(e) => {
                self.finished = true;
                Progress::Failed(FFMpegError::IOError { source: e })
            },
            Ok(bytes) => {
                let n = bytes.len();
                if n == 0 {
                    self.finished = true;
                    return Progress::End;
                }
                if n != self.frame_len {
                    self.finished = true;
                    return Progress::Failed(FFMpegError::IOError { source: unexpected_eof() });
                }
                let pts = self.pending_pts.take().unwrap();
                Progress::Frame(Frame { width: self.width, height: self.height, pixels: bytes, pts_time: pts })
            },
        }
    }
}

} // verus!
