//! The decisions taken while a GStreamer pipeline looks for a thumbnail: how
//! to react to the outcome of pausing it, to each message on its bus, and to
//! each stream it offers.
//!
//! The pipeline itself is run by the caller, which hands each outcome over
//! and performs the step that comes back.

use vstd::prelude::*;
use crate::error::ErrorKind;
use crate::tags::{TagImage, chosen_cover, select_cover};

verus! {

/// What a thumbnail is made from.
#[derive(Debug)]
pub enum ThumbnailSource {
    /// A decoded video frame: width, height and tightly packed RGB pixels.
    VideoFrame(u32, u32, Vec<u8>),
    /// A cover picture embedded in the tags, as encoded image data.
    CoverArt(Vec<u8>),
}

/// An error message taken from the bus: its text and its debug details.
#[derive(Debug)]
pub struct BusError {
    /// The text of the error.
    pub message: String,
    /// Debug details of the error, where there are any.
    pub debug: Option<String>,
}

/// The report of a pipeline that could not be paused, given the error message
/// found on its bus, if any: a first line, then the error's text and its
/// debug details, each on a line of its own.
pub open spec fn state_change_details_text(error: Option<(Seq<char>, Option<Seq<char>>)>) -> Seq<
    char,
> {
    let head = "Error: Failed setting pipeline to PAUSED"@;
    match error {
        None => head,
        Some((message, None)) => head + "\n"@ + message,
        Some((message, Some(debug))) => head + "\n"@ + message + "\n"@ + debug,
    }
}

/// The view of an optional bus error that `state_change_details_text` reads.
pub open spec fn bus_error_view(error: Option<BusError>) -> Option<(Seq<char>, Option<Seq<char>>)> {
    match error {
        None => None,
        Some(e) => Some(
            (
                e.message@,
                match e.debug {
                    None => None,
                    Some(d) => Some(d@),
                },
            ),
        ),
    }
}

/// The report of a pipeline that could not be paused, as
/// `state_change_details_text` says.
pub fn state_change_error_details(error: &Option<BusError>) -> (r: String)
    ensures
        r@ == state_change_details_text(bus_error_view(*error)),
{
    proof {
        reveal_strlit("Error: Failed setting pipeline to PAUSED");
        reveal_strlit("\n");
    }
    let mut r = String::from_str("Error: Failed setting pipeline to PAUSED");
    match error {
        None => {},
        Some(e) => {
            r.append("\n");
            r.append(e.message.as_str());
            match &e.debug {
                None => {},
                Some(d) => {
                    r.append("\n");
                    r.append(d.as_str());
                },
            }
        },
    }
    r
}

/// The outcome of asking a pipeline to pause.
#[derive(Debug)]
pub enum PauseOutcome {
    /// The pipeline pauses, now or once it has prerolled.
    Prerolling,
    /// The pipeline is live and cannot preroll.
    Live,
    /// The state change failed; the error message found on the bus, if any.
    Failed(Option<BusError>),
}

/// Whether the pipeline can go on after asking it to pause. A live stream is
/// refused, since a thumbnail of it makes little sense; a failure is reported
/// with `state_change_error_details`.
pub fn check_pause(outcome: &PauseOutcome) -> (r: core::result::Result<(), ErrorKind>)
    ensures
        match *outcome {
            PauseOutcome::Prerolling => r is Ok,
            PauseOutcome::Live => r matches Err(ErrorKind::Other(m))
                && m@ == "Error: thumbnails of live streams make little sense"@,
            PauseOutcome::Failed(e) => r matches Err(ErrorKind::Other(m))
                && m@ == state_change_details_text(bus_error_view(e)),
        },
{
    match outcome {
        PauseOutcome::Prerolling => Ok(()),
        PauseOutcome::Live => {
            proof {
                reveal_strlit("Error: thumbnails of live streams make little sense");
            }
            Err(ErrorKind::Other(String::from_str("Error: thumbnails of live streams make little sense")))
        },
        PauseOutcome::Failed(e) => Err(ErrorKind::Other(state_change_error_details(e))),
    }
}

/// A message taken from the bus, as far as the search for a thumbnail reads
/// it.
#[derive(Debug)]
pub enum BusEvent {
    /// The pipeline finished an asynchronous state change.
    AsyncDone,
    /// An error, with its text.
    Error(String),
    /// A tag list, with the pictures it holds.
    Tag(Vec<TagImage>),
    /// The streams of the source have been selected: every pad has been
    /// added.
    StreamsSelected,
    /// Any other message.
    Other,
}

/// What to do after a bus message.
#[derive(Debug)]
pub enum ProbeStep {
    /// Wait for the next message.
    Continue,
    /// The pipeline has prerolled without a cover picture.
    Done,
    /// Use the picture at this index of the tag list as cover.
    Cover(usize),
    /// Give up with this error.
    Fail(ErrorKind),
}

/// The step a cover picture in a tag list leads to: the chosen cover where
/// there is one, else waiting for the next message.
pub open spec fn tag_step_ok(images: Seq<TagImage>, r: ProbeStep) -> bool {
    match chosen_cover(images) {
        Some(i) => r matches ProbeStep::Cover(j) && j as int == i,
        None => r is Continue,
    }
}

fn tag_step(images: &Vec<TagImage>) -> (r: ProbeStep)
    ensures
        tag_step_ok(images@, r),
{
    match select_cover(images) {
        Some(i) => ProbeStep::Cover(i),
        None => ProbeStep::Continue,
    }
}

/// The step after a message on the bus of a pipeline that looks for the cover
/// of an audio file: prerolling ends the search without a cover, an error
/// ends it with `Error: Failed pre-rolling pipeline: <error>`, and the first
/// tag list with a usable picture ends it with that picture.
pub fn audio_step(event: &BusEvent) -> (r: ProbeStep)
    ensures
        match *event {
            BusEvent::AsyncDone => r is Done,
            BusEvent::Error(e) => r matches ProbeStep::Fail(ErrorKind::Other(m)) && m@
                == "Error: Failed pre-rolling pipeline: "@ + e@,
            BusEvent::Tag(images) => tag_step_ok(images@, r),
            BusEvent::StreamsSelected => r is Continue,
            BusEvent::Other => r is Continue,
        },
{
    match event {
        BusEvent::AsyncDone => ProbeStep::Done,
        BusEvent::Error(e) => {
            proof {
                reveal_strlit("Error: Failed pre-rolling pipeline: ");
            }
            let mut m = String::from_str("Error: Failed pre-rolling pipeline: ");
            m.append(e.as_str());
            ProbeStep::Fail(ErrorKind::Other(m))
        },
        BusEvent::Tag(images) => tag_step(images),
        BusEvent::StreamsSelected => ProbeStep::Continue,
        BusEvent::Other => ProbeStep::Continue,
    }
}

/// The result of the search for the cover of an audio file: the cover, or
/// the error `No tag image found`.
pub fn require_cover(cover: Option<ThumbnailSource>) -> (r: core::result::Result<
    ThumbnailSource,
    ErrorKind,
>)
    ensures
        match cover {
            Some(c) => r == Ok::<ThumbnailSource, ErrorKind>(c),
            None => r matches Err(ErrorKind::Other(m)) && m@ == "No tag image found"@,
        },
{
    match cover {
        Some(c) => Ok(c),
        None => {
            proof {
                reveal_strlit("No tag image found");
            }
            Err(ErrorKind::Other(String::from_str("No tag image found")))
        },
    }
}

/// What the search for a video stream reads of a stream offered by the
/// source.
#[derive(Debug)]
pub struct SourceStream {
    /// Whether the stream is a video stream.
    pub is_video: bool,
    /// The name of the stream's type, such as `audio`.
    pub stream_type: String,
    /// The pixel aspect ratio of the video as numerator and denominator,
    /// where the caps give one, or the message of the error met while
    /// reading it.
    pub pixel_aspect_ratio: core::result::Result<Option<(i32, i32)>, String>,
}

/// Checks a stream offered by the source before it is linked to the video
/// branch: only a video stream is accepted, and its pixel aspect ratio must
/// be readable. The result is the pixel aspect ratio the frame width is to be
/// multiplied with, where the caps give one.
pub fn plan_source_link(stream: &SourceStream) -> (r: core::result::Result<
    Option<(i32, i32)>,
    ErrorKind,
>)
    ensures
        !stream.is_video ==> (r matches Err(ErrorKind::Other(m)) && m@ == "Stream is of type '"@
            + stream.stream_type@ + "' instead of 'video'"@),
        stream.is_video ==> match stream.pixel_aspect_ratio {
            Err(e) => r matches Err(ErrorKind::Other(m)) && m@ == e@,
            Ok(par) => r == Ok::<Option<(i32, i32)>, ErrorKind>(par),
        },
{
    if !stream.is_video {
        proof {
            reveal_strlit("Stream is of type '");
            reveal_strlit("' instead of 'video'");
        }
        let mut m = String::from_str("Stream is of type '");
        m.append(stream.stream_type.as_str());
        m.append("' instead of 'video'");
        return Err(ErrorKind::Other(m));
    }
    match &stream.pixel_aspect_ratio {
        Err(e) => Err(ErrorKind::Other(e.clone())),
        Ok(par) => Ok(*par),
    }
}

/// The status of the link of the source to the video branch after the link
/// results `results`, starting from `status`: a success is kept, an error is
/// replaced by the next result.
pub open spec fn link_status_after(
    status: core::result::Result<(), ErrorKind>,
    results: Seq<core::result::Result<(), ErrorKind>>,
) -> core::result::Result<(), ErrorKind>
    decreases results.len(),
{
    if results.len() == 0 {
        status
    } else {
        let before = link_status_after(status, results.drop_last());
        if before is Err {
            results.last()
        } else {
            before
        }
    }
}

/// Once a stream has been linked, the link status stays a success, whatever
/// the later streams give.
pub proof fn lemma_link_success_is_kept(
    status: core::result::Result<(), ErrorKind>,
    results: Seq<core::result::Result<(), ErrorKind>>,
    i: int,
)
    requires
        0 <= i < results.len(),
        results[i] is Ok,
    ensures
        link_status_after(status, results) is Ok,
    decreases results.len(),
{
    if i < results.len() - 1 {
        lemma_link_success_is_kept(status, results.drop_last(), i);
    }
}

/// The state of the search for a video frame or cover: the status of the
/// link of the source to the video branch. It starts as the error
/// `No pad added for source.`, which the first stream replaces.
pub struct VideoProbe {
    link_status: core::result::Result<(), ErrorKind>,
}

impl VideoProbe {
    /// The status of the link of the source to the video branch.
    pub closed spec fn status(&self) -> core::result::Result<(), ErrorKind> {
        self.link_status
    }

    /// A search in which no stream has been linked yet.
    pub fn new() -> (p: VideoProbe)
        ensures
            p.status() matches Err(ErrorKind::Other(m)) && m@ == "No pad added for source."@,
    {
        proof {
            reveal_strlit("No pad added for source.");
        }
        VideoProbe {
            link_status: Err(ErrorKind::Other(String::from_str("No pad added for source."))),
        }
    }

    /// Records the result of linking a stream of the source: a success is
    /// kept, an error is replaced by `result`.
    pub fn record_link(&mut self, result: core::result::Result<(), ErrorKind>)
        ensures
            final(self).status() == link_status_after(old(self).status(), seq![result]),
    {
        let ghost before = self.link_status;
        proof {
            let results = seq![result];
            assert(results.drop_last() =~= Seq::<core::result::Result<(), ErrorKind>>::empty());
            assert(link_status_after(before, results.drop_last()) == before);
        }
        if self.link_status.is_err() {
            self.link_status = result;
        }
    }

    /// The step after a message on the bus of a pipeline that looks for a
    /// video thumbnail. Once the streams are selected, a failed link ends the
    /// search with its error, and the status is reset to success. Prerolling
    /// ends the search for a cover, so that frames are taken; an error ends
    /// it with `Failed pre-rolling pipeline: <error>`; the first tag list
    /// with a usable picture ends it with that picture.
    pub fn step(&mut self, event: &BusEvent) -> (r: ProbeStep)
        ensures
            match *event {
                BusEvent::StreamsSelected => final(self).status() is Ok && match old(
                    self,
                ).status() {
                    Ok(_) => r is Continue,
                    Err(e) => r == ProbeStep::Fail(e),
                },
                BusEvent::AsyncDone => r is Done && final(self).status() == old(self).status(),
                BusEvent::Error(e) => r matches ProbeStep::Fail(ErrorKind::Other(m)) && m@
                    == "Failed pre-rolling pipeline: "@ + e@ && final(self).status() == old(
                    self,
                ).status(),
                BusEvent::Tag(images) => tag_step_ok(images@, r) && final(self).status() == old(
                    self,
                ).status(),
                BusEvent::Other => r is Continue && final(self).status() == old(self).status(),
            },
    {
        match event {
            BusEvent::StreamsSelected => {
                let mut status: core::result::Result<(), ErrorKind> = Ok(());
                core::mem::swap(&mut status, &mut self.link_status);
                match status {
                    Ok(_) => ProbeStep::Continue,
                    Err(e) => ProbeStep::Fail(e),
                }
            },
            BusEvent::AsyncDone => ProbeStep::Done,
            BusEvent::Error(e) => {
                proof {
                    reveal_strlit("Failed pre-rolling pipeline: ");
                }
                let mut m = String::from_str("Failed pre-rolling pipeline: ");
                m.append(e.as_str());
                ProbeStep::Fail(ErrorKind::Other(m))
            },
            BusEvent::Tag(images) => tag_step(images),
            BusEvent::Other => ProbeStep::Continue,
        }
    }
}

/// Whether the pipeline can go on after a seek, given the error message on
/// the bus, if the seek ended with one.
pub fn check_seek(error: &Option<String>) -> (r: core::result::Result<(), ErrorKind>)
    ensures
        match *error {
            None => r is Ok,
            Some(e) => r matches Err(ErrorKind::Other(m)) && m@
                == "Error: Failed pre-rolling pipeline after seek: "@ + e@,
        },
{
    match error {
        None => Ok(()),
        Some(e) => {
            proof {
                reveal_strlit("Error: Failed pre-rolling pipeline after seek: ");
            }
            let mut m = String::from_str("Error: Failed pre-rolling pipeline after seek: ");
            m.append(e.as_str());
            Err(ErrorKind::Other(m))
        },
    }
}

} // verus!
