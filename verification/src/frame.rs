//! A video frame that turns itself, once, into an encoded image.

use vstd::prelude::*;
use crate::errors::{FrameError, PipelineError};
use crate::pipeline::{
    encoded, is_request_for, scale_and_make_bitmap, scale_request, warning_view, ScaleRequest,
    ScaledFrame,
};
use crate::rotation::Rotate;
use crate::video::{copy_planes, plane_bytes, FilterGraph, VideoFrame};

verus! {

/// A frame as the decoder left it, with what is needed to convert it.
#[derive(Clone, Debug, PartialEq, Eq)]
pub struct NotRgbFrame {
    pub original_width: u32,
    pub original_height: u32,
    pub scaled_width: u32,
    pub scaled_height: u32,
    pub rotate: Rotate,
    pub original_src: String,
    pub unscaled_frame: VideoFrame,
    pub size: u128,
    pub tone_mapped: bool,
    pub filter_graph: FilterGraph,
}

impl NotRgbFrame {
    /// The image that the frame is to become has pixels.
    pub open spec fn wf(&self) -> bool {
        self.scaled_width > 0 && self.scaled_height > 0
    }
}

/// The encoded image of a frame.
#[derive(Clone, Debug, PartialEq, Eq)]
pub struct RgbFrame {
    pub data: Vec<u8>,
}

/// A frame that is either still as the decoder left it, or already the
/// encoded image, never both.
#[derive(Clone, Debug, PartialEq, Eq)]
pub struct ScalableFrame {
    pub native_frame: Option<NotRgbFrame>,
    pub rgb_frame: Option<RgbFrame>,
    pub transparent: bool,
}

/// What has happened outside since the frame last asked for something.
#[derive(Clone, Debug, PartialEq, Eq)]
pub enum Event {
    /// Nothing yet: the frame is asked to hold its encoded bytes.
    Start,
    /// The tone-map filter was set up; `applicable` says whether it has
    /// anything to do for this frame.
    ToneMapProbed { applicable: bool },
    /// The tone-map filter could not be set up.
    ToneMapProbeFailed,
    /// The tone-map filter made this frame of the decoded one.
    ToneMapped(VideoFrame),
    /// The tone-map filter took the decoded frame and gave none back.
    ToneMapFailed,
    /// The scaler made this plane.
    Scaled(ScaledFrame),
    /// The scaler failed.
    ScaleFailed,
}

/// What the frame asks to be done next, or how it ended.
#[derive(Clone, Debug, PartialEq, Eq)]
pub enum Action {
    /// Set up the tone-map filter and report whether it applies.
    ProbeToneMap(FilterGraph),
    /// Push the decoded frame through the tone-map filter and pull one
    /// frame.
    ApplyToneMap(FilterGraph),
    /// Scale and convert these planes.
    Scale(ScaleRequest),
    /// The frame holds its encoded bytes. A warning is to be passed on.
    Finished { warning: Option<String> },
    /// The frame could not be converted, and is as it was.
    Failed(FrameError),
}

/// One step of a frame: fed `event`, the frame `before` becomes `after`
/// and answers `action`.
///
/// A frame that holds its encoded bytes stays as it is and is finished. A
/// frame that holds nothing is in no valid state. A decoded frame asks, in
/// turn, for the tone-map filter to be set up, for the filter to be run
/// where the frame wants tone mapping and the filter applies, and for the
/// planes to be scaled: its own where no filter ran, the filter's
/// otherwise. Of the scaled plane it makes the encoded image and keeps that
/// in place of the decoded frame. Where a step outside fails, or the image
/// cannot be made, the frame stays as it was.
pub open spec fn steps(before: ScalableFrame, event: Event, after: ScalableFrame, action: Action) -> bool {
    if before.rgb_frame is Some {
        after == before && action == (Action::Finished { warning: None })
    } else if before.native_frame is None {
        after == before && action == Action::Failed(FrameError::InvalidState)
    } else {
        let native = before.native_frame->Some_0;
        match event {
            Event::Start => after == before && action == Action::ProbeToneMap(native.filter_graph),
            Event::ToneMapProbed { applicable } => {
                &&& after == before
                &&& if native.tone_mapped && applicable {
                    action == Action::ApplyToneMap(native.filter_graph)
                } else {
                    action matches Action::Scale(request) && is_request_for(
                        request,
                        native,
                        plane_bytes(native.unscaled_frame.planes),
                        native.unscaled_frame.format,
                        native.unscaled_frame.linesize,
                        before.transparent,
                    )
                }
            },
            Event::ToneMapped(filtered) => {
                &&& after == before
                &&& action matches Action::Scale(request)
                &&& is_request_for(
                    request,
                    native,
                    plane_bytes(filtered.planes),
                    filtered.format,
                    filtered.linesize,
                    before.transparent,
                )
            },
            Event::ToneMapProbeFailed | Event::ToneMapFailed => after == before && action
                == Action::Failed(
                FrameError::ConversionFailed { reason: PipelineError::FilterError },
            ),
            Event::ScaleFailed => after == before && action == Action::Failed(
                FrameError::ConversionFailed { reason: PipelineError::ScalerError },
            ),
            Event::Scaled(scaled) => match encoded(
                native,
                scaled.data@,
                scaled.stride as int,
                before.transparent,
            ) {
                Ok((bytes, warning)) => {
                    &&& after.native_frame is None
                    &&& after.rgb_frame matches Some(rgb) && rgb.data@ == bytes
                    &&& after.transparent == before.transparent
                    &&& action matches Action::Finished { warning: text } && warning_view(text)
                        == warning
                },
                Err(reason) => after == before && action == Action::Failed(
                    FrameError::ConversionFailed { reason },
                ),
            },
        }
    }
}

impl ScalableFrame {
    /// The frame holds exactly one of the two, and a decoded frame knows a
    /// target size with pixels.
    pub open spec fn wf(&self) -> bool {
        &&& (self.native_frame is Some) != (self.rgb_frame is Some)
        &&& self.native_frame matches Some(native) ==> native.wf()
    }

    /// The encoded bytes, once the frame holds them.
    pub open spec fn bytes(&self) -> Seq<u8> {
        self.rgb_frame->Some_0.data@
    }

    /// The size that the frame accounts for: the decoder's estimate while
    /// the decoded frame is there, the length of the encoded bytes after.
    pub open spec fn size_in_bytes(&self) -> int {
        match self.native_frame {
            Some(native) => native.size as int,
            None => match self.rgb_frame {
                Some(rgb) => rgb.data@.len() as int,
                None => 0,
            },
        }
    }

    /// A frame as the decoder left it.
    pub fn new(native_frame: NotRgbFrame, transparent: bool) -> (r: Self)
        ensures
            r.native_frame == Some(native_frame),
            r.rgb_frame is None,
            r.transparent == transparent,
            r.wf() <==> native_frame.wf(),
    {
        Self { native_frame: Some(native_frame), rgb_frame: None, transparent }
    }

    /// Takes the frame one step towards holding its encoded bytes: tells
    /// it what has happened and returns what it asks for next.
    pub fn ensure_data(&mut self, event: Event) -> (action: Action)
        ensures
            steps(*old(self), event, *final(self), action),
            old(self).wf() ==> final(self).wf(),
    {
        if self.rgb_frame.is_some() {
            return Action::Finished { warning: None };
        }
        match &self.native_frame {
            None => Action::Failed(FrameError::InvalidState),
            Some(frame) => {
                match event {
                    Event::Start => Action::ProbeToneMap(frame.filter_graph),
                    Event::ToneMapProbed { applicable } => {
                        if frame.tone_mapped && applicable {
                            Action::ApplyToneMap(frame.filter_graph)
                        } else {
                            let planes = copy_planes(&frame.unscaled_frame.planes);
                            Action::Scale(
                                scale_request(
                                    frame,
                                    planes,
                                    frame.unscaled_frame.format.duplicate(),
                                    frame.unscaled_frame.linesize,
                                    self.transparent,
                                ),
                            )
                        }
                    },
                    Event::ToneMapped(video) => Action::Scale(
                        scale_request(
                            frame,
                            video.planes,
                            video.format,
                            video.linesize,
                            self.transparent,
                        ),
                    ),
                    Event::ToneMapProbeFailed | Event::ToneMapFailed => Action::Failed(
                        FrameError::ConversionFailed { reason: PipelineError::FilterError },
                    ),
                    Event::ScaleFailed => Action::Failed(
                        FrameError::ConversionFailed { reason: PipelineError::ScalerError },
                    ),
                    Event::Scaled(scaled) => {
                        match scale_and_make_bitmap(frame, scaled, self.transparent) {
                            Ok(image) => {
                                self.rgb_frame = Some(RgbFrame { data: image.data });
                                self.native_frame = None;
                                Action::Finished { warning: image.warning }
                            },
                            Err(reason) => Action::Failed(
                                FrameError::ConversionFailed { reason },
                            ),
                        }
                    },
                }
            },
        }
    }

    /// The encoded bytes of a frame that holds them.
    pub fn get_data(&self) -> (r: Result<Vec<u8>, FrameError>)
        ensures
            r is Ok <==> self.rgb_frame is Some,
            r matches Ok(data) ==> data@ == self.bytes(),
            r matches Err(e) ==> (self.native_frame is Some ==> e == FrameError::NotReady),
            r matches Err(e) ==> (self.native_frame is None ==> e == FrameError::InvalidState),
    {
        match &self.rgb_frame {
            None => match &self.native_frame {
                Some(_) => Err(FrameError::NotReady),
                None => Err(FrameError::InvalidState),
            },
            Some(frame) => Ok(frame.data.clone()),
        }
    }

    /// The bytes that the frame accounts for.
    pub fn get_size(&self) -> (size: u128)
        ensures
            size == self.size_in_bytes(),
    {
        let mut size: u128 = 0;
        match &self.rgb_frame {
            None => {},
            Some(frame) => {
                size = frame.data.len() as u128;
            },
        }
        match &self.native_frame {
            None => {},
            Some(frame) => {
                size = frame.size;
            },
        }
        size
    }
}

/// A frame that has finished holds its encoded bytes. Whatever it is fed
/// after that, it stays as it is, asks for nothing and says again that it
/// is finished: the bytes it hands out are the same, and nothing is
/// computed a second time.
pub proof fn lemma_materialize_idempotent(
    first: ScalableFrame,
    event: Event,
    second: ScalableFrame,
    action: Action,
    again: Event,
    third: ScalableFrame,
    answer: Action,
)
    requires
        steps(first, event, second, action),
        action is Finished,
        steps(second, again, third, answer),
    ensures
        second.rgb_frame is Some,
        third == second,
        third.bytes() == second.bytes(),
        answer == (Action::Finished { warning: None }),
{
}

/// While the decoded frame is there, the frame accounts for the decoder's
/// estimate; once it has finished, for exactly the length of its bytes.
pub proof fn lemma_size_accounting(
    first: ScalableFrame,
    event: Event,
    second: ScalableFrame,
    action: Action,
)
    requires
        first.wf(),
        steps(first, event, second, action),
    ensures
        first.native_frame matches Some(native) ==> first.size_in_bytes() == native.size,
        action is Finished ==> second.size_in_bytes() == second.bytes().len(),
{
}

/// A frame holds exactly one of the decoded frame and the encoded bytes,
/// before and after every step. A step never brings the decoded frame
/// back, changes the frame only by finishing, and never finds a frame in
/// no state.
pub proof fn lemma_step_keeps_state(
    before: ScalableFrame,
    event: Event,
    after: ScalableFrame,
    action: Action,
)
    requires
        before.wf(),
        steps(before, event, after, action),
    ensures
        after.wf(),
        before.rgb_frame is Some ==> after.rgb_frame is Some,
        !(action is Finished) ==> after == before,
        action != Action::Failed(FrameError::InvalidState),
{
}

} // verus!
