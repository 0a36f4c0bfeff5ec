//! The life of one request, from the bytes received to the bytes returned.
//!
//! A request passes through a fixed sequence of stages. Three of them need
//! work that this crate does not do: decoding the image, running the model
//! and encoding the cutout. The request says which work it waits for
//! ([`Request::pending`]); whoever drives it does that work and reports what
//! came of it as an [`Event`]; [`Request::advance`] decides what follows. A
//! failure at any stage ends the request: it stays `Failed` whatever is
//! reported afterwards.

use vstd::prelude::*;
use crate::compositor::{composite, composited};
use crate::error::PipelineError;
use crate::grid::{BinaryMask, GridView, Image, ResampledMask};
use crate::normalizer::{normalize, RawMask, RawMaskView};
use crate::pipeline::{cutout_of, Settings};
use crate::pixel::Pixel;
use crate::resampler::{resample, resample_accepts, resampled};
use crate::score::Score;

verus! {

/// A hint for the model: a position in the image and whether it lies on the
/// object or on the background.
///
/// The two coordinates are fractions of the image's width and height, each
/// held as the bit pattern of an IEEE 754 double-precision number. They are
/// handed to the model as they are.
#[derive(Clone, Copy, Debug, PartialEq, Eq, Structural)]
pub struct PromptPoint {
    pub x_bits: u64,
    pub y_bits: u64,
    pub foreground: bool,
}

/// A request and the data it holds at its stage.
#[derive(Debug, PartialEq, Eq)]
pub enum Request {
    /// The image's bytes and the prompt points have arrived.
    Received { image_bytes: Vec<u8>, points: Vec<PromptPoint> },
    /// The image has been decoded.
    Decoded { image: Image, points: Vec<PromptPoint> },
    /// The model has scored the image.
    Inferred { image: Image, raw_mask: RawMask, confidence: Score },
    /// The scores have been thresholded.
    Normalized { image: Image, binary: BinaryMask, confidence: Score },
    /// The mask has been resampled to the image's size.
    Resampled { image: Image, intensities: ResampledMask, confidence: Score },
    /// The image has been cut out.
    Composited { cutout: Image, confidence: Score },
    /// The cutout has been encoded.
    Encoded { bytes: Vec<u8>, confidence: Score },
    /// The encoded cutout has been handed back.
    Done { bytes: Vec<u8>, confidence: Score },
    /// The request was aborted.
    Failed { error: PipelineError },
}

/// The mathematical content of a [`Request`].
pub enum RequestView {
    Received { image_bytes: Seq<u8>, points: Seq<PromptPoint> },
    Decoded { image: GridView<Pixel>, points: Seq<PromptPoint> },
    Inferred { image: GridView<Pixel>, raw_mask: RawMaskView, confidence: Score },
    Normalized { image: GridView<Pixel>, binary: GridView<bool>, confidence: Score },
    Resampled { image: GridView<Pixel>, intensities: GridView<u8>, confidence: Score },
    Composited { cutout: GridView<Pixel>, confidence: Score },
    Encoded { bytes: Seq<u8>, confidence: Score },
    Done { bytes: Seq<u8>, confidence: Score },
    Failed { error: PipelineError },
}

/// What happened outside the library since the last step.
#[derive(Debug, PartialEq, Eq)]
pub enum Event {
    /// Nothing: the next stage is the library's own work.
    Proceed,
    /// The codec decoded the image.
    Decoded { image: Image },
    /// The codec rejected the image's bytes.
    DecodeFailed,
    /// The model returned its scores and its confidence in them.
    Inferred { raw_mask: RawMask, confidence: Score },
    /// The model rejected its input or failed.
    InferenceFailed,
    /// The codec encoded the cutout.
    Encoded { bytes: Vec<u8> },
    /// The codec could not encode the cutout.
    EncodeFailed,
}

/// The mathematical content of an [`Event`].
pub enum EventView {
    Proceed,
    Decoded { image: GridView<Pixel> },
    DecodeFailed,
    Inferred { raw_mask: RawMaskView, confidence: Score },
    InferenceFailed,
    Encoded { bytes: Seq<u8> },
    EncodeFailed,
}

/// The work that a request waits for.
#[derive(Clone, Copy, Debug, PartialEq, Eq, Structural)]
pub enum Action {
    /// Decode the image's bytes; report `Decoded` or `DecodeFailed`.
    Decode,
    /// Run the model on the image and the points; report `Inferred` or
    /// `InferenceFailed`.
    Infer,
    /// Nothing outside the library; report `Proceed`.
    Proceed,
    /// Encode the cutout; report `Encoded` or `EncodeFailed`.
    Encode,
    /// Nothing at all: the request is `Done` or `Failed`.
    Stop,
}

impl View for Request {
    type V = RequestView;

    open spec fn view(&self) -> RequestView {
        match *self {
            Request::Received { image_bytes, points } => RequestView::Received {
                image_bytes: image_bytes@,
                points: points@,
            },
            Request::Decoded { image, points } => RequestView::Decoded { image: image@, points: points@ },
            Request::Inferred { image, raw_mask, confidence } => RequestView::Inferred {
                image: image@,
                raw_mask: raw_mask@,
                confidence,
            },
            Request::Normalized { image, binary, confidence } => RequestView::Normalized {
                image: image@,
                binary: binary@,
                confidence,
            },
            Request::Resampled { image, intensities, confidence } => RequestView::Resampled {
                image: image@,
                intensities: intensities@,
                confidence,
            },
            Request::Composited { cutout, confidence } => RequestView::Composited { cutout: cutout@, confidence },
            Request::Encoded { bytes, confidence } => RequestView::Encoded { bytes: bytes@, confidence },
            Request::Done { bytes, confidence } => RequestView::Done { bytes: bytes@, confidence },
            Request::Failed { error } => RequestView::Failed { error },
        }
    }
}

impl View for Event {
    type V = EventView;

    open spec fn view(&self) -> EventView {
        match *self {
            Event::Proceed => EventView::Proceed,
            Event::Decoded { image } => EventView::Decoded { image: image@ },
            Event::DecodeFailed => EventView::DecodeFailed,
            Event::Inferred { raw_mask, confidence } => EventView::Inferred { raw_mask: raw_mask@, confidence },
            Event::InferenceFailed => EventView::InferenceFailed,
            Event::Encoded { bytes } => EventView::Encoded { bytes: bytes@ },
            Event::EncodeFailed => EventView::EncodeFailed,
        }
    }
}

impl RequestView {
    /// The state of a request that has just arrived. A request without
    /// prompt points is rejected at once, before anything is decoded or
    /// sent to the model.
    pub open spec fn received(image_bytes: Seq<u8>, points: Seq<PromptPoint>) -> RequestView {
        if points.len() == 0 {
            RequestView::Failed { error: PipelineError::ModelError }
        } else {
            RequestView::Received { image_bytes, points }
        }
    }

    /// The place of the stage in the sequence, from 0 for `Received` to 7
    /// for `Done`. `Failed` stands outside the sequence.
    pub open spec fn position(self) -> int {
        match self {
            RequestView::Received { .. } => 0,
            RequestView::Decoded { .. } => 1,
            RequestView::Inferred { .. } => 2,
            RequestView::Normalized { .. } => 3,
            RequestView::Resampled { .. } => 4,
            RequestView::Composited { .. } => 5,
            RequestView::Encoded { .. } => 6,
            RequestView::Done { .. } => 7,
            RequestView::Failed { .. } => -1,
        }
    }

    /// Whether the request has come to its end.
    pub open spec fn finished(self) -> bool {
        self is Done || self is Failed
    }

    /// The work that the request waits for.
    pub open spec fn pending(self) -> Action {
        match self {
            RequestView::Received { .. } => Action::Decode,
            RequestView::Decoded { .. } => Action::Infer,
            RequestView::Inferred { .. } => Action::Proceed,
            RequestView::Normalized { .. } => Action::Proceed,
            RequestView::Resampled { .. } => Action::Proceed,
            RequestView::Composited { .. } => Action::Encode,
            RequestView::Encoded { .. } => Action::Proceed,
            RequestView::Done { .. } => Action::Stop,
            RequestView::Failed { .. } => Action::Stop,
        }
    }

    /// The state that follows `self` when `event` is reported.
    ///
    /// Each stage answers the events that report on the work it waits for:
    /// on success the request moves to the next stage, on failure it is
    /// `Failed` with the error of the collaborator or of the stage. An image
    /// without rows or columns is rejected as soon as it is decoded. Any
    /// other event leaves the request as it is; `Done` and `Failed` are
    /// left by no event.
    pub open spec fn next(self, event: EventView, settings: Settings) -> RequestView {
        match (self, event) {
            (RequestView::Received { image_bytes, points }, EventView::Decoded { image }) => {
                if image.is_empty() {
                    RequestView::Failed { error: PipelineError::ShapeError }
                } else {
                    RequestView::Decoded { image, points }
                }
            },
            (RequestView::Received { .. }, EventView::DecodeFailed) => RequestView::Failed {
                error: PipelineError::CodecError,
            },
            (RequestView::Decoded { image, points }, EventView::Inferred { raw_mask, confidence }) => {
                RequestView::Inferred { image, raw_mask, confidence }
            },
            (RequestView::Decoded { .. }, EventView::InferenceFailed) => RequestView::Failed {
                error: PipelineError::ModelError,
            },
            (RequestView::Inferred { image, raw_mask, confidence }, EventView::Proceed) => {
                if raw_mask.well_shaped() {
                    RequestView::Normalized { image, binary: raw_mask.thresholded(settings.threshold), confidence }
                } else {
                    RequestView::Failed { error: PipelineError::ShapeError }
                }
            },
            (RequestView::Normalized { image, binary, confidence }, EventView::Proceed) => {
                if resample_accepts(binary, image.width, image.height) {
                    RequestView::Resampled {
                        image,
                        intensities: resampled(binary, image.width, image.height),
                        confidence,
                    }
                } else {
                    RequestView::Failed { error: PipelineError::ShapeError }
                }
            },
            (RequestView::Resampled { image, intensities, confidence }, EventView::Proceed) => {
                if image.width == intensities.width && image.height == intensities.height {
                    RequestView::Composited { cutout: composited(image, intensities, settings.cutoff), confidence }
                } else {
                    RequestView::Failed { error: PipelineError::DimensionMismatch }
                }
            },
            (RequestView::Composited { cutout, confidence }, EventView::Encoded { bytes }) => {
                RequestView::Encoded { bytes, confidence }
            },
            (RequestView::Composited { .. }, EventView::EncodeFailed) => RequestView::Failed {
                error: PipelineError::CodecError,
            },
            (RequestView::Encoded { bytes, confidence }, EventView::Proceed) => RequestView::Done {
                bytes,
                confidence,
            },
            (state, _) => state,
        }
    }

    /// The state that follows `self` when `events` are reported one after
    /// the other.
    pub open spec fn after(self, events: Seq<EventView>, settings: Settings) -> RequestView
        decreases events.len(),
    {
        if events.len() == 0 {
            self
        } else {
            self.next(events.first(), settings).after(events.drop_first(), settings)
        }
    }
}

impl Request {
    /// Accepts a request. A request without prompt points fails at once
    /// with `ModelError`.
    pub fn receive(image_bytes: Vec<u8>, points: Vec<PromptPoint>) -> (request: Request)
        ensures
            request@ == RequestView::received(image_bytes@, points@),
    {
        if points.len() == 0 {
            Request::Failed { error: PipelineError::ModelError }
        } else {
            Request::Received { image_bytes, points }
        }
    }

    /// The work that the request waits for.
    pub fn pending(&self) -> (action: Action)
        ensures
            action == self@.pending(),
    {
        match self {
            Request::Received { .. } => Action::Decode,
            Request::Decoded { .. } => Action::Infer,
            Request::Inferred { .. } => Action::Proceed,
            Request::Normalized { .. } => Action::Proceed,
            Request::Resampled { .. } => Action::Proceed,
            Request::Composited { .. } => Action::Encode,
            Request::Encoded { .. } => Action::Proceed,
            Request::Done { .. } => Action::Stop,
            Request::Failed { .. } => Action::Stop,
        }
    }

    /// Whether the request has come to its end.
    pub fn finished(&self) -> (finished: bool)
        ensures
            finished == self@.finished(),
    {
        match self {
            Request::Done { .. } => true,
            Request::Failed { .. } => true,
            _ => false,
        }
    }

    /// Takes the request one step further: the state that follows when
    /// `event` is reported.
    pub fn advance(self, event: Event, settings: &Settings) -> (next: Request)
        ensures
            next@ == self@.next(event@, *settings),
    {
        match (self, event) {
            (Request::Received { image_bytes, points }, Event::Decoded { image }) => {
                if image.is_empty() {
                    Request::Failed { error: PipelineError::ShapeError }
                } else {
                    Request::Decoded { image, points }
                }
            },
            (Request::Received { .. }, Event::DecodeFailed) => Request::Failed {
                error: PipelineError::CodecError,
            },
            (Request::Decoded { image, points }, Event::Inferred { raw_mask, confidence }) => {
                Request::Inferred { image, raw_mask, confidence }
            },
            (Request::Decoded { .. }, Event::InferenceFailed) => Request::Failed {
                error: PipelineError::ModelError,
            },
            (Request::Inferred { image, raw_mask, confidence }, Event::Proceed) => {
                match normalize(&raw_mask, settings.threshold) {
                    Ok(binary) => Request::Normalized { image, binary, confidence },
                    Err(error) => Request::Failed { error },
                }
            },
            (Request::Normalized { image, binary, confidence }, Event::Proceed) => {
                match resample(&binary, image.width(), image.height()) {
                    Ok(intensities) => Request::Resampled { image, intensities, confidence },
                    Err(error) => Request::Failed { error },
                }
            },
            (Request::Resampled { image, intensities, confidence }, Event::Proceed) => {
                match composite(&image, &intensities, settings.cutoff) {
                    Ok(cutout) => Request::Composited { cutout, confidence },
                    Err(error) => Request::Failed { error },
                }
            },
            (Request::Composited { cutout, confidence }, Event::Encoded { bytes }) => {
                Request::Encoded { bytes, confidence }
            },
            (Request::Composited { .. }, Event::EncodeFailed) => Request::Failed {
                error: PipelineError::CodecError,
            },
            (Request::Encoded { bytes, confidence }, Event::Proceed) => Request::Done { bytes, confidence },
            (state, _) => state,
        }
    }
}

/// A finished request stays as it is, whatever is reported.
pub proof fn lemma_finished_is_final(state: RequestView, events: Seq<EventView>, settings: Settings)
    requires
        state.finished(),
    ensures
        state.after(events, settings) == state,
    decreases events.len(),
{
    if events.len() > 0 {
        lemma_finished_is_final(state, events.drop_first(), settings);
    }
}

/// The stages follow each other in one line: a step leaves the request
/// where it is, takes it to the stage that follows, or fails it.
pub proof fn lemma_steps_are_linear(state: RequestView, event: EventView, settings: Settings)
    ensures
        ({
            let next = state.next(event, settings);
            ||| next == state
            ||| next is Failed
            ||| next.position() == state.position() + 1
        }),
{
}

/// A request never loses the confidence that the model reported: once
/// inferred, every later stage holds the same value.
pub open spec fn confidence_of(state: RequestView) -> Option<Score> {
    match state {
        RequestView::Inferred { confidence, .. } => Some(confidence),
        RequestView::Normalized { confidence, .. } => Some(confidence),
        RequestView::Resampled { confidence, .. } => Some(confidence),
        RequestView::Composited { confidence, .. } => Some(confidence),
        RequestView::Encoded { confidence, .. } => Some(confidence),
        RequestView::Done { confidence, .. } => Some(confidence),
        _ => None,
    }
}

/// The confidence is carried along unchanged by every step that does not
/// fail the request.
pub proof fn lemma_confidence_is_kept(state: RequestView, event: EventView, settings: Settings)
    requires
        confidence_of(state) is Some,
        !(state.next(event, settings) is Failed),
    ensures
        confidence_of(state.next(event, settings)) == confidence_of(state),
{
}

/// The three stages of the library's own, taken one after the other from
/// the model's output, give what [`cutout_of`] describes: the cutout, or
/// `ShapeError`. In particular, the compositor's check of the dimensions
/// never fails on a mask that the resampler made for the image.
pub proof fn lemma_own_stages_give_cutout(
    image: GridView<Pixel>,
    raw_mask: RawMaskView,
    confidence: Score,
    settings: Settings,
)
    ensures
        (RequestView::Inferred { image, raw_mask, confidence }).after(
            seq![EventView::Proceed, EventView::Proceed, EventView::Proceed],
            settings,
        ) == (match cutout_of(image, raw_mask, settings) {
            Ok(cutout) => RequestView::Composited { cutout, confidence },
            Err(error) => RequestView::Failed { error },
        }),
{
    let start = RequestView::Inferred { image, raw_mask, confidence };
    let events = seq![EventView::Proceed, EventView::Proceed, EventView::Proceed];
    let first = start.next(EventView::Proceed, settings);
    let second = first.next(EventView::Proceed, settings);
    let third = second.next(EventView::Proceed, settings);
    let tail_one = events.drop_first();
    let tail_two = tail_one.drop_first();
    let tail_three = tail_two.drop_first();
    assert(third.after(tail_three, settings) == third);
    assert(second.after(tail_two, settings) == third);
    assert(first.after(tail_one, settings) == third);
}

} // verus!
