//! The frame sink: counts the decoded buffers it is handed and reports the
//! dimensions of each.

use vstd::prelude::*;
use vstd::string::*;
use crate::caps::{height_key, width_key, Capability, CapabilityModel};
use crate::error::PipelineError;
use crate::text::{decimal, push_decimal, push_signed_decimal, signed_decimal};

verus! {

/// What is known of one decoded frame: its number in arrival order, counted
/// from 1, and its dimensions.
#[derive(Clone, Copy, Debug, PartialEq, Eq, Structural)]
pub struct FrameObservation {
    pub sequence: u64,
    pub width: i32,
    pub height: i32,
}

/// Mathematical value of a [`FrameObservation`].
pub struct FrameObservationModel {
    pub sequence: nat,
    pub width: int,
    pub height: int,
}

impl View for FrameObservation {
    type V = FrameObservationModel;

    open spec fn view(&self) -> FrameObservationModel {
        FrameObservationModel {
            sequence: self.sequence as nat,
            width: self.width as int,
            height: self.height as int,
        }
    }
}

impl FrameObservationModel {
    /// The report line of the frame: `Frame <n>: <width>x<height>`.
    pub open spec fn text(self) -> Seq<char> {
        "Frame "@ + decimal(self.sequence) + ": "@ + signed_decimal(self.width) + "x"@
            + signed_decimal(self.height)
    }
}

impl FrameObservation {
    /// Renders the report line of the frame.
    pub fn line(&self) -> (s: String)
        ensures
            s@ == self@.text(),
    {
        let mut s: String = String::from_str("Frame ");
        push_decimal(&mut s, self.sequence);
        s.append(": ");
        push_signed_decimal(&mut s, self.width);
        s.append("x");
        push_signed_decimal(&mut s, self.height);
        s
    }
}

/// A decoded buffer as the sink pulls it: the buffer's content is of no
/// interest here, only the capability descriptor attached to it.
#[derive(Debug, PartialEq, Eq)]
pub struct Sample {
    pub caps: Option<Capability>,
}

/// Mathematical value of a [`Sample`].
pub struct SampleModel {
    pub caps: Option<CapabilityModel>,
}

impl View for Sample {
    type V = SampleModel;

    open spec fn view(&self) -> SampleModel {
        SampleModel {
            caps: match self.caps {
                Some(c) => Some(c@),
                None => None,
            },
        }
    }
}

impl SampleModel {
    /// Width and height of the frame, present only when the sample carries a
    /// descriptor in which both are integers.
    pub open spec fn dimensions(self) -> Option<(int, int)> {
        match self.caps {
            None => None,
            Some(caps) => match (caps.int_field(width_key()), caps.int_field(height_key())) {
                (Some(w), Some(h)) => Some((w, h)),
                _ => None,
            },
        }
    }
}

/// Mathematical value of what a pull handed over.
pub open spec fn pulled_model(pulled: Option<Sample>) -> Option<SampleModel> {
    match pulled {
        Some(sample) => Some(sample@),
        None => None,
    }
}

/// Mathematical value of what the sink returned.
pub open spec fn outcome_model(r: Result<FrameObservation, PipelineError>) -> Result<
    FrameObservationModel,
    PipelineError,
> {
    match r {
        Ok(observation) => Ok(observation@),
        Err(e) => Err(e),
    }
}

/// The counter after one notification that started at `count`.
///
/// A notification without a buffer leaves the counter alone; every pulled
/// buffer is counted, also one whose dimensions cannot be read.
pub open spec fn count_after(count: nat, pulled: Option<SampleModel>) -> nat {
    match pulled {
        None => count,
        Some(_) => count + 1,
    }
}

/// What one notification yields when the counter stood at `count`.
///
/// No buffer ends the stream for the sink. A buffer with readable dimensions
/// gives the observation numbered `count + 1`. Any other buffer is an
/// extraction failure.
pub open spec fn outcome_of(count: nat, pulled: Option<SampleModel>) -> Result<
    FrameObservationModel,
    PipelineError,
> {
    match pulled {
        None => Err(PipelineError::EndOfStream),
        Some(sample) => match sample.dimensions() {
            Some((w, h)) => Ok(FrameObservationModel { sequence: count + 1, width: w, height: h }),
            None => Err(PipelineError::ExtractionFailure),
        },
    }
}

/// The observations of a whole delivery: the handler is called once for each
/// notification, in order, until it returns an error for the first time.
pub open spec fn observations(count: nat, pulls: Seq<Option<SampleModel>>) -> Seq<
    FrameObservationModel,
>
    decreases pulls.len(),
{
    if pulls.len() == 0 {
        Seq::empty()
    } else {
        match outcome_of(count, pulls[0]) {
            Ok(observation) => seq![observation] + observations(
                count_after(count, pulls[0]),
                pulls.skip(1),
            ),
            Err(_) => Seq::empty(),
        }
    }
}

/// The consumer of decoded video buffers. It owns the frame counter of the
/// run.
///
/// The handler is meant to be called for one buffer at a time, in arrival
/// order; `&mut self` makes a second call wait for the first, so the counter
/// needs no lock of its own.
#[derive(Debug)]
pub struct FrameSink {
    count: u64,
}

impl FrameSink {
    /// Number of buffers counted so far.
    pub closed spec fn counted(&self) -> nat {
        self.count as nat
    }

    /// A sink that has seen no frame.
    pub fn new() -> (sink: FrameSink)
        ensures
            sink.counted() == 0,
    {
        FrameSink { count: 0 }
    }

    /// Number of buffers counted so far.
    pub fn count(&self) -> (n: u64)
        ensures
            n == self.counted(),
    {
        self.count
    }

    /// Whether the counter can still take another buffer.
    pub fn has_room(&self) -> (r: bool)
        ensures
            r == (self.counted() < u64::MAX),
    {
        self.count < u64::MAX
    }

    /// Handles the notification that a buffer is ready.
    ///
    /// `pulled` is what the pull gave: `None` when no buffer was there.
    /// `Ok` carries the observation to report and asks for more buffers;
    /// `Err(EndOfStream)` and `Err(ExtractionFailure)` ask the runtime to stop
    /// calling, the second being fatal for the run.
    pub fn on_buffer_ready(&mut self, pulled: Option<Sample>) -> (r: Result<
        FrameObservation,
        PipelineError,
    >)
        requires
            old(self).counted() < u64::MAX,
        ensures
            final(self).counted() == count_after(old(self).counted(), pulled_model(pulled)),
            outcome_model(r) == outcome_of(old(self).counted(), pulled_model(pulled)),
    {
        let sample: Sample = match pulled {
            None => {
                return Err(PipelineError::EndOfStream);
            },
            Some(sample) => sample,
        };
        self.count = self.count + 1;
        let caps: &Capability = match &sample.caps {
            None => {
                return Err(PipelineError::ExtractionFailure);
            },
            Some(caps) => caps,
        };
        proof {
            reveal_strlit("width");
            reveal_strlit("height");
            assert("width"@ =~= width_key());
            assert("height"@ =~= height_key());
        }
        let width: Option<i32> = caps.int_field("width");
        let height: Option<i32> = caps.int_field("height");
        match (width, height) {
            (Some(w), Some(h)) => Ok(
                FrameObservation { sequence: self.count, width: w, height: h },
            ),
            _ => Err(PipelineError::ExtractionFailure),
        }
    }
}

/// Frames are numbered in arrival order without gaps or repeats: the
/// observations of a delivery that starts at `count` carry the numbers
/// `count + 1`, `count + 2`, and so on, each with the dimensions of its own
/// buffer; and when every notification brings a buffer with readable
/// dimensions, there are as many observations as notifications.
pub proof fn law_frames_numbered_in_order(count: nat, pulls: Seq<Option<SampleModel>>)
    ensures
        observations(count, pulls).len() <= pulls.len(),
        forall|i: int|
            0 <= i < observations(count, pulls).len() ==> {
                &&& (#[trigger] observations(count, pulls)[i]).sequence == count + i + 1
                &&& pulls[i].is_some()
                &&& pulls[i].unwrap().dimensions() == Some(
                    (observations(count, pulls)[i].width, observations(count, pulls)[i].height),
                )
            },
        (forall|i: int|
            0 <= i < pulls.len() ==> (#[trigger] pulls[i]).is_some()
                && pulls[i].unwrap().dimensions().is_some()) ==> observations(count, pulls).len()
            == pulls.len(),
    decreases pulls.len(),
{
    if pulls.len() > 0 {
        let rest = pulls.skip(1);
        let next = count_after(count, pulls[0]);
        law_frames_numbered_in_order(next, rest);
        let all = observations(count, pulls);
        match outcome_of(count, pulls[0]) {
            Ok(first) => {
                let tail = observations(next, rest);
                assert(all == seq![first] + tail);
                assert forall|i: int| 0 <= i < all.len() implies {
                    &&& (#[trigger] all[i]).sequence == count + i + 1
                    &&& pulls[i].is_some()
                    &&& pulls[i].unwrap().dimensions() == Some((all[i].width, all[i].height))
                } by {
                    if i > 0 {
                        assert(all[i] == tail[i - 1]);
                        assert(rest[i - 1] == pulls[i]);
                    }
                }
                if forall|i: int|
                    0 <= i < pulls.len() ==> (#[trigger] pulls[i]).is_some()
                        && pulls[i].unwrap().dimensions().is_some() {
                    assert forall|i: int| 0 <= i < rest.len() implies (#[trigger] rest[i]).is_some()
                        && rest[i].unwrap().dimensions().is_some() by {
                        assert(rest[i] == pulls[i + 1]);
                    }
                }
            },
            Err(_) => {
                assert(!(pulls[0].is_some() && pulls[0].unwrap().dimensions().is_some()));
            },
        }
    }
}

} // verus!
