//! The ways in which a run ends.

use vstd::prelude::*;

verus! {

/// Kind of a terminal condition. Every kind ends the run; none is retried.
#[derive(Clone, Copy, Debug, PartialEq, Eq, Structural)]
pub enum PipelineError {
    /// A stage or a static link could not be made before playback started.
    SetupFailure,
    /// A discovered video stream could not be linked to a free sink input.
    LinkInvariantViolation,
    /// A delivered frame carried no usable width and height.
    ExtractionFailure,
    /// The runtime reported a decode or I/O error during playback.
    BusError,
    /// The stream came to its end.
    EndOfStream,
}

impl PipelineError {
    /// Text of the message shown for the kind.
    pub open spec fn message_text(self) -> Seq<char> {
        match self {
            PipelineError::SetupFailure => "Pipeline setup failed"@,
            PipelineError::LinkInvariantViolation => "Src pad could not link with sink"@,
            PipelineError::ExtractionFailure => "Frame width or height missing"@,
            PipelineError::BusError => "Pipeline bus error"@,
            PipelineError::EndOfStream => "EOS"@,
        }
    }

    /// Human-readable message that names the kind.
    pub fn message(self) -> (s: &'static str)
        ensures
            s@ == self.message_text(),
    {
        match self {
            PipelineError::SetupFailure => "Pipeline setup failed",
            PipelineError::LinkInvariantViolation => "Src pad could not link with sink",
            PipelineError::ExtractionFailure => "Frame width or height missing",
            PipelineError::BusError => "Pipeline bus error",
            PipelineError::EndOfStream => "EOS",
        }
    }
}

} // verus!
