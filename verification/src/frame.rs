//! One render tick: what is drawn when a frame image was acquired, what is
//! reported when none was, and how the loop goes on.

use vstd::prelude::*;
use crate::error::{HarnessError, SwapchainCause};

verus! {

/// A colour, each channel in hundredths of full intensity.
#[derive(Clone, Copy, Debug, PartialEq, Eq, Structural)]
pub struct ClearColor {
    pub red: u8,
    pub green: u8,
    pub blue: u8,
    pub alpha: u8,
}

impl ClearColor {
    /// No channel is above full intensity.
    pub open spec fn wf(self) -> bool {
        self.red <= 100 && self.green <= 100 && self.blue <= 100 && self.alpha <= 100
    }
}

/// The colour that every frame is cleared to.
pub open spec fn fixed_clear() -> ClearColor {
    ClearColor { red: 5, green: 75, blue: 85, alpha: 100 }
}

/// What one tick comes to, given what acquiring the frame image gave.
pub open spec fn frame_result(
    acquired: Result<(), SwapchainCause>,
) -> Result<ClearColor, HarnessError> {
    match acquired {
        Ok(_) => Ok(fixed_clear()),
        Err(cause) => Err(HarnessError::SwapchainError(cause)),
    }
}

/// How the loop goes on after a tick.
#[derive(Clone, Copy, Debug, PartialEq, Eq, Structural)]
pub struct Followup {
    /// The error to log, where the frame was dropped.
    pub report: Option<HarnessError>,
    /// Whether the next redraw is requested.
    pub request_redraw: bool,
    /// Whether the loop ends.
    pub exit: bool,
}

/// The follow-up of a tick that came to `outcome`.
pub open spec fn followup_of(outcome: Result<ClearColor, HarnessError>) -> Followup {
    Followup {
        report: match outcome {
            Ok(_) => None,
            Err(error) => Some(error),
        },
        request_redraw: true,
        exit: false,
    }
}

/// Decides how the loop goes on after a tick: an error is handed back to be
/// logged, the next redraw is always requested, and the loop never ends on
/// account of a tick.
pub fn after_frame(outcome: Result<ClearColor, HarnessError>) -> (next: Followup)
    ensures
        next == followup_of(outcome),
{
    let report = match outcome {
        Ok(_) => None,
        Err(error) => Some(error),
    };
    Followup { report, request_redraw: true, exit: false }
}

/// Whatever acquiring the frame image gave, the tick raises no fatal error
/// and the loop goes on to the next redraw.
pub proof fn tick_never_stops_the_loop(acquired: Result<(), SwapchainCause>)
    ensures
        frame_result(acquired) is Err ==> !frame_result(acquired)->Err_0.fatal(),
        !followup_of(frame_result(acquired)).exit,
        followup_of(frame_result(acquired)).request_redraw,
        followup_of(frame_result(acquired)).report is Some <==> acquired is Err,
{
}

} // verus!
