//! What can go wrong, at startup and on a render tick.

use vstd::prelude::*;

verus! {

/// Why the surface handed out no frame image.
#[derive(Clone, Copy, Debug, PartialEq, Eq, Structural)]
pub enum SwapchainCause {
    /// Acquiring the next image timed out.
    Timeout,
    /// The surface has changed under the swap chain, as during a resize.
    Outdated,
    /// The swap chain was lost.
    Lost,
    /// No memory was left for a new frame.
    OutOfMemory,
}

/// The harness's errors.
#[derive(Clone, Copy, Debug, PartialEq, Eq, Structural)]
pub enum HarnessError {
    /// The window could not be bound to a surface.
    SurfaceCreationFailed,
    /// No adapter is compatible with the surface.
    NoAdapterFound,
    /// The driver refused the device request.
    DeviceRequestFailed,
    /// No frame image could be acquired on this tick.
    SwapchainError(SwapchainCause),
}

impl HarnessError {
    /// The startup errors are fatal; a swap-chain error is transient.
    pub open spec fn fatal(self) -> bool {
        !(self is SwapchainError)
    }

    /// Whether the harness has to stop on this error.
    pub fn is_fatal(&self) -> (fatal: bool)
        ensures
            fatal == self.fatal(),
    {
        match self {
            HarnessError::SwapchainError(_) => false,
            _ => true,
        }
    }
}

/// The steps of startup that can fail, in the order in which they are taken.
#[derive(Clone, Copy, Debug, PartialEq, Eq, Structural)]
pub enum Stage {
    /// Binding the window to a surface.
    BindSurface,
    /// Requesting a high-performance adapter compatible with the surface.
    RequestAdapter,
    /// Requesting the device and its queue from the adapter.
    RequestDevice,
}

impl Stage {
    /// The error that a failure at each stage is reported as.
    pub open spec fn spec_failure(self) -> HarnessError {
        match self {
            Stage::BindSurface => HarnessError::SurfaceCreationFailed,
            Stage::RequestAdapter => HarnessError::NoAdapterFound,
            Stage::RequestDevice => HarnessError::DeviceRequestFailed,
        }
    }

    /// The stage that follows, if any.
    pub open spec fn spec_next(self) -> Option<Stage> {
        match self {
            Stage::BindSurface => Some(Stage::RequestAdapter),
            Stage::RequestAdapter => Some(Stage::RequestDevice),
            Stage::RequestDevice => None,
        }
    }

    /// What follows this stage, given whether it succeeded: the stage's
    /// error, the next stage, or `Ok(None)` after the last stage.
    pub open spec fn spec_advance(self, succeeded: bool) -> Result<Option<Stage>, HarnessError> {
        if succeeded {
            Ok(self.spec_next())
        } else {
            Err(self.spec_failure())
        }
    }

    /// The error to report when this stage fails. It is always fatal.
    pub fn failure(self) -> (error: HarnessError)
        ensures
            error == self.spec_failure(),
            error.fatal(),
    {
        match self {
            Stage::BindSurface => HarnessError::SurfaceCreationFailed,
            Stage::RequestAdapter => HarnessError::NoAdapterFound,
            Stage::RequestDevice => HarnessError::DeviceRequestFailed,
        }
    }

    /// What startup does after this stage, given whether it succeeded: the
    /// stage's error, the next stage, or `Ok(None)` once the device is there
    /// and the surface can be configured.
    pub fn advance(self, succeeded: bool) -> (step: Result<Option<Stage>, HarnessError>)
        ensures
            step == self.spec_advance(succeeded),
            step is Err <==> !succeeded,
    {
        if !succeeded {
            return Err(self.failure());
        }
        match self {
            Stage::BindSurface => Ok(Some(Stage::RequestAdapter)),
            Stage::RequestAdapter => Ok(Some(Stage::RequestDevice)),
            Stage::RequestDevice => Ok(None),
        }
    }
}

} // verus!
