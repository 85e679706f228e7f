//! The harness: the surface lifecycle manager, the frame renderer's decision
//! and the dispatch of events, on one state.

use vstd::prelude::*;
use crate::config::{initial_config, is_initial, SurfaceConfig, WindowSize};
use crate::driver::{action_for, state_after, Action, Event, WindowEvent};
use crate::error::{HarnessError, SwapchainCause};
use crate::frame::{frame_result, ClearColor};
use crate::lifecycle::AppState;

verus! {

/// The surface lifecycle manager. Neither dimension of its configuration is
/// ever 0.
pub struct App {
    config: SurfaceConfig,
    size: WindowSize,
}

impl View for App {
    type V = AppState;

    closed spec fn view(&self) -> AppState {
        AppState { config: self.config, size: self.size }
    }
}

impl App {
    #[verifier::type_invariant]
    spec fn nonzero(self) -> bool {
        self.config.wf()
    }

    /// Starts the harness for a window of `size` on a surface that supports
    /// `formats` and `alpha_modes`.
    pub fn new(
        size: WindowSize,
        formats: &Vec<wgpu::TextureFormat>,
        alpha_modes: &Vec<wgpu::CompositeAlphaMode>,
    ) -> (app: App)
        requires
            formats.len() > 0,
            alpha_modes.len() > 0,
        ensures
            app@.size == size,
            is_initial(app@.config, size, formats@, alpha_modes@),
            app@.follows_size(),
    {
        App { config: initial_config(size, formats, alpha_modes), size }
    }

    /// Takes up a new window size. One with a dimension of 0 changes
    /// nothing. Any other becomes the stored size and the configuration's
    /// width and height, and the result is `true`: the configuration is to
    /// be applied to the surface again.
    pub fn resize(&mut self, new_size: WindowSize) -> (applied: bool)
        ensures
            final(self)@ == old(self)@.resized(new_size),
            applied == AppState::accepts(new_size),
            applied ==> final(self)@.config.width == new_size.width
                && final(self)@.config.height == new_size.height,
            !applied ==> *final(self) == *old(self),
            final(self)@.config.wf(),
    {
        proof {
            use_type_invariant(&*self);
        }
        if new_size.width > 0 && new_size.height > 0 {
            self.config.width = new_size.width;
            self.config.height = new_size.height;
            self.size = new_size;
            true
        } else {
            false
        }
    }

    /// The live configuration.
    pub fn config(&self) -> (config: &SurfaceConfig)
        ensures
            *config == self@.config,
            config.wf(),
    {
        proof {
            use_type_invariant(self);
        }
        &self.config
    }

    /// The window size last taken up.
    pub fn size(&self) -> (size: WindowSize)
        ensures
            size == self@.size,
    {
        self.size
    }

    /// Handles one event. A close request for the harness's window ends the
    /// loop; a resize of it is taken up and, unless a dimension is 0, the
    /// surface is to be reconfigured; once the loop is about to wait a frame
    /// is rendered. A change of scale factor, an event of another window and
    /// every other event are ignored.
    pub fn handle(&mut self, event: Event) -> (action: Action)
        ensures
            action == action_for(event),
            final(self)@ == state_after(old(self)@, event),
            final(self)@.config.wf(),
    {
        proof {
            use_type_invariant(&*self);
        }
        match event {
            Event::Window { own, event } => {
                if !own {
                    return Action::Ignore;
                }
                match event {
                    WindowEvent::CloseRequested => Action::Exit,
                    WindowEvent::Resized(size) => {
                        if self.resize(size) {
                            Action::Reconfigure
                        } else {
                            Action::Ignore
                        }
                    },
                    WindowEvent::ScaleFactorChanged => Action::Ignore,
                    WindowEvent::Other => Action::Ignore,
                }
            },
            Event::AboutToWait => Action::Render,
            Event::Other => Action::Ignore,
        }
    }

    /// Decides one tick. Where a frame image was acquired, the result is the
    /// colour of the single clear-only pass to record over its full view,
    /// submit and present. Where none was, the frame is dropped and the
    /// result is a swap-chain error with the cause, which is never fatal.
    pub fn render(
        &self,
        acquired: Result<(), SwapchainCause>,
    ) -> (outcome: Result<ClearColor, HarnessError>)
        ensures
            outcome == frame_result(acquired),
            outcome is Ok <==> acquired is Ok,
            outcome is Ok ==> outcome->Ok_0.wf(),
            outcome is Err ==> !outcome->Err_0.fatal(),
    {
        match acquired {
            Ok(_) => Ok(ClearColor { red: 5, green: 75, blue: 85, alpha: 100 }),
            Err(cause) => Err(HarnessError::SwapchainError(cause)),
        }
    }
}

} // verus!
