//! The harness's state as contracts see it: the live surface configuration
//! and the window size it was made for, and what a resize does to them.

use vstd::prelude::*;
use crate::config::{floored, SurfaceConfig, WindowSize};

verus! {

/// The state of the harness as contracts see it.
pub struct AppState {
    pub config: SurfaceConfig,
    pub size: WindowSize,
}

impl AppState {
    /// The configuration is as large as the stored size, each dimension
    /// raised to 1 where it is 0.
    pub open spec fn follows_size(self) -> bool {
        &&& self.config.width == floored(self.size.width)
        &&& self.config.height == floored(self.size.height)
    }

    /// Whether a resize to `new_size` is taken up: one with a dimension of 0
    /// is not.
    pub open spec fn accepts(new_size: WindowSize) -> bool {
        new_size.width > 0 && new_size.height > 0
    }

    /// The state after a resize to `new_size`.
    pub open spec fn resized(self, new_size: WindowSize) -> AppState {
        if Self::accepts(new_size) {
            AppState {
                config: SurfaceConfig {
                    width: new_size.width,
                    height: new_size.height,
                    ..self.config
                },
                size: new_size,
            }
        } else {
            self
        }
    }
}

/// A resize keeps the configuration as large as the stored size and free of
/// zero dimensions, whatever the new size is.
pub proof fn resize_keeps_config_valid(state: AppState, new_size: WindowSize)
    requires
        state.follows_size(),
    ensures
        state.resized(new_size).follows_size(),
        state.resized(new_size).config.wf(),
{
}

/// A resize to a size with no zero dimension leaves exactly that width and
/// height in the configuration, and nothing else of it changed.
pub proof fn resize_sets_dimensions(state: AppState, new_size: WindowSize)
    requires
        new_size.width >= 1,
        new_size.height >= 1,
    ensures
        state.resized(new_size).size == new_size,
        state.resized(new_size).config == (SurfaceConfig {
            width: new_size.width,
            height: new_size.height,
            ..state.config
        }),
{
}

/// A resize to a size with a zero dimension changes nothing.
pub proof fn resize_to_nothing_is_noop(state: AppState, new_size: WindowSize)
    requires
        new_size.width == 0 || new_size.height == 0,
    ensures
        state.resized(new_size) == state,
{
}

/// Resizing twice to the same size leaves what resizing once leaves.
pub proof fn resize_is_idempotent(state: AppState, new_size: WindowSize)
    ensures
        state.resized(new_size).resized(new_size) == state.resized(new_size),
{
}

} // verus!
