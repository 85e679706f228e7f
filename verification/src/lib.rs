//! Surface and device lifecycle rules of a small GPU-backed windowed
//! rendering harness: which pixel format a surface is configured with, how
//! its configuration follows the window's size, what one render tick does
//! with the outcome of acquiring a frame, and how window events are
//! dispatched.
//!
//! The library decides; the program around it talks to the window system and
//! the GPU driver and hands the library plain values.

pub mod config;
pub mod driver;
pub mod error;
pub mod format;
pub mod frame;
pub mod harness;
pub mod lifecycle;

pub use config::{ImageUsage, PresentMode, SurfaceConfig, WindowSize};
pub use driver::{Action, Event, WindowEvent};
pub use error::{HarnessError, Stage, SwapchainCause};
pub use frame::{ClearColor, Followup};
pub use harness::App;
pub use lifecycle::AppState;
