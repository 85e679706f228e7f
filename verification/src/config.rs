//! The surface configuration and how the first one is built.

use vstd::prelude::*;
use crate::format::{select_format, selects};

verus! {

/// `wgpu::CompositeAlphaMode`, how the compositor treats the alpha channel.
/// The library hands the surface's first supported mode on, unread.
#[verifier::external_type_specification]
#[verifier::external_body]
pub struct ExCompositeAlphaMode(wgpu::CompositeAlphaMode);

/// A window's physical size in pixels.
#[derive(Clone, Copy, Debug, PartialEq, Eq, Structural)]
pub struct WindowSize {
    pub width: u32,
    pub height: u32,
}

/// When a queued frame reaches the display.
#[derive(Clone, Copy, Debug, PartialEq, Eq, Structural)]
pub enum PresentMode {
    AutoVsync,
    AutoNoVsync,
    /// Presenting waits for the next display refresh: no tearing.
    Fifo,
    FifoRelaxed,
    Immediate,
    Mailbox,
}

/// What the surface's images may be used for.
#[derive(Clone, Copy, Debug, PartialEq, Eq, Structural)]
pub struct ImageUsage {
    pub copy_src: bool,
    pub copy_dst: bool,
    pub texture_binding: bool,
    pub storage_binding: bool,
    pub render_attachment: bool,
}

/// How a surface is configured.
#[derive(Debug)]
pub struct SurfaceConfig {
    pub usage: ImageUsage,
    pub format: wgpu::TextureFormat,
    pub width: u32,
    pub height: u32,
    pub present_mode: PresentMode,
    pub alpha_mode: wgpu::CompositeAlphaMode,
    pub view_formats: Vec<wgpu::TextureFormat>,
    pub desired_maximum_frame_latency: u32,
}

/// How many frames may be queued ahead of the display.
pub const FRAME_LATENCY: u32 = 2;

/// A dimension raised to 1 where it is 0.
pub open spec fn floored(dimension: u32) -> u32 {
    if dimension == 0 {
        1
    } else {
        dimension
    }
}

/// The usage of a surface that is only rendered to.
pub open spec fn render_target() -> ImageUsage {
    ImageUsage {
        copy_src: false,
        copy_dst: false,
        texture_binding: false,
        storage_binding: false,
        render_attachment: true,
    }
}

/// `config` is the first configuration of a surface with these capabilities
/// under a window of this size.
pub open spec fn is_initial(
    config: SurfaceConfig,
    size: WindowSize,
    formats: Seq<wgpu::TextureFormat>,
    alpha_modes: Seq<wgpu::CompositeAlphaMode>,
) -> bool {
    &&& config.usage == render_target()
    &&& selects(formats, config.format)
    &&& config.width == floored(size.width)
    &&& config.height == floored(size.height)
    &&& config.present_mode == PresentMode::Fifo
    &&& config.alpha_mode == alpha_modes[0]
    &&& config.view_formats@ == Seq::<wgpu::TextureFormat>::empty()
    &&& config.desired_maximum_frame_latency == FRAME_LATENCY
}

impl SurfaceConfig {
    /// Neither dimension is 0.
    pub open spec fn wf(self) -> bool {
        self.width >= 1 && self.height >= 1
    }
}

/// Raises a dimension of 0 to 1.
pub fn floor_to_one(dimension: u32) -> (floor: u32)
    ensures
        floor == floored(dimension),
{
    if dimension == 0 {
        1
    } else {
        dimension
    }
}

/// Builds the first configuration of a surface: rendered to only, in the
/// preferred format, as large as the window but at least 1 by 1, presented
/// on the display's refresh, with the surface's first alpha mode, no further
/// view formats and two frames in flight.
pub fn initial_config(
    size: WindowSize,
    formats: &Vec<wgpu::TextureFormat>,
    alpha_modes: &Vec<wgpu::CompositeAlphaMode>,
) -> (config: SurfaceConfig)
    requires
        formats.len() > 0,
        alpha_modes.len() > 0,
    ensures
        is_initial(config, size, formats@, alpha_modes@),
        config.wf(),
{
    SurfaceConfig {
        usage: ImageUsage {
            copy_src: false,
            copy_dst: false,
            texture_binding: false,
            storage_binding: false,
            render_attachment: true,
        },
        format: select_format(formats),
        width: floor_to_one(size.width),
        height: floor_to_one(size.height),
        present_mode: PresentMode::Fifo,
        alpha_mode: alpha_modes[0],
        view_formats: Vec::new(),
        desired_maximum_frame_latency: FRAME_LATENCY,
    }
}

} // verus!
