//! The presentation surface chain: its size, its formats and how it is
//! described to the device.

use crate::pipeline::TextureFormat;
use vstd::prelude::*;

verus! {

/// A size in physical pixels.
#[derive(Clone, Copy, Debug, PartialEq, Eq, Structural)]
pub struct PhysicalSize {
    pub width: u32,
    pub height: u32,
}

/// When a finished frame is shown.
#[derive(Clone, Copy, Debug, PartialEq, Eq, Structural)]
pub enum PresentMode {
    /// At once, without waiting for the vertical blank.
    NoVsync,
    /// At the next vertical blank, replacing a frame that still waits.
    Mailbox,
    /// At the next vertical blank, in order.
    Vsync,
}

/// What the textures of the chain may be used for.
#[derive(Clone, Copy, Debug, PartialEq, Eq, Structural)]
pub struct TextureUsage {
    pub copy_src: bool,
    pub copy_dst: bool,
    pub sampled: bool,
    pub storage: bool,
    pub output_attachment: bool,
}

/// What the device needs to know to make a presentation surface chain.
#[derive(Clone, Copy, Debug, PartialEq, Eq, Structural)]
pub struct SwapChainDescriptor {
    pub usage: TextureUsage,
    pub format: TextureFormat,
    pub width: u32,
    pub height: u32,
    pub present_mode: PresentMode,
}

impl TextureUsage {
    pub open spec fn spec_output_attachment() -> TextureUsage {
        TextureUsage {
            copy_src: false,
            copy_dst: false,
            sampled: false,
            storage: false,
            output_attachment: true,
        }
    }

    /// A render target and nothing else.
    pub fn output_attachment() -> (usage: TextureUsage)
        ensures
            usage == Self::spec_output_attachment(),
    {
        TextureUsage {
            copy_src: false,
            copy_dst: false,
            sampled: false,
            storage: false,
            output_attachment: true,
        }
    }
}

/// Format of the textures that are presented.
pub open spec fn spec_backbuffer_format() -> TextureFormat {
    TextureFormat::Bgra8Unorm
}

/// The chain that presents at `size`: a render target in the backbuffer
/// format, shown without waiting for the vertical blank.
pub open spec fn spec_swap_chain_desc(size: PhysicalSize) -> SwapChainDescriptor {
    SwapChainDescriptor {
        usage: TextureUsage::spec_output_attachment(),
        format: spec_backbuffer_format(),
        width: size.width,
        height: size.height,
        present_mode: PresentMode::NoVsync,
    }
}

} // verus!
