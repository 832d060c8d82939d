//! Texel formats and the other small vocabularies shared by the descriptors.

use vstd::prelude::*;

verus! {

/// How the texels of an image are stored.
#[derive(Clone, Copy, Debug, PartialEq, Eq, Structural)]
pub enum TextureFormat {
    Rgba8Unorm,
    Rgba8UnormSrgb,
    Bgra8Unorm,
    Bgra8UnormSrgb,
}

/// What a texture may be used for.
#[derive(Clone, Copy, Debug, PartialEq, Eq, Structural)]
pub struct TextureUsage {
    pub copy_src: bool,
    pub copy_dst: bool,
    pub sampled: bool,
    pub storage: bool,
    pub output_attachment: bool,
}

impl TextureUsage {
    /// No use at all.
    pub open spec fn none() -> TextureUsage {
        TextureUsage {
            copy_src: false,
            copy_dst: false,
            sampled: false,
            storage: false,
            output_attachment: false,
        }
    }

    /// A render target that is presented.
    pub open spec fn presented() -> TextureUsage {
        TextureUsage { output_attachment: true, ..TextureUsage::none() }
    }

    /// An image that shaders sample and that a copy command fills.
    pub open spec fn sampled_copy_target() -> TextureUsage {
        TextureUsage { sampled: true, copy_dst: true, ..TextureUsage::none() }
    }
}

/// The stage of the pipeline a program or a binding belongs to.
#[derive(Clone, Copy, Debug, PartialEq, Eq, Structural)]
pub enum ShaderStage {
    Vertex,
    Fragment,
    Compute,
}

} // verus!
