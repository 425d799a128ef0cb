//! Images, image views and samplers: passive wrappers around native
//! handles plus the metadata needed to reconstruct clear, view and
//! sampling semantics.

use vstd::prelude::*;

use crate::handles::{Sampler, Surface, Texture};

verus! {

/// A mipmap level of an image.
pub type Level = u8;

/// A layer of a layered image.
pub type Layer = u16;

/// The channel interpretation of an image's texels, needed to select
/// the correct clear-value interpretation.
#[derive(Clone, Copy, Debug, PartialEq, Eq, Hash, Structural)]
pub enum ChannelType {
    Unorm,
    Snorm,
    Uscaled,
    Sscaled,
    Uint,
    Sint,
    Ufloat,
    Sfloat,
    Srgb,
}

/// An image is either a renderable surface or a sampled texture.
#[derive(Clone, Copy, Debug, PartialEq, Eq, Hash, Structural)]
pub enum ImageKind {
    Surface(Surface),
    Texture(Texture),
}

/// One image, tagged with its channel type.
#[derive(Clone, Copy, Debug, PartialEq, Eq, Hash, Structural)]
pub struct Image {
    pub kind: ImageKind,
    pub channel: ChannelType,
}

/// A view refines an image to a specific mip level and, for layered
/// images, a specific layer; surfaces have no such refinement.
#[derive(Clone, Copy, Debug, PartialEq, Eq, Hash, Structural)]
pub enum ImageView {
    Surface(Surface),
    Texture(Texture, Level),
    TextureLayer(Texture, Level, Layer),
}

/// A texel filtering mode.
#[derive(Clone, Copy, Debug, PartialEq, Eq, Hash, Structural)]
pub enum Filter {
    Nearest,
    Linear,
}

/// How sampling coordinates outside the image are handled.
#[derive(Clone, Copy, Debug, PartialEq, Eq, Hash, Structural)]
pub enum WrapMode {
    Tile,
    Mirror,
    Clamp,
    Border,
}

/// A depth-comparison function for comparison samplers.
#[derive(Clone, Copy, Debug, PartialEq, Eq, Hash, Structural)]
pub enum Comparison {
    Never,
    Less,
    Equal,
    LessEqual,
    Greater,
    NotEqual,
    GreaterEqual,
    Always,
}

/// The raw sampling parameters applied directly to a texture unit at
/// bind time on API versions without separate sampler objects.
#[derive(Clone, Copy, Debug, PartialEq, Eq, Hash, Structural)]
pub struct SamplerInfo {
    pub min_filter: Filter,
    pub mag_filter: Filter,
    pub mip_filter: Filter,
    pub wrap_s: WrapMode,
    pub wrap_t: WrapMode,
    pub wrap_r: WrapMode,
    pub comparison: Option<Comparison>,
}

/// A capability-polymorphic sampler: a native sampler object where the
/// platform has them, or the raw parameters to apply at bind time
/// where it does not. The variant is selected once, at device-feature
/// detection time, and threaded through unchanged.
#[derive(Clone, Copy, Debug, PartialEq, Eq, Hash, Structural)]
pub enum FatSampler {
    Sampler(Sampler),
    Info(SamplerInfo),
}

} // verus!
