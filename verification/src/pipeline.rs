//! Pipelines, shader modules and vertex attribute descriptions:
//! passive wrappers consumed by the command-recording layer.

use vstd::prelude::*;

use crate::handles::{GlEnum, GlName, Program, Shader};

verus! {

/// Which native vertex-attribute pointer call an attribute needs.
#[derive(Clone, Copy, Debug, PartialEq, Eq, Structural)]
pub enum VertexAttribFunction {
    Float,
    Integer,
    Double,
}

/// One vertex attribute: its shader location, byte offset, vertex
/// buffer binding, component count, native format, and pointer call.
#[derive(Clone, Copy, Debug, PartialEq, Eq, Structural)]
pub struct AttributeDesc {
    pub location: GlName,
    pub offset: u32,
    pub binding: GlName,
    pub size: i32,
    pub format: GlEnum,
    pub vertex_attrib_fn: VertexAttribFunction,
}

/// One color blend target description: the channel write mask and
/// whether blending is enabled for the target.
#[derive(Clone, Copy, Debug, PartialEq, Eq, Structural)]
pub struct ColorBlendDesc {
    pub mask: u8,
    pub blend_enabled: bool,
}

/// One vertex buffer binding: its binding index, byte stride, and
/// per-instance step rate (zero for per-vertex data).
#[derive(Clone, Copy, Debug, PartialEq, Eq, Structural)]
pub struct VertexBufferDesc {
    pub binding: GlName,
    pub stride: u32,
    pub rate: u32,
}

/// A graphics pipeline: the linked program and the static state the
/// command recorder replays when the pipeline is bound.
#[derive(Clone, Debug)]
pub struct GraphicsPipeline {
    pub program: Program,
    pub primitive: GlEnum,
    pub patch_size: Option<i32>,
    pub blend_targets: Vec<ColorBlendDesc>,
    pub attributes: Vec<AttributeDesc>,
    pub vertex_buffers: Vec<Option<VertexBufferDesc>>,
}

/// A compute pipeline is its linked program.
#[derive(Clone, Debug)]
pub struct ComputePipeline {
    pub program: Program,
}

/// A shader module: either an already-compiled native shader object
/// or SPIR-V bytes still to be cross-compiled.
#[derive(Clone, Debug, Hash)]
pub enum ShaderModule {
    Raw(Shader),
    Spirv(Vec<u8>),
}

} // verus!
