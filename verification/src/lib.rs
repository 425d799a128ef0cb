//! Resource and binding model for an OpenGL hardware-abstraction-layer
//! backend: native handle wrappers, a memory visibility model, the
//! descriptor binding remapper that flattens (kind, set, binding) triples
//! into OpenGL's flat per-kind slot space, the passive resource registry
//! types, and the decision logic of the compile-time shader-parameter
//! derive.

pub mod descriptor;
pub mod handles;
pub mod image;
pub mod memory;
pub mod pipeline;
pub mod remap;
pub mod renderpass;
pub mod shade;
