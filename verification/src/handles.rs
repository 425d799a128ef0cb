//! Thin semantic aliases over native integer handles, and the wrappers
//! that carry them: buffers, fences, and the stateless semaphore.

use vstd::prelude::*;

verus! {

/// A native OpenGL object name (`GLuint`).
pub type GlName = u32;

/// A native OpenGL enumeration value (`GLenum`).
pub type GlEnum = u32;

pub type RawBuffer = GlName;

pub type Shader = GlName;

pub type Program = GlName;

pub type FrameBuffer = GlName;

pub type Surface = GlName;

pub type Texture = GlName;

pub type Sampler = GlName;

/// A native fence sync handle, carried as a plain value; the sync API
/// that produces and consumes it is outside this library.
pub type SyncHandle = u64;

pub const DEFAULT_FRAMEBUFFER: FrameBuffer = 0;

/// An owning wrapper for a native buffer object, together with the
/// target it was created for and its size in bytes.
#[derive(Debug)]
pub struct Buffer {
    pub raw: RawBuffer,
    pub target: GlEnum,
    pub size: u64,
}

/// Buffer views carry no state in this backend.
#[derive(Debug)]
pub struct BufferView;

/// Wraps a native sync object; the underlying primitive is safe to
/// query and signal from any thread.
#[derive(Debug)]
pub struct Fence(pub SyncHandle);

impl Fence {
    pub fn new(sync: SyncHandle) -> (r: Fence)
        ensures
            r.0 == sync,
    {
        Fence(sync)
    }
}

/// An empty marker: this backend serializes all work on one native
/// context, so inter-queue synchronization carries no state.
#[derive(Debug)]
pub struct Semaphore;

} // verus!
