//! Descriptor set and pool bookkeeping, and the pipeline layout that
//! owns the binding remap table.
//!
//! OpenGL has no persistent server-side descriptor-set object, so a
//! set is purely client-side bookkeeping until binding time, and the
//! pool is a degenerate allocator: allocation always succeeds, free
//! and reset do nothing.

use vstd::prelude::*;

use crate::handles::{RawBuffer, Sampler, Texture};
use crate::remap::{BindingTypes, DescRemapData, DescriptorBinding, DescriptorSetIndex};

verus! {

/// The typed category of a descriptor binding declaration.
#[derive(Clone, Copy, Debug, PartialEq, Eq, Structural)]
pub enum DescriptorType {
    Sampler,
    CombinedImageSampler,
    SampledImage,
    StorageImage,
    UniformTexelBuffer,
    StorageTexelBuffer,
    UniformBuffer,
    StorageBuffer,
    UniformBufferDynamic,
    StorageBufferDynamic,
    InputAttachment,
}

/// One binding declaration of a descriptor-set layout: the abstract
/// binding index, the descriptor type, the number of array elements,
/// and the mask of shader stages that see it.
#[derive(Clone, Copy, Debug, PartialEq, Eq, Structural)]
pub struct DescriptorSetLayoutBinding {
    pub binding: DescriptorBinding,
    pub ty: DescriptorType,
    pub count: usize,
    pub stage_flags: u32,
}

/// A descriptor-set layout is its ordered list of declarations.
pub type DescriptorSetLayout = Vec<DescriptorSetLayoutBinding>;

/// One concrete binding written into a descriptor set: a buffer range,
/// a texture, or a sampler, each against an abstract binding index.
#[derive(Clone, Copy, Debug, PartialEq, Eq, Structural)]
pub enum DescSetBindings {
    Buffer {
        ty: BindingTypes,
        binding: DescriptorBinding,
        buffer: RawBuffer,
        offset: isize,
        size: isize,
    },
    Texture(DescriptorBinding, Texture),
    Sampler(DescriptorBinding, Sampler),
}

/// A descriptor set: a copy of its layout's declarations and an
/// independently-owned list of concrete bindings, filled by descriptor
/// updates and consumed by command recording. Mutation requires
/// exclusive access to the set.
#[derive(Clone, Debug)]
pub struct DescriptorSet {
    pub layout: DescriptorSetLayout,
    pub bindings: Vec<DescSetBindings>,
}

/// The error kind a descriptor-pool allocation may report. This
/// backend never produces one: the result type exists for interface
/// compatibility with backends that can fail.
#[derive(Clone, Copy, Debug, PartialEq, Eq, Structural)]
pub enum AllocationError {
    OutOfHostMemory,
    OutOfPoolMemory,
    IncompatibleLayout,
    FragmentedPool,
}

/// A descriptor pool. It is stateless: OpenGL's binding model has no
/// descriptor-set object to exhaust or release.
#[derive(Debug)]
pub struct DescriptorPool {}

impl DescriptorPool {
    /// Materializes a fresh descriptor set against the given layout.
    /// Always succeeds: the set starts with a copy of the layout's
    /// declarations and an empty binding list.
    pub fn allocate_set(&mut self, layout: &DescriptorSetLayout) -> (r: Result<
        DescriptorSet,
        AllocationError,
    >)
        ensures
            *final(self) == *old(self),
            r is Ok,
            r matches Ok(set) ==> set.layout@ == layout@ && set.bindings@ == Seq::<
                DescSetBindings,
            >::empty(),
    {
        let mut decls: DescriptorSetLayout = Vec::new();
        let n = layout.len();
        let mut i: usize = 0;
        while i < n
            invariant
                i <= n,
                n == layout.len(),
                decls@ == layout@.take(i as int),
            decreases n - i,
        {
            decls.push(layout[i]);
            proof {
                assert(layout@.take(i as int + 1) =~= layout@.take(i as int).push(
                    layout@[i as int],
                ));
            }
            i = i + 1;
        }
        proof {
            assert(layout@.take(n as int) =~= layout@);
        }
        Ok(DescriptorSet { layout: decls, bindings: Vec::new() })
    }

    /// Frees previously allocated sets. Does nothing, because OpenGL
    /// has no meaningful concept of a descriptor set to release.
    pub fn free_sets(&mut self, _descriptor_sets: Vec<DescriptorSet>)
        ensures
            *final(self) == *old(self),
    {
    }

    /// Resets the pool. Does nothing, for the same reason as
    /// [`Self::free_sets`].
    pub fn reset(&mut self)
        ensures
            *final(self) == *old(self),
    {
    }
}

/// A pipeline layout: owns the remap table built during shader
/// reflection at construction time; descriptor sets allocated under it
/// and command recording consult that table for concrete slots.
/// Mutation of the table requires exclusive access; lookups only need
/// shared access.
#[derive(Debug)]
pub struct PipelineLayout {
    pub desc_remap_data: DescRemapData,
}

} // verus!
