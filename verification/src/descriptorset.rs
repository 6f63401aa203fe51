//! Descriptor sets: how shaders are told where their resources are.

use vstd::prelude::*;
use crate::commandpool::Command;
use crate::constants::{
    DESCRIPTOR_TYPE_COMBINED_IMAGE_SAMPLER, DESCRIPTOR_TYPE_UNIFORM_BUFFER, SHADER_STAGE_FRAGMENT,
    SHADER_STAGE_VERTEX, WHOLE_SIZE,
};
use crate::error::RenderError;
use crate::render_pass::ImageLayout;

verus! {

/// One binding of a descriptor set layout.
#[derive(Clone, Copy, Debug, PartialEq, Eq, Structural)]
pub struct DescriptorSetLayoutBinding {
    pub binding: u32,
    pub descriptor_type: i32,
    pub descriptor_count: u32,
    pub stage_flags: u32,
}

/// How many descriptors of one type a pool can hand out.
#[derive(Clone, Copy, Debug, PartialEq, Eq, Structural)]
pub struct DescriptorPoolSize {
    pub ty: i32,
    pub descriptor_count: u32,
}

/// A descriptor set layout.
pub struct DescriptorLayout {
    /// The driver's handle, zero until the layout has been created.
    pub layout: u64,
    pub bindings: Vec<DescriptorSetLayoutBinding>,
}

/// The binding through which the vertex shader reads the frame's uniform
/// buffer.
pub open spec fn uniform_binding() -> DescriptorSetLayoutBinding {
    DescriptorSetLayoutBinding {
        binding: 0,
        descriptor_type: DESCRIPTOR_TYPE_UNIFORM_BUFFER,
        descriptor_count: 1,
        stage_flags: SHADER_STAGE_VERTEX,
    }
}

/// The binding through which the fragment shader samples a texture.
pub open spec fn texture_binding() -> DescriptorSetLayoutBinding {
    DescriptorSetLayoutBinding {
        binding: 1,
        descriptor_type: DESCRIPTOR_TYPE_COMBINED_IMAGE_SAMPLER,
        descriptor_count: 1,
        stage_flags: SHADER_STAGE_FRAGMENT,
    }
}

impl DescriptorLayout {
    /// Describes a layout with the given bindings. It has no handle yet.
    pub fn new(layouts_bindings: Vec<DescriptorSetLayoutBinding>) -> (layout: DescriptorLayout)
        ensures
            layout.layout == 0,
            layout.bindings@ == layouts_bindings@,
    {
        DescriptorLayout { layout: 0, bindings: layouts_bindings }
    }

    /// The layout of the set that each thing drawn has: the frame's uniform
    /// buffer for the vertex shader, and the thing's texture for the
    /// fragment shader.
    pub fn drawable() -> (layout: DescriptorLayout)
        ensures
            layout.layout == 0,
            layout.bindings@ == seq![uniform_binding(), texture_binding()],
    {
        let mut bindings: Vec<DescriptorSetLayoutBinding> = Vec::new();
        bindings.push(
            DescriptorSetLayoutBinding {
                binding: 0,
                descriptor_type: DESCRIPTOR_TYPE_UNIFORM_BUFFER,
                descriptor_count: 1,
                stage_flags: SHADER_STAGE_VERTEX,
            },
        );
        bindings.push(
            DescriptorSetLayoutBinding {
                binding: 1,
                descriptor_type: DESCRIPTOR_TYPE_COMBINED_IMAGE_SAMPLER,
                descriptor_count: 1,
                stage_flags: SHADER_STAGE_FRAGMENT,
            },
        );
        Self::new(bindings)
    }
}

/// The pool size that holds the descriptors of one binding for `sets` sets.
pub open spec fn pool_size_for(binding: DescriptorSetLayoutBinding, sets: u32) -> DescriptorPoolSize {
    DescriptorPoolSize {
        ty: binding.descriptor_type,
        descriptor_count: (binding.descriptor_count * sets) as u32,
    }
}

/// The descriptors of every binding can be counted for `sets` sets.
pub open spec fn pool_fits(bindings: Seq<DescriptorSetLayoutBinding>, sets: u32) -> bool {
    forall|i: int| 0 <= i < bindings.len() ==> (#[trigger] bindings[i]).descriptor_count * sets
        <= u32::MAX
}

/// A descriptor pool and the sets allocated from it.
pub struct DescriptorPool {
    /// The driver's handle, zero until the pool has been created.
    pub pool: u64,
    pub max_sets: u32,
    pub pool_sizes: Vec<DescriptorPoolSize>,
    pub sets: Vec<u64>,
}

impl DescriptorPool {
    /// Describes a pool from which `sets` sets of one layout can be
    /// allocated. It has no handle and no sets yet.
    ///
    /// Fails where the descriptors of a binding are too many to count.
    pub fn new(layout: &DescriptorLayout, sets: u32) -> (pool: Result<DescriptorPool, RenderError>)
        ensures
            pool_fits(layout.bindings@, sets) ==> pool is Ok && pool->Ok_0.pool == 0
                && pool->Ok_0.max_sets == sets && pool->Ok_0.sets@.len() == 0
                && pool->Ok_0.pool_sizes@.len() == layout.bindings@.len() && forall|i: int|
                0 <= i < layout.bindings@.len() ==> pool->Ok_0.pool_sizes@[i] == pool_size_for(
                    layout.bindings@[i],
                    sets,
                ),
            !pool_fits(layout.bindings@, sets) ==> pool is Err && pool->Err_0
                == RenderError::ResourceCountMismatch,
    {
        let mut pool_sizes: Vec<DescriptorPoolSize> = Vec::new();
        let mut i: usize = 0;
        while i < layout.bindings.len()
            invariant
                i <= layout.bindings@.len(),
                pool_sizes@.len() == i,
                pool_fits(layout.bindings@.take(i as int), sets),
                forall|j: int|
                    0 <= j < i ==> pool_sizes@[j] == pool_size_for(layout.bindings@[j], sets),
            decreases layout.bindings@.len() - i,
        {
            let binding = layout.bindings[i];
            match binding.descriptor_count.checked_mul(sets) {
                Some(descriptor_count) => {
                    pool_sizes.push(
                        DescriptorPoolSize { ty: binding.descriptor_type, descriptor_count },
                    );
                },
                None => {
                    assert(!pool_fits(layout.bindings@, sets)) by {
                    }
                    return Err(RenderError::ResourceCountMismatch);
                },
            }
            assert forall|j: int| 0 <= j < i + 1 implies (#[trigger] layout.bindings@.take(
                i + 1,
            )[j]).descriptor_count * sets <= u32::MAX by {
                if j < i {
                }
            }
            i += 1;
        }
        assert(layout.bindings@.take(i as int) =~= layout.bindings@);
        Ok(DescriptorPool { pool: 0, max_sets: sets, pool_sizes, sets: Vec::new() })
    }

    /// The command that binds the set with the given number, if the pool
    /// has that many sets.
    pub fn bind(&self, layout: u64, index: usize) -> (command: Option<Command>)
        ensures
            command == if index < self.sets@.len() {
                Some(Command::BindDescriptorSet { layout, set: self.sets@[index as int] })
            } else {
                None
            },
    {
        if index < self.sets.len() {
            Some(Command::BindDescriptorSet { layout, set: self.sets[index] })
        } else {
            None
        }
    }

    /// Takes in the sets that the driver allocated.
    ///
    /// Fails, and changes nothing, where their number is not the number that
    /// the pool was made for.
    pub fn create_sets(&mut self, sets: Vec<u64>) -> (outcome: Result<(), RenderError>)
        ensures
            sets@.len() == old(self).max_sets ==> outcome is Ok && final(self).sets@ == sets@
                && final(self).pool == old(self).pool && final(self).max_sets == old(
                self,
            ).max_sets && final(self).pool_sizes@ == old(self).pool_sizes@,
            sets@.len() != old(self).max_sets ==> outcome is Err && outcome->Err_0
                == RenderError::ResourceCountMismatch && *final(self) == *old(self),
    {
        if sets.len() != self.max_sets as usize {
            return Err(RenderError::ResourceCountMismatch);
        }
        self.sets = sets;
        Ok(())
    }
}

/// What a descriptor points at.
#[derive(Clone, Copy, Debug, PartialEq, Eq, Structural)]
pub enum DescriptorInfo {
    Buffer { buffer: u64, offset: u64, range: u64 },
    Image { sampler: u64, image_view: u64, image_layout: ImageLayout },
}

impl DescriptorInfo {
    /// A whole buffer.
    pub fn buffer(buffer: u64) -> (info: DescriptorInfo)
        ensures
            info == (DescriptorInfo::Buffer { buffer, offset: 0, range: WHOLE_SIZE }),
    {
        DescriptorInfo::Buffer { buffer, offset: 0, range: WHOLE_SIZE }
    }

    /// An image that shaders read, with the sampler to read it through.
    pub fn image(sampler: u64, view: u64) -> (info: DescriptorInfo)
        ensures
            info == (DescriptorInfo::Image {
                sampler,
                image_view: view,
                image_layout: ImageLayout::ShaderReadOnlyOptimal,
            }),
    {
        DescriptorInfo::Image {
            sampler,
            image_view: view,
            image_layout: ImageLayout::ShaderReadOnlyOptimal,
        }
    }
}

/// One update of a descriptor set.
#[derive(Clone, Copy, Debug, PartialEq, Eq, Structural)]
pub struct WriteDescriptorSet {
    pub dst_set: u64,
    pub dst_binding: u32,
    pub descriptor_count: u32,
    pub descriptor_type: i32,
    pub info: DescriptorInfo,
}

/// Describes the update that points `count` descriptors, from `binding` on,
/// of a set at what `info` names.
pub fn descriptor_write(set: u64, set_type: i32, info: &DescriptorInfo, binding: u32, count: u32) -> (write:
    WriteDescriptorSet)
    ensures
        write == (WriteDescriptorSet {
            dst_set: set,
            dst_binding: binding,
            descriptor_count: count,
            descriptor_type: set_type,
            info: *info,
        }),
{
    WriteDescriptorSet {
        dst_set: set,
        dst_binding: binding,
        descriptor_count: count,
        descriptor_type: set_type,
        info: *info,
    }
}

} // verus!
