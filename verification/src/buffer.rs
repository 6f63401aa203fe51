//! Buffers: what one is created with, and which memory it is given.

use vstd::prelude::*;
use crate::constants::{
    BUFFER_USAGE_INDEX_BUFFER, BUFFER_USAGE_STORAGE_BUFFER, BUFFER_USAGE_TRANSFER_DST,
    BUFFER_USAGE_TRANSFER_SRC, BUFFER_USAGE_UNIFORM_BUFFER, BUFFER_USAGE_VERTEX_BUFFER,
    MEMORY_DEVICE_LOCAL, MEMORY_HOST_COHERENT, MEMORY_HOST_VISIBLE,
};
use crate::error::RenderError;
use crate::flags::{has_flags, memory_properties_contain};

verus! {

/// The greatest number of memory types that a device can have.
pub const MAX_MEMORY_TYPES: usize = 32;

/// A buffer and what it is created with.
#[derive(Clone, Copy, Debug, PartialEq, Eq, Structural)]
pub struct Buffer {
    /// The driver's handles, zero until the buffer has been created.
    pub buffer: u64,
    pub memory: u64,
    pub size: u64,
    pub usage: u32,
    pub memory_properties: u32,
}

/// A buffer of the given size, usage and kind of memory, without handles.
pub open spec fn buffer_for(size: u64, usage: u32, memory_properties: u32) -> Buffer {
    Buffer { buffer: 0, memory: 0, size, usage, memory_properties }
}

impl Buffer {
    /// Describes a buffer. It has no handles yet.
    pub fn new(size: u64, usage: u32, memory_properties: u32) -> (buffer: Buffer)
        ensures
            buffer == buffer_for(size, usage, memory_properties),
    {
        Buffer { buffer: 0, memory: 0, size, usage, memory_properties }
    }

    /// A buffer that the host fills and a transfer reads.
    pub fn staging(size: u64) -> (buffer: Buffer)
        ensures
            buffer == buffer_for(
                size,
                BUFFER_USAGE_TRANSFER_SRC,
                MEMORY_HOST_VISIBLE | MEMORY_HOST_COHERENT,
            ),
    {
        Self::new(size, BUFFER_USAGE_TRANSFER_SRC, MEMORY_HOST_VISIBLE | MEMORY_HOST_COHERENT)
    }

    /// A vertex buffer in device memory, filled by a transfer.
    pub fn vertex(size: u64) -> (buffer: Buffer)
        ensures
            buffer == buffer_for(
                size,
                BUFFER_USAGE_TRANSFER_DST | BUFFER_USAGE_VERTEX_BUFFER,
                MEMORY_DEVICE_LOCAL,
            ),
    {
        Self::new(
            size,
            BUFFER_USAGE_TRANSFER_DST | BUFFER_USAGE_VERTEX_BUFFER,
            MEMORY_DEVICE_LOCAL,
        )
    }

    /// An index buffer in device memory, filled by a transfer.
    pub fn index(size: u64) -> (buffer: Buffer)
        ensures
            buffer == buffer_for(
                size,
                BUFFER_USAGE_TRANSFER_DST | BUFFER_USAGE_INDEX_BUFFER,
                MEMORY_DEVICE_LOCAL,
            ),
    {
        Self::new(size, BUFFER_USAGE_TRANSFER_DST | BUFFER_USAGE_INDEX_BUFFER, MEMORY_DEVICE_LOCAL)
    }

    /// A uniform buffer that the host writes each frame.
    pub fn uniform(size: u64) -> (buffer: Buffer)
        ensures
            buffer == buffer_for(
                size,
                BUFFER_USAGE_UNIFORM_BUFFER,
                MEMORY_HOST_VISIBLE | MEMORY_HOST_COHERENT,
            ),
    {
        Self::new(size, BUFFER_USAGE_UNIFORM_BUFFER, MEMORY_HOST_VISIBLE | MEMORY_HOST_COHERENT)
    }

    /// A storage buffer that the host writes.
    pub fn storage(size: u64) -> (buffer: Buffer)
        ensures
            buffer == buffer_for(
                size,
                BUFFER_USAGE_STORAGE_BUFFER,
                MEMORY_HOST_VISIBLE | MEMORY_HOST_COHERENT,
            ),
    {
        Self::new(size, BUFFER_USAGE_STORAGE_BUFFER, MEMORY_HOST_VISIBLE | MEMORY_HOST_COHERENT)
    }

    /// Whether `size` bytes can be written into the buffer from its start.
    pub fn fits(&self, size: u64) -> (fits: bool)
        ensures
            fits == (size <= self.size),
    {
        size <= self.size
    }

    /// The same buffer with the handles that the driver made for it.
    pub fn created(self, buffer: u64, memory: u64) -> (made: Buffer)
        ensures
            made == (Buffer { buffer, memory, ..self }),
    {
        Buffer {
            buffer,
            memory,
            size: self.size,
            usage: self.usage,
            memory_properties: self.memory_properties,
        }
    }

    /// The handles to destroy, in order: the buffer, then its memory.
    pub fn destroy(&self) -> (doomed: (u64, u64))
        ensures
            doomed == (self.buffer, self.memory),
    {
        (self.buffer, self.memory)
    }
}

/// Memory type `i` can hold an object that allows the types of
/// `type_filter` and needs the properties `required_properties`.
pub open spec fn memory_type_fits(
    type_filter: u32,
    required_properties: u32,
    memory_types: Seq<u32>,
    i: int,
) -> bool {
    &&& 0 <= i < memory_types.len()
    &&& i < MAX_MEMORY_TYPES
    &&& type_filter & (1u32 << (i as u32)) > 0
    &&& has_flags(memory_types[i], required_properties)
}

/// Picks the first memory type that the object allows and that has all the
/// properties asked for. `memory_types` holds the properties of each of the
/// device's memory types.
///
/// Fails where no memory type fits.
pub fn find_memory_type(type_filter: u32, required_properties: u32, memory_types: &Vec<u32>) -> (index:
    Result<u32, RenderError>)
    ensures
        index is Ok <==> exists|i: int|
            memory_type_fits(type_filter, required_properties, memory_types@, i),
        index is Ok ==> memory_type_fits(
            type_filter,
            required_properties,
            memory_types@,
            index->Ok_0 as int,
        ) && forall|j: int|
            0 <= j < index->Ok_0 ==> !memory_type_fits(
                type_filter,
                required_properties,
                memory_types@,
                j,
            ),
        index is Err ==> index->Err_0 == RenderError::NoMemoryType,
{
    let mut i: u32 = 0;
    while (i as usize) < memory_types.len() && (i as usize) < MAX_MEMORY_TYPES
        invariant
            i <= memory_types@.len(),
            i <= MAX_MEMORY_TYPES,
            forall|j: int|
                0 <= j < i ==> !memory_type_fits(
                    type_filter,
                    required_properties,
                    memory_types@,
                    j,
                ),
        decreases MAX_MEMORY_TYPES - i,
    {
        if (type_filter & (1u32 << i)) > 0 && memory_properties_contain(
            memory_types[i as usize],
            required_properties,
        ) {
            assert(memory_type_fits(type_filter, required_properties, memory_types@, i as int));
            return Ok(i);
        }
        i += 1;
    }
    Err(RenderError::NoMemoryType)
}

} // verus!
