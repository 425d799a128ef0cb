//! The memory model: one allocation's declared visibility and caching
//! properties, and the mapping-access mask derived from them.

use vstd::prelude::*;

use crate::handles::{GlEnum, RawBuffer};

verus! {

/// Memory property bit: the allocation lives in device-local storage.
pub const DEVICE_LOCAL: u32 = 0x1;

/// Memory property bit: the allocation is mappable for CPU access.
pub const CPU_VISIBLE: u32 = 0x2;

/// Memory property bit: host writes need no explicit flush.
pub const COHERENT: u32 = 0x4;

/// Memory property bit: host reads are served from a CPU cache.
pub const CPU_CACHED: u32 = 0x8;

/// Memory property bit: backing storage may be committed lazily.
pub const LAZILY_ALLOCATED: u32 = 0x10;

/// Native mapping-access bit requesting read access (`GL_MAP_READ_BIT`).
pub const MAP_READ_BIT: GlEnum = 0x0001;

/// Native mapping-access bit requesting write access (`GL_MAP_WRITE_BIT`).
pub const MAP_WRITE_BIT: GlEnum = 0x0002;

/// The visibility and caching properties an allocation was created with,
/// as a mask of the property bits above.
#[derive(Clone, Copy, Debug, PartialEq, Eq, Structural)]
pub struct Properties {
    pub bits: u32,
}

impl Properties {
    /// Whether every bit of `mask` is set in these properties.
    pub open spec fn spec_contains(self, mask: u32) -> bool {
        self.bits & mask == mask
    }

    pub fn contains(&self, mask: u32) -> (r: bool)
        ensures
            r == self.spec_contains(mask),
    {
        self.bits & mask == mask
    }
}

/// One memory allocation: its declared properties, the first buffer
/// that claimed it (zero while unbound; written once, then only read),
/// and its size in bytes.
#[derive(Debug)]
pub struct Memory {
    pub properties: Properties,
    pub first_bound_buffer: RawBuffer,
    pub size: u64,
}

impl Memory {
    /// The allocation accepts host writes: it was created host-visible.
    pub open spec fn spec_can_upload(self) -> bool {
        self.properties.spec_contains(CPU_VISIBLE)
    }

    /// The allocation supports host readback: it is both host-visible
    /// and host-cached.
    pub open spec fn spec_can_download(self) -> bool {
        self.properties.spec_contains(CPU_VISIBLE | CPU_CACHED)
    }

    /// The mapping-access mask derived from the two capabilities: read
    /// access iff download-capable, write access iff upload-capable.
    pub open spec fn spec_map_flags(self) -> GlEnum {
        (if self.spec_can_download() {
            MAP_READ_BIT
        } else {
            0u32
        }) | (if self.spec_can_upload() {
            MAP_WRITE_BIT
        } else {
            0u32
        })
    }

    pub fn can_upload(&self) -> (r: bool)
        ensures
            r == self.spec_can_upload(),
    {
        self.properties.contains(CPU_VISIBLE)
    }

    pub fn can_download(&self) -> (r: bool)
        ensures
            r == self.spec_can_download(),
    {
        self.properties.contains(CPU_VISIBLE | CPU_CACHED)
    }

    /// Derives the native mapping-access mask from the stored
    /// properties alone. The mask is empty iff the allocation is
    /// neither upload- nor download-capable; such an allocation is not
    /// host-accessible and mapping must fail upstream.
    pub fn map_flags(&self) -> (flags: GlEnum)
        ensures
            flags == self.spec_map_flags(),
            flags & MAP_READ_BIT == MAP_READ_BIT <==> self.spec_can_download(),
            flags & MAP_WRITE_BIT == MAP_WRITE_BIT <==> self.spec_can_upload(),
            flags == 0 <==> !self.spec_can_download() && !self.spec_can_upload(),
    {
        let mut flags: GlEnum = 0;
        if self.can_download() {
            flags = flags | MAP_READ_BIT;
        }
        if self.can_upload() {
            flags = flags | MAP_WRITE_BIT;
        }
        proof {
            assert(0u32 | 1u32 == 1u32) by (bit_vector);
            assert(0u32 | 2u32 == 2u32) by (bit_vector);
            assert(1u32 | 2u32 == 3u32) by (bit_vector);
            assert(0u32 | 0u32 == 0u32) by (bit_vector);
            assert(1u32 | 0u32 == 1u32) by (bit_vector);
            assert(2u32 | 0u32 == 2u32) by (bit_vector);
            assert(0u32 & 1u32 == 0u32) by (bit_vector);
            assert(1u32 & 1u32 == 1u32) by (bit_vector);
            assert(2u32 & 1u32 == 0u32) by (bit_vector);
            assert(3u32 & 1u32 == 1u32) by (bit_vector);
            assert(0u32 & 2u32 == 0u32) by (bit_vector);
            assert(1u32 & 2u32 == 0u32) by (bit_vector);
            assert(2u32 & 2u32 == 2u32) by (bit_vector);
            assert(3u32 & 2u32 == 2u32) by (bit_vector);
        }
        flags
    }
}

/// Law: the derived mapping mask contains the read bit iff the
/// allocation is download-capable, contains the write bit iff it is
/// upload-capable, and is empty iff it is neither; otherwise it is
/// exactly the union of the two bits.
pub proof fn lemma_map_flags_characterization(m: Memory)
    ensures
        m.spec_map_flags() & MAP_READ_BIT == MAP_READ_BIT <==> m.spec_can_download(),
        m.spec_map_flags() & MAP_WRITE_BIT == MAP_WRITE_BIT <==> m.spec_can_upload(),
        m.spec_map_flags() == 0 <==> !m.spec_can_download() && !m.spec_can_upload(),
        m.spec_can_download() && m.spec_can_upload() ==> m.spec_map_flags() == (
        MAP_READ_BIT | MAP_WRITE_BIT),
{
    assert(0u32 | 1u32 == 1u32) by (bit_vector);
    assert(0u32 | 2u32 == 2u32) by (bit_vector);
    assert(1u32 | 2u32 == 3u32) by (bit_vector);
    assert(0u32 | 0u32 == 0u32) by (bit_vector);
    assert(1u32 | 0u32 == 1u32) by (bit_vector);
    assert(2u32 | 0u32 == 2u32) by (bit_vector);
    assert(0u32 & 1u32 == 0u32) by (bit_vector);
    assert(1u32 & 1u32 == 1u32) by (bit_vector);
    assert(2u32 & 1u32 == 0u32) by (bit_vector);
    assert(3u32 & 1u32 == 1u32) by (bit_vector);
    assert(0u32 & 2u32 == 0u32) by (bit_vector);
    assert(1u32 & 2u32 == 0u32) by (bit_vector);
    assert(2u32 & 2u32 == 2u32) by (bit_vector);
    assert(3u32 & 2u32 == 2u32) by (bit_vector);
}

} // verus!
