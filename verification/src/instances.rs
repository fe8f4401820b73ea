//! The memory that holds a frame's instance records, and the allocations made
//! in it.
use crate::arith::{
    align_up, align_up_is_least_multiple, ceil_div, ceil_div_is_least_cover, ceil_power_of_two,
    ceil_power_of_two_is_least, div_ceil, lcm, lcm_is_least_common_multiple,
    least_common_multiple, max_of, max_u64, min_of, min_u64, next_multiple_of, next_power_of_two,
};
use crate::device::{
    BufferDescriptor, BufferUsage, DeviceLimits, TexelFormat, TextureDescriptor, TextureDimension,
    TextureUsage,
};
use vstd::arithmetic::div_mod::{lemma_fundamental_div_mod, lemma_mod_multiples_basic};
use vstd::prelude::*;

verus! {

/// Bytes in one texel of the instance texture.
pub const INSTANCE_TEXTURE_TEXEL_SIZE: u64 = 16;

/// Bytes that instance memory never exceeds by request.
pub const MAX_INSTANCE_BUFFER_SIZE: u64 = 256 * 1024 * 1024;

/// Bytes of instance memory that a renderer starts with.
pub const INITIAL_INSTANCE_CAPACITY: u64 = 2 * 1024 * 1024;

/// Bytes that even an empty binding reserves.
pub const MIN_BINDING_SIZE: u64 = 16;

/// What backs the instance memory.
#[derive(Clone, Copy, Debug, PartialEq, Eq, Structural)]
pub enum InstanceData {
    /// A storage buffer of that many bytes.
    Storage { size: u64 },
    /// A texture of words, for backends without storage buffers.
    Texture { width: u32, height: u32 },
}

/// Why an allocation was refused.
#[derive(Clone, Copy, Debug, PartialEq, Eq, Structural)]
pub enum InstanceError {
    /// The allocation alone needs more bytes than the memory may ever have.
    RequiredAboveMaximum { required: u64, maximum: u64 },
    /// The memory is full and cannot grow.
    FrameAboveMaximum { maximum: u64 },
    /// The first record's index does not fit a draw call.
    IndexOutOfRange,
}

/// Texels that `requested` bytes take.
pub open spec fn texel_count(requested: int) -> int {
    ceil_div(requested, INSTANCE_TEXTURE_TEXEL_SIZE as int)
}

/// Width of a texture for `requested` bytes: one row where that fits.
pub open spec fn texture_width(requested: int, max_dimension: int) -> int {
    max_of(min_of(texel_count(requested), max_dimension), 1)
}

/// Height of a texture for `requested` bytes.
pub open spec fn texture_height(requested: int, max_dimension: int) -> int {
    max_of(
        min_of(
            ceil_div(texel_count(requested), texture_width(requested, max_dimension)),
            max_dimension,
        ),
        1,
    )
}

/// Bytes that a texture of the given extent holds.
pub open spec fn extent_bytes(width: int, height: int) -> int {
    width * height * INSTANCE_TEXTURE_TEXEL_SIZE
}

/// Bytes that a texture for `requested` bytes really holds.
pub open spec fn texture_capacity(requested: int, max_dimension: int) -> int {
    extent_bytes(
        texture_width(requested, max_dimension),
        texture_height(requested, max_dimension),
    )
}

/// An instance texture holds at least what was requested, as long as the
/// largest texture would, and less than twice as much.
pub proof fn texture_capacity_covers_request(requested: int, max_dimension: int)
    requires
        requested >= 0,
        max_dimension >= 0,
    ensures
        texture_width(requested, max_dimension) >= 1,
        texture_height(requested, max_dimension) >= 1,
        max_dimension >= 1 ==> texture_width(requested, max_dimension) <= max_dimension,
        max_dimension >= 1 ==> texture_height(requested, max_dimension) <= max_dimension,
        texture_capacity(requested, max_dimension) <= 2 * (requested
            + INSTANCE_TEXTURE_TEXEL_SIZE),
        requested <= extent_bytes(max_dimension, max_dimension) ==> texture_capacity(
            requested,
            max_dimension,
        ) >= requested,
{
    let texel = INSTANCE_TEXTURE_TEXEL_SIZE as int;
    let t = texel_count(requested);
    let w = texture_width(requested, max_dimension);
    let h = texture_height(requested, max_dimension);
    let rows = ceil_div(t, w);
    ceil_div_is_least_cover(requested, texel);
    ceil_div_is_least_cover(t, w);
    if t == 0 {
        assert(rows == 0) by (nonlinear_arith)
            requires
                rows * w < t + w,
                rows >= 0,
                t == 0,
                w >= 1,
        ;
        assert(w * h == 1) by (nonlinear_arith)
            requires
                w == 1,
                h == 1,
        ;
    } else {
        assert(w <= t);
        assert(w * h <= 2 * t) by (nonlinear_arith)
            requires
                rows * w < t + w,
                w <= t,
                w >= 1,
                h == 1 || h <= rows,
        ;
    }
    if requested <= extent_bytes(max_dimension, max_dimension) {
        assert(t <= max_dimension * max_dimension) by (nonlinear_arith)
            requires
                t * 16 < requested + 16,
                requested <= max_dimension * max_dimension * 16,
        ;
        if max_dimension == 0 {
            assert(max_dimension * max_dimension == 0) by (nonlinear_arith)
                requires
                    max_dimension == 0,
            ;
            assert(w * h >= t) by (nonlinear_arith)
                requires
                    w >= 1,
                    h >= 1,
                    t == 0,
            ;
        } else {
            if t > max_dimension {
                assert(rows <= max_dimension) by (nonlinear_arith)
                    requires
                        rows * w < t + w,
                        w == max_dimension,
                        t <= max_dimension * max_dimension,
                        max_dimension >= 1,
                ;
            } else {
                assert(rows <= 1) by (nonlinear_arith)
                    requires
                        rows * w < t + w,
                        w >= t,
                        w >= 1,
                ;
            }
            assert(h >= rows);
            assert(w * h >= t) by (nonlinear_arith)
                requires
                    rows * w >= t,
                    h >= rows,
                    w >= 1,
            ;
        }
    }
}

/// Lays out an instance texture for `requested_capacity` bytes. Returns it
/// with the bytes that it really holds.
pub fn create_instance_texture(requested_capacity: u64, max_texture_dimension: u32) -> (result: (
    InstanceData,
    u64,
))
    requires
        texture_capacity(requested_capacity as int, max_texture_dimension as int) <= u64::MAX,
    ensures
        result.0 == (InstanceData::Texture {
            width: texture_width(requested_capacity as int, max_texture_dimension as int) as u32,
            height: texture_height(requested_capacity as int, max_texture_dimension as int) as u32,
        }),
        result.1 == texture_capacity(requested_capacity as int, max_texture_dimension as int),
{
    let texels: u64 = div_ceil(requested_capacity, INSTANCE_TEXTURE_TEXEL_SIZE);
    let width: u64 = max_u64(min_u64(texels, max_texture_dimension as u64), 1);
    let height: u64 = max_u64(
        min_u64(div_ceil(texels, width), max_texture_dimension as u64),
        1,
    );
    proof {
        assert(width * height <= u64::MAX) by (nonlinear_arith)
            requires
                width * height * 16 <= u64::MAX,
        ;
    }
    let capacity: u64 = width * height * INSTANCE_TEXTURE_TEXEL_SIZE;
    (InstanceData::Texture { width: width as u32, height: height as u32 }, capacity)
}

impl InstanceData {
    /// The buffer to create where a buffer backs the memory.
    pub open spec fn buffer(self) -> Option<BufferDescriptor> {
        match self {
            InstanceData::Storage { size } => Some(
                BufferDescriptor {
                    label: "instance_buffer",
                    size,
                    usage: BufferUsage { uniform: false, storage: true, copy_dst: true },
                },
            ),
            InstanceData::Texture { .. } => None,
        }
    }

    /// The buffer to create where a buffer backs the memory.
    pub fn buffer_descriptor(&self) -> (result: Option<BufferDescriptor>)
        ensures
            result == self.buffer(),
            result == match *self {
                InstanceData::Storage { size } => Some(
                    BufferDescriptor {
                        label: "instance_buffer",
                        size,
                        usage: BufferUsage { uniform: false, storage: true, copy_dst: true },
                    },
                ),
                InstanceData::Texture { .. } => None,
            },
    {
        match *self {
            InstanceData::Storage { size } => Some(
                BufferDescriptor {
                    label: "instance_buffer",
                    size,
                    usage: BufferUsage { uniform: false, storage: true, copy_dst: true },
                },
            ),
            InstanceData::Texture { .. } => None,
        }
    }

    /// The texture to create where a texture backs the memory.
    pub open spec fn descriptor(self) -> Option<TextureDescriptor> {
        match self {
            InstanceData::Storage { .. } => None,
            InstanceData::Texture { width, height } => Some(
                TextureDescriptor {
                    label: "instance_texture",
                    width,
                    height,
                    depth_or_array_layers: 1,
                    mip_level_count: 1,
                    sample_count: 1,
                    dimension: TextureDimension::D2,
                    format: TexelFormat::Rgba32Uint,
                    usage: TextureUsage {
                        render_attachment: false,
                        texture_binding: true,
                        copy_dst: true,
                    },
                },
            ),
        }
    }

    /// The texture to create where a texture backs the memory.
    pub fn texture_descriptor(&self) -> (result: Option<TextureDescriptor>)
        ensures
            result == self.descriptor(),
    {
        match *self {
            InstanceData::Storage { .. } => None,
            InstanceData::Texture { width, height } => Some(
                TextureDescriptor {
                    label: "instance_texture",
                    width,
                    height,
                    depth_or_array_layers: 1,
                    mip_level_count: 1,
                    sample_count: 1,
                    dimension: TextureDimension::D2,
                    format: TexelFormat::Rgba32Uint,
                    usage: TextureUsage {
                        render_attachment: false,
                        texture_binding: true,
                        copy_dst: true,
                    },
                },
            ),
        }
    }
}

/// The instance memory of a renderer.
#[derive(Clone, Copy, Debug, PartialEq, Eq, Structural)]
pub struct InstanceMemory {
    /// What backs the memory.
    pub data: InstanceData,
    /// Bytes that fit.
    pub capacity: u64,
    /// Bytes that growing never requests more than.
    pub max_size: u64,
    /// Alignment of each allocation's offset.
    pub alignment: u64,
    /// A texture backs the memory, and shaders index it absolutely.
    pub uses_webgl: bool,
    /// Largest width and height of a texture.
    pub max_texture_dimension: u32,
}

/// One allocation of instance records, ready to upload and bind.
#[derive(Clone, Copy, Debug, PartialEq, Eq, Structural)]
pub struct InstanceAllocation {
    /// Where the records start.
    pub offset: u64,
    /// Bytes to bind.
    pub size: u64,
    /// Index of the first record within the bound data. Zero where the
    /// binding's offset already positions the records.
    pub first_instance: u32,
    /// The memory that replaced the previous one to make room.
    pub grown: Option<InstanceData>,
}

/// Bytes that a binding of `byte_count` bytes of records takes.
pub open spec fn binding_size(byte_count: int) -> int {
    max_of(byte_count, MIN_BINDING_SIZE as int)
}

/// Distance between records of `record_size` bytes.
pub open spec fn record_stride(record_size: int) -> int {
    max_of(record_size, 1)
}

impl InstanceMemory {
    /// The backing agrees with the capacity, and a grown texture can hold what
    /// growing requests.
    pub open spec fn wf(self) -> bool {
        &&& self.max_size <= MAX_INSTANCE_BUFFER_SIZE
        &&& self.capacity <= 2 * (MAX_INSTANCE_BUFFER_SIZE + INSTANCE_TEXTURE_TEXEL_SIZE)
        &&& self.alignment <= u32::MAX
        &&& match self.data {
            InstanceData::Storage { size } => {
                &&& !self.uses_webgl
                &&& self.capacity == size
            },
            InstanceData::Texture { width, height } => {
                &&& self.uses_webgl
                &&& width >= 1
                &&& height >= 1
                &&& self.capacity == extent_bytes(width as int, height as int)
                &&& self.alignment == INSTANCE_TEXTURE_TEXEL_SIZE
                &&& self.max_size <= extent_bytes(
                    self.max_texture_dimension as int,
                    self.max_texture_dimension as int,
                )
            },
        }
    }

    /// The memory that a renderer on a device with these limits starts with.
    pub open spec fn initial(limits: DeviceLimits, uses_webgl: bool) -> InstanceMemory {
        let dimension = limits.max_texture_dimension_2d as int;
        let max_size = if uses_webgl {
            min_of(extent_bytes(dimension, dimension), MAX_INSTANCE_BUFFER_SIZE as int)
        } else {
            min_of(
                min_of(
                    limits.max_buffer_size as int,
                    limits.max_storage_buffer_binding_size as int,
                ),
                MAX_INSTANCE_BUFFER_SIZE as int,
            )
        };
        let requested = min_of(INITIAL_INSTANCE_CAPACITY as int, max_size);
        InstanceMemory {
            data: if uses_webgl {
                InstanceData::Texture {
                    width: texture_width(requested, dimension) as u32,
                    height: texture_height(requested, dimension) as u32,
                }
            } else {
                InstanceData::Storage { size: requested as u64 }
            },
            capacity: if uses_webgl {
                texture_capacity(requested, dimension) as u64
            } else {
                requested as u64
            },
            max_size: max_size as u64,
            alignment: if uses_webgl {
                INSTANCE_TEXTURE_TEXEL_SIZE
            } else {
                limits.min_storage_buffer_offset_alignment as u64
            },
            uses_webgl,
            max_texture_dimension: limits.max_texture_dimension_2d,
        }
    }

    /// The instance memory for a device with these limits.
    pub fn new(limits: &DeviceLimits, uses_webgl: bool) -> (result: InstanceMemory)
        requires
            uses_webgl ==> extent_bytes(
                limits.max_texture_dimension_2d as int,
                limits.max_texture_dimension_2d as int,
            ) <= u64::MAX,
        ensures
            result == InstanceMemory::initial(*limits, uses_webgl),
            result.wf(),
    {
        let dimension: u32 = limits.max_texture_dimension_2d;
        if uses_webgl {
            proof {
                assert(dimension as u64 * dimension as u64 <= u64::MAX) by (nonlinear_arith)
                    requires
                        dimension * dimension * 16 <= u64::MAX,
                ;
            }
            let largest: u64 = dimension as u64 * dimension as u64 * INSTANCE_TEXTURE_TEXEL_SIZE;
            let max_size: u64 = min_u64(largest, MAX_INSTANCE_BUFFER_SIZE);
            let requested: u64 = min_u64(INITIAL_INSTANCE_CAPACITY, max_size);
            proof {
                texture_capacity_covers_request(requested as int, dimension as int);
                lemma_texture_extent_fits(requested as int, dimension as int);
            }
            let (data, capacity) = create_instance_texture(requested, dimension);
            InstanceMemory {
                data,
                capacity,
                max_size,
                alignment: INSTANCE_TEXTURE_TEXEL_SIZE,
                uses_webgl,
                max_texture_dimension: dimension,
            }
        } else {
            let max_size: u64 = min_u64(
                min_u64(limits.max_buffer_size, limits.max_storage_buffer_binding_size),
                MAX_INSTANCE_BUFFER_SIZE,
            );
            let requested: u64 = min_u64(INITIAL_INSTANCE_CAPACITY, max_size);
            InstanceMemory {
                data: InstanceData::Storage { size: requested },
                capacity: requested,
                max_size,
                alignment: limits.min_storage_buffer_offset_alignment as u64,
                uses_webgl,
                max_texture_dimension: dimension,
            }
        }
    }

    /// Bytes that growing for `required` bytes requests: at least twice the
    /// capacity, and never more than the maximum.
    pub open spec fn grown_request(self, required: nat) -> int {
        min_of(
            max_of(2 * self.capacity, ceil_power_of_two(required) as int),
            self.max_size as int,
        )
    }

    /// The memory after growing for `required` bytes, or the reason why it
    /// cannot grow.
    pub open spec fn grown(self, required: nat) -> Result<InstanceMemory, InstanceError> {
        let request = self.grown_request(required);
        let dimension = self.max_texture_dimension as int;
        if request < required {
            Err(
                InstanceError::RequiredAboveMaximum {
                    required: required as u64,
                    maximum: self.max_size,
                },
            )
        } else if request <= self.capacity {
            Err(InstanceError::FrameAboveMaximum { maximum: self.max_size })
        } else if self.uses_webgl {
            Ok(
                InstanceMemory {
                    data: InstanceData::Texture {
                        width: texture_width(request, dimension) as u32,
                        height: texture_height(request, dimension) as u32,
                    },
                    capacity: texture_capacity(request, dimension) as u64,
                    ..self
                },
            )
        } else {
            Ok(
                InstanceMemory {
                    data: InstanceData::Storage { size: request as u64 },
                    capacity: request as u64,
                    ..self
                },
            )
        }
    }

    /// Replaces the memory by a larger one that holds `required` bytes.
    pub fn grow_instance_data(&mut self, required: u64) -> (result: Result<(), InstanceError>)
        requires
            old(self).wf(),
            ceil_power_of_two(required as nat) <= u64::MAX,
        ensures
            match old(self).grown(required as nat) {
                Ok(memory) => result == Ok::<(), InstanceError>(()) && *final(self) == memory,
                Err(error) => result == Err::<(), InstanceError>(error) && *final(self) == *old(
                    self,
                ),
            },
            final(self).wf(),
    {
        let capacity: u64 = min_u64(
            max_u64(self.capacity * 2, next_power_of_two(required)),
            self.max_size,
        );
        if capacity < required {
            return Err(
                InstanceError::RequiredAboveMaximum { required, maximum: self.max_size },
            );
        }
        if capacity <= self.capacity {
            return Err(InstanceError::FrameAboveMaximum { maximum: self.max_size });
        }
        if self.uses_webgl {
            proof {
                texture_capacity_covers_request(
                    capacity as int,
                    self.max_texture_dimension as int,
                );
                lemma_texture_extent_fits(capacity as int, self.max_texture_dimension as int);
            }
            let (data, actual) = create_instance_texture(capacity, self.max_texture_dimension);
            self.data = data;
            self.capacity = actual;
        } else {
            self.data = InstanceData::Storage { size: capacity };
            self.capacity = capacity;
        }
        Ok(())
    }
}

impl InstanceMemory {
    /// Alignment of an allocation of records of `record_size` bytes. Where
    /// shaders index the memory absolutely, it starts on a whole record and on
    /// a whole texel.
    pub open spec fn allocation_alignment(self, record_size: int) -> int {
        if self.uses_webgl {
            lcm(self.alignment as nat, record_stride(record_size) as nat) as int
        } else {
            max_of(self.alignment as int, 1)
        }
    }

    /// Bytes that an allocation of `byte_count` bytes reserves. Where texels
    /// hold the records, it ends on a texel boundary.
    pub open spec fn allocation_size(self, byte_count: int) -> int {
        if self.uses_webgl {
            align_up(binding_size(byte_count), INSTANCE_TEXTURE_TEXEL_SIZE as int)
        } else {
            binding_size(byte_count)
        }
    }

    /// The sums that placing an allocation computes fit their type.
    pub open spec fn placement_computes(
        self,
        offset: int,
        byte_count: int,
        record_size: int,
    ) -> bool {
        &&& self.allocation_alignment(record_size) <= u64::MAX
        &&& self.allocation_size(byte_count) <= u64::MAX
        &&& align_up(offset, self.allocation_alignment(record_size)) + self.allocation_size(
            byte_count,
        ) <= u64::MAX
        &&& ceil_power_of_two(self.allocation_size(byte_count) as nat) <= u64::MAX
    }

    /// The memory and the offset that an allocation ends up with: at the next
    /// aligned offset where it fits, at the start of a grown memory where not.
    pub open spec fn placement(self, offset: int, byte_count: int, record_size: int) -> Result<
        (InstanceMemory, int),
        InstanceError,
    > {
        let size = self.allocation_size(byte_count);
        let aligned = align_up(offset, self.allocation_alignment(record_size));
        if aligned + size <= self.capacity {
            Ok((self, aligned))
        } else {
            match self.grown(size as nat) {
                Ok(memory) => Ok((memory, 0)),
                Err(error) => Err(error),
            }
        }
    }

    /// The allocation that a placement gives, unless its first index does not
    /// fit a draw call.
    pub open spec fn allocation(
        self,
        offset: int,
        byte_count: int,
        record_size: int,
    ) -> Result<InstanceAllocation, InstanceError> {
        match self.placement(offset, byte_count, record_size) {
            Err(error) => Err(error),
            Ok((memory, at)) => {
                let index = if self.uses_webgl {
                    at / record_stride(record_size)
                } else {
                    0
                };
                if index > u32::MAX {
                    Err(InstanceError::IndexOutOfRange)
                } else {
                    Ok(
                        InstanceAllocation {
                            offset: at as u64,
                            size: binding_size(byte_count) as u64,
                            first_instance: index as u32,
                            grown: if memory == self {
                                None
                            } else {
                                Some(memory.data)
                            },
                        },
                    )
                }
            },
        }
    }

    /// The memory after an allocation.
    pub open spec fn after_allocation(
        self,
        offset: int,
        byte_count: int,
        record_size: int,
    ) -> InstanceMemory {
        match self.placement(offset, byte_count, record_size) {
            Ok((memory, _)) => memory,
            Err(_) => self,
        }
    }

    /// The offset behind an allocation.
    pub open spec fn offset_after_allocation(
        self,
        offset: int,
        byte_count: int,
        record_size: int,
    ) -> int {
        match self.placement(offset, byte_count, record_size) {
            Ok((_, at)) => at + self.allocation_size(byte_count),
            Err(_) => offset,
        }
    }

    /// Allocates room for `byte_count` bytes of records, growing the memory
    /// where it is full. `instance_offset` is where the previous allocation of
    /// the frame ends.
    pub fn write_instance_binding(
        &mut self,
        instance_offset: &mut u64,
        byte_count: u64,
        record_size: u64,
    ) -> (result: Result<InstanceAllocation, InstanceError>)
        requires
            old(self).wf(),
            old(self).placement_computes(
                *old(instance_offset) as int,
                byte_count as int,
                record_size as int,
            ),
        ensures
            result == old(self).allocation(
                *old(instance_offset) as int,
                byte_count as int,
                record_size as int,
            ),
            *final(self) == old(self).after_allocation(
                *old(instance_offset) as int,
                byte_count as int,
                record_size as int,
            ),
            *final(instance_offset) == old(self).offset_after_allocation(
                *old(instance_offset) as int,
                byte_count as int,
                record_size as int,
            ),
            final(self).wf(),
    {
        let size: u64 = max_u64(byte_count, MIN_BINDING_SIZE);
        let stride: u64 = max_u64(record_size, 1);
        let ghost memory = *self;
        let alignment: u64;
        let allocation_size: u64;
        if self.uses_webgl {
            alignment = least_common_multiple(self.alignment, stride);
            allocation_size = next_multiple_of(size, INSTANCE_TEXTURE_TEXEL_SIZE);
        } else {
            alignment = max_u64(self.alignment, 1);
            allocation_size = size;
        }
        proof {
            if memory.uses_webgl {
                lcm_is_least_common_multiple(memory.alignment as nat, stride as nat, 1);
            }
            align_up_is_least_multiple(*instance_offset as int, alignment as int, 0);
        }
        let mut offset: u64 = next_multiple_of(*instance_offset, alignment);
        let mut grown: Option<InstanceData> = None;
        if offset + allocation_size > self.capacity {
            match self.grow_instance_data(allocation_size) {
                Ok(()) => {
                    offset = 0;
                    grown = Some(self.data);
                    proof {
                        memory_grows(memory, allocation_size as nat);
                    }
                },
                Err(error) => {
                    return Err(error);
                },
            }
        }
        *instance_offset = offset + allocation_size;
        let index: u64 = if self.uses_webgl {
            offset / stride
        } else {
            0
        };
        if index > u32::MAX as u64 {
            return Err(InstanceError::IndexOutOfRange);
        }
        Ok(InstanceAllocation { offset, size, first_instance: index as u32, grown })
    }
}

impl InstanceMemory {
    /// Where `byte_count` bytes go that may not grow the memory, and where
    /// they do not fit.
    pub open spec fn fixed_offset(self, offset: int, byte_count: int) -> Option<int> {
        let at = align_up(offset, max_of(self.alignment as int, 1));
        if at + binding_size(byte_count) <= self.capacity {
            Some(at)
        } else {
            None
        }
    }

    /// Allocates room for `byte_count` bytes without growing the memory. Gives
    /// the offset and the bytes to bind.
    pub fn write_to_instance_buffer(&self, instance_offset: &mut u64, byte_count: u64) -> (result:
        Option<(u64, u64)>)
        requires
            self.wf(),
            *old(instance_offset) <= self.capacity,
            byte_count <= i64::MAX,
        ensures
            match self.fixed_offset(*old(instance_offset) as int, byte_count as int) {
                Some(at) => {
                    &&& result == Some((at as u64, binding_size(byte_count as int) as u64))
                    &&& *final(instance_offset) == at + binding_size(byte_count as int)
                    &&& *old(instance_offset) <= at
                },
                None => result is None && *final(instance_offset) == *old(instance_offset),
            },
            *final(instance_offset) <= self.capacity,
    {
        let alignment: u64 = max_u64(self.alignment, 1);
        proof {
            align_up_is_least_multiple(*instance_offset as int, alignment as int, 0);
        }
        let size: u64 = max_u64(byte_count, MIN_BINDING_SIZE);
        let offset: u64 = next_multiple_of(*instance_offset, alignment);
        if offset + size > self.capacity {
            return None;
        }
        *instance_offset = offset + size;
        Some((offset, size))
    }
}

/// Placing an allocation behind the frame's earlier ones overflows nothing, as
/// long as its records fit an address space.
pub proof fn placement_never_overflows(
    memory: InstanceMemory,
    offset: int,
    byte_count: int,
    record_size: int,
)
    requires
        memory.wf(),
        0 <= offset <= memory.capacity,
        0 <= byte_count <= i64::MAX,
        0 <= record_size <= u32::MAX,
    ensures
        memory.placement_computes(offset, byte_count, record_size),
{
    let alignment = memory.allocation_alignment(record_size);
    let stride = record_stride(record_size);
    let texel = INSTANCE_TEXTURE_TEXEL_SIZE as int;
    align_up_is_least_multiple(binding_size(byte_count), texel, 0);
    if memory.uses_webgl {
        lcm_is_least_common_multiple(memory.alignment as nat, stride as nat, 1);
    }
    align_up_is_least_multiple(offset, alignment, 0);
    ceil_power_of_two_is_least(memory.allocation_size(byte_count) as nat);
}

/// A frame's allocations end within the memory that they leave behind, also
/// where one was refused, and the records of one have indices that fit a draw
/// call.
pub proof fn allocation_is_drawable(
    memory: InstanceMemory,
    offset: int,
    count: int,
    record_size: int,
)
    requires
        memory.wf(),
        0 <= offset <= memory.capacity,
        count >= 0,
        record_size >= 1,
    ensures
        memory.after_allocation(offset, count * record_size, record_size).wf(),
        0 <= memory.offset_after_allocation(offset, count * record_size, record_size)
            <= memory.after_allocation(offset, count * record_size, record_size).capacity,
        memory.allocation(offset, count * record_size, record_size) matches Ok(allocation) ==> {
            &&& allocation.first_instance + count <= u32::MAX
            &&& memory.uses_webgl ==> (allocation.first_instance + count) * record_size
                <= memory.after_allocation(offset, count * record_size, record_size).capacity
        },
{
    let bytes = count * record_size;
    assert(bytes >= 0) by (nonlinear_arith)
        requires
            count >= 0,
            record_size >= 1,
            bytes == count * record_size,
    ;
    allocation_is_placed(memory, offset, bytes, record_size);
    if let Ok((after, at)) = memory.placement(offset, bytes, record_size) {
        let first = if memory.uses_webgl {
            at / record_size
        } else {
            0
        };
        lemma_fundamental_div_mod(at, record_size);
        assert((first + count) * record_size <= after.capacity) by (nonlinear_arith)
            requires
                first == 0 || record_size * first <= at,
                0 <= at,
                at + bytes <= after.capacity,
                bytes == count * record_size,
        ;
        assert(first + count <= (first + count) * record_size) by (nonlinear_arith)
            requires
                first >= 0,
                count >= 0,
                record_size >= 1,
        ;
    }
}

/// Growing enlarges the memory, keeps it within its bounds, and makes room
/// for what was required.
pub proof fn memory_grows(memory: InstanceMemory, required: nat)
    requires
        memory.wf(),
    ensures
        memory.grown(required) matches Ok(grown) ==> {
            &&& grown.wf()
            &&& grown.capacity > memory.capacity
            &&& grown.capacity >= required
            &&& grown.uses_webgl == memory.uses_webgl
            &&& grown.alignment == memory.alignment
            &&& grown.max_size == memory.max_size
            &&& grown.max_texture_dimension == memory.max_texture_dimension
        },
        memory.grown(required) is Ok <==> required <= memory.grown_request(required)
            && memory.capacity < memory.max_size,
{
    let request = memory.grown_request(required);
    ceil_power_of_two_is_least(required);
    if request >= 0 {
        texture_capacity_covers_request(request, memory.max_texture_dimension as int);
        lemma_texture_extent_fits(request, memory.max_texture_dimension as int);
    }
}

/// An allocation lies within the memory that it leaves behind, aligned, and
/// behind the frame's earlier allocations where they share that memory. Where
/// shaders index the memory absolutely, it starts on a whole record and fills
/// whole texels.
pub proof fn allocation_is_placed(
    memory: InstanceMemory,
    offset: int,
    byte_count: int,
    record_size: int,
)
    requires
        memory.wf(),
        offset >= 0,
        byte_count >= 0,
        record_size >= 0,
    ensures
        memory.allocation_size(byte_count) >= byte_count,
        memory.allocation_size(byte_count) >= MIN_BINDING_SIZE,
        memory.placement(offset, byte_count, record_size) matches Ok((after, at)) ==> {
            &&& after.wf()
            &&& 0 <= at
            &&& at + memory.allocation_size(byte_count) <= after.capacity
            &&& at % memory.allocation_alignment(record_size) == 0
            &&& after == memory ==> offset <= at
            &&& after != memory ==> at == 0 && after.capacity > memory.capacity
            &&& after.uses_webgl == memory.uses_webgl
            &&& memory.uses_webgl ==> {
                &&& at % record_stride(record_size) == 0
                &&& at % INSTANCE_TEXTURE_TEXEL_SIZE as int == 0
                &&& (at + memory.allocation_size(byte_count)) % INSTANCE_TEXTURE_TEXEL_SIZE as int
                    == 0
            }
        },
{
    let alignment = memory.allocation_alignment(record_size);
    let stride = record_stride(record_size);
    let size = memory.allocation_size(byte_count);
    let texel = INSTANCE_TEXTURE_TEXEL_SIZE as int;
    align_up_is_least_multiple(binding_size(byte_count), texel, 0);
    if memory.uses_webgl {
        lcm_is_least_common_multiple(memory.alignment as nat, stride as nat, 1);
    }
    align_up_is_least_multiple(offset, alignment, 0);
    memory_grows(memory, size as nat);
    let aligned = align_up(offset, alignment);
    if memory.uses_webgl {
        lemma_multiple_of_multiple(aligned, alignment, stride);
        lemma_multiple_of_multiple(aligned, alignment, texel);
    }
}

/// Two allocations in a row share no byte of the memory, padding of the last
/// texel included, unless the second one moved to a larger memory.
pub proof fn allocations_in_a_row_do_not_overlap(
    memory: InstanceMemory,
    offset: int,
    first_bytes: int,
    first_record: int,
    second_bytes: int,
    second_record: int,
)
    requires
        memory.wf(),
        offset >= 0,
        first_bytes >= 0,
        first_record >= 0,
        second_bytes >= 0,
        second_record >= 0,
    ensures
        ({
            let between = memory.after_allocation(offset, first_bytes, first_record);
            let next = memory.offset_after_allocation(offset, first_bytes, first_record);
            (memory.placement(offset, first_bytes, first_record), between.placement(
                next,
                second_bytes,
                second_record,
            )) matches (Ok((_, first_at)), Ok((after, second_at))) ==> {
                ||| after.capacity > between.capacity && second_at == 0
                ||| after == between && first_at + memory.allocation_size(first_bytes) <= second_at
            }
        }),
{
    allocation_is_placed(memory, offset, first_bytes, first_record);
    if let Ok((between, at)) = memory.placement(offset, first_bytes, first_record) {
        allocation_is_placed(
            between,
            at + memory.allocation_size(first_bytes),
            second_bytes,
            second_record,
        );
    }
}

/// The memory is never so large that the index of a record does not fit a draw
/// call.
pub proof fn first_instance_always_fits(
    memory: InstanceMemory,
    offset: int,
    byte_count: int,
    record_size: int,
)
    requires
        memory.wf(),
        offset >= 0,
        byte_count >= 0,
        record_size >= 0,
    ensures
        memory.allocation(offset, byte_count, record_size) != Err::<
            InstanceAllocation,
            InstanceError,
        >(InstanceError::IndexOutOfRange),
{
    allocation_is_placed(memory, offset, byte_count, record_size);
    if let Ok((after, at)) = memory.placement(offset, byte_count, record_size) {
        let stride = record_stride(record_size);
        lemma_fundamental_div_mod(at, stride);
        assert(at / stride <= at) by (nonlinear_arith)
            requires
                at >= 0,
                stride >= 1,
                at == stride * (at / stride) + at % stride,
                at % stride >= 0,
        ;
    }
}

proof fn lemma_multiple_of_multiple(value: int, middle: int, divisor: int)
    requires
        middle > 0,
        divisor > 0,
        value % middle == 0,
        middle % divisor == 0,
    ensures
        value % divisor == 0,
{
    lemma_fundamental_div_mod(value, middle);
    lemma_fundamental_div_mod(middle, divisor);
    let a = value / middle;
    let b = middle / divisor;
    assert(value == (b * a) * divisor) by (nonlinear_arith)
        requires
            value == middle * a,
            middle == divisor * b,
    ;
    lemma_mod_multiples_basic(b * a, divisor);
}

proof fn lemma_texture_extent_fits(requested: int, max_dimension: int)
    requires
        requested >= 0,
        0 <= max_dimension <= u32::MAX,
    ensures
        texture_width(requested, max_dimension) <= u32::MAX,
        texture_height(requested, max_dimension) <= u32::MAX,
{
}

} // verus!
