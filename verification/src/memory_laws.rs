//! Where instance records lie, and how the memory for them grows.
use crate::arith::{
    align_up_is_least_multiple, ceil_div, ceil_div_is_least_cover, ceil_power_of_two,
    ceil_power_of_two_is_least, is_power_of_two, lcm_is_least_common_multiple,
};
use crate::device::{DeviceLimits, TexelFormat, TextureDimension};
use crate::instances::{
    allocation_is_placed, binding_size, extent_bytes, first_instance_always_fits, memory_grows,
    record_stride, texel_count, texture_capacity_covers_request, texture_height, texture_width,
    InstanceData, InstanceError, InstanceMemory,
};
use vstd::arithmetic::div_mod::{lemma_fundamental_div_mod, lemma_mod_multiples_basic};
use vstd::prelude::*;

verus! {

/// A renderer starts with two mebibytes of instance memory and never asks for
/// more than 256, unless the device allows less. The memory is a buffer,
/// aligned as the device asks for, or a texture that the device can make.
pub proof fn initial_memory_suits_the_device(limits: DeviceLimits, uses_webgl: bool)
    requires
        uses_webgl ==> extent_bytes(
            limits.max_texture_dimension_2d as int,
            limits.max_texture_dimension_2d as int,
        ) <= u64::MAX,
    ensures
        ({
            let memory = InstanceMemory::initial(limits, uses_webgl);
            let dimension = limits.max_texture_dimension_2d as int;
            &&& memory.uses_webgl == uses_webgl
            &&& memory.max_texture_dimension == limits.max_texture_dimension_2d
            &&& memory.max_size <= 0x1000_0000
            &&& memory.capacity >= 0x20_0000 || memory.capacity >= memory.max_size
            &&& !uses_webgl ==> {
                &&& memory.data == (InstanceData::Storage { size: memory.capacity })
                &&& memory.alignment == limits.min_storage_buffer_offset_alignment
                &&& memory.max_size <= limits.max_buffer_size
                &&& memory.max_size <= limits.max_storage_buffer_binding_size
                &&& memory.max_size == 0x1000_0000 || memory.max_size == limits.max_buffer_size
                    || memory.max_size == limits.max_storage_buffer_binding_size
                &&& memory.capacity <= memory.max_size
                &&& memory.capacity <= 0x20_0000
            }
            &&& uses_webgl ==> {
                &&& memory.alignment == 16
                &&& memory.max_size <= 16 * dimension * dimension
                &&& memory.max_size == 0x1000_0000 || memory.max_size == 16 * dimension * dimension
                &&& memory.data matches InstanceData::Texture { width, height }
                &&& 1 <= width && 1 <= height
                &&& dimension >= 1 ==> width <= dimension && height <= dimension
                &&& memory.capacity == 16 * width * height
            }
        }),
{
    let memory = InstanceMemory::initial(limits, uses_webgl);
    let dimension = limits.max_texture_dimension_2d as int;
    assert(16 * dimension * dimension == extent_bytes(dimension, dimension)) by (nonlinear_arith)
        requires
            extent_bytes(dimension, dimension) == dimension * dimension * 16,
    ;
    assert(dimension * dimension >= 0) by (nonlinear_arith)
        requires
            dimension >= 0,
    ;
    if uses_webgl {
        let largest = extent_bytes(dimension, dimension);
        let max_size = if 0x1000_0000 < largest {
            0x1000_0000
        } else {
            largest
        };
        let requested = if max_size < 0x20_0000 {
            max_size
        } else {
            0x20_0000
        };
        texture_capacity_covers_request(requested, dimension);
        let width = texture_width(requested, dimension);
        let height = texture_height(requested, dimension);
        assert(width * height * 16 == 16 * width * height) by (nonlinear_arith);
        assert(memory.data == InstanceData::Texture { width: width as u32, height: height as u32 });
    }
}

/// An instance texture is one row where that holds the request, and as wide as
/// a texture can be where it takes more. Its last row is needed.
pub proof fn instance_texture_wastes_no_row(requested: int, max_dimension: int)
    requires
        requested >= 1,
        max_dimension >= 1,
    ensures
        ({
            let width = texture_width(requested, max_dimension);
            let height = texture_height(requested, max_dimension);
            &&& requested <= 16 * max_dimension <==> texel_count(requested) <= max_dimension
            &&& requested <= 16 * max_dimension ==> {
                &&& height == 1
                &&& 16 * width >= requested
                &&& 16 * (width - 1) < requested
            }
            &&& requested > 16 * max_dimension ==> {
                &&& width == max_dimension
                &&& 16 * (width * (height - 1)) < requested
            }
        }),
{
    let width = texture_width(requested, max_dimension);
    let height = texture_height(requested, max_dimension);
    let texels = texel_count(requested);
    ceil_div_is_least_cover(requested, 16);
    let rows = ceil_div(texels, width);
    ceil_div_is_least_cover(texels, width);
    if texels <= max_dimension {
        assert(rows == 1) by (nonlinear_arith)
            requires
                rows * width < texels + width,
                rows > 0,
                width == texels,
                width >= 1,
        ;
    } else {
        assert(width * (height - 1) < texels) by (nonlinear_arith)
            requires
                rows * width < texels + width,
                1 <= height,
                height <= rows || height == 1,
                width >= 1,
                texels >= 1,
        ;
    }
}

/// Where the memory is too small, it at least doubles, up to its maximum, and
/// takes what is required. It takes no more than doubling, or the power of two
/// behind what is required, asks for.
pub proof fn growth_at_least_doubles(memory: InstanceMemory, required: nat)
    requires
        memory.wf(),
    ensures
        memory.grown(required) matches Ok(grown) ==> {
            &&& grown.capacity >= required
            &&& grown.capacity >= 2 * memory.capacity || grown.capacity >= memory.max_size
            &&& !memory.uses_webgl ==> {
                &&& grown.data == (InstanceData::Storage { size: grown.capacity })
                &&& grown.capacity <= memory.max_size
                &&& grown.capacity <= 2 * memory.capacity || grown.capacity < 2 * required
                    || required == 0
            }
            &&& memory.uses_webgl ==> {
                &&& grown.data matches InstanceData::Texture { width, height }
                &&& 1 <= width && 1 <= height
                &&& grown.capacity == width * height * 16
                &&& memory.max_texture_dimension >= 1 ==> width <= memory.max_texture_dimension
                    && height <= memory.max_texture_dimension
                &&& grown.capacity <= 2 * (memory.max_size + 16)
            }
        },
{
    memory_grows(memory, required);
    ceil_power_of_two_is_least(required);
    let request = memory.grown_request(required);
    let dimension = memory.max_texture_dimension as int;
    if memory.grown(required) is Ok {
        texture_capacity_covers_request(request, dimension);
    }
}

/// The memory cannot grow for two reasons, and says which: what is required
/// alone is more than it may ever have, or it has that much already.
pub proof fn refused_growth_says_why(memory: InstanceMemory, required: nat)
    requires
        memory.wf(),
        required <= u64::MAX,
    ensures
        match memory.grown(required) {
            Ok(_) => required <= memory.max_size && memory.capacity < memory.max_size,
            Err(InstanceError::RequiredAboveMaximum { required: told, maximum }) => {
                &&& required > memory.max_size
                &&& told == required
                &&& maximum == memory.max_size
            },
            Err(InstanceError::FrameAboveMaximum { maximum }) => {
                &&& required <= memory.max_size <= memory.capacity
                &&& maximum == memory.max_size
            },
            Err(InstanceError::IndexOutOfRange) => false,
        },
{
    ceil_power_of_two_is_least(required);
}

/// Powers of two are the least that are not below a value: any other one that
/// is not below it is at least as large.
pub proof fn no_smaller_power_of_two_will_do(value: nat, power: nat)
    requires
        is_power_of_two(power),
        power >= value,
    ensures
        ceil_power_of_two(value) <= power,
        value <= ceil_power_of_two(value),
        is_power_of_two(ceil_power_of_two(value)),
    decreases power,
{
    ceil_power_of_two_is_least(value);
    if value > 1 {
        assert(power > 1);
        no_smaller_power_of_two_will_do((value + 1) / 2, power / 2);
    }
}

/// A place where an allocation of `byte_count` bytes of records could lie: behind
/// the frame's earlier ones, aligned, and within the memory. Where shaders index
/// the memory absolutely, it starts on a whole record and on a whole texel.
pub open spec fn place_for(
    memory: InstanceMemory,
    offset: int,
    byte_count: int,
    record_size: int,
    place: int,
) -> bool {
    &&& offset <= place
    &&& place + byte_count <= memory.capacity
    &&& place + 16 <= memory.capacity
    &&& if memory.uses_webgl {
        &&& place % 16 == 0
        &&& record_size > 1 ==> place % record_size == 0
    } else {
        memory.alignment > 1 ==> place % memory.alignment as int == 0
    }
}

proof fn lemma_place_is_aligned(
    memory: InstanceMemory,
    offset: int,
    byte_count: int,
    record_size: int,
    place: int,
)
    requires
        memory.wf(),
        offset >= 0,
        byte_count >= 0,
        record_size >= 0,
        place_for(memory, offset, byte_count, record_size, place),
    ensures
        place % memory.allocation_alignment(record_size) == 0,
        place + memory.allocation_size(byte_count) <= memory.capacity,
{
    if memory.uses_webgl {
        let stride = record_stride(record_size);
        assert(place % stride == 0) by {
            if record_size <= 1 {
                assert(place % 1 == 0);
            }
        }
        lcm_is_least_common_multiple(16, stride as nat, place as nat);
        let (width, height) = match memory.data {
            InstanceData::Texture { width, height } => (width as int, height as int),
            InstanceData::Storage { .. } => (0, 0),
        };
        assert(memory.capacity == width * height * 16);
        lemma_mod_multiples_basic(width * height, 16);
        let size = binding_size(byte_count);
        assert((memory.capacity - place) % 16 == 0);
        align_up_is_least_multiple(size, 16, memory.capacity - place);
    } else if memory.alignment <= 1 {
        assert(place % 1 == 0);
    }
}

/// Records go to the first place where they can lie. The memory grows only
/// where there is none, and they lie at its start.
pub proof fn records_go_to_the_first_place(
    memory: InstanceMemory,
    offset: int,
    byte_count: int,
    record_size: int,
    place: int,
)
    requires
        memory.wf(),
        offset >= 0,
        byte_count >= 0,
        record_size >= 0,
    ensures
        place_for(memory, offset, byte_count, record_size, place) ==> {
            &&& memory.placement(offset, byte_count, record_size) matches Ok((after, at))
            &&& after == memory
            &&& at <= place
        },
        memory.placement(offset, byte_count, record_size) matches Ok((after, at)) ==> {
            &&& after == memory ==> place_for(memory, offset, byte_count, record_size, at)
            &&& after != memory ==> {
                &&& at == 0
                &&& place_for(after, 0, byte_count, record_size, 0)
                &&& !place_for(memory, offset, byte_count, record_size, place)
            }
        },
{
    let alignment = memory.allocation_alignment(record_size);
    allocation_is_placed(memory, offset, byte_count, record_size);
    if memory.uses_webgl {
        lcm_is_least_common_multiple(16, record_stride(record_size) as nat, 1);
    }
    align_up_is_least_multiple(offset, alignment, place);
    if place_for(memory, offset, byte_count, record_size, place) {
        lemma_place_is_aligned(memory, offset, byte_count, record_size, place);
    }
    if let Ok((after, at)) = memory.placement(offset, byte_count, record_size) {
        if after != memory {
            memory_grows(memory, memory.allocation_size(byte_count) as nat);
            if record_size > 1 {
                assert(0int % record_size == 0) by (nonlinear_arith)
                    requires
                        record_size > 1,
                ;
            }
            if after.alignment > 1 {
                let alignment = after.alignment as int;
                assert(0int % alignment == 0) by (nonlinear_arith)
                    requires
                        alignment > 1,
                ;
            }
        }
    }
}

/// An allocation binds its records, or sixteen bytes where there are fewer. A
/// storage binding starts at the first record; where shaders index the memory
/// absolutely, the first record's index is where it lies. A new memory is
/// told exactly where there is one. The next allocation lies behind it.
pub proof fn allocation_names_its_records(
    memory: InstanceMemory,
    offset: int,
    byte_count: int,
    record_size: int,
)
    requires
        memory.wf(),
        0 <= offset <= memory.capacity,
        0 <= byte_count,
        0 <= record_size,
    ensures
        ({
            let after = memory.after_allocation(offset, byte_count, record_size);
            let next = memory.offset_after_allocation(offset, byte_count, record_size);
            match memory.allocation(offset, byte_count, record_size) {
                Ok(allocation) => {
                    &&& memory.placement(offset, byte_count, record_size) == Ok::<
                        (InstanceMemory, int),
                        InstanceError,
                    >((after, allocation.offset as int))
                    &&& byte_count >= 16 ==> allocation.size == byte_count
                    &&& byte_count < 16 ==> allocation.size == 16
                    &&& !memory.uses_webgl ==> allocation.first_instance == 0
                    &&& memory.uses_webgl && record_size >= 1 ==> allocation.first_instance
                        * record_size == allocation.offset
                    &&& allocation.grown is None <==> after == memory
                    &&& allocation.grown matches Some(data) ==> {
                        &&& data == after.data
                        &&& allocation.offset == 0
                        &&& after.capacity > memory.capacity
                    }
                    &&& !memory.uses_webgl ==> next == allocation.offset + allocation.size
                    &&& memory.uses_webgl ==> {
                        &&& allocation.offset + allocation.size <= next
                        &&& next < allocation.offset + allocation.size + 16
                        &&& next % 16 == 0
                    }
                    &&& next <= after.capacity
                },
                Err(error) => {
                    &&& after == memory
                    &&& next == offset
                    &&& memory.grown(memory.allocation_size(byte_count) as nat) == Err::<
                        InstanceMemory,
                        InstanceError,
                    >(error)
                },
            }
        }),
{
    let size = memory.allocation_size(byte_count);
    allocation_is_placed(memory, offset, byte_count, record_size);
    first_instance_always_fits(memory, offset, byte_count, record_size);
    align_up_is_least_multiple(binding_size(byte_count), 16, 0);
    if let Ok((after, at)) = memory.placement(offset, byte_count, record_size) {
        let stride = record_stride(record_size);
        lemma_fundamental_div_mod(at, stride);
        let index = at / stride;
        if memory.uses_webgl {
            assert(index * stride == at) by (nonlinear_arith)
                requires
                    at == stride * index + at % stride,
                    at % stride == 0,
            ;
        }
    }
}

/// Records that may not grow the memory go to the first aligned place where
/// they can lie, and nowhere where there is none.
pub proof fn fixed_records_go_to_the_first_place(
    memory: InstanceMemory,
    offset: int,
    byte_count: int,
    place: int,
)
    requires
        memory.wf(),
        offset >= 0,
        byte_count >= 0,
    ensures
        ({
            let possible = |at: int|
                {
                    &&& offset <= at
                    &&& at + byte_count <= memory.capacity
                    &&& at + 16 <= memory.capacity
                    &&& memory.alignment > 1 ==> at % memory.alignment as int == 0
                };
            &&& possible(place) ==> {
                &&& memory.fixed_offset(offset, byte_count) matches Some(at)
                &&& at <= place
            }
            &&& memory.fixed_offset(offset, byte_count) matches Some(at) ==> possible(at)
        }),
{
    let alignment = if memory.alignment < 1 {
        1
    } else {
        memory.alignment as int
    };
    if alignment == 1 {
        assert(place % 1 == 0);
    }
    align_up_is_least_multiple(offset, alignment, place);
}

/// What backs the memory is made as large as it says: a buffer that shaders
/// read and that is written to, or a texture of words with one mip level, one
/// layer and one sample.
pub proof fn memory_is_made_as_it_says(data: InstanceData)
    ensures
        data.buffer() is Some <==> data is Storage,
        data.descriptor() is Some <==> data is Texture,
        data.buffer() matches Some(buffer) ==> {
            &&& data == (InstanceData::Storage { size: buffer.size })
            &&& buffer.label == "instance_buffer"
            &&& buffer.usage.storage && buffer.usage.copy_dst && !buffer.usage.uniform
        },
        data.descriptor() matches Some(texture) ==> {
            &&& data == (InstanceData::Texture { width: texture.width, height: texture.height })
            &&& texture.label == "instance_texture"
            &&& texture.format == TexelFormat::Rgba32Uint
            &&& texture.dimension == TextureDimension::D2
            &&& texture.depth_or_array_layers == 1
            &&& texture.mip_level_count == 1
            &&& texture.sample_count == 1
            &&& texture.usage.texture_binding && texture.usage.copy_dst
            &&& !texture.usage.render_attachment
        },
{
}

} // verus!
