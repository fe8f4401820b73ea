use gpui_wgpu::arith::{div_ceil, next_multiple_of, next_power_of_two};
use gpui_wgpu::device::{BufferUsage, DeviceLimits, TexelFormat, TextureDimension};
use gpui_wgpu::instances::{
    create_instance_texture, InstanceData, InstanceError, InstanceMemory,
    INITIAL_INSTANCE_CAPACITY, MAX_INSTANCE_BUFFER_SIZE,
};
use gpui_wgpu::texture_upload::write_instance_texture;
use gpui_wgpu::{instance_range, least_common_multiple};

fn limits() -> DeviceLimits {
    DeviceLimits {
        max_texture_dimension_2d: 2048,
        min_uniform_buffer_offset_alignment: 256,
        min_storage_buffer_offset_alignment: 256,
        max_buffer_size: 1 << 30,
        max_storage_buffer_binding_size: 1 << 27,
    }
}

#[test]
fn least_common_multiples_are_exact() {
    assert_eq!(least_common_multiple(16, 112), 112);
    assert_eq!(least_common_multiple(16, 104), 208);
    assert_eq!(least_common_multiple(16, 96), 96);
    assert_eq!(least_common_multiple(7, 5), 35);
    assert_eq!(least_common_multiple(0, 5), 0);
    assert_eq!(least_common_multiple(5, 0), 0);
}

#[test]
fn rounding_goes_up() {
    assert_eq!(next_multiple_of(0, 256), 0);
    assert_eq!(next_multiple_of(1, 256), 256);
    assert_eq!(next_multiple_of(256, 256), 256);
    assert_eq!(div_ceil(33, 16), 3);
    assert_eq!(div_ceil(32, 16), 2);
    assert_eq!(next_power_of_two(0), 1);
    assert_eq!(next_power_of_two(5), 8);
    assert_eq!(next_power_of_two(8), 8);
    assert_eq!(next_power_of_two((1 << 62) + 1), 1 << 63);
}

#[test]
fn instance_ranges_keep_their_low_bits() {
    assert_eq!(instance_range(3..7), 3..7);
    let beyond: usize = (1usize << 32) + 5;
    assert_eq!(instance_range(beyond..beyond + 1), 5..6);
}

#[test]
fn storage_memory_starts_within_every_limit() {
    let memory = InstanceMemory::new(&limits(), false);
    assert_eq!(memory.data, InstanceData::Storage { size: INITIAL_INSTANCE_CAPACITY });
    assert_eq!(memory.capacity, INITIAL_INSTANCE_CAPACITY);
    assert_eq!(memory.max_size, 1 << 27);
    assert_eq!(memory.alignment, 256);
    let small = DeviceLimits { max_buffer_size: 1000, ..limits() };
    let memory = InstanceMemory::new(&small, false);
    assert_eq!(memory.capacity, 1000);
    assert_eq!(memory.max_size, 1000);
}

#[test]
fn texture_memory_takes_whole_texels() {
    let memory = InstanceMemory::new(&limits(), true);
    assert_eq!(memory.data, InstanceData::Texture { width: 2048, height: 64 });
    assert_eq!(memory.capacity, 2048 * 64 * 16);
    assert_eq!(memory.max_size, 2048 * 2048 * 16);
    assert_eq!(memory.alignment, 16);
    let large = DeviceLimits { max_texture_dimension_2d: 8192, ..limits() };
    assert_eq!(InstanceMemory::new(&large, true).max_size, MAX_INSTANCE_BUFFER_SIZE);
}

#[test]
fn instance_texture_covers_the_request() {
    let (data, capacity) = create_instance_texture(17, 2048);
    assert_eq!(data, InstanceData::Texture { width: 2, height: 1 });
    assert_eq!(capacity, 32);
    let (data, capacity) = create_instance_texture(0, 2048);
    assert_eq!(data, InstanceData::Texture { width: 1, height: 1 });
    assert_eq!(capacity, 16);
    let (data, capacity) = create_instance_texture(16 * 5, 2);
    assert_eq!(data, InstanceData::Texture { width: 2, height: 2 });
    assert_eq!(capacity, 64);
    let descriptor = data.texture_descriptor().unwrap();
    assert_eq!(descriptor.label, "instance_texture");
    assert_eq!(descriptor.format, TexelFormat::Rgba32Uint);
    assert!(descriptor.usage.copy_dst && descriptor.usage.texture_binding);
    assert!(!descriptor.usage.render_attachment);
    assert_eq!((descriptor.depth_or_array_layers, descriptor.mip_level_count), (1, 1));
    assert_eq!(descriptor.dimension, TextureDimension::D2);
    assert!(data.buffer_descriptor().is_none());
    let storage = InstanceData::Storage { size: 4 };
    assert!(storage.texture_descriptor().is_none());
    let descriptor = storage.buffer_descriptor().unwrap();
    assert_eq!((descriptor.label, descriptor.size), ("instance_buffer", 4));
    assert_eq!(
        descriptor.usage,
        BufferUsage { uniform: false, storage: true, copy_dst: true }
    );
}

#[test]
fn storage_allocations_follow_each_other() {
    let mut memory = InstanceMemory::new(&limits(), false);
    let mut offset = 0;
    let first = memory.write_instance_binding(&mut offset, 160, 160).unwrap();
    assert_eq!((first.offset, first.size, first.first_instance), (0, 160, 0));
    assert_eq!(offset, 160);
    let empty = memory.write_instance_binding(&mut offset, 0, 112).unwrap();
    assert_eq!((empty.offset, empty.size, empty.first_instance), (256, 16, 0));
    assert_eq!(offset, 272);
    assert!(first.grown.is_none() && empty.grown.is_none());
}

#[test]
fn texture_allocations_start_on_records_and_end_on_texels() {
    let mut memory = InstanceMemory::new(&limits(), true);
    let mut offset = 0;
    let first = memory.write_instance_binding(&mut offset, 104, 104).unwrap();
    assert_eq!((first.offset, first.size, first.first_instance), (0, 104, 0));
    assert_eq!(offset, 112);
    let second = memory.write_instance_binding(&mut offset, 208, 104).unwrap();
    assert_eq!((second.offset, second.size, second.first_instance), (208, 208, 2));
    assert_eq!(offset, 416);
}

#[test]
fn memory_grows_by_at_least_half() {
    let mut memory = InstanceMemory::new(&limits(), false);
    let mut offset = memory.capacity;
    let moved = memory.write_instance_binding(&mut offset, 100, 100).unwrap();
    assert_eq!(moved.grown, Some(InstanceData::Storage { size: 2 * INITIAL_INSTANCE_CAPACITY }));
    assert_eq!(moved.offset, 0);
    assert_eq!(offset, 100);
    assert_eq!(memory.capacity, 2 * INITIAL_INSTANCE_CAPACITY);
    memory.grow_instance_data(9 << 20).unwrap();
    assert_eq!(memory.capacity, 16 << 20);
}

#[test]
fn memory_does_not_grow_beyond_its_maximum() {
    let small = DeviceLimits { max_buffer_size: 1000, ..limits() };
    let mut memory = InstanceMemory::new(&small, false);
    let mut offset = 0;
    assert_eq!(
        memory.write_instance_binding(&mut offset, 1001, 1),
        Err(InstanceError::RequiredAboveMaximum { required: 1001, maximum: 1000 })
    );
    assert_eq!(offset, 0);
    offset = 900;
    assert_eq!(
        memory.write_instance_binding(&mut offset, 500, 1),
        Err(InstanceError::FrameAboveMaximum { maximum: 1000 })
    );
    assert_eq!(offset, 900);
    assert_eq!(memory.capacity, 1000);
}

#[test]
fn fixed_allocations_never_grow_the_memory() {
    let small = DeviceLimits { max_buffer_size: 1000, ..limits() };
    let memory = InstanceMemory::new(&small, false);
    let mut offset = 10;
    assert_eq!(memory.write_to_instance_buffer(&mut offset, 32), Some((256, 32)));
    assert_eq!(offset, 288);
    assert_eq!(memory.write_to_instance_buffer(&mut offset, 4), Some((512, 16)));
    assert_eq!(memory.write_to_instance_buffer(&mut offset, 233), None);
    assert_eq!(offset, 528);
    assert_eq!(memory.write_to_instance_buffer(&mut offset, 232), Some((768, 232)));
    assert_eq!(offset, 1000);
}

#[test]
fn uploads_fill_rows_and_pad_the_last_texel() {
    let upload = write_instance_texture(4, 3, 32, 104);
    assert_eq!(upload.dropped, 0);
    let parts: Vec<(u32, u32, u64, u64, u32, u32)> = upload
        .writes
        .iter()
        .map(|w| (w.x, w.y, w.start, w.bytes, w.texels, w.bytes_per_row))
        .collect();
    assert_eq!(
        parts,
        vec![
            (2, 0, 0, 32, 2, 32),
            (0, 1, 32, 64, 4, 64),
            (0, 2, 96, 8, 1, 16),
        ]
    );
}

#[test]
fn uploaded_records_can_be_read_back() {
    let records: Vec<u8> = (1..=104).collect();
    let mut texels = vec![0xEE_u8; 4 * 3 * 16];
    for write in &write_instance_texture(4, 3, 32, 104).writes {
        let row = write.row_bytes(&records);
        assert_eq!(row.len(), write.texels as usize * 16);
        let first = (write.y as usize * 4 + write.x as usize) * 16;
        texels[first..first + row.len()].copy_from_slice(&row);
    }
    assert_eq!(texels[..32], [0xEE; 32]);
    assert_eq!(texels[32..136], records[..]);
    assert_eq!(texels[136..144], [0; 8]);
    assert_eq!(texels[144..], [0xEE; 48]);
}

#[test]
fn uploads_below_the_last_row_are_counted() {
    let upload = write_instance_texture(2, 1, 0, 50);
    assert_eq!(upload.writes.len(), 1);
    assert_eq!(upload.dropped, 18);
    assert_eq!(write_instance_texture(2, 1, 64, 5).dropped, 5);
    assert!(write_instance_texture(2, 1, 0, 0).writes.is_empty());
}

#[test]
fn allocations_in_a_row_share_no_byte() {
    for uses_webgl in [false, true] {
        let mut memory = InstanceMemory::new(&limits(), uses_webgl);
        let mut offset = 0;
        let mut end = 0;
        for (bytes, record) in [(320, 160), (5, 104), (1120, 112), (16, 16), (96, 96)] {
            let allocation = memory.write_instance_binding(&mut offset, bytes, record).unwrap();
            assert!(allocation.offset >= end);
            assert!(allocation.grown.is_none());
            end = offset;
            assert!(end >= allocation.offset + bytes);
        }
    }
}
