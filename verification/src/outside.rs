//! What the library takes from `wgpu`, `ash` and `bytemuck`. Nothing here is
//! proved: each contract restates what the outside crate's source shows.
use crate::surface_config::SurfaceFormat;
use vstd::prelude::*;

verus! {

/// `wgpu::TextureFormat`, carried through and never looked into.
#[verifier::external_type_specification]
#[verifier::external_body]
pub struct OutsideTextureFormat(wgpu::TextureFormat);

/// `wgpu::TextureUses::contains`: every flag of `other` is set in `uses`.
#[verifier::external_body]
pub(crate) fn texture_uses_contains(uses: u16, other: u16) -> (result: bool)
    ensures
        result == (uses & other == other),
{
    wgpu::TextureUses::from_bits_retain(uses).contains(wgpu::TextureUses::from_bits_retain(other))
}

/// `wgpu::TextureUses::intersects`: some flag of `other` is set in `uses`.
#[verifier::external_body]
pub(crate) fn texture_uses_intersects(uses: u16, other: u16) -> (result: bool)
    ensures
        result == (uses & other != 0),
{
    wgpu::TextureUses::from_bits_retain(uses).intersects(wgpu::TextureUses::from_bits_retain(other))
}

/// `wgpu::TextureUses::is_empty`: no flag is set in `uses`.
#[verifier::external_body]
pub(crate) fn texture_uses_is_empty(uses: u16) -> (result: bool)
    ensures
        result == (uses == 0),
{
    wgpu::TextureUses::from_bits_retain(uses).is_empty()
}

/// The bits of `wgpu::TextureUses::UNINITIALIZED`.
#[verifier::external_body]
pub(crate) fn texture_uses_uninitialized() -> (bits: u16)
    ensures
        bits == 0x0001,
{
    wgpu::TextureUses::UNINITIALIZED.bits()
}

/// The bits of `wgpu::TextureUses::RESOURCE`.
#[verifier::external_body]
pub(crate) fn texture_uses_resource() -> (bits: u16)
    ensures
        bits == 0x0010,
{
    wgpu::TextureUses::RESOURCE.bits()
}

/// The bits of `wgpu::TextureUses::TRANSIENT`.
#[verifier::external_body]
pub(crate) fn texture_uses_transient() -> (bits: u16)
    ensures
        bits == 0x1000,
{
    wgpu::TextureUses::TRANSIENT.bits()
}

/// The bits of `wgpu::TextureUses::COMPLEX`.
#[verifier::external_body]
pub(crate) fn texture_uses_complex() -> (bits: u16)
    ensures
        bits == 0x2000,
{
    wgpu::TextureUses::COMPLEX.bits()
}

/// The bits of `wgpu::TextureUses::UNKNOWN`.
#[verifier::external_body]
pub(crate) fn texture_uses_unknown() -> (bits: u16)
    ensures
        bits == 0x4000,
{
    wgpu::TextureUses::UNKNOWN.bits()
}

/// The surface formats whose color values are sRGB-encoded.
pub open spec fn srgb_encoded(format: SurfaceFormat) -> bool {
    format == SurfaceFormat::Bgra8UnormSrgb || format == SurfaceFormat::Rgba8UnormSrgb
}

/// `wgpu::TextureFormat::is_srgb`, on the formats that a surface can report.
#[verifier::external_body]
pub(crate) fn is_srgb(format: SurfaceFormat) -> (result: bool)
    ensures
        result == srgb_encoded(format),
{
    let format = match format {
        SurfaceFormat::Bgra8Unorm => wgpu::TextureFormat::Bgra8Unorm,
        SurfaceFormat::Bgra8UnormSrgb => wgpu::TextureFormat::Bgra8UnormSrgb,
        SurfaceFormat::Rgba8Snorm => wgpu::TextureFormat::Rgba8Snorm,
        SurfaceFormat::Rgba8Unorm => wgpu::TextureFormat::Rgba8Unorm,
        SurfaceFormat::Rgba8UnormSrgb => wgpu::TextureFormat::Rgba8UnormSrgb,
        SurfaceFormat::Rgba16Snorm => wgpu::TextureFormat::Rgba16Snorm,
        SurfaceFormat::Rgba16Unorm => wgpu::TextureFormat::Rgba16Unorm,
        SurfaceFormat::Rgba16Float => wgpu::TextureFormat::Rgba16Float,
        SurfaceFormat::Rgb10a2Unorm => wgpu::TextureFormat::Rgb10a2Unorm,
    };
    format.is_srgb()
}

/// Format feature flags `flags` allow `count` samples per texel.
pub open spec fn samples_allowed(flags: u32, count: u32) -> bool {
    ||| count == 1
    ||| count == 2 && flags & 0x2 == 0x2
    ||| count == 4 && flags & 0x4 == 0x4
    ||| count == 8 && flags & 0x8 == 0x8
    ||| count == 16 && flags & 0x10 == 0x10
}

/// `wgpu::TextureFormatFeatureFlags::sample_count_supported`: one sample is
/// always allowed, two, four, eight and sixteen by a flag each, no other count.
#[verifier::external_body]
pub(crate) fn sample_count_supported(flags: u32, count: u32) -> (result: bool)
    ensures
        result == samples_allowed(flags, count),
{
    wgpu::TextureFormatFeatureFlags::from_bits_retain(flags).sample_count_supported(count)
}

/// `wgpu::Features::contains` with `TEXTURE_FORMAT_NV12`, which is one flag
/// among the native features.
#[verifier::external_body]
pub(crate) fn features_contain_nv12(native: u64, web: u64) -> (result: bool)
    ensures
        result == (native & 0x2000_0000 == 0x2000_0000),
{
    let features = wgpu::Features {
        features_wgpu: wgpu::FeaturesWGPU::from_bits_retain(native),
        features_webgpu: wgpu::FeaturesWebGPU::from_bits_retain(web),
    };
    features.contains(wgpu::Features::TEXTURE_FORMAT_NV12)
}

/// `wgpu::Features::contains` with `DUAL_SOURCE_BLENDING`, which is one flag
/// among the web features.
#[verifier::external_body]
pub(crate) fn features_contain_dual_source_blending(native: u64, web: u64) -> (result: bool)
    ensures
        result == (web & 0x4000 == 0x4000),
{
    let features = wgpu::Features {
        features_wgpu: wgpu::FeaturesWGPU::from_bits_retain(native),
        features_webgpu: wgpu::FeaturesWebGPU::from_bits_retain(web),
    };
    features.contains(wgpu::Features::DUAL_SOURCE_BLENDING)
}

/// The code of `ash::vk::Result::ERROR_OUT_OF_HOST_MEMORY`.
#[verifier::external_body]
pub(crate) fn error_out_of_host_memory() -> (code: i32)
    ensures
        code == -1,
{
    ash::vk::Result::ERROR_OUT_OF_HOST_MEMORY.as_raw()
}

/// The code of `ash::vk::Result::ERROR_OUT_OF_DEVICE_MEMORY`.
#[verifier::external_body]
pub(crate) fn error_out_of_device_memory() -> (code: i32)
    ensures
        code == -2,
{
    ash::vk::Result::ERROR_OUT_OF_DEVICE_MEMORY.as_raw()
}

/// The code of `ash::vk::Result::ERROR_INITIALIZATION_FAILED`.
#[verifier::external_body]
pub(crate) fn error_initialization_failed() -> (code: i32)
    ensures
        code == -3,
{
    ash::vk::Result::ERROR_INITIALIZATION_FAILED.as_raw()
}

/// The code of `ash::vk::Result::ERROR_DEVICE_LOST`.
#[verifier::external_body]
pub(crate) fn error_device_lost() -> (code: i32)
    ensures
        code == -4,
{
    ash::vk::Result::ERROR_DEVICE_LOST.as_raw()
}

/// The code of `ash::vk::Result::ERROR_INVALID_EXTERNAL_HANDLE`.
#[verifier::external_body]
pub(crate) fn error_invalid_external_handle() -> (code: i32)
    ensures
        code == -1_000_072_003,
{
    ash::vk::Result::ERROR_INVALID_EXTERNAL_HANDLE.as_raw()
}

/// `ash::vk::QUEUE_FAMILY_EXTERNAL`.
#[verifier::external_body]
pub(crate) fn queue_family_external() -> (index: u32)
    ensures
        index == 0xFFFF_FFFE,
{
    ash::vk::QUEUE_FAMILY_EXTERNAL
}

/// `ash::vk::QUEUE_FAMILY_FOREIGN_EXT`.
#[verifier::external_body]
pub(crate) fn queue_family_foreign() -> (index: u32)
    ensures
        index == 0xFFFF_FFFD,
{
    ash::vk::QUEUE_FAMILY_FOREIGN_EXT
}

/// The bits of `ash::vk::SemaphoreImportFlags::TEMPORARY`.
#[verifier::external_body]
pub(crate) fn semaphore_import_temporary() -> (bits: u32)
    ensures
        bits == 0x1,
{
    ash::vk::SemaphoreImportFlags::TEMPORARY.as_raw()
}

/// The bits of `ash::vk::ExternalSemaphoreHandleTypeFlags::SYNC_FD`.
#[verifier::external_body]
pub(crate) fn semaphore_handle_sync_fd() -> (bits: u32)
    ensures
        bits == 0x10,
{
    ash::vk::ExternalSemaphoreHandleTypeFlags::SYNC_FD.as_raw()
}

/// The bits of `ash::vk::PipelineStageFlags::TOP_OF_PIPE`.
#[verifier::external_body]
pub(crate) fn stage_top_of_pipe() -> (bits: u32)
    ensures
        bits == 0x1,
{
    ash::vk::PipelineStageFlags::TOP_OF_PIPE.as_raw()
}

/// The four bytes of a word, least significant first.
pub open spec fn word_bytes(word: u32) -> Seq<u8> {
    seq![
        (word % 0x100) as u8,
        (word / 0x100 % 0x100) as u8,
        (word / 0x1_0000 % 0x100) as u8,
        (word / 0x100_0000) as u8,
    ]
}

/// The bytes of a run of words, each word least significant byte first.
pub open spec fn little_endian(words: Seq<u32>) -> Seq<u8> {
    Seq::new(4 * words.len(), |i: int| word_bytes(words[i / 4])[i % 4])
}

/// The bytes of a run of words, each word most significant byte first.
pub open spec fn big_endian(words: Seq<u32>) -> Seq<u8> {
    Seq::new(4 * words.len(), |i: int| word_bytes(words[i / 4])[3 - i % 4])
}

/// `bytemuck::cast_slice` from `u32` to `u8`: the bytes of the words as they
/// lie in memory. The machine's byte order decides which of the two it is.
#[verifier::external_body]
pub(crate) fn words_to_bytes(words: &Vec<u32>) -> (bytes: Vec<u8>)
    ensures
        bytes@ == little_endian(words@) || bytes@ == big_endian(words@),
{
    bytemuck::cast_slice::<u32, u8>(words).to_vec()
}

} // verus!
