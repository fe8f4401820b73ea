//! Uniform parameters, laid out word by word as shaders read them. A word that
//! stands for a number with a fraction is that number's IEEE 754 bit pattern.
use crate::arith::{align_up, align_up_is_least_multiple, next_multiple_of};
use crate::device::BufferDescriptor;
use crate::outside::{big_endian, little_endian, words_to_bytes};
use crate::surface_config::CompositeAlphaMode;
use vstd::prelude::*;

verus! {

/// Bytes of [`GlobalParams`].
pub const GLOBAL_PARAMS_SIZE: u64 = 16;

/// Bytes of [`GammaParams`].
pub const GAMMA_PARAMS_SIZE: u64 = 32;

/// Bytes of [`SurfaceParams`].
pub const SURFACE_PARAMS_SIZE: u64 = 96;

/// Bytes of [`SurfaceInstance`].
pub const SURFACE_INSTANCE_SIZE: u64 = 32;

/// Parameters of a whole pass.
#[derive(Clone, Copy, Debug, PartialEq, Eq, Structural)]
pub struct GlobalParams {
    pub viewport_width: u32,
    pub viewport_height: u32,
    pub premultiplied_alpha: u32,
    pub pad: u32,
}

impl GlobalParams {
    /// Parameters of a pass onto a surface.
    pub open spec fn of(width: u32, height: u32, alpha_mode: CompositeAlphaMode) -> GlobalParams {
        GlobalParams {
            viewport_width: width,
            viewport_height: height,
            premultiplied_alpha: if alpha_mode == CompositeAlphaMode::PreMultiplied {
                1
            } else {
                0
            },
            pad: 0,
        }
    }

    /// Parameters of a pass onto a surface.
    pub fn new(width: u32, height: u32, alpha_mode: CompositeAlphaMode) -> (result: GlobalParams)
        ensures
            result == GlobalParams::of(width, height, alpha_mode),
    {
        GlobalParams {
            viewport_width: width,
            viewport_height: height,
            premultiplied_alpha: if alpha_mode == CompositeAlphaMode::PreMultiplied {
                1
            } else {
                0
            },
            pad: 0,
        }
    }

    /// The same parameters for rasterizing paths, which never premultiplies.
    pub open spec fn of_paths(self) -> GlobalParams {
        GlobalParams { premultiplied_alpha: 0, ..self }
    }

    /// The same parameters for rasterizing paths, which never premultiplies.
    pub fn for_paths(&self) -> (result: GlobalParams)
        ensures
            result == self.of_paths(),
            result == (GlobalParams { premultiplied_alpha: 0, ..*self }),
    {
        GlobalParams { premultiplied_alpha: 0, ..*self }
    }

    /// The words in shader order.
    pub open spec fn words(self) -> Seq<u32> {
        seq![self.viewport_width, self.viewport_height, self.premultiplied_alpha, self.pad]
    }

    /// The bytes to upload.
    pub fn to_bytes(&self) -> (result: Vec<u8>)
        ensures
            result@ == little_endian(self.words()) || result@ == big_endian(self.words()),
            result@.len() == GLOBAL_PARAMS_SIZE,
    {
        let words: Vec<u32> = vec![
            self.viewport_width,
            self.viewport_height,
            self.premultiplied_alpha,
            self.pad,
        ];
        assert(words@ =~= self.words());
        words_to_bytes(&words)
    }
}

/// Parameters of text rendering.
#[derive(Clone, Copy, Debug, PartialEq, Eq)]
pub struct GammaParams {
    pub gamma_ratios: [u32; 4],
    pub grayscale_enhanced_contrast: u32,
    pub subpixel_enhanced_contrast: u32,
    pub is_bgr: u32,
    pub pad: u32,
}

impl GammaParams {
    /// Parameters of text rendering on a panel whose subpixels are ordered
    /// blue, green, red where `is_bgr`.
    pub open spec fn of(
        gamma_ratios: [u32; 4],
        grayscale_enhanced_contrast: u32,
        subpixel_enhanced_contrast: u32,
        is_bgr: bool,
    ) -> GammaParams {
        GammaParams {
            gamma_ratios,
            grayscale_enhanced_contrast,
            subpixel_enhanced_contrast,
            is_bgr: if is_bgr {
                1
            } else {
                0
            },
            pad: 0,
        }
    }

    /// Parameters of text rendering on a panel whose subpixels are ordered
    /// blue, green, red where `is_bgr`.
    pub fn new(
        gamma_ratios: [u32; 4],
        grayscale_enhanced_contrast: u32,
        subpixel_enhanced_contrast: u32,
        is_bgr: bool,
    ) -> (result: GammaParams)
        ensures
            result == GammaParams::of(
                gamma_ratios,
                grayscale_enhanced_contrast,
                subpixel_enhanced_contrast,
                is_bgr,
            ),
            result == (GammaParams {
                gamma_ratios,
                grayscale_enhanced_contrast,
                subpixel_enhanced_contrast,
                is_bgr: if is_bgr {
                    1
                } else {
                    0
                },
                pad: 0,
            }),
    {
        GammaParams {
            gamma_ratios,
            grayscale_enhanced_contrast,
            subpixel_enhanced_contrast,
            is_bgr: if is_bgr {
                1
            } else {
                0
            },
            pad: 0,
        }
    }

    /// The words in shader order.
    pub open spec fn words(self) -> Seq<u32> {
        self.gamma_ratios@ + seq![
            self.grayscale_enhanced_contrast,
            self.subpixel_enhanced_contrast,
            self.is_bgr,
            self.pad,
        ]
    }

    /// The bytes to upload.
    pub fn to_bytes(&self) -> (result: Vec<u8>)
        ensures
            result@ == little_endian(self.words()) || result@ == big_endian(self.words()),
            result@.len() == GAMMA_PARAMS_SIZE,
    {
        let words: Vec<u32> = vec![
            self.gamma_ratios[0],
            self.gamma_ratios[1],
            self.gamma_ratios[2],
            self.gamma_ratios[3],
            self.grayscale_enhanced_contrast,
            self.subpixel_enhanced_contrast,
            self.is_bgr,
            self.pad,
        ];
        assert(words@ =~= self.words());
        words_to_bytes(&words)
    }
}

/// A rectangle in scaled pixels.
#[derive(Clone, Copy, Debug, PartialEq, Eq, Structural)]
pub struct Bounds {
    pub x: u32,
    pub y: u32,
    pub width: u32,
    pub height: u32,
}

/// A rectangle as shaders read it.
#[derive(Clone, Copy, Debug, PartialEq, Eq)]
pub struct PodBounds {
    pub origin: [u32; 2],
    pub size: [u32; 2],
}

impl PodBounds {
    /// The rectangle as shaders read it.
    pub open spec fn of(bounds: Bounds) -> PodBounds {
        PodBounds { origin: [bounds.x, bounds.y], size: [bounds.width, bounds.height] }
    }

    /// The words in shader order.
    pub open spec fn words(self) -> Seq<u32> {
        self.origin@ + self.size@
    }
}

impl From<Bounds> for PodBounds {
    fn from(bounds: Bounds) -> (result: PodBounds) {
        PodBounds { origin: [bounds.x, bounds.y], size: [bounds.width, bounds.height] }
    }
}

impl vstd::std_specs::convert::FromSpecImpl<Bounds> for PodBounds {
    open spec fn obeys_from_spec() -> bool {
        true
    }

    open spec fn from_spec(bounds: Bounds) -> PodBounds {
        PodBounds::of(bounds)
    }
}

/// The transfer function of encoded video.
#[derive(Clone, Copy, Debug, PartialEq, Eq, Structural)]
pub enum VideoTransferFunction {
    Srgb,
}

/// Color conversion applied to sampled NV12 values.
///
/// The input vector is ordered as `[Y, Cb, Cr, 1]`. `yuv_to_rgb[column][row]`
/// stores one column of the matrix after the other; the fourth column holds
/// the additive offsets.
#[derive(Clone, Copy, Debug, PartialEq, Eq)]
pub struct Nv12ColorTransform {
    /// Column-major matrix from `[Y, Cb, Cr, 1]` to RGB.
    pub yuv_to_rgb: [[u32; 4]; 4],
    /// Encoded transfer function applied after the matrix conversion.
    pub transfer: VideoTransferFunction,
}

impl Nv12ColorTransform {
    /// The words of the matrix, column after column.
    pub open spec fn matrix_words(self) -> Seq<u32> {
        self.yuv_to_rgb@[0]@ + self.yuv_to_rgb@[1]@ + self.yuv_to_rgb@[2]@ + self.yuv_to_rgb@[3]@
    }
}

impl Nv12ColorTransform {
    /// The conversion of full-range video with chroma centered at one half.
    pub open spec fn full_range() -> Nv12ColorTransform {
        Nv12ColorTransform {
            transfer: VideoTransferFunction::Srgb,
            yuv_to_rgb: [
                [0x3F80_0000, 0x3F80_0000, 0x3F80_0000, 0],
                [0, 0xBEB0_2DE0, 0x3FE2_D0E5, 0],
                [0x3FB3_74BC, 0xBF36_CF42, 0, 0],
                [0xBF33_74BC, 0x3F07_7319, 0xBF62_D0E5, 0x3F80_0000],
            ],
        }
    }
}

impl Default for Nv12ColorTransform {
    /// The conversion of full-range video with chroma centered at one half.
    fn default() -> (result: Nv12ColorTransform)
        ensures
            result == Nv12ColorTransform::full_range(),
            result.transfer == VideoTransferFunction::Srgb,
            result.yuv_to_rgb@[0]@ == seq![0x3F80_0000u32, 0x3F80_0000, 0x3F80_0000, 0],
            result.yuv_to_rgb@[1]@ == seq![0u32, 0xBEB0_2DE0, 0x3FE2_D0E5, 0],
            result.yuv_to_rgb@[2]@ == seq![0x3FB3_74BCu32, 0xBF36_CF42, 0, 0],
            result.yuv_to_rgb@[3]@ == seq![0xBF33_74BCu32, 0x3F07_7319, 0xBF62_D0E5, 0x3F80_0000],
    {
        Nv12ColorTransform {
            transfer: VideoTransferFunction::Srgb,
            yuv_to_rgb: [
                [0x3F80_0000, 0x3F80_0000, 0x3F80_0000, 0],
                [0, 0xBEB0_2DE0, 0x3FE2_D0E5, 0],
                [0x3FB3_74BC, 0xBF36_CF42, 0, 0],
                [0xBF33_74BC, 0x3F07_7319, 0xBF62_D0E5, 0x3F80_0000],
            ],
        }
    }
}

/// Parameters of one video surface.
#[derive(Clone, Copy, Debug, PartialEq, Eq)]
pub struct SurfaceParams {
    pub bounds: PodBounds,
    pub content_mask: PodBounds,
    pub yuv_to_rgb: [[u32; 4]; 4],
}

impl SurfaceParams {
    /// The buffer that holds the parameters.
    pub open spec fn buffer() -> BufferDescriptor {
        BufferDescriptor::of_uniforms("surface_nv12_uniform", SURFACE_PARAMS_SIZE)
    }

    /// The buffer that holds the parameters.
    pub fn buffer_descriptor() -> (result: BufferDescriptor)
        ensures
            result == SurfaceParams::buffer(),
            result == BufferDescriptor::of_uniforms("surface_nv12_uniform", SURFACE_PARAMS_SIZE),
    {
        BufferDescriptor::uniform("surface_nv12_uniform", SURFACE_PARAMS_SIZE)
    }

    /// Parameters of a video surface with the given color conversion.
    pub fn new(bounds: PodBounds, content_mask: PodBounds, transform: Nv12ColorTransform) -> (result:
        SurfaceParams)
        ensures
            result == (SurfaceParams { bounds, content_mask, yuv_to_rgb: transform.yuv_to_rgb }),
            result.words() == bounds.words() + content_mask.words() + transform.matrix_words(),
    {
        let result = SurfaceParams { bounds, content_mask, yuv_to_rgb: transform.yuv_to_rgb };
        assert(result.words() =~= bounds.words() + content_mask.words()
            + transform.matrix_words());
        result
    }

    /// The words in shader order.
    pub open spec fn words(self) -> Seq<u32> {
        self.bounds.words() + self.content_mask.words() + self.yuv_to_rgb@[0]@
            + self.yuv_to_rgb@[1]@ + self.yuv_to_rgb@[2]@ + self.yuv_to_rgb@[3]@
    }

    /// The bytes to upload.
    pub fn to_bytes(&self) -> (result: Vec<u8>)
        ensures
            result@ == little_endian(self.words()) || result@ == big_endian(self.words()),
            result@.len() == SURFACE_PARAMS_SIZE,
    {
        let mut words: Vec<u32> = vec![
            self.bounds.origin[0],
            self.bounds.origin[1],
            self.bounds.size[0],
            self.bounds.size[1],
            self.content_mask.origin[0],
            self.content_mask.origin[1],
            self.content_mask.size[0],
            self.content_mask.size[1],
        ];
        let mut column: usize = 0;
        while column < 4
            invariant
                column <= 4,
                words@.len() == 8 + 4 * column,
                words@.take(8) == self.bounds.words() + self.content_mask.words(),
                forall|c: int, r: int|
                    0 <= c < column && 0 <= r < 4 ==> words@[8 + 4 * c + r]
                        == #[trigger] self.yuv_to_rgb@[c]@[r],
            decreases 4 - column,
        {
            let ghost before = words@;
            words.push(self.yuv_to_rgb[column][0]);
            words.push(self.yuv_to_rgb[column][1]);
            words.push(self.yuv_to_rgb[column][2]);
            words.push(self.yuv_to_rgb[column][3]);
            assert(words@.take(8) =~= before.take(8));
            column = column + 1;
        }
        proof {
            assert(words@ =~= words@.take(8) + words@.subrange(8, 24));
            assert(words@.subrange(8, 24) =~= self.yuv_to_rgb@[0]@ + self.yuv_to_rgb@[1]@
                + self.yuv_to_rgb@[2]@ + self.yuv_to_rgb@[3]@) by {
                assert(self.yuv_to_rgb@[0]@[0] == words@[8]);
            }
            assert(words@ =~= self.words());
        }
        words_to_bytes(&words)
    }
}

/// One picture surface, as a record of instance memory.
#[derive(Clone, Copy, Debug, PartialEq, Eq)]
pub struct SurfaceInstance {
    pub bounds: PodBounds,
    pub content_mask: PodBounds,
}

impl SurfaceInstance {
    /// The words in shader order.
    pub open spec fn words(self) -> Seq<u32> {
        self.bounds.words() + self.content_mask.words()
    }

    /// The bytes to upload.
    pub fn to_bytes(&self) -> (result: Vec<u8>)
        ensures
            result@ == little_endian(self.words()) || result@ == big_endian(self.words()),
            result@.len() == SURFACE_INSTANCE_SIZE,
    {
        let words: Vec<u32> = vec![
            self.bounds.origin[0],
            self.bounds.origin[1],
            self.bounds.size[0],
            self.bounds.size[1],
            self.content_mask.origin[0],
            self.content_mask.origin[1],
            self.content_mask.size[0],
            self.content_mask.size[1],
        ];
        assert(words@ =~= self.words());
        words_to_bytes(&words)
    }
}

/// In either byte order, the bytes 32 to 96 of a video surface's parameters
/// are the bytes of its color matrix, column after column.
pub proof fn matrix_bytes_follow_rectangles(
    bounds: PodBounds,
    content_mask: PodBounds,
    transform: Nv12ColorTransform,
)
    ensures
        ({
            let params = SurfaceParams { bounds, content_mask, yuv_to_rgb: transform.yuv_to_rgb };
            &&& little_endian(params.words()).subrange(32, 96) == little_endian(
                transform.matrix_words(),
            )
            &&& big_endian(params.words()).subrange(32, 96) == big_endian(transform.matrix_words())
        }),
{
    let params = SurfaceParams { bounds, content_mask, yuv_to_rgb: transform.yuv_to_rgb };
    let matrix = transform.matrix_words();
    assert(params.words() =~= bounds.words() + content_mask.words() + matrix);
    assert(params.words().subrange(8, 24) =~= matrix);
    assert forall|i: int| 0 <= i < 64 implies little_endian(params.words())[32 + i]
        == #[trigger] little_endian(matrix)[i] by {
        assert(params.words()[(32 + i) / 4] == matrix[i / 4]);
    }
    assert forall|i: int| 0 <= i < 64 implies big_endian(params.words())[32 + i]
        == #[trigger] big_endian(matrix)[i] by {
        assert(params.words()[(32 + i) / 4] == matrix[i / 4]);
    }
    assert(little_endian(params.words()).subrange(32, 96) =~= little_endian(matrix));
    assert(big_endian(params.words()).subrange(32, 96) =~= big_endian(matrix));
}

/// A part of the uniform buffer behind a binding.
#[derive(Clone, Copy, Debug, PartialEq, Eq, Structural)]
pub struct UniformBinding {
    pub binding: u32,
    pub offset: u64,
    pub size: u64,
}

/// The bind group of a pass's parameters.
#[derive(Clone, Copy, Debug)]
pub struct GlobalsBindGroup {
    pub label: &'static str,
    pub globals: UniformBinding,
    pub gamma: UniformBinding,
}

/// Where the uniform parameters lie in their shared buffer.
#[derive(Clone, Copy, Debug, PartialEq, Eq, Structural)]
pub struct UniformLayout {
    /// Offset of the parameters of path rasterization.
    pub path_globals_offset: u64,
    /// Offset of the text parameters.
    pub gamma_offset: u64,
    /// Bytes of the buffer.
    pub size: u64,
}

impl UniformLayout {
    /// The layout for uniform bindings with the given alignment.
    pub open spec fn aligned(alignment: u32) -> UniformLayout {
        let path = align_up(GLOBAL_PARAMS_SIZE as int, alignment as int);
        let gamma = align_up(path + GLOBAL_PARAMS_SIZE, alignment as int);
        UniformLayout {
            path_globals_offset: path as u64,
            gamma_offset: gamma as u64,
            size: (gamma + GAMMA_PARAMS_SIZE) as u64,
        }
    }

    /// Lays out the uniform parameters. Each binding starts at a multiple of
    /// the alignment, and no two of them overlap.
    pub fn new(alignment: u32) -> (result: UniformLayout)
        requires
            alignment > 0,
        ensures
            result == UniformLayout::aligned(alignment),
            result.path_globals_offset % alignment as u64 == 0,
            result.gamma_offset % alignment as u64 == 0,
            GLOBAL_PARAMS_SIZE <= result.path_globals_offset,
            result.path_globals_offset + GLOBAL_PARAMS_SIZE <= result.gamma_offset,
            result.gamma_offset + GAMMA_PARAMS_SIZE == result.size,
    {
        proof {
            let path = align_up(GLOBAL_PARAMS_SIZE as int, alignment as int);
            align_up_is_least_multiple(GLOBAL_PARAMS_SIZE as int, alignment as int, 0);
            align_up_is_least_multiple(path + GLOBAL_PARAMS_SIZE, alignment as int, 0);
        }
        let path_globals_offset: u64 = next_multiple_of(GLOBAL_PARAMS_SIZE, alignment as u64);
        let gamma_offset: u64 = next_multiple_of(
            path_globals_offset + GLOBAL_PARAMS_SIZE,
            alignment as u64,
        );
        UniformLayout { path_globals_offset, gamma_offset, size: gamma_offset + GAMMA_PARAMS_SIZE }
    }

    /// The buffer that holds the parameters.
    pub open spec fn buffer(self) -> BufferDescriptor {
        BufferDescriptor::of_uniforms("globals_buffer", self.size)
    }

    /// The buffer that holds the parameters.
    pub fn buffer_descriptor(&self) -> (result: BufferDescriptor)
        ensures
            result == self.buffer(),
            result == BufferDescriptor::of_uniforms("globals_buffer", self.size),
    {
        BufferDescriptor::uniform("globals_buffer", self.size)
    }

    /// The bind groups of the parameters: for passes onto the surface, and for
    /// rasterizing paths.
    pub open spec fn groups(self) -> (GlobalsBindGroup, GlobalsBindGroup) {
        let gamma = UniformBinding {
            binding: 1,
            offset: self.gamma_offset,
            size: GAMMA_PARAMS_SIZE,
        };
        (
            GlobalsBindGroup {
                label: "globals_bind_group",
                globals: UniformBinding { binding: 0, offset: 0, size: GLOBAL_PARAMS_SIZE },
                gamma,
            },
            GlobalsBindGroup {
                label: "path_globals_bind_group",
                globals: UniformBinding {
                    binding: 0,
                    offset: self.path_globals_offset,
                    size: GLOBAL_PARAMS_SIZE,
                },
                gamma,
            },
        )
    }

    /// The bind groups of the parameters: for passes onto the surface, and for
    /// rasterizing paths.
    pub fn bind_groups(&self) -> (result: (GlobalsBindGroup, GlobalsBindGroup))
        ensures
            result == self.groups(),
            result.0 == (GlobalsBindGroup {
                label: "globals_bind_group",
                globals: UniformBinding { binding: 0, offset: 0, size: GLOBAL_PARAMS_SIZE },
                gamma: UniformBinding {
                    binding: 1,
                    offset: self.gamma_offset,
                    size: GAMMA_PARAMS_SIZE,
                },
            }),
            result.1 == (GlobalsBindGroup {
                label: "path_globals_bind_group",
                globals: UniformBinding {
                    binding: 0,
                    offset: self.path_globals_offset,
                    size: GLOBAL_PARAMS_SIZE,
                },
                gamma: result.0.gamma,
            }),
    {
        let gamma = UniformBinding {
            binding: 1,
            offset: self.gamma_offset,
            size: GAMMA_PARAMS_SIZE,
        };
        (
            GlobalsBindGroup {
                label: "globals_bind_group",
                globals: UniformBinding { binding: 0, offset: 0, size: GLOBAL_PARAMS_SIZE },
                gamma,
            },
            GlobalsBindGroup {
                label: "path_globals_bind_group",
                globals: UniformBinding {
                    binding: 0,
                    offset: self.path_globals_offset,
                    size: GLOBAL_PARAMS_SIZE,
                },
                gamma,
            },
        )
    }
}

} // verus!
