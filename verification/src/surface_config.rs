//! Choosing and updating a surface's configuration.
use crate::device::{Size, TextureUsage};
use crate::outside::{is_srgb, srgb_encoded};
use vstd::prelude::*;

verus! {

/// The texel formats that a surface can report.
#[derive(Clone, Copy, Debug, PartialEq, Eq, Structural)]
pub enum SurfaceFormat {
    Bgra8Unorm,
    Bgra8UnormSrgb,
    Rgba8Snorm,
    Rgba8Unorm,
    Rgba8UnormSrgb,
    Rgba16Snorm,
    Rgba16Unorm,
    Rgba16Float,
    Rgb10a2Unorm,
}

/// How the compositor treats a surface's alpha channel.
#[derive(Clone, Copy, Debug, PartialEq, Eq, Structural)]
pub enum CompositeAlphaMode {
    Auto,
    Opaque,
    PreMultiplied,
    PostMultiplied,
    Inherit,
}

/// How finished frames reach the screen.
#[derive(Clone, Copy, Debug, PartialEq, Eq, Structural)]
pub enum PresentMode {
    AutoVsync,
    AutoNoVsync,
    Fifo,
    FifoRelaxed,
    Immediate,
    Mailbox,
}

/// What a surface supports on an adapter, in the adapter's order.
#[derive(Debug)]
pub struct SurfaceCapabilities {
    pub formats: Vec<SurfaceFormat>,
    pub alpha_modes: Vec<CompositeAlphaMode>,
    pub present_modes: Vec<PresentMode>,
}

/// What a window asks of its surface.
#[derive(Clone, Copy, Debug, PartialEq, Eq, Structural)]
pub struct WgpuSurfaceConfig {
    pub size: Size,
    pub transparent: bool,
    /// Preferred presentation mode. Used where the surface supports it; `Fifo`
    /// is used where it does not, and where there is no preference.
    pub preferred_present_mode: Option<PresentMode>,
}

/// The color space that a surface's texels are presented in.
#[derive(Clone, Copy, Debug, PartialEq, Eq, Structural)]
pub enum SurfaceColorSpace {
    /// The one that goes with the format.
    Auto,
    Srgb,
    ExtendedSrgbLinear,
    DisplayP3,
    Bt2100Pq,
    Bt2100Hlg,
    ExtendedSrgb,
}

/// A surface's configuration. Its textures are viewed in its own format only.
#[derive(Clone, Copy, Debug, PartialEq, Eq, Structural)]
pub struct SurfaceConfiguration {
    pub usage: TextureUsage,
    pub color_space: SurfaceColorSpace,
    pub format: SurfaceFormat,
    pub width: u32,
    pub height: u32,
    pub present_mode: PresentMode,
    pub alpha_mode: CompositeAlphaMode,
    /// Frames that may be queued for presentation.
    pub desired_maximum_frame_latency: u32,
}

/// Why a surface cannot be configured.
#[derive(Clone, Copy, Debug, PartialEq, Eq, Structural)]
pub enum SurfaceError {
    /// The surface reports no texture format.
    NoTextureFormats,
    /// The surface reports no alpha mode.
    NoAlphaModes,
}

/// A configuration, with the alpha modes to switch between later.
#[derive(Clone, Copy, Debug, PartialEq, Eq, Structural)]
pub struct SurfaceSetup {
    pub config: SurfaceConfiguration,
    pub transparent_alpha_mode: CompositeAlphaMode,
    pub opaque_alpha_mode: CompositeAlphaMode,
    pub max_texture_size: u32,
    /// The requested size was cut down to the largest texture size.
    pub clamped: bool,
}

/// The first format that is not sRGB-encoded.
pub open spec fn first_linear(formats: Seq<SurfaceFormat>) -> Option<SurfaceFormat>
    decreases formats.len(),
{
    if formats.len() == 0 {
        None
    } else if !srgb_encoded(formats.first()) {
        Some(formats.first())
    } else {
        first_linear(formats.drop_first())
    }
}

/// The format to use: BGRA or RGBA with 8 linear bits, else the first linear
/// one, else the first one.
pub open spec fn preferred_format(formats: Seq<SurfaceFormat>) -> Option<SurfaceFormat> {
    if formats.contains(SurfaceFormat::Bgra8Unorm) {
        Some(SurfaceFormat::Bgra8Unorm)
    } else if formats.contains(SurfaceFormat::Rgba8Unorm) {
        Some(SurfaceFormat::Rgba8Unorm)
    } else if first_linear(formats) is Some {
        first_linear(formats)
    } else if formats.len() > 0 {
        Some(formats.first())
    } else {
        None
    }
}

/// The first of two preferred alpha modes that is supported, else the first
/// supported one.
pub open spec fn preferred_alpha_mode(
    first: CompositeAlphaMode,
    second: CompositeAlphaMode,
    modes: Seq<CompositeAlphaMode>,
) -> Option<CompositeAlphaMode> {
    if modes.contains(first) {
        Some(first)
    } else if modes.contains(second) {
        Some(second)
    } else if modes.len() > 0 {
        Some(modes.first())
    } else {
        None
    }
}

/// The alpha mode for a transparent window.
pub open spec fn transparent_mode(modes: Seq<CompositeAlphaMode>) -> Option<CompositeAlphaMode> {
    preferred_alpha_mode(CompositeAlphaMode::PreMultiplied, CompositeAlphaMode::Inherit, modes)
}

/// The alpha mode for an opaque window.
pub open spec fn opaque_mode(modes: Seq<CompositeAlphaMode>) -> Option<CompositeAlphaMode> {
    preferred_alpha_mode(CompositeAlphaMode::Opaque, CompositeAlphaMode::Inherit, modes)
}

/// The present mode to use.
pub open spec fn preferred_mode(
    preference: Option<PresentMode>,
    modes: Seq<PresentMode>,
) -> PresentMode {
    match preference {
        Some(mode) => if modes.contains(mode) {
            mode
        } else {
            PresentMode::Fifo
        },
        None => PresentMode::Fifo,
    }
}

/// A requested extent cut down to the largest texture extent, and at least one.
pub open spec fn clamped_extent(requested: u32, largest: u32) -> u32 {
    if largest < requested {
        if largest < 1 {
            1
        } else {
            largest
        }
    } else if requested < 1 {
        1
    } else {
        requested
    }
}

/// Cuts a requested extent down to the largest texture extent, and to at least
/// one.
pub fn clamp_extent(requested: u32, largest: u32) -> (result: u32)
    ensures
        result == clamped_extent(requested, largest),
{
    let clamped: u32 = if largest < requested {
        largest
    } else {
        requested
    };
    if clamped < 1 {
        1
    } else {
        clamped
    }
}

fn has_format(formats: &Vec<SurfaceFormat>, format: SurfaceFormat) -> (result: bool)
    ensures
        result == formats@.contains(format),
{
    let mut i: usize = 0;
    while i < formats.len()
        invariant
            i <= formats.len(),
            forall|j: int| 0 <= j < i ==> formats@[j] != format,
        decreases formats.len() - i,
    {
        if formats[i] == format {
            assert(formats@[i as int] == format);
            return true;
        }
        i = i + 1;
    }
    false
}

fn has_alpha_mode(modes: &Vec<CompositeAlphaMode>, mode: CompositeAlphaMode) -> (result: bool)
    ensures
        result == modes@.contains(mode),
{
    let mut i: usize = 0;
    while i < modes.len()
        invariant
            i <= modes.len(),
            forall|j: int| 0 <= j < i ==> modes@[j] != mode,
        decreases modes.len() - i,
    {
        if modes[i] == mode {
            assert(modes@[i as int] == mode);
            return true;
        }
        i = i + 1;
    }
    false
}

fn has_present_mode(modes: &Vec<PresentMode>, mode: PresentMode) -> (result: bool)
    ensures
        result == modes@.contains(mode),
{
    let mut i: usize = 0;
    while i < modes.len()
        invariant
            i <= modes.len(),
            forall|j: int| 0 <= j < i ==> modes@[j] != mode,
        decreases modes.len() - i,
    {
        if modes[i] == mode {
            assert(modes@[i as int] == mode);
            return true;
        }
        i = i + 1;
    }
    false
}

/// Chooses the format of a surface. There is none only where none is reported.
pub fn choose_format(formats: &Vec<SurfaceFormat>) -> (result: Option<SurfaceFormat>)
    ensures
        result == preferred_format(formats@),
        result is None <==> formats@.len() == 0,
{
    if has_format(formats, SurfaceFormat::Bgra8Unorm) {
        return Some(SurfaceFormat::Bgra8Unorm);
    }
    if has_format(formats, SurfaceFormat::Rgba8Unorm) {
        return Some(SurfaceFormat::Rgba8Unorm);
    }
    let mut i: usize = 0;
    assert(formats@.skip(0) =~= formats@);
    while i < formats.len()
        invariant
            i <= formats.len(),
            first_linear(formats@) == first_linear(formats@.skip(i as int)),
            !formats@.contains(SurfaceFormat::Bgra8Unorm),
            !formats@.contains(SurfaceFormat::Rgba8Unorm),
        decreases formats.len() - i,
    {
        assert(formats@.skip(i as int).first() == formats@[i as int]);
        assert(formats@.skip(i as int).drop_first() =~= formats@.skip(i + 1));
        if !is_srgb(formats[i]) {
            return Some(formats[i]);
        }
        i = i + 1;
    }
    if formats.len() > 0 {
        Some(formats[0])
    } else {
        None
    }
}

/// Picks the first of two preferred alpha modes that is supported, else the
/// first supported one. There is none only where none is reported.
pub fn pick_alpha_mode(
    first: CompositeAlphaMode,
    second: CompositeAlphaMode,
    modes: &Vec<CompositeAlphaMode>,
) -> (result: Option<CompositeAlphaMode>)
    ensures
        result == preferred_alpha_mode(first, second, modes@),
        result is None <==> modes@.len() == 0,
{
    if has_alpha_mode(modes, first) {
        Some(first)
    } else if has_alpha_mode(modes, second) {
        Some(second)
    } else if modes.len() > 0 {
        Some(modes[0])
    } else {
        None
    }
}

/// Picks the present mode.
pub fn pick_present_mode(preference: Option<PresentMode>, modes: &Vec<PresentMode>) -> (result:
    PresentMode)
    ensures
        result == preferred_mode(preference, modes@),
{
    match preference {
        Some(mode) => if has_present_mode(modes, mode) {
            mode
        } else {
            PresentMode::Fifo
        },
        None => PresentMode::Fifo,
    }
}

impl SurfaceSetup {
    /// The setup for a window on a surface with at least one format and one
    /// alpha mode.
    pub open spec fn chosen(
        capabilities: SurfaceCapabilities,
        config: WgpuSurfaceConfig,
        max_texture_size: u32,
    ) -> SurfaceSetup {
        let width = config.size.width as u32;
        let height = config.size.height as u32;
        let transparent = transparent_mode(capabilities.alpha_modes@)->0;
        let opaque = opaque_mode(capabilities.alpha_modes@)->0;
        SurfaceSetup {
            config: SurfaceConfiguration {
                usage: TextureUsage {
                    render_attachment: true,
                    texture_binding: false,
                    copy_dst: false,
                },
                color_space: SurfaceColorSpace::Auto,
                format: preferred_format(capabilities.formats@)->0,
                width: clamped_extent(width, max_texture_size),
                height: clamped_extent(height, max_texture_size),
                present_mode: preferred_mode(
                    config.preferred_present_mode,
                    capabilities.present_modes@,
                ),
                alpha_mode: if config.transparent {
                    transparent
                } else {
                    opaque
                },
                desired_maximum_frame_latency: 2,
            },
            transparent_alpha_mode: transparent,
            opaque_alpha_mode: opaque,
            max_texture_size,
            clamped: width > max_texture_size || height > max_texture_size,
        }
    }

    /// The setup for a window, or what the surface lacks.
    pub open spec fn selected(
        capabilities: SurfaceCapabilities,
        config: WgpuSurfaceConfig,
        max_texture_size: u32,
    ) -> Result<SurfaceSetup, SurfaceError> {
        if capabilities.formats@.len() == 0 {
            Err(SurfaceError::NoTextureFormats)
        } else if capabilities.alpha_modes@.len() == 0 {
            Err(SurfaceError::NoAlphaModes)
        } else {
            Ok(SurfaceSetup::chosen(capabilities, config, max_texture_size))
        }
    }

    /// Chooses a window's surface configuration from what the surface supports.
    pub fn select(
        capabilities: &SurfaceCapabilities,
        config: &WgpuSurfaceConfig,
        max_texture_size: u32,
    ) -> (result: Result<SurfaceSetup, SurfaceError>)
        ensures
            result == SurfaceSetup::selected(*capabilities, *config, max_texture_size),
            capabilities.formats@.len() == 0 <==> result == Err::<SurfaceSetup, SurfaceError>(
                SurfaceError::NoTextureFormats,
            ),
            capabilities.formats@.len() > 0 && capabilities.alpha_modes@.len() == 0 <==> result
                == Err::<SurfaceSetup, SurfaceError>(SurfaceError::NoAlphaModes),
            result matches Ok(setup) ==> setup == SurfaceSetup::chosen(
                *capabilities,
                *config,
                max_texture_size,
            ),
    {
        let format = match choose_format(&capabilities.formats) {
            Some(format) => format,
            None => return Err(SurfaceError::NoTextureFormats),
        };
        let transparent_alpha_mode = match pick_alpha_mode(
            CompositeAlphaMode::PreMultiplied,
            CompositeAlphaMode::Inherit,
            &capabilities.alpha_modes,
        ) {
            Some(mode) => mode,
            None => return Err(SurfaceError::NoAlphaModes),
        };
        let opaque_alpha_mode = match pick_alpha_mode(
            CompositeAlphaMode::Opaque,
            CompositeAlphaMode::Inherit,
            &capabilities.alpha_modes,
        ) {
            Some(mode) => mode,
            None => return Err(SurfaceError::NoAlphaModes),
        };
        let width: u32 = #[verifier::truncate] (config.size.width as u32);
        let height: u32 = #[verifier::truncate] (config.size.height as u32);
        Ok(
            SurfaceSetup {
                config: SurfaceConfiguration {
                    usage: TextureUsage {
                        render_attachment: true,
                        texture_binding: false,
                        copy_dst: false,
                    },
                    color_space: SurfaceColorSpace::Auto,
                    format,
                    width: clamp_extent(width, max_texture_size),
                    height: clamp_extent(height, max_texture_size),
                    present_mode: pick_present_mode(
                        config.preferred_present_mode,
                        &capabilities.present_modes,
                    ),
                    alpha_mode: if config.transparent {
                        transparent_alpha_mode
                    } else {
                        opaque_alpha_mode
                    },
                    desired_maximum_frame_latency: 2,
                },
                transparent_alpha_mode,
                opaque_alpha_mode,
                max_texture_size,
                clamped: width > max_texture_size || height > max_texture_size,
            },
        )
    }
}

/// What is chosen is supported: the format and both alpha modes are among the
/// reported ones, and the present mode is reported or the `Fifo` that every
/// surface has.
pub proof fn chosen_setup_is_supported(
    capabilities: SurfaceCapabilities,
    config: WgpuSurfaceConfig,
    max_texture_size: u32,
)
    requires
        capabilities.formats@.len() > 0,
        capabilities.alpha_modes@.len() > 0,
    ensures
        ({
            let setup = SurfaceSetup::chosen(capabilities, config, max_texture_size);
            &&& capabilities.formats@.contains(setup.config.format)
            &&& capabilities.alpha_modes@.contains(setup.transparent_alpha_mode)
            &&& capabilities.alpha_modes@.contains(setup.opaque_alpha_mode)
            &&& capabilities.alpha_modes@.contains(setup.config.alpha_mode)
            &&& setup.config.present_mode == PresentMode::Fifo
                || capabilities.present_modes@.contains(setup.config.present_mode)
            &&& setup.config.width >= 1
            &&& setup.config.height >= 1
            &&& max_texture_size >= 1 ==> setup.config.width <= max_texture_size
            &&& max_texture_size >= 1 ==> setup.config.height <= max_texture_size
        }),
{
    lemma_first_linear_is_member(capabilities.formats@);
    assert(capabilities.formats@.contains(capabilities.formats@[0]));
    assert(capabilities.alpha_modes@.contains(capabilities.alpha_modes@[0]));
}

proof fn lemma_first_linear_is_member(formats: Seq<SurfaceFormat>)
    ensures
        first_linear(formats) matches Some(format) ==> formats.contains(format) && !srgb_encoded(
            format,
        ),
    decreases formats.len(),
{
    if formats.len() > 0 {
        assert(formats.contains(formats[0]));
        lemma_first_linear_is_member(formats.drop_first());
        if let Some(format) = first_linear(formats.drop_first()) {
            let i = choose|i: int|
                0 <= i < formats.drop_first().len() && formats.drop_first()[i] == format;
            assert(formats[i + 1] == format);
        }
    }
}

} // verus!
