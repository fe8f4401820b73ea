//! The element that composites a GPU texture into the user interface.
use crate::device::Size;
use crate::external::{GpuHandles, SharedTexture};
use crate::params::Nv12ColorTransform;
use vstd::prelude::*;
use vstd::std_specs::convert::{FromSpec, FromSpecImpl, IntoSpec};

verus! {

/// How content is fitted into its bounds.
#[derive(Clone, Copy, Debug, PartialEq, Eq, Structural)]
pub enum ObjectFit {
    Fill,
    Contain,
    Cover,
    ScaleDown,
    /// Neither scaled up nor down.
    Unscaled,
}

/// A pixel buffer of the system, with its extent.
pub struct PixelBuffer<H: GpuHandles> {
    pub buffer: H::PixelBuffer,
    pub width: usize,
    pub height: usize,
}

/// A validated picture with its alpha and color metadata.
pub struct RgbaTextureSource<H: GpuHandles> {
    pub source: H::RgbaSource,
    pub native_size: Size,
}

/// Validated NV12 planes with their color metadata.
pub struct Nv12TextureSource<H: GpuHandles> {
    pub source: H::Nv12Source,
    pub native_size: Size,
}

/// The content of a [`Surface`] element.
pub enum SurfaceSource<H: GpuHandles> {
    /// A pixel buffer of the system.
    Surface(PixelBuffer<H>),
    /// A picture.
    Rgba(RgbaTextureSource<H>),
    /// Two NV12 planes with the default color conversion.
    Nv12Texture {
        y_texture: SharedTexture<H>,
        cb_cr_texture: SharedTexture<H>,
        native_size: Size,
    },
    /// Two NV12 planes with a color conversion of their own.
    Nv12TextureWithColorTransform {
        y_texture: SharedTexture<H>,
        cb_cr_texture: SharedTexture<H>,
        native_size: Size,
        color_transform: Nv12ColorTransform,
    },
    /// Both NV12 planes in one texture, with a color conversion of their own.
    Nv12MultiplanarTexture {
        texture: SharedTexture<H>,
        native_size: Size,
        color_transform: Nv12ColorTransform,
    },
    /// Two NV12 planes with their color metadata.
    Nv12(Nv12TextureSource<H>),
}

impl<H: GpuHandles> From<PixelBuffer<H>> for SurfaceSource<H> {
    fn from(buffer: PixelBuffer<H>) -> (result: Self) {
        SurfaceSource::Surface(buffer)
    }
}

impl<H: GpuHandles> FromSpecImpl<PixelBuffer<H>> for SurfaceSource<H> {
    open spec fn obeys_from_spec() -> bool {
        true
    }

    open spec fn from_spec(buffer: PixelBuffer<H>) -> Self {
        SurfaceSource::Surface(buffer)
    }
}

impl<H: GpuHandles> From<RgbaTextureSource<H>> for SurfaceSource<H> {
    fn from(source: RgbaTextureSource<H>) -> (result: Self) {
        SurfaceSource::Rgba(source)
    }
}

impl<H: GpuHandles> FromSpecImpl<RgbaTextureSource<H>> for SurfaceSource<H> {
    open spec fn obeys_from_spec() -> bool {
        true
    }

    open spec fn from_spec(source: RgbaTextureSource<H>) -> Self {
        SurfaceSource::Rgba(source)
    }
}

impl<H: GpuHandles> From<Nv12TextureSource<H>> for SurfaceSource<H> {
    fn from(source: Nv12TextureSource<H>) -> (result: Self) {
        SurfaceSource::Nv12(source)
    }
}

impl<H: GpuHandles> FromSpecImpl<Nv12TextureSource<H>> for SurfaceSource<H> {
    open spec fn obeys_from_spec() -> bool {
        true
    }

    open spec fn from_spec(source: Nv12TextureSource<H>) -> Self {
        SurfaceSource::Nv12(source)
    }
}

impl<H: GpuHandles> From<(SharedTexture<H>, SharedTexture<H>, Size)> for SurfaceSource<H> {
    fn from(planes: (SharedTexture<H>, SharedTexture<H>, Size)) -> (result: Self) {
        SurfaceSource::Nv12Texture {
            y_texture: planes.0,
            cb_cr_texture: planes.1,
            native_size: planes.2,
        }
    }
}

impl<H: GpuHandles> FromSpecImpl<(SharedTexture<H>, SharedTexture<H>, Size)> for SurfaceSource<H> {
    open spec fn obeys_from_spec() -> bool {
        true
    }

    open spec fn from_spec(planes: (SharedTexture<H>, SharedTexture<H>, Size)) -> Self {
        SurfaceSource::Nv12Texture {
            y_texture: planes.0,
            cb_cr_texture: planes.1,
            native_size: planes.2,
        }
    }
}

impl<H: GpuHandles> From<
    (SharedTexture<H>, SharedTexture<H>, Size, Nv12ColorTransform),
> for SurfaceSource<H> {
    fn from(
        planes: (SharedTexture<H>, SharedTexture<H>, Size, Nv12ColorTransform),
    ) -> (result: Self) {
        SurfaceSource::Nv12TextureWithColorTransform {
            y_texture: planes.0,
            cb_cr_texture: planes.1,
            native_size: planes.2,
            color_transform: planes.3,
        }
    }
}

impl<H: GpuHandles> FromSpecImpl<
    (SharedTexture<H>, SharedTexture<H>, Size, Nv12ColorTransform),
> for SurfaceSource<H> {
    open spec fn obeys_from_spec() -> bool {
        true
    }

    open spec fn from_spec(
        planes: (SharedTexture<H>, SharedTexture<H>, Size, Nv12ColorTransform),
    ) -> Self {
        SurfaceSource::Nv12TextureWithColorTransform {
            y_texture: planes.0,
            cb_cr_texture: planes.1,
            native_size: planes.2,
            color_transform: planes.3,
        }
    }
}

impl<H: GpuHandles> From<(SharedTexture<H>, Size, Nv12ColorTransform)> for SurfaceSource<H> {
    fn from(planes: (SharedTexture<H>, Size, Nv12ColorTransform)) -> (result: Self) {
        SurfaceSource::Nv12MultiplanarTexture {
            texture: planes.0,
            native_size: planes.1,
            color_transform: planes.2,
        }
    }
}

impl<H: GpuHandles> FromSpecImpl<(SharedTexture<H>, Size, Nv12ColorTransform)> for SurfaceSource<H> {
    open spec fn obeys_from_spec() -> bool {
        true
    }

    open spec fn from_spec(planes: (SharedTexture<H>, Size, Nv12ColorTransform)) -> Self {
        SurfaceSource::Nv12MultiplanarTexture {
            texture: planes.0,
            native_size: planes.1,
            color_transform: planes.2,
        }
    }
}

/// A surface element.
pub struct Surface<H: GpuHandles> {
    pub source: SurfaceSource<H>,
    pub object_fit: ObjectFit,
}

impl<H: GpuHandles> Surface<H> {
    /// The content, fitted to be seen whole.
    pub open spec fn whole(source: SurfaceSource<H>) -> Self {
        Surface { source, object_fit: ObjectFit::Contain }
    }

    /// The surface with its content fitted that way.
    pub open spec fn fitted(self, object_fit: ObjectFit) -> Self {
        Surface { object_fit, ..self }
    }

    /// The surface is laid out as wide and as high as its parent.
    pub open spec fn fills(self) -> bool {
        self.content_extent().1 > 0
    }
}

/// A GPU texture composited into the user interface, fitted to be seen whole.
pub fn surface<H: GpuHandles, S: Into<SurfaceSource<H>>>(source: S) -> (result: Surface<H>)
    ensures
        S::obeys_into_spec() ==> result == Surface::whole(source.into_spec()),
        S::obeys_into_spec() ==> result.source == source.into_spec(),
        result.object_fit == ObjectFit::Contain,
{
    Surface { source: source.into(), object_fit: ObjectFit::Contain }
}

/// The sides whose quotient is an aspect ratio.
#[derive(Clone, Copy, Debug, PartialEq, Eq, Structural)]
pub struct AspectRatio {
    pub width: i128,
    pub height: i128,
}

/// A call of the window that paints a surface's content.
pub enum SurfacePaint<'a, H: GpuHandles> {
    PixelBuffer(&'a H::PixelBuffer),
    Rgba(&'a H::RgbaSource),
    Nv12(&'a H::Nv12Source),
    Nv12WithColorTransform {
        y_texture: &'a SharedTexture<H>,
        cb_cr_texture: &'a SharedTexture<H>,
        native_size: Size,
        color_transform: Nv12ColorTransform,
    },
    Nv12Multiplanar {
        texture: &'a SharedTexture<H>,
        native_size: Size,
        color_transform: Nv12ColorTransform,
    },
}

impl<H: GpuHandles> Surface<H> {
    /// Sets how the content is fitted into its bounds.
    pub fn object_fit(self, object_fit: ObjectFit) -> (result: Self)
        ensures
            result == self.fitted(object_fit),
            result == (Surface { object_fit, ..self }),
    {
        Surface { object_fit, ..self }
    }

    /// The sides of the content.
    pub open spec fn content_extent(self) -> (int, int) {
        match self.source {
            SurfaceSource::Surface(buffer) => (buffer.width as int, buffer.height as int),
            SurfaceSource::Rgba(source) => (
                source.native_size.width as int,
                source.native_size.height as int,
            ),
            SurfaceSource::Nv12Texture { native_size, .. } => (
                native_size.width as int,
                native_size.height as int,
            ),
            SurfaceSource::Nv12TextureWithColorTransform { native_size, .. } => (
                native_size.width as int,
                native_size.height as int,
            ),
            SurfaceSource::Nv12MultiplanarTexture { native_size, .. } => (
                native_size.width as int,
                native_size.height as int,
            ),
            SurfaceSource::Nv12(source) => (
                source.native_size.width as int,
                source.native_size.height as int,
            ),
        }
    }

    /// The aspect ratio to lay the surface out with.
    pub open spec fn ratio(self) -> Option<AspectRatio> {
        let (width, height) = self.content_extent();
        if height > 0 {
            Some(AspectRatio { width: width as i128, height: height as i128 })
        } else {
            None
        }
    }

    /// The aspect ratio to lay the surface out with. Content without a height is
    /// laid out without.
    pub fn request_layout(&self) -> (result: Option<AspectRatio>)
        ensures
            match result {
                Some(ratio) => {
                    &&& self.content_extent().1 > 0
                    &&& ratio.width == self.content_extent().0
                    &&& ratio.height == self.content_extent().1
                },
                None => self.content_extent().1 <= 0,
            },
            result == self.ratio(),
    {
        let (width, height): (i128, i128) = match &self.source {
            SurfaceSource::Surface(buffer) => (buffer.width as i128, buffer.height as i128),
            SurfaceSource::Rgba(source) => (
                source.native_size.width as i128,
                source.native_size.height as i128,
            ),
            SurfaceSource::Nv12Texture { native_size, .. } => (
                native_size.width as i128,
                native_size.height as i128,
            ),
            SurfaceSource::Nv12TextureWithColorTransform { native_size, .. } => (
                native_size.width as i128,
                native_size.height as i128,
            ),
            SurfaceSource::Nv12MultiplanarTexture { native_size, .. } => (
                native_size.width as i128,
                native_size.height as i128,
            ),
            SurfaceSource::Nv12(source) => (
                source.native_size.width as i128,
                source.native_size.height as i128,
            ),
        };
        if height > 0 {
            Some(AspectRatio { width, height })
        } else {
            None
        }
    }

    /// Whether the surface is laid out as wide and as high as its parent, so that
    /// there are bounds to fit the content into. Content without a height leaves
    /// the size to the layout.
    pub fn fills_parent(&self) -> (result: bool)
        ensures
            result == self.fills(),
            result == (self.content_extent().1 > 0),
    {
        self.request_layout().is_some()
    }

    /// The size that the content is fitted to its bounds by.
    pub open spec fn native_size(self) -> Size {
        match self.source {
            SurfaceSource::Surface(buffer) => Size {
                width: buffer.width as i32,
                height: buffer.height as i32,
            },
            SurfaceSource::Rgba(source) => source.native_size,
            SurfaceSource::Nv12Texture { native_size, .. } => native_size,
            SurfaceSource::Nv12TextureWithColorTransform { native_size, .. } => native_size,
            SurfaceSource::Nv12MultiplanarTexture { native_size, .. } => native_size,
            SurfaceSource::Nv12(source) => source.native_size,
        }
    }

    /// The call that paints the content.
    pub open spec fn painted(self) -> SurfacePaint<'static, H> {
        match self.source {
            SurfaceSource::Surface(buffer) => SurfacePaint::PixelBuffer(&buffer.buffer),
            SurfaceSource::Rgba(source) => SurfacePaint::Rgba(&source.source),
            SurfaceSource::Nv12(source) => SurfacePaint::Nv12(&source.source),
            SurfaceSource::Nv12Texture { y_texture, cb_cr_texture, native_size } => {
                SurfacePaint::Nv12WithColorTransform {
                    y_texture: &y_texture,
                    cb_cr_texture: &cb_cr_texture,
                    native_size,
                    color_transform: Nv12ColorTransform::full_range(),
                }
            },
            SurfaceSource::Nv12TextureWithColorTransform {
                y_texture,
                cb_cr_texture,
                native_size,
                color_transform,
            } => SurfacePaint::Nv12WithColorTransform {
                y_texture: &y_texture,
                cb_cr_texture: &cb_cr_texture,
                native_size,
                color_transform,
            },
            SurfaceSource::Nv12MultiplanarTexture { texture, native_size, color_transform } => {
                SurfacePaint::Nv12Multiplanar { texture: &texture, native_size, color_transform }
            },
        }
    }

    /// The call that paints the content, and the size to fit into the bounds for
    /// it. Content of every kind is painted, NV12 planes without a color
    /// conversion of their own with the default one.
    pub fn paint(&self) -> (result: Option<(Size, SurfacePaint<'_, H>)>)
        ensures
            result matches Some((size, _)) && size == self.native_size(),
            result matches Some((_, call)) && call == self.painted(),
            match self.source {
                SurfaceSource::Surface(buffer) => result == Some(
                    (
                        Size { width: buffer.width as i32, height: buffer.height as i32 },
                        SurfacePaint::<H>::PixelBuffer(&buffer.buffer),
                    ),
                ),
                SurfaceSource::Rgba(source) => result == Some(
                    (source.native_size, SurfacePaint::<H>::Rgba(&source.source)),
                ),
                SurfaceSource::Nv12(source) => result == Some(
                    (source.native_size, SurfacePaint::<H>::Nv12(&source.source)),
                ),
                SurfaceSource::Nv12TextureWithColorTransform {
                    y_texture,
                    cb_cr_texture,
                    native_size,
                    color_transform,
                } => result == Some(
                    (
                        native_size,
                        SurfacePaint::Nv12WithColorTransform {
                            y_texture: &y_texture,
                            cb_cr_texture: &cb_cr_texture,
                            native_size,
                            color_transform,
                        },
                    ),
                ),
                SurfaceSource::Nv12MultiplanarTexture { texture, native_size, color_transform } => {
                    result == Some(
                        (
                            native_size,
                            SurfacePaint::Nv12Multiplanar {
                                texture: &texture,
                                native_size,
                                color_transform,
                            },
                        ),
                    )
                },
                SurfaceSource::Nv12Texture { y_texture, cb_cr_texture, native_size } => result
                    == Some(
                    (
                        native_size,
                        SurfacePaint::Nv12WithColorTransform {
                            y_texture: &y_texture,
                            cb_cr_texture: &cb_cr_texture,
                            native_size,
                            color_transform: Nv12ColorTransform::full_range(),
                        },
                    ),
                ),
            },
    {
        match &self.source {
            SurfaceSource::Surface(buffer) => {
                let size = Size {
                    width: #[verifier::truncate] (buffer.width as i32),
                    height: #[verifier::truncate] (buffer.height as i32),
                };
                Some((size, SurfacePaint::PixelBuffer(&buffer.buffer)))
            },
            SurfaceSource::Rgba(source) => Some(
                (source.native_size, SurfacePaint::Rgba(&source.source)),
            ),
            SurfaceSource::Nv12(source) => Some(
                (source.native_size, SurfacePaint::Nv12(&source.source)),
            ),
            SurfaceSource::Nv12TextureWithColorTransform {
                y_texture,
                cb_cr_texture,
                native_size,
                color_transform,
            } => Some(
                (
                    *native_size,
                    SurfacePaint::Nv12WithColorTransform {
                        y_texture,
                        cb_cr_texture,
                        native_size: *native_size,
                        color_transform: *color_transform,
                    },
                ),
            ),
            SurfaceSource::Nv12MultiplanarTexture { texture, native_size, color_transform } => Some(
                (
                    *native_size,
                    SurfacePaint::Nv12Multiplanar {
                        texture,
                        native_size: *native_size,
                        color_transform: *color_transform,
                    },
                ),
            ),
            SurfaceSource::Nv12Texture { y_texture, cb_cr_texture, native_size } => Some(
                (
                    *native_size,
                    SurfacePaint::Nv12WithColorTransform {
                        y_texture,
                        cb_cr_texture,
                        native_size: *native_size,
                        color_transform: Nv12ColorTransform::default(),
                    },
                ),
            ),
        }
    }
}

/// A surface is laid out with the aspect ratio of the very size that its content
/// is fitted by when it is painted: the width over the height of its native
/// size. For a pixel buffer these are its own width and height.
pub proof fn layout_and_paint_go_by_the_native_size<H: GpuHandles>(surface: Surface<H>)
    ensures
        !(surface.source is Surface) ==> {
            &&& surface.content_extent().0 == surface.native_size().width
            &&& surface.content_extent().1 == surface.native_size().height
            &&& surface.ratio() is Some <==> surface.native_size().height > 0
            &&& surface.ratio() matches Some(ratio) ==> ratio.width == surface.native_size().width
                && ratio.height == surface.native_size().height
        },
        surface.source matches SurfaceSource::Surface(buffer) ==> {
            &&& surface.ratio() is Some <==> buffer.height > 0
            &&& surface.ratio() matches Some(ratio) ==> ratio.width == buffer.width && ratio.height
                == buffer.height
        },
        match surface.source {
            SurfaceSource::Surface(buffer) => {
                &&& surface.content_extent().0 == buffer.width
                &&& surface.content_extent().1 == buffer.height
                &&& buffer.width <= i32::MAX ==> surface.native_size().width == buffer.width
                &&& buffer.height <= i32::MAX ==> surface.native_size().height == buffer.height
            },
            SurfaceSource::Rgba(source) => surface.native_size() == source.native_size,
            SurfaceSource::Nv12(source) => surface.native_size() == source.native_size,
            SurfaceSource::Nv12Texture { native_size, .. } => surface.native_size() == native_size,
            SurfaceSource::Nv12TextureWithColorTransform { native_size, .. } => {
                surface.native_size() == native_size
            },
            SurfaceSource::Nv12MultiplanarTexture { native_size, .. } => surface.native_size()
                == native_size,
        },
{
}

/// How content is laid out and which call paints it do not depend on how it is
/// fitted, which is so that it is seen whole unless something else is asked for.
/// Content with an aspect ratio is laid out as large as its parent.
pub proof fn fit_changes_neither_layout_nor_paint<H: GpuHandles>(
    surface: Surface<H>,
    object_fit: ObjectFit,
)
    ensures
        ({
            let fitted = surface.fitted(object_fit);
            &&& fitted.object_fit == object_fit
            &&& fitted.source == surface.source
            &&& fitted.fills() == surface.fills()
            &&& surface.fills() <==> surface.ratio() is Some
            &&& Surface::whole(surface.source).source == surface.source
            &&& Surface::whole(surface.source).object_fit == ObjectFit::Contain
            &&& fitted.content_extent() == surface.content_extent()
            &&& fitted.native_size() == surface.native_size()
            &&& fitted.painted() == surface.painted()
        }),
{
}

/// Content is painted with its own buffer, textures and color conversion, and
/// planes are handed over as what they are, with the size that the content is
/// fitted by. Two planes without a conversion of their own are painted like the
/// same planes with the default one.
pub proof fn content_is_painted_as_it_is<H: GpuHandles>(surface: Surface<H>, plain: Surface<H>)
    requires
        surface.source matches SurfaceSource::Nv12TextureWithColorTransform {
            y_texture,
            cb_cr_texture,
            native_size,
            ..
        } ==> plain.source == (SurfaceSource::Nv12Texture {
            y_texture,
            cb_cr_texture,
            native_size,
        }),
    ensures
        match (surface.source, surface.painted()) {
            (SurfaceSource::Surface(buffer), SurfacePaint::PixelBuffer(painted)) => *painted
                == buffer.buffer,
            (SurfaceSource::Rgba(source), SurfacePaint::Rgba(painted)) => *painted == source.source,
            (SurfaceSource::Nv12(source), SurfacePaint::Nv12(painted)) => *painted == source.source,
            (
                SurfaceSource::Nv12Texture { y_texture, cb_cr_texture, native_size },
                SurfacePaint::Nv12WithColorTransform {
                    y_texture: luma,
                    cb_cr_texture: chroma,
                    native_size: size,
                    color_transform,
                },
            ) => {
                &&& *luma == y_texture
                &&& *chroma == cb_cr_texture
                &&& size == native_size
                &&& color_transform == Nv12ColorTransform::full_range()
            },
            (
                SurfaceSource::Nv12TextureWithColorTransform {
                    y_texture,
                    cb_cr_texture,
                    native_size,
                    color_transform: own,
                },
                SurfacePaint::Nv12WithColorTransform {
                    y_texture: luma,
                    cb_cr_texture: chroma,
                    native_size: size,
                    color_transform,
                },
            ) => {
                &&& *luma == y_texture
                &&& *chroma == cb_cr_texture
                &&& size == native_size
                &&& color_transform == own
                &&& own == Nv12ColorTransform::full_range() ==> plain.painted()
                    == surface.painted()
            },
            (
                SurfaceSource::Nv12MultiplanarTexture { texture, native_size, color_transform: own },
                SurfacePaint::Nv12Multiplanar {
                    texture: painted,
                    native_size: size,
                    color_transform,
                },
            ) => {
                &&& *painted == texture
                &&& size == native_size
                &&& color_transform == own
            },
            _ => false,
        },
{
}

/// Content that is made of planes, a size and a color conversion has them, in
/// the order in which they were given.
pub proof fn sources_keep_their_parts<H: GpuHandles>(
    first: SharedTexture<H>,
    second: SharedTexture<H>,
    size: Size,
    transform: Nv12ColorTransform,
    buffer: PixelBuffer<H>,
    picture: RgbaTextureSource<H>,
    video: Nv12TextureSource<H>,
)
    ensures
        ({
            let plain = <SurfaceSource<H> as FromSpec<_>>::from_spec((first, second, size));
            let converted = <SurfaceSource<H> as FromSpec<_>>::from_spec(
                (first, second, size, transform),
            );
            let whole = <SurfaceSource<H> as FromSpec<_>>::from_spec((first, size, transform));
            &&& plain matches SurfaceSource::Nv12Texture { y_texture, cb_cr_texture, native_size }
            &&& y_texture == first && cb_cr_texture == second && native_size == size
            &&& converted matches SurfaceSource::Nv12TextureWithColorTransform {
                y_texture,
                cb_cr_texture,
                native_size,
                color_transform,
            }
            &&& y_texture == first && cb_cr_texture == second && native_size == size
            &&& color_transform == transform
            &&& whole matches SurfaceSource::Nv12MultiplanarTexture {
                texture,
                native_size,
                color_transform,
            }
            &&& texture == first && native_size == size && color_transform == transform
            &&& <SurfaceSource<H> as FromSpec<_>>::from_spec(buffer)
                == SurfaceSource::<H>::Surface(buffer)
            &&& <SurfaceSource<H> as FromSpec<_>>::from_spec(picture)
                == SurfaceSource::<H>::Rgba(picture)
            &&& <SurfaceSource<H> as FromSpec<_>>::from_spec(video)
                == SurfaceSource::<H>::Nv12(video)
        }),
{
}

} // verus!
