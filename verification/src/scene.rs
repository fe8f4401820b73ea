//! What a frame draws, as far as drawing decisions depend on it.
use crate::params::{Bounds, Nv12ColorTransform};
use std::ops::Range;
use vstd::prelude::*;

verus! {

/// A rectangle of whole pixels that limits drawing.
#[derive(Clone, Copy, Debug, PartialEq, Eq, Structural)]
pub struct ScissorRect {
    pub x: u32,
    pub y: u32,
    pub width: u32,
    pub height: u32,
}

/// The content of a painted surface. Textures are named by their identity: two
/// names are equal when they name the same texture.
#[derive(Clone, Copy, Debug, PartialEq, Eq)]
pub enum SurfaceContent {
    /// A picture.
    WgpuTexture { texture: u64 },
    /// Two NV12 planes with the default color conversion.
    WgpuTextureNv12 { y_texture: u64, cb_cr_texture: u64 },
    /// Two NV12 planes with a color conversion of their own.
    WgpuTextureNv12WithColorTransform {
        y_texture: u64,
        cb_cr_texture: u64,
        color_transform: Nv12ColorTransform,
    },
    /// Both NV12 planes in one texture.
    WgpuTextureNv12Multiplanar { texture: u64, color_transform: Nv12ColorTransform },
    /// Content that another renderer draws.
    Platform,
}

/// A painted surface.
#[derive(Clone, Copy, Debug, PartialEq, Eq)]
pub struct PaintSurface {
    /// Width and height are both above zero.
    pub visible: bool,
    pub bounds: Bounds,
    pub content_mask: Bounds,
    /// The content mask in whole pixels, without its negative parts.
    pub scissor_rect: ScissorRect,
    pub content: SurfaceContent,
}

impl SurfaceContent {
    /// The content samples all of `texture` as one texture.
    pub open spec fn samples_whole(self, texture: u64) -> bool {
        match self {
            SurfaceContent::WgpuTexture { texture: candidate } => candidate == texture,
            SurfaceContent::WgpuTextureNv12Multiplanar { texture: candidate, .. } => candidate
                == texture,
            _ => false,
        }
    }
}

/// Some surface of the scene samples `texture`.
pub open spec fn surfaces_contain(surfaces: Seq<PaintSurface>, texture: u64) -> bool {
    exists|i: int|
        0 <= i < surfaces.len() && (#[trigger] surfaces[i]).content.samples_whole(texture)
}

/// Whether some surface of the scene samples `texture`.
pub fn scene_contains_texture(scene: &Scene, texture: u64) -> (result: bool)
    ensures
        result == surfaces_contain(scene.surfaces@, texture),
{
    let mut i: usize = 0;
    while i < scene.surfaces.len()
        invariant
            i <= scene.surfaces.len(),
            forall|j: int|
                0 <= j < i ==> !(#[trigger] scene.surfaces@[j]).content.samples_whole(texture),
        decreases scene.surfaces.len() - i,
    {
        let found: bool = match scene.surfaces[i].content {
            SurfaceContent::WgpuTexture { texture: candidate } => candidate == texture,
            SurfaceContent::WgpuTextureNv12Multiplanar { texture: candidate, .. } => candidate
                == texture,
            _ => false,
        };
        if found {
            assert(scene.surfaces@[i as int].content.samples_whole(texture));
            return true;
        }
        i = i + 1;
    }
    false
}

/// A vertex of a path. The words stand for numbers with fractions.
#[derive(Clone, Copy, Debug, PartialEq, Eq)]
pub struct PathVertex {
    pub xy_position: [u32; 2],
    pub st_position: [u32; 2],
}

/// A path with its place in the drawing order.
#[derive(Debug)]
pub struct ScenePath {
    pub order: u32,
    /// The background, word by word as shaders read it.
    pub color: [u32; 18],
    /// The part of the path that can be seen.
    pub clipped_bounds: Bounds,
    pub vertices: Vec<PathVertex>,
}

/// A run of primitives of one kind, in drawing order.
#[derive(Debug, PartialEq, Eq)]
pub enum PrimitiveBatch {
    Quads(Range<usize>),
    Shadows(Range<usize>),
    Paths(Range<usize>),
    Underlines(Range<usize>),
    MonochromeSprites { texture_id: u64, range: Range<usize> },
    SubpixelSprites { texture_id: u64, range: Range<usize> },
    PolychromeSprites { texture_id: u64, range: Range<usize> },
    Surfaces(Range<usize>),
}

/// A frame to draw: how many primitives there are of each kind, the paths and
/// surfaces, and the batches in drawing order.
#[derive(Debug)]
pub struct Scene {
    pub quads: usize,
    pub shadows: usize,
    pub underlines: usize,
    pub monochrome_sprites: usize,
    pub subpixel_sprites: usize,
    pub polychrome_sprites: usize,
    pub paths: Vec<ScenePath>,
    pub surfaces: Vec<PaintSurface>,
    pub batches: Vec<PrimitiveBatch>,
}

/// Bytes of one quad record.
pub const QUAD_SIZE: u64 = 160;

/// Bytes of one shadow record.
pub const SHADOW_SIZE: u64 = 112;

/// Bytes of one vertex record of path rasterization.
pub const PATH_RASTERIZATION_VERTEX_SIZE: u64 = 104;

/// Bytes of one path sprite record.
pub const PATH_SPRITE_SIZE: u64 = 16;

/// Bytes of one underline record.
pub const UNDERLINE_SIZE: u64 = 64;

/// Bytes of one monochrome sprite record.
pub const MONOCHROME_SPRITE_SIZE: u64 = 112;

/// Bytes of one subpixel sprite record.
pub const SUBPIXEL_SPRITE_SIZE: u64 = 112;

/// Bytes of one polychrome sprite record.
pub const POLYCHROME_SPRITE_SIZE: u64 = 96;

/// Vertices of a run of paths.
pub open spec fn vertex_total(paths: Seq<ScenePath>) -> nat
    decreases paths.len(),
{
    if paths.len() == 0 {
        0
    } else {
        vertex_total(paths.drop_last()) + paths.last().vertices@.len()
    }
}

/// The vertices of two runs of paths add up.
pub proof fn vertex_totals_add_up(first: Seq<ScenePath>, second: Seq<ScenePath>)
    ensures
        vertex_total(first + second) == vertex_total(first) + vertex_total(second),
    decreases second.len(),
{
    if second.len() == 0 {
        assert(first + second =~= first);
    } else {
        assert((first + second).drop_last() =~= first + second.drop_last());
        vertex_totals_add_up(first, second.drop_last());
    }
}

/// A part of a run of paths has no more vertices than the run.
pub proof fn part_has_no_more_vertices(paths: Seq<ScenePath>, start: int, end: int)
    requires
        0 <= start <= end <= paths.len(),
    ensures
        vertex_total(paths.subrange(start, end)) <= vertex_total(paths),
{
    let before = paths.take(start);
    let part = paths.subrange(start, end);
    let after = paths.skip(end);
    assert(paths =~= before + part + after);
    vertex_totals_add_up(before + part, after);
    vertex_totals_add_up(before, part);
}

/// Indices that lie within `count` items.
pub open spec fn within(range: Range<usize>, count: int) -> bool {
    range.start <= range.end && range.end <= count
}

/// Records that fit an address space.
pub open spec fn addressable(count: int, record_size: u64) -> bool {
    count * record_size <= isize::MAX
}

impl Scene {
    /// The batch draws primitives that the scene has.
    pub open spec fn has_batch(self, batch: PrimitiveBatch) -> bool {
        match batch {
            PrimitiveBatch::Quads(range) => within(range, self.quads as int),
            PrimitiveBatch::Shadows(range) => within(range, self.shadows as int),
            PrimitiveBatch::Paths(range) => within(range, self.paths@.len() as int),
            PrimitiveBatch::Underlines(range) => within(range, self.underlines as int),
            PrimitiveBatch::MonochromeSprites { range, .. } => within(
                range,
                self.monochrome_sprites as int,
            ),
            PrimitiveBatch::SubpixelSprites { range, .. } => within(
                range,
                self.subpixel_sprites as int,
            ),
            PrimitiveBatch::PolychromeSprites { range, .. } => within(
                range,
                self.polychrome_sprites as int,
            ),
            PrimitiveBatch::Surfaces(range) => within(range, self.surfaces@.len() as int),
        }
    }

    /// Every batch draws primitives that the scene has, and the records of each
    /// kind fit an address space.
    pub open spec fn wf(self) -> bool {
        &&& addressable(self.quads as int, QUAD_SIZE)
        &&& addressable(self.shadows as int, SHADOW_SIZE)
        &&& addressable(self.underlines as int, UNDERLINE_SIZE)
        &&& addressable(self.monochrome_sprites as int, MONOCHROME_SPRITE_SIZE)
        &&& addressable(self.subpixel_sprites as int, SUBPIXEL_SPRITE_SIZE)
        &&& addressable(self.polychrome_sprites as int, POLYCHROME_SPRITE_SIZE)
        &&& addressable(self.paths@.len() as int, PATH_SPRITE_SIZE)
        &&& addressable(vertex_total(self.paths@) as int, PATH_RASTERIZATION_VERTEX_SIZE)
        &&& forall|i: int|
            0 <= i < self.batches@.len() ==> self.has_batch(#[trigger] self.batches@[i])
    }
}

fn is_within(range: &Range<usize>, count: usize) -> (result: bool)
    ensures
        result == within(*range, count as int),
{
    range.start <= range.end && range.end <= count
}

fn is_addressable(count: usize, record_size: u64) -> (result: bool)
    ensures
        result == addressable(count as int, record_size),
{
    assert(count * record_size <= u64::MAX * u64::MAX) by (nonlinear_arith)
        requires
            0 <= count <= u64::MAX,
            0 <= record_size <= u64::MAX,
    ;
    count as u128 * record_size as u128 <= isize::MAX as u128
}

fn vertices_are_addressable(paths: &Vec<ScenePath>) -> (result: bool)
    ensures
        result == addressable(vertex_total(paths@) as int, PATH_RASTERIZATION_VERTEX_SIZE),
{
    let mut total: u128 = 0;
    let mut index: usize = 0;
    while index < paths.len()
        invariant
            index <= paths@.len(),
            total == vertex_total(paths@.take(index as int)),
            total <= isize::MAX,
        decreases paths@.len() - index,
    {
        proof {
            let next = paths@.take(index + 1);
            assert(next.drop_last() =~= paths@.take(index as int));
            part_has_no_more_vertices(paths@, 0, index + 1);
            assert(paths@.subrange(0, index + 1) =~= next);
        }
        total = total + paths[index].vertices.len() as u128;
        if total > isize::MAX as u128 {
            return false;
        }
        index = index + 1;
    }
    assert(paths@.take(index as int) =~= paths@);
    let record_size: u128 = PATH_RASTERIZATION_VERTEX_SIZE as u128;
    assert(total * record_size <= u64::MAX * 104) by (nonlinear_arith)
        requires
            0 <= total <= u64::MAX,
            record_size == 104,
    ;
    total * record_size <= isize::MAX as u128
}

impl Scene {
    /// Whether the batch draws primitives that the scene has.
    pub fn contains_batch(&self, batch: &PrimitiveBatch) -> (result: bool)
        ensures
            result == self.has_batch(*batch),
    {
        match batch {
            PrimitiveBatch::Quads(range) => is_within(range, self.quads),
            PrimitiveBatch::Shadows(range) => is_within(range, self.shadows),
            PrimitiveBatch::Paths(range) => is_within(range, self.paths.len()),
            PrimitiveBatch::Underlines(range) => is_within(range, self.underlines),
            PrimitiveBatch::MonochromeSprites { range, .. } => is_within(
                range,
                self.monochrome_sprites,
            ),
            PrimitiveBatch::SubpixelSprites { range, .. } => is_within(
                range,
                self.subpixel_sprites,
            ),
            PrimitiveBatch::PolychromeSprites { range, .. } => is_within(
                range,
                self.polychrome_sprites,
            ),
            PrimitiveBatch::Surfaces(range) => is_within(range, self.surfaces.len()),
        }
    }

    /// Whether every batch draws primitives that the scene has, and the records
    /// of each kind fit an address space.
    pub fn is_valid(&self) -> (result: bool)
        ensures
            result == self.wf(),
    {
        if !(is_addressable(self.quads, QUAD_SIZE) && is_addressable(self.shadows, SHADOW_SIZE)
            && is_addressable(self.underlines, UNDERLINE_SIZE) && is_addressable(
            self.monochrome_sprites,
            MONOCHROME_SPRITE_SIZE,
        ) && is_addressable(self.subpixel_sprites, SUBPIXEL_SPRITE_SIZE) && is_addressable(
            self.polychrome_sprites,
            POLYCHROME_SPRITE_SIZE,
        ) && is_addressable(self.paths.len(), PATH_SPRITE_SIZE) && vertices_are_addressable(
            &self.paths,
        )) {
            return false;
        }
        let mut index: usize = 0;
        while index < self.batches.len()
            invariant
                index <= self.batches@.len(),
                forall|i: int| 0 <= i < index ==> self.has_batch(#[trigger] self.batches@[i]),
            decreases self.batches@.len() - index,
        {
            if !self.contains_batch(&self.batches[index]) {
                assert(!self.has_batch(self.batches@[index as int]));
                return false;
            }
            index = index + 1;
        }
        true
    }
}

/// The number of primitives of the batch's kind that the scene has.
pub open spec fn primitives_of(scene: Scene, batch: PrimitiveBatch) -> int {
    match batch {
        PrimitiveBatch::Quads(_) => scene.quads as int,
        PrimitiveBatch::Shadows(_) => scene.shadows as int,
        PrimitiveBatch::Paths(_) => scene.paths@.len() as int,
        PrimitiveBatch::Underlines(_) => scene.underlines as int,
        PrimitiveBatch::MonochromeSprites { .. } => scene.monochrome_sprites as int,
        PrimitiveBatch::SubpixelSprites { .. } => scene.subpixel_sprites as int,
        PrimitiveBatch::PolychromeSprites { .. } => scene.polychrome_sprites as int,
        PrimitiveBatch::Surfaces(_) => scene.surfaces@.len() as int,
    }
}

/// The primitives that a batch draws, by their number among those of its kind.
pub open spec fn range_of(batch: PrimitiveBatch) -> Range<usize> {
    match batch {
        PrimitiveBatch::Quads(range) => range,
        PrimitiveBatch::Shadows(range) => range,
        PrimitiveBatch::Paths(range) => range,
        PrimitiveBatch::Underlines(range) => range,
        PrimitiveBatch::MonochromeSprites { range, .. } => range,
        PrimitiveBatch::SubpixelSprites { range, .. } => range,
        PrimitiveBatch::PolychromeSprites { range, .. } => range,
        PrimitiveBatch::Surfaces(range) => range,
    }
}

/// A batch belongs to a scene exactly where its primitives are among the scene's
/// primitives of its own kind. More primitives in the scene change nothing for
/// it.
pub proof fn batches_draw_primitives_of_their_own_kind(
    scene: Scene,
    larger: Scene,
    batch: PrimitiveBatch,
)
    requires
        primitives_of(scene, batch) <= primitives_of(larger, batch),
    ensures
        scene.has_batch(batch) <==> range_of(batch).start <= range_of(batch).end <= primitives_of(
            scene,
            batch,
        ),
        scene.has_batch(batch) ==> larger.has_batch(batch),
{
}

/// A scene is drawable exactly where every batch draws primitives that it has
/// and the records of each kind fit an address space.
pub proof fn drawable_scenes_have_their_batches(scene: Scene)
    ensures
        scene.wf() <==> {
            &&& scene.quads * 160 <= isize::MAX
            &&& scene.shadows * 112 <= isize::MAX
            &&& scene.underlines * 64 <= isize::MAX
            &&& scene.monochrome_sprites * 112 <= isize::MAX
            &&& scene.subpixel_sprites * 112 <= isize::MAX
            &&& scene.polychrome_sprites * 96 <= isize::MAX
            &&& scene.paths@.len() * 16 <= isize::MAX
            &&& vertex_total(scene.paths@) * 104 <= isize::MAX
            &&& forall|i: int|
                0 <= i < scene.batches@.len() ==> {
                    let batch = #[trigger] scene.batches@[i];
                    range_of(batch).start <= range_of(batch).end <= primitives_of(scene, batch)
                }
        },
{
    assert forall|i: int| 0 <= i < scene.batches@.len() implies {
        let batch = #[trigger] scene.batches@[i];
        scene.has_batch(batch) <==> range_of(batch).start <= range_of(batch).end <= primitives_of(
            scene,
            batch,
        )
    } by {}
}

} // verus!
