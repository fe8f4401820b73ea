//! The instance records that paths and pictures become.
use crate::outside::{big_endian, little_endian, words_to_bytes};
use crate::params::{Bounds, PodBounds, SurfaceInstance};
use crate::scene::{
    vertex_total, PaintSurface, PathVertex, Scene, ScenePath, PATH_RASTERIZATION_VERTEX_SIZE,
    PATH_SPRITE_SIZE,
};
use std::ops::Range;
use vstd::prelude::*;

verus! {

/// One vertex of a path, as a record of instance memory.
#[derive(Clone, Copy, Debug, PartialEq, Eq)]
pub struct PathRasterizationVertex {
    pub xy_position: [u32; 2],
    pub st_position: [u32; 2],
    pub color: [u32; 18],
    pub bounds: PodBounds,
}

impl PathRasterizationVertex {
    /// The record of a path's vertex: where it lies, with the path's color and
    /// clipped bounds.
    pub open spec fn of(path: ScenePath, vertex: PathVertex) -> PathRasterizationVertex {
        PathRasterizationVertex {
            xy_position: vertex.xy_position,
            st_position: vertex.st_position,
            color: path.color,
            bounds: PodBounds::of(path.clipped_bounds),
        }
    }

    /// The words in shader order.
    pub open spec fn words(self) -> Seq<u32> {
        self.xy_position@ + self.st_position@ + self.color@ + self.bounds.words()
    }
}

/// The records of one path's vertices.
pub open spec fn path_vertices(path: ScenePath) -> Seq<PathRasterizationVertex> {
    path.vertices@.map_values(|vertex: PathVertex| PathRasterizationVertex::of(path, vertex))
}

/// The records of a run of paths, one path's vertices after the other's.
pub open spec fn rasterization_vertices(paths: Seq<ScenePath>) -> Seq<PathRasterizationVertex>
    decreases paths.len(),
{
    if paths.len() == 0 {
        Seq::empty()
    } else {
        rasterization_vertices(paths.drop_last()) + path_vertices(paths.last())
    }
}

/// A run of paths becomes as many records as it has vertices.
pub proof fn every_vertex_becomes_one_record(paths: Seq<ScenePath>)
    ensures
        rasterization_vertices(paths).len() == vertex_total(paths),
    decreases paths.len(),
{
    if paths.len() > 0 {
        every_vertex_becomes_one_record(paths.drop_last());
    }
}

/// The records of the paths within `range`, one path's vertices after the
/// other's.
pub fn path_rasterization_vertices(scene: &Scene, range: Range<usize>) -> (result: Vec<
    PathRasterizationVertex,
>)
    requires
        range.start <= range.end <= scene.paths@.len(),
    ensures
        result@ == rasterization_vertices(
            scene.paths@.subrange(range.start as int, range.end as int),
        ),
        result@.len() == vertex_total(
            scene.paths@.subrange(range.start as int, range.end as int),
        ),
{
    let ghost paths = scene.paths@.subrange(range.start as int, range.end as int);
    let mut records: Vec<PathRasterizationVertex> = Vec::new();
    let mut index: usize = range.start;
    while index < range.end
        invariant
            range.start <= index <= range.end <= scene.paths@.len(),
            paths == scene.paths@.subrange(range.start as int, range.end as int),
            records@ == rasterization_vertices(paths.take(index - range.start)),
        decreases range.end - index,
    {
        let path: &ScenePath = &scene.paths[index];
        let ghost before = records@;
        let bounds = PodBounds::from(path.clipped_bounds);
        let mut number: usize = 0;
        while number < path.vertices.len()
            invariant
                number <= path.vertices@.len(),
                bounds == PodBounds::of(path.clipped_bounds),
                records@ == before + path_vertices(*path).take(number as int),
            decreases path.vertices@.len() - number,
        {
            let vertex: PathVertex = path.vertices[number];
            records.push(
                PathRasterizationVertex {
                    xy_position: vertex.xy_position,
                    st_position: vertex.st_position,
                    color: path.color,
                    bounds,
                },
            );
            number = number + 1;
            assert(records@ =~= before + path_vertices(*path).take(number as int));
        }
        proof {
            let next = paths.take(index - range.start + 1);
            assert(next.drop_last() =~= paths.take(index - range.start));
            assert(next.last() == *path);
            assert(path_vertices(*path).take(number as int) =~= path_vertices(*path));
        }
        index = index + 1;
    }
    proof {
        assert(paths.take(range.end - range.start) =~= paths);
        every_vertex_becomes_one_record(paths);
    }
    records
}

/// The words of a run of vertex records, in shader order.
pub open spec fn vertex_words(records: Seq<PathRasterizationVertex>) -> Seq<u32>
    decreases records.len(),
{
    if records.len() == 0 {
        Seq::empty()
    } else {
        vertex_words(records.drop_last()) + records.last().words()
    }
}

proof fn lemma_vertex_words_len(records: Seq<PathRasterizationVertex>)
    ensures
        vertex_words(records).len() * 4 == records.len() * PATH_RASTERIZATION_VERTEX_SIZE,
    decreases records.len(),
{
    if records.len() > 0 {
        lemma_vertex_words_len(records.drop_last());
    }
}

/// The bytes of vertex records, to upload.
pub fn path_vertex_bytes(records: &Vec<PathRasterizationVertex>) -> (result: Vec<u8>)
    ensures
        result@ == little_endian(vertex_words(records@)) || result@ == big_endian(
            vertex_words(records@),
        ),
        result@.len() == records@.len() * PATH_RASTERIZATION_VERTEX_SIZE,
{
    let mut words: Vec<u32> = Vec::new();
    let mut index: usize = 0;
    while index < records.len()
        invariant
            index <= records@.len(),
            words@ == vertex_words(records@.take(index as int)),
        decreases records@.len() - index,
    {
        let record: &PathRasterizationVertex = &records[index];
        let ghost before = words@;
        words.push(record.xy_position[0]);
        words.push(record.xy_position[1]);
        words.push(record.st_position[0]);
        words.push(record.st_position[1]);
        let mut number: usize = 0;
        while number < 18
            invariant
                number <= 18,
                words@ == before + record.xy_position@ + record.st_position@ + record.color@.take(
                    number as int,
                ),
            decreases 18 - number,
        {
            words.push(record.color[number]);
            number = number + 1;
            assert(words@ =~= before + record.xy_position@ + record.st_position@
                + record.color@.take(number as int));
        }
        words.push(record.bounds.origin[0]);
        words.push(record.bounds.origin[1]);
        words.push(record.bounds.size[0]);
        words.push(record.bounds.size[1]);
        proof {
            let next = records@.take(index + 1);
            assert(next.drop_last() =~= records@.take(index as int));
            assert(next.last() == *record);
            assert(words@ =~= before + record.words());
        }
        index = index + 1;
    }
    proof {
        assert(records@.take(records@.len() as int) =~= records@);
        lemma_vertex_words_len(records@);
    }
    words_to_bytes(&words)
}

/// The sprites that paths are drawn as: one for each path, or one for all of
/// them, as large as their union.
pub open spec fn sprites_of(paths: Seq<ScenePath>, merged: bool, union: Bounds) -> Seq<PodBounds> {
    if merged {
        seq![PodBounds::of(union)]
    } else {
        paths.map_values(|path: ScenePath| PodBounds::of(path.clipped_bounds))
    }
}

/// The sprites that the paths within `range` are drawn as. `union` is the union
/// of their clipped bounds.
pub fn path_sprites(scene: &Scene, range: Range<usize>, merged: bool, union: Bounds) -> (result:
    Vec<PodBounds>)
    requires
        range.start <= range.end <= scene.paths@.len(),
    ensures
        result@ == sprites_of(
            scene.paths@.subrange(range.start as int, range.end as int),
            merged,
            union,
        ),
{
    if merged {
        return vec![PodBounds::from(union)];
    }
    let ghost sprites = sprites_of(
        scene.paths@.subrange(range.start as int, range.end as int),
        merged,
        union,
    );
    let mut records: Vec<PodBounds> = Vec::new();
    let mut index: usize = range.start;
    while index < range.end
        invariant
            range.start <= index <= range.end <= scene.paths@.len(),
            !merged,
            sprites == sprites_of(
                scene.paths@.subrange(range.start as int, range.end as int),
                merged,
                union,
            ),
            records@ == sprites.take(index - range.start),
        decreases range.end - index,
    {
        records.push(PodBounds::from(scene.paths[index].clipped_bounds));
        index = index + 1;
        assert(records@ =~= sprites.take(index - range.start));
    }
    assert(sprites.take(range.end - range.start) =~= sprites);
    records
}

/// The words of a run of sprites, in shader order.
pub open spec fn sprite_words(records: Seq<PodBounds>) -> Seq<u32>
    decreases records.len(),
{
    if records.len() == 0 {
        Seq::empty()
    } else {
        sprite_words(records.drop_last()) + records.last().words()
    }
}

proof fn lemma_sprite_words_len(records: Seq<PodBounds>)
    ensures
        sprite_words(records).len() * 4 == records.len() * PATH_SPRITE_SIZE,
    decreases records.len(),
{
    if records.len() > 0 {
        lemma_sprite_words_len(records.drop_last());
    }
}

/// The bytes of sprites, to upload.
pub fn path_sprite_bytes(records: &Vec<PodBounds>) -> (result: Vec<u8>)
    ensures
        result@ == little_endian(sprite_words(records@)) || result@ == big_endian(
            sprite_words(records@),
        ),
        result@.len() == records@.len() * PATH_SPRITE_SIZE,
{
    let mut words: Vec<u32> = Vec::new();
    let mut index: usize = 0;
    while index < records.len()
        invariant
            index <= records@.len(),
            words@ == sprite_words(records@.take(index as int)),
        decreases records@.len() - index,
    {
        let record: &PodBounds = &records[index];
        let ghost before = words@;
        words.push(record.origin[0]);
        words.push(record.origin[1]);
        words.push(record.size[0]);
        words.push(record.size[1]);
        proof {
            let next = records@.take(index + 1);
            assert(next.drop_last() =~= records@.take(index as int));
            assert(next.last() == *record);
            assert(words@ =~= before + record.words());
        }
        index = index + 1;
    }
    proof {
        assert(records@.take(records@.len() as int) =~= records@);
        lemma_sprite_words_len(records@);
    }
    words_to_bytes(&words)
}

/// The record of a picture surface.
pub open spec fn picture_record(surface: PaintSurface) -> SurfaceInstance {
    SurfaceInstance {
        bounds: PodBounds::of(surface.bounds),
        content_mask: PodBounds::of(surface.content_mask),
    }
}

/// The record of the picture surface at `index`.
pub fn surface_instance(scene: &Scene, index: usize) -> (result: SurfaceInstance)
    requires
        index < scene.surfaces@.len(),
    ensures
        result == picture_record(scene.surfaces@[index as int]),
        result == (SurfaceInstance {
            bounds: PodBounds::of(scene.surfaces@[index as int].bounds),
            content_mask: PodBounds::of(scene.surfaces@[index as int].content_mask),
        }),
{
    SurfaceInstance {
        bounds: PodBounds::from(scene.surfaces[index].bounds),
        content_mask: PodBounds::from(scene.surfaces[index].content_mask),
    }
}

} // verus!
