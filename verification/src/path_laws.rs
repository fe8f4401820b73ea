//! What the records of paths and pictures hold.
use crate::params::{Bounds, PodBounds};
use crate::path_records::{
    every_vertex_becomes_one_record, picture_record, rasterization_vertices, sprite_words,
    sprites_of, vertex_words, PathRasterizationVertex,
};
use crate::scene::{vertex_total, vertex_totals_add_up, PaintSurface, ScenePath};
use vstd::prelude::*;

verus! {

/// The vertices of two runs of paths are those of the first and, behind them,
/// those of the second.
pub proof fn runs_of_paths_follow_each_other(first: Seq<ScenePath>, second: Seq<ScenePath>)
    ensures
        rasterization_vertices(first + second) == rasterization_vertices(first)
            + rasterization_vertices(second),
    decreases second.len(),
{
    if second.len() == 0 {
        assert(first + second =~= first);
        assert(rasterization_vertices(first) + rasterization_vertices(second)
            =~= rasterization_vertices(first));
    } else {
        runs_of_paths_follow_each_other(first, second.drop_last());
        assert((first + second).drop_last() =~= first + second.drop_last());
        assert(rasterization_vertices(first + second) =~= rasterization_vertices(first)
            + rasterization_vertices(second));
    }
}

/// Each vertex of each path has a record: behind those of the paths before and
/// of the path's vertices before it, with the vertex's own positions, and with
/// the color and the clipped bounds of its own path.
pub proof fn vertex_records_hold_their_vertex(paths: Seq<ScenePath>, path: int, number: int)
    requires
        0 <= path < paths.len(),
        0 <= number < paths[path].vertices@.len(),
    ensures
        ({
            let index = vertex_total(paths.take(path)) + number;
            let record = rasterization_vertices(paths)[index];
            let vertex = paths[path].vertices@[number];
            &&& index < rasterization_vertices(paths).len()
            &&& record.xy_position == vertex.xy_position
            &&& record.st_position == vertex.st_position
            &&& record.color == paths[path].color
            &&& record.bounds.origin[0] == paths[path].clipped_bounds.x
            &&& record.bounds.origin[1] == paths[path].clipped_bounds.y
            &&& record.bounds.size[0] == paths[path].clipped_bounds.width
            &&& record.bounds.size[1] == paths[path].clipped_bounds.height
        }),
{
    let before = paths.take(path);
    let from = paths.subrange(path, path + 1);
    let after = paths.skip(path + 1);
    assert(paths =~= before + from + after);
    runs_of_paths_follow_each_other(before + from, after);
    runs_of_paths_follow_each_other(before, from);
    every_vertex_becomes_one_record(before);
    every_vertex_becomes_one_record(from);
    every_vertex_becomes_one_record(paths);
    vertex_totals_add_up(before + from, after);
    vertex_totals_add_up(before, from);
    assert(from.drop_last() =~= Seq::<ScenePath>::empty());
    assert(from.last() == paths[path]);
    assert(vertex_total(from.drop_last()) == 0);
    assert(rasterization_vertices(from.drop_last()).len() == 0);
}

/// A run of vertex records is laid out record after record, 26 words each:
/// two positions, the color and the bounds.
pub proof fn vertex_records_are_laid_out_in_order(
    records: Seq<PathRasterizationVertex>,
    number: int,
    word: int,
)
    requires
        0 <= number < records.len(),
        0 <= word < 26,
    ensures
        vertex_words(records).len() == 26 * records.len(),
        ({
            let record = records[number];
            vertex_words(records)[26 * number + word] == if word < 2 {
                record.xy_position@[word]
            } else if word < 4 {
                record.st_position@[word - 2]
            } else if word < 22 {
                record.color@[word - 4]
            } else if word < 24 {
                record.bounds.origin@[word - 22]
            } else {
                record.bounds.size@[word - 24]
            }
        }),
    decreases records.len(),
{
    lemma_vertex_words_count(records);
    lemma_vertex_words_count(records.drop_last());
    if number < records.len() - 1 {
        vertex_records_are_laid_out_in_order(records.drop_last(), number, word);
        assert(records.drop_last()[number] == records[number]);
    }
}

proof fn lemma_vertex_words_count(records: Seq<PathRasterizationVertex>)
    ensures
        vertex_words(records).len() == 26 * records.len(),
    decreases records.len(),
{
    if records.len() > 0 {
        lemma_vertex_words_count(records.drop_last());
    }
}

/// Paths that are drawn one by one have a sprite each, in order and as large as
/// what is seen of the path. Paths that are drawn at once have one for all of
/// them, as large as their union.
pub proof fn sprites_cover_their_paths(paths: Seq<ScenePath>, union: Bounds, number: int)
    requires
        0 <= number < paths.len(),
    ensures
        ({
            let single = sprites_of(paths, false, union);
            let merged = sprites_of(paths, true, union);
            let bounds = paths[number].clipped_bounds;
            &&& single.len() == paths.len()
            &&& single[number].origin@ == seq![bounds.x, bounds.y]
            &&& single[number].size@ == seq![bounds.width, bounds.height]
            &&& merged.len() == 1
            &&& merged[0].origin@ == seq![union.x, union.y]
            &&& merged[0].size@ == seq![union.width, union.height]
        }),
{
    let single = sprites_of(paths, false, union);
    let merged = sprites_of(paths, true, union);
    let bounds = paths[number].clipped_bounds;
    assert(single[number].origin@ =~= seq![bounds.x, bounds.y]);
    assert(single[number].size@ =~= seq![bounds.width, bounds.height]);
    assert(merged[0].origin@ =~= seq![union.x, union.y]);
    assert(merged[0].size@ =~= seq![union.width, union.height]);
}

/// A run of sprites is laid out sprite after sprite, four words each: origin
/// and size.
pub proof fn sprites_are_laid_out_in_order(records: Seq<PodBounds>, number: int, word: int)
    requires
        0 <= number < records.len(),
        0 <= word < 4,
    ensures
        sprite_words(records).len() == 4 * records.len(),
        sprite_words(records)[4 * number + word] == if word < 2 {
            records[number].origin@[word]
        } else {
            records[number].size@[word - 2]
        },
    decreases records.len(),
{
    lemma_sprite_words_count(records);
    lemma_sprite_words_count(records.drop_last());
    if number < records.len() - 1 {
        sprites_are_laid_out_in_order(records.drop_last(), number, word);
        assert(records.drop_last()[number] == records[number]);
    }
}

proof fn lemma_sprite_words_count(records: Seq<PodBounds>)
    ensures
        sprite_words(records).len() == 4 * records.len(),
    decreases records.len(),
{
    if records.len() > 0 {
        lemma_sprite_words_count(records.drop_last());
    }
}

/// A picture's record holds where the picture lies and, behind that, what limits
/// it. Neither depends on what the picture shows.
pub proof fn picture_records_hold_bounds_and_mask(surface: PaintSurface, other: PaintSurface)
    requires
        other.bounds == surface.bounds,
        other.content_mask == surface.content_mask,
    ensures
        picture_record(other) == picture_record(surface),
        picture_record(surface).words() == seq![
            surface.bounds.x,
            surface.bounds.y,
            surface.bounds.width,
            surface.bounds.height,
            surface.content_mask.x,
            surface.content_mask.y,
            surface.content_mask.width,
            surface.content_mask.height,
        ],
{
    assert(picture_record(surface).words() =~= seq![
        surface.bounds.x,
        surface.bounds.y,
        surface.bounds.width,
        surface.bounds.height,
        surface.content_mask.x,
        surface.content_mask.y,
        surface.content_mask.width,
        surface.content_mask.height,
    ]);
}

} // verus!
