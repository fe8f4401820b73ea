//! What a recorded frame shows of its scene.
use crate::device::{TexelFormat, TextureViewDimension};
use crate::draw::{
    plane_view, DrawBinding, DrawRange, DrawTexture, FrameCommand, FrameError, FrameTargets,
    GlobalsKind, InstanceSource, PassTarget, PipelineKind, PlaneView, TextureAspect,
    MONOCHROME_SPRITES_BINDING, POLYCHROME_SPRITES_BINDING, QUADS_BINDING, SHADOWS_BINDING,
    SUBPIXEL_SPRITES_BINDING, UNDERLINES_BINDING,
};
use crate::frame::{bound_adds_one_binding, main_pass, path_pass, scene_primitives, RecordedFrame};
use crate::frame_scene::lemma_batches_continue;
use crate::frame_surfaces::surface_video;
use crate::params::{Bounds, Nv12ColorTransform};
use crate::path_records::{every_vertex_becomes_one_record, rasterization_vertices, sprites_of};
use crate::scene::{
    addressable, part_has_no_more_vertices, vertex_total, PaintSurface, PrimitiveBatch, Scene,
    ScenePath, SurfaceContent,
};
use std::ops::Range;
use vstd::prelude::*;

verus! {

impl RecordedFrame {
    /// Each kind of primitive has a binding of its own, as many records as the
    /// scene has primitives of the kind, and indices that fit a draw.
    pub open spec fn ready_for(self, scene: Scene) -> bool {
        &&& self.holds(scene)
        &&& self.bindings[QUADS_BINDING as int].source == InstanceSource::Quads
        &&& self.bindings[SHADOWS_BINDING as int].source == InstanceSource::Shadows
        &&& self.bindings[UNDERLINES_BINDING as int].source == InstanceSource::Underlines
        &&& self.bindings[MONOCHROME_SPRITES_BINDING as int].source
            == InstanceSource::MonochromeSprites
        &&& self.bindings[SUBPIXEL_SPRITES_BINDING as int].source
            == InstanceSource::SubpixelSprites
        &&& self.bindings[POLYCHROME_SPRITES_BINDING as int].source
            == InstanceSource::PolychromeSprites
        &&& forall|i: int|
            0 <= i < 6 ==> (#[trigger] self.bindings[i]).allocation.first_instance
                + self.bindings[i].count <= u32::MAX
    }
}

proof fn lemma_primitives_bound(frame: RecordedFrame, scene: Scene, number: nat)
    requires
        frame.wf(),
        frame.bindings.len() == 0,
        scene.wf(),
        number <= 6,
    ensures
        frame.primitives_bound(scene, number).0.wf(),
        frame.primitives_bound(scene, number).0.commands == frame.commands,
        frame.primitives_bound(scene, number).0.videos == frame.videos,
        frame.primitives_bound(scene, number).1 is None ==> {
            let after = frame.primitives_bound(scene, number).0;
            &&& after.bindings.len() == number
            &&& forall|i: int|
                0 <= i < number ==> {
                    let binding = #[trigger] after.bindings[i];
                    &&& binding.label == scene_primitives(scene, i).0
                    &&& binding.source == scene_primitives(scene, i).1
                    &&& binding.count == scene_primitives(scene, i).2
                }
        },
    decreases number,
{
    if number > 0 {
        lemma_primitives_bound(frame, scene, (number - 1) as nat);
        let (before, error) = frame.primitives_bound(scene, (number - 1) as nat);
        let (label, source, count) = scene_primitives(scene, number - 1);
        if error is None {
            assert(addressable(count as int, source.stride()));
            bound_adds_one_binding(before, label, source, count);
            let after = frame.primitives_bound(scene, number).0;
            if frame.primitives_bound(scene, number).1 is None {
                assert forall|i: int| 0 <= i < number implies {
                    let binding = #[trigger] after.bindings[i];
                    &&& binding.label == scene_primitives(scene, i).0
                    &&& binding.source == scene_primitives(scene, i).1
                    &&& binding.count == scene_primitives(scene, i).2
                } by {
                    if i < number - 1 {
                        assert(after.bindings[i] == before.bindings[i]);
                    }
                }
            }
        }
    }
}

/// Once the scene's primitives are bound, each kind has a binding of its own
/// with exactly the scene's primitives of that kind. Nothing is drawn yet.
pub proof fn primitives_are_bound_kind_by_kind(frame: RecordedFrame, scene: Scene)
    requires
        frame.wf(),
        frame.bindings.len() == 0,
        scene.wf(),
        frame.primitives_bound(scene, 6).1 is None,
    ensures
        ({
            let after = frame.primitives_bound(scene, 6).0;
            &&& after.wf()
            &&& after.ready_for(scene)
            &&& after.bindings.len() == 6
            &&& after.commands == frame.commands
            &&& after.videos == frame.videos
            &&& forall|i: int| 0 <= i < 6 ==> (#[trigger] after.bindings[i]).texture is None
        }),
{
    lemma_primitives_bound(frame, scene, 6);
    lemma_primitives_have_no_texture(frame, scene, 6);
}

proof fn lemma_primitives_have_no_texture(frame: RecordedFrame, scene: Scene, number: nat)
    requires
        frame.bindings.len() == 0,
    ensures
        forall|i: int|
            0 <= i < frame.primitives_bound(scene, number).0.bindings.len() ==> (
            #[trigger] frame.primitives_bound(scene, number).0.bindings[i]).texture is None,
    decreases number,
{
    reveal(RecordedFrame::bound);
    if number > 0 {
        lemma_primitives_have_no_texture(frame, scene, (number - 1) as nat);
    }
}

/// A batch of quads, shadows, underlines or sprites is one draw of exactly its
/// own records: those of the batch's range among the records of its kind, with
/// the atlas texture of the batch and the pipeline of its kind. A batch without
/// records draws nothing. Neither binds anything.
pub proof fn batch_draws_its_own_records(
    frame: RecordedFrame,
    scene: Scene,
    batch: PrimitiveBatch,
    targets: FrameTargets,
)
    requires
        frame.ready_for(scene),
        scene.has_batch(batch),
        !(batch is Paths),
        !(batch is Surfaces),
    ensures
        ({
            let (after, error) = frame.batch_recorded(scene, batch, targets);
            let (kind, range, texture, pipeline) = match batch {
                PrimitiveBatch::Quads(range) => (
                    InstanceSource::Quads,
                    range,
                    DrawTexture::Nothing,
                    PipelineKind::Quads,
                ),
                PrimitiveBatch::Shadows(range) => (
                    InstanceSource::Shadows,
                    range,
                    DrawTexture::Nothing,
                    PipelineKind::Shadows,
                ),
                PrimitiveBatch::Underlines(range) => (
                    InstanceSource::Underlines,
                    range,
                    DrawTexture::Nothing,
                    PipelineKind::Underlines,
                ),
                PrimitiveBatch::MonochromeSprites { texture_id, range } => (
                    InstanceSource::MonochromeSprites,
                    range,
                    DrawTexture::Atlas(texture_id),
                    PipelineKind::MonoSprites,
                ),
                PrimitiveBatch::SubpixelSprites { texture_id, range } => (
                    InstanceSource::SubpixelSprites,
                    range,
                    DrawTexture::Atlas(texture_id),
                    if targets.subpixel_sprites {
                        PipelineKind::SubpixelSprites
                    } else {
                        PipelineKind::MonoSprites
                    },
                ),
                PrimitiveBatch::PolychromeSprites { texture_id, range } => (
                    InstanceSource::PolychromeSprites,
                    range,
                    DrawTexture::Atlas(texture_id),
                    PipelineKind::PolySprites,
                ),
                PrimitiveBatch::Paths(range) | PrimitiveBatch::Surfaces(range) => (
                    InstanceSource::Quads,
                    range,
                    DrawTexture::Nothing,
                    PipelineKind::Quads,
                ),
            };
            &&& error is None
            &&& after.memory == frame.memory
            &&& after.offset == frame.offset
            &&& after.bindings == frame.bindings
            &&& after.videos == frame.videos
            &&& range.start >= range.end ==> after.commands == frame.commands
            &&& range.start < range.end ==> {
                &&& after.commands.len() == frame.commands.len() + 1
                &&& after.commands.drop_last() == frame.commands
                &&& after.commands.last() matches FrameCommand::Draw(draw)
                &&& draw.binding matches DrawBinding::Instances(number)
                &&& number < frame.bindings.len()
                &&& frame.bindings[number as int].source == kind
                &&& draw.instances.start - frame.bindings[number as int].allocation.first_instance
                    == range.start
                &&& draw.instances.end - frame.bindings[number as int].allocation.first_instance
                    == range.end
                &&& draw.vertices == (DrawRange { start: 0, end: 4 })
                &&& draw.texture == texture
                &&& draw.pipeline == pipeline
                &&& draw.globals == GlobalsKind::Surface
                &&& draw.scissor_rect is None
            }
        }),
{
    let after = frame.batch_recorded(scene, batch, targets).0;
    assert(after.commands =~= frame.commands || after.commands.drop_last() =~= frame.commands);
    assert(frame.bindings[0].allocation.first_instance + frame.bindings[0].count <= u32::MAX);
    assert(frame.bindings[1].allocation.first_instance + frame.bindings[1].count <= u32::MAX);
    assert(frame.bindings[2].allocation.first_instance + frame.bindings[2].count <= u32::MAX);
    assert(frame.bindings[3].allocation.first_instance + frame.bindings[3].count <= u32::MAX);
    assert(frame.bindings[4].allocation.first_instance + frame.bindings[4].count <= u32::MAX);
    assert(frame.bindings[5].allocation.first_instance + frame.bindings[5].count <= u32::MAX);
}

/// Sprites of one kind in two batches with ranges that follow each other are
/// drawn by two draws that follow each other: from the same binding, no record
/// twice and none left out, each with its own batch's texture.
pub proof fn batches_of_sprites_share_no_record(
    frame: RecordedFrame,
    scene: Scene,
    first_texture: u64,
    second_texture: u64,
    start: usize,
    middle: usize,
    end: usize,
    targets: FrameTargets,
)
    requires
        frame.ready_for(scene),
        start < middle < end,
        end <= scene.monochrome_sprites,
    ensures
        ({
            let first = PrimitiveBatch::MonochromeSprites {
                texture_id: first_texture,
                range: Range { start, end: middle },
            };
            let second = PrimitiveBatch::MonochromeSprites {
                texture_id: second_texture,
                range: Range { start: middle, end },
            };
            let between = frame.batch_recorded(scene, first, targets).0;
            let after = between.batch_recorded(scene, second, targets).0;
            let drawn = frame.commands.len() as int;
            &&& after.commands.len() == drawn + 2
            &&& after.commands[drawn] matches FrameCommand::Draw(one)
            &&& after.commands[drawn + 1] matches FrameCommand::Draw(other)
            &&& one.binding == other.binding
            &&& one.instances.end == other.instances.start
            &&& one.instances.start < one.instances.end
            &&& other.instances.end - one.instances.start == end - start
            &&& one.texture == DrawTexture::Atlas(first_texture)
            &&& other.texture == DrawTexture::Atlas(second_texture)
        }),
{
    let first = PrimitiveBatch::MonochromeSprites {
        texture_id: first_texture,
        range: Range { start, end: middle },
    };
    let second = PrimitiveBatch::MonochromeSprites {
        texture_id: second_texture,
        range: Range { start: middle, end },
    };
    batch_draws_its_own_records(frame, scene, first, targets);
    let between = frame.batch_recorded(scene, first, targets).0;
    batch_draws_its_own_records(between, scene, second, targets);
    let after = between.batch_recorded(scene, second, targets).0;
    let drawn = frame.commands.len() as int;
    assert(after.commands.drop_last()[drawn] == between.commands[drawn]);
}

proof fn lemma_with_keeps_wf(frame: RecordedFrame, command: FrameCommand)
    requires
        frame.wf(),
        frame.serves(command),
    ensures
        frame.with(command).wf(),
{
    let after = frame.with(command);
    assert forall|i: int| 0 <= i < after.commands.len() implies after.serves(
        #[trigger] after.commands[i],
    ) by {
        if i < frame.commands.len() {
            assert(after.commands[i] == frame.commands[i]);
            assert(frame.serves(frame.commands[i]));
        }
    }
}

/// The pass that is open when paths come is interrupted for them and resumed
/// with what it had drawn: a pass onto the frame that keeps its content, as the
/// frame's first pass clears it.
pub proof fn frame_passes_clear_once()
    ensures
        main_pass(false).target == PassTarget::Frame,
        main_pass(false).clear,
        main_pass(false).resolve_target is None,
        main_pass(true).target == PassTarget::Frame,
        !main_pass(true).clear,
        main_pass(true).resolve_target is None,
{
}

/// Paths are rasterized into a cleared texture, and what they leave behind is in
/// the intermediate texture: drawn there at once, or resolved into it from the
/// multisampled one.
pub proof fn paths_end_up_in_the_intermediate_texture(msaa: bool)
    ensures
        path_pass(msaa).clear,
        path_pass(msaa).target == PassTarget::PathMsaa <==> msaa,
        match path_pass(msaa).resolve_target {
            Some(target) => msaa && target == PassTarget::PathIntermediate,
            None => path_pass(msaa).target == PassTarget::PathIntermediate,
        },
{
}

/// A batch of paths without vertices draws nothing and binds nothing.
pub proof fn paths_without_vertices_bind_nothing(
    frame: RecordedFrame,
    scene: Scene,
    start: usize,
    end: usize,
    targets: FrameTargets,
)
    requires
        start < end <= scene.paths@.len(),
        forall|i: int| start <= i < end ==> (#[trigger] scene.paths@[i]).vertices@.len() == 0,
    ensures
        ({
            let batch = PrimitiveBatch::Paths(Range { start, end });
            let (after, error) = frame.batch_recorded(scene, batch, targets);
            &&& error is None
            &&& after.bindings == frame.bindings
            &&& after.offset == frame.offset
            &&& after.memory == frame.memory
            &&& forall|i: int|
                frame.commands.len() <= i < after.commands.len() ==> !(
                #[trigger] after.commands[i] is Draw)
        }),
{
    lemma_no_vertices(scene.paths@.subrange(start as int, end as int));
}

proof fn lemma_no_vertices(paths: Seq<ScenePath>)
    requires
        forall|i: int| 0 <= i < paths.len() ==> (#[trigger] paths[i]).vertices@.len() == 0,
    ensures
        vertex_total(paths) == 0,
    decreases paths.len(),
{
    if paths.len() > 0 {
        lemma_no_vertices(paths.drop_last());
    }
}

/// A batch of paths binds the vertices of exactly its own paths and rasterizes
/// all of them, outside the frame's pass, in a pass of its own; back in the
/// frame's pass it draws a sprite for each of its paths, or one for all of them
/// where they are of several orders, from the texture that they were rasterized
/// into.
pub proof fn path_batch_draws_its_own_paths(
    frame: RecordedFrame,
    scene: Scene,
    start: usize,
    end: usize,
    targets: FrameTargets,
    union: Bounds,
)
    requires
        frame.wf(),
        scene.wf(),
        frame.bindings.len() + 2 <= usize::MAX,
        start < end <= scene.paths@.len(),
        vertex_total(scene.paths@.subrange(start as int, end as int)) > 0,
        targets.path_intermediate,
        frame.batch_recorded(scene, PrimitiveBatch::Paths(Range { start, end }), targets).1 is None,
    ensures
        ({
            let batch = PrimitiveBatch::Paths(Range { start, end });
            let after = frame.batch_recorded(scene, batch, targets).0;
            let part = scene.paths@.subrange(start as int, end as int);
            let vertices = frame.bindings.len() as int;
            let sprites = vertices + 1;
            let first = frame.commands.len() as int;
            let several = scene.paths@[start as int].order != scene.paths@[end - 1].order;
            &&& after.bindings.len() == frame.bindings.len() + 2
            &&& after.bindings[vertices].source == (InstanceSource::PathVertices { start, end })
            &&& after.bindings[vertices].count == rasterization_vertices(part).len()
            &&& after.bindings[sprites].source == (InstanceSource::PathSprites {
                start,
                end,
                merged: several,
            })
            &&& after.bindings[sprites].count == sprites_of(part, several, union).len()
            &&& after.bindings[sprites].count == if several {
                1
            } else {
                end - start
            }
            &&& after.commands.len() == first + 6
            &&& after.commands.take(first) == frame.commands
            &&& after.commands[first] is EndPass
            &&& after.commands[first + 1] matches FrameCommand::BeginPass(pass)
            &&& pass == path_pass(targets.path_msaa)
            &&& after.commands[first + 2] matches FrameCommand::Draw(raster)
            &&& raster.pipeline == PipelineKind::PathRasterization
            &&& raster.globals == GlobalsKind::Paths
            &&& raster.binding == DrawBinding::Instances(vertices as usize)
            &&& raster.texture == DrawTexture::Nothing
            &&& raster.scissor_rect is None
            &&& raster.vertices.start == after.bindings[vertices].allocation.first_instance
            &&& raster.vertices.end - raster.vertices.start == rasterization_vertices(part).len()
            &&& raster.instances == (DrawRange { start: 0, end: 1 })
            &&& after.commands[first + 3] is EndPass
            &&& after.commands[first + 4] matches FrameCommand::BeginPass(resumed)
            &&& resumed == main_pass(true)
            &&& after.commands[first + 5] matches FrameCommand::Draw(drawn)
            &&& drawn.pipeline == PipelineKind::Paths
            &&& drawn.globals == GlobalsKind::Surface
            &&& drawn.binding == DrawBinding::Instances(sprites as usize)
            &&& drawn.texture == DrawTexture::PathIntermediate
            &&& drawn.scissor_rect is None
            &&& drawn.vertices == (DrawRange { start: 0, end: 4 })
            &&& drawn.instances.start == after.bindings[sprites].allocation.first_instance
            &&& drawn.instances.end - drawn.instances.start == after.bindings[sprites].count
        }),
{
    let part = scene.paths@.subrange(start as int, end as int);
    let count = vertex_total(part);
    every_vertex_becomes_one_record(part);
    part_has_no_more_vertices(scene.paths@, start as int, end as int);
    let source = InstanceSource::PathVertices { start, end };
    assert(count * 104 <= vertex_total(scene.paths@) * 104);
    let stopped = frame.with(FrameCommand::EndPass);
    lemma_with_keeps_wf(frame, FrameCommand::EndPass);
    bound_adds_one_binding(
        stopped,
        "path_rasterization_bind_group",
        source,
        count as usize,
    );
    let bound = stopped.bound("path_rasterization_bind_group", source, count as int).0;
    let vertices = frame.bindings.len() as int;
    assert(bound.bindings.last() == bound.bindings[vertices]);
    let (rasterized, answer) = stopped.paths_rasterized(scene, start, end, targets);
    let begun = bound.with(FrameCommand::BeginPass(path_pass(targets.path_msaa)));
    lemma_with_keeps_wf(bound, FrameCommand::BeginPass(path_pass(targets.path_msaa)));
    let raster = rasterized.commands[frame.commands.len() as int + 2];
    assert(begun.serves(raster));
    lemma_with_keeps_wf(begun, raster);
    lemma_with_keeps_wf(begun.with(raster), FrameCommand::EndPass);
    assert(rasterized == begun.with(raster).with(FrameCommand::EndPass));
    let resumed = rasterized.with(FrameCommand::BeginPass(main_pass(true)));
    lemma_with_keeps_wf(rasterized, FrameCommand::BeginPass(main_pass(true)));
    let merged = scene.paths@[end - 1].order != scene.paths@[start as int].order;
    let sprite_count: usize = if merged {
        1
    } else {
        (end - start) as usize
    };
    let sprite_source = InstanceSource::PathSprites { start, end, merged };
    assert(sprite_count * 16 <= scene.paths@.len() * 16);
    bound_adds_one_binding(resumed, "path_sprites_bind_group", sprite_source, sprite_count);
    let after = frame.batch_recorded(
        scene,
        PrimitiveBatch::Paths(Range { start, end }),
        targets,
    ).0;
    assert(after.commands.take(frame.commands.len() as int) =~= frame.commands);
    let sprites = resumed.bound(
        "path_sprites_bind_group",
        sprite_source,
        sprite_count as int,
    ).0;
    assert(sprites.bindings.last() == sprites.bindings[vertices + 1]);
    assert(sprites.bindings[vertices] == resumed.bindings[vertices]);
}

/// The number of records that a binding's source stands for.
pub open spec fn records_named(scene: Scene, source: InstanceSource) -> nat {
    match source {
        InstanceSource::Quads => scene.quads as nat,
        InstanceSource::Shadows => scene.shadows as nat,
        InstanceSource::Underlines => scene.underlines as nat,
        InstanceSource::MonochromeSprites => scene.monochrome_sprites as nat,
        InstanceSource::SubpixelSprites => scene.subpixel_sprites as nat,
        InstanceSource::PolychromeSprites => scene.polychrome_sprites as nat,
        InstanceSource::PathVertices { start, end } => rasterization_vertices(
            scene.paths@.subrange(start as int, end as int),
        ).len(),
        InstanceSource::PathSprites { start, end, merged } => sprites_of(
            scene.paths@.subrange(start as int, end as int),
            merged,
            Bounds { x: 0, y: 0, width: 0, height: 0 },
        ).len(),
        InstanceSource::Surface { .. } => 1,
    }
}

impl RecordedFrame {
    /// Every binding has room for exactly the records that its source stands
    /// for.
    pub open spec fn binds_whole_sources(self, scene: Scene) -> bool {
        forall|i: int|
            0 <= i < self.bindings.len() ==> (#[trigger] self.bindings[i]).count == records_named(
                scene,
                self.bindings[i].source,
            )
    }
}

proof fn lemma_bound_whole(
    frame: RecordedFrame,
    scene: Scene,
    label: &'static str,
    source: InstanceSource,
    count: int,
)
    requires
        frame.binds_whole_sources(scene),
        0 <= count <= usize::MAX,
        count == records_named(scene, source),
    ensures
        frame.bound(label, source, count).0.binds_whole_sources(scene),
{
    reveal(RecordedFrame::bound);
}

proof fn lemma_primitives_whole(frame: RecordedFrame, scene: Scene, number: nat)
    requires
        frame.binds_whole_sources(scene),
        number <= 6,
    ensures
        frame.primitives_bound(scene, number).0.binds_whole_sources(scene),
    decreases number,
{
    if number > 0 {
        lemma_primitives_whole(frame, scene, (number - 1) as nat);
        let (label, source, count) = scene_primitives(scene, number - 1);
        let (before, error) = frame.primitives_bound(scene, (number - 1) as nat);
        if error is None {
            lemma_bound_whole(before, scene, label, source, count as int);
        }
    }
}

proof fn lemma_surfaces_whole(frame: RecordedFrame, scene: Scene, start: int, end: int)
    requires
        frame.binds_whole_sources(scene),
    ensures
        frame.surfaces_scanned(scene.surfaces@, start, end).frame.binds_whole_sources(scene),
    decreases end - start,
{
    if start < end {
        lemma_surfaces_whole(frame, scene, start, end - 1);
    }
}

proof fn lemma_batch_whole(
    frame: RecordedFrame,
    scene: Scene,
    batch: PrimitiveBatch,
    targets: FrameTargets,
)
    requires
        frame.binds_whole_sources(scene),
        scene.wf(),
        scene.has_batch(batch),
    ensures
        frame.batch_recorded(scene, batch, targets).0.binds_whole_sources(scene),
{
    match batch {
        PrimitiveBatch::Paths(range) => {
            if range.start < range.end {
                let start = range.start;
                let end = range.end;
                let part = scene.paths@.subrange(start as int, end as int);
                every_vertex_becomes_one_record(part);
                part_has_no_more_vertices(scene.paths@, start as int, end as int);
                let stopped = frame.with(FrameCommand::EndPass);
                lemma_bound_whole(
                    stopped,
                    scene,
                    "path_rasterization_bind_group",
                    InstanceSource::PathVertices { start, end },
                    vertex_total(part) as int,
                );
                let rasterized = stopped.paths_rasterized(scene, start, end, targets).0;
                assert(rasterized.binds_whole_sources(scene));
                let resumed = rasterized.with(FrameCommand::BeginPass(main_pass(true)));
                assert(resumed.binds_whole_sources(scene));
                let merged = scene.paths@[end - 1].order != scene.paths@[start as int].order;
                lemma_bound_whole(
                    resumed,
                    scene,
                    "path_sprites_bind_group",
                    InstanceSource::PathSprites { start, end, merged },
                    if merged {
                        1
                    } else {
                        end - start
                    },
                );
            }
        },
        PrimitiveBatch::Surfaces(range) => {
            lemma_surfaces_whole(frame, scene, range.start as int, range.end as int);
        },
        _ => {},
    }
}

proof fn lemma_batches_whole(
    frame: RecordedFrame,
    scene: Scene,
    number: nat,
    targets: FrameTargets,
)
    requires
        frame.binds_whole_sources(scene),
        scene.wf(),
        number <= scene.batches@.len(),
    ensures
        frame.batches_recorded(scene, number, targets).0.binds_whole_sources(scene),
    decreases number,
{
    if number > 0 {
        lemma_batches_whole(frame, scene, (number - 1) as nat, targets);
        let (before, error) = frame.batches_recorded(scene, (number - 1) as nat, targets);
        assert(scene.has_batch(scene.batches@[number - 1]));
        if error is None {
            lemma_batch_whole(before, scene, scene.batches@[number - 1], targets);
        }
    }
}

/// Whatever a scene holds, every binding of its frame has room for exactly the
/// records that its source stands for.
pub proof fn every_binding_holds_its_source(
    frame: RecordedFrame,
    scene: Scene,
    targets: FrameTargets,
)
    requires
        frame.bindings.len() == 0,
        scene.wf(),
    ensures
        ({
            let bound = frame.primitives_bound(scene, 6).0;
            &&& bound.binds_whole_sources(scene)
            &&& bound.scene_recorded(scene, targets).0.binds_whole_sources(scene)
        }),
{
    lemma_primitives_whole(frame, scene, 6);
    let bound = frame.primitives_bound(scene, 6).0;
    let started = bound.with(FrameCommand::BeginPass(main_pass(false)));
    assert(started.binds_whole_sources(scene));
    lemma_batches_whole(started, scene, scene.batches@.len(), targets);
}

/// A recorded scene is one run of the frame's pass, from the scene's start to
/// its end, and each batch of quads, shadows, underlines or sprites with records
/// has its draw in there, right behind what the batches before it recorded.
pub proof fn every_batch_is_drawn_in_its_place(
    frame: RecordedFrame,
    scene: Scene,
    number: nat,
    targets: FrameTargets,
)
    requires
        frame.ready_for(scene),
        scene.wf(),
        frame.scene_recorded(scene, targets).1 is None,
        number < scene.batches@.len(),
        !(scene.batches@[number as int] is Paths),
        !(scene.batches@[number as int] is Surfaces),
    ensures
        ({
            let started = frame.with(FrameCommand::BeginPass(main_pass(false)));
            let before = started.batches_recorded(scene, number, targets).0;
            let after = started.batches_recorded(scene, number + 1, targets).0;
            let done = frame.scene_recorded(scene, targets).0;
            &&& done.commands[frame.commands.len() as int] == FrameCommand::BeginPass(
                main_pass(false),
            )
            &&& done.commands.last() is EndPass
            &&& before.ready_for(scene)
            &&& after == before.batch_recorded(scene, scene.batches@[number as int], targets).0
            &&& after.commands.is_prefix_of(done.commands)
            &&& before.bindings.is_prefix_of(done.bindings)
        }),
{
    let started = frame.with(FrameCommand::BeginPass(main_pass(false)));
    let total = scene.batches@.len();
    lemma_no_error_before(started, scene, number, total, targets);
    lemma_no_error_before(started, scene, number + 1, total, targets);
    lemma_batches_continue(started, scene, 0, number, targets);
    lemma_batches_continue(started, scene, number, total, targets);
    lemma_batches_continue(started, scene, number + 1, total, targets);
    lemma_batches_continue(started, scene, 0, total, targets);
    let before = started.batches_recorded(scene, number, targets).0;
    let after = started.batches_recorded(scene, number + 1, targets).0;
    let all = started.batches_recorded(scene, total, targets).0;
    let done = frame.scene_recorded(scene, targets).0;
    assert forall|i: int| 0 <= i < started.bindings.len() implies #[trigger] before.bindings[i]
        == started.bindings[i] by {
        assert(before.bindings.subrange(0, started.bindings.len() as int)[i]
            == started.bindings[i]);
    }
    assert(all.commands.subrange(0, started.commands.len() as int)[frame.commands.len() as int]
        == started.commands[frame.commands.len() as int]);
    assert(done.commands.subrange(0, after.commands.len() as int) =~= all.commands.subrange(
        0,
        after.commands.len() as int,
    ));
}

proof fn lemma_no_error_before(
    frame: RecordedFrame,
    scene: Scene,
    number: nat,
    later: nat,
    targets: FrameTargets,
)
    requires
        number <= later,
        frame.batches_recorded(scene, later, targets).1 is None,
    ensures
        frame.batches_recorded(scene, number, targets).1 is None,
    decreases later,
{
    if number < later {
        lemma_no_error_before(frame, scene, number, (later - 1) as nat, targets);
    }
}

/// Without a texture to rasterize into, a batch of paths draws nothing: the
/// frame's pass is interrupted and resumed.
pub proof fn paths_without_texture_draw_nothing(
    frame: RecordedFrame,
    scene: Scene,
    start: usize,
    end: usize,
    targets: FrameTargets,
)
    requires
        start < end <= scene.paths@.len(),
        !targets.path_intermediate,
        frame.batch_recorded(scene, PrimitiveBatch::Paths(Range { start, end }), targets).1 is None,
    ensures
        ({
            let batch = PrimitiveBatch::Paths(Range { start, end });
            let after = frame.batch_recorded(scene, batch, targets).0;
            after.commands == frame.commands.push(FrameCommand::EndPass).push(
                FrameCommand::BeginPass(main_pass(true)),
            )
        }),
{
    reveal(RecordedFrame::bound);
}

/// Of the views of an NV12 texture's planes, the luma plane has one channel and
/// the chroma plane two. Both are sampled in two dimensions, and each shows the
/// plane that it was asked for. Other aspects have no such view.
pub proof fn plane_views_show_their_own_plane(aspect: TextureAspect)
    ensures
        plane_view(aspect) is Some <==> aspect == TextureAspect::Plane0 || aspect
            == TextureAspect::Plane1,
        plane_view(aspect) matches Some(view) ==> {
            &&& view.aspect == aspect
            &&& view.format == TexelFormat::R8Unorm <==> aspect == TextureAspect::Plane0
            &&& view.format == TexelFormat::Rg8Unorm <==> aspect == TextureAspect::Plane1
            &&& view.dimension == TextureViewDimension::D2
            &&& view.usage.texture_binding
            &&& !view.usage.render_attachment
            &&& !view.usage.copy_dst
        },
{
}

/// The video of two planes shows the surface's own planes, luma as luma and
/// chroma as chroma, whether or not they come with a color conversion, and
/// within the surface's own bounds and mask. Without one, the conversion is the
/// default one.
pub proof fn video_shows_its_own_planes(
    surface: PaintSurface,
    other: PaintSurface,
    y_texture: u64,
    cb_cr_texture: u64,
    color_transform: Nv12ColorTransform,
)
    requires
        surface.content == (SurfaceContent::WgpuTextureNv12 { y_texture, cb_cr_texture }),
        other == (PaintSurface {
            content: SurfaceContent::WgpuTextureNv12WithColorTransform {
                y_texture,
                cb_cr_texture,
                color_transform,
            },
            ..surface
        }),
    ensures
        surface_video(surface) matches Some(plain) && surface_video(other) matches Some(
            converted,
        ) && {
            &&& plain.y_view == (PlaneView::Whole { texture: y_texture })
            &&& plain.cb_cr_view == (PlaneView::Whole { texture: cb_cr_texture })
            &&& converted.y_view == plain.y_view
            &&& converted.cb_cr_view == plain.cb_cr_view
            &&& converted.params.yuv_to_rgb == color_transform.yuv_to_rgb
            &&& plain.params.yuv_to_rgb == Nv12ColorTransform::full_range().yuv_to_rgb
            &&& converted.params.bounds == plain.params.bounds
            &&& converted.params.content_mask == plain.params.content_mask
            &&& plain.params.bounds.words() == seq![
                surface.bounds.x,
                surface.bounds.y,
                surface.bounds.width,
                surface.bounds.height,
            ]
            &&& plain.params.content_mask.words() == seq![
                surface.content_mask.x,
                surface.content_mask.y,
                surface.content_mask.width,
                surface.content_mask.height,
            ]
            &&& color_transform == Nv12ColorTransform::full_range() ==> surface_video(other)
                == surface_video(surface)
        },
{
    let plain = surface_video(surface)->0;
    assert(plain.params.bounds.words() =~= seq![
        surface.bounds.x,
        surface.bounds.y,
        surface.bounds.width,
        surface.bounds.height,
    ]);
    assert(plain.params.content_mask.words() =~= seq![
        surface.content_mask.x,
        surface.content_mask.y,
        surface.content_mask.width,
        surface.content_mask.height,
    ]);
}

/// The video of one texture shows that texture's first plane as luma and its
/// second one as chroma, with the parameters that two planes of their own would
/// have. Pictures and content of other renderers are no video.
pub proof fn multiplanar_video_shows_both_planes(
    surface: PaintSurface,
    other: PaintSurface,
    texture: u64,
    color_transform: Nv12ColorTransform,
)
    requires
        surface.content == (SurfaceContent::WgpuTextureNv12Multiplanar {
            texture,
            color_transform,
        }),
        other == (PaintSurface {
            content: SurfaceContent::WgpuTextureNv12WithColorTransform {
                y_texture: texture,
                cb_cr_texture: texture,
                color_transform,
            },
            ..surface
        }),
    ensures
        surface_video(surface) matches Some(video) && surface_video(other) matches Some(
            converted,
        ) && {
            &&& video.params == converted.params
            &&& video.y_view matches PlaneView::Plane { texture: luma, descriptor }
            &&& luma == texture
            &&& descriptor.aspect == TextureAspect::Plane0
            &&& descriptor.format == TexelFormat::R8Unorm
            &&& video.cb_cr_view matches PlaneView::Plane { texture: chroma, descriptor }
            &&& chroma == texture
            &&& descriptor.aspect == TextureAspect::Plane1
            &&& descriptor.format == TexelFormat::Rg8Unorm
        },
        surface_video(
            PaintSurface { content: SurfaceContent::WgpuTexture { texture }, ..surface },
        ) is None,
        surface_video(PaintSurface { content: SurfaceContent::Platform, ..surface }) is None,
{
}

/// The visible pictures among the surfaces from `start` to before `end`, in
/// order.
pub open spec fn pictures_within(surfaces: Seq<PaintSurface>, start: int, end: int) -> Seq<int>
    decreases end - start,
{
    if end <= start {
        Seq::empty()
    } else if surfaces[end - 1].visible && surfaces[end - 1].content is WgpuTexture {
        pictures_within(surfaces, start, end - 1).push(end - 1)
    } else {
        pictures_within(surfaces, start, end - 1)
    }
}

/// The visible video among the surfaces from `start` to before `end`, in order.
pub open spec fn videos_within(surfaces: Seq<PaintSurface>, start: int, end: int) -> Seq<int>
    decreases end - start,
{
    if end <= start {
        Seq::empty()
    } else if surfaces[end - 1].visible && !(surfaces[end - 1].content is WgpuTexture) && !(
    surfaces[end - 1].content is Platform) {
        videos_within(surfaces, start, end - 1).push(end - 1)
    } else {
        videos_within(surfaces, start, end - 1)
    }
}

proof fn lemma_scanned(frame: RecordedFrame, surfaces: Seq<PaintSurface>, start: int, end: int)
    requires
        0 <= start <= end <= surfaces.len() <= usize::MAX,
        frame.bindings.len() + surfaces.len() <= usize::MAX,
        !frame.surfaces_scanned(surfaces, start, end).exhausted,
    ensures
        ({
            let scanned = frame.surfaces_scanned(surfaces, start, end);
            let pictures = pictures_within(surfaces, start, end);
            let videos = videos_within(surfaces, start, end);
            &&& pictures.len() <= end - start
            &&& scanned.rgba.len() == pictures.len()
            &&& scanned.nv12.len() == videos.len()
            &&& scanned.frame.bindings.len() == frame.bindings.len() + pictures.len()
            &&& forall|k: int|
                0 <= k < frame.bindings.len() ==> #[trigger] scanned.frame.bindings[k]
                    == frame.bindings[k]
            &&& forall|k: int|
                0 <= k < pictures.len() ==> {
                    let index = #[trigger] pictures[k];
                    let binding = scanned.frame.bindings[frame.bindings.len() as int + k];
                    &&& start <= index < end
                    &&& surfaces[index].visible
                    &&& surfaces[index].content matches SurfaceContent::WgpuTexture { texture }
                    &&& binding.source == (InstanceSource::Surface { index: index as usize })
                    &&& binding.texture == Some(texture)
                    &&& binding.count == 1
                    &&& binding.allocation.first_instance == 0
                    &&& scanned.rgba[k].binding == frame.bindings.len() + k
                    &&& scanned.rgba[k].scissor_rect == surfaces[index].scissor_rect
                }
            &&& forall|k: int|
                0 <= k < videos.len() ==> {
                    let index = #[trigger] videos[k];
                    &&& start <= index < end
                    &&& surfaces[index].visible
                    &&& Some(scanned.nv12[k].video) == surface_video(surfaces[index])
                    &&& scanned.nv12[k].scissor_rect == surfaces[index].scissor_rect
                }
        }),
    decreases end - start,
{
    if start < end {
        lemma_scanned(frame, surfaces, start, end - 1);
        let before = frame.surfaces_scanned(surfaces, start, end - 1);
        let scanned = frame.surfaces_scanned(surfaces, start, end);
        let pictures = pictures_within(surfaces, start, end);
        let videos = videos_within(surfaces, start, end);
        assert forall|k: int| 0 <= k < pictures.len() implies {
            let index = #[trigger] pictures[k];
            let binding = scanned.frame.bindings[frame.bindings.len() as int + k];
            &&& start <= index < end
            &&& surfaces[index].visible
            &&& surfaces[index].content matches SurfaceContent::WgpuTexture { texture }
            &&& binding.source == (InstanceSource::Surface { index: index as usize })
            &&& binding.texture == Some(texture)
            &&& binding.count == 1
            &&& binding.allocation.first_instance == 0
            &&& scanned.rgba[k].binding == frame.bindings.len() + k
            &&& scanned.rgba[k].scissor_rect == surfaces[index].scissor_rect
        } by {
            let earlier = pictures_within(surfaces, start, end - 1);
            if k < earlier.len() {
                assert(pictures[k] == earlier[k]);
            }
        }
        assert forall|k: int| 0 <= k < videos.len() implies {
            let index = #[trigger] videos[k];
            &&& start <= index < end
            &&& surfaces[index].visible
            &&& Some(scanned.nv12[k].video) == surface_video(surfaces[index])
            &&& scanned.nv12[k].scissor_rect == surfaces[index].scissor_rect
        } by {
            let earlier = videos_within(surfaces, start, end - 1);
            if k < earlier.len() {
                assert(videos[k] == earlier[k]);
            }
        }
        assert forall|k: int| 0 <= k < frame.bindings.len() implies
            #[trigger] scanned.frame.bindings[k] == frame.bindings[k] by {
            assert(before.frame.bindings[k] == frame.bindings[k]);
        }
    }
}

/// A batch of surfaces draws each visible picture once, then each visible video
/// once, each kind in order, and nothing else: a picture from its own record
/// and texture, a video from its own planes, each within its own rectangle.
/// Where a picture's record does not fit, nothing is drawn.
pub proof fn every_visible_surface_is_drawn_once(
    frame: RecordedFrame,
    surfaces: Seq<PaintSurface>,
    start: int,
    end: int,
)
    requires
        0 <= start <= end <= surfaces.len() <= usize::MAX,
        frame.bindings.len() + surfaces.len() <= usize::MAX,
        frame.videos.len() + surfaces.len() <= usize::MAX,
    ensures
        ({
            let (after, fits) = frame.surfaces_recorded(surfaces, start, end);
            let pictures = pictures_within(surfaces, start, end);
            let videos = videos_within(surfaces, start, end);
            let first = frame.commands.len() as int;
            &&& !fits ==> after.commands == frame.commands && after.videos == frame.videos
            &&& fits ==> {
                &&& after.commands.len() == first + pictures.len() + videos.len()
                &&& after.commands.take(first) == frame.commands
                &&& after.videos.len() == frame.videos.len() + videos.len()
                &&& after.videos.take(frame.videos.len() as int) == frame.videos
                &&& forall|k: int|
                    0 <= k < pictures.len() ==> {
                        let surface = surfaces[#[trigger] pictures[k]];
                        let number = frame.bindings.len() as int + k;
                        &&& after.commands[first + k] matches FrameCommand::Draw(draw)
                        &&& draw.pipeline == PipelineKind::SurfaceRgba
                        &&& draw.globals == GlobalsKind::Surface
                        &&& draw.binding == DrawBinding::Instances(number as usize)
                        &&& draw.texture == DrawTexture::Nothing
                        &&& draw.scissor_rect == Some(surface.scissor_rect)
                        &&& draw.vertices == (DrawRange { start: 0, end: 4 })
                        &&& draw.instances == (DrawRange { start: 0, end: 1 })
                        &&& after.bindings[number].source == (InstanceSource::Surface {
                            index: pictures[k] as usize,
                        })
                        &&& after.bindings[number].allocation.first_instance == 0
                        &&& surface.content == (SurfaceContent::WgpuTexture {
                            texture: after.bindings[number].texture->0,
                        })
                        &&& after.bindings[number].texture is Some
                    }
                &&& forall|k: int|
                    0 <= k < videos.len() ==> {
                        let surface = surfaces[#[trigger] videos[k]];
                        let number = frame.videos.len() as int + k;
                        &&& after.commands[first + pictures.len() + k] matches FrameCommand::Draw(
                            draw,
                        )
                        &&& draw.pipeline == PipelineKind::Surfaces
                        &&& draw.globals == GlobalsKind::Surface
                        &&& draw.binding == DrawBinding::Video(number as usize)
                        &&& draw.texture == DrawTexture::Nothing
                        &&& draw.scissor_rect == Some(surface.scissor_rect)
                        &&& draw.vertices == (DrawRange { start: 0, end: 4 })
                        &&& draw.instances == (DrawRange { start: 0, end: 1 })
                        &&& Some(after.videos[number]) == surface_video(surface)
                    }
            }
        }),
{
    let scanned = frame.surfaces_scanned(surfaces, start, end);
    lemma_scan_keeps_commands(frame, surfaces, start, end);
    if !scanned.exhausted {
        lemma_scanned(frame, surfaces, start, end);
        lemma_videos_fit(surfaces, start, end);
        let after = frame.surfaces_recorded(surfaces, start, end).0;
        assert(after.commands.take(frame.commands.len() as int) =~= frame.commands);
        assert(after.videos.take(frame.videos.len() as int) =~= frame.videos);
    }
}

proof fn lemma_videos_fit(surfaces: Seq<PaintSurface>, start: int, end: int)
    requires
        start <= end,
    ensures
        videos_within(surfaces, start, end).len() <= end - start,
    decreases end - start,
{
    if start < end {
        lemma_videos_fit(surfaces, start, end - 1);
    }
}

proof fn lemma_scan_keeps_commands(
    frame: RecordedFrame,
    surfaces: Seq<PaintSurface>,
    start: int,
    end: int,
)
    ensures
        frame.surfaces_scanned(surfaces, start, end).frame.commands == frame.commands,
        frame.surfaces_scanned(surfaces, start, end).frame.videos == frame.videos,
    decreases end - start,
{
    if start < end {
        lemma_scan_keeps_commands(frame, surfaces, start, end - 1);
    }
}

/// A batch of surfaces is refused exactly where their records do not fit, and
/// recorded as its surfaces are.
pub proof fn surface_batch_records_its_own_surfaces(
    frame: RecordedFrame,
    scene: Scene,
    start: usize,
    end: usize,
    targets: FrameTargets,
)
    ensures
        ({
            let batch = PrimitiveBatch::Surfaces(Range { start, end });
            let (after, error) = frame.batch_recorded(scene, batch, targets);
            let (drawn, fits) = frame.surfaces_recorded(
                scene.surfaces@,
                start as int,
                end as int,
            );
            &&& after == drawn
            &&& fits ==> error is None
            &&& !fits ==> error == Some(FrameError::SurfacesExhausted)
        }),
{
}

} // verus!
