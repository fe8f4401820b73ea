//! Where a frame's records are bound, and what is refused for want of room.
use crate::arith::align_up_is_least_multiple;
use crate::draw::{
    DrawBinding, FrameCommand, FrameError, FrameTargets, InstanceBinding, InstanceResource,
    InstanceSource, InstanceUpload, PipelineKind,
};
use crate::frame::{main_pass, scene_primitives, RecordedFrame};
use crate::instances::{
    allocation_is_placed, extent_bytes, first_instance_always_fits, InstanceAllocation,
    InstanceData, InstanceError,
};
use crate::memory_laws::allocation_names_its_records;
use crate::params::SurfaceInstance;
use crate::path_records::PathRasterizationVertex;
use crate::scene::{addressable, vertex_total, PaintSurface, PrimitiveBatch, Scene};
use crate::texture_upload::{uploaded, uploaded_records_are_read_back};
use std::ops::Range;
use vstd::prelude::*;

verus! {

/// A record takes as many bytes as its words do; those of primitives that the
/// scene brings along take a fixed number.
pub proof fn records_are_as_large_as_their_words(
    vertex: PathRasterizationVertex,
    surface: SurfaceInstance,
    index: usize,
    start: usize,
    end: usize,
    merged: bool,
)
    ensures
        (InstanceSource::PathVertices { start, end }).stride() == 4 * vertex.words().len(),
        (InstanceSource::PathSprites { start, end, merged }).stride() == 4
            * vertex.bounds.words().len(),
        (InstanceSource::Surface { index }).stride() == 4 * surface.words().len(),
        InstanceSource::Quads.stride() == 160,
        InstanceSource::Shadows.stride() == 112,
        InstanceSource::Underlines.stride() == 64,
        InstanceSource::MonochromeSprites.stride() == 112,
        InstanceSource::SubpixelSprites.stride() == 112,
        InstanceSource::PolychromeSprites.stride() == 96,
{
}

/// Records that are bound lie where the memory has room for them, behind the
/// frame's earlier ones, in the memory that the frame goes on with. A refusal is
/// the memory's own, and leaves the frame as it was.
pub proof fn bound_records_lie_in_the_memory(
    frame: RecordedFrame,
    label: &'static str,
    source: InstanceSource,
    count: usize,
)
    requires
        frame.wf(),
        addressable(count as int, source.stride()),
    ensures
        ({
            let (after, error) = frame.bound(label, source, count as int);
            let stride = source.stride() as int;
            let allocation = frame.memory.allocation(frame.offset, count * stride, stride);
            match error {
                Some(error) => {
                    &&& allocation == Err::<InstanceAllocation, InstanceError>(error)
                    &&& after == frame
                },
                None => {
                    let binding = after.bindings.last();
                    &&& allocation == Ok::<InstanceAllocation, InstanceError>(binding.allocation)
                    &&& after.bindings == frame.bindings.push(binding)
                    &&& after.commands == frame.commands
                    &&& after.videos == frame.videos
                    &&& binding.label == label
                    &&& binding.source == source
                    &&& binding.count == count
                    &&& binding.texture is None
                    &&& binding.data == after.memory.data
                    &&& binding.allocation.size >= count * stride
                    &&& binding.allocation.offset + binding.allocation.size <= after.offset
                    &&& after.offset <= after.memory.capacity
                    &&& match binding.allocation.grown {
                        None => {
                            &&& after.memory == frame.memory
                            &&& frame.offset <= binding.allocation.offset
                        },
                        Some(data) => {
                            &&& data == after.memory.data
                            &&& binding.allocation.offset == 0
                            &&& after.memory.capacity > frame.memory.capacity
                        },
                    }
                },
            }
        }),
{
    reveal(RecordedFrame::bound);
    let stride = source.stride() as int;
    let bytes = count * stride;
    assert(bytes >= 0) by (nonlinear_arith)
        requires
            bytes == count * stride,
            stride >= 0,
    ;
    allocation_is_placed(frame.memory, frame.offset, bytes, stride);
    allocation_names_its_records(frame.memory, frame.offset, bytes, stride);
    first_instance_always_fits(frame.memory, frame.offset, bytes, stride);
}

/// The scene's primitives are bound kind after kind up to the first kind that
/// does not fit, whose refusal is told. Those before it stay bound.
pub proof fn first_kind_that_does_not_fit_is_told(frame: RecordedFrame, scene: Scene, number: nat)
    requires
        number <= 6,
        frame.primitives_bound(scene, number).1 is Some,
    ensures
        exists|kind: nat|
            kind < number && {
                let (before, none) = #[trigger] frame.primitives_bound(scene, kind);
                let (label, source, count) = scene_primitives(scene, kind as int);
                &&& none is None
                &&& frame.primitives_bound(scene, number) == before.bound(
                    label,
                    source,
                    count as int,
                )
            },
    decreases number,
{
    if number > 0 {
        if frame.primitives_bound(scene, (number - 1) as nat).1 is Some {
            first_kind_that_does_not_fit_is_told(frame, scene, (number - 1) as nat);
            let kind = choose|kind: nat|
                kind < number - 1 && {
                    let (before, none) = #[trigger] frame.primitives_bound(scene, kind);
                    let (label, source, count) = scene_primitives(scene, kind as int);
                    &&& none is None
                    &&& frame.primitives_bound(scene, (number - 1) as nat) == before.bound(
                        label,
                        source,
                        count as int,
                    )
                };
            assert(frame.primitives_bound(scene, kind).1 is None);
        } else {
            assert(frame.primitives_bound(scene, (number - 1) as nat).1 is None);
        }
    }
}

/// A batch of paths is refused exactly where the memory refuses the records of
/// its vertices or, where they are to be drawn, those of its sprites, and with
/// the memory's own reason. Nothing more is drawn of it.
pub proof fn refused_paths_say_why(
    frame: RecordedFrame,
    scene: Scene,
    start: usize,
    end: usize,
    targets: FrameTargets,
)
    requires
        start < end <= scene.paths@.len(),
    ensures
        ({
            let batch = PrimitiveBatch::Paths(Range { start, end });
            let (after, error) = frame.batch_recorded(scene, batch, targets);
            let count = vertex_total(scene.paths@.subrange(start as int, end as int));
            let stopped = frame.with(FrameCommand::EndPass);
            let (bound, refused) = stopped.bound(
                "path_rasterization_bind_group",
                InstanceSource::PathVertices { start, end },
                count as int,
            );
            &&& count == 0 ==> error is None
            &&& count > 0 && refused is Some ==> {
                &&& error == Some(FrameError::Paths(refused->0))
                &&& after == bound
                &&& after.commands == frame.commands.push(FrameCommand::EndPass)
            }
            &&& count > 0 && refused is None && !targets.path_intermediate ==> {
                &&& error is None
                &&& after.bindings == bound.bindings
            }
            &&& error matches Some(error) ==> {
                &&& error is Paths
                &&& count > 0
                &&& refused is Some || targets.path_intermediate
            }
        }),
{
    reveal(RecordedFrame::bound);
}

/// Rasterizing paths tells whether there is anything to draw from the
/// intermediate texture: there is exactly where the paths have vertices, their
/// records fit and there is such a texture. Without one nothing is drawn from it
/// either.
pub proof fn rasterizing_tells_what_there_is_to_draw(
    frame: RecordedFrame,
    scene: Scene,
    start: usize,
    end: usize,
    targets: FrameTargets,
)
    ensures
        ({
            let (after, answer) = frame.paths_rasterized(scene, start, end, targets);
            let count = vertex_total(scene.paths@.subrange(start as int, end as int));
            let refused = frame.bound(
                "path_rasterization_bind_group",
                InstanceSource::PathVertices { start, end },
                count as int,
            ).1;
            &&& answer is Err <==> count > 0 && refused is Some
            &&& answer matches Err(error) ==> refused == Some(error)
            &&& answer matches Ok(drawable) ==> (drawable <==> count > 0
                && targets.path_intermediate)
            &&& answer == Ok::<bool, InstanceError>(false) ==> after.commands == frame.commands
            &&& count == 0 ==> after == frame
            &&& !targets.path_intermediate ==> frame.paths_drawn(scene, start, end, targets) == (
                frame,
                None::<InstanceError>,
            )
        }),
{
    reveal(RecordedFrame::bound);
}

/// A scene is recorded up to the first batch that does not fit, whose error is
/// told; what the batches before it recorded stays.
pub proof fn first_batch_that_does_not_fit_is_told(
    frame: RecordedFrame,
    scene: Scene,
    targets: FrameTargets,
)
    requires
        frame.scene_recorded(scene, targets).1 is Some,
    ensures
        ({
            let started = frame.with(FrameCommand::BeginPass(main_pass(false)));
            exists|number: nat|
                number < scene.batches@.len() && {
                    let (before, none) = #[trigger] started.batches_recorded(
                        scene,
                        number,
                        targets,
                    );
                    &&& none is None
                    &&& frame.scene_recorded(scene, targets) == before.batch_recorded(
                        scene,
                        scene.batches@[number as int],
                        targets,
                    )
                }
        }),
{
    let started = frame.with(FrameCommand::BeginPass(main_pass(false)));
    let number = lemma_first_failing_batch(started, scene, scene.batches@.len(), targets);
    assert(started.batches_recorded(scene, number, targets).1 is None);
}

proof fn lemma_first_failing_batch(
    frame: RecordedFrame,
    scene: Scene,
    total: nat,
    targets: FrameTargets,
) -> (number: nat)
    requires
        total <= scene.batches@.len(),
        frame.batches_recorded(scene, total, targets).1 is Some,
    ensures
        number < total,
        frame.batches_recorded(scene, number, targets).1 is None,
        frame.batches_recorded(scene, total, targets) == frame.batches_recorded(
            scene,
            number,
            targets,
        ).0.batch_recorded(scene, scene.batches@[number as int], targets),
    decreases total,
{
    let earlier = (total - 1) as nat;
    if frame.batches_recorded(scene, earlier, targets).1 is Some {
        lemma_first_failing_batch(frame, scene, earlier, targets)
    } else {
        earlier
    }
}

/// Draws read only records that are bound: by their vertices where paths are
/// rasterized, by their instances in every other draw. Video is drawn from what
/// was recorded of it.
pub proof fn draws_read_only_bound_records(frame: RecordedFrame, number: int)
    requires
        frame.wf(),
        0 <= number < frame.commands.len(),
    ensures
        frame.commands[number] matches FrameCommand::Draw(draw) ==> match draw.binding {
            DrawBinding::Instances(index) => {
                let read = if draw.pipeline == PipelineKind::PathRasterization {
                    draw.vertices
                } else {
                    draw.instances
                };
                let first = frame.bindings[index as int].allocation.first_instance;
                &&& index < frame.bindings.len()
                &&& first <= read.start <= read.end
                &&& read.end <= first + frame.bindings[index as int].count
            },
            DrawBinding::Video(index) => index < frame.videos.len(),
        },
{
    assert(frame.serves(frame.commands[number]));
}

/// What is bound is what was written: a buffer is bound from where the records
/// were written on, to their end at least; all of a texture is bound, and it
/// holds the records, byte after byte, from their offset on.
pub proof fn uploaded_records_are_the_bound_ones(
    binding: InstanceBinding,
    upload: InstanceUpload,
    texels: Seq<u8>,
    records: Seq<u8>,
)
    requires
        binding.wf(),
        binding.uploads_as(upload),
        records.len() == binding.bytes(),
        binding.count > 0,
    ensures
        match binding.bound_resource() {
            InstanceResource::Buffer { offset, size } => {
                &&& binding.data is Storage
                &&& upload == (InstanceUpload::Buffer { offset })
                &&& offset == binding.allocation.offset
                &&& size == binding.allocation.size
                &&& records.len() <= size
            },
            InstanceResource::Texture => {
                &&& binding.data matches InstanceData::Texture { width, height }
                &&& upload matches InstanceUpload::Texels(upload)
                &&& upload.dropped == 0
                &&& width * 16 <= u32::MAX && texels.len() == extent_bytes(
                    width as int,
                    height as int,
                ) ==> {
                    let after = uploaded(texels, width as int, upload.writes@, records);
                    forall|i: int|
                        0 <= i < records.len() ==> after[binding.allocation.offset + i]
                            == #[trigger] records[i]
                }
            },
        },
{
    if let InstanceData::Texture { width, height } = binding.data {
        if width * 16 <= u32::MAX && texels.len() == extent_bytes(width as int, height as int) {
            let at = binding.allocation.offset as int;
            uploaded_records_are_read_back(texels, width as int, height as int, at, records);
        }
    }
}

/// A binding without records writes nothing, and only such a one does.
pub proof fn only_empty_bindings_write_nothing(binding: InstanceBinding, upload: InstanceUpload)
    requires
        binding.uploads_as(upload),
    ensures
        upload is Nothing <==> binding.count == 0,
{
}

proof fn lemma_pictures_placed(
    frame: RecordedFrame,
    surfaces: Seq<PaintSurface>,
    start: int,
    end: int,
)
    requires
        frame.wf(),
    ensures
        ({
            let after = frame.surfaces_scanned(surfaces, start, end).frame;
            let known = frame.bindings.len() as int;
            &&& after.memory == frame.memory
            &&& frame.offset <= after.offset <= frame.memory.capacity
            &&& known <= after.bindings.len()
            &&& forall|i: int|
                known <= i < after.bindings.len() ==> {
                    let allocation = (#[trigger] after.bindings[i]).allocation;
                    &&& frame.offset <= allocation.offset
                    &&& allocation.offset + allocation.size <= after.offset
                    &&& allocation.size == 32
                    &&& allocation.grown is None
                    &&& after.bindings[i].data == frame.memory.data
                    &&& frame.memory.alignment > 1 ==> allocation.offset as int
                        % frame.memory.alignment as int == 0
                }
            &&& forall|i: int, j: int|
                known <= i < j < after.bindings.len() ==> (
                #[trigger] after.bindings[i]).allocation.offset
                    + after.bindings[i].allocation.size <= (
                #[trigger] after.bindings[j]).allocation.offset
        }),
    decreases end - start,
{
    if start < end {
        lemma_pictures_placed(frame, surfaces, start, end - 1);
        let before = frame.surfaces_scanned(surfaces, start, end - 1);
        let after = frame.surfaces_scanned(surfaces, start, end);
        let alignment = if frame.memory.alignment < 1 {
            1
        } else {
            frame.memory.alignment as int
        };
        align_up_is_least_multiple(before.frame.offset, alignment, 0);
        if after.frame.bindings.len() > before.frame.bindings.len() {
            let known = frame.bindings.len() as int;
            let last = before.frame.bindings.len() as int;
            assert forall|i: int| known <= i < after.frame.bindings.len() implies {
                let allocation = (#[trigger] after.frame.bindings[i]).allocation;
                &&& frame.offset <= allocation.offset
                &&& allocation.offset + allocation.size <= after.frame.offset
                &&& allocation.size == 32
                &&& allocation.grown is None
                &&& after.frame.bindings[i].data == frame.memory.data
                &&& frame.memory.alignment > 1 ==> allocation.offset as int
                    % frame.memory.alignment as int == 0
            } by {
                if i < last {
                    assert(after.frame.bindings[i] == before.frame.bindings[i]);
                }
            }
            assert forall|i: int, j: int| known <= i < j < after.frame.bindings.len() implies (
            #[trigger] after.frame.bindings[i]).allocation.offset
                + after.frame.bindings[i].allocation.size <= (
            #[trigger] after.frame.bindings[j]).allocation.offset by {
                assert(after.frame.bindings[i] == before.frame.bindings[i]);
                if j < last {
                    assert(after.frame.bindings[j] == before.frame.bindings[j]);
                }
            }
        }
    }
}

/// The records of pictures share no byte with each other or with what was bound
/// before them. They lie in the memory as it is, which never grows for them, and
/// start where a binding can start.
pub proof fn picture_records_share_no_byte(
    frame: RecordedFrame,
    surfaces: Seq<PaintSurface>,
    start: int,
    end: int,
    one: int,
    other: int,
)
    requires
        frame.wf(),
        frame.bindings.len() <= one < other,
        other < frame.surfaces_recorded(surfaces, start, end).0.bindings.len(),
    ensures
        ({
            let after = frame.surfaces_recorded(surfaces, start, end).0;
            let first = after.bindings[one].allocation;
            let second = after.bindings[other].allocation;
            &&& frame.offset <= first.offset
            &&& first.offset + first.size <= second.offset
            &&& second.offset + second.size <= after.offset
            &&& after.offset <= frame.memory.capacity
            &&& first.size == 32 && second.size == 32
            &&& first.grown is None && second.grown is None
            &&& after.memory == frame.memory
            &&& after.bindings[one].data == frame.memory.data
            &&& after.bindings[other].data == frame.memory.data
            &&& frame.memory.alignment > 1 ==> {
                &&& first.offset as int % frame.memory.alignment as int == 0
                &&& second.offset as int % frame.memory.alignment as int == 0
            }
        }),
{
    lemma_pictures_placed(frame, surfaces, start, end);
}

proof fn lemma_room_for_pictures(
    frame: RecordedFrame,
    surfaces: Seq<PaintSurface>,
    start: int,
    end: int,
    step: int,
)
    requires
        frame.wf(),
        start <= end,
        step >= 32 + frame.memory.alignment,
        step >= 33,
        frame.offset + (end - start) * step <= frame.memory.capacity,
    ensures
        !frame.surfaces_scanned(surfaces, start, end).exhausted,
        frame.surfaces_scanned(surfaces, start, end).frame.offset <= frame.offset + (end - start)
            * step,
        frame.surfaces_scanned(surfaces, start, end).frame.memory == frame.memory,
    decreases end - start,
{
    if start < end {
        assert((end - start) * step == (end - 1 - start) * step + step) by (nonlinear_arith);
        lemma_room_for_pictures(frame, surfaces, start, end - 1, step);
        let before = frame.surfaces_scanned(surfaces, start, end - 1);
        let alignment = if frame.memory.alignment < 1 {
            1
        } else {
            frame.memory.alignment as int
        };
        align_up_is_least_multiple(before.frame.offset, alignment, 0);
    }
}

/// Pictures are drawn where the memory has room for a record and its alignment
/// for each of the surfaces.
pub proof fn pictures_with_room_are_drawn(
    frame: RecordedFrame,
    surfaces: Seq<PaintSurface>,
    start: int,
    end: int,
)
    requires
        frame.wf(),
        start <= end,
        frame.offset + (end - start) * (33 + frame.memory.alignment) <= frame.memory.capacity,
    ensures
        frame.surfaces_recorded(surfaces, start, end).1,
{
    lemma_room_for_pictures(frame, surfaces, start, end, 33 + frame.memory.alignment);
}

} // verus!
