# gpui_wgpu

A renderer for user interfaces on wgpu, whose decisions are verified with Verus.

- `src/` is the verified core. It holds plain values and makes no GPU calls.
  - `arith`, `instances`, `texture_upload`: the memory that holds a frame's
    instance records, and the uploads into it.
  - `surface_config`, `params`, `pipelines`, `device`: surface configuration,
    uniform parameters, and the tables of bind group layouts and pipelines.
  - `scene`, `draw`, `frame`, `frame_surfaces`, `frame_scene`, `path_records`:
    recording a scene as uploads, passes and draws.
  - `external`, `external_state`, `vulkan_sync`: frames that another producer
    renders, with their fences and owners.
  - `renderer`, `drawing`, `frame_steps`: the state of a window's renderer, the
    single steps of drawing a frame, and their order from the scene to the
    submission.
  - `surface_element`: the element that composites a texture into the interface.
  - `outside`: the calls into `wgpu`, `ash` and `bytemuck`, with the contracts
    that nothing proves.
- `app/` makes the GPU calls that the core decides on, and does the arithmetic
  that is floating point.
- `tests/` runs the core on concrete values.

Numbers with fractions cross into the core as IEEE 754 bit patterns. Handles of
the GPU cross as the associated types of `external::GpuHandles`, which the core
keeps without looking into them.
