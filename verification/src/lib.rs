//! The decision-making core of a wgpu renderer: instance memory, surface
//! configuration, pipeline tables, external frames and frame recording.
//!
//! The core holds plain values and makes no GPU calls. Where drawing alternates
//! with the GPU, it goes step by step: each step takes what the GPU answered to
//! the last one and says what to do next.
pub mod arith;
pub mod binding_laws;
pub mod course_laws;
pub mod device;
pub mod draw;
pub mod drawing;
pub mod external;
pub mod external_laws;
pub mod external_state;
pub mod frame;
pub mod frame_scene;
pub mod frame_steps;
pub mod frame_surfaces;
pub mod instances;
pub mod memory_laws;
pub mod mock_client;
mod outside;
pub mod params;
pub mod path_laws;
pub mod path_records;
pub mod pipelines;
pub mod recording_laws;
pub mod renderer;
pub mod renderer_laws;
pub mod scene;
pub mod setup_laws;
pub mod surface_config;
pub mod surface_element;
pub mod texture_upload;
pub mod vulkan_sync;

pub use arith::{instance_range, least_common_multiple};
pub use external::{
    ExternalFrameAcquisition, ExternalFrameOutcome, ExternalNv12Frame, ExternalOwnership,
    PreparedExternalFrame, VulkanExternalFrame,
};
pub use external_state::{ExternalFrame, ExternalFrameRequest};
pub use renderer::WgpuRenderer;
pub use surface_config::WgpuSurfaceConfig;
