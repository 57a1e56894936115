//! Double-buffered cellular automaton simulation core: the image pair that a
//! compute kernel reads from and writes into, the bind group that exposes the
//! pair to the kernel, the dispatch that runs it, and the per-frame swap.
pub mod binding;
pub mod dispatch;
pub mod image;
pub mod settings;
pub mod simulation;
pub mod store;

pub use binding::{
    prepare_bind_group, texture_bind_group_layout, update_pipeline_descriptor, BindGroup,
    BindGroupEntry, BindGroupLayout, BindGroupLayoutEntry, ComputePipelineDescriptor,
    StorageTextureAccess,
};
pub use dispatch::{dispatch_workgroups, GameOfLifeNode, PassCommand, WORKGROUP_SIZE};
pub use image::{SimulationImage, TextureFormat, TextureUsages, BYTES_PER_TEXEL};
pub use settings::{CellularAutomata1d, Settings};
pub use simulation::{
    flip_textures, reinitialize, setup_textures, ConfigError, GameOfLifeImage, SimulationSetup,
    Sprite,
};
pub use store::{ImageHandle, ImageStore};
