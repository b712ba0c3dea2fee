//! Scene-graph to GPU resource pipeline: meshes, instances, texture sets,
//! lights and the view uniform, described as plain values that a rendering
//! backend uploads and draws.

pub mod frame;
pub mod gpu;
pub mod hierarchy;
pub mod layout;
pub mod lights;
pub mod loader;
pub mod math;
pub mod mesh;
pub mod mesh_object;
pub mod mesh_object_textured;
pub mod run;
pub mod scene;
pub mod scene_loader;
pub mod shader;
pub mod target;
pub mod text;
pub mod texture;
pub mod view;
