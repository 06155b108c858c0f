pub mod algebra;
pub mod common_component;
pub mod data_types;
pub mod geometry_library;
pub mod instance_batch;
pub mod render_system;
pub mod shader_library;
pub mod texture_library;
pub mod time;
