//! Shader preprocessing inputs, pipeline keys and the pipeline/shader caches.
pub mod cache;
pub mod gpu_state;
pub mod hashing;
pub mod key_laws;
pub mod pipeline_key;
pub mod shader_defines;
pub mod shader_gen;
pub mod shader_manager;
