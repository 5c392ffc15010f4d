//! Render features: the decisions each pass makes before GPU work is issued.
pub mod atmosphere;
pub mod clustered_lighting;
pub mod debug_view;
pub mod draw;
pub mod equirect_to_cube;
pub mod hiz_build;
pub mod ibl_compute;
pub mod light_merge;
pub mod opaque;
pub mod present;
pub mod scene_cache;
pub mod simple_forward;
pub mod skybox;
pub mod ssao;
pub mod ssgi;
pub mod ssr;
pub mod ssss;
pub mod static_binding;
pub mod tone_mapping;
pub mod trace_chain;
pub mod transparent;
