# myth_render

The decision layer of the Myth renderer, written in Verus: what each render
feature builds, caches and keeps from frame to frame, with contracts that
Verus proves.

- `src/settings.rs`, `src/renderer.rs`: renderer settings, the settings
  update protocol, readback layout and row-padding removal.
- `src/graph/`: frame configuration, the per-frame feature plan, debug view
  targets, and one module per render feature under `passes/` (history
  bookkeeping, scene-state caches with time-to-live eviction, pipeline
  bookkeeping, texture descriptors and dispatch sizes, draw-state
  redundancy elimination).
- `src/pipeline/`: shader defines and compilation options, hashing of cache
  keys, pipeline keys and the pipeline states they describe, the two-level
  pipeline cache, and the shader-template registry.
- `app/`: the glue that cannot be verified: conversions between wgpu values
  and the library's models, execution of recorded draw operations on a
  wgpu render pass, the minijinja template environment, and the
  floating-point uniforms.
- `tests/`: the library's behaviour on concrete values.

Hashing goes through `rustc-hash` and `xxhash-rust`; those calls sit behind
trusted wrappers in `src/pipeline/hashing.rs`. File-extension lookup uses
`std::path::Path::extension` behind a wrapper in
`src/pipeline/shader_manager.rs`.
