use myth_render::format::TextureFormat;
use myth_render::pipeline::cache::{
    fullscreen_pipeline_state, graphics_pipeline_state, graphics_shader_options, simple_geometry_pipeline_state,
    ComputePipelineId, FastPipelineKey, FastShadowPipelineKey, PipelineCache, RenderPipelineId,
};
use myth_render::pipeline::gpu_state::{
    BlendFactor, BlendOperation, CompareFunction, Face, FrontFace, PrimitiveTopology, StencilOperation, COLOR_WRITES_ALL,
};
use myth_render::pipeline::pipeline_key::{
    fx_hash_key, hash_pipeline_compilation_options, BlendComponentKey, BlendStateKey, ColorTargetKey,
    ComputePipelineKey, DepthBiasKey, DepthStencilKey, FullscreenPipelineKey, GraphicsPipelineKey, MultisampleKey,
    PipelineCompilationOptions, PipelineFlags, SimpleGeometryPipelineKey, StencilFaceKey, StencilStateKey,
    ALPHA_TO_COVERAGE, DEPTH_WRITE, SPECULAR_SPLIT,
};
use myth_render::pipeline::shader_defines::ShaderDefines;
use myth_render::pipeline::shader_gen::{ShaderCompilationOptions, ShaderGenerator};
use myth_render::pipeline::shader_manager::{
    next_location, shader_file_name, source_label, GenerationPlan, LocationAllocator, ShaderManager, ShaderSource, ShaderTemplateMode,
};

#[test]
fn defines_set_get_remove_merge() {
    let mut d = ShaderDefines::new();
    d.set("A", "1");
    d.set("B", "2");
    d.set("A", "3");
    assert_eq!(d.len(), 2);
    assert_eq!(d.get("A"), Some("3".to_string()));
    assert_eq!(d.entries()[0].0, "A");
    d.remove("A");
    assert_eq!(d.get("A"), None);
    let mut o = ShaderDefines::new();
    o.set("B", "9");
    o.set("C", "1");
    d.merge(&o);
    assert_eq!(d.get("B"), Some("9".to_string()));
    assert_eq!(d.get("C"), Some("1".to_string()));
    assert_eq!(d.len(), 2);
}

#[test]
fn wrap_material_body_places_the_prelude_first() {
    let s = ShaderGenerator::wrap_material_body("fn main() {}");
    assert_eq!(
        s,
        "{{ vertex_input_code }}\n{{ binding_code }}\n{{ scene_lighting_structs }}\n$$ if USE_CLUSTERED_SHADING is defined\n{{ clustered_lighting_structs }}\n$$ endif\n{$ include 'core/vertex_output' $}\n{$ include 'core/fragment_output' $}\n\nfn main() {}"
    );
    assert_eq!(
        ShaderGenerator::finish_generated_source("x"),
        "// === Auto-generated Unified Shader ===\nx"
    );
}

#[test]
fn options_hash_distinguishes_defines_and_code() {
    let mut a = ShaderCompilationOptions::new();
    a.add_define("USE_X", "1");
    let mut b = ShaderCompilationOptions::new();
    b.inject_code("USE_X", "1");
    let mut c = ShaderCompilationOptions::new();
    c.add_define("USE_X", "1");
    assert_eq!(a.compute_hash(), c.compute_hash());
    assert_ne!(a.compute_hash(), b.compute_hash());
    assert_ne!(a.compute_hash(), ShaderCompilationOptions::new().compute_hash());
}

#[test]
fn from_merged_later_sets_win() {
    let mut m = ShaderDefines::new();
    m.set("K", "m");
    let mut g = ShaderDefines::new();
    g.set("K", "g");
    let s = ShaderDefines::new();
    let mut i = ShaderDefines::new();
    i.set("J", "i");
    let o = ShaderCompilationOptions::from_merged(&m, &g, &s, &i);
    assert_eq!(o.defines().get("K"), Some("g".to_string()));
    assert_eq!(o.defines().get("J"), Some("i".to_string()));
}

#[test]
fn location_allocator_counts_up() {
    let mut a = LocationAllocator::new();
    assert_eq!(a.next(), 0);
    assert_eq!(a.next(), 1);
    assert_eq!(next_location(&mut a), 2);
}

#[test]
fn shader_manager_templates_and_modules() {
    let mut m = ShaderManager::new();
    let file = ShaderSource::File("entry/main");
    let builtin = m.source_identity_hash(file);
    match m.plan_generation(file) {
        GenerationPlan::BuiltIn { template_name } => assert_eq!(template_name, "entry/main"),
        other => panic!("unexpected {:?}", other),
    }
    m.register_template("entry/main", "custom body");
    assert_ne!(m.source_identity_hash(file), builtin);
    match m.plan_generation(file) {
        GenerationPlan::Custom { name, source } => {
            assert_eq!(name, "entry/main");
            assert_eq!(source, "custom body");
        }
        other => panic!("unexpected {:?}", other),
    }
    m.register_template_with_mode("mat", "body", ShaderTemplateMode::MaterialBody);
    assert!(matches!(m.plan_generation(ShaderSource::File("mat")), GenerationPlan::Material { .. }));
    let inline = ShaderSource::Inline { name: "n", source: "s", mode: ShaderTemplateMode::Template };
    assert_eq!(source_label(inline), "n");
    assert_eq!(source_label(file), "entry/main");

    let a = m.lookup_or_insert_module("wgsl a");
    assert!(a.created);
    assert_eq!(a.index, 0);
    let b = m.lookup_or_insert_module("wgsl b");
    assert!(b.created);
    assert_ne!(a.hash, b.hash);
    let a2 = m.lookup_or_insert_module("wgsl a");
    assert!(!a2.created);
    assert_eq!(a2.index, 0);
    assert_eq!(a2.hash, a.hash);
    assert_eq!(m.module_count(), 2);
}

#[test]
fn pipeline_shader_hash_depends_on_options() {
    let m = ShaderManager::new();
    let mut o = ShaderCompilationOptions::new();
    let h0 = m.pipeline_shader_hash(ShaderSource::File("a"), &o);
    o.add_define("X", "1");
    assert_ne!(h0, m.pipeline_shader_hash(ShaderSource::File("a"), &o));
    assert_ne!(h0, m.pipeline_shader_hash(ShaderSource::File("b"), &ShaderCompilationOptions::new()));
}

fn alpha_blend() -> BlendStateKey {
    let c = BlendComponentKey {
        src_factor: BlendFactor::SrcAlpha,
        dst_factor: BlendFactor::OneMinusSrcAlpha,
        operation: BlendOperation::Add,
    };
    BlendStateKey { color: c, alpha: c }
}

fn graphics_key(flags: u32) -> GraphicsPipelineKey {
    GraphicsPipelineKey {
        shader_hash: 11,
        vertex_layout_id: 2,
        bind_group_layout_ids: [1, 2, 3, 4],
        topology: PrimitiveTopology::TriangleList,
        cull_mode: Some(Face::Back),
        front_face: FrontFace::Ccw,
        depth_compare: CompareFunction::Greater,
        blend_state: Some(alpha_blend()),
        color_format: TextureFormat::Rgba16Float,
        depth_format: TextureFormat::Depth32Float,
        sample_count: 4,
        flags: PipelineFlags::from_bits_truncate(flags),
    }
}

fn depth_key() -> DepthStencilKey {
    DepthStencilKey {
        format: TextureFormat::Depth32Float,
        depth_write_enabled: Some(true),
        depth_compare: Some(CompareFunction::Less),
        stencil: StencilStateKey::disabled(),
        bias: DepthBiasKey { constant: 2, slope_scale_bits: 1.5f32.to_bits(), clamp_bits: 0 },
    }
}

fn target(mask: u32) -> ColorTargetKey {
    ColorTargetKey { format: TextureFormat::Rgba8Unorm, blend: None, write_mask: mask }
}

#[test]
fn pipeline_cache_builds_once_per_key() {
    let mut c: PipelineCache<String, String, u32> = PipelineCache::new();
    let key = FullscreenPipelineKey::fullscreen(42, vec![target(COLOR_WRITES_ALL)], None);
    let a = c.get_or_create_fullscreen(&key, |_| "blit".to_string());
    assert_eq!(a, RenderPipelineId(0));
    let b = c.get_or_create_fullscreen(&key, |_| panic!("built twice"));
    assert_eq!(b, a);
    assert_eq!(c.get_render_pipeline(a), "blit");
    let other = FullscreenPipelineKey::fullscreen(43, vec![target(COLOR_WRITES_ALL)], None);
    let d = c.get_or_create_fullscreen(&other, |_| "other".to_string());
    assert_eq!(d, RenderPipelineId(1));
    let k = c.get_or_create_compute(&ComputePipelineKey::new(7), || "lut".to_string());
    assert_eq!(k, ComputePipelineId(0));
    assert_eq!(c.get_or_create_compute(&ComputePipelineKey::new(7), || panic!("built twice")), k);
    assert_eq!(c.get_compute_pipeline(k), "lut");
    assert_eq!(c.render_pipeline_count(), 2);
    assert_eq!(c.compute_pipeline_count(), 1);
    c.clear();
    assert_eq!(c.render_pipeline_count(), 0);
    assert_eq!(c.get_or_create_compute(&ComputePipelineKey::new(7), || "again".to_string()), ComputePipelineId(0));
}

#[test]
fn pipeline_cache_keeps_families_apart() {
    let mut c: PipelineCache<String, String, u32> = PipelineCache::new();
    let g = graphics_key(DEPTH_WRITE);
    let opts = ShaderCompilationOptions::new();
    let id = c.get_or_create_graphics(&g, &opts, "vin", "world", "mat", "obj", "clusters", |st, o| {
        assert_eq!(st.color_targets.len(), 1);
        assert_eq!(o.code_blocks.get("binding_code"), Some("world\nmat\nobj".to_string()));
        assert_eq!(o.code_blocks.get("vertex_input_code"), Some("vin".to_string()));
        assert_eq!(o.code_blocks.get("clustered_lighting_structs"), Some("clusters".to_string()));
        "scene".to_string()
    });
    let again = c.get_or_create_graphics(&g, &opts, "vin", "world", "mat", "obj", "clusters", |_, _| panic!("built twice"));
    assert_eq!(id, again);
    let s = SimpleGeometryPipelineKey {
        shader_hash: 1,
        vertex_layout_id: 9,
        color_targets: vec![],
        depth_stencil: depth_key(),
        topology: PrimitiveTopology::TriangleList,
        cull_mode: None,
        front_face: FrontFace::Cw,
        sample_count: 1,
    };
    let sid = c.get_or_create_simple_geometry(&s, |st| {
        assert!(st.color_targets.is_empty());
        assert_eq!(st.front_face, FrontFace::Cw);
        "shadow".to_string()
    });
    assert_eq!(sid, RenderPipelineId(1));
    assert_eq!(c.get_render_pipeline(sid), "shadow");
}

#[test]
fn pipeline_cache_layouts_and_fast_keys() {
    let mut c: PipelineCache<String, String, u32> = PipelineCache::new();
    let key = FullscreenPipelineKey::fullscreen(1, vec![], None);
    let id = c.get_or_create_fullscreen(&key, |_| "p".to_string());
    c.register_render_layouts(id, vec![10, 20]);
    assert_eq!(*c.get_tracked_layout(id, 1), 20);
    c.register_render_layouts(RenderPipelineId(3), vec![5]);
    assert_eq!(*c.get_tracked_layout(RenderPipelineId(3), 0), 5);
    let cid = c.get_or_create_compute(&ComputePipelineKey::new(1), || "c".to_string());
    c.register_compute_layouts(cid, vec![7]);
    assert_eq!(*c.get_tracked_compute_layout(cid, 0), 7);
    let fk = FastPipelineKey {
        material_handle: 1,
        material_version: 1,
        geometry_handle: 2,
        geometry_version: 1,
        instance_variants: 0,
        global_state_id: 3,
        scene_variants: 0,
        taa_enabled: false,
        pipeline_settings_version: 0,
    };
    assert_eq!(c.get_pipeline_fast(fk), None);
    c.insert_pipeline_fast(fk, id);
    assert_eq!(c.get_pipeline_fast(fk), Some(id));
    let newer = FastPipelineKey { material_version: 2, ..fk };
    assert_eq!(c.get_pipeline_fast(newer), None);
    c.insert_pipeline_fast(fk, RenderPipelineId(5));
    assert_eq!(c.get_pipeline_fast(fk), Some(RenderPipelineId(5)));
    let sk = FastShadowPipelineKey {
        material_handle: 1,
        material_version: 1,
        geometry_handle: 2,
        geometry_version: 1,
        instance_variants: 0,
        pipeline_settings_version: 0,
    };
    assert_eq!(c.get_shadow_pipeline_fast(sk), None);
    c.insert_shadow_pipeline_fast(sk, id);
    assert_eq!(c.get_shadow_pipeline_fast(sk), Some(id));
    assert_eq!(c.get_pipeline_fast(fk), Some(RenderPipelineId(5)));
}

#[test]
fn graphics_state_follows_flags() {
    let plain = graphics_pipeline_state(&graphics_key(0));
    assert_eq!(plain.color_targets.len(), 1);
    assert_eq!(plain.color_targets[0].write_mask, COLOR_WRITES_ALL);
    assert_eq!(plain.color_targets[0].blend, Some(alpha_blend()));
    let ds = plain.depth_stencil.unwrap();
    assert_eq!(ds.depth_write_enabled, Some(false));
    assert_eq!(ds.depth_compare, Some(CompareFunction::Greater));
    assert_eq!(ds.stencil.front.compare, CompareFunction::Always);
    assert_eq!(ds.stencil.back.pass_op, StencilOperation::Keep);
    assert_eq!(ds.stencil.read_mask, 0);
    assert_eq!(plain.multisample.count, 4);
    assert_eq!(plain.multisample.mask, u64::MAX);
    assert!(!plain.multisample.alpha_to_coverage_enabled);
    assert_eq!(plain.cull_mode, Some(Face::Back));
    let all = graphics_pipeline_state(&graphics_key(DEPTH_WRITE | ALPHA_TO_COVERAGE | SPECULAR_SPLIT));
    assert_eq!(all.color_targets.len(), 2);
    assert_eq!(all.color_targets[1], all.color_targets[0]);
    assert_eq!(all.depth_stencil.unwrap().depth_write_enabled, Some(true));
    assert!(all.multisample.alpha_to_coverage_enabled);
}

#[test]
fn fullscreen_and_simple_states() {
    let key = FullscreenPipelineKey::fullscreen(9, vec![target(0xff), target(1)], Some(depth_key()));
    assert_eq!(key.multisample, MultisampleKey::single_sample());
    let st = fullscreen_pipeline_state(&key);
    assert_eq!(st.color_targets[0].write_mask, 0xf);
    assert_eq!(st.color_targets[1].write_mask, 1);
    assert_eq!(st.topology, PrimitiveTopology::TriangleList);
    assert_eq!(st.front_face, FrontFace::Ccw);
    assert_eq!(st.cull_mode, None);
    assert_eq!(st.depth_stencil, Some(depth_key()));
    let s = SimpleGeometryPipelineKey {
        shader_hash: 1,
        vertex_layout_id: 9,
        color_targets: vec![target(0x1f)],
        depth_stencil: depth_key(),
        topology: PrimitiveTopology::LineList,
        cull_mode: Some(Face::Front),
        front_face: FrontFace::Ccw,
        sample_count: 4,
    };
    let ss = simple_geometry_pipeline_state(&s);
    assert_eq!(ss.color_targets[0].write_mask, 0xf);
    assert_eq!(ss.multisample.count, 4);
    assert!(!ss.multisample.alpha_to_coverage_enabled);
    assert_eq!(ss.topology, PrimitiveTopology::LineList);
    assert_eq!(ss.cull_mode, Some(Face::Front));
}

#[test]
fn key_hashes_follow_every_field() {
    let a = graphics_key(DEPTH_WRITE);
    let mut b = graphics_key(DEPTH_WRITE);
    assert_eq!(fx_hash_key(&a), fx_hash_key(&b));
    b.bind_group_layout_ids[3] = 5;
    assert_ne!(fx_hash_key(&a), fx_hash_key(&b));
    assert_ne!(fx_hash_key(&a), fx_hash_key(&graphics_key(0)));
    let mut c = graphics_key(DEPTH_WRITE);
    c.color_format = TextureFormat::Other(3);
    let mut d = graphics_key(DEPTH_WRITE);
    d.color_format = TextureFormat::Other(4);
    assert_ne!(fx_hash_key(&c), fx_hash_key(&d));
    let f1 = FullscreenPipelineKey::fullscreen(1, vec![target(15)], None);
    let f2 = FullscreenPipelineKey::fullscreen(1, vec![target(15), target(15)], None);
    let f3 = FullscreenPipelineKey::fullscreen(1, vec![target(15)], Some(depth_key()));
    assert_ne!(fx_hash_key(&f1), fx_hash_key(&f2));
    assert_ne!(fx_hash_key(&f1), fx_hash_key(&f3));
    let face = StencilFaceKey {
        compare: CompareFunction::Equal,
        fail_op: StencilOperation::Zero,
        depth_fail_op: StencilOperation::Keep,
        pass_op: StencilOperation::Replace,
    };
    let mut ds = depth_key();
    ds.stencil.front = face;
    let f4 = FullscreenPipelineKey::fullscreen(1, vec![target(15)], Some(ds));
    assert_ne!(fx_hash_key(&f3), fx_hash_key(&f4));
    assert_eq!(fx_hash_key(&ComputePipelineKey::new(5)), ComputePipelineKey::new(5).cache_hash());
}

#[test]
fn graphics_options_inject_code_blocks() {
    let mut base = ShaderCompilationOptions::new();
    base.add_define("USE_FOG", "1");
    base.inject_code("binding_code", "old");
    let o = graphics_shader_options(&base, "v", "a", "b", "c", "s");
    assert_eq!(o.defines.get("USE_FOG"), Some("1".to_string()));
    assert_eq!(o.code_blocks.get("binding_code"), Some("a\nb\nc".to_string()));
    assert_eq!(o.code_blocks.len(), 3);
    assert_eq!(base.code_blocks.get("binding_code"), Some("old".to_string()));
}

#[test]
fn compute_keys_and_flags() {
    let k = ComputePipelineKey::new(5);
    assert_eq!(k.compilation_hash, 0);
    let opts = PipelineCompilationOptions {
        zero_initialize_workgroup_memory: true,
        constants: vec![("SAMPLE_COUNT".to_string(), 4096f64.to_bits())],
    };
    let k2 = k.with_compilation_options(&opts);
    assert_eq!(k2.compilation_hash, hash_pipeline_compilation_options(&opts));
    assert_ne!(k2.cache_hash(), k.cache_hash());
    let opts64 = PipelineCompilationOptions {
        zero_initialize_workgroup_memory: true,
        constants: vec![("SAMPLE_COUNT".to_string(), 64f64.to_bits())],
    };
    assert_ne!(hash_pipeline_compilation_options(&opts), hash_pipeline_compilation_options(&opts64));
    let mut f = PipelineFlags::empty();
    f.insert(DEPTH_WRITE);
    f.insert(ALPHA_TO_COVERAGE);
    assert!(f.contains(DEPTH_WRITE));
    f.remove(DEPTH_WRITE);
    assert!(!f.contains(DEPTH_WRITE));
    assert_eq!(f.bits(), ALPHA_TO_COVERAGE);
    assert_eq!(PipelineFlags::from_bits_truncate(0xff).bits(), 7);
    assert_eq!(MultisampleKey::single_sample().count, 1);
    assert_eq!(DepthBiasKey::none().constant, 0);
}

#[test]
fn shader_file_names_get_the_wgsl_extension() {
    assert_eq!(shader_file_name("core/vertex_output"), "core/vertex_output.wgsl");
    assert_eq!(shader_file_name("entry/utility/blit.wgsl"), "entry/utility/blit.wgsl");
    assert_eq!(shader_file_name("entry/utility/blit.WGSL"), "entry/utility/blit.WGSL");
    assert_eq!(shader_file_name("notes.txt"), "notes.txt.wgsl");
    assert_eq!(shader_file_name(".wgsl"), ".wgsl.wgsl");
    assert_eq!(shader_file_name("dir.wgsl/file"), "dir.wgsl/file.wgsl");
}

#[test]
fn later_registration_overrides_on_a_used_manager() {
    let mut m = ShaderManager::new();
    m.register_template("a", "first");
    m.register_template("b", "other");
    m.register_template("a", "second");
    let inline = ShaderSource::Inline { name: "x", source: "second", mode: ShaderTemplateMode::Template };
    assert_eq!(m.source_identity_hash(ShaderSource::File("a")), m.source_identity_hash(inline));
    match m.plan_generation(ShaderSource::File("a")) {
        GenerationPlan::Custom { name, source } => {
            assert_eq!(name, "a");
            assert_eq!(source, "second");
        }
        other => panic!("unexpected {:?}", other),
    }
}
