//! Shader compilation options and the text framing of generated shaders.
use vstd::prelude::*;

use crate::pipeline::hashing::{enc_str, enc_u64, fx_hash_bytes, HashInput};
use crate::pipeline::shader_defines::{spec_merge, spec_set, DefineEntries, ShaderDefines};

verus! {

/// Encoding of a list of named texts: the count, then each name and text.
pub open spec fn enc_entries(s: DefineEntries) -> Seq<u8>
    decreases s.len(),
{
    if s.len() == 0 {
        Seq::empty()
    } else {
        enc_entries(s.drop_last()) + enc_str(s.last().0) + enc_str(s.last().1)
    }
}

/// The bytes hashed to identify a set of compilation options.
pub open spec fn enc_options(defines: DefineEntries, code_blocks: DefineEntries) -> Seq<u8> {
    enc_u64(defines.len() as u64) + enc_entries(defines) + enc_u64(code_blocks.len() as u64)
        + enc_entries(code_blocks)
}

/// Shader compilation options: macro definitions plus named code blocks
/// injected into the template context.
pub struct ShaderCompilationOptions {
    pub defines: ShaderDefines,
    pub code_blocks: ShaderDefines,
}

impl Clone for ShaderCompilationOptions {
    /// A copy with the same defines and code blocks.
    fn clone(&self) -> (r: Self)
        ensures
            r.defines.view() == self.defines.view(),
            r.code_blocks.view() == self.code_blocks.view(),
            r.wf() == self.wf(),
    {
        ShaderCompilationOptions { defines: self.defines.clone(), code_blocks: self.code_blocks.clone() }
    }
}

impl ShaderCompilationOptions {
    /// Both collections have unique names.
    pub open spec fn wf(&self) -> bool {
        self.defines.wf() && self.code_blocks.wf()
    }

    /// Empty defines, no code blocks.
    pub fn new() -> (r: Self)
        ensures
            r.wf(),
            r.defines.view() == Seq::<(Seq<char>, Seq<char>)>::empty(),
            r.code_blocks.view() == Seq::<(Seq<char>, Seq<char>)>::empty(),
    {
        ShaderCompilationOptions { defines: ShaderDefines::new(), code_blocks: ShaderDefines::new() }
    }

    /// Options whose defines merge material, geometry, scene and item
    /// defines in that order (later sets win); no code blocks.
    pub fn from_merged(
        mat_defines: &ShaderDefines,
        geo_defines: &ShaderDefines,
        scene_defines: &ShaderDefines,
        item_defines: &ShaderDefines,
    ) -> (r: Self)
        ensures
            r.wf(),
            r.defines.view() == spec_merge(
                spec_merge(
                    spec_merge(
                        spec_merge(Seq::<(Seq<char>, Seq<char>)>::empty(), mat_defines.view()),
                        geo_defines.view(),
                    ),
                    scene_defines.view(),
                ),
                item_defines.view(),
            ),
            r.code_blocks.view() == Seq::<(Seq<char>, Seq<char>)>::empty(),
    {
        let mut defines = ShaderDefines::new();
        defines.merge(mat_defines);
        defines.merge(geo_defines);
        defines.merge(scene_defines);
        defines.merge(item_defines);
        ShaderCompilationOptions { defines, code_blocks: ShaderDefines::new() }
    }

    /// The macro definitions.
    pub fn defines(&self) -> (r: &ShaderDefines)
        ensures
            r == &self.defines,
    {
        &self.defines
    }

    /// Defines `key` as `value`.
    pub fn add_define(&mut self, key: &str, value: &str)
        requires
            old(self).wf(),
        ensures
            final(self).wf(),
            final(self).defines.view() == spec_set(old(self).defines.view(), key@, value@),
            final(self).code_blocks.view() == old(self).code_blocks.view(),
    {
        self.defines.set(key, value);
    }

    /// Injects a named code block, available to templates as `{{ key }}`.
    pub fn inject_code(&mut self, key: &str, code: &str)
        requires
            old(self).wf(),
        ensures
            final(self).wf(),
            final(self).code_blocks.view() == spec_set(old(self).code_blocks.view(), key@, code@),
            final(self).defines.view() == old(self).defines.view(),
    {
        self.code_blocks.set(key, code);
    }

    /// The hash identifying these options in the caches: the FxHash of
    /// both collections' canonical encoding.
    pub fn compute_hash(&self) -> (r: u64)
        ensures
            r == fx_hash_bytes(enc_options(self.defines.view(), self.code_blocks.view())),
    {
        let mut input = HashInput::new();
        append_entries(&mut input, &self.defines);
        append_entries(&mut input, &self.code_blocks);
        assert(input.view() =~= enc_options(self.defines.view(), self.code_blocks.view()));
        input.fx_finish()
    }
}

fn append_entries(input: &mut HashInput, entries: &ShaderDefines)
    ensures
        final(input).view() == old(input).view() + enc_u64(entries.view().len() as u64) + enc_entries(
            entries.view(),
        ),
{
    let items = entries.entries();
    let n = items.len();
    input.push_u64(n as u64);
    let ghost base = input.view();
    let ghost s = entries.view();
    assert(s.len() == n);
    let mut i: usize = 0;
    while i < n
        invariant
            i <= n,
            n == items@.len(),
            s == items@.map_values(|e: (String, String)| (e.0@, e.1@)),
            input.view() == base + enc_entries(s.take(i as int)),
        decreases n - i,
    {
        assert(s[i as int] == (items@[i as int].0@, items@[i as int].1@));
        input.push_str(items[i].0.as_str());
        input.push_str(items[i].1.as_str());
        assert(s.take(i + 1).drop_last() =~= s.take(i as int));
        assert(input.view() =~= base + enc_entries(s.take(i + 1)));
        i = i + 1;
    }
    assert(s.take(n as int) =~= s);
}

/// First line of every generated shader.
pub const GENERATED_SHADER_HEADER: &'static str = "// === Auto-generated Unified Shader ===\n";

/// The engine's geometry-material prelude placed before a material body.
pub const MATERIAL_BODY_PRELUDE: &'static str = "{{ vertex_input_code }}\n{{ binding_code }}\n{{ scene_lighting_structs }}\n$$ if USE_CLUSTERED_SHADING is defined\n{{ clustered_lighting_structs }}\n$$ endif\n{$ include 'core/vertex_output' $}\n{$ include 'core/fragment_output' $}\n\n";

/// The code blocks of a pass that reads the scene: the global binding code
/// and the scene-lighting structs.
pub open spec fn scene_blocks(binding_wgsl: Seq<char>, scene_lighting_structs: Seq<char>) -> Seq<
    (Seq<char>, Seq<char>),
> {
    spec_set(
        spec_set(Seq::empty(), "binding_code"@, binding_wgsl),
        "scene_lighting_structs"@,
        scene_lighting_structs,
    )
}

/// Shader options defining only the pass's uniform struct.
pub fn struct_only_options(struct_definitions: &str) -> (r: ShaderCompilationOptions)
    ensures
        r.wf(),
        r.defines.view() == spec_set(Seq::empty(), "struct_definitions"@, struct_definitions@),
        r.code_blocks.view() == Seq::<(Seq<char>, Seq<char>)>::empty(),
{
    let mut options = ShaderCompilationOptions::new();
    options.add_define("struct_definitions", struct_definitions);
    options
}

/// Shader options of a pass reading the scene: the uniform struct, the
/// global binding code and the scene-lighting structs.
pub fn scene_pass_options(
    struct_definitions: &str,
    binding_wgsl: &str,
    scene_lighting_structs: &str,
) -> (r: ShaderCompilationOptions)
    ensures
        r.wf(),
        r.defines.view() == spec_set(Seq::empty(), "struct_definitions"@, struct_definitions@),
        r.code_blocks.view() == scene_blocks(binding_wgsl@, scene_lighting_structs@),
{
    let mut options = struct_only_options(struct_definitions);
    options.inject_code("binding_code", binding_wgsl);
    options.inject_code("scene_lighting_structs", scene_lighting_structs);
    options
}

/// The decimal digit `d` (below 10) as a character.
pub open spec fn digit_char(d: nat) -> char {
    if d == 0 {
        '0'
    } else if d == 1 {
        '1'
    } else if d == 2 {
        '2'
    } else if d == 3 {
        '3'
    } else if d == 4 {
        '4'
    } else if d == 5 {
        '5'
    } else if d == 6 {
        '6'
    } else if d == 7 {
        '7'
    } else if d == 8 {
        '8'
    } else {
        '9'
    }
}

/// The decimal representation of `n`, without leading zeros.
pub open spec fn spec_decimal(n: nat) -> Seq<char>
    decreases n,
{
    if n < 10 {
        seq![digit_char(n)]
    } else {
        spec_decimal(n / 10).push(digit_char(n % 10))
    }
}

fn digit_str(d: u32) -> (r: &'static str)
    requires
        d < 10,
    ensures
        r@ == seq![digit_char(d as nat)],
{
    if d == 0 {
        proof { reveal_strlit("0"); }
        "0"
    } else if d == 1 {
        proof { reveal_strlit("1"); }
        "1"
    } else if d == 2 {
        proof { reveal_strlit("2"); }
        "2"
    } else if d == 3 {
        proof { reveal_strlit("3"); }
        "3"
    } else if d == 4 {
        proof { reveal_strlit("4"); }
        "4"
    } else if d == 5 {
        proof { reveal_strlit("5"); }
        "5"
    } else if d == 6 {
        proof { reveal_strlit("6"); }
        "6"
    } else if d == 7 {
        proof { reveal_strlit("7"); }
        "7"
    } else if d == 8 {
        proof { reveal_strlit("8"); }
        "8"
    } else {
        proof { reveal_strlit("9"); }
        "9"
    }
}

/// The decimal text of `n`, as `u32::to_string` writes it.
pub fn decimal_string(n: u32) -> (r: String)
    ensures
        r@ == spec_decimal(n as nat),
    decreases n,
{
    if n < 10 {
        String::from_str(digit_str(n))
    } else {
        let mut s = decimal_string(n / 10);
        s.append(digit_str(n % 10));
        s
    }
}

/// Renders final WGSL source text.
pub struct ShaderGenerator;

impl ShaderGenerator {
    /// The template source of a material body: the standard prelude, then
    /// the body.
    pub fn wrap_material_body(shader_body: &str) -> (r: String)
        ensures
            r@ == MATERIAL_BODY_PRELUDE@ + shader_body@,
    {
        let mut s = String::from_str(MATERIAL_BODY_PRELUDE);
        s.append(shader_body);
        s
    }

    /// The final shader source for rendered template output: the generated
    /// header, then the rendered text.
    pub fn finish_generated_source(rendered: &str) -> (r: String)
        ensures
            r@ == GENERATED_SHADER_HEADER@ + rendered@,
    {
        let mut s = String::from_str(GENERATED_SHADER_HEADER);
        s.append(rendered);
        s
    }
}

} // verus!
