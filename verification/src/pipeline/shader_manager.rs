//! Shader template registry, shader identity hashing and the shader-module
//! cache bookkeeping.
use vstd::prelude::*;

use crate::pipeline::hashing::{enc_str, enc_u64, fx_hash_bytes, xxh3_128, xxh3_128_digest, HashInput};
use crate::pipeline::shader_gen::ShaderCompilationOptions;

verus! {

/// How a registered or inline shader source is interpreted.
#[derive(Debug, Clone, Copy, PartialEq, Eq, Structural, Hash)]
pub enum ShaderTemplateMode {
    /// A complete template.
    Template,
    /// A material body wrapped in the engine's standard prelude.
    MaterialBody,
}

/// Identifies the origin of a shader's WGSL source.
#[derive(Debug, Clone, Copy)]
pub enum ShaderSource<'a> {
    /// A named template: a registered override, else a built-in asset.
    File(&'a str),
    /// An inline source string, `name` serving as its label.
    Inline { name: &'a str, source: &'a str, mode: ShaderTemplateMode },
}

/// Allocates consecutive `@location(N)` indices while a template renders.
pub struct LocationAllocator {
    counter: u32,
}

impl LocationAllocator {
    /// The next index to hand out.
    pub closed spec fn spec_counter(&self) -> u32 {
        self.counter
    }

    /// An allocator starting at location 0.
    pub fn new() -> (r: Self)
        ensures
            r.spec_counter() == 0,
    {
        LocationAllocator { counter: 0 }
    }

    /// Hands out the current index and advances the counter (wrapping at
    /// the top of the range).
    pub fn next(&mut self) -> (r: u32)
        ensures
            r == old(self).spec_counter(),
            final(self).spec_counter() == if r == u32::MAX { 0 } else { (r + 1) as u32 },
    {
        let r = self.counter;
        self.counter = if r == u32::MAX { 0 } else { r + 1 };
        r
    }
}

/// The template function `next_loc`: the allocator's next index.
pub fn next_location(allocator: &mut LocationAllocator) -> (r: u32)
    ensures
        r == old(allocator).spec_counter(),
        final(allocator).spec_counter() == if r == u32::MAX { 0 } else { (r + 1) as u32 },
{
    allocator.next()
}

/// The byte tagging an inline source's interpretation mode.
pub open spec fn mode_tag(mode: ShaderTemplateMode) -> u8 {
    match mode {
        ShaderTemplateMode::Template => 0,
        ShaderTemplateMode::MaterialBody => 1,
    }
}

/// The identity bytes of a built-in template name.
pub open spec fn file_identity_bytes(name: Seq<char>) -> Seq<u8> {
    seq![0u8] + enc_str(name)
}

/// The identity bytes of a source text with its interpretation mode.
pub open spec fn inline_identity_bytes(source: Seq<char>, mode: ShaderTemplateMode) -> Seq<u8> {
    seq![1u8, mode_tag(mode)] + enc_str(source)
}

/// Source-identity hash of a built-in template name.
pub open spec fn spec_file_identity(name: Seq<char>) -> u64 {
    fx_hash_bytes(file_identity_bytes(name))
}

/// Source-identity hash of a source text and its interpretation mode.
pub open spec fn spec_inline_identity(source: Seq<char>, mode: ShaderTemplateMode) -> u64 {
    fx_hash_bytes(inline_identity_bytes(source, mode))
}

/// Pipeline-cache shader hash of a source identity and an options hash.
pub open spec fn spec_pipeline_shader_key(identity: u64, options_hash: u64) -> u64 {
    fx_hash_bytes(enc_u64(identity) + enc_u64(options_hash))
}

fn hash_file_template_identity(name: &str) -> (r: u64)
    ensures
        r == spec_file_identity(name@),
{
    let mut input = HashInput::new();
    input.push_u8(0);
    input.push_str(name);
    assert(input.view() =~= file_identity_bytes(name@));
    input.fx_finish()
}

fn hash_inline_template_identity(source: &str, mode: ShaderTemplateMode) -> (r: u64)
    ensures
        r == spec_inline_identity(source@, mode),
{
    let mut input = HashInput::new();
    input.push_u8(1);
    input.push_u8(
        match mode {
            ShaderTemplateMode::Template => 0,
            ShaderTemplateMode::MaterialBody => 1,
        },
    );
    input.push_str(source);
    assert(input.view() =~= inline_identity_bytes(source@, mode));
    input.fx_finish()
}

fn hash_pipeline_shader_key(source_identity_hash: u64, options_hash: u64) -> (r: u64)
    ensures
        r == spec_pipeline_shader_key(source_identity_hash, options_hash),
{
    let mut input = HashInput::new();
    input.push_u64(source_identity_hash);
    input.push_u64(options_hash);
    assert(input.view() =~= enc_u64(source_identity_hash) + enc_u64(options_hash));
    input.fx_finish()
}

/// A registered custom template: name, source text and mode.
pub type TemplateEntry = (Seq<char>, Seq<char>, ShaderTemplateMode);

struct RegisteredShaderTemplate {
    name: String,
    source: String,
    mode: ShaderTemplateMode,
    identity_hash: u64,
}

/// How the final WGSL of a shader source is produced.
#[derive(Debug)]
pub enum GenerationPlan {
    /// Render the built-in template of this name.
    BuiltIn { template_name: String },
    /// Render this text as a complete template.
    Custom { name: String, source: String },
    /// Wrap this material body in the standard prelude and render it.
    Material { name: String, body: String },
}

/// The extension `std::path::Path::extension` finds in `name`.
pub uninterp spec fn std_path_extension(name: Seq<char>) -> Option<Seq<char>>;

/// The extension of the path `name`, as `std::path::Path::extension` gives
/// it (the part of the last component after its last interior `.`). The
/// extension of a `&str` path is valid UTF-8, so it converts to a `String`
/// as is; nothing else is claimed of it.
#[verifier::external_body]
fn path_extension(name: &str) -> (r: Option<String>)
    ensures
        match r {
            Some(e) => std_path_extension(name@) == Some(e@),
            None => std_path_extension(name@) is None,
        },
{
    match std::path::Path::new(name).extension() {
        Some(e) => e.to_str().map(String::from),
        None => None,
    }
}

/// A byte after ASCII case folding.
pub open spec fn ascii_lower(c: u8) -> u8 {
    if 65 <= c && c <= 90 {
        (c + 32) as u8
    } else {
        c
    }
}

/// Equality up to ASCII case, as `str::eq_ignore_ascii_case` defines it:
/// same length, and bytewise equal after ASCII case folding.
pub open spec fn eq_ignore_ascii_case(a: Seq<u8>, b: Seq<u8>) -> bool {
    a.len() == b.len() && forall|i: int| 0 <= i < a.len() ==> ascii_lower(#[trigger] a[i]) == ascii_lower(b[i])
}

fn lower_byte(c: u8) -> (r: u8)
    ensures
        r == ascii_lower(c),
{
    if 65 <= c && c <= 90 {
        c + 32
    } else {
        c
    }
}

fn bytes_eq_ignore_ascii_case(a: &[u8], b: &[u8]) -> (r: bool)
    ensures
        r == eq_ignore_ascii_case(a@, b@),
{
    let n = a.len();
    if n != b.len() {
        return false;
    }
    let mut i: usize = 0;
    while i < n
        invariant
            i <= n,
            n == a@.len(),
            n == b@.len(),
            forall|j: int| 0 <= j < i ==> ascii_lower(#[trigger] a@[j]) == ascii_lower(b@[j]),
        decreases n - i,
    {
        if lower_byte(a[i]) != lower_byte(b[i]) {
            return false;
        }
        i = i + 1;
    }
    true
}

/// The file a template name is loaded from: the name itself when it already
/// has a `wgsl` extension (in any letter case), else the name with `.wgsl`
/// appended.
pub open spec fn spec_shader_file_name(name: Seq<char>) -> Seq<char> {
    match std_path_extension(name) {
        Some(e) => if eq_ignore_ascii_case(vstd::utf8::encode_utf8(e), vstd::utf8::encode_utf8("wgsl"@)) {
            name
        } else {
            name + ".wgsl"@
        },
        None => name + ".wgsl"@,
    }
}

/// The file name the shader loader looks up for template `name`.
pub fn shader_file_name(name: &str) -> (r: String)
    ensures
        r@ == spec_shader_file_name(name@),
{
    let has_wgsl_ext = match path_extension(name) {
        Some(e) => bytes_eq_ignore_ascii_case(e.as_str().as_bytes(), "wgsl".as_bytes()),
        None => false,
    };
    let mut r = name.to_owned();
    if !has_wgsl_ext {
        r.append(".wgsl");
    }
    r
}

/// Where a compiled shader module lives in the module cache.
#[derive(Debug, Clone, Copy, PartialEq, Eq, Structural)]
pub struct ModuleSlot {
    /// xxh3-128 of the final WGSL.
    pub hash: u128,
    /// Index of the module in the cache.
    pub index: usize,
    /// The module is new: it must be compiled and stored at `index`.
    pub created: bool,
}

/// Centralised shader bookkeeping: registered custom templates and the
/// final-source hashes of the compiled modules.
pub struct ShaderManager {
    custom_templates: Vec<RegisteredShaderTemplate>,
    module_hashes: Vec<u128>,
}

/// Whether `name` is registered.
pub open spec fn has_template(t: Seq<TemplateEntry>, name: Seq<char>) -> bool {
    exists|i: int| 0 <= i < t.len() && t[i].0 == name
}

/// The position of the registered template `name`.
pub open spec fn template_index(t: Seq<TemplateEntry>, name: Seq<char>) -> int {
    choose|i: int| 0 <= i < t.len() && t[i].0 == name
}

/// Registering `name`: an existing registration is replaced in place, a
/// new name is appended.
pub open spec fn spec_register(t: Seq<TemplateEntry>, name: Seq<char>, source: Seq<char>, mode: ShaderTemplateMode) -> Seq<TemplateEntry> {
    if has_template(t, name) {
        t.update(template_index(t, name), (name, source, mode))
    } else {
        t.push((name, source, mode))
    }
}

impl ShaderManager {
    /// The registered templates, in registration order.
    pub closed spec fn templates(&self) -> Seq<TemplateEntry> {
        self.custom_templates@.map_values(|t: RegisteredShaderTemplate| (t.name@, t.source@, t.mode))
    }

    /// Final-source hashes of the cached modules, by cache index.
    pub closed spec fn modules(&self) -> Seq<u128> {
        self.module_hashes@
    }

    /// Names are unique, module hashes are unique and every stored identity
    /// hash is the identity of its template's source.
    pub closed spec fn wf(&self) -> bool {
        &&& forall|i: int, j: int|
            0 <= i < self.custom_templates@.len() && 0 <= j < self.custom_templates@.len() && i != j
                ==> self.custom_templates@[i].name@ != self.custom_templates@[j].name@
        &&& forall|i: int, j: int|
            0 <= i < self.module_hashes@.len() && 0 <= j < self.module_hashes@.len() && i != j
                ==> self.module_hashes@[i] != self.module_hashes@[j]
        &&& forall|i: int|
            0 <= i < self.custom_templates@.len() ==> #[trigger] self.custom_templates@[i].identity_hash
                == spec_inline_identity(self.custom_templates@[i].source@, self.custom_templates@[i].mode)
    }

    /// The source-identity hash of `source`: a registered template's
    /// identity is that of its text and mode; an unregistered name hashes as
    /// a built-in name; inline sources hash their text and mode.
    pub open spec fn spec_source_identity(&self, source: ShaderSource) -> u64 {
        match source {
            ShaderSource::File(path) => {
                if has_template(self.templates(), path@) {
                    let e = self.templates()[template_index(self.templates(), path@)];
                    spec_inline_identity(e.1, e.2)
                } else {
                    spec_file_identity(path@)
                }
            },
            ShaderSource::Inline { name, source, mode } => spec_inline_identity(source@, mode),
        }
    }

    /// No templates, no modules.
    pub fn new() -> (r: Self)
        ensures
            r.wf(),
            r.templates() == Seq::<TemplateEntry>::empty(),
            r.modules() == Seq::<u128>::empty(),
    {
        let r = ShaderManager { custom_templates: Vec::new(), module_hashes: Vec::new() };
        assert(r.templates() =~= Seq::<TemplateEntry>::empty());
        r
    }

    fn find_template(&self, name: &String) -> (r: Option<usize>)
        requires
            self.wf(),
        ensures
            r matches Some(i) ==> i < self.templates().len() && has_template(self.templates(), name@)
                && template_index(self.templates(), name@) == i,
            r is None ==> !has_template(self.templates(), name@),
    {
        let mut i: usize = 0;
        while i < self.custom_templates.len()
            invariant
                self.wf(),
                i <= self.custom_templates@.len(),
                self.templates().len() == self.custom_templates@.len(),
                forall|j: int| 0 <= j < i ==> self.templates()[j].0 != name@,
            decreases self.custom_templates@.len() - i,
        {
            let ghost t = self.templates();
            assert(t[i as int].0 == self.custom_templates@[i as int].name@);
            if self.custom_templates[i].name == *name {
                assert(has_template(t, name@));
                let ghost k = template_index(t, name@);
                proof {
                    if k != i as int {
                        assert(self.custom_templates@[k].name@ == t[k].0);
                    }
                }
                return Some(i);
            }
            i = i + 1;
        }
        None
    }

    /// Registers a complete custom template under `name`; named lookups of
    /// `name` then use this source instead of a built-in template.
    pub fn register_template(&mut self, name: &str, source: &str)
        requires
            old(self).wf(),
        ensures
            final(self).wf(),
            final(self).templates() == spec_register(
                old(self).templates(),
                name@,
                source@,
                ShaderTemplateMode::Template,
            ),
            final(self).modules() == old(self).modules(),
    {
        self.register_template_with_mode(name, source, ShaderTemplateMode::Template);
    }

    /// Registers a custom source under `name` with an explicit mode.
    pub fn register_template_with_mode(&mut self, name: &str, source: &str, mode: ShaderTemplateMode)
        requires
            old(self).wf(),
        ensures
            final(self).wf(),
            final(self).templates() == spec_register(old(self).templates(), name@, source@, mode),
            final(self).modules() == old(self).modules(),
    {
        let n = name.to_owned();
        let identity_hash = hash_inline_template_identity(source, mode);
        let entry = RegisteredShaderTemplate {
            name: name.to_owned(),
            source: source.to_owned(),
            mode,
            identity_hash,
        };
        let ghost t = self.templates();
        match self.find_template(&n) {
            Some(i) => {
                self.custom_templates.set(i, entry);
                assert(self.templates() =~= t.update(i as int, (name@, source@, mode)));
            },
            None => {
                self.custom_templates.push(entry);
                assert(self.templates() =~= t.push((name@, source@, mode)));
            },
        }
        assert forall|i: int, j: int|
            0 <= i < self.custom_templates@.len() && 0 <= j < self.custom_templates@.len() && i != j
                implies self.custom_templates@[i].name@ != self.custom_templates@[j].name@ by {
            assert(self.templates()[i].0 == self.custom_templates@[i].name@);
            assert(self.templates()[j].0 == self.custom_templates@[j].name@);
        }
    }

    /// The stable source-identity hash for a named or inline shader.
    pub fn source_identity_hash(&self, source: ShaderSource) -> (r: u64)
        requires
            self.wf(),
        ensures
            r == self.spec_source_identity(source),
    {
        match source {
            ShaderSource::File(path) => {
                let p = path.to_owned();
                match self.find_template(&p) {
                    Some(i) => {
                        assert(self.templates()[i as int] == (
                            self.custom_templates@[i as int].name@,
                            self.custom_templates@[i as int].source@,
                            self.custom_templates@[i as int].mode,
                        ));
                        self.custom_templates[i].identity_hash
                    },
                    None => hash_file_template_identity(path),
                }
            },
            ShaderSource::Inline { name: _, source, mode } => hash_inline_template_identity(source, mode),
        }
    }

    /// The shader hash the pipeline cache keys graphics pipelines with: the
    /// source identity combined with the options hash.
    pub fn pipeline_shader_hash(&self, source: ShaderSource, options: &ShaderCompilationOptions) -> (r: u64)
        requires
            self.wf(),
        ensures
            r == spec_pipeline_shader_key(
                self.spec_source_identity(source),
                fx_hash_bytes(
                    crate::pipeline::shader_gen::enc_options(
                        options.defines.view(),
                        options.code_blocks.view(),
                    ),
                ),
            ),
    {
        let id = self.source_identity_hash(source);
        let opt = options.compute_hash();
        hash_pipeline_shader_key(id, opt)
    }

    /// How the final WGSL of `source` is produced. A named source uses its
    /// registered template if there is one (as a template or wrapped as a
    /// material body, per its mode) and the built-in template otherwise; an
    /// inline source is used as given, per its mode.
    pub fn plan_generation(&self, source: ShaderSource) -> (r: GenerationPlan)
        requires
            self.wf(),
        ensures
            match source {
                ShaderSource::File(path) => if has_template(self.templates(), path@) {
                    let e = self.templates()[template_index(self.templates(), path@)];
                    match e.2 {
                        ShaderTemplateMode::Template => r matches GenerationPlan::Custom { name, source }
                            && name@ == path@ && source@ == e.1,
                        ShaderTemplateMode::MaterialBody => r matches GenerationPlan::Material { name, body }
                            && name@ == path@ && body@ == e.1,
                    }
                } else {
                    r matches GenerationPlan::BuiltIn { template_name } && template_name@ == path@
                },
                ShaderSource::Inline { name: n, source: s, mode } => match mode {
                    ShaderTemplateMode::Template => r matches GenerationPlan::Custom { name, source }
                        && name@ == n@ && source@ == s@,
                    ShaderTemplateMode::MaterialBody => r matches GenerationPlan::Material { name, body }
                        && name@ == n@ && body@ == s@,
                },
            },
    {
        match source {
            ShaderSource::File(path) => {
                let p = path.to_owned();
                match self.find_template(&p) {
                    Some(i) => {
                        assert(self.templates()[i as int] == (
                            self.custom_templates@[i as int].name@,
                            self.custom_templates@[i as int].source@,
                            self.custom_templates@[i as int].mode,
                        ));
                        let src = self.custom_templates[i].source.clone();
                        match self.custom_templates[i].mode {
                            ShaderTemplateMode::Template => GenerationPlan::Custom { name: p, source: src },
                            ShaderTemplateMode::MaterialBody => GenerationPlan::Material { name: p, body: src },
                        }
                    },
                    None => GenerationPlan::BuiltIn { template_name: p },
                }
            },
            ShaderSource::Inline { name, source, mode } => match mode {
                ShaderTemplateMode::Template => GenerationPlan::Custom {
                    name: name.to_owned(),
                    source: source.to_owned(),
                },
                ShaderTemplateMode::MaterialBody => GenerationPlan::Material {
                    name: name.to_owned(),
                    body: source.to_owned(),
                },
            },
        }
    }

    /// Looks up the module for a final WGSL source by its xxh3-128 hash. An
    /// unseen source gets the next index and `created` is set (the module
    /// must be compiled and stored there); a seen source gets its index back.
    pub fn lookup_or_insert_module(&mut self, final_wgsl: &str) -> (r: ModuleSlot)
        requires
            old(self).wf(),
        ensures
            final(self).wf(),
            final(self).templates() == old(self).templates(),
            r.hash == xxh3_128_digest(vstd::utf8::encode_utf8(final_wgsl@)),
            r.created == !old(self).modules().contains(r.hash),
            r.created ==> r.index == old(self).modules().len() && final(self).modules() == old(
                self,
            ).modules().push(r.hash),
            !r.created ==> r.index < old(self).modules().len() && old(self).modules()[r.index as int]
                == r.hash && final(self).modules() == old(self).modules(),
    {
        let hash = xxh3_128(final_wgsl.as_bytes());
        let mut i: usize = 0;
        while i < self.module_hashes.len()
            invariant
                i <= self.module_hashes@.len(),
                self.wf(),
                self.modules() == old(self).modules(),
                self.templates() == old(self).templates(),
                hash == xxh3_128_digest(vstd::utf8::encode_utf8(final_wgsl@)),
                forall|j: int| 0 <= j < i ==> self.module_hashes@[j] != hash,
            decreases self.module_hashes@.len() - i,
        {
            if self.module_hashes[i] == hash {
                return ModuleSlot { hash, index: i, created: false };
            }
            i = i + 1;
        }
        let index = self.module_hashes.len();
        self.module_hashes.push(hash);
        ModuleSlot { hash, index, created: true }
    }

    /// Number of cached shader modules.
    pub fn module_count(&self) -> (r: usize)
        ensures
            r == self.modules().len(),
    {
        self.module_hashes.len()
    }
}

/// No two registered templates of a valid manager share a name.
pub open spec fn template_names_distinct(t: Seq<TemplateEntry>) -> bool {
    forall|i: int, j: int| 0 <= i < t.len() && 0 <= j < t.len() && i != j ==> t[i].0 != t[j].0
}

/// A valid manager registers each name at most once.
pub proof fn lemma_wf_template_names_distinct(m: &ShaderManager)
    requires
        m.wf(),
    ensures
        template_names_distinct(m.templates()),
{
    assert forall|i: int, j: int|
        0 <= i < m.templates().len() && 0 <= j < m.templates().len() && i != j implies m.templates()[i].0
        != m.templates()[j].0 by {
        assert(m.templates()[i].0 == m.custom_templates@[i].name@);
        assert(m.templates()[j].0 == m.custom_templates@[j].name@);
    }
}

/// On any valid manager, the latest registration under a name is what
/// lookups of that name find: after registering `source` (with `mode`)
/// under `name`, a named source `name` is the registered template (used
/// instead of the built-in one) and its identity is that of the registered
/// text and mode, as for an inline source with the same text and mode.
pub proof fn lemma_registered_template_overrides(
    before: &ShaderManager,
    after: &ShaderManager,
    path: &str,
    source: Seq<char>,
    mode: ShaderTemplateMode,
    inline_name: &str,
    inline_source: &str,
)
    requires
        before.wf(),
        after.templates() == spec_register(before.templates(), path@, source, mode),
        inline_source@ == source,
    ensures
        has_template(after.templates(), path@),
        after.templates()[template_index(after.templates(), path@)] == (path@, source, mode),
        after.spec_source_identity(ShaderSource::File(path)) == spec_inline_identity(source, mode),
        after.spec_source_identity(ShaderSource::File(path)) == after.spec_source_identity(
            ShaderSource::Inline { name: inline_name, source: inline_source, mode },
        ),
{
    lemma_wf_template_names_distinct(before);
    let t = before.templates();
    let t2 = after.templates();
    let name = path@;
    if has_template(t, name) {
        let k = template_index(t, name);
        assert(t2 == t.update(k, (name, source, mode)));
        assert(t2[k].0 == name);
        assert(has_template(t2, name));
        let k2 = template_index(t2, name);
        if k2 != k {
            assert(t2[k2] == t[k2]);
            assert(t[k].0 == name && t[k2].0 == name);
        }
    } else {
        let n = t.len() as int;
        assert(t2 == t.push((name, source, mode)));
        assert(t2[n].0 == name);
        assert(has_template(t2, name));
        let k2 = template_index(t2, name);
        if k2 != n {
            assert(t2[k2] == t[k2]);
            assert(has_template(t, name));
        }
    }
}

/// The label of a shader source (template name or inline name).
pub fn source_label<'a>(source: ShaderSource<'a>) -> (r: &'a str)
    ensures
        match source {
            ShaderSource::File(path) => r == path,
            ShaderSource::Inline { name, .. } => r == name,
        },
{
    match source {
        ShaderSource::File(path) => path,
        ShaderSource::Inline { name, .. } => name,
    }
}

/// A built-in name and an inline source never share identity bytes, and two
/// inline sources share them only when their modes are equal.
pub proof fn lemma_identity_bytes_distinct(name: Seq<char>, source: Seq<char>, mode: ShaderTemplateMode, source2: Seq<char>, mode2: ShaderTemplateMode)
    ensures
        file_identity_bytes(name) != inline_identity_bytes(source, mode),
        inline_identity_bytes(source, mode) == inline_identity_bytes(source2, mode2) ==> mode == mode2,
{
    assert(file_identity_bytes(name)[0] == 0u8);
    assert(inline_identity_bytes(source, mode)[0] == 1u8);
    if inline_identity_bytes(source, mode) == inline_identity_bytes(source2, mode2) {
        assert(inline_identity_bytes(source, mode)[1] == mode_tag(mode));
        assert(inline_identity_bytes(source2, mode2)[1] == mode_tag(mode2));
    }
}

} // verus!
