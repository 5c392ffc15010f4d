//! Procedural sky atmosphere: which LUTs are rebaked, when parameters are
//! uploaded, and which sky-to-cube pipeline variant a scene uses.
//!
//! The LUT chain is transmittance, multi-scatter, sky-view, then the bake of
//! the sky-view LUT into the scene's base cubemap. The first two depend only
//! on the physical parameters and are rebaked when those change.
use vstd::prelude::*;

use crate::format::ViewDimension;
use crate::graph::node::{BufferNodeId, TextureNodeId};
use crate::graph::passes::hiz_build::{div_ceil_spec, u32_div_ceil};
use crate::graph::passes::scene_cache::{is_fresh, fresh_part, SceneStateCache};
use crate::pipeline::cache::ComputePipelineId;
use crate::pipeline::hashing::{fx_hash_u32s, fx_hash_words};
use crate::pipeline::shader_defines::{spec_set, ShaderDefines};

verus! {

pub const TRANSMITTANCE_WIDTH: u32 = 256;
pub const TRANSMITTANCE_HEIGHT: u32 = 64;
pub const MULTI_SCATTER_SIZE: u32 = 32;
pub const SKY_VIEW_WIDTH: u32 = 192;
pub const SKY_VIEW_HEIGHT: u32 = 108;

/// The kind of star texture the sky-to-cube bake samples.
#[derive(Debug, Clone, Copy, PartialEq, Eq, Structural, Hash)]
pub enum AtmosphereStarboxKind {
    NoStarbox,
    Equirectangular,
    Cube,
}

impl AtmosphereStarboxKind {
    /// A 2D texture is an equirectangular starbox, a cube view a cube
    /// starbox; no other view dimension can be one.
    pub fn from_view_dimension(view_dimension: ViewDimension) -> (r: Option<Self>)
        ensures
            r == (match view_dimension {
                ViewDimension::D2 => Some(AtmosphereStarboxKind::Equirectangular),
                ViewDimension::Cube => Some(AtmosphereStarboxKind::Cube),
                _ => None,
            }),
    {
        match view_dimension {
            ViewDimension::D2 => Some(AtmosphereStarboxKind::Equirectangular),
            ViewDimension::Cube => Some(AtmosphereStarboxKind::Cube),
            _ => None,
        }
    }

    /// Adds the define that selects this starbox in the bake shader.
    pub fn apply_shader_defines(self, defines: &mut ShaderDefines)
        requires
            old(defines).wf(),
        ensures
            final(defines).wf(),
            final(defines).view() == (match self {
                AtmosphereStarboxKind::NoStarbox => old(defines).view(),
                AtmosphereStarboxKind::Equirectangular => spec_set(
                    old(defines).view(),
                    "CELESTIAL_STARBOX_EQUIRECT"@,
                    "1"@,
                ),
                AtmosphereStarboxKind::Cube => spec_set(
                    old(defines).view(),
                    "CELESTIAL_STARBOX_CUBE"@,
                    "1"@,
                ),
            }),
    {
        match self {
            AtmosphereStarboxKind::NoStarbox => {},
            AtmosphereStarboxKind::Equirectangular => {
                defines.set("CELESTIAL_STARBOX_EQUIRECT", "1");
            },
            AtmosphereStarboxKind::Cube => {
                defines.set("CELESTIAL_STARBOX_CUBE", "1");
            },
        }
    }
}

/// The variant of the sky-to-cube bake pipeline.
#[derive(Debug, Clone, Copy, PartialEq, Eq, Structural, Hash)]
pub struct AtmosphereSkyToCubePipelineKey {
    pub starbox_kind: AtmosphereStarboxKind,
    pub moon_texture: bool,
}

/// Position of a sky-to-cube variant in the order pipelines are created:
/// starbox kinds in declaration order, without a moon texture first.
pub open spec fn spec_key_slot(key: AtmosphereSkyToCubePipelineKey) -> int {
    (match key.starbox_kind {
        AtmosphereStarboxKind::NoStarbox => 0int,
        AtmosphereStarboxKind::Equirectangular => 2,
        AtmosphereStarboxKind::Cube => 4,
    }) + if key.moon_texture { 1int } else { 0 }
}

impl AtmosphereSkyToCubePipelineKey {
    /// Adds the defines of this variant: the starbox's, then `USE_MOON_TEXTURE`
    /// when the moon is textured.
    pub fn apply_shader_defines(self, defines: &mut ShaderDefines)
        requires
            old(defines).wf(),
        ensures
            final(defines).wf(),
            final(defines).view() == ({
                let s = match self.starbox_kind {
                    AtmosphereStarboxKind::NoStarbox => old(defines).view(),
                    AtmosphereStarboxKind::Equirectangular => spec_set(
                        old(defines).view(),
                        "CELESTIAL_STARBOX_EQUIRECT"@,
                        "1"@,
                    ),
                    AtmosphereStarboxKind::Cube => spec_set(
                        old(defines).view(),
                        "CELESTIAL_STARBOX_CUBE"@,
                        "1"@,
                    ),
                };
                if self.moon_texture {
                    spec_set(s, "USE_MOON_TEXTURE"@, "1"@)
                } else {
                    s
                }
            }),
    {
        self.starbox_kind.apply_shader_defines(defines);
        if self.moon_texture {
            defines.set("USE_MOON_TEXTURE", "1");
        }
    }

    /// Position of this variant among the six sky-to-cube pipelines.
    pub fn slot(self) -> (r: usize)
        ensures
            r == spec_key_slot(self),
            r < 6,
    {
        let base: usize = match self.starbox_kind {
            AtmosphereStarboxKind::NoStarbox => 0,
            AtmosphereStarboxKind::Equirectangular => 2,
            AtmosphereStarboxKind::Cube => 4,
        };
        if self.moon_texture {
            base + 1
        } else {
            base
        }
    }
}

/// The six sky-to-cube variants in the order their pipelines are created.
pub fn sky_to_cube_pipeline_keys() -> (r: Vec<AtmosphereSkyToCubePipelineKey>)
    ensures
        r@.len() == 6,
        forall|i: int| 0 <= i < 6 ==> spec_key_slot(#[trigger] r@[i]) == i,
{
    let mut keys: Vec<AtmosphereSkyToCubePipelineKey> = Vec::new();
    let kinds = [
        AtmosphereStarboxKind::NoStarbox,
        AtmosphereStarboxKind::Equirectangular,
        AtmosphereStarboxKind::Cube,
    ];
    let mut k: usize = 0;
    while k < 3
        invariant
            k <= 3,
            kinds@ == seq![
                AtmosphereStarboxKind::NoStarbox,
                AtmosphereStarboxKind::Equirectangular,
                AtmosphereStarboxKind::Cube,
            ],
            keys@.len() == 2 * k,
            forall|i: int| 0 <= i < 2 * k ==> spec_key_slot(#[trigger] keys@[i]) == i,
        decreases 3 - k,
    {
        let starbox_kind = kinds[k];
        keys.push(AtmosphereSkyToCubePipelineKey { starbox_kind, moon_texture: false });
        keys.push(AtmosphereSkyToCubePipelineKey { starbox_kind, moon_texture: true });
        k = k + 1;
    }
    keys
}

/// Sky-to-cube variant keys map to distinct pipeline slots.
pub proof fn lemma_key_slot_injective(a: AtmosphereSkyToCubePipelineKey, b: AtmosphereSkyToCubePipelineKey)
    requires
        spec_key_slot(a) == spec_key_slot(b),
    ensures
        a == b,
{
}

/// The physical parameters the LUTs depend on, as the bit patterns of the
/// scene's `f32` values.
#[derive(Debug, Clone, Copy)]
pub struct AtmospherePhysics {
    pub rayleigh_scattering: [u32; 3],
    pub rayleigh_scale_height: u32,
    pub mie_scattering: u32,
    pub mie_absorption: u32,
    pub mie_scale_height: u32,
    pub mie_anisotropy: u32,
    pub ozone_absorption: [u32; 3],
    pub planet_radius: u32,
    pub atmosphere_radius: u32,
}

/// The words hashed for the physics fingerprint, in order.
pub open spec fn physics_words(p: AtmospherePhysics) -> Seq<u32> {
    seq![
        p.rayleigh_scattering[0],
        p.rayleigh_scattering[1],
        p.rayleigh_scattering[2],
        p.rayleigh_scale_height,
        p.mie_scattering,
        p.mie_absorption,
        p.mie_scale_height,
        p.mie_anisotropy,
        p.ozone_absorption[0],
        p.ozone_absorption[1],
        p.ozone_absorption[2],
        p.planet_radius,
        p.atmosphere_radius,
    ]
}

/// Fingerprint of the physical parameters: FxHash of their bit patterns.
pub fn physics_hash(params: &AtmospherePhysics) -> (r: u64)
    ensures
        r == fx_hash_u32s(physics_words(*params)),
{
    let words: Vec<u32> = vec![
        params.rayleigh_scattering[0],
        params.rayleigh_scattering[1],
        params.rayleigh_scattering[2],
        params.rayleigh_scale_height,
        params.mie_scattering,
        params.mie_absorption,
        params.mie_scale_height,
        params.mie_anisotropy,
        params.ozone_absorption[0],
        params.ozone_absorption[1],
        params.ozone_absorption[2],
        params.planet_radius,
        params.atmosphere_radius,
    ];
    assert(words@ =~= physics_words(*params));
    fx_hash_words(words.as_slice())
}

/// A starbox texture that resolved to a usable view.
#[derive(Debug, Clone, Copy, PartialEq, Eq, Structural)]
pub struct ResolvedAtmosphereStarbox {
    pub resource_id: u64,
    pub kind: AtmosphereStarboxKind,
}

/// The moon texture bound to the bake: the scene's, or a white fallback.
#[derive(Debug, Clone, Copy, PartialEq, Eq, Structural)]
pub struct ResolvedAtmosphereMoonTexture {
    pub resource_id: u64,
    pub enabled: bool,
}

/// A starbox texture of view dimension `dimension`, if it can be one.
pub fn resolve_starbox(resource_id: u64, dimension: ViewDimension) -> (r: Option<ResolvedAtmosphereStarbox>)
    ensures
        r == (match dimension {
            ViewDimension::D2 => Some(ResolvedAtmosphereStarbox { resource_id, kind: AtmosphereStarboxKind::Equirectangular }),
            ViewDimension::Cube => Some(ResolvedAtmosphereStarbox { resource_id, kind: AtmosphereStarboxKind::Cube }),
            _ => None,
        }),
{
    match AtmosphereStarboxKind::from_view_dimension(dimension) {
        Some(kind) => Some(ResolvedAtmosphereStarbox { resource_id, kind }),
        None => None,
    }
}

/// A moon texture of view dimension `dimension`: only 2D textures are used.
pub fn resolve_moon_texture(resource_id: u64, dimension: ViewDimension) -> (r: Option<ResolvedAtmosphereMoonTexture>)
    ensures
        r == (if dimension == ViewDimension::D2 {
            Some(ResolvedAtmosphereMoonTexture { resource_id, enabled: true })
        } else {
            None
        }),
{
    match dimension {
        ViewDimension::D2 => Some(ResolvedAtmosphereMoonTexture { resource_id, enabled: true }),
        _ => None,
    }
}

/// The fallback moon texture: a white texture, with the moon texture
/// disabled.
pub fn fallback_moon_texture(white_texture_id: u64) -> (r: ResolvedAtmosphereMoonTexture)
    ensures
        r == (ResolvedAtmosphereMoonTexture { resource_id: white_texture_id, enabled: false }),
{
    ResolvedAtmosphereMoonTexture { resource_id: white_texture_id, enabled: false }
}

/// What the feature keeps per scene.
#[derive(Debug, Clone, Copy, PartialEq, Eq, Structural)]
pub struct AtmosphereSceneState {
    /// Fingerprint of the physics the LUTs were last asked for.
    pub physics_hash: u64,
    /// Whether the transmittance and multi-scatter LUTs must be rebaked.
    pub physics_dirty: bool,
    /// Parameter version last written to the uniform buffers.
    pub uploaded_version: u64,
    pub starbox: Option<ResolvedAtmosphereStarbox>,
    pub moon_texture: ResolvedAtmosphereMoonTexture,
}

/// The state of a scene seen for the first time: nothing baked, nothing
/// uploaded.
pub open spec fn spec_initial_state(moon: ResolvedAtmosphereMoonTexture) -> AtmosphereSceneState {
    AtmosphereSceneState {
        physics_hash: u64::MAX,
        physics_dirty: true,
        uploaded_version: u64::MAX,
        starbox: None,
        moon_texture: moon,
    }
}

/// Observing physics of fingerprint `h`: a new fingerprint marks the LUTs
/// dirty; the same one changes nothing.
pub open spec fn spec_observe_physics(s: AtmosphereSceneState, h: u64) -> AtmosphereSceneState {
    if s.physics_hash != h {
        AtmosphereSceneState { physics_hash: h, physics_dirty: true, ..s }
    } else {
        s
    }
}

/// The GPU pipelines of the feature, created once.
pub struct AtmospherePipelines {
    pub transmittance: ComputePipelineId,
    pub multi_scatter: ComputePipelineId,
    pub sky_view: ComputePipelineId,
    /// Indexed by `AtmosphereSkyToCubePipelineKey::slot`.
    pub sky_to_cube: Vec<ComputePipelineId>,
}

/// What the frame graph is built from for one scene.
#[derive(Debug, Clone, Copy, PartialEq, Eq, Structural)]
pub struct AtmosphereGraphPlan {
    /// Transmittance and multi-scatter are recomputed; otherwise their
    /// persistent LUTs are imported as they are.
    pub rebuild_physics: bool,
    /// The sky-view LUT is baked into the base cubemap.
    pub bake_sky_to_cube: bool,
    pub sky_to_cube_key: AtmosphereSkyToCubePipelineKey,
}

/// An upload of parameter version `version` for `scene_id`: needed when the
/// scene has state and last uploaded another version, which it then records.
pub open spec fn spec_upload(m: Map<u32, (u64, AtmosphereSceneState)>, scene_id: u32, version: u64) -> (
    bool,
    Map<u32, (u64, AtmosphereSceneState)>,
) {
    if m.contains_key(scene_id) && m[scene_id].1.uploaded_version != version {
        (
            true,
            m.insert(scene_id, (m[scene_id].0, AtmosphereSceneState { uploaded_version: version, ..m[scene_id].1 })),
        )
    } else {
        (false, m)
    }
}

/// Each parameter version is written at most once: asking again for the
/// version just uploaded writes nothing and changes nothing.
pub proof fn lemma_upload_once(m: Map<u32, (u64, AtmosphereSceneState)>, scene_id: u32, version: u64)
    ensures
        ({
            let (_, m1) = spec_upload(m, scene_id, version);
            let (r2, m2) = spec_upload(m1, scene_id, version);
            !r2 && m2 == m1
        }),
{
}

/// The bake variant a scene state selects.
pub open spec fn spec_sky_to_cube_key(s: AtmosphereSceneState) -> AtmosphereSkyToCubePipelineKey {
    AtmosphereSkyToCubePipelineKey {
        starbox_kind: match s.starbox {
            Some(sb) => sb.kind,
            None => AtmosphereStarboxKind::NoStarbox,
        },
        moon_texture: s.moon_texture.enabled,
    }
}

/// The procedural atmosphere feature.
pub struct AtmosphereFeature {
    pipelines: Option<AtmospherePipelines>,
    scene_states: SceneStateCache<AtmosphereSceneState>,
}

impl AtmosphereFeature {
    /// Per-scene states with their last-used frames.
    pub closed spec fn states(&self) -> Map<u32, (u64, AtmosphereSceneState)> {
        self.scene_states.view()
    }

    pub closed spec fn has_pipelines(&self) -> bool {
        self.pipelines is Some
    }

    /// The sky-to-cube pipelines, by variant slot.
    pub closed spec fn sky_to_cube_ids(&self) -> Seq<ComputePipelineId> {
        match self.pipelines {
            Some(p) => p.sky_to_cube@,
            None => Seq::empty(),
        }
    }

    pub closed spec fn wf(&self) -> bool {
        &&& self.scene_states.wf()
        &&& (self.pipelines matches Some(p) ==> p.sky_to_cube@.len() == 6)
    }

    /// A feature with no pipelines and no scene state.
    pub fn new() -> (r: Self)
        ensures
            r.wf(),
            !r.has_pipelines(),
            r.states() == Map::<u32, (u64, AtmosphereSceneState)>::empty(),
    {
        AtmosphereFeature { pipelines: None, scene_states: SceneStateCache::new() }
    }

    /// Whether the pipelines still have to be created.
    pub fn needs_pipelines(&self) -> (r: bool)
        ensures
            r == !self.has_pipelines(),
    {
        self.pipelines.is_none()
    }

    /// Installs the pipelines, the sky-to-cube ones in the order of
    /// `sky_to_cube_pipeline_keys`.
    pub fn install_pipelines(&mut self, pipelines: AtmospherePipelines)
        requires
            old(self).wf(),
            pipelines.sky_to_cube@.len() == 6,
        ensures
            final(self).wf(),
            final(self).has_pipelines(),
            final(self).sky_to_cube_ids() == pipelines.sky_to_cube@,
            final(self).states() == old(self).states(),
    {
        self.pipelines = Some(pipelines);
    }

    /// The sky-to-cube pipeline of variant `key`, once pipelines exist.
    pub fn sky_to_cube_pipeline(&self, key: AtmosphereSkyToCubePipelineKey) -> (r: Option<ComputePipelineId>)
        requires
            self.wf(),
        ensures
            r is Some == self.has_pipelines(),
            r matches Some(id) ==> id == self.sky_to_cube_ids()[spec_key_slot(key)],
    {
        match &self.pipelines {
            Some(p) => Some(p.sky_to_cube[key.slot()]),
            None => None,
        }
    }

    /// The state of `scene_id`, if it has one.
    pub fn scene_state(&self, scene_id: u32) -> (r: Option<AtmosphereSceneState>)
        requires
            self.wf(),
        ensures
            r == (if self.states().contains_key(scene_id) {
                Some(self.states()[scene_id].1)
            } else {
                None
            }),
    {
        match self.scene_states.get(scene_id) {
            Some(s) => Some(*s),
            None => None,
        }
    }

    /// Makes sure `scene_id` has state, marks it used in `frame_index`, and
    /// records the fingerprint of its physics; a changed fingerprint marks
    /// the physics LUTs for rebaking. A new scene starts with nothing baked
    /// or uploaded and with the fallback moon texture.
    pub fn ensure_scene_state(
        &mut self,
        scene_id: u32,
        frame_index: u64,
        next_physics_hash: u64,
        fallback_moon: ResolvedAtmosphereMoonTexture,
    )
        requires
            old(self).wf(),
        ensures
            final(self).wf(),
            final(self).has_pipelines() == old(self).has_pipelines(),
            final(self).states() == old(self).states().insert(
                scene_id,
                (
                    frame_index,
                    spec_observe_physics(
                        if old(self).states().contains_key(scene_id) {
                            old(self).states()[scene_id].1
                        } else {
                            spec_initial_state(fallback_moon)
                        },
                        next_physics_hash,
                    ),
                ),
            ),
    {
        let base = match self.scene_states.get(scene_id) {
            Some(s) => *s,
            None => AtmosphereSceneState {
                physics_hash: u64::MAX,
                physics_dirty: true,
                uploaded_version: u64::MAX,
                starbox: None,
                moon_texture: fallback_moon,
            },
        };
        let next = if base.physics_hash != next_physics_hash {
            AtmosphereSceneState { physics_hash: next_physics_hash, physics_dirty: true, ..base }
        } else {
            base
        };
        self.scene_states.insert(scene_id, frame_index, next);
    }

    /// Records the resolved starbox of `scene_id` (`None` when it has none or
    /// it could not be used); a scene without state is left out.
    pub fn update_starbox_state(&mut self, scene_id: u32, starbox: Option<ResolvedAtmosphereStarbox>)
        requires
            old(self).wf(),
        ensures
            final(self).wf(),
            final(self).has_pipelines() == old(self).has_pipelines(),
            final(self).states() == (if old(self).states().contains_key(scene_id) {
                old(self).states().insert(
                    scene_id,
                    (old(self).states()[scene_id].0, AtmosphereSceneState { starbox, ..old(self).states()[scene_id].1 }),
                )
            } else {
                old(self).states()
            }),
    {
        match self.scene_states.get(scene_id) {
            Some(s) => {
                let next = AtmosphereSceneState { starbox, ..*s };
                self.scene_states.set_state(scene_id, next);
            },
            None => {},
        }
    }

    /// Records the moon texture of `scene_id`: the resolved one, or the
    /// fallback when it has none or it could not be used; a scene without
    /// state is left out.
    pub fn update_moon_texture_state(
        &mut self,
        scene_id: u32,
        moon_texture: Option<ResolvedAtmosphereMoonTexture>,
        fallback: ResolvedAtmosphereMoonTexture,
    )
        requires
            old(self).wf(),
        ensures
            final(self).wf(),
            final(self).has_pipelines() == old(self).has_pipelines(),
            final(self).states() == (if old(self).states().contains_key(scene_id) {
                old(self).states().insert(
                    scene_id,
                    (
                        old(self).states()[scene_id].0,
                        AtmosphereSceneState {
                            moon_texture: match moon_texture {
                                Some(m) => m,
                                None => fallback,
                            },
                            ..old(self).states()[scene_id].1
                        },
                    ),
                )
            } else {
                old(self).states()
            }),
    {
        let moon = match moon_texture {
            Some(m) => m,
            None => fallback,
        };
        match self.scene_states.get(scene_id) {
            Some(s) => {
                let next = AtmosphereSceneState { moon_texture: moon, ..*s };
                self.scene_states.set_state(scene_id, next);
            },
            None => {},
        }
    }

    /// Evicts the state of scenes not used in the last `SCENE_CACHE_TTL`
    /// frames.
    pub fn prune_scene_states(&mut self, current_frame: u64)
        requires
            old(self).wf(),
        ensures
            final(self).wf(),
            final(self).has_pipelines() == old(self).has_pipelines(),
            final(self).states() == fresh_part(old(self).states(), current_frame),
    {
        self.scene_states.prune(current_frame);
    }

    /// The per-frame preparation of `scene_id`: its state is ensured and
    /// marked used, the starbox and moon texture are recorded, and stale
    /// scenes are evicted.
    pub fn extract_and_prepare(
        &mut self,
        scene_id: u32,
        frame_index: u64,
        physics: &AtmospherePhysics,
        starbox: Option<ResolvedAtmosphereStarbox>,
        moon_texture: Option<ResolvedAtmosphereMoonTexture>,
        fallback_moon: ResolvedAtmosphereMoonTexture,
    )
        requires
            old(self).wf(),
        ensures
            final(self).wf(),
            final(self).has_pipelines() == old(self).has_pipelines(),
            final(self).states() == fresh_part(
                old(self).states().insert(
                    scene_id,
                    (
                        frame_index,
                        AtmosphereSceneState {
                            starbox,
                            moon_texture: match moon_texture {
                                Some(m) => m,
                                None => fallback_moon,
                            },
                            ..spec_observe_physics(
                                if old(self).states().contains_key(scene_id) {
                                    old(self).states()[scene_id].1
                                } else {
                                    spec_initial_state(fallback_moon)
                                },
                                fx_hash_u32s(physics_words(*physics)),
                            )
                        },
                    ),
                ),
                frame_index,
            ),
            final(self).states().contains_key(scene_id),
    {
        let h = physics_hash(physics);
        self.ensure_scene_state(scene_id, frame_index, h, fallback_moon);
        self.update_starbox_state(scene_id, starbox);
        self.update_moon_texture_state(scene_id, moon_texture, fallback_moon);
        self.prune_scene_states(frame_index);
        proof {
            assert(is_fresh(frame_index, frame_index));
        }
    }

    /// How the graph is built for `scene_id`, whose state must have been
    /// prepared: the physics LUTs are recomputed while they are dirty, the
    /// sky-view LUT is baked into the cubemap when the environment needs
    /// computing, and the bake variant follows the scene's starbox and moon.
    pub fn plan_graph(&self, scene_id: u32, bake_environment: bool) -> (r: AtmosphereGraphPlan)
        requires
            self.wf(),
            self.states().contains_key(scene_id),
        ensures
            r == (AtmosphereGraphPlan {
                rebuild_physics: self.states()[scene_id].1.physics_dirty,
                bake_sky_to_cube: bake_environment,
                sky_to_cube_key: spec_sky_to_cube_key(self.states()[scene_id].1),
            }),
    {
        let state = *self.scene_states.get(scene_id).unwrap();
        let starbox_kind = match state.starbox {
            Some(sb) => sb.kind,
            None => AtmosphereStarboxKind::NoStarbox,
        };
        AtmosphereGraphPlan {
            rebuild_physics: state.physics_dirty,
            bake_sky_to_cube: bake_environment,
            sky_to_cube_key: AtmosphereSkyToCubePipelineKey {
                starbox_kind,
                moon_texture: state.moon_texture.enabled,
            },
        }
    }

    /// Whether the parameter buffers of `scene_id` must be written for
    /// parameter version `version`; when they must, the version is recorded
    /// as uploaded. Each version is written at most once.
    pub fn update_if_needed(&mut self, scene_id: u32, version: u64) -> (r: bool)
        requires
            old(self).wf(),
        ensures
            final(self).wf(),
            final(self).has_pipelines() == old(self).has_pipelines(),
            (r, final(self).states()) == spec_upload(old(self).states(), scene_id, version),
    {
        match self.scene_states.get(scene_id) {
            Some(s) => {
                if s.uploaded_version == version {
                    false
                } else {
                    let next = AtmosphereSceneState { uploaded_version: version, ..*s };
                    self.scene_states.set_state(scene_id, next);
                    true
                }
            },
            None => false,
        }
    }

    /// The multi-scatter LUT of `scene_id` has been recomputed: the physics
    /// LUTs are current again.
    pub fn finish_physics_bake(&mut self, scene_id: u32)
        requires
            old(self).wf(),
        ensures
            final(self).wf(),
            final(self).has_pipelines() == old(self).has_pipelines(),
            final(self).states() == (if old(self).states().contains_key(scene_id) {
                old(self).states().insert(
                    scene_id,
                    (
                        old(self).states()[scene_id].0,
                        AtmosphereSceneState { physics_dirty: false, ..old(self).states()[scene_id].1 },
                    ),
                )
            } else {
                old(self).states()
            }),
    {
        match self.scene_states.get(scene_id) {
            Some(s) => {
                let next = AtmosphereSceneState { physics_dirty: false, ..*s };
                self.scene_states.set_state(scene_id, next);
            },
            None => {},
        }
    }
}

/// The physics LUTs are rebaked exactly when the physics changed: observing
/// a new fingerprint marks them dirty, and once baked, observing the same
/// fingerprint again leaves them clean.
pub proof fn lemma_rebake_only_on_physics_change(s: AtmosphereSceneState, h: u64)
    ensures
        spec_observe_physics(s, h).physics_hash == h,
        s.physics_hash != h ==> spec_observe_physics(s, h).physics_dirty,
        s.physics_hash == h ==> spec_observe_physics(s, h) == s,
        ({
            let baked = AtmosphereSceneState { physics_dirty: false, ..spec_observe_physics(s, h) };
            !spec_observe_physics(baked, h).physics_dirty
        }),
{
}

/// A new scene always bakes its physics LUTs first, whatever its physics.
pub proof fn lemma_new_scene_bakes(moon: ResolvedAtmosphereMoonTexture, h: u64)
    ensures
        spec_observe_physics(spec_initial_state(moon), h).physics_dirty,
{
}

/// Workgroups of an 8x8 compute dispatch over a `width` x `height` LUT.
pub fn lut_dispatch_size(width: u32, height: u32) -> (r: (u32, u32))
    ensures
        r.0 == div_ceil_spec(width as nat, 8),
        r.1 == div_ceil_spec(height as nat, 8),
{
    (u32_div_ceil(width, 8), u32_div_ceil(height, 8))
}

/// Graph resources the skybox pass reads from the atmosphere.
#[derive(Debug, Clone, Copy, PartialEq, Eq, Structural)]
pub struct AtmosphereGraphOutput {
    pub sky_view: TextureNodeId,
    pub transmittance: TextureNodeId,
    pub bake_params: BufferNodeId,
}

impl AtmosphereGraphOutput {
    /// The textures the skybox depends on: the sky-view and transmittance
    /// LUTs.
    pub fn skybox_dependencies(&self) -> (r: [Option<TextureNodeId>; 2])
        ensures
            r@ == seq![Some(self.sky_view), Some(self.transmittance)],
    {
        let r = [Some(self.sky_view), Some(self.transmittance)];
        assert(r@ =~= seq![Some(self.sky_view), Some(self.transmittance)]);
        r
    }
}

} // verus!
