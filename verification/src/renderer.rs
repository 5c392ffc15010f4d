//! Renderer-level bookkeeping: runtime settings, surface size and the
//! headless readback layout.
use vstd::prelude::*;

verus! {

/// Row pitch alignment that buffer copies from textures must respect.
pub const COPY_BYTES_PER_ROW_ALIGNMENT: u32 = 256;

/// Layout of the staging buffer that receives a `width x height` texture.
#[derive(Debug, Clone, Copy, PartialEq, Eq, Structural)]
pub struct ReadbackLayout {
    pub width: u32,
    pub height: u32,
    pub bytes_per_pixel: u32,
    /// Bytes of pixel data in one row.
    pub unpadded_bytes_per_row: u32,
    /// Row pitch rounded up to the copy alignment.
    pub padded_bytes_per_row: u32,
    /// Total staging buffer size.
    pub buffer_size: u64,
}

/// Why a readback cannot start.
#[derive(Debug, Clone, Copy, PartialEq, Eq, Structural)]
pub enum ReadbackError {
    /// The renderer has no GPU context yet.
    NotInitialized,
    /// The renderer does not draw into a headless target.
    NoHeadlessTarget,
    /// The target's format has no fixed per-pixel copy size.
    UnsupportedFormat,
}

/// The checks a readback makes before copying, in order: a GPU context, a
/// headless target, and a format whose pixels have a copy size (given as
/// `bytes_per_pixel`). On success, the pixel size.
pub fn readback_precheck(initialized: bool, has_headless_target: bool, bytes_per_pixel: Option<u32>) -> (r: Result<
    u32,
    ReadbackError,
>)
    ensures
        r == (if !initialized {
            Err(ReadbackError::NotInitialized)
        } else if !has_headless_target {
            Err(ReadbackError::NoHeadlessTarget)
        } else {
            match bytes_per_pixel {
                Some(b) => Ok(b),
                None => Err(ReadbackError::UnsupportedFormat),
            }
        }),
{
    if !initialized {
        return Err(ReadbackError::NotInitialized);
    }
    if !has_headless_target {
        return Err(ReadbackError::NoHeadlessTarget);
    }
    match bytes_per_pixel {
        Some(b) => Ok(b),
        None => Err(ReadbackError::UnsupportedFormat),
    }
}

/// The staging buffer is reallocated only when the size it must have changed.
pub fn readback_buffer_needs_alloc(cached_size: u64, buffer_size: u64) -> (r: bool)
    ensures
        r == (cached_size != buffer_size),
{
    cached_size != buffer_size
}

/// The most lights a frame extracts: as many as both the light storage and
/// the per-light view positions (16 bytes each) fit in one storage binding.
pub fn max_extracted_light_count(max_storage_binding_size: usize, light_size: usize) -> (r: usize)
    requires
        light_size > 0,
    ensures
        r == (if max_storage_binding_size / light_size <= max_storage_binding_size / 16 {
            max_storage_binding_size / light_size
        } else {
            max_storage_binding_size / 16
        }),
{
    let by_lights = max_storage_binding_size / light_size;
    let by_positions = max_storage_binding_size / 16;
    if by_lights <= by_positions {
        by_lights
    } else {
        by_positions
    }
}

/// `x` rounded up to a multiple of `align`.
pub open spec fn round_up(x: nat, align: nat) -> nat
    recommends
        align > 0,
{
    (((x + align - 1) as nat) / align) * align
}

/// The layout for the given extent: rows of `width * bytes_per_pixel` bytes,
/// each padded to the copy alignment, `height` rows in total.
pub open spec fn spec_readback_layout(width: u32, height: u32, bytes_per_pixel: u32) -> ReadbackLayout {
    let unpadded = width * bytes_per_pixel;
    let padded = round_up(unpadded as nat, COPY_BYTES_PER_ROW_ALIGNMENT as nat);
    ReadbackLayout {
        width,
        height,
        bytes_per_pixel,
        unpadded_bytes_per_row: unpadded as u32,
        padded_bytes_per_row: padded as u32,
        buffer_size: (padded * height) as u64,
    }
}

/// Computes the staging layout of a readback.
pub fn readback_layout(width: u32, height: u32, bytes_per_pixel: u32) -> (r: ReadbackLayout)
    requires
        width * bytes_per_pixel + COPY_BYTES_PER_ROW_ALIGNMENT - 1 <= u32::MAX,
    ensures
        r == spec_readback_layout(width, height, bytes_per_pixel),
        r.unpadded_bytes_per_row <= r.padded_bytes_per_row,
        r.padded_bytes_per_row < r.unpadded_bytes_per_row + COPY_BYTES_PER_ROW_ALIGNMENT,
        r.padded_bytes_per_row % COPY_BYTES_PER_ROW_ALIGNMENT == 0,
{
    assert(width * bytes_per_pixel <= u32::MAX) by (nonlinear_arith)
        requires width * bytes_per_pixel + COPY_BYTES_PER_ROW_ALIGNMENT - 1 <= u32::MAX;
    let unpadded: u32 = width * bytes_per_pixel;
    let align = COPY_BYTES_PER_ROW_ALIGNMENT;
    let padded: u32 = ((unpadded + (align - 1)) / align) * align;
    assert(padded <= unpadded + align - 1);
    assert(padded as u64 * height as u64 <= u64::MAX) by (nonlinear_arith)
        requires padded <= u32::MAX, height <= u32::MAX;
    let buffer_size: u64 = (padded as u64) * (height as u64);
    ReadbackLayout {
        width,
        height,
        bytes_per_pixel,
        unpadded_bytes_per_row: unpadded,
        padded_bytes_per_row: padded,
        buffer_size,
    }
}

/// The first `rows` rows of a padded image, concatenated without padding.
pub open spec fn spec_strip_rows(mapped: Seq<u8>, unpadded: nat, padded: nat, rows: nat) -> Seq<u8>
    decreases rows,
{
    if rows == 0 {
        Seq::empty()
    } else {
        let start = (rows - 1) * padded;
        spec_strip_rows(mapped, unpadded, padded, (rows - 1) as nat) + mapped.subrange(
            start as int,
            start + unpadded,
        )
    }
}

/// Strips the per-row padding of a mapped readback buffer, producing tightly
/// packed rows, top to bottom.
pub fn strip_row_padding(mapped: &[u8], layout: &ReadbackLayout) -> (pixels: Vec<u8>)
    requires
        layout.unpadded_bytes_per_row <= layout.padded_bytes_per_row,
        layout.height * layout.padded_bytes_per_row <= mapped@.len(),
    ensures
        pixels@ == spec_strip_rows(
            mapped@,
            layout.unpadded_bytes_per_row as nat,
            layout.padded_bytes_per_row as nat,
            layout.height as nat,
        ),
{
    let height = layout.height;
    let unpadded = layout.unpadded_bytes_per_row as usize;
    let padded = layout.padded_bytes_per_row as usize;
    let total = mapped.len();
    let mut pixels: Vec<u8> = Vec::new();
    let mut row: u32 = 0;
    while row < height
        invariant
            row <= height,
            height == layout.height,
            unpadded == layout.unpadded_bytes_per_row,
            padded == layout.padded_bytes_per_row,
            unpadded <= padded,
            height * padded <= mapped@.len(),
            total == mapped@.len(),
            pixels@ == spec_strip_rows(mapped@, unpadded as nat, padded as nat, row as nat),
        decreases height - row,
    {
        assert((row + 1) * padded <= height * padded) by (nonlinear_arith)
            requires row + 1 <= height;
        assert(row * padded + padded == (row + 1) * padded) by (nonlinear_arith);
        assert(row * padded + padded <= mapped@.len());
        let start: usize = (row as usize) * padded;
        let ghost before = pixels@;
        let mut c: usize = 0;
        while c < unpadded
            invariant
                c <= unpadded <= padded,
                start == row * padded,
                start + padded <= mapped@.len(),
                total == mapped@.len(),
                pixels@ == before + mapped@.subrange(start as int, start + c),
            decreases unpadded - c,
        {
            pixels.push(mapped[start + c]);
            c = c + 1;
            assert(pixels@ =~= before + mapped@.subrange(start as int, start + c));
        }
        row = row + 1;
        assert(pixels@ =~= spec_strip_rows(mapped@, unpadded as nat, padded as nat, row as nat));
    }
    pixels
}

/// Every byte of the stripped image comes from the matching column of the
/// matching row of the padded buffer, and the image has exactly
/// `rows * unpadded` bytes.
pub proof fn lemma_strip_rows_index(mapped: Seq<u8>, unpadded: nat, padded: nat, rows: nat, r: nat, c: nat)
    requires
        unpadded <= padded,
        rows * padded <= mapped.len(),
        r < rows,
        c < unpadded,
    ensures
        spec_strip_rows(mapped, unpadded, padded, rows).len() == rows * unpadded,
        spec_strip_rows(mapped, unpadded, padded, rows)[(r * unpadded + c) as int] == mapped[(r
            * padded + c) as int],
    decreases rows,
{
    lemma_strip_rows_len(mapped, unpadded, padded, rows);
    let prev = (rows - 1) as nat;
    assert(prev * padded + padded == rows * padded) by (nonlinear_arith)
        requires prev == rows - 1;
    assert(prev * padded <= rows * padded) by (nonlinear_arith)
        requires prev == rows - 1;
    lemma_strip_rows_len(mapped, unpadded, padded, prev);
    if r < prev {
        lemma_strip_rows_index(mapped, unpadded, padded, prev, r, c);
        assert(r * unpadded + c < prev * unpadded) by (nonlinear_arith)
            requires r < prev, c < unpadded;
    } else {
        assert(r == prev);
        assert(r * unpadded + c - prev * unpadded == c) by (nonlinear_arith)
            requires r == prev;
    }
}

proof fn lemma_strip_rows_len(mapped: Seq<u8>, unpadded: nat, padded: nat, rows: nat)
    requires
        unpadded <= padded,
        rows * padded <= mapped.len(),
    ensures
        spec_strip_rows(mapped, unpadded, padded, rows).len() == rows * unpadded,
    decreases rows,
{
    if rows > 0 {
        let prev = (rows - 1) as nat;
        assert(prev * padded + padded == rows * padded) by (nonlinear_arith)
            requires prev == rows - 1;
        assert(prev * padded <= rows * padded) by (nonlinear_arith)
            requires prev == rows - 1;
        lemma_strip_rows_len(mapped, unpadded, padded, prev);
        let start = prev * padded;
        assert(start + unpadded <= mapped.len());
        assert(spec_strip_rows(mapped, unpadded, padded, rows) == spec_strip_rows(mapped, unpadded, padded, prev)
            + mapped.subrange(start as int, (start + unpadded) as int));
        assert(mapped.subrange(start as int, (start + unpadded) as int).len() == unpadded);
        assert(prev * unpadded + unpadded == rows * unpadded) by (nonlinear_arith)
            requires prev == rows - 1;
    } else {
        assert(rows * unpadded == 0) by (nonlinear_arith)
            requires rows == 0;
    }
}

} // verus!

verus! {

use crate::graph::frame_plan::{plan_frame, spec_plan_frame, FrameInputs, FramePlan};
use crate::settings::{ClusteredShadingMode, RenderPath, RendererSettings};

/// `x + 1`, wrapping at the top of the range.
pub open spec fn wrapping_inc(x: u64) -> u64 {
    if x == u64::MAX { 0 } else { (x + 1) as u64 }
}

/// The GPU-context state that settings changes and frames act on.
#[derive(Debug, Clone, Copy, PartialEq, Eq, Structural)]
pub struct ContextConfig {
    /// The render path the GPU context currently assembles frames for.
    pub render_path: RenderPath,
    /// The active MSAA sample count.
    pub msaa_samples: u32,
    /// Bumped whenever a change invalidates cached scene pipelines.
    pub pipeline_settings_version: u64,
}

/// What the GPU layer must apply after a settings change.
#[derive(Debug, Clone, Copy, PartialEq, Eq, Structural)]
pub struct SettingsUpdate {
    /// New vsync state to configure on the surface, when it changed.
    pub vsync: Option<bool>,
    /// New global anisotropy for default samplers, when it changed.
    pub anisotropy_clamp: Option<u16>,
    /// The render path changed.
    pub render_path_changed: bool,
    /// The clustered-shading policy changed.
    pub clustered_shading_changed: bool,
}

/// The renderer's configuration state: runtime settings, surface size and
/// (once initialised) the GPU-context configuration.
#[derive(Debug, Clone, Copy)]
pub struct Renderer {
    pub settings: RendererSettings,
    pub size: (u32, u32),
    pub context: Option<ContextConfig>,
}

/// The actions a change from `old` to `new` settings requires. Vsync and
/// anisotropy changes only matter once a GPU context exists.
pub open spec fn spec_settings_update(old: RendererSettings, new: RendererSettings, has_context: bool) -> SettingsUpdate {
    SettingsUpdate {
        vsync: if has_context && old.vsync != new.vsync { Some(new.vsync) } else { None },
        anisotropy_clamp: if has_context && old.anisotropy_clamp != new.anisotropy_clamp {
            Some(new.anisotropy_clamp)
        } else {
            None
        },
        render_path_changed: has_context && old.path != new.path,
        clustered_shading_changed: has_context && old.clustered_shading != new.clustered_shading,
    }
}

/// The GPU-context configuration after applying a settings change: the
/// render path follows the settings and the pipeline version is bumped once
/// for a path change and once for a clustered-shading change.
pub open spec fn spec_context_after_update(c: ContextConfig, old: RendererSettings, new: RendererSettings) -> ContextConfig {
    let v1 = if old.path != new.path { wrapping_inc(c.pipeline_settings_version) } else { c.pipeline_settings_version };
    let v2 = if old.clustered_shading != new.clustered_shading { wrapping_inc(v1) } else { v1 };
    ContextConfig {
        render_path: if old.path != new.path { new.path } else { c.render_path },
        msaa_samples: c.msaa_samples,
        pipeline_settings_version: v2,
    }
}

/// The inputs a frame of `r` is planned with: `i`, with the renderer's
/// surface size and the GPU context's render path.
pub open spec fn frame_inputs_for(r: Renderer, i: FrameInputs) -> FrameInputs {
    FrameInputs {
        width: r.size.0,
        height: r.size.1,
        render_path: match r.context {
            Some(c) => c.render_path,
            None => i.render_path,
        },
        ..i
    }
}

/// No action at all.
pub open spec fn no_update() -> SettingsUpdate {
    SettingsUpdate { vsync: None, anisotropy_clamp: None, render_path_changed: false, clustered_shading_changed: false }
}

fn bump(v: u64) -> (r: u64)
    ensures
        r == wrapping_inc(v),
{
    if v == u64::MAX { 0 } else { v + 1 }
}

impl Renderer {
    /// A renderer that has not created its GPU context yet.
    pub fn new(settings: RendererSettings) -> (r: Self)
        ensures
            r.settings == settings,
            r.size == (0u32, 0u32),
            r.context.is_none(),
    {
        Renderer { settings, size: (0, 0), context: None }
    }

    /// The current surface size in pixels.
    pub fn size(&self) -> (r: (u32, u32))
        ensures
            r == self.size,
    {
        self.size
    }

    /// The active render path.
    pub fn render_path(&self) -> (r: RenderPath)
        ensures
            r == self.settings.path,
    {
        self.settings.path
    }

    /// The current runtime settings.
    pub fn settings(&self) -> (r: RendererSettings)
        ensures
            r == self.settings,
    {
        self.settings
    }

    /// Whether the GPU context exists.
    pub fn is_initialized(&self) -> (r: bool)
        ensures
            r == self.context.is_some(),
    {
        self.context.is_some()
    }

    /// Starts initialisation for a `width x height` target. Returns `false`
    /// (and changes nothing) when already initialised; otherwise records the
    /// size and returns `true`: the GPU context must then be created and
    /// attached.
    pub fn begin_init(&mut self, width: u32, height: u32) -> (create: bool)
        ensures
            create == old(self).context.is_none(),
            create ==> *final(self) == (Renderer { size: (width, height), ..*old(self) }),
            !create ==> *final(self) == *old(self),
    {
        if self.context.is_some() {
            return false;
        }
        self.size = (width, height);
        true
    }

    /// Attaches the freshly created GPU context, which starts on the
    /// configured render path.
    pub fn attach_context(&mut self, msaa_samples: u32, pipeline_settings_version: u64)
        ensures
            *final(self) == (Renderer {
                context: Some(ContextConfig {
                    render_path: old(self).settings.path,
                    msaa_samples,
                    pipeline_settings_version,
                }),
                ..*old(self)
            }),
    {
        self.context = Some(ContextConfig {
            render_path: self.settings.path,
            msaa_samples,
            pipeline_settings_version,
        });
    }

    /// Records a new surface size. Returns whether a GPU context exists, in
    /// which case the surface must be reconfigured and the cached bind
    /// groups dropped.
    pub fn resize(&mut self, width: u32, height: u32) -> (has_context: bool)
        ensures
            has_context == old(self).context.is_some(),
            *final(self) == (Renderer { size: (width, height), ..*old(self) }),
    {
        self.size = (width, height);
        self.context.is_some()
    }

    /// Applies new runtime settings, diffing against the current ones. Equal
    /// settings change nothing. Otherwise the settings are replaced and, when
    /// a GPU context exists, its render path follows and its pipeline
    /// version is bumped for a path or clustered-shading change; the returned
    /// actions list the vsync and anisotropy changes to apply on the GPU.
    pub fn update_settings(&mut self, new_settings: RendererSettings) -> (u: SettingsUpdate)
        ensures
            final(self).settings == new_settings,
            final(self).size == old(self).size,
            u == spec_settings_update(old(self).settings, new_settings, old(self).context.is_some()),
            u.anisotropy_clamp == (if old(self).context.is_some() && old(self).settings.anisotropy_clamp
                != new_settings.anisotropy_clamp {
                Some(new_settings.anisotropy_clamp)
            } else {
                None
            }),
            u.vsync == (if old(self).context.is_some() && old(self).settings.vsync != new_settings.vsync {
                Some(new_settings.vsync)
            } else {
                None
            }),
            old(self).context.is_none() ==> final(self).context.is_none(),
            old(self).context matches Some(c) ==> final(self).context == Some(
                spec_context_after_update(c, old(self).settings, new_settings),
            ),
    {
        if self.settings == new_settings {
            return SettingsUpdate {
                vsync: None,
                anisotropy_clamp: None,
                render_path_changed: false,
                clustered_shading_changed: false,
            };
        }
        let old = self.settings;
        self.settings = new_settings;
        match self.context {
            None => SettingsUpdate {
                vsync: None,
                anisotropy_clamp: None,
                render_path_changed: false,
                clustered_shading_changed: false,
            },
            Some(c) => {
                let mut ctx = c;
                let vsync = if old.vsync != new_settings.vsync { Some(new_settings.vsync) } else { None };
                let path_changed = old.path != new_settings.path;
                if path_changed {
                    ctx.render_path = new_settings.path;
                    ctx.pipeline_settings_version = bump(ctx.pipeline_settings_version);
                }
                let anisotropy = if old.anisotropy_clamp != new_settings.anisotropy_clamp {
                    Some(new_settings.anisotropy_clamp)
                } else {
                    None
                };
                let clustered_changed = old.clustered_shading != new_settings.clustered_shading;
                if clustered_changed {
                    ctx.pipeline_settings_version = bump(ctx.pipeline_settings_version);
                }
                self.context = Some(ctx);
                SettingsUpdate {
                    vsync,
                    anisotropy_clamp: anisotropy,
                    render_path_changed: path_changed,
                    clustered_shading_changed: clustered_changed,
                }
            }
        }
    }

    /// Changes only the clustered-shading policy (a no-op when unchanged).
    pub fn set_clustered_shading_mode(&mut self, mode: ClusteredShadingMode) -> (u: SettingsUpdate)
        ensures
            final(self).settings == (RendererSettings { clustered_shading: mode, ..old(self).settings }),
            final(self).size == old(self).size,
            u == spec_settings_update(
                old(self).settings,
                RendererSettings { clustered_shading: mode, ..old(self).settings },
                old(self).context.is_some(),
            ),
            old(self).context.is_none() ==> final(self).context.is_none(),
            old(self).context matches Some(c) ==> final(self).context == Some(
                spec_context_after_update(
                    c,
                    old(self).settings,
                    RendererSettings { clustered_shading: mode, ..old(self).settings },
                ),
            ),
    {
        if self.settings.clustered_shading != mode {
            let mut new = self.settings;
            new.clustered_shading = mode;
            self.update_settings(new)
        } else {
            SettingsUpdate {
                vsync: None,
                anisotropy_clamp: None,
                render_path_changed: false,
                clustered_shading_changed: false,
            }
        }
    }

    /// Switches only the render path (a no-op when unchanged).
    pub fn set_render_path(&mut self, path: RenderPath) -> (u: SettingsUpdate)
        ensures
            final(self).settings == (RendererSettings { path, ..old(self).settings }),
            final(self).size == old(self).size,
            u == spec_settings_update(
                old(self).settings,
                RendererSettings { path, ..old(self).settings },
                old(self).context.is_some(),
            ),
            old(self).context.is_none() ==> final(self).context.is_none(),
            old(self).context matches Some(c) ==> final(self).context == Some(
                spec_context_after_update(c, old(self).settings, RendererSettings { path, ..old(self).settings }),
            ),
    {
        if self.settings.path != path {
            let mut new = self.settings;
            new.path = path;
            self.update_settings(new)
        } else {
            SettingsUpdate {
                vsync: None,
                anisotropy_clamp: None,
                render_path_changed: false,
                clustered_shading_changed: false,
            }
        }
    }

    /// Starts a frame. The frame is skipped (`None`, nothing changed) when
    /// the surface is zero-sized or no GPU context exists. Otherwise the
    /// context adopts the frame's MSAA sample count (a change bumps the
    /// pipeline version) and the frame is planned with the renderer's
    /// surface size and the context's render path.
    pub fn begin_frame_plan(&mut self, i: &FrameInputs) -> (r: Option<FramePlan>)
        ensures
            r is None <==> (old(self).size.0 == 0 || old(self).size.1 == 0 || old(self).context is None),
            r is None ==> *final(self) == *old(self),
            r is Some ==> {
                &&& r == Some(spec_plan_frame(frame_inputs_for(*old(self), *i)))
                &&& final(self).settings == old(self).settings
                &&& final(self).size == old(self).size
                &&& final(self).context == Some(
                    ContextConfig {
                        msaa_samples: i.msaa_samples,
                        pipeline_settings_version: if old(self).context.unwrap().msaa_samples
                            != i.msaa_samples {
                            wrapping_inc(old(self).context.unwrap().pipeline_settings_version)
                        } else {
                            old(self).context.unwrap().pipeline_settings_version
                        },
                        ..old(self).context.unwrap()
                    },
                )
            },
    {
        if self.size.0 == 0 || self.size.1 == 0 {
            return None;
        }
        if self.context.is_none() {
            return None;
        }
        let path = self.context.unwrap().render_path;
        let inputs = FrameInputs { width: self.size.0, height: self.size.1, render_path: path, ..*i };
        self.sync_msaa_samples(i.msaa_samples);
        plan_frame(&inputs)
    }

    /// Adopts the camera's requested MSAA sample count for the frame. A
    /// change bumps the pipeline version; returns whether it changed.
    pub fn sync_msaa_samples(&mut self, requested: u32) -> (changed: bool)
        requires
            old(self).context.is_some(),
        ensures
            final(self).settings == old(self).settings,
            final(self).size == old(self).size,
            changed == (old(self).context.unwrap().msaa_samples != requested),
            final(self).context == Some(
                ContextConfig {
                    msaa_samples: requested,
                    pipeline_settings_version: if changed {
                        wrapping_inc(old(self).context.unwrap().pipeline_settings_version)
                    } else {
                        old(self).context.unwrap().pipeline_settings_version
                    },
                    ..old(self).context.unwrap()
                },
            ),
    {
        let mut c = self.context.unwrap();
        let changed = c.msaa_samples != requested;
        if changed {
            c.msaa_samples = requested;
            c.pipeline_settings_version = bump(c.pipeline_settings_version);
        }
        self.context = Some(c);
        changed
    }
}

/// What a settings change reports, over all old and new settings: with a
/// GPU context, each of vsync and anisotropy is reported (with its new
/// value) exactly when it differs, whether it went up or down, and the path
/// and clustered-shading flags are set exactly when those differ; without a
/// context nothing is reported.
pub proof fn lemma_settings_update_reports_every_change(old: RendererSettings, new: RendererSettings, has_context: bool)
    ensures
        has_context ==> (spec_settings_update(old, new, true).anisotropy_clamp is Some <==> old.anisotropy_clamp
            != new.anisotropy_clamp),
        has_context && old.anisotropy_clamp != new.anisotropy_clamp ==> spec_settings_update(
            old,
            new,
            true,
        ).anisotropy_clamp == Some(new.anisotropy_clamp),
        has_context ==> (spec_settings_update(old, new, true).vsync is Some <==> old.vsync != new.vsync),
        has_context && old.vsync != new.vsync ==> spec_settings_update(old, new, true).vsync == Some(new.vsync),
        spec_settings_update(old, new, true).render_path_changed == (old.path != new.path),
        spec_settings_update(old, new, true).clustered_shading_changed == (old.clustered_shading
            != new.clustered_shading),
        spec_settings_update(old, new, false).anisotropy_clamp is None,
        spec_settings_update(old, new, false).vsync is None,
        !spec_settings_update(old, new, false).render_path_changed,
        !spec_settings_update(old, new, false).clustered_shading_changed,
{
}

/// Anisotropy changes are symmetric: going from `a` to `b` is reported
/// exactly when going back from `b` to `a` is, each with its target value.
pub proof fn lemma_anisotropy_change_symmetric(old: RendererSettings, new: RendererSettings)
    ensures
        spec_settings_update(old, new, true).anisotropy_clamp is Some == spec_settings_update(
            new,
            old,
            true,
        ).anisotropy_clamp is Some,
        spec_settings_update(new, old, true).anisotropy_clamp is Some ==> spec_settings_update(
            new,
            old,
            true,
        ).anisotropy_clamp == Some(old.anisotropy_clamp),
{
}

/// Applying settings that equal the current ones requires no action and
/// leaves the context configuration as it is.
pub proof fn lemma_update_same_settings_is_noop(c: ContextConfig, s: RendererSettings, has_context: bool)
    ensures
        spec_settings_update(s, s, has_context) == no_update(),
        spec_context_after_update(c, s, s) == c,
{
}

/// Applying the same settings twice: the second application requires no
/// action and changes nothing.
pub proof fn lemma_update_settings_idempotent(c: ContextConfig, old: RendererSettings, new: RendererSettings)
    ensures
        spec_settings_update(new, new, true) == no_update(),
        spec_context_after_update(spec_context_after_update(c, old, new), new, new)
            == spec_context_after_update(c, old, new),
{
}

/// After a settings change the context assembles frames for the new
/// path, provided it did so for the old one.
pub proof fn lemma_context_follows_path(c: ContextConfig, old: RendererSettings, new: RendererSettings)
    requires
        c.render_path == old.path,
    ensures
        spec_context_after_update(c, old, new).render_path == new.path,
{
}

} // verus!
