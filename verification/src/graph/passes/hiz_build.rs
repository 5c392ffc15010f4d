//! Hi-Z depth pyramid sizing.
//!
//! The hierarchy stores reverse-Z maximum depth in a mip chain that stops
//! once the largest dimension reaches the minimum mip size.
use vstd::prelude::*;

use crate::format::TextureFormat;
use crate::graph::node::{TextureDesc, USAGE_STORAGE_BINDING, USAGE_TEXTURE_BINDING};
use crate::pipeline::cache::ComputePipelineId;

verus! {

/// Format of the depth pyramid.
pub const HIZ_FORMAT: TextureFormat = TextureFormat::R32Float;

/// Compute workgroup edge length of the Hi-Z kernels.
pub const HIZ_WORKGROUP_SIZE: u32 = 8;
/// The chain stops once the largest dimension is at most this size.
pub const HIZ_MIN_MIP_SIZE: u32 = 16;

/// `ceil(x / 2)`.
pub open spec fn half_ceil(x: nat) -> nat {
    (x + 1) / 2
}

/// `ceil(x / d)` for a positive divisor.
pub open spec fn div_ceil_spec(x: nat, d: nat) -> nat
    recommends
        d > 0,
{
    ((x + d - 1) as nat) / d
}

/// `x` halved (rounding up) `n` times.
pub open spec fn half_ceil_n(x: nat, n: nat) -> nat
    decreases n,
{
    if n == 0 {
        x
    } else {
        half_ceil(half_ceil_n(x, (n - 1) as nat))
    }
}

/// Number of mips of a chain whose base has largest dimension `d`: one for
/// the base, plus one per halving until the dimension is at most the minimum.
pub open spec fn spec_mip_chain_len(d: nat) -> nat
    decreases d,
{
    if d <= HIZ_MIN_MIP_SIZE {
        1
    } else {
        1 + spec_mip_chain_len(half_ceil(d))
    }
}

/// The largest of `width`, `height` and 1.
pub open spec fn max_dim(width: u32, height: u32) -> nat {
    let m = if width >= height { width } else { height };
    if m >= 1 { m as nat } else { 1 }
}

/// Number of Hi-Z mips for a `width x height` base.
pub open spec fn spec_hiz_mip_count(width: u32, height: u32) -> nat {
    spec_mip_chain_len(max_dim(width, height))
}

/// Ceil-halving a 32-bit value.
pub fn u32_half_ceil(x: u32) -> (r: u32)
    ensures
        r == half_ceil(x as nat),
{
    x / 2 + x % 2
}

/// Ceil-division of a 32-bit value by a positive divisor.
pub fn u32_div_ceil(x: u32, d: u32) -> (r: u32)
    requires
        d > 0,
    ensures
        r == div_ceil_spec(x as nat, d as nat),
        r as int * d >= x,
        (r as int - 1) * d < x,
{
    let q = x / d;
    assert(x % d != 0 ==> q < u32::MAX) by (nonlinear_arith)
        requires q == x / d, d > 0;
    let r = if x % d == 0 { q } else { q + 1 };
    assert(x == q * d + x % d) by (nonlinear_arith)
        requires q == x / d, d > 0;
    assert(r == div_ceil_spec(x as nat, d as nat)) by (nonlinear_arith)
        requires q == x / d, d > 0, x == q * d + x % d,
            r == (if x % d == 0 { q } else { (q + 1) as u32 }), 0 <= x % d < d;
    assert(r as int * d >= x) by (nonlinear_arith)
        requires x == q * d + x % d, r == (if x % d == 0 { q } else { (q + 1) as u32 }),
            0 <= x % d < d, d > 0;
    assert((r as int - 1) * d < x) by (nonlinear_arith)
        requires x == q * d + x % d, r == (if x % d == 0 { q } else { (q + 1) as u32 }),
            0 <= x % d < d, d > 0;
    r
}

proof fn lemma_mip_chain_len_bounded(d: nat)
    requires
        d >= 1,
    ensures
        1 <= spec_mip_chain_len(d) <= d,
    decreases d,
{
    if d > HIZ_MIN_MIP_SIZE {
        lemma_mip_chain_len_bounded(half_ceil(d));
    }
}

proof fn lemma_half_of_div_ceil(x: nat, p: nat)
    requires
        p > 0,
    ensures
        half_ceil(div_ceil_spec(x, p)) == div_ceil_spec(x, 2 * p),
{
    let a = (x + p - 1) as nat;
    let b = (x + 2 * p - 1) as nat;
    let q = a / p;
    let c = b / (2 * p);
    vstd::arithmetic::div_mod::lemma_fundamental_div_mod(a as int, p as int);
    vstd::arithmetic::div_mod::lemma_mod_bound(a as int, p as int);
    vstd::arithmetic::div_mod::lemma_fundamental_div_mod(b as int, (2 * p) as int);
    vstd::arithmetic::div_mod::lemma_mod_bound(b as int, (2 * p) as int);
    assert(q * p <= a < (q + 1) * p) by (nonlinear_arith)
        requires
            a == p * q + a % p,
            0 <= a % p < p,
    ;
    assert(c * (2 * p) <= b < (c + 1) * (2 * p)) by (nonlinear_arith)
        requires
            b == (2 * p) * c + b % (2 * p),
            0 <= b % (2 * p) < 2 * p,
    ;
    assert(q <= 2 * c) by (nonlinear_arith)
        requires
            q * p <= a < (q + 1) * p,
            c * (2 * p) <= b < (c + 1) * (2 * p),
            a == x + p - 1,
            b == x + 2 * p - 1,
            p > 0,
    {
        if q > 2 * c {
            assert((q - 1) * p >= (2 * c) * p);
        }
    }
    assert(q + 1 >= 2 * c) by (nonlinear_arith)
        requires
            q * p <= a < (q + 1) * p,
            c * (2 * p) <= b < (c + 1) * (2 * p),
            a == x + p - 1,
            b == x + 2 * p - 1,
            p > 0,
    {
        if q + 2 <= 2 * c {
            assert((q + 1) * p <= (2 * c - 1) * p);
        }
    }
}

proof fn lemma_half_ceil_n_is_div_ceil(x: nat, n: nat)
    ensures
        half_ceil_n(x, n) == div_ceil_spec(x, vstd::arithmetic::power2::pow2(n)),
    decreases n,
{
    vstd::arithmetic::power2::lemma_pow2_pos(n);
    if n == 0 {
        vstd::arithmetic::power2::lemma2_to64();
        assert(div_ceil_spec(x, 1) == x);
    } else {
        let m = (n - 1) as nat;
        lemma_half_ceil_n_is_div_ceil(x, m);
        vstd::arithmetic::power2::lemma_pow2_pos(m);
        vstd::arithmetic::power2::lemma_pow2_unfold(n);
        lemma_half_of_div_ceil(x, vstd::arithmetic::power2::pow2(m));
    }
}

proof fn lemma_half_ceil_n_shift(x: nat, n: nat)
    ensures
        half_ceil_n(x, n + 1) == half_ceil_n(half_ceil(x), n),
    decreases n,
{
    reveal_with_fuel(half_ceil_n, 2);
    if n > 0 {
        let m = (n - 1) as nat;
        lemma_half_ceil_n_shift(x, m);
        assert(half_ceil_n(x, n + 1) == half_ceil(half_ceil_n(x, n)));
        assert(half_ceil_n(half_ceil(x), n) == half_ceil(half_ceil_n(half_ceil(x), m)));
    }
}

proof fn lemma_chain_len_fewest_halvings(d: nat)
    ensures
        spec_mip_chain_len(d) >= 1,
        half_ceil_n(d, (spec_mip_chain_len(d) - 1) as nat) <= HIZ_MIN_MIP_SIZE,
        spec_mip_chain_len(d) == 1 || half_ceil_n(d, (spec_mip_chain_len(d) - 2) as nat) > HIZ_MIN_MIP_SIZE,
    decreases d,
{
    if d > HIZ_MIN_MIP_SIZE {
        let e = half_ceil(d);
        lemma_chain_len_fewest_halvings(e);
        let r1 = spec_mip_chain_len(e);
        lemma_half_ceil_n_shift(d, (r1 - 1) as nat);
        if r1 > 1 {
            lemma_half_ceil_n_shift(d, (r1 - 2) as nat);
        }
    }
}

/// The Hi-Z chain has the fewest levels such that its last level, the
/// base's largest dimension divided by a power of two and rounded up, is at
/// most the minimum mip size: with `r` levels, the largest dimension over
/// `2^(r-1)` (rounded up) is at most the minimum, and over `2^(r-2)` it is
/// still above it.
pub proof fn lemma_hiz_mip_count_fewest_levels(width: u32, height: u32)
    ensures
        spec_hiz_mip_count(width, height) >= 1,
        div_ceil_spec(
            max_dim(width, height),
            vstd::arithmetic::power2::pow2((spec_hiz_mip_count(width, height) - 1) as nat),
        ) <= HIZ_MIN_MIP_SIZE,
        spec_hiz_mip_count(width, height) == 1 || div_ceil_spec(
            max_dim(width, height),
            vstd::arithmetic::power2::pow2((spec_hiz_mip_count(width, height) - 2) as nat),
        ) > HIZ_MIN_MIP_SIZE,
{
    let d = max_dim(width, height);
    let r = spec_hiz_mip_count(width, height);
    lemma_chain_len_fewest_halvings(d);
    lemma_half_ceil_n_is_div_ceil(d, (r - 1) as nat);
    if r > 1 {
        lemma_half_ceil_n_is_div_ceil(d, (r - 2) as nat);
    }
}

/// Number of Hi-Z mips for a `width x height` depth buffer.
pub fn hiz_mip_count(width: u32, height: u32) -> (r: u32)
    ensures
        r == spec_hiz_mip_count(width, height),
        r >= 1,
{
    let mut mip_count: u32 = 1;
    let m = if width >= height { width } else { height };
    let mut max_dim: u32 = if m >= 1 { m } else { 1 };
    proof {
        lemma_mip_chain_len_bounded(max_dim as nat);
    }
    while max_dim > HIZ_MIN_MIP_SIZE
        invariant
            1 <= max_dim,
            mip_count + spec_mip_chain_len(max_dim as nat) == 1 + spec_hiz_mip_count(width, height),
            spec_hiz_mip_count(width, height) <= u32::MAX as nat,
        decreases max_dim,
    {
        max_dim = u32_half_ceil(max_dim);
        proof {
            lemma_mip_chain_len_bounded(max_dim as nat);
        }
        mip_count = mip_count + 1;
    }
    mip_count
}

/// Size and level of one downsampled Hi-Z mip.
#[derive(Debug, Clone, Copy, PartialEq, Eq, Structural)]
pub struct HiZMipTarget {
    pub mip_level: u32,
    pub width: u32,
    pub height: u32,
}

/// Target of mip `level` (>= 1) of a `width x height` chain.
pub open spec fn spec_mip_target(width: u32, height: u32, level: nat) -> HiZMipTarget {
    let w = half_ceil_n(width as nat, level);
    let h = half_ceil_n(height as nat, level);
    HiZMipTarget {
        mip_level: level as u32,
        width: (if w >= 1 { w } else { 1 }) as u32,
        height: (if h >= 1 { h } else { 1 }) as u32,
    }
}

proof fn lemma_half_ceil_n_le(x: nat, n: nat)
    ensures
        half_ceil_n(x, n) <= x,
    decreases n,
{
    if n > 0 {
        lemma_half_ceil_n_le(x, (n - 1) as nat);
    }
}

/// The downsample targets of mips `1..hiz_mip_count(width, height)`: each
/// mip halves the previous one (rounding up) and never drops below 1x1.
pub fn hiz_mip_targets(width: u32, height: u32) -> (r: Vec<HiZMipTarget>)
    ensures
        r.len() + 1 == spec_hiz_mip_count(width, height),
        forall|i: int| 0 <= i < r.len() ==> #[trigger] r[i] == spec_mip_target(width, height, (i + 1) as nat),
{
    let mip_count = hiz_mip_count(width, height);
    let mut w = width;
    let mut h = height;
    let mut targets: Vec<HiZMipTarget> = Vec::new();
    let mut level: u32 = 1;
    while level < mip_count
        invariant
            1 <= level <= mip_count,
            mip_count == spec_hiz_mip_count(width, height),
            targets.len() + 1 == level,
            w == half_ceil_n(width as nat, (level - 1) as nat),
            h == half_ceil_n(height as nat, (level - 1) as nat),
            forall|i: int| 0 <= i < targets.len() ==> #[trigger] targets[i] == spec_mip_target(width, height, (i + 1) as nat),
        decreases mip_count - level,
    {
        w = u32_half_ceil(w);
        h = u32_half_ceil(h);
        proof {
            lemma_half_ceil_n_le(width as nat, level as nat);
            lemma_half_ceil_n_le(height as nat, level as nat);
        }
        let tw = if w >= 1 { w } else { 1 };
        let th = if h >= 1 { h } else { 1 };
        targets.push(HiZMipTarget { mip_level: level, width: tw, height: th });
        level = level + 1;
    }
    targets
}

/// Workgroup counts that cover a `width x height` mip with the Hi-Z kernel.
pub fn hiz_dispatch_size(width: u32, height: u32) -> (r: (u32, u32))
    ensures
        r.0 == div_ceil_spec(width as nat, HIZ_WORKGROUP_SIZE as nat),
        r.1 == div_ceil_spec(height as nat, HIZ_WORKGROUP_SIZE as nat),
{
    (u32_div_ceil(width, HIZ_WORKGROUP_SIZE), u32_div_ceil(height, HIZ_WORKGROUP_SIZE))
}

/// The pyramid texture of a `width x height` frame: the full mip chain,
/// sampled and written as storage.
pub fn hiz_texture_desc(width: u32, height: u32) -> (r: TextureDesc)
    ensures
        r == (TextureDesc {
            width,
            height,
            mip_level_count: spec_hiz_mip_count(width, height) as u32,
            depth_or_array_layers: 1,
            sample_count: 1,
            format: TextureFormat::R32Float,
            usage: USAGE_TEXTURE_BINDING | USAGE_STORAGE_BINDING,
        }),
{
    let mips = hiz_mip_count(width, height);
    TextureDesc {
        width,
        height,
        mip_level_count: mips,
        depth_or_array_layers: 1,
        sample_count: 1,
        format: HIZ_FORMAT,
        usage: USAGE_TEXTURE_BINDING | USAGE_STORAGE_BINDING,
    }
}

/// The Hi-Z feature: its two compute pipelines, created once.
pub struct HiZFeature {
    init_pipeline: Option<ComputePipelineId>,
    downsample_pipeline: Option<ComputePipelineId>,
}

impl HiZFeature {
    pub closed spec fn pipelines(&self) -> (Option<ComputePipelineId>, Option<ComputePipelineId>) {
        (self.init_pipeline, self.downsample_pipeline)
    }

    /// No pipelines yet.
    pub fn new() -> (r: Self)
        ensures
            r.pipelines() == (None::<ComputePipelineId>, None::<ComputePipelineId>),
    {
        HiZFeature { init_pipeline: None, downsample_pipeline: None }
    }

    /// Whether the pipelines still have to be created.
    pub fn needs_pipelines(&self) -> (r: bool)
        ensures
            r == self.pipelines().0 is None,
    {
        self.init_pipeline.is_none()
    }

    /// Installs the init and downsample pipelines.
    pub fn install_pipelines(&mut self, init: ComputePipelineId, downsample: ComputePipelineId)
        ensures
            final(self).pipelines() == (Some(init), Some(downsample)),
    {
        self.init_pipeline = Some(init);
        self.downsample_pipeline = Some(downsample);
    }
}

} // verus!
