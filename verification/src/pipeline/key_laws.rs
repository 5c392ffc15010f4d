//! The hash inputs of pipeline keys identify the keys: each encoding is
//! prefix-free, so an encoding followed by anything determines both the key
//! and what follows. Two keys therefore share a cache entry only when their
//! hashes collide, never because their inputs coincide.
use vstd::prelude::*;

use crate::format::TextureFormat;
use crate::pipeline::gpu_state::BlendFactor;
use crate::pipeline::hashing::{enc_u32, enc_u64};
use crate::pipeline::pipeline_key::{
    enc_format, enc_opt_blend, enc_opt_depth_stencil, enc_targets, opt_bool_code, opt_compare_code,
    opt_face_code, BlendComponentKey, BlendStateKey, CacheKey, ColorTargetKey, DepthBiasKey,
    DepthStencilKey, FullscreenPipelineKey, GraphicsPipelineKey, MultisampleKey, SimpleGeometryPipelineKey,
    StencilFaceKey, StencilStateKey,
};
use vstd::bytes::{spec_u128_to_le_bytes, spec_u32_to_le_bytes, spec_u64_to_le_bytes};

verus! {

/// Equal sequences that start with parts of equal length agree on both
/// parts.
proof fn lemma_split(x: Seq<u8>, r1: Seq<u8>, y: Seq<u8>, r2: Seq<u8>)
    requires
        x.len() == y.len(),
        x + r1 == y + r2,
    ensures
        x == y,
        r1 == r2,
{
    assert(x =~= (x + r1).subrange(0, x.len() as int));
    assert(y =~= (y + r2).subrange(0, y.len() as int));
    assert(r1 =~= (x + r1).subrange(x.len() as int, (x + r1).len() as int));
    assert(r2 =~= (y + r2).subrange(y.len() as int, (y + r2).len() as int));
}

proof fn lemma_u32_prefix(a: u32, r1: Seq<u8>, b: u32, r2: Seq<u8>)
    requires
        enc_u32(a) + r1 == enc_u32(b) + r2,
    ensures
        a == b,
        r1 == r2,
{
    vstd::bytes::lemma_auto_spec_u32_to_from_le_bytes();
    assert(spec_u32_to_le_bytes(a).len() == 4);
    assert(spec_u32_to_le_bytes(b).len() == 4);
    lemma_split(enc_u32(a), r1, enc_u32(b), r2);
    assert(vstd::bytes::spec_u32_from_le_bytes(spec_u32_to_le_bytes(a)) == a);
    assert(vstd::bytes::spec_u32_from_le_bytes(spec_u32_to_le_bytes(b)) == b);
}

proof fn lemma_u64_prefix(a: u64, r1: Seq<u8>, b: u64, r2: Seq<u8>)
    requires
        enc_u64(a) + r1 == enc_u64(b) + r2,
    ensures
        a == b,
        r1 == r2,
{
    vstd::bytes::lemma_auto_spec_u64_to_from_le_bytes();
    assert(spec_u64_to_le_bytes(a).len() == 8);
    assert(spec_u64_to_le_bytes(b).len() == 8);
    lemma_split(enc_u64(a), r1, enc_u64(b), r2);
    assert(vstd::bytes::spec_u64_from_le_bytes(spec_u64_to_le_bytes(a)) == a);
    assert(vstd::bytes::spec_u64_from_le_bytes(spec_u64_to_le_bytes(b)) == b);
}

proof fn lemma_u128_prefix(a: u128, r1: Seq<u8>, b: u128, r2: Seq<u8>)
    requires
        spec_u128_to_le_bytes(a) + r1 == spec_u128_to_le_bytes(b) + r2,
    ensures
        a == b,
        r1 == r2,
{
    vstd::bytes::lemma_auto_spec_u128_to_from_le_bytes();
    assert(spec_u128_to_le_bytes(a).len() == 16);
    assert(spec_u128_to_le_bytes(b).len() == 16);
    lemma_split(spec_u128_to_le_bytes(a), r1, spec_u128_to_le_bytes(b), r2);
    assert(vstd::bytes::spec_u128_from_le_bytes(spec_u128_to_le_bytes(a)) == a);
    assert(vstd::bytes::spec_u128_from_le_bytes(spec_u128_to_le_bytes(b)) == b);
}

/// A byte string of fixed length `n` at the front.
proof fn lemma_bytes_prefix(x: Seq<u8>, r1: Seq<u8>, y: Seq<u8>, r2: Seq<u8>, n: nat)
    requires
        x.len() == n,
        y.len() == n,
        x + r1 == y + r2,
    ensures
        x == y,
        r1 == r2,
{
    lemma_split(x, r1, y, r2);
}

proof fn lemma_format_prefix(a: TextureFormat, r1: Seq<u8>, b: TextureFormat, r2: Seq<u8>)
    requires
        enc_format(a) + r1 == enc_format(b) + r2,
    ensures
        a == b,
        r1 == r2,
{
    assert(enc_format(a) + r1 =~= seq![a.spec_tag()] + (enc_u32(a.spec_payload()) + r1));
    assert(enc_format(b) + r2 =~= seq![b.spec_tag()] + (enc_u32(b.spec_payload()) + r2));
    lemma_split(seq![a.spec_tag()], enc_u32(a.spec_payload()) + r1, seq![b.spec_tag()], enc_u32(b.spec_payload()) + r2);
    assert(seq![a.spec_tag()][0] == seq![b.spec_tag()][0]);
    lemma_u32_prefix(a.spec_payload(), r1, b.spec_payload(), r2);
}

proof fn lemma_blend_codes(a: BlendFactor, b: BlendFactor)
    requires
        a.spec_code() == b.spec_code(),
    ensures
        a == b,
{
}

proof fn lemma_component_prefix(a: BlendComponentKey, r1: Seq<u8>, b: BlendComponentKey, r2: Seq<u8>)
    requires
        a.key_encoding() + r1 == b.key_encoding() + r2,
    ensures
        a == b,
        r1 == r2,
{
    lemma_bytes_prefix(a.key_encoding(), r1, b.key_encoding(), r2, 3);
    assert(a.key_encoding()[0] == b.key_encoding()[0]);
    assert(a.key_encoding()[1] == b.key_encoding()[1]);
    assert(a.key_encoding()[2] == b.key_encoding()[2]);
    lemma_blend_codes(a.src_factor, b.src_factor);
    lemma_blend_codes(a.dst_factor, b.dst_factor);
}

proof fn lemma_blend_state_prefix(a: BlendStateKey, r1: Seq<u8>, b: BlendStateKey, r2: Seq<u8>)
    requires
        a.key_encoding() + r1 == b.key_encoding() + r2,
    ensures
        a == b,
        r1 == r2,
{
    assert(a.key_encoding() + r1 =~= a.color.key_encoding() + (a.alpha.key_encoding() + r1));
    assert(b.key_encoding() + r2 =~= b.color.key_encoding() + (b.alpha.key_encoding() + r2));
    lemma_component_prefix(a.color, a.alpha.key_encoding() + r1, b.color, b.alpha.key_encoding() + r2);
    lemma_component_prefix(a.alpha, r1, b.alpha, r2);
}

proof fn lemma_opt_blend_prefix(a: Option<BlendStateKey>, r1: Seq<u8>, b: Option<BlendStateKey>, r2: Seq<u8>)
    requires
        enc_opt_blend(a) + r1 == enc_opt_blend(b) + r2,
    ensures
        a == b,
        r1 == r2,
{
    let ta: u8 = if a is Some { 1 } else { 0 };
    let tb: u8 = if b is Some { 1 } else { 0 };
    let pa = match a {
        Some(k) => k.key_encoding() + r1,
        None => r1,
    };
    let pb = match b {
        Some(k) => k.key_encoding() + r2,
        None => r2,
    };
    assert(enc_opt_blend(a) + r1 =~= seq![ta] + pa);
    assert(enc_opt_blend(b) + r2 =~= seq![tb] + pb);
    lemma_split(seq![ta], pa, seq![tb], pb);
    assert(seq![ta][0] == seq![tb][0]);
    match (a, b) {
        (Some(ka), Some(kb)) => {
            lemma_blend_state_prefix(ka, r1, kb, r2);
        },
        _ => {},
    }
}

proof fn lemma_target_prefix(a: ColorTargetKey, r1: Seq<u8>, b: ColorTargetKey, r2: Seq<u8>)
    requires
        a.key_encoding() + r1 == b.key_encoding() + r2,
    ensures
        a == b,
        r1 == r2,
{
    assert(a.key_encoding() + r1 =~= enc_format(a.format) + (enc_opt_blend(a.blend) + (enc_u32(
        a.write_mask,
    ) + r1)));
    assert(b.key_encoding() + r2 =~= enc_format(b.format) + (enc_opt_blend(b.blend) + (enc_u32(
        b.write_mask,
    ) + r2)));
    lemma_format_prefix(
        a.format,
        enc_opt_blend(a.blend) + (enc_u32(a.write_mask) + r1),
        b.format,
        enc_opt_blend(b.blend) + (enc_u32(b.write_mask) + r2),
    );
    lemma_opt_blend_prefix(a.blend, enc_u32(a.write_mask) + r1, b.blend, enc_u32(b.write_mask) + r2);
    lemma_u32_prefix(a.write_mask, r1, b.write_mask, r2);
}

proof fn lemma_face_prefix(a: StencilFaceKey, r1: Seq<u8>, b: StencilFaceKey, r2: Seq<u8>)
    requires
        a.key_encoding() + r1 == b.key_encoding() + r2,
    ensures
        a == b,
        r1 == r2,
{
    lemma_bytes_prefix(a.key_encoding(), r1, b.key_encoding(), r2, 4);
    assert(a.key_encoding()[0] == b.key_encoding()[0]);
    assert(a.key_encoding()[1] == b.key_encoding()[1]);
    assert(a.key_encoding()[2] == b.key_encoding()[2]);
    assert(a.key_encoding()[3] == b.key_encoding()[3]);
}

proof fn lemma_stencil_prefix(a: StencilStateKey, r1: Seq<u8>, b: StencilStateKey, r2: Seq<u8>)
    requires
        a.key_encoding() + r1 == b.key_encoding() + r2,
    ensures
        a == b,
        r1 == r2,
{
    let ta = enc_u32(a.read_mask) + (enc_u32(a.write_mask) + r1);
    let tb = enc_u32(b.read_mask) + (enc_u32(b.write_mask) + r2);
    assert(a.key_encoding() + r1 =~= a.front.key_encoding() + (a.back.key_encoding() + ta));
    assert(b.key_encoding() + r2 =~= b.front.key_encoding() + (b.back.key_encoding() + tb));
    lemma_face_prefix(a.front, a.back.key_encoding() + ta, b.front, b.back.key_encoding() + tb);
    lemma_face_prefix(a.back, ta, b.back, tb);
    lemma_u32_prefix(a.read_mask, enc_u32(a.write_mask) + r1, b.read_mask, enc_u32(b.write_mask) + r2);
    lemma_u32_prefix(a.write_mask, r1, b.write_mask, r2);
}

proof fn lemma_bias_prefix(a: DepthBiasKey, r1: Seq<u8>, b: DepthBiasKey, r2: Seq<u8>)
    requires
        a.key_encoding() + r1 == b.key_encoding() + r2,
    ensures
        a == b,
        r1 == r2,
{
    let ta = enc_u32(a.slope_scale_bits) + (enc_u32(a.clamp_bits) + r1);
    let tb = enc_u32(b.slope_scale_bits) + (enc_u32(b.clamp_bits) + r2);
    assert(a.key_encoding() + r1 =~= enc_u32(a.constant as u32) + ta);
    assert(b.key_encoding() + r2 =~= enc_u32(b.constant as u32) + tb);
    lemma_u32_prefix(a.constant as u32, ta, b.constant as u32, tb);
    let (x, y) = (a.constant, b.constant);
    assert(x == y) by (bit_vector)
        requires
            x as u32 == y as u32,
    ;
    lemma_u32_prefix(a.slope_scale_bits, enc_u32(a.clamp_bits) + r1, b.slope_scale_bits, enc_u32(b.clamp_bits) + r2);
    lemma_u32_prefix(a.clamp_bits, r1, b.clamp_bits, r2);
}

proof fn lemma_depth_prefix(a: DepthStencilKey, r1: Seq<u8>, b: DepthStencilKey, r2: Seq<u8>)
    requires
        a.key_encoding() + r1 == b.key_encoding() + r2,
    ensures
        a == b,
        r1 == r2,
{
    let ca = seq![opt_bool_code(a.depth_write_enabled), opt_compare_code(a.depth_compare)];
    let cb = seq![opt_bool_code(b.depth_write_enabled), opt_compare_code(b.depth_compare)];
    let ta = a.stencil.key_encoding() + (a.bias.key_encoding() + r1);
    let tb = b.stencil.key_encoding() + (b.bias.key_encoding() + r2);
    assert(a.key_encoding() + r1 =~= enc_format(a.format) + (ca + ta));
    assert(b.key_encoding() + r2 =~= enc_format(b.format) + (cb + tb));
    lemma_format_prefix(a.format, ca + ta, b.format, cb + tb);
    lemma_bytes_prefix(ca, ta, cb, tb, 2);
    assert(ca[0] == cb[0]);
    assert(ca[1] == cb[1]);
    assert(a.depth_write_enabled == b.depth_write_enabled);
    assert(a.depth_compare == b.depth_compare);
    lemma_stencil_prefix(a.stencil, a.bias.key_encoding() + r1, b.stencil, b.bias.key_encoding() + r2);
    lemma_bias_prefix(a.bias, r1, b.bias, r2);
}

proof fn lemma_opt_depth_prefix(a: Option<DepthStencilKey>, r1: Seq<u8>, b: Option<DepthStencilKey>, r2: Seq<u8>)
    requires
        enc_opt_depth_stencil(a) + r1 == enc_opt_depth_stencil(b) + r2,
    ensures
        a == b,
        r1 == r2,
{
    let ta: u8 = if a is Some { 1 } else { 0 };
    let tb: u8 = if b is Some { 1 } else { 0 };
    let pa = match a {
        Some(k) => k.key_encoding() + r1,
        None => r1,
    };
    let pb = match b {
        Some(k) => k.key_encoding() + r2,
        None => r2,
    };
    assert(enc_opt_depth_stencil(a) + r1 =~= seq![ta] + pa);
    assert(enc_opt_depth_stencil(b) + r2 =~= seq![tb] + pb);
    lemma_split(seq![ta], pa, seq![tb], pb);
    assert(seq![ta][0] == seq![tb][0]);
    match (a, b) {
        (Some(ka), Some(kb)) => {
            lemma_depth_prefix(ka, r1, kb, r2);
        },
        _ => {},
    }
}

proof fn lemma_multisample_prefix(a: MultisampleKey, r1: Seq<u8>, b: MultisampleKey, r2: Seq<u8>)
    requires
        a.key_encoding() + r1 == b.key_encoding() + r2,
    ensures
        a == b,
        r1 == r2,
{
    let ba = seq![if a.alpha_to_coverage_enabled { 1u8 } else { 0u8 }];
    let bb = seq![if b.alpha_to_coverage_enabled { 1u8 } else { 0u8 }];
    assert(a.key_encoding() + r1 =~= enc_u32(a.count) + (enc_u64(a.mask) + (ba + r1)));
    assert(b.key_encoding() + r2 =~= enc_u32(b.count) + (enc_u64(b.mask) + (bb + r2)));
    lemma_u32_prefix(a.count, enc_u64(a.mask) + (ba + r1), b.count, enc_u64(b.mask) + (bb + r2));
    lemma_u64_prefix(a.mask, ba + r1, b.mask, bb + r2);
    lemma_split(ba, r1, bb, r2);
    assert(ba[0] == bb[0]);
}

/// Equal-length target lists: their encodings followed by anything
/// determine both.
proof fn lemma_targets_prefix(a: Seq<ColorTargetKey>, r1: Seq<u8>, b: Seq<ColorTargetKey>, r2: Seq<u8>)
    requires
        a.len() == b.len(),
        enc_targets(a) + r1 == enc_targets(b) + r2,
    ensures
        a == b,
        r1 == r2,
    decreases a.len(),
{
    if a.len() == 0 {
        assert(enc_targets(a) + r1 =~= r1);
        assert(enc_targets(b) + r2 =~= r2);
        assert(a =~= b);
    } else {
        let la = a.last();
        let lb = b.last();
        assert(enc_targets(a) + r1 =~= enc_targets(a.drop_last()) + (la.key_encoding() + r1));
        assert(enc_targets(b) + r2 =~= enc_targets(b.drop_last()) + (lb.key_encoding() + r2));
        lemma_targets_prefix(a.drop_last(), la.key_encoding() + r1, b.drop_last(), lb.key_encoding() + r2);
        lemma_target_prefix(la, r1, lb, r2);
        assert(a =~= a.drop_last().push(la));
        assert(b =~= b.drop_last().push(lb));
    }
}

proof fn lemma_counted_targets_prefix(a: Seq<ColorTargetKey>, r1: Seq<u8>, b: Seq<ColorTargetKey>, r2: Seq<u8>)
    requires
        a.len() <= u64::MAX,
        b.len() <= u64::MAX,
        enc_u64(a.len() as u64) + (enc_targets(a) + r1) == enc_u64(b.len() as u64) + (enc_targets(b) + r2),
    ensures
        a == b,
        r1 == r2,
{
    lemma_u64_prefix(a.len() as u64, enc_targets(a) + r1, b.len() as u64, enc_targets(b) + r2);
    lemma_targets_prefix(a, r1, b, r2);
}

proof fn lemma_codes_prefix(ca: Seq<u8>, r1: Seq<u8>, cb: Seq<u8>, r2: Seq<u8>)
    requires
        ca.len() == cb.len(),
        ca + r1 == cb + r2,
    ensures
        forall|i: int| 0 <= i < ca.len() ==> ca[i] == cb[i],
        r1 == r2,
{
    lemma_split(ca, r1, cb, r2);
}

spec fn g_codes(a: GraphicsPipelineKey) -> Seq<u8> {
    seq![a.topology.spec_code(), opt_face_code(a.cull_mode), a.front_face.spec_code(), a.depth_compare.spec_code()]
}

spec fn g_tail(a: GraphicsPipelineKey) -> Seq<u8> {
    enc_opt_blend(a.blend_state) + (enc_format(a.color_format) + (enc_format(a.depth_format) + (enc_u32(
        a.sample_count,
    ) + enc_u32(a.flags.spec_bits()))))
}

spec fn g_ids(ids: Seq<u64>, rest: Seq<u8>) -> Seq<u8> {
    enc_u64(ids[0]) + (enc_u64(ids[1]) + (enc_u64(ids[2]) + (enc_u64(ids[3]) + rest)))
}

proof fn lemma_graphics_shape(a: GraphicsPipelineKey)
    ensures
        a.key_encoding() == enc_u64(a.shader_hash) + (enc_u64(a.vertex_layout_id) + g_ids(
            a.bind_group_layout_ids@,
            g_codes(a) + g_tail(a),
        )),
{
    assert(a.key_encoding() =~= enc_u64(a.shader_hash) + (enc_u64(a.vertex_layout_id) + g_ids(
        a.bind_group_layout_ids@,
        g_codes(a) + g_tail(a),
    )));
}

proof fn lemma_ids_prefix(ia: Seq<u64>, r1: Seq<u8>, ib: Seq<u64>, r2: Seq<u8>)
    requires
        ia.len() == 4,
        ib.len() == 4,
        g_ids(ia, r1) == g_ids(ib, r2),
    ensures
        ia == ib,
        r1 == r2,
{
    lemma_u64_prefix(ia[0], enc_u64(ia[1]) + (enc_u64(ia[2]) + (enc_u64(ia[3]) + r1)), ib[0], enc_u64(ib[1]) + (enc_u64(ib[2]) + (enc_u64(ib[3]) + r2)));
    lemma_u64_prefix(ia[1], enc_u64(ia[2]) + (enc_u64(ia[3]) + r1), ib[1], enc_u64(ib[2]) + (enc_u64(ib[3]) + r2));
    lemma_u64_prefix(ia[2], enc_u64(ia[3]) + r1, ib[2], enc_u64(ib[3]) + r2);
    lemma_u64_prefix(ia[3], r1, ib[3], r2);
    assert(ia =~= ib);
}

proof fn lemma_graphics_tail(a: GraphicsPipelineKey, b: GraphicsPipelineKey)
    requires
        g_tail(a) == g_tail(b),
    ensures
        a.blend_state == b.blend_state,
        a.color_format == b.color_format,
        a.depth_format == b.depth_format,
        a.sample_count == b.sample_count,
        a.flags == b.flags,
{
    let e = Seq::<u8>::empty();
    let fa = enc_u32(a.flags.spec_bits());
    let fb = enc_u32(b.flags.spec_bits());
    lemma_opt_blend_prefix(a.blend_state, enc_format(a.color_format) + (enc_format(a.depth_format) + (enc_u32(a.sample_count) + fa)), b.blend_state, enc_format(b.color_format) + (enc_format(b.depth_format) + (enc_u32(b.sample_count) + fb)));
    lemma_format_prefix(a.color_format, enc_format(a.depth_format) + (enc_u32(a.sample_count) + fa), b.color_format, enc_format(b.depth_format) + (enc_u32(b.sample_count) + fb));
    lemma_format_prefix(a.depth_format, enc_u32(a.sample_count) + fa, b.depth_format, enc_u32(b.sample_count) + fb);
    lemma_u32_prefix(a.sample_count, fa, b.sample_count, fb);
    assert(fa + e =~= fa);
    assert(fb + e =~= fb);
    lemma_u32_prefix(a.flags.spec_bits(), e, b.flags.spec_bits(), e);
    crate::pipeline::pipeline_key::lemma_flags_determined_by_bits(a.flags, b.flags);
}

/// Material-pipeline keys with equal hash inputs are equal.
pub proof fn lemma_graphics_key_encoding_injective(a: GraphicsPipelineKey, b: GraphicsPipelineKey)
    requires
        a.key_encoding() == b.key_encoding(),
    ensures
        a == b,
{
    lemma_graphics_shape(a);
    lemma_graphics_shape(b);
    let ra = g_ids(a.bind_group_layout_ids@, g_codes(a) + g_tail(a));
    let rb = g_ids(b.bind_group_layout_ids@, g_codes(b) + g_tail(b));
    lemma_u64_prefix(a.shader_hash, enc_u64(a.vertex_layout_id) + ra, b.shader_hash, enc_u64(b.vertex_layout_id) + rb);
    lemma_u64_prefix(a.vertex_layout_id, ra, b.vertex_layout_id, rb);
    lemma_ids_prefix(a.bind_group_layout_ids@, g_codes(a) + g_tail(a), b.bind_group_layout_ids@, g_codes(b) + g_tail(b));
    lemma_codes_prefix(g_codes(a), g_tail(a), g_codes(b), g_tail(b));
    assert(g_codes(a)[0] == g_codes(b)[0] && g_codes(a)[1] == g_codes(b)[1]);
    assert(g_codes(a)[2] == g_codes(b)[2] && g_codes(a)[3] == g_codes(b)[3]);
    assert(a.cull_mode == b.cull_mode);
    lemma_graphics_tail(a, b);
    assert(a.bind_group_layout_ids == b.bind_group_layout_ids);
}

/// Fullscreen-pipeline keys with equal hash inputs are equal (for target
/// lists that a 64-bit count can hold, as every list in memory is).
pub proof fn lemma_fullscreen_key_encoding_injective(a: FullscreenPipelineKey, b: FullscreenPipelineKey)
    requires
        a.color_targets@.len() <= u64::MAX,
        b.color_targets@.len() <= u64::MAX,
        a.key_encoding() == b.key_encoding(),
    ensures
        a.shader_hash == b.shader_hash,
        a.color_targets@ == b.color_targets@,
        a.depth_stencil == b.depth_stencil,
        a.multisample == b.multisample,
{
    let e = Seq::<u8>::empty();
    let ta = enc_opt_depth_stencil(a.depth_stencil) + (a.multisample.key_encoding() + e);
    let tb = enc_opt_depth_stencil(b.depth_stencil) + (b.multisample.key_encoding() + e);
    let ca = a.color_targets@;
    let cb = b.color_targets@;
    assert(a.key_encoding() =~= spec_u128_to_le_bytes(a.shader_hash) + (enc_u64(ca.len() as u64) + (
        enc_targets(ca) + ta)));
    assert(b.key_encoding() =~= spec_u128_to_le_bytes(b.shader_hash) + (enc_u64(cb.len() as u64) + (
        enc_targets(cb) + tb)));
    lemma_u128_prefix(
        a.shader_hash,
        enc_u64(ca.len() as u64) + (enc_targets(ca) + ta),
        b.shader_hash,
        enc_u64(cb.len() as u64) + (enc_targets(cb) + tb),
    );
    lemma_counted_targets_prefix(ca, ta, cb, tb);
    lemma_opt_depth_prefix(a.depth_stencil, a.multisample.key_encoding() + e, b.depth_stencil, b.multisample.key_encoding() + e);
    lemma_multisample_prefix(a.multisample, e, b.multisample, e);
}

/// Simplified-geometry keys with equal hash inputs are equal (for target
/// lists that a 64-bit count can hold, as every list in memory is).
pub proof fn lemma_simple_geometry_key_encoding_injective(
    a: SimpleGeometryPipelineKey,
    b: SimpleGeometryPipelineKey,
)
    requires
        a.color_targets@.len() <= u64::MAX,
        b.color_targets@.len() <= u64::MAX,
        a.key_encoding() == b.key_encoding(),
    ensures
        a.shader_hash == b.shader_hash,
        a.vertex_layout_id == b.vertex_layout_id,
        a.color_targets@ == b.color_targets@,
        a.depth_stencil == b.depth_stencil,
        a.topology == b.topology,
        a.cull_mode == b.cull_mode,
        a.front_face == b.front_face,
        a.sample_count == b.sample_count,
{
    let e = Seq::<u8>::empty();
    let ka = seq![a.topology.spec_code(), opt_face_code(a.cull_mode), a.front_face.spec_code()];
    let kb = seq![b.topology.spec_code(), opt_face_code(b.cull_mode), b.front_face.spec_code()];
    let sa = enc_u32(a.sample_count) + e;
    let sb = enc_u32(b.sample_count) + e;
    let ta = a.depth_stencil.key_encoding() + (ka + sa);
    let tb = b.depth_stencil.key_encoding() + (kb + sb);
    let ca = a.color_targets@;
    let cb = b.color_targets@;
    assert(a.key_encoding() =~= spec_u128_to_le_bytes(a.shader_hash) + (enc_u64(a.vertex_layout_id) + (
        enc_u64(ca.len() as u64) + (enc_targets(ca) + ta))));
    assert(b.key_encoding() =~= spec_u128_to_le_bytes(b.shader_hash) + (enc_u64(b.vertex_layout_id) + (
        enc_u64(cb.len() as u64) + (enc_targets(cb) + tb))));
    lemma_u128_prefix(
        a.shader_hash,
        enc_u64(a.vertex_layout_id) + (enc_u64(ca.len() as u64) + (enc_targets(ca) + ta)),
        b.shader_hash,
        enc_u64(b.vertex_layout_id) + (enc_u64(cb.len() as u64) + (enc_targets(cb) + tb)),
    );
    lemma_u64_prefix(
        a.vertex_layout_id,
        enc_u64(ca.len() as u64) + (enc_targets(ca) + ta),
        b.vertex_layout_id,
        enc_u64(cb.len() as u64) + (enc_targets(cb) + tb),
    );
    lemma_counted_targets_prefix(ca, ta, cb, tb);
    lemma_depth_prefix(a.depth_stencil, ka + sa, b.depth_stencil, kb + sb);
    lemma_codes_prefix(ka, sa, kb, sb);
    assert(ka[0] == kb[0] && ka[1] == kb[1] && ka[2] == kb[2]);
    assert(a.cull_mode == b.cull_mode);
    lemma_u32_prefix(a.sample_count, e, b.sample_count, e);
}

} // verus!
