use vstd::prelude::*;
use crate::shader_features::{feature_value_seq, MeshShaderVariantTier, UntoonShaderFeatures};
use crate::text::{chars_of, push_all, replace_all, replace_all_chars, string_from_chars};

verus! {

/// Applies the edits in order: each replaces every occurrence of its first string by its second.
pub open spec fn apply_edits(s: Seq<char>, edits: Seq<(Seq<char>, Seq<char>)>) -> Seq<char>
    decreases edits.len(),
{
    if edits.len() == 0 {
        s
    } else {
        apply_edits(replace_all(s, edits[0].0, edits[0].1), edits.drop_first())
    }
}

pub open spec fn edit_views(table: Seq<(&'static str, &'static str)>) -> Seq<(Seq<char>, Seq<char>)> {
    table.map_values(|e: (&'static str, &'static str)| (e.0@, e.1@))
}

/// Applies a table of edits to a shader text.
pub fn apply_edit_table(shader: Vec<char>, table: &[(&'static str, &'static str)]) -> (out: Vec<char>)
    ensures
        out@ == apply_edits(shader@, edit_views(table@)),
{
    let ghost edits = edit_views(table@);
    let mut cur = shader;
    let mut i: usize = 0;
    proof {
        assert(edits.skip(0) =~= edits);
    }
    while i < table.len()
        invariant
            i <= table@.len(),
            edits == edit_views(table@),
            apply_edits(cur@, edits.skip(i as int)) == apply_edits(shader@, edits),
        decreases table.len() - i,
    {
        let (from, to) = table[i];
        let from_chars = chars_of(from);
        let to_chars = chars_of(to);
        let next = replace_all_chars(&cur, &from_chars, &to_chars);
        proof {
            assert(edits.skip(i as int).drop_first() =~= edits.skip(i + 1));
            assert(edits.skip(i as int)[0] == (from@, to@));
        }
        cur = next;
        i = i + 1;
    }
    proof {
        assert(edits.skip(i as int).len() == 0);
    }
    cur
}

/// The edits that strip the extended texture bindings (and the code that samples them)
/// from the mesh shader, in the order they are applied.
pub open spec fn baseline_fallback_edits() -> Seq<(&'static str, &'static str)> {
    seq![
        ("@group(1) @binding(24) var shadow_border_mask_tex: texture_2d<f32>;\n", ""),
        ("@group(1) @binding(25) var shadow_blur_mask_tex: texture_2d<f32>;\n", ""),
        ("@group(1) @binding(26) var shadow_border_mask_samp: sampler;\n", ""),
        ("@group(1) @binding(27) var shadow_blur_mask_samp: sampler;\n", ""),
        ("@group(1) @binding(38) var matcap2_tex: texture_2d<f32>;\n", ""),
        ("@group(1) @binding(39) var matcap2_blend_mask_tex: texture_2d<f32>;\n", ""),
        ("@group(1) @binding(41) var main2nd_tex: texture_2d<f32>;\n", ""),
        ("@group(1) @binding(42) var main3rd_tex: texture_2d<f32>;\n", ""),
        ("@group(1) @binding(43) var main2nd_blend_mask_tex: texture_2d<f32>;\n", ""),
        ("@group(1) @binding(44) var main3rd_blend_mask_tex: texture_2d<f32>;\n", ""),
        ("@group(1) @binding(45) var normal2nd_tex: texture_2d<f32>;\n", ""),
        ("@group(1) @binding(46) var emission_gradation_tex: texture_2d<f32>;\n", ""),
        ("@group(1) @binding(47) var main_gradation_tex: texture_2d<f32>;\n", ""),
        ("@group(1) @binding(48) var emission2nd_tex: texture_2d<f32>;\n", ""),
        ("@group(1) @binding(49) var emission2nd_blend_mask_tex: texture_2d<f32>;\n", ""),
        ("@group(1) @binding(50) var emission2nd_gradation_tex: texture_2d<f32>;\n", ""),
        ("@group(1) @binding(51) var anisotropy_tangent_tex: texture_2d<f32>;\n", ""),
        ("@group(1) @binding(52) var anisotropy_scale_mask_tex: texture_2d<f32>;\n", ""),
        ("@group(1) @binding(53) var anisotropy_shift_noise_tex: texture_2d<f32>;\n", ""),
        ("@group(1) @binding(54) var emission_blend_mask_tex: texture_2d<f32>;\n", ""),
        ("@group(1) @binding(55) var rim_shade_mask_tex: texture_2d<f32>;\n", ""),
        ("@group(1) @binding(56) var backlight_color_tex: texture_2d<f32>;\n", ""),
        ("@group(1) @binding(57) var shadow2_color_tex: texture_2d<f32>;\n", ""),
        ("@group(1) @binding(58) var shadow3_color_tex: texture_2d<f32>;\n", ""),
        ("@group(1) @binding(59) var fur_vector_tex: texture_2d<f32>;\n", ""),
        ("@group(1) @binding(60) var fur_length_mask_tex: texture_2d<f32>;\n", ""),
        ("@group(1) @binding(61) var fur_noise_mask_tex: texture_2d<f32>;\n", ""),
        ("@group(1) @binding(62) var fur_mask_tex: texture_2d<f32>;\n", ""),
        ("@group(1) @binding(63) var glitter_color_tex: texture_2d<f32>;\n", ""),
        ("@group(1) @binding(64) var glitter_shape_tex: texture_2d<f32>;\n", ""),
        ("@group(1) @binding(65) var dissolve_mask_tex: texture_2d<f32>;\n", ""),
        ("@group(1) @binding(66) var dissolve_noise_mask_tex: texture_2d<f32>;\n", ""),
        ("@group(1) @binding(67) var parallax_tex: texture_2d<f32>;\n", ""),
        ("@group(1) @binding(68) var main2nd_dissolve_mask_tex: texture_2d<f32>;\n", ""),
        ("@group(1) @binding(69) var main2nd_dissolve_noise_mask_tex: texture_2d<f32>;\n", ""),
        ("@group(1) @binding(70) var main3rd_dissolve_mask_tex: texture_2d<f32>;\n", ""),
        ("@group(1) @binding(71) var main3rd_dissolve_noise_mask_tex: texture_2d<f32>;\n", ""),
        ("@group(1) @binding(72) var normal2nd_scale_mask_tex: texture_2d<f32>;\n", ""),
        ("@group(1) @binding(73) var matcap_bump_tex: texture_2d<f32>;\n", ""),
        ("@group(1) @binding(74) var matcap2_bump_tex: texture_2d<f32>;\n", ""),
        ("@group(1) @binding(75) var main_color_adjust_mask_tex: texture_2d<f32>;\n", ""),
        ("let main_color_adjust_mask = textureSample(main_color_adjust_mask_tex, base_samp, uv).r;", "let main_color_adjust_mask = 1.0;"),
        ("let glitter_color_texel = textureSample(glitter_color_tex, base_samp, glitter_color_uv);", "let glitter_color_texel = vec4<f32>(1.0, 1.0, 1.0, 1.0);"),
        ("textureSample(matcap_bump_tex, normal_samp, map_uv)", "vec4<f32>(0.5, 0.5, 1.0, 1.0)"),
        ("textureSample(matcap2_bump_tex, normal_samp, map_uv)", "vec4<f32>(0.5, 0.5, 1.0, 1.0)"),
        ("let shape_tex = textureSampleGrad(glitter_shape_tex, base_samp, mask_uv, abs(dpdx(pos)) * mipfactor.x, abs(dpdy(pos)) * mipfactor.y);", "let shape_tex = vec4<f32>(1.0, 1.0, 1.0, 1.0);"),
        ("let dissolve_mask_val = textureSample(dissolve_mask_tex, base_samp, dissolve_mask_uv).r;", "let dissolve_mask_val = 1.0;"),
        ("let dissolve_noise = (textureSample(dissolve_noise_mask_tex, base_samp, dissolve_noise_uv).r - 0.5) * drawu.dissolve_ext.x * drawu.dissolve_ext.z;", "let dissolve_noise = 0.0;"),
        ("let layer = textureSample(main2nd_tex, base_samp, layer_uv.sample_uv) * drawu.main2nd_color;", "let layer = drawu.main2nd_color;"),
        ("textureSample(main2nd_blend_mask_tex, base_samp, uv).r", "1.0"),
        ("textureSample(main2nd_dissolve_mask_tex, base_samp, dissolve_mask_uv).r", "1.0"),
        ("textureSample(main2nd_dissolve_noise_mask_tex, base_samp, dissolve_noise_uv).r", "0.5"),
        ("let layer = textureSample(main3rd_tex, base_samp, layer_uv.sample_uv) * drawu.main3rd_color;", "let layer = drawu.main3rd_color;"),
        ("textureSample(main3rd_blend_mask_tex, base_samp, uv).r", "1.0"),
        ("textureSample(main3rd_dissolve_mask_tex, base_samp, dissolve_mask_uv).r", "1.0"),
        ("textureSample(main3rd_dissolve_noise_mask_tex, base_samp, dissolve_noise_uv).r", "0.5"),
        ("textureSampleLevel(parallax_tex, base_samp, parallax_map_uv, 0.0).r", "0.5"),
        ("textureSampleLevel(parallax_tex, base_samp, ray_pos.xy, 0.0).r", "0.5"),
        ("let fur_mask = textureSample(fur_mask_tex, base_samp, uv).r;", "let fur_mask = 1.0;"),
        ("let fur_noise_mask = textureSample(fur_noise_mask_tex, base_samp, noise_uv).r;", "let fur_noise_mask = 1.0;"),
        ("let fur_noise_mask = textureSample(fur_noise_mask_tex, base_samp, noise_uv).r;", "let fur_noise_mask = 1.0;"),
        ("\tlet fur_mask = textureSampleLevel(fur_mask_tex, base_samp, fur_uv, 0.0).r;\n\tlet noise_uv = fur_uv * max(drawu.fur_noise_params.xy, vec2<f32>(0.0001, 0.0001)) + drawu.fur_noise_params.zw;\n\tlet noise = textureSampleLevel(fur_noise_mask_tex, base_samp, noise_uv, 0.0).r;\n", "\tlet fur_mask = 1.0;\n\tlet noise = 1.0;\n"),
        ("\tlet length_mask = textureSampleLevel(fur_length_mask_tex, base_samp, fur_uv, 0.0).r;\n\tlet vector_tex = textureSampleLevel(fur_vector_tex, base_samp, fur_uv, 0.0).xyz * 2.0 - vec3<f32>(1.0);\n\tlet fur_vector_ts = drawu.fur_vector_params.xyz + vector_tex + vec3<f32>(0.0, 0.0, 0.001);\n", "\tlet length_mask = 1.0;\n\tlet fur_vector_ts = drawu.fur_vector_params.xyz + vec3<f32>(0.0, 0.0, 0.001);\n"),
        ("let length_mask = textureSampleLevel(fur_length_mask_tex, base_samp, fur_uv, 0.0).r;", "let length_mask = 1.0;"),
        ("let vector_tex = textureSampleLevel(fur_vector_tex, base_samp, fur_uv, 0.0).xyz * 2.0 - vec3<f32>(1.0);", "let vector_tex = vec3<f32>(0.0);"),
        ("let vector_tex = unpack_fur_vector_map(textureSampleLevel(fur_vector_tex, base_samp, fur_uv, 0.0), drawu.fur_ext_params.x);", "let vector_tex = vec3<f32>(0.0, 0.0, 1.0);"),
        ("fn lil_anisotropy_basis(n: vec3<f32>, tangent_in: vec4<f32>, uv: vec2<f32>, v: vec3<f32>) -> AnisotropyBasis {\n\tlet enabled = clamp(drawu.anisotropy_params.x, 0.0, 1.0);\n\tif (enabled <= 0.000001) {\n\t\treturn AnisotropyBasis(n, n, 0.0, 0.0, 0.0);\n\t}\n\tlet base_tangent = normalize(tangent_in.xyz - n * dot(n, tangent_in.xyz));\n\tlet base_bitangent = normalize(cross(n, base_tangent)) * tangent_in.w;\n\tlet tangent_uv = uv * drawu.anisotropy_tangent_uv_offset_scale.zw + drawu.anisotropy_tangent_uv_offset_scale.xy;\n\tvar tangent_sample = textureSample(anisotropy_tangent_tex, normal_samp, tangent_uv).xyz * 2.0 - vec3<f32>(1.0, 1.0, 1.0);\n\tif (dot(tangent_sample, tangent_sample) < 0.000001) {\n\t\ttangent_sample = vec3<f32>(1.0, 0.0, 0.0);\n\t}\n\tvar aniso_t = normalize(base_tangent * tangent_sample.x + base_bitangent * tangent_sample.y + n * tangent_sample.z);\n\taniso_t = normalize(aniso_t - n * dot(n, aniso_t));\n\tlet aniso_b = normalize(cross(n, aniso_t)) * tangent_in.w;\n\tlet scale_uv = uv * drawu.anisotropy_scale_mask_uv_offset_scale.zw + drawu.anisotropy_scale_mask_uv_offset_scale.xy;\n\tlet scale_mask = textureSample(anisotropy_scale_mask_tex, base_samp, scale_uv).r;\n\tlet anisotropy = drawu.anisotropy_params.y * scale_mask;\n\tlet shift_axis = select(aniso_b, aniso_t, anisotropy >= 0.0);\n\tlet aniso_n = normalize(n + shift_axis * clamp(abs(anisotropy), 0.0, 1.0) * max(0.15, 1.0 - abs(dot(n, v))));\n\tlet noise_uv = uv * drawu.anisotropy_shift_noise_uv_offset_scale.zw + drawu.anisotropy_shift_noise_uv_offset_scale.xy;\n\tlet shift_noise = textureSample(anisotropy_shift_noise_tex, base_samp, noise_uv).r - 0.5;\n\treturn AnisotropyBasis(aniso_n, aniso_t, clamp(anisotropy, -1.0, 1.0), shift_noise, enabled);\n}\n", "fn lil_anisotropy_basis(n: vec3<f32>, tangent_in: vec4<f32>, uv: vec2<f32>, v: vec3<f32>) -> AnisotropyBasis {\n\treturn AnisotropyBasis(n, n, n, 0.0, 0.0, 0.0);\n}\n"),
        ("var tangent_sample = textureSample(anisotropy_tangent_tex, normal_samp, tangent_uv).xyz * 2.0 - vec3<f32>(1.0, 1.0, 1.0);", "var tangent_sample = vec3<f32>(1.0, 0.0, 0.0);"),
        ("let scale_mask = textureSample(anisotropy_scale_mask_tex, base_samp, scale_uv).r;", "let scale_mask = 1.0;"),
        ("let shift_noise = textureSample(anisotropy_shift_noise_tex, base_samp, noise_uv).r - 0.5;", "let shift_noise = 0.0;"),
        ("\t\t\tlet emission_mask_uv = lil_calc_uv_scroll_rotate(uv, drawu.emission_blend_mask_uv_offset_scale, drawu.emission_blend_mask_uv_anim_params);\n\t\t\tlet emission_mask = textureSample(emission_blend_mask_tex, emissive_samp, emission_mask_uv).r;\n", "\t\t\tlet emission_mask = 1.0;\n"),
        ("\t\t\tlet rim_shade_mask = textureSample(rim_shade_mask_tex, rim_samp, uv).r;\n", "\t\t\tlet rim_shade_mask = 1.0;\n"),
        ("\tlet rim_shade_mask = textureSample(rim_shade_mask_tex, rim_samp, uv).r;\n", "\tlet rim_shade_mask = 1.0;\n"),
        ("\t\t\tlet backlight_color_uv = uv * drawu.backlight_color_uv_offset_scale.zw + drawu.backlight_color_uv_offset_scale.xy;\n\t\t\tlet backlight_color_sample = textureSample(backlight_color_tex, base_samp, backlight_color_uv);\n\t\t\tlet authored_backlight_color = drawu.backlight_color * backlight_color_sample;\n", "\t\t\tlet authored_backlight_color = drawu.backlight_color;\n"),
        ("\t\tlet backlight_color_uv = uv * drawu.backlight_color_uv_offset_scale.zw + drawu.backlight_color_uv_offset_scale.xy;\n\t\tlet backlight_color_sample = textureSample(backlight_color_tex, base_samp, backlight_color_uv);\n\t\tlet authored_backlight_color = drawu.backlight_color * backlight_color_sample;\n", "\t\tlet authored_backlight_color = drawu.backlight_color;\n"),
        ("\t\tlet shadow2_color_texel = textureSample(shadow2_color_tex, shade_samp, uv);\n\t\tlet shadow2_color = mix(base, shadow2_color_texel.rgb, clamp(shadow2_color_texel.a, 0.0, 1.0)) * drawu.shadow2_color.rgb;\n", "\t\tlet shadow2_color = base * drawu.shadow2_color.rgb;\n"),
        ("\t\tlet shadow3_color_texel = textureSample(shadow3_color_tex, shade_samp, uv);\n\t\tlet shadow3_color = mix(base, shadow3_color_texel.rgb, clamp(shadow3_color_texel.a, 0.0, 1.0)) * drawu.shadow3_color.rgb;\n", "\t\tlet shadow3_color = base * drawu.shadow3_color.rgb;\n"),
        ("\t\t\tif (drawu.emission2nd_params.x > 0.5) {\n\t\t\t\tlet emission2nd_uv = uv * drawu.emission2nd_uv_offset_scale.zw + drawu.emission2nd_uv_offset_scale.xy;\n\t\t\t\tlet emission2nd_mask_uv = uv * drawu.emission2nd_blend_mask_uv_offset_scale.zw + drawu.emission2nd_blend_mask_uv_offset_scale.xy;\n\t\t\t\tvar emission2nd_sample = textureSample(emission2nd_tex, emissive_samp, emission2nd_uv) * drawu.emission2nd_color;\n\t\t\t\temission2nd_sample = emission2nd_sample * textureSample(emission2nd_blend_mask_tex, emissive_samp, emission2nd_mask_uv);\n\t\t\t\tif (drawu.emission2nd_grad_params.x > 0.5) {\n\t\t\t\t\tlet grad_u = fract(drawu.emission2nd_grad_params.y * frame.time_params.x);\n\t\t\t\t\temission2nd_sample.rgb = emission2nd_sample.rgb * textureSample(emission2nd_gradation_tex, emissive_samp, vec2<f32>(grad_u, 0.5)).rgb;\n\t\t\t\t}\n\t\t\t\tlet emission2nd_rgb = mix(emission2nd_sample.rgb, emission2nd_sample.rgb * base, clamp(drawu.emission2nd_params.y, 0.0, 1.0));\n\t\t\t\tlet emission2nd_blend = clamp(drawu.emission2nd_params.x * drawu.emission2nd_params.z * emission2nd_sample.a, 0.0, 1.0);\n\t\t\t\tlit = lil_blend_color(lit, emission2nd_rgb, emission2nd_blend, drawu.emission2nd_params.w);\n\t\t\t}\n", ""),
        ("textureSample(emission2nd_tex, emissive_samp, emission2nd_uv)", "vec4<f32>(1.0, 1.0, 1.0, 1.0)"),
        ("textureSample(emission2nd_blend_mask_tex, emissive_samp, emission2nd_mask_uv)", "vec4<f32>(1.0, 1.0, 1.0, 1.0)"),
        ("textureSample(emission2nd_gradation_tex, emissive_samp, vec2<f32>(grad_u, 0.5)).rgb", "vec3<f32>(1.0, 1.0, 1.0)"),
        ("\t\t\tif (drawu.emission2nd_params.x > 0.5) {\n\t\t\t\tlet emission2nd_uv = lil_calc_uv_scroll_rotate(uv, drawu.emission2nd_uv_offset_scale, drawu.emission2nd_uv_anim_params);\n\t\t\t\tlet emission2nd_mask_uv = lil_calc_uv_scroll_rotate(uv, drawu.emission2nd_blend_mask_uv_offset_scale, drawu.emission2nd_blend_mask_uv_anim_params);\n\t\t\t\tvar emission2nd_sample = textureSample(emission2nd_tex, emissive_samp, emission2nd_uv) * drawu.emission2nd_color;\n\t\t\t\temission2nd_sample = emission2nd_sample * textureSample(emission2nd_blend_mask_tex, emissive_samp, emission2nd_mask_uv);\n\t\t\t\tif (drawu.emission2nd_grad_params.x > 0.5) {\n\t\t\t\t\tlet grad_u = fract(drawu.emission2nd_grad_params.y * frame.time_params.x);\n\t\t\t\t\temission2nd_sample.rgb = emission2nd_sample.rgb * textureSample(emission2nd_gradation_tex, emissive_samp, vec2<f32>(grad_u, 0.5)).rgb;\n\t\t\t\t}\n\t\t\t\temission2nd_sample.rgb = mix(emission2nd_sample.rgb, emission2nd_sample.rgb * inv_lighting, clamp(drawu.emission2nd_grad_params.z, 0.0, 1.0));\n\t\t\t\tlet emission2nd_rgb = mix(emission2nd_sample.rgb, emission2nd_sample.rgb * base, clamp(drawu.emission2nd_params.y, 0.0, 1.0));\n\t\t\t\tlet emission2nd_blink = lil_calc_blink(drawu.emission2nd_blink_params);\n\t\t\t\tlet emission2nd_blend = clamp(drawu.emission2nd_params.x * drawu.emission2nd_params.z * emission2nd_blink * emission2nd_sample.a, 0.0, 1.0);\n\t\t\t\tlit = lil_blend_color(lit, emission2nd_rgb, emission2nd_blend, drawu.emission2nd_params.w);\n\t\t\t}\n", ""),
        ("\t\t\tif (drawu.emission2nd_params.x > 0.5) {\n\t\t\t\tlet emission2nd_uv_base = lil_select_emission_uv(drawu.emission2nd_uv_anim_params.w, uv, i.uv1, i.uv2, i.uv3, uv_rim);\n\t\t\t\tlet emission2nd_uv = lil_calc_uv_scroll_rotate(emission2nd_uv_base, drawu.emission2nd_uv_offset_scale, drawu.emission2nd_uv_anim_params) + parallax_offset * drawu.emission2nd_ext_params.x;\n\t\t\t\tlet emission2nd_mask_uv = lil_calc_uv_scroll_rotate(uv, drawu.emission2nd_blend_mask_uv_offset_scale, drawu.emission2nd_blend_mask_uv_anim_params);\n\t\t\t\tlet emission2nd_sample = textureSample(emission2nd_tex, emissive_samp, emission2nd_uv) * drawu.emission2nd_color * textureSample(emission2nd_blend_mask_tex, emissive_samp, emission2nd_mask_uv);\n\t\t\t\tvar emission2nd_rgb_work = emission2nd_sample.rgb;\n\t\t\t\tif (drawu.emission2nd_grad_params.x > 0.5) {\n\t\t\t\t\tlet grad_u = fract(drawu.emission2nd_grad_params.y * frame.time_params.x);\n\t\t\t\t\temission2nd_rgb_work = emission2nd_rgb_work * textureSample(emission2nd_gradation_tex, emissive_samp, vec2<f32>(grad_u, 0.5)).rgb;\n\t\t\t\t}\n\t\t\t\temission2nd_rgb_work = mix(emission2nd_rgb_work, emission2nd_rgb_work * inv_lighting, clamp(drawu.emission2nd_grad_params.z, 0.0, 1.0));\n\t\t\t\tlet emission2nd_rgb = mix(emission2nd_rgb_work, emission2nd_rgb_work * base, clamp(drawu.emission2nd_params.y, 0.0, 1.0));\n\t\t\t\tlet emission2nd_blink = lil_calc_blink(drawu.emission2nd_blink_params);\n\t\t\t\tlet emission2nd_blend = clamp(drawu.emission2nd_params.x * drawu.emission2nd_params.z * emission2nd_blink * emission2nd_sample.a, 0.0, 1.0);\n\t\t\t\tlit = lil_blend_color(lit, emission2nd_rgb, emission2nd_blend, drawu.emission2nd_params.w);\n\t\t\t}\n", ""),
        ("\t\t\tif (drawu.emission2nd_params.x > 0.5) {\n\t\t\t\tlet emission2nd_uv_base = lil_select_emission_uv(drawu.emission2nd_uv_anim_params.w, uv, i.uv1, i.uv2, i.uv3, uv_rim);\n\t\t\t\tlet emission2nd_uv = lil_calc_uv_scroll_rotate(emission2nd_uv_base, drawu.emission2nd_uv_offset_scale, drawu.emission2nd_uv_anim_params) + parallax_offset * drawu.emission2nd_ext_params.x;\n\t\t\t\tlet emission2nd_mask_uv = lil_calc_uv_scroll_rotate(uv, drawu.emission2nd_blend_mask_uv_offset_scale, drawu.emission2nd_blend_mask_uv_anim_params);\n\t\t\t\tlet emission2nd_sample = textureSample(emission2nd_tex, emissive_samp, emission2nd_uv) * drawu.emission2nd_color * textureSample(emission2nd_blend_mask_tex, emissive_samp, emission2nd_mask_uv);\n\t\t\t\tvar emission2nd_rgb_work = emission2nd_sample.rgb;\n\t\t\t\tif (drawu.emission2nd_grad_params.x > 0.5) {\n\t\t\t\t\tlet grad_u = fract(drawu.emission2nd_grad_params.y * frame.time_params.x);\n\t\t\t\t\temission2nd_rgb_work = emission2nd_rgb_work * textureSample(emission2nd_gradation_tex, emissive_samp, vec2<f32>(grad_u, 0.5)).rgb;\n\t\t\t\t}\n\t\t\t\temission2nd_rgb_work = mix(emission2nd_rgb_work, emission2nd_rgb_work * inv_lighting, clamp(drawu.emission2nd_grad_params.z, 0.0, 1.0));\n\t\t\t\tlet emission2nd_rgb = mix(emission2nd_rgb_work, emission2nd_rgb_work * base, clamp(drawu.emission2nd_params.y, 0.0, 1.0));\n\t\t\t\tlet emission2nd_blink = lil_calc_blink(drawu.emission2nd_blink_params);\n\t\t\t\tlet emission2nd_blend = clamp(drawu.emission2nd_params.x * drawu.emission2nd_params.z * emission2nd_blink * emission2nd_sample.a * emission_transparency, 0.0, 1.0);\n\t\t\t\tlit = lil_blend_color(lit, emission2nd_rgb, emission2nd_blend, drawu.emission2nd_params.w);\n\t\t\t}\n", ""),
        ("fn apply_main_gradation(color: vec3<f32>) -> vec3<f32> {\n\tlet strength = clamp(drawu.main_gradation_params.x * drawu.main_gradation_params.y, 0.0, 1.0);\n\tif (strength <= 0.000001) {\n\t\treturn color;\n\t}\n\tlet c = linear_to_srgb(clamp(color, vec3<f32>(0.0), vec3<f32>(1.0)));\n\tlet mapped_srgb = vec3<f32>(\n\t\ttextureSample(main_gradation_tex, base_samp, vec2<f32>(c.r, 0.5)).r,\n\t\ttextureSample(main_gradation_tex, base_samp, vec2<f32>(c.g, 0.5)).g,\n\t\ttextureSample(main_gradation_tex, base_samp, vec2<f32>(c.b, 0.5)).b\n\t);\n\tlet mapped = srgb_to_linear(mapped_srgb);\n\treturn mix(color, mapped, strength);\n}\n", "fn apply_main_gradation(color: vec3<f32>) -> vec3<f32> {\n\treturn color;\n}\n"),
        ("\t\t\tif (drawu.emission_grad_params.x > 0.5) {\n\t\t\t\tlet grad_u = fract(drawu.emission_grad_params.y * frame.time_params.x);\n\t\t\t\temission_color = emission_color * textureSample(emission_gradation_tex, emissive_samp, vec2<f32>(grad_u, 0.5)).rgb;\n\t\t\t}\n", ""),
        ("\t\t\tif (drawu.emission_grad_params.x > 0.5) {\n\t\t\t\tlet grad_u = fract(drawu.emission_grad_params.y * frame.time_params.x + audio_link_value * drawu.audio_link_params.w);\n\t\t\t\temission_color = emission_color * textureSample(emission_gradation_tex, emissive_samp, vec2<f32>(grad_u, 0.5)).rgb;\n\t\t\t}\n", ""),
        ("\t\t\tif (drawu.emission2nd_params.x > 0.5) {\n\t\t\t\tlet emission2nd_uv_base = lil_select_emission_uv(drawu.emission2nd_uv_anim_params.w, uv, i.uv1, i.uv2, i.uv3, uv_rim);\n\t\t\t\tlet emission2nd_uv = lil_calc_uv_scroll_rotate(emission2nd_uv_base, drawu.emission2nd_uv_offset_scale, drawu.emission2nd_uv_anim_params) + parallax_offset * drawu.emission2nd_ext_params.x;\n\t\t\t\tlet emission2nd_mask_uv = lil_calc_uv_scroll_rotate(uv, drawu.emission2nd_blend_mask_uv_offset_scale, drawu.emission2nd_blend_mask_uv_anim_params);\n\t\t\t\tlet emission2nd_sample = textureSample(emission2nd_tex, emissive_samp, emission2nd_uv) * drawu.emission2nd_color * textureSample(emission2nd_blend_mask_tex, emissive_samp, emission2nd_mask_uv);\n\t\t\t\tvar emission2nd_rgb_work = emission2nd_sample.rgb;\n\t\t\t\tif (drawu.emission2nd_grad_params.x > 0.5) {\n\t\t\t\t\tlet grad_u = fract(drawu.emission2nd_grad_params.y * frame.time_params.x + audio_link_value * drawu.audio_link_ext.y);\n\t\t\t\t\temission2nd_rgb_work = emission2nd_rgb_work * textureSample(emission2nd_gradation_tex, emissive_samp, vec2<f32>(grad_u, 0.5)).rgb;\n\t\t\t\t}\n\t\t\t\temission2nd_rgb_work = mix(emission2nd_rgb_work, emission2nd_rgb_work * inv_lighting, clamp(drawu.emission2nd_grad_params.z, 0.0, 1.0));\n\t\t\t\tlet emission2nd_rgb = mix(emission2nd_rgb_work, emission2nd_rgb_work * base, clamp(drawu.emission2nd_params.y, 0.0, 1.0));\n\t\t\t\tlet emission2nd_blink = lil_calc_blink(drawu.emission2nd_blink_params);\n\t\t\t\tlet emission2nd_audio = mix(1.0, audio_link_value, clamp(drawu.audio_link_ext.x, 0.0, 1.0));\n\t\t\t\tlet emission2nd_blend = clamp(drawu.emission2nd_params.x * drawu.emission2nd_params.z * emission2nd_blink * emission2nd_sample.a * emission2nd_audio * emission_transparency, 0.0, 1.0);\n\t\t\t\tlit = lil_blend_color(lit, emission2nd_rgb, emission2nd_blend, drawu.emission2nd_params.w);\n\t\t\t}\n", ""),
        ("\tif (UNTOON_FEATURE_NORMAL_SECOND > 0.5 && drawu.normal2nd_params.x > 0.5) {\n\t\tlet normal2nd_base_uv = lil_select_uv(drawu.normal2nd_params.z, uv, uv1, uv2, uv3);\n\t\tlet normal2nd_uv = normal2nd_base_uv * drawu.normal2nd_uv_offset_scale.zw + drawu.normal2nd_uv_offset_scale.xy;\n\t\tlet normal2nd_scale_mask_uv = uv * drawu.normal2nd_scale_mask_uv_offset_scale.zw + drawu.normal2nd_scale_mask_uv_offset_scale.xy;\n\t\tlet scale_mask = textureSample(normal2nd_scale_mask_tex, base_samp, normal2nd_scale_mask_uv).r;\n\t\tlet tn2 = lil_unpack_normal_scale(textureSample(normal2nd_tex, normal_samp, normal2nd_uv), drawu.normal2nd_params.y * scale_mask);\n\t\ttn = vec3<f32>(tn.xy + tn2.xy, tn.z * tn2.z);\n\t}\n", ""),
        ("let shadow_border_mask = lil_shadow_border_ao_mask(textureSample(shadow_border_mask_tex, shadow_border_mask_samp, uv).rgb);\n\t\tlet shadow_blur_mask = textureSample(shadow_blur_mask_tex, shadow_blur_mask_samp, uv).rgb;", "let shadow_border_mask = lil_shadow_border_ao_mask(vec3<f32>(1.0, 1.0, 1.0));\n\t\tlet shadow_blur_mask = vec3<f32>(1.0, 1.0, 1.0);"),
        ("let matcap2_tex_color = textureSampleLevel(matcap2_tex, matcap_samp, matcap2_uv, max(drawu.matcap2_ext_params.z, 0.0));", "let matcap2_tex_color = vec4<f32>(1.0, 1.0, 1.0, 1.0);"),
        ("let matcap2_blend_mask = textureSample(matcap2_blend_mask_tex, matcap_blend_mask_samp, matcap2_blend_mask_uv).rgb;", "let matcap2_blend_mask = vec3<f32>(1.0, 1.0, 1.0);"),
        ("\t\tif (drawu.matcap2_params.x > 0.0) {\n\t\t\tlet matcap2_base_n = normalize(mix(geometry_n, n, clamp(drawu.matcap2_ext_params.x, 0.0, 1.0)));\n\t\t\tlet matcap2_n = normalize(mix(matcap2_base_n, anisotropy_n, clamp(drawu.anisotropy_ext_params.x * anisotropy_basis.enabled, 0.0, 1.0)));\n\t\t\tlet matcap2_uv = toon_matcap_uv(i.uv1, matcap2_n, v, drawu.matcap2_tex_uv_offset_scale, drawu.matcap_uv_ext_params.zw, drawu.matcap_uv_params.z, drawu.matcap_uv_params.w);\n\t\t\tlet matcap2_tex_color = textureSampleLevel(matcap2_tex, matcap_samp, matcap2_uv, max(drawu.matcap2_ext_params.z, 0.0));\n\t\t\tlet matcap2_lighting = mix(vec3<f32>(1.0, 1.0, 1.0), frame.light_color.rgb * frame.light_color.w, clamp(drawu.matcap2_params.z, 0.0, 1.0));\n\t\t\tlet matcap2_raw = drawu.matcap2_factor.rgb * matcap2_tex_color.rgb * matcap2_lighting;\n\t\t\tlet matcap2_albedo = mix(matcap2_raw, matcap2_raw * base, clamp(drawu.matcap2_params.y, 0.0, 1.0));\n\t\t\tlet matcap2_blend_mask_uv = uv * drawu.matcap2_blend_mask_uv_offset_scale.zw + drawu.matcap2_blend_mask_uv_offset_scale.xy;\n\t\t\tlet matcap2_blend_mask = textureSample(matcap2_blend_mask_tex, matcap_blend_mask_samp, matcap2_blend_mask_uv).rgb;\n\t\t\tlet matcap2_shadow = mix(1.0, lil_effect_shadowmix, clamp(drawu.matcap2_ext_params.y, 0.0, 1.0));\n\t\t\tlet matcap2_backface = lil_backface_visibility(drawu.matcap2_ext_params.w, front_facing);\n\t\t\tlet matcap2_transparency = mix(1.0, a, clamp(drawu.transparency_params.y, 0.0, 1.0));\n\t\t\tlet matcap2_blend = clamp(drawu.matcap2_params.x * drawu.matcap2_factor.a * matcap2_tex_color.a * matcap2_blend_mask * matcap2_shadow * matcap2_backface * matcap2_transparency, vec3<f32>(0.0), vec3<f32>(1.0));\n\t\t\tlit = lil_blend_color3(lit, matcap2_albedo, matcap2_blend, drawu.matcap2_params.w);\n\t\t}\n", "")
    ]
}

fn baseline_fallback_edit_table() -> (table: [(&'static str, &'static str); 93])
    ensures
        table@ == baseline_fallback_edits(),
{
    [
        ("@group(1) @binding(24) var shadow_border_mask_tex: texture_2d<f32>;\n", ""),
        ("@group(1) @binding(25) var shadow_blur_mask_tex: texture_2d<f32>;\n", ""),
        ("@group(1) @binding(26) var shadow_border_mask_samp: sampler;\n", ""),
        ("@group(1) @binding(27) var shadow_blur_mask_samp: sampler;\n", ""),
        ("@group(1) @binding(38) var matcap2_tex: texture_2d<f32>;\n", ""),
        ("@group(1) @binding(39) var matcap2_blend_mask_tex: texture_2d<f32>;\n", ""),
        ("@group(1) @binding(41) var main2nd_tex: texture_2d<f32>;\n", ""),
        ("@group(1) @binding(42) var main3rd_tex: texture_2d<f32>;\n", ""),
        ("@group(1) @binding(43) var main2nd_blend_mask_tex: texture_2d<f32>;\n", ""),
        ("@group(1) @binding(44) var main3rd_blend_mask_tex: texture_2d<f32>;\n", ""),
        ("@group(1) @binding(45) var normal2nd_tex: texture_2d<f32>;\n", ""),
        ("@group(1) @binding(46) var emission_gradation_tex: texture_2d<f32>;\n", ""),
        ("@group(1) @binding(47) var main_gradation_tex: texture_2d<f32>;\n", ""),
        ("@group(1) @binding(48) var emission2nd_tex: texture_2d<f32>;\n", ""),
        ("@group(1) @binding(49) var emission2nd_blend_mask_tex: texture_2d<f32>;\n", ""),
        ("@group(1) @binding(50) var emission2nd_gradation_tex: texture_2d<f32>;\n", ""),
        ("@group(1) @binding(51) var anisotropy_tangent_tex: texture_2d<f32>;\n", ""),
        ("@group(1) @binding(52) var anisotropy_scale_mask_tex: texture_2d<f32>;\n", ""),
        ("@group(1) @binding(53) var anisotropy_shift_noise_tex: texture_2d<f32>;\n", ""),
        ("@group(1) @binding(54) var emission_blend_mask_tex: texture_2d<f32>;\n", ""),
        ("@group(1) @binding(55) var rim_shade_mask_tex: texture_2d<f32>;\n", ""),
        ("@group(1) @binding(56) var backlight_color_tex: texture_2d<f32>;\n", ""),
        ("@group(1) @binding(57) var shadow2_color_tex: texture_2d<f32>;\n", ""),
        ("@group(1) @binding(58) var shadow3_color_tex: texture_2d<f32>;\n", ""),
        ("@group(1) @binding(59) var fur_vector_tex: texture_2d<f32>;\n", ""),
        ("@group(1) @binding(60) var fur_length_mask_tex: texture_2d<f32>;\n", ""),
        ("@group(1) @binding(61) var fur_noise_mask_tex: texture_2d<f32>;\n", ""),
        ("@group(1) @binding(62) var fur_mask_tex: texture_2d<f32>;\n", ""),
        ("@group(1) @binding(63) var glitter_color_tex: texture_2d<f32>;\n", ""),
        ("@group(1) @binding(64) var glitter_shape_tex: texture_2d<f32>;\n", ""),
        ("@group(1) @binding(65) var dissolve_mask_tex: texture_2d<f32>;\n", ""),
        ("@group(1) @binding(66) var dissolve_noise_mask_tex: texture_2d<f32>;\n", ""),
        ("@group(1) @binding(67) var parallax_tex: texture_2d<f32>;\n", ""),
        ("@group(1) @binding(68) var main2nd_dissolve_mask_tex: texture_2d<f32>;\n", ""),
        ("@group(1) @binding(69) var main2nd_dissolve_noise_mask_tex: texture_2d<f32>;\n", ""),
        ("@group(1) @binding(70) var main3rd_dissolve_mask_tex: texture_2d<f32>;\n", ""),
        ("@group(1) @binding(71) var main3rd_dissolve_noise_mask_tex: texture_2d<f32>;\n", ""),
        ("@group(1) @binding(72) var normal2nd_scale_mask_tex: texture_2d<f32>;\n", ""),
        ("@group(1) @binding(73) var matcap_bump_tex: texture_2d<f32>;\n", ""),
        ("@group(1) @binding(74) var matcap2_bump_tex: texture_2d<f32>;\n", ""),
        ("@group(1) @binding(75) var main_color_adjust_mask_tex: texture_2d<f32>;\n", ""),
        ("let main_color_adjust_mask = textureSample(main_color_adjust_mask_tex, base_samp, uv).r;", "let main_color_adjust_mask = 1.0;"),
        ("let glitter_color_texel = textureSample(glitter_color_tex, base_samp, glitter_color_uv);", "let glitter_color_texel = vec4<f32>(1.0, 1.0, 1.0, 1.0);"),
        ("textureSample(matcap_bump_tex, normal_samp, map_uv)", "vec4<f32>(0.5, 0.5, 1.0, 1.0)"),
        ("textureSample(matcap2_bump_tex, normal_samp, map_uv)", "vec4<f32>(0.5, 0.5, 1.0, 1.0)"),
        ("let shape_tex = textureSampleGrad(glitter_shape_tex, base_samp, mask_uv, abs(dpdx(pos)) * mipfactor.x, abs(dpdy(pos)) * mipfactor.y);", "let shape_tex = vec4<f32>(1.0, 1.0, 1.0, 1.0);"),
        ("let dissolve_mask_val = textureSample(dissolve_mask_tex, base_samp, dissolve_mask_uv).r;", "let dissolve_mask_val = 1.0;"),
        ("let dissolve_noise = (textureSample(dissolve_noise_mask_tex, base_samp, dissolve_noise_uv).r - 0.5) * drawu.dissolve_ext.x * drawu.dissolve_ext.z;", "let dissolve_noise = 0.0;"),
        ("let layer = textureSample(main2nd_tex, base_samp, layer_uv.sample_uv) * drawu.main2nd_color;", "let layer = drawu.main2nd_color;"),
        ("textureSample(main2nd_blend_mask_tex, base_samp, uv).r", "1.0"),
        ("textureSample(main2nd_dissolve_mask_tex, base_samp, dissolve_mask_uv).r", "1.0"),
        ("textureSample(main2nd_dissolve_noise_mask_tex, base_samp, dissolve_noise_uv).r", "0.5"),
        ("let layer = textureSample(main3rd_tex, base_samp, layer_uv.sample_uv) * drawu.main3rd_color;", "let layer = drawu.main3rd_color;"),
        ("textureSample(main3rd_blend_mask_tex, base_samp, uv).r", "1.0"),
        ("textureSample(main3rd_dissolve_mask_tex, base_samp, dissolve_mask_uv).r", "1.0"),
        ("textureSample(main3rd_dissolve_noise_mask_tex, base_samp, dissolve_noise_uv).r", "0.5"),
        ("textureSampleLevel(parallax_tex, base_samp, parallax_map_uv, 0.0).r", "0.5"),
        ("textureSampleLevel(parallax_tex, base_samp, ray_pos.xy, 0.0).r", "0.5"),
        ("let fur_mask = textureSample(fur_mask_tex, base_samp, uv).r;", "let fur_mask = 1.0;"),
        ("let fur_noise_mask = textureSample(fur_noise_mask_tex, base_samp, noise_uv).r;", "let fur_noise_mask = 1.0;"),
        ("let fur_noise_mask = textureSample(fur_noise_mask_tex, base_samp, noise_uv).r;", "let fur_noise_mask = 1.0;"),
        ("\tlet fur_mask = textureSampleLevel(fur_mask_tex, base_samp, fur_uv, 0.0).r;\n\tlet noise_uv = fur_uv * max(drawu.fur_noise_params.xy, vec2<f32>(0.0001, 0.0001)) + drawu.fur_noise_params.zw;\n\tlet noise = textureSampleLevel(fur_noise_mask_tex, base_samp, noise_uv, 0.0).r;\n", "\tlet fur_mask = 1.0;\n\tlet noise = 1.0;\n"),
        ("\tlet length_mask = textureSampleLevel(fur_length_mask_tex, base_samp, fur_uv, 0.0).r;\n\tlet vector_tex = textureSampleLevel(fur_vector_tex, base_samp, fur_uv, 0.0).xyz * 2.0 - vec3<f32>(1.0);\n\tlet fur_vector_ts = drawu.fur_vector_params.xyz + vector_tex + vec3<f32>(0.0, 0.0, 0.001);\n", "\tlet length_mask = 1.0;\n\tlet fur_vector_ts = drawu.fur_vector_params.xyz + vec3<f32>(0.0, 0.0, 0.001);\n"),
        ("let length_mask = textureSampleLevel(fur_length_mask_tex, base_samp, fur_uv, 0.0).r;", "let length_mask = 1.0;"),
        ("let vector_tex = textureSampleLevel(fur_vector_tex, base_samp, fur_uv, 0.0).xyz * 2.0 - vec3<f32>(1.0);", "let vector_tex = vec3<f32>(0.0);"),
        ("let vector_tex = unpack_fur_vector_map(textureSampleLevel(fur_vector_tex, base_samp, fur_uv, 0.0), drawu.fur_ext_params.x);", "let vector_tex = vec3<f32>(0.0, 0.0, 1.0);"),
        ("fn lil_anisotropy_basis(n: vec3<f32>, tangent_in: vec4<f32>, uv: vec2<f32>, v: vec3<f32>) -> AnisotropyBasis {\n\tlet enabled = clamp(drawu.anisotropy_params.x, 0.0, 1.0);\n\tif (enabled <= 0.000001) {\n\t\treturn AnisotropyBasis(n, n, 0.0, 0.0, 0.0);\n\t}\n\tlet base_tangent = normalize(tangent_in.xyz - n * dot(n, tangent_in.xyz));\n\tlet base_bitangent = normalize(cross(n, base_tangent)) * tangent_in.w;\n\tlet tangent_uv = uv * drawu.anisotropy_tangent_uv_offset_scale.zw + drawu.anisotropy_tangent_uv_offset_scale.xy;\n\tvar tangent_sample = textureSample(anisotropy_tangent_tex, normal_samp, tangent_uv).xyz * 2.0 - vec3<f32>(1.0, 1.0, 1.0);\n\tif (dot(tangent_sample, tangent_sample) < 0.000001) {\n\t\ttangent_sample = vec3<f32>(1.0, 0.0, 0.0);\n\t}\n\tvar aniso_t = normalize(base_tangent * tangent_sample.x + base_bitangent * tangent_sample.y + n * tangent_sample.z);\n\taniso_t = normalize(aniso_t - n * dot(n, aniso_t));\n\tlet aniso_b = normalize(cross(n, aniso_t)) * tangent_in.w;\n\tlet scale_uv = uv * drawu.anisotropy_scale_mask_uv_offset_scale.zw + drawu.anisotropy_scale_mask_uv_offset_scale.xy;\n\tlet scale_mask = textureSample(anisotropy_scale_mask_tex, base_samp, scale_uv).r;\n\tlet anisotropy = drawu.anisotropy_params.y * scale_mask;\n\tlet shift_axis = select(aniso_b, aniso_t, anisotropy >= 0.0);\n\tlet aniso_n = normalize(n + shift_axis * clamp(abs(anisotropy), 0.0, 1.0) * max(0.15, 1.0 - abs(dot(n, v))));\n\tlet noise_uv = uv * drawu.anisotropy_shift_noise_uv_offset_scale.zw + drawu.anisotropy_shift_noise_uv_offset_scale.xy;\n\tlet shift_noise = textureSample(anisotropy_shift_noise_tex, base_samp, noise_uv).r - 0.5;\n\treturn AnisotropyBasis(aniso_n, aniso_t, clamp(anisotropy, -1.0, 1.0), shift_noise, enabled);\n}\n", "fn lil_anisotropy_basis(n: vec3<f32>, tangent_in: vec4<f32>, uv: vec2<f32>, v: vec3<f32>) -> AnisotropyBasis {\n\treturn AnisotropyBasis(n, n, n, 0.0, 0.0, 0.0);\n}\n"),
        ("var tangent_sample = textureSample(anisotropy_tangent_tex, normal_samp, tangent_uv).xyz * 2.0 - vec3<f32>(1.0, 1.0, 1.0);", "var tangent_sample = vec3<f32>(1.0, 0.0, 0.0);"),
        ("let scale_mask = textureSample(anisotropy_scale_mask_tex, base_samp, scale_uv).r;", "let scale_mask = 1.0;"),
        ("let shift_noise = textureSample(anisotropy_shift_noise_tex, base_samp, noise_uv).r - 0.5;", "let shift_noise = 0.0;"),
        ("\t\t\tlet emission_mask_uv = lil_calc_uv_scroll_rotate(uv, drawu.emission_blend_mask_uv_offset_scale, drawu.emission_blend_mask_uv_anim_params);\n\t\t\tlet emission_mask = textureSample(emission_blend_mask_tex, emissive_samp, emission_mask_uv).r;\n", "\t\t\tlet emission_mask = 1.0;\n"),
        ("\t\t\tlet rim_shade_mask = textureSample(rim_shade_mask_tex, rim_samp, uv).r;\n", "\t\t\tlet rim_shade_mask = 1.0;\n"),
        ("\tlet rim_shade_mask = textureSample(rim_shade_mask_tex, rim_samp, uv).r;\n", "\tlet rim_shade_mask = 1.0;\n"),
        ("\t\t\tlet backlight_color_uv = uv * drawu.backlight_color_uv_offset_scale.zw + drawu.backlight_color_uv_offset_scale.xy;\n\t\t\tlet backlight_color_sample = textureSample(backlight_color_tex, base_samp, backlight_color_uv);\n\t\t\tlet authored_backlight_color = drawu.backlight_color * backlight_color_sample;\n", "\t\t\tlet authored_backlight_color = drawu.backlight_color;\n"),
        ("\t\tlet backlight_color_uv = uv * drawu.backlight_color_uv_offset_scale.zw + drawu.backlight_color_uv_offset_scale.xy;\n\t\tlet backlight_color_sample = textureSample(backlight_color_tex, base_samp, backlight_color_uv);\n\t\tlet authored_backlight_color = drawu.backlight_color * backlight_color_sample;\n", "\t\tlet authored_backlight_color = drawu.backlight_color;\n"),
        ("\t\tlet shadow2_color_texel = textureSample(shadow2_color_tex, shade_samp, uv);\n\t\tlet shadow2_color = mix(base, shadow2_color_texel.rgb, clamp(shadow2_color_texel.a, 0.0, 1.0)) * drawu.shadow2_color.rgb;\n", "\t\tlet shadow2_color = base * drawu.shadow2_color.rgb;\n"),
        ("\t\tlet shadow3_color_texel = textureSample(shadow3_color_tex, shade_samp, uv);\n\t\tlet shadow3_color = mix(base, shadow3_color_texel.rgb, clamp(shadow3_color_texel.a, 0.0, 1.0)) * drawu.shadow3_color.rgb;\n", "\t\tlet shadow3_color = base * drawu.shadow3_color.rgb;\n"),
        ("\t\t\tif (drawu.emission2nd_params.x > 0.5) {\n\t\t\t\tlet emission2nd_uv = uv * drawu.emission2nd_uv_offset_scale.zw + drawu.emission2nd_uv_offset_scale.xy;\n\t\t\t\tlet emission2nd_mask_uv = uv * drawu.emission2nd_blend_mask_uv_offset_scale.zw + drawu.emission2nd_blend_mask_uv_offset_scale.xy;\n\t\t\t\tvar emission2nd_sample = textureSample(emission2nd_tex, emissive_samp, emission2nd_uv) * drawu.emission2nd_color;\n\t\t\t\temission2nd_sample = emission2nd_sample * textureSample(emission2nd_blend_mask_tex, emissive_samp, emission2nd_mask_uv);\n\t\t\t\tif (drawu.emission2nd_grad_params.x > 0.5) {\n\t\t\t\t\tlet grad_u = fract(drawu.emission2nd_grad_params.y * frame.time_params.x);\n\t\t\t\t\temission2nd_sample.rgb = emission2nd_sample.rgb * textureSample(emission2nd_gradation_tex, emissive_samp, vec2<f32>(grad_u, 0.5)).rgb;\n\t\t\t\t}\n\t\t\t\tlet emission2nd_rgb = mix(emission2nd_sample.rgb, emission2nd_sample.rgb * base, clamp(drawu.emission2nd_params.y, 0.0, 1.0));\n\t\t\t\tlet emission2nd_blend = clamp(drawu.emission2nd_params.x * drawu.emission2nd_params.z * emission2nd_sample.a, 0.0, 1.0);\n\t\t\t\tlit = lil_blend_color(lit, emission2nd_rgb, emission2nd_blend, drawu.emission2nd_params.w);\n\t\t\t}\n", ""),
        ("textureSample(emission2nd_tex, emissive_samp, emission2nd_uv)", "vec4<f32>(1.0, 1.0, 1.0, 1.0)"),
        ("textureSample(emission2nd_blend_mask_tex, emissive_samp, emission2nd_mask_uv)", "vec4<f32>(1.0, 1.0, 1.0, 1.0)"),
        ("textureSample(emission2nd_gradation_tex, emissive_samp, vec2<f32>(grad_u, 0.5)).rgb", "vec3<f32>(1.0, 1.0, 1.0)"),
        ("\t\t\tif (drawu.emission2nd_params.x > 0.5) {\n\t\t\t\tlet emission2nd_uv = lil_calc_uv_scroll_rotate(uv, drawu.emission2nd_uv_offset_scale, drawu.emission2nd_uv_anim_params);\n\t\t\t\tlet emission2nd_mask_uv = lil_calc_uv_scroll_rotate(uv, drawu.emission2nd_blend_mask_uv_offset_scale, drawu.emission2nd_blend_mask_uv_anim_params);\n\t\t\t\tvar emission2nd_sample = textureSample(emission2nd_tex, emissive_samp, emission2nd_uv) * drawu.emission2nd_color;\n\t\t\t\temission2nd_sample = emission2nd_sample * textureSample(emission2nd_blend_mask_tex, emissive_samp, emission2nd_mask_uv);\n\t\t\t\tif (drawu.emission2nd_grad_params.x > 0.5) {\n\t\t\t\t\tlet grad_u = fract(drawu.emission2nd_grad_params.y * frame.time_params.x);\n\t\t\t\t\temission2nd_sample.rgb = emission2nd_sample.rgb * textureSample(emission2nd_gradation_tex, emissive_samp, vec2<f32>(grad_u, 0.5)).rgb;\n\t\t\t\t}\n\t\t\t\temission2nd_sample.rgb = mix(emission2nd_sample.rgb, emission2nd_sample.rgb * inv_lighting, clamp(drawu.emission2nd_grad_params.z, 0.0, 1.0));\n\t\t\t\tlet emission2nd_rgb = mix(emission2nd_sample.rgb, emission2nd_sample.rgb * base, clamp(drawu.emission2nd_params.y, 0.0, 1.0));\n\t\t\t\tlet emission2nd_blink = lil_calc_blink(drawu.emission2nd_blink_params);\n\t\t\t\tlet emission2nd_blend = clamp(drawu.emission2nd_params.x * drawu.emission2nd_params.z * emission2nd_blink * emission2nd_sample.a, 0.0, 1.0);\n\t\t\t\tlit = lil_blend_color(lit, emission2nd_rgb, emission2nd_blend, drawu.emission2nd_params.w);\n\t\t\t}\n", ""),
        ("\t\t\tif (drawu.emission2nd_params.x > 0.5) {\n\t\t\t\tlet emission2nd_uv_base = lil_select_emission_uv(drawu.emission2nd_uv_anim_params.w, uv, i.uv1, i.uv2, i.uv3, uv_rim);\n\t\t\t\tlet emission2nd_uv = lil_calc_uv_scroll_rotate(emission2nd_uv_base, drawu.emission2nd_uv_offset_scale, drawu.emission2nd_uv_anim_params) + parallax_offset * drawu.emission2nd_ext_params.x;\n\t\t\t\tlet emission2nd_mask_uv = lil_calc_uv_scroll_rotate(uv, drawu.emission2nd_blend_mask_uv_offset_scale, drawu.emission2nd_blend_mask_uv_anim_params);\n\t\t\t\tlet emission2nd_sample = textureSample(emission2nd_tex, emissive_samp, emission2nd_uv) * drawu.emission2nd_color * textureSample(emission2nd_blend_mask_tex, emissive_samp, emission2nd_mask_uv);\n\t\t\t\tvar emission2nd_rgb_work = emission2nd_sample.rgb;\n\t\t\t\tif (drawu.emission2nd_grad_params.x > 0.5) {\n\t\t\t\t\tlet grad_u = fract(drawu.emission2nd_grad_params.y * frame.time_params.x);\n\t\t\t\t\temission2nd_rgb_work = emission2nd_rgb_work * textureSample(emission2nd_gradation_tex, emissive_samp, vec2<f32>(grad_u, 0.5)).rgb;\n\t\t\t\t}\n\t\t\t\temission2nd_rgb_work = mix(emission2nd_rgb_work, emission2nd_rgb_work * inv_lighting, clamp(drawu.emission2nd_grad_params.z, 0.0, 1.0));\n\t\t\t\tlet emission2nd_rgb = mix(emission2nd_rgb_work, emission2nd_rgb_work * base, clamp(drawu.emission2nd_params.y, 0.0, 1.0));\n\t\t\t\tlet emission2nd_blink = lil_calc_blink(drawu.emission2nd_blink_params);\n\t\t\t\tlet emission2nd_blend = clamp(drawu.emission2nd_params.x * drawu.emission2nd_params.z * emission2nd_blink * emission2nd_sample.a, 0.0, 1.0);\n\t\t\t\tlit = lil_blend_color(lit, emission2nd_rgb, emission2nd_blend, drawu.emission2nd_params.w);\n\t\t\t}\n", ""),
        ("\t\t\tif (drawu.emission2nd_params.x > 0.5) {\n\t\t\t\tlet emission2nd_uv_base = lil_select_emission_uv(drawu.emission2nd_uv_anim_params.w, uv, i.uv1, i.uv2, i.uv3, uv_rim);\n\t\t\t\tlet emission2nd_uv = lil_calc_uv_scroll_rotate(emission2nd_uv_base, drawu.emission2nd_uv_offset_scale, drawu.emission2nd_uv_anim_params) + parallax_offset * drawu.emission2nd_ext_params.x;\n\t\t\t\tlet emission2nd_mask_uv = lil_calc_uv_scroll_rotate(uv, drawu.emission2nd_blend_mask_uv_offset_scale, drawu.emission2nd_blend_mask_uv_anim_params);\n\t\t\t\tlet emission2nd_sample = textureSample(emission2nd_tex, emissive_samp, emission2nd_uv) * drawu.emission2nd_color * textureSample(emission2nd_blend_mask_tex, emissive_samp, emission2nd_mask_uv);\n\t\t\t\tvar emission2nd_rgb_work = emission2nd_sample.rgb;\n\t\t\t\tif (drawu.emission2nd_grad_params.x > 0.5) {\n\t\t\t\t\tlet grad_u = fract(drawu.emission2nd_grad_params.y * frame.time_params.x);\n\t\t\t\t\temission2nd_rgb_work = emission2nd_rgb_work * textureSample(emission2nd_gradation_tex, emissive_samp, vec2<f32>(grad_u, 0.5)).rgb;\n\t\t\t\t}\n\t\t\t\temission2nd_rgb_work = mix(emission2nd_rgb_work, emission2nd_rgb_work * inv_lighting, clamp(drawu.emission2nd_grad_params.z, 0.0, 1.0));\n\t\t\t\tlet emission2nd_rgb = mix(emission2nd_rgb_work, emission2nd_rgb_work * base, clamp(drawu.emission2nd_params.y, 0.0, 1.0));\n\t\t\t\tlet emission2nd_blink = lil_calc_blink(drawu.emission2nd_blink_params);\n\t\t\t\tlet emission2nd_blend = clamp(drawu.emission2nd_params.x * drawu.emission2nd_params.z * emission2nd_blink * emission2nd_sample.a * emission_transparency, 0.0, 1.0);\n\t\t\t\tlit = lil_blend_color(lit, emission2nd_rgb, emission2nd_blend, drawu.emission2nd_params.w);\n\t\t\t}\n", ""),
        ("fn apply_main_gradation(color: vec3<f32>) -> vec3<f32> {\n\tlet strength = clamp(drawu.main_gradation_params.x * drawu.main_gradation_params.y, 0.0, 1.0);\n\tif (strength <= 0.000001) {\n\t\treturn color;\n\t}\n\tlet c = linear_to_srgb(clamp(color, vec3<f32>(0.0), vec3<f32>(1.0)));\n\tlet mapped_srgb = vec3<f32>(\n\t\ttextureSample(main_gradation_tex, base_samp, vec2<f32>(c.r, 0.5)).r,\n\t\ttextureSample(main_gradation_tex, base_samp, vec2<f32>(c.g, 0.5)).g,\n\t\ttextureSample(main_gradation_tex, base_samp, vec2<f32>(c.b, 0.5)).b\n\t);\n\tlet mapped = srgb_to_linear(mapped_srgb);\n\treturn mix(color, mapped, strength);\n}\n", "fn apply_main_gradation(color: vec3<f32>) -> vec3<f32> {\n\treturn color;\n}\n"),
        ("\t\t\tif (drawu.emission_grad_params.x > 0.5) {\n\t\t\t\tlet grad_u = fract(drawu.emission_grad_params.y * frame.time_params.x);\n\t\t\t\temission_color = emission_color * textureSample(emission_gradation_tex, emissive_samp, vec2<f32>(grad_u, 0.5)).rgb;\n\t\t\t}\n", ""),
        ("\t\t\tif (drawu.emission_grad_params.x > 0.5) {\n\t\t\t\tlet grad_u = fract(drawu.emission_grad_params.y * frame.time_params.x + audio_link_value * drawu.audio_link_params.w);\n\t\t\t\temission_color = emission_color * textureSample(emission_gradation_tex, emissive_samp, vec2<f32>(grad_u, 0.5)).rgb;\n\t\t\t}\n", ""),
        ("\t\t\tif (drawu.emission2nd_params.x > 0.5) {\n\t\t\t\tlet emission2nd_uv_base = lil_select_emission_uv(drawu.emission2nd_uv_anim_params.w, uv, i.uv1, i.uv2, i.uv3, uv_rim);\n\t\t\t\tlet emission2nd_uv = lil_calc_uv_scroll_rotate(emission2nd_uv_base, drawu.emission2nd_uv_offset_scale, drawu.emission2nd_uv_anim_params) + parallax_offset * drawu.emission2nd_ext_params.x;\n\t\t\t\tlet emission2nd_mask_uv = lil_calc_uv_scroll_rotate(uv, drawu.emission2nd_blend_mask_uv_offset_scale, drawu.emission2nd_blend_mask_uv_anim_params);\n\t\t\t\tlet emission2nd_sample = textureSample(emission2nd_tex, emissive_samp, emission2nd_uv) * drawu.emission2nd_color * textureSample(emission2nd_blend_mask_tex, emissive_samp, emission2nd_mask_uv);\n\t\t\t\tvar emission2nd_rgb_work = emission2nd_sample.rgb;\n\t\t\t\tif (drawu.emission2nd_grad_params.x > 0.5) {\n\t\t\t\t\tlet grad_u = fract(drawu.emission2nd_grad_params.y * frame.time_params.x + audio_link_value * drawu.audio_link_ext.y);\n\t\t\t\t\temission2nd_rgb_work = emission2nd_rgb_work * textureSample(emission2nd_gradation_tex, emissive_samp, vec2<f32>(grad_u, 0.5)).rgb;\n\t\t\t\t}\n\t\t\t\temission2nd_rgb_work = mix(emission2nd_rgb_work, emission2nd_rgb_work * inv_lighting, clamp(drawu.emission2nd_grad_params.z, 0.0, 1.0));\n\t\t\t\tlet emission2nd_rgb = mix(emission2nd_rgb_work, emission2nd_rgb_work * base, clamp(drawu.emission2nd_params.y, 0.0, 1.0));\n\t\t\t\tlet emission2nd_blink = lil_calc_blink(drawu.emission2nd_blink_params);\n\t\t\t\tlet emission2nd_audio = mix(1.0, audio_link_value, clamp(drawu.audio_link_ext.x, 0.0, 1.0));\n\t\t\t\tlet emission2nd_blend = clamp(drawu.emission2nd_params.x * drawu.emission2nd_params.z * emission2nd_blink * emission2nd_sample.a * emission2nd_audio * emission_transparency, 0.0, 1.0);\n\t\t\t\tlit = lil_blend_color(lit, emission2nd_rgb, emission2nd_blend, drawu.emission2nd_params.w);\n\t\t\t}\n", ""),
        ("\tif (UNTOON_FEATURE_NORMAL_SECOND > 0.5 && drawu.normal2nd_params.x > 0.5) {\n\t\tlet normal2nd_base_uv = lil_select_uv(drawu.normal2nd_params.z, uv, uv1, uv2, uv3);\n\t\tlet normal2nd_uv = normal2nd_base_uv * drawu.normal2nd_uv_offset_scale.zw + drawu.normal2nd_uv_offset_scale.xy;\n\t\tlet normal2nd_scale_mask_uv = uv * drawu.normal2nd_scale_mask_uv_offset_scale.zw + drawu.normal2nd_scale_mask_uv_offset_scale.xy;\n\t\tlet scale_mask = textureSample(normal2nd_scale_mask_tex, base_samp, normal2nd_scale_mask_uv).r;\n\t\tlet tn2 = lil_unpack_normal_scale(textureSample(normal2nd_tex, normal_samp, normal2nd_uv), drawu.normal2nd_params.y * scale_mask);\n\t\ttn = vec3<f32>(tn.xy + tn2.xy, tn.z * tn2.z);\n\t}\n", ""),
        ("let shadow_border_mask = lil_shadow_border_ao_mask(textureSample(shadow_border_mask_tex, shadow_border_mask_samp, uv).rgb);\n\t\tlet shadow_blur_mask = textureSample(shadow_blur_mask_tex, shadow_blur_mask_samp, uv).rgb;", "let shadow_border_mask = lil_shadow_border_ao_mask(vec3<f32>(1.0, 1.0, 1.0));\n\t\tlet shadow_blur_mask = vec3<f32>(1.0, 1.0, 1.0);"),
        ("let matcap2_tex_color = textureSampleLevel(matcap2_tex, matcap_samp, matcap2_uv, max(drawu.matcap2_ext_params.z, 0.0));", "let matcap2_tex_color = vec4<f32>(1.0, 1.0, 1.0, 1.0);"),
        ("let matcap2_blend_mask = textureSample(matcap2_blend_mask_tex, matcap_blend_mask_samp, matcap2_blend_mask_uv).rgb;", "let matcap2_blend_mask = vec3<f32>(1.0, 1.0, 1.0);"),
        ("\t\tif (drawu.matcap2_params.x > 0.0) {\n\t\t\tlet matcap2_base_n = normalize(mix(geometry_n, n, clamp(drawu.matcap2_ext_params.x, 0.0, 1.0)));\n\t\t\tlet matcap2_n = normalize(mix(matcap2_base_n, anisotropy_n, clamp(drawu.anisotropy_ext_params.x * anisotropy_basis.enabled, 0.0, 1.0)));\n\t\t\tlet matcap2_uv = toon_matcap_uv(i.uv1, matcap2_n, v, drawu.matcap2_tex_uv_offset_scale, drawu.matcap_uv_ext_params.zw, drawu.matcap_uv_params.z, drawu.matcap_uv_params.w);\n\t\t\tlet matcap2_tex_color = textureSampleLevel(matcap2_tex, matcap_samp, matcap2_uv, max(drawu.matcap2_ext_params.z, 0.0));\n\t\t\tlet matcap2_lighting = mix(vec3<f32>(1.0, 1.0, 1.0), frame.light_color.rgb * frame.light_color.w, clamp(drawu.matcap2_params.z, 0.0, 1.0));\n\t\t\tlet matcap2_raw = drawu.matcap2_factor.rgb * matcap2_tex_color.rgb * matcap2_lighting;\n\t\t\tlet matcap2_albedo = mix(matcap2_raw, matcap2_raw * base, clamp(drawu.matcap2_params.y, 0.0, 1.0));\n\t\t\tlet matcap2_blend_mask_uv = uv * drawu.matcap2_blend_mask_uv_offset_scale.zw + drawu.matcap2_blend_mask_uv_offset_scale.xy;\n\t\t\tlet matcap2_blend_mask = textureSample(matcap2_blend_mask_tex, matcap_blend_mask_samp, matcap2_blend_mask_uv).rgb;\n\t\t\tlet matcap2_shadow = mix(1.0, lil_effect_shadowmix, clamp(drawu.matcap2_ext_params.y, 0.0, 1.0));\n\t\t\tlet matcap2_backface = lil_backface_visibility(drawu.matcap2_ext_params.w, front_facing);\n\t\t\tlet matcap2_transparency = mix(1.0, a, clamp(drawu.transparency_params.y, 0.0, 1.0));\n\t\t\tlet matcap2_blend = clamp(drawu.matcap2_params.x * drawu.matcap2_factor.a * matcap2_tex_color.a * matcap2_blend_mask * matcap2_shadow * matcap2_backface * matcap2_transparency, vec3<f32>(0.0), vec3<f32>(1.0));\n\t\t\tlit = lil_blend_color3(lit, matcap2_albedo, matcap2_blend, drawu.matcap2_params.w);\n\t\t}\n", "")
    ]
}

/// The mesh shader for adapters without the extended texture bindings: `mesh_shader` with the
/// baseline-fallback edits applied.
pub fn baseline_fallback_mesh_shader_source(mesh_shader: &str) -> (out: String)
    ensures
        out@ == apply_edits(mesh_shader@, edit_views(baseline_fallback_edits())),
{
    let table = baseline_fallback_edit_table();
    let edited = apply_edit_table(chars_of(mesh_shader), &table);
    string_from_chars(&edited)
}

pub open spec fn shader_source_for_tier_spec(mesh_shader: Seq<char>, tier: MeshShaderVariantTier) -> Seq<char> {
    match tier {
        MeshShaderVariantTier::HighCapability => mesh_shader,
        MeshShaderVariantTier::BaselineFallback => apply_edits(mesh_shader, edit_views(baseline_fallback_edits())),
    }
}

/// The mesh shader for a variant tier: the full shader, or its baseline fallback.
pub fn mesh_shader_source_for_tier(mesh_shader: &str, tier: MeshShaderVariantTier) -> (out: String)
    ensures
        out@ == shader_source_for_tier_spec(mesh_shader@, tier),
{
    match tier {
        MeshShaderVariantTier::HighCapability => string_from_chars(&chars_of(mesh_shader)),
        MeshShaderVariantTier::BaselineFallback => baseline_fallback_mesh_shader_source(mesh_shader),
    }
}

/// `override NAME: f32 = 1.0;`
pub open spec fn override_line(name: Seq<char>) -> Seq<char> {
    "override "@ + name + ": f32 = 1.0;"@
}

/// `const NAME: f32 = 1.0;` or `const NAME: f32 = 0.0;`
pub open spec fn const_line(name: Seq<char>, enabled: bool) -> Seq<char> {
    "const "@ + name + ": f32 = "@ + (if enabled { "1.0"@ } else { "0.0"@ }) + ";"@
}

/// The edits that turn each feature's pipeline override into a constant of its value.
pub open spec fn feature_edits(values: Seq<(&'static str, bool)>) -> Seq<(Seq<char>, Seq<char>)> {
    values.map_values(|v: (&'static str, bool)| (override_line(v.0@), const_line(v.0@, v.1)))
}

fn concat_chars(parts: &[&str]) -> (out: Vec<char>)
    ensures
        out@ == parts@.fold_left(Seq::<char>::empty(), |acc: Seq<char>, p: &str| acc + p@),
{
    let mut out: Vec<char> = Vec::new();
    let mut i: usize = 0;
    while i < parts.len()
        invariant
            i <= parts@.len(),
            out@ == parts@.take(i as int).fold_left(Seq::<char>::empty(), |acc: Seq<char>, p: &str| acc + p@),
        decreases parts.len() - i,
    {
        let more = chars_of(parts[i]);
        push_all(&mut out, &more);
        assert(parts@.take(i + 1).drop_last() =~= parts@.take(i as int));
        i = i + 1;
    }
    proof {
        assert(parts@.take(i as int) =~= parts@);
    }
    out
}

/// The mesh shader for a tier with each feature's override fixed to a constant, so that
/// disabled features compile away.
pub fn mesh_shader_source_for_features(
    mesh_shader: &str,
    tier: MeshShaderVariantTier,
    features: UntoonShaderFeatures,
) -> (out: String)
    ensures
        out@ == apply_edits(shader_source_for_tier_spec(mesh_shader@, tier), feature_edits(feature_value_seq(features))),
{
    let base = mesh_shader_source_for_tier(mesh_shader, tier);
    let mut cur = chars_of(base.as_str());
    let values = features.shader_feature_values();
    let ghost edits = feature_edits(feature_value_seq(features));
    let ghost start = cur@;
    let mut i: usize = 0;
    proof {
        assert(edits.skip(0) =~= edits);
    }
    while i < 26
        invariant
            i <= 26,
            values@ == feature_value_seq(features),
            edits == feature_edits(feature_value_seq(features)),
            edits.len() == 26,
            apply_edits(cur@, edits.skip(i as int)) == apply_edits(start, edits),
        decreases 26 - i,
    {
        let (name, enabled) = values[i];
        let value = if enabled { "1.0" } else { "0.0" };
        let from = concat_chars(&["override ", name, ": f32 = 1.0;"]);
        let to = concat_chars(&["const ", name, ": f32 = ", value, ";"]);
        proof {
            reveal_with_fuel(Seq::fold_left, 6);
            assert(from@ =~= override_line(name@));
            assert(to@ =~= const_line(name@, enabled));
            assert(edits.skip(i as int).drop_first() =~= edits.skip(i + 1));
            assert(edits.skip(i as int)[0] == (from@, to@));
        }
        cur = replace_all_chars(&cur, &from, &to);
        i = i + 1;
    }
    proof {
        assert(edits.skip(26).len() == 0);
    }
    string_from_chars(&cur)
}

} // verus!
