use gfx::state::{Comparison, Depth};
use gfx::BlendPreset;
use gfx_pipeline::flat;
use gfx_pipeline::forward;
use gfx_pipeline::state::DrawState;
use gfx_pipeline::view::Info;
use gfx_pipeline::{zero_matrix3, zero_matrix4, zero_vector, Material, Transparency};

const LESS_EQUAL: Option<Depth> = Some(Depth { fun: Comparison::LessEqual, write: true });

fn bits(x: f32) -> u32 {
    x.to_bits()
}

fn forward_technique() -> forward::Technique<u32, u32, u32> {
    forward::Technique::new(10, 11, 12, 13)
}

fn view() -> Info<u32> {
    let mut mx_vertex = [[0u32; 4]; 4];
    let mut mx_world = [[0u32; 4]; 4];
    let mut mx_normal = [[0u32; 3]; 3];
    for i in 0..4 {
        for j in 0..4 {
            mx_vertex[i][j] = bits((4 * i + j) as f32 + 0.5);
            mx_world[i][j] = bits(-((4 * i + j) as f32));
        }
    }
    for i in 0..3 {
        for j in 0..3 {
            mx_normal[i][j] = bits((3 * i + j) as f32 * 0.25);
        }
    }
    Info::new(mx_vertex, mx_world, mx_normal)
}

#[test]
fn zeros_are_zero() {
    assert_eq!(zero_vector(), [0.0f32.to_bits(); 4]);
    assert_eq!(zero_matrix4(), [[0.0f32.to_bits(); 4]; 4]);
    assert_eq!(zero_matrix3(), [[0.0f32.to_bits(); 3]; 3]);
}

#[test]
fn a_new_technique_has_a_dim_ambient_and_no_lights() {
    let t = forward_technique();
    assert_eq!(t.program, 10);
    assert_eq!(t.program_textured, 11);
    assert_eq!(t.light_buf, 12);
    assert_eq!(t.default_texture, 13);
    assert_eq!(t.ambient_color, [bits(0.1), bits(0.1), bits(0.1), bits(0.0)]);
    assert_eq!(forward::TENTH, bits(0.1));
    assert!(t.lights.is_empty());
}

#[test]
fn forward_compile_picks_the_program() {
    let t = forward_technique();
    let plain = t.compile(forward::Kernel { textured: false, transparency: Transparency::Opaque });
    let textured = t.compile(forward::Kernel { textured: true, transparency: Transparency::Opaque });
    assert_eq!(plain.program, 10);
    assert_eq!(textured.program, 11);
}

#[test]
fn forward_compile_fills_the_block_with_defaults() {
    let t = forward_technique();
    for textured in [false, true] {
        for (transparency, alpha) in [
            (Transparency::Opaque, 0u8),
            (Transparency::Cutout(0), 0),
            (Transparency::Cutout(1), 1),
            (Transparency::Cutout(255), 255),
            (Transparency::Blend(BlendPreset::Alpha), 0),
        ] {
            let c = t.compile(forward::Kernel { textured, transparency });
            assert_eq!(
                c.params,
                forward::Params {
                    mvp: [[0; 4]; 4],
                    world: [[0; 4]; 4],
                    normal: [[0; 3]; 3],
                    color: [0; 4],
                    ambient: [0; 4],
                    texture: 13,
                    alpha_test: alpha,
                    light_mask: [0; 4],
                    lights: 12,
                }
            );
        }
    }
}

#[test]
fn forward_compile_picks_the_state() {
    let t = forward_technique();
    let state = |transparency| t.compile(forward::Kernel { textured: false, transparency }).state;
    assert_eq!(state(Transparency::Opaque), DrawState { depth: LESS_EQUAL, blend: None });
    assert_eq!(state(Transparency::Cutout(3)), DrawState { depth: LESS_EQUAL, blend: None });
    for preset in [BlendPreset::Add, BlendPreset::Alpha, BlendPreset::Multiply] {
        assert_eq!(
            state(Transparency::Blend(preset)),
            DrawState { depth: LESS_EQUAL, blend: Some(preset) }
        );
    }
}

#[test]
fn draw_states() {
    assert_eq!(DrawState::opaque(), DrawState { depth: LESS_EQUAL, blend: None });
    assert_eq!(
        DrawState::opaque().blended(BlendPreset::Multiply),
        DrawState { depth: LESS_EQUAL, blend: Some(BlendPreset::Multiply) }
    );
    assert_eq!(
        DrawState { depth: None, blend: None }.blended(BlendPreset::Add),
        DrawState { depth: None, blend: Some(BlendPreset::Add) }
    );
}

#[test]
fn flat_compile() {
    let t: flat::Technique<u32, u32> = flat::Technique::new(20, 21, 23);
    let c = t.compile(flat::Kernel::Flat);
    assert_eq!(c.program, 20);
    assert_eq!(c.params, flat::Params { mvp: [[0; 4]; 4], color: [0; 4], texture: 23, alpha_test: 0 });
    assert_eq!(c.state, DrawState { depth: LESS_EQUAL, blend: None });
    let c = t.compile(flat::Kernel::Textured);
    assert_eq!(c.program, 21);
    assert_eq!(c.params.alpha_test, 0);
    assert_eq!(c.state, DrawState { depth: LESS_EQUAL, blend: None });
    let c = t.compile(flat::Kernel::AlphaCut(99));
    assert_eq!(c.program, 21);
    assert_eq!(c.params, flat::Params { mvp: [[0; 4]; 4], color: [0; 4], texture: 23, alpha_test: 99 });
    assert_eq!(c.state, DrawState { depth: LESS_EQUAL, blend: None });
}

#[test]
fn compiling_twice_gives_the_same() {
    let t = forward_technique();
    let k = forward::Kernel { textured: true, transparency: Transparency::Cutout(17) };
    assert_eq!(t.compile(k), t.compile(k));
}

#[test]
fn the_cache_compiles_each_kernel_once() {
    let mut p = forward::Pipeline::<u32, u32, u32, u32>::new(10, 11, 12, 13);
    let a = forward::Kernel { textured: true, transparency: Transparency::Cutout(17) };
    let b = forward::Kernel { textured: false, transparency: Transparency::Cutout(17) };
    assert_eq!(p.compiled_kernels(), 0);
    let first = p.get_or_compile(a);
    assert_eq!(p.compiled_kernels(), 1);
    for _ in 0..5 {
        assert_eq!(p.get_or_compile(a), first);
        assert_eq!(p.compiled_kernels(), 1);
    }
    assert_eq!(first, p.technique().compile(a));
    let other = p.get_or_compile(b);
    assert_eq!(p.compiled_kernels(), 2);
    assert_eq!(other, p.technique().compile(b));
    assert_eq!(p.get_or_compile(a), first);
    assert_eq!(p.compiled_kernels(), 2);
}

#[test]
fn the_flat_cache_compiles_each_kernel_once() {
    let mut p = flat::Pipeline::<u32, u32, u32>::new(20, 21, 23);
    let first = p.get_or_compile(flat::Kernel::AlphaCut(1));
    assert_eq!(p.get_or_compile(flat::Kernel::AlphaCut(1)), first);
    assert_eq!(p.compiled_kernels(), 1);
    let second = p.get_or_compile(flat::Kernel::AlphaCut(2));
    assert_eq!(second.params.alpha_test, 2);
    assert_eq!(p.get_or_compile(flat::Kernel::Flat).program, 20);
    assert_eq!(p.get_or_compile(flat::Kernel::Textured).program, 21);
    assert_eq!(p.get_or_compile(flat::Kernel::AlphaCut(1)), first);
    assert_eq!(p.compiled_kernels(), 4);
}

#[test]
fn kernels_have_codes_of_their_own() {
    let mut seen = std::collections::HashSet::new();
    let mut transparencies = vec![Transparency::Opaque];
    for v in 0..=255u8 {
        transparencies.push(Transparency::Cutout(v));
    }
    for preset in [BlendPreset::Add, BlendPreset::Multiply, BlendPreset::Alpha, BlendPreset::Invert] {
        transparencies.push(Transparency::Blend(preset));
    }
    for transparency in transparencies.iter() {
        for textured in [false, true] {
            assert!(seen.insert(forward::Kernel { textured, transparency: *transparency }.code()));
        }
    }
    assert_eq!(seen.len(), 2 * 261);
    let mut seen = std::collections::HashSet::new();
    assert!(seen.insert(flat::Kernel::Flat.code()));
    assert!(seen.insert(flat::Kernel::Textured.code()));
    for v in 0..=255u8 {
        assert!(seen.insert(flat::Kernel::AlphaCut(v).code()));
    }
}

#[test]
fn forward_fix_params_fills_the_block() {
    let mut t = forward_technique();
    t.ambient_color = [bits(0.2), bits(0.3), bits(0.4), bits(1.0)];
    let v = view();
    let mat = Material {
        color: [bits(1.0), bits(0.5), bits(0.25), bits(1.0)],
        texture: Some(77u32),
        transparency: Transparency::Cutout(40),
    };
    let mut params = t.compile(forward::Kernel { textured: true, transparency: mat.transparency }).params;
    t.fix_params(&mat, &v, &mut params);
    assert_eq!(
        params,
        forward::Params {
            mvp: v.mx_vertex,
            world: v.mx_world,
            normal: v.mx_normal,
            color: mat.color,
            ambient: t.ambient_color,
            texture: 77,
            alpha_test: 40,
            light_mask: [0; 4],
            lights: 12,
        }
    );
}

#[test]
fn fix_params_leaves_the_default_texture_where_the_material_has_none() {
    let t = forward_technique();
    let v = view();
    let mat = Material { color: [bits(1.0); 4], texture: None, transparency: Transparency::Opaque };
    let mut params = t.compile(forward::Kernel { textured: false, transparency: mat.transparency }).params;
    t.fix_params(&mat, &v, &mut params);
    assert_eq!(params.texture, 13);
    assert_eq!(params.color, [bits(1.0); 4]);
    let f: flat::Technique<u32, u32> = flat::Technique::new(20, 21, 23);
    let mut params = f.compile(flat::Kernel::Flat).params;
    f.fix_params(&mat, &v, &mut params);
    assert_eq!(params.texture, 23);
}

#[test]
fn flat_fix_params_fills_the_block() {
    let f: flat::Technique<u32, u32> = flat::Technique::new(20, 21, 23);
    let v = view();
    let mat = Material {
        color: [bits(0.1), bits(0.2), bits(0.3), bits(0.4)],
        texture: Some(5u32),
        transparency: Transparency::Cutout(8),
    };
    let mut params = f.compile(flat::Kernel::AlphaCut(8)).params;
    f.fix_params(&mat, &v, &mut params);
    assert_eq!(params, flat::Params { mvp: v.mx_vertex, color: mat.color, texture: 5, alpha_test: 8 });
}

#[test]
fn fixing_twice_changes_nothing() {
    let t = forward_technique();
    let v = view();
    let mat = Material { color: [bits(0.5); 4], texture: Some(1u32), transparency: Transparency::Opaque };
    let mut params = t.compile(forward::Kernel { textured: true, transparency: mat.transparency }).params;
    t.fix_params(&mat, &v, &mut params);
    let once = params;
    t.fix_params(&mat, &v, &mut params);
    assert_eq!(params, once);
}

#[test]
fn depth_terms_are_the_end_of_the_last_column() {
    let v = view();
    assert_eq!(v.depth_terms(), (bits(14.5), bits(15.5)));
    let (z, w) = v.depth_terms();
    assert_eq!(f32::from_bits(z) / f32::from_bits(w), 14.5 / 15.5);
}
