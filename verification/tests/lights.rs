use gfx_pipeline::forward;
use gfx_pipeline::forward::lights::{count_active, light_mask, payload};
use gfx_pipeline::forward::{MASK_CAPACITY, MAX_LIGHTS};
use gfx_pipeline::light::{Attenuation, Coefficient, Kind};
use gfx_pipeline::view::Info;
use gfx_pipeline::{Light, Material, Transparency};

fn bits(x: f32) -> u32 {
    x.to_bits()
}

fn light(active: bool, tag: f32) -> Light<u32> {
    Light {
        active,
        kind: Kind::Omni,
        color: [bits(tag), bits(tag + 0.25), bits(tag + 0.5), bits(1.0)],
        attenuation: Attenuation::Quadratic { k0: bits(tag), k1: bits(2.0 * tag), k2: bits(3.0 * tag) },
        position: [bits(-tag), bits(0.0), bits(tag), bits(1.0)],
        view: [[bits(tag); 4]; 4],
    }
}

fn lights(active: &[bool]) -> Vec<Light<u32>> {
    active.iter().enumerate().map(|(i, a)| light(*a, i as f32)).collect()
}

fn fields(mask: [u32; 4]) -> Vec<u32> {
    (0..16).map(|k| (mask[k / 4] >> (8 * (k % 4))) & 0xff).collect()
}

fn value(c: Coefficient<u32>) -> f32 {
    match c {
        Coefficient::Zero => 0.0,
        Coefficient::Value(x) => f32::from_bits(x),
        Coefficient::Inverse(x) => 1.0 / f32::from_bits(x),
        Coefficient::TwoOver(x) => 2.0 / f32::from_bits(x),
        Coefficient::InverseSquare(x) => 1.0 / (f32::from_bits(x) * f32::from_bits(x)),
    }
}

fn values(a: Attenuation<u32>) -> [f32; 4] {
    let c = a.coefficients();
    [value(c[0]), value(c[1]), value(c[2]), value(c[3])]
}

#[test]
fn limits() {
    assert_eq!(MAX_LIGHTS, 256);
    assert_eq!(MASK_CAPACITY, 16);
}

#[test]
fn three_lights_are_packed_into_the_first_three_fields() {
    let mask = light_mask(&lights(&[true, true, true])).unwrap();
    assert_eq!(fields(mask), vec![1, 2, 3, 0, 0, 0, 0, 0, 0, 0, 0, 0, 0, 0, 0, 0]);
    assert_eq!(mask, [0x0003_0201, 0, 0, 0]);
}

#[test]
fn no_light_gives_an_empty_mask() {
    assert_eq!(light_mask(&Vec::new()), Some([0; 4]));
    assert_eq!(light_mask(&lights(&[false, false])), Some([0; 4]));
}

#[test]
fn a_mask_names_the_slots_of_the_active_lights() {
    let mask = light_mask(&lights(&[false, true, false, false, true, true, false])).unwrap();
    assert_eq!(fields(mask), vec![1, 2, 3, 0, 0, 0, 0, 0, 0, 0, 0, 0, 0, 0, 0, 0]);
    let out = payload(&lights(&[false, true, false, false, true, true, false]));
    assert_eq!(out.iter().map(|l| l.slot).collect::<Vec<usize>>(), vec![1, 2, 3]);
}

#[test]
fn lanes_fill_one_after_the_other() {
    assert_eq!(light_mask(&lights(&[true; 4])), Some([0x0403_0201, 0, 0, 0]));
    assert_eq!(light_mask(&lights(&[true; 5])), Some([0x0403_0201, 0x0000_0005, 0, 0]));
    assert_eq!(light_mask(&lights(&[true; 9])), Some([0x0403_0201, 0x0807_0605, 0x0000_0009, 0]));
    assert_eq!(
        light_mask(&lights(&[true; 16])),
        Some([0x0403_0201, 0x0807_0605, 0x0c0b_0a09, 0x100f_0e0d])
    );
    for n in 0..=16usize {
        let mask = light_mask(&lights(&vec![true; n])).unwrap();
        let expected: Vec<u32> = (0..16).map(|k| if k < n { k as u32 + 1 } else { 0 }).collect();
        assert_eq!(fields(mask), expected);
    }
}

#[test]
fn there_is_no_mask_for_more_than_sixteen_lights() {
    assert_eq!(light_mask(&lights(&[true; 17])), None);
    assert_eq!(light_mask(&lights(&[true; 40])), None);
    let mut many = vec![true; 16];
    many.push(false);
    many.push(false);
    assert!(light_mask(&lights(&many)).is_some());
    many.push(true);
    assert_eq!(light_mask(&lights(&many)), None);
}

#[test]
fn counting_active_lights() {
    assert_eq!(count_active(&Vec::new()), 0);
    assert_eq!(count_active(&lights(&[false, true, false, true, true])), 3);
    let mut t: forward::Technique<u32, u32, u32> = forward::Technique::new(1, 2, 3, 4);
    assert_eq!(t.active_lights(), 0);
    t.lights = lights(&[true, false, true]);
    assert_eq!(t.active_lights(), 2);
}

#[test]
fn the_payload_holds_the_active_lights_in_their_order() {
    let scene = lights(&[true, false, true, true, false]);
    let out = payload(&scene);
    assert_eq!(out.len(), 3);
    for (j, i) in [0usize, 2, 3].iter().enumerate() {
        assert_eq!(
            out[j],
            forward::Light {
                slot: j + 1,
                position: scene[*i].position,
                color: scene[*i].color,
                attenuation: scene[*i].attenuation.coefficients(),
            }
        );
    }
}

#[test]
fn the_payload_of_no_lights_is_empty() {
    assert!(payload(&Vec::new()).is_empty());
    assert!(payload(&lights(&[false, false, false])).is_empty());
}

#[test]
fn updating_twice_gives_the_same_payload() {
    let mut t: forward::Technique<u32, u32, u32> = forward::Technique::new(1, 2, 3, 4);
    t.lights = lights(&[true, true, false, true]);
    let first = t.update();
    let second = t.update();
    assert_eq!(first, second);
    assert_eq!(first, payload(&t.lights));
    assert_eq!(first.len(), 3);
}

#[test]
fn the_buffer_takes_two_hundred_and_fifty_five_lights() {
    let mut t: forward::Technique<u32, u32, u32> = forward::Technique::new(1, 2, 3, 4);
    t.lights = lights(&vec![true; MAX_LIGHTS - 1]);
    let out = t.update();
    assert_eq!(out.len(), 255);
    assert_eq!(out[0].slot, 1);
    assert_eq!(out[254].slot, 255);
    assert!(out.iter().all(|l| 1 <= l.slot && l.slot < MAX_LIGHTS));
}

#[test]
fn spherical_attenuation() {
    let a = Attenuation::Spherical { intensity: bits(2.0), distance: bits(4.0) };
    assert_eq!(
        a.coefficients(),
        [
            Coefficient::Inverse(bits(2.0)),
            Coefficient::TwoOver(bits(4.0)),
            Coefficient::InverseSquare(bits(4.0)),
            Coefficient::Zero,
        ]
    );
    assert_eq!(values(a), [0.5, 0.5, 0.0625, 0.0]);
}

#[test]
fn constant_attenuation() {
    let a = Attenuation::Constant { intensity: bits(4.0) };
    assert_eq!(
        a.coefficients(),
        [Coefficient::Inverse(bits(4.0)), Coefficient::Zero, Coefficient::Zero, Coefficient::Zero]
    );
    assert_eq!(values(a), [0.25, 0.0, 0.0, 0.0]);
}

#[test]
fn quadratic_attenuation() {
    let a = Attenuation::Quadratic { k0: bits(1.0), k1: bits(0.5), k2: bits(0.125) };
    assert_eq!(
        a.coefficients(),
        [
            Coefficient::Value(bits(1.0)),
            Coefficient::Value(bits(0.5)),
            Coefficient::Value(bits(0.125)),
            Coefficient::Zero,
        ]
    );
    assert_eq!(values(a), [1.0, 0.5, 0.125, 0.0]);
}

#[test]
fn fix_params_writes_the_mask() {
    let mut t: forward::Technique<u32, u32, u32> = forward::Technique::new(1, 2, 3, 4);
    t.lights = lights(&[true, false, true, true, true, true]);
    let view = Info::new([[0u32; 4]; 4], [[0u32; 4]; 4], [[0u32; 3]; 3]);
    let mat = Material { color: [0; 4], texture: None::<u32>, transparency: Transparency::Opaque };
    let mut params = t.compile(forward::Kernel { textured: false, transparency: Transparency::Opaque }).params;
    t.fix_params(&mat, &view, &mut params);
    assert_eq!(params.light_mask, [0x0403_0201, 0x0000_0005, 0, 0]);
    assert_eq!(params.lights, 3);
    t.lights = Vec::new();
    t.fix_params(&mat, &view, &mut params);
    assert_eq!(params.light_mask, [0; 4]);
}

#[test]
fn the_pipeline_passes_its_lights_on() {
    let mut p: forward::Pipeline<u32, u32, u32, u32> = forward::Pipeline::new(1, 2, 3, 4);
    assert!(p.update().is_empty());
    assert_eq!(p.set_lights(lights(&[false, true, true])), Ok(()));
    assert_eq!(p.technique().lights.len(), 3);
    let out = p.update();
    assert_eq!(out.iter().map(|l| l.slot).collect::<Vec<usize>>(), vec![1, 2]);
    assert_eq!(out[0].position, light(true, 1.0).position);
    p.set_ambient_color([7; 4]);
    assert_eq!(p.technique().ambient_color, [7; 4]);
    assert_eq!(p.technique().lights.len(), 3);
}

#[test]
fn the_pipeline_refuses_more_lights_than_a_mask_names() {
    let mut p: forward::Pipeline<u32, u32, u32, u32> = forward::Pipeline::new(1, 2, 3, 4);
    assert_eq!(p.set_lights(lights(&[true; 16])), Ok(()));
    assert_eq!(p.technique().lights.len(), 16);
    let many = lights(&[true; 17]);
    assert_eq!(p.set_lights(many.clone()), Err(many));
    assert_eq!(p.technique().lights.len(), 16);
    let mut dim = vec![false; 40];
    dim[3] = true;
    assert_eq!(p.set_lights(lights(&dim)), Ok(()));
    assert_eq!(p.technique().lights.len(), 40);
    let out = p.update();
    assert_eq!(out.len(), 1);
    assert_eq!(out[0].slot, 1);
    assert_eq!(out[0].color, light(true, 3.0).color);
}
