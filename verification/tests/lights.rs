use render_core::algebra::{Iso, Vec3, Vec4, F32_ONE, F32_ZERO};
use render_core::common_component::{GlobalLight, PointLight, SpotLight, Transform};
use render_core::data_types;
use render_core::render_system::{
    light_buffer_words, pack_global_lights, pack_point_lights, pack_spot_lights,
    MAX_POINT_LIGHTS,
};

fn bits(v: f32) -> u32 {
    v.to_bits()
}

fn transform_at(x: f32, y: f32, z: f32) -> Transform {
    let mut iso = Iso::identity();
    iso.translation = Vec3 { x: bits(x), y: bits(y), z: bits(z) };
    Transform { isometry: iso, parent: None, children: vec![] }
}

fn point_light(tag: f32) -> PointLight {
    PointLight {
        color: Vec3 { x: bits(tag), y: bits(0.5), z: bits(0.25) },
        power: bits(2.0),
        radius: bits(3.0),
    }
}

#[test]
fn point_light_packs_position_radius_and_power() {
    let pl = point_light(1.0);
    let t = transform_at(7.0, 8.0, 9.0);
    let packed = data_types::PointLight::from_component(&pl, &t);
    assert_eq!(
        packed.position,
        Vec4 { x: bits(7.0), y: bits(8.0), z: bits(9.0), w: bits(3.0) }
    );
    assert_eq!(
        packed.color,
        Vec4 { x: bits(1.0), y: bits(0.5), z: bits(0.25), w: bits(2.0) }
    );
}

#[test]
fn global_light_direction_has_zero_w() {
    let gl = GlobalLight {
        color: Vec3 { x: bits(1.0), y: bits(1.0), z: bits(1.0) },
        power: bits(100.0),
        direction: Vec3 { x: bits(1.0), y: bits(1.0), z: bits(1.0) },
    };
    let packed = data_types::GlobalLight::from_component(&gl);
    assert_eq!(packed.direction.w, F32_ZERO);
    assert_eq!(packed.color.w, bits(100.0));
}

#[test]
fn spot_light_cutoff_rides_in_direction_w() {
    let sl = SpotLight {
        color: Vec3 { x: bits(0.1), y: bits(0.2), z: bits(0.3) },
        power: bits(4.0),
        radius: bits(5.0),
        direction: Vec3 { x: bits(0.0), y: bits(-1.0), z: bits(0.0) },
        cut_off: bits(0.7),
    };
    let t = transform_at(1.0, 2.0, 3.0);
    let packed = data_types::SpotLight::from_component(&sl, &t);
    assert_eq!(packed.position.w, bits(5.0));
    assert_eq!(packed.color.w, bits(4.0));
    assert_eq!(packed.direction.w, bits(0.7));
}

#[test]
fn ninth_and_later_point_lights_never_reach_the_buffer() {
    // Ten point lights; only the first eight encountered may appear.
    let mut lights: Vec<(PointLight, Transform)> = Vec::new();
    for i in 0..10 {
        lights.push((point_light(i as f32), transform_at(i as f32, 0.0, 0.0)));
    }
    let packed = pack_point_lights(&lights);
    assert_eq!(packed.len(), MAX_POINT_LIGHTS);
    for i in 0..8 {
        assert_eq!(packed[i].color.x, bits(i as f32));
        assert_eq!(packed[i].position.x, bits(i as f32));
    }
    // The ninth and tenth lights' tags appear nowhere in the packed array.
    for slot in packed.iter() {
        assert_ne!(slot.color.x, bits(8.0));
        assert_ne!(slot.color.x, bits(9.0));
    }
    // And nowhere in the written buffer words either.
    let words = light_buffer_words(
        &pack_global_lights(&vec![]),
        &packed,
        &pack_spot_lights(&vec![]),
    );
    let point_region = &words[64..128];
    assert!(!point_region.contains(&bits(8.0)));
    assert!(!point_region.contains(&bits(9.0)));
}

#[test]
fn missing_lights_pack_as_empty_slots() {
    let packed = pack_point_lights(&vec![(point_light(1.0), transform_at(4.0, 0.0, 0.0))]);
    assert_eq!(packed[0].position.x, bits(4.0));
    for slot in &packed[1..] {
        assert_eq!(*slot, data_types::PointLight::default());
        assert_eq!(slot.position, Vec4 { x: 0, y: 0, z: 0, w: 0 });
    }
}

#[test]
fn light_buffer_regions_sit_at_declared_offsets() {
    let g = GlobalLight {
        color: Vec3 { x: bits(0.9), y: bits(0.8), z: bits(0.7) },
        power: bits(6.0),
        direction: Vec3 { x: bits(1.0), y: bits(0.0), z: bits(0.0) },
    };
    let p = (point_light(0.6), transform_at(1.0, 2.0, 3.0));
    let s = SpotLight {
        color: Vec3 { x: bits(0.5), y: bits(0.4), z: bits(0.3) },
        power: bits(7.0),
        radius: bits(8.0),
        direction: Vec3 { x: bits(0.0), y: bits(0.0), z: bits(1.0) },
        cut_off: bits(0.2),
    };
    let words = light_buffer_words(
        &pack_global_lights(&vec![g]),
        &pack_point_lights(&vec![p]),
        &pack_spot_lights(&vec![(s, transform_at(4.0, 5.0, 6.0))]),
    );
    assert_eq!(words.len(), 224);
    // Global light record at word 0: color then direction.
    assert_eq!(&words[0..4], &[bits(0.9), bits(0.8), bits(0.7), bits(6.0)]);
    assert_eq!(&words[4..8], &[bits(1.0), bits(0.0), bits(0.0), F32_ZERO]);
    // Point light record at word 64 (byte 256): position then color.
    assert_eq!(&words[64..68], &[bits(1.0), bits(2.0), bits(3.0), bits(3.0)]);
    // Spot light record at word 128 (byte 512): position, color, direction.
    assert_eq!(&words[128..132], &[bits(4.0), bits(5.0), bits(6.0), bits(8.0)]);
    assert_eq!(&words[136..140], &[bits(0.0), bits(0.0), bits(1.0), bits(0.2)]);
    // Empty global slot keeps the default direction along x.
    assert_eq!(&words[8..12], &[F32_ZERO, F32_ZERO, F32_ZERO, F32_ZERO]);
    assert_eq!(&words[12..16], &[F32_ONE, F32_ZERO, F32_ZERO, F32_ZERO]);
}
