use fidget_vk::config::VisualSettings;
use fidget_vk::particles::ParticleKind;
use fidget_vk::rng::{nudge_step, xorshift32};
use fidget_vk::shell::typed_char;
use fidget_vk::spring::{spring_toggle, SpringToggle};

#[test]
fn xorshift_matches_reference_sequence() {
    // Reference values of Marsaglia's xorshift32 (13, 17, 5) from seed 1.
    assert_eq!(xorshift32(1), 270369);
    assert_eq!(xorshift32(270369), 67634689);
    assert_eq!(xorshift32(0), 0);
    let mut x = 0x1234_5678u32;
    for _ in 0..1000 {
        x = xorshift32(x);
        assert_ne!(x, 0);
    }
}

#[test]
fn xorshift_step_by_step() {
    let x = 0x9E37_79B9u32;
    let mut y = x;
    y ^= y << 13;
    y ^= y >> 17;
    y ^= y << 5;
    assert_eq!(xorshift32(x), y);
}

#[test]
fn nudge_generator_steps_lcg() {
    let (seed, bits) = nudge_step(0);
    assert_eq!(seed, 1_013_904_223);
    assert_eq!(bits, 1_013_904_223 >> 8);
    let (seed2, bits2) = nudge_step(0x9E37_79B9);
    assert_eq!(
        seed2,
        0x9E37_79B9u32.wrapping_mul(1_664_525).wrapping_add(1_013_904_223)
    );
    assert_eq!(bits2, seed2 >> 8);
    assert!(bits2 < (1 << 24));
}

#[test]
fn visual_settings_default() {
    let v = VisualSettings::default();
    assert!(v.particles);
    assert!(v.trail);
    assert_eq!(v.max_particles, 2000);
}

#[test]
fn particle_kinds_are_distinct() {
    let kinds = [ParticleKind::Mote, ParticleKind::Spark, ParticleKind::Burst, ParticleKind::Shard];
    for (i, a) in kinds.iter().enumerate() {
        for (j, b) in kinds.iter().enumerate() {
            assert_eq!(i == j, a == b);
        }
    }
}

#[test]
fn spring_toggle_cuts_or_recalls() {
    assert_eq!(spring_toggle(true, true), SpringToggle::Cut);
    assert_eq!(spring_toggle(true, false), SpringToggle::Recall);
    assert_eq!(spring_toggle(false, true), SpringToggle::Recall);
    assert_eq!(spring_toggle(false, false), SpringToggle::Recall);
}

#[test]
fn typed_characters() {
    assert_eq!(typed_char(0x41), Some('A'));
    assert_eq!(typed_char(0xE9), Some('\u{e9}'));
    assert_eq!(typed_char(0x1F600), Some('\u{1F600}'));
    assert_eq!(typed_char(0x0D), None);
    assert_eq!(typed_char(0x7F), None);
    assert_eq!(typed_char(0x85), None);
    assert_eq!(typed_char(0xD800), None);
    assert_eq!(typed_char(0x110000), None);
    for code in 0u32..0x200 {
        let expected = char::from_u32(code).filter(|c| !c.is_control());
        assert_eq!(typed_char(code), expected);
    }
}
