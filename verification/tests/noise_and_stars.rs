use waikato_meetup::noise::{noise_bucket, scale_seed, NOISE_LEVELS};
use waikato_meetup::stars::{star_count, star_field, StarNoise, StarRadius, MAX_STARS, MIN_STARS};

#[test]
fn noise_bucket_exact_values() {
    assert_eq!(noise_bucket(0), 4223);
    assert_eq!(noise_bucket(17), 1148);
    assert_eq!(noise_bucket(18), 5673);
}

#[test]
fn noise_bucket_wraps_past_u32_max() {
    assert_eq!(noise_bucket(u32::MAX), 9698);
}

#[test]
fn noise_bucket_stays_below_levels() {
    for seed in [0u32, 1, 2, 99, 12_345, 1 << 31, u32::MAX - 1, u32::MAX] {
        assert!(noise_bucket(seed) < NOISE_LEVELS);
    }
}

#[test]
fn scale_seed_wraps() {
    assert_eq!(scale_seed(3, 7), 21);
    assert_eq!(scale_seed(u32::MAX, 7), 4_294_967_289);
}

#[test]
fn star_count_clamps_small_skies() {
    assert_eq!(star_count(0, 0), MIN_STARS);
    assert_eq!(star_count(100, 100), 58);
    assert_eq!(star_count(-5, 10), 58);
    assert_eq!(star_count(-100, -100), 58);
}

#[test]
fn star_count_scales_with_area() {
    assert_eq!(star_count(1000, 800), 95);
    assert_eq!(star_count(700, 840), 70);
    assert_eq!(star_count(700, 839), 69);
}

#[test]
fn star_count_clamps_large_skies() {
    assert_eq!(star_count(10_000, 10_000), MAX_STARS);
    assert_eq!(star_count(i32::MAX, i32::MAX), 190);
    assert_eq!(star_count(i32::MIN, i32::MIN), 190);
}

#[test]
fn star_field_exact_stars() {
    let stars = star_field(1000, 800);
    assert_eq!(stars.len(), 95);
    assert_eq!(
        stars[0],
        StarNoise { x: 1148, y: 2698, radius: StarRadius::Beacon, alpha: 5798, speed: 5048, phase: 8898 }
    );
    assert_eq!(
        stars[1],
        StarNoise { x: 5673, y: 4373, radius: StarRadius::Noise(173), alpha: 1773, speed: 6273, phase: 9173 }
    );
    assert_eq!(
        stars[94],
        StarNoise { x: 6498, y: 148, radius: StarRadius::Noise(9248), alpha: 152, speed: 2902, phase: 7452 }
    );
}

#[test]
fn every_twenty_third_star_is_a_beacon() {
    let stars = star_field(2000, 2000);
    assert_eq!(stars.len(), 190);
    for (index, star) in stars.iter().enumerate() {
        assert_eq!(star.radius == StarRadius::Beacon, index % 23 == 0);
    }
    assert_eq!(stars[23].x, 5223);
    assert_eq!(stars[46].radius, StarRadius::Beacon);
}

#[test]
fn growing_the_sky_keeps_existing_stars() {
    let small = star_field(100, 100);
    let large = star_field(2000, 2000);
    assert_eq!(small.len(), 58);
    assert_eq!(&large[..small.len()], &small[..]);
}

#[test]
fn all_star_buckets_in_range() {
    for star in star_field(3000, 3000) {
        assert!(star.x < NOISE_LEVELS && star.y < NOISE_LEVELS);
        assert!(star.alpha < NOISE_LEVELS && star.speed < NOISE_LEVELS && star.phase < NOISE_LEVELS);
        if let StarRadius::Noise(r) = star.radius {
            assert!(r < NOISE_LEVELS);
        }
    }
}
