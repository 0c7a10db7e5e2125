use vstd::prelude::*;

use crate::noise::{noise_bucket, noise_level, scale_seed, scaled_seed, NOISE_LEVELS};

verus! {

/// The fewest stars the sky ever shows.
pub const MIN_STARS: usize = 58;

/// The most stars the sky ever shows.
pub const MAX_STARS: usize = 190;

/// Square CSS pixels of sky per star.
pub const AREA_PER_STAR: i64 = 8_400;

/// Every star whose index is a multiple of this is a bright beacon.
pub const BEACON_EVERY: usize = 23;

/// The seed of star `i` is `i + SEED_OFFSET`.
pub const SEED_OFFSET: u32 = 17;

/// Seed factors of the vertical position, radius, brightness, twinkle speed
/// and twinkle phase of a star (its horizontal position uses the seed itself).
pub const Y_FACTOR: u32 = 7;
pub const RADIUS_FACTOR: u32 = 11;
pub const ALPHA_FACTOR: u32 = 19;
pub const SPEED_FACTOR: u32 = 29;
pub const PHASE_FACTOR: u32 = 31;

/// The radius of a star: a beacon has the fixed large radius, every other
/// star a radius drawn from a noise bucket.
#[derive(Clone, Copy, Debug, PartialEq, Eq)]
pub enum StarRadius {
    Beacon,
    Noise(u32),
}

/// The noise buckets (each below `NOISE_LEVELS`) from which one star's
/// position, size, brightness and twinkle are drawn.
#[derive(Clone, Copy, Debug, PartialEq, Eq)]
pub struct StarNoise {
    pub x: u32,
    pub y: u32,
    pub radius: StarRadius,
    pub alpha: u32,
    pub speed: u32,
    pub phase: u32,
}

/// The seed of the star at `index`.
pub open spec fn star_seed(index: int) -> u32 {
    (index + SEED_OFFSET) as u32
}

/// The star at position `index` of the field.
pub open spec fn star_at(index: int) -> StarNoise {
    let seed = star_seed(index);
    StarNoise {
        x: noise_level(seed) as u32,
        y: noise_level(scaled_seed(seed, Y_FACTOR)) as u32,
        radius: if index % (BEACON_EVERY as int) == 0 {
            StarRadius::Beacon
        } else {
            StarRadius::Noise(noise_level(scaled_seed(seed, RADIUS_FACTOR)) as u32)
        },
        alpha: noise_level(scaled_seed(seed, ALPHA_FACTOR)) as u32,
        speed: noise_level(scaled_seed(seed, SPEED_FACTOR)) as u32,
        phase: noise_level(scaled_seed(seed, PHASE_FACTOR)) as u32,
    }
}

/// The number of stars for a sky of `width` by `height` CSS pixels: one star
/// per `AREA_PER_STAR` square pixels (none for an empty or negative area),
/// clamped to `[MIN_STARS, MAX_STARS]`.
pub open spec fn star_count_for(width: int, height: int) -> int {
    let area = width * height;
    let raw = if area <= 0 { 0 } else { area / (AREA_PER_STAR as int) };
    if raw < MIN_STARS {
        MIN_STARS as int
    } else if raw > MAX_STARS {
        MAX_STARS as int
    } else {
        raw
    }
}

/// The first `count` stars of the field.
pub open spec fn star_field_of(count: int) -> Seq<StarNoise> {
    Seq::new(count as nat, |i: int| star_at(i))
}

/// Every bucket of a star lies below `NOISE_LEVELS`.
pub open spec fn star_in_range(star: StarNoise) -> bool {
    &&& star.x < NOISE_LEVELS
    &&& star.y < NOISE_LEVELS
    &&& star.alpha < NOISE_LEVELS
    &&& star.speed < NOISE_LEVELS
    &&& star.phase < NOISE_LEVELS
    &&& (star.radius matches StarRadius::Noise(r) ==> r < NOISE_LEVELS)
}

/// The number of stars for a sky of `width` by `height` CSS pixels.
///
/// The sizes are whole pixels, so the area is computed exactly in integers.
pub fn star_count(width: i32, height: i32) -> (count: usize)
    ensures
        count == star_count_for(width as int, height as int),
        MIN_STARS <= count <= MAX_STARS,
        58 * 8400 <= width * height < 191 * 8400 ==> count * 8400 <= width * height < (count
            + 1) * 8400,
        width * height >= 190 * 8400 <==> count == 190,
        width * height < 59 * 8400 <==> count == 58,
{
    let w = width as i64;
    let h = height as i64;
    assert(-0x4000_0000_0000_0000 <= w * h <= 0x4000_0000_0000_0000) by (nonlinear_arith)
        requires
            -0x8000_0000 <= w <= 0x7fff_ffff,
            -0x8000_0000 <= h <= 0x7fff_ffff,
    ;
    let area = w * h;
    let raw: i64 = if area <= 0 { 0 } else { area / AREA_PER_STAR };
    if raw < MIN_STARS as i64 {
        MIN_STARS
    } else if raw > MAX_STARS as i64 {
        MAX_STARS
    } else {
        raw as usize
    }
}

/// The star at position `index` of the field.
fn star_noise(index: usize) -> (star: StarNoise)
    requires
        index < MAX_STARS,
    ensures
        star == star_at(index as int),
        star_in_range(star),
{
    let seed = index as u32 + SEED_OFFSET;
    let radius = if index % BEACON_EVERY == 0 {
        StarRadius::Beacon
    } else {
        StarRadius::Noise(noise_bucket(scale_seed(seed, RADIUS_FACTOR)))
    };
    StarNoise {
        x: noise_bucket(seed),
        y: noise_bucket(scale_seed(seed, Y_FACTOR)),
        radius,
        alpha: noise_bucket(scale_seed(seed, ALPHA_FACTOR)),
        speed: noise_bucket(scale_seed(seed, SPEED_FACTOR)),
        phase: noise_bucket(scale_seed(seed, PHASE_FACTOR)),
    }
}

/// The star field of a sky of `width` by `height` CSS pixels: stars `0`
/// to `star_count(width, height) - 1`, where every `BEACON_EVERY`-th star,
/// starting with the first, is a beacon.
pub fn star_field(width: i32, height: i32) -> (stars: Vec<StarNoise>)
    ensures
        stars@ == star_field_of(star_count_for(width as int, height as int)),
        MIN_STARS <= stars@.len() <= MAX_STARS,
        forall|i: int|
            0 <= i < stars@.len() ==> (#[trigger] stars@[i].radius is Beacon <==> i
                % (BEACON_EVERY as int) == 0),
        forall|i: int| 0 <= i < stars@.len() ==> star_in_range(#[trigger] stars@[i]),
        forall|i: int|
            0 <= i < stars@.len() ==> (#[trigger] stars@[i]).x == noise_level((i + 17) as u32),
{
    proof {
        lemma_star_seeds();
    }
    let count = star_count(width, height);
    let mut stars: Vec<StarNoise> = Vec::new();
    let mut index: usize = 0;
    while index < count
        invariant
            index <= count <= MAX_STARS,
            stars@ == star_field_of(index as int),
            forall|i: int| 0 <= i < stars@.len() ==> star_in_range(#[trigger] stars@[i]),
        decreases count - index,
    {
        let star = star_noise(index);
        stars.push(star);
        index += 1;
        assert(stars@ =~= star_field_of(index as int));
    }
    stars
}

/// One star per 8400 square pixels of sky, rounded down, but never fewer
/// than 58 nor more than 190: within the clamp the count is the whole number
/// of 8400-pixel tiles in the area, the maximum is reached exactly from
/// 190 tiles on and the minimum exactly below 59 tiles.
pub proof fn lemma_star_count_area(width: int, height: int)
    ensures
        58 <= star_count_for(width, height) <= 190,
        58 * 8400 <= width * height < 191 * 8400 ==> star_count_for(width, height) * 8400
            <= width * height < (star_count_for(width, height) + 1) * 8400,
        width * height >= 190 * 8400 <==> star_count_for(width, height) == 190,
        width * height < 59 * 8400 <==> star_count_for(width, height) == 58,
{
    let area = width * height;
    if area > 0 {
        vstd::arithmetic::div_mod::lemma_fundamental_div_mod(area, 8400);
        vstd::arithmetic::div_mod::lemma_mod_bound(area, 8400);
        let q = area / 8400;
        let r = area % 8400;
        assert(area == 8400 * q + r);
        assert(0 <= r < 8400);
        if q < 58 {
            assert(area < 58 * 8400);
        } else if q > 190 {
            assert(area >= 191 * 8400);
        }
        if area >= 190 * 8400 {
            assert(q >= 190);
        }
        if area < 59 * 8400 {
            assert(q <= 58);
        }
        if q == 190 {
            assert(area >= 190 * 8400);
        }
        if q <= 58 {
            assert(area < 59 * 8400);
        }
    }
}

/// Star `i` of the field is drawn from seed `i + 17`, so the seeds of the
/// at most 190 stars are all different and no star repeats another's seed.
pub proof fn lemma_star_seeds()
    ensures
        forall|i: int|
            0 <= i < MAX_STARS ==> (#[trigger] star_at(i)).x == noise_level((i + 17) as u32)
                && star_seed(i) as int == i + 17,
        forall|i: int, j: int|
            0 <= i < MAX_STARS && 0 <= j < MAX_STARS && i != j ==> star_seed(i) != star_seed(
                j,
            ),
        forall|i: int|
            0 <= i < MAX_STARS ==> {
                let star = #[trigger] star_at(i);
                &&& star.y == noise_level((((i + 17) * 7) % 0x1_0000_0000) as u32)
                &&& star.alpha == noise_level((((i + 17) * 19) % 0x1_0000_0000) as u32)
                &&& star.speed == noise_level((((i + 17) * 29) % 0x1_0000_0000) as u32)
                &&& star.phase == noise_level((((i + 17) * 31) % 0x1_0000_0000) as u32)
                &&& (star.radius == StarRadius::Beacon <==> i % 23 == 0)
                &&& (i % 23 != 0 ==> star.radius == StarRadius::Noise(
                    noise_level((((i + 17) * 11) % 0x1_0000_0000) as u32) as u32,
                ))
            },
{
}

/// Growing the sky never moves a star: the field of a smaller star count is
/// a prefix of the field of a larger one.
pub proof fn lemma_star_field_prefix(smaller: int, larger: int)
    requires
        0 <= smaller <= larger,
    ensures
        star_field_of(smaller) == star_field_of(larger).take(smaller),
{
    assert(star_field_of(smaller) =~= star_field_of(larger).take(smaller));
}

/// Resizing the sky to one with at least as many stars keeps every star of
/// the smaller field where it was.
pub proof fn lemma_resize_keeps_stars(width: int, height: int, new_width: int, new_height: int)
    requires
        star_count_for(width, height) <= star_count_for(new_width, new_height),
    ensures
        star_field_of(star_count_for(width, height)) == star_field_of(
            star_count_for(new_width, new_height),
        ).take(star_count_for(width, height)),
{
    lemma_star_field_prefix(star_count_for(width, height), star_count_for(new_width, new_height));
}

} // verus!
