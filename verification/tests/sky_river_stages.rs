use waikato_meetup::river::{
    layout_for, marker_ring_radius, river_bands, river_sample_index, Layout, RiverBands,
};
use waikato_meetup::sky::{SkyFrame, SkyState};
use waikato_meetup::stages::{stage_label, stage_prompt, StagePicker, STAGE_COUNT};
use waikato_meetup::stars::star_field;

#[test]
fn fresh_sky_is_unsized() {
    let sky = SkyState::new(false);
    assert_eq!(sky.width(), 0);
    assert_eq!(sky.height(), 0);
    assert!(sky.stars().is_empty());
    assert!(!sky.accepts_pointer());
    assert!(!sky.reduced_motion());
}

#[test]
fn zero_sized_first_frame_builds_nothing() {
    let mut sky = SkyState::new(false);
    let frame = sky.on_frame(0, 0);
    assert_eq!(frame, SkyFrame { resized: false, request_next: true });
    assert!(sky.stars().is_empty());
}

#[test]
fn resize_rebuilds_and_settles() {
    let mut sky = SkyState::new(false);
    let frame = sky.on_frame(1000, 800);
    assert_eq!(frame, SkyFrame { resized: true, request_next: true });
    assert_eq!((sky.width(), sky.height()), (1000, 800));
    assert_eq!(sky.stars(), &star_field(1000, 800));
    assert_eq!(sky.stars().len(), 95);
    let again = sky.on_frame(1000, 800);
    assert_eq!(again, SkyFrame { resized: false, request_next: true });
    assert_eq!(sky.stars().len(), 95);
    let narrower = sky.on_frame(400, 800);
    assert!(narrower.resized);
    assert_eq!(sky.stars().len(), 58);
    assert!(sky.accepts_pointer());
}

#[test]
fn reduced_motion_stops_the_loop() {
    let mut sky = SkyState::new(true);
    let frame = sky.on_frame(1200, 900);
    assert_eq!(frame, SkyFrame { resized: true, request_next: false });
    assert!(sky.reduced_motion());
    assert_eq!(sky.on_frame(1200, 900).request_next, false);
}

#[test]
fn pointer_needs_area() {
    let mut sky = SkyState::new(false);
    sky.on_frame(500, 0);
    assert!(!sky.accepts_pointer());
    sky.on_frame(500, 10);
    assert!(sky.accepts_pointer());
}

#[test]
fn sample_index_finds_first_key_not_below() {
    let keys = [10u64, 20, 30, 40];
    assert_eq!(river_sample_index(&keys, 5), 0);
    assert_eq!(river_sample_index(&keys, 10), 0);
    assert_eq!(river_sample_index(&keys, 11), 1);
    assert_eq!(river_sample_index(&keys, 20), 1);
    assert_eq!(river_sample_index(&keys, 25), 2);
    assert_eq!(river_sample_index(&keys, 40), 3);
}

#[test]
fn sample_index_past_the_mouth_is_last() {
    let keys = [10u64, 20, 30, 40];
    assert_eq!(river_sample_index(&keys, 41), 3);
    assert_eq!(river_sample_index(&keys, u64::MAX), 3);
    assert_eq!(river_sample_index(&[7u64], 100), 0);
}

#[test]
fn sample_index_with_equal_keys() {
    let keys = [1u64, 5, 5, 5, 9];
    assert_eq!(river_sample_index(&keys, 5), 1);
    assert_eq!(river_sample_index(&keys, 6), 4);
}

#[test]
fn sample_index_follows_float_progress() {
    let progress = [0.0f64, 0.1, 0.25, 0.5, 0.75, 1.0];
    let keys: Vec<u64> = progress.iter().map(|p| p.to_bits()).collect();
    assert_eq!(river_sample_index(&keys, 0.3f64.to_bits()), 3);
    assert_eq!(river_sample_index(&keys, 0.0f64.to_bits()), 0);
    assert_eq!(river_sample_index(&keys, 0.99f64.to_bits()), 5);
}

#[test]
fn sample_index_is_monotone() {
    let keys = [2u64, 4, 4, 8, 16, 32];
    let mut last = 0;
    for target in 0..40u64 {
        let index = river_sample_index(&keys, target);
        assert!(index >= last);
        last = index;
    }
}

#[test]
fn layouts_and_bands() {
    assert_eq!(layout_for(699), Layout::Narrow);
    assert_eq!(layout_for(-1), Layout::Narrow);
    assert_eq!(layout_for(700), Layout::Wide);
    assert_eq!(river_bands(Layout::Narrow), RiverBands { outer: 34, inner: 25 });
    assert_eq!(river_bands(Layout::Wide), RiverBands { outer: 54, inner: 42 });
}

#[test]
fn meeting_place_ring_is_larger() {
    assert_eq!(marker_ring_radius(6), 19);
    assert_eq!(marker_ring_radius(0), 10);
    assert_eq!(marker_ring_radius(12), 10);
}

#[test]
fn stage_texts() {
    assert_eq!(STAGE_COUNT, 5);
    assert_eq!(stage_label(0), "An idea");
    assert_eq!(stage_label(4), "Capital");
    assert_eq!(stage_prompt(1), "Meet customers. Test whether value really changes hands.");
    assert_eq!(
        stage_prompt(3),
        "Bring a lesson, an introduction or a door you can hold open."
    );
}

#[test]
fn picker_starts_on_first_stage() {
    let picker = StagePicker::new();
    assert_eq!(picker.selected(), 0);
    assert!(picker.is_active(0));
    assert_eq!(picker.answer(), stage_prompt(0));
}

#[test]
fn selecting_a_stage_shows_its_prompt() {
    let mut picker = StagePicker::new();
    picker.select(2);
    assert_eq!(picker.selected(), 2);
    assert_eq!(
        picker.answer(),
        "Share the knot you cannot untie alone. Someone here may have the thread."
    );
    let active: Vec<usize> = (0..STAGE_COUNT).filter(|&i| picker.is_active(i)).collect();
    assert_eq!(active, vec![2]);
}
