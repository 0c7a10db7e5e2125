use vstd::prelude::*;

use crate::stars::{star_count_for, star_field, star_field_of, StarNoise};

verus! {

/// The abstract state of the night sky: its size in CSS pixels, whether the
/// visitor asked for reduced motion, and its stars.
pub struct SkyModel {
    pub width: int,
    pub height: int,
    pub reduced_motion: bool,
    pub stars: Seq<StarNoise>,
}

/// What the animation loop does after one frame.
#[derive(Clone, Copy, Debug, PartialEq, Eq)]
pub struct SkyFrame {
    /// The canvas changed size: resize its backing store and redraw the
    /// freshly built star field.
    pub resized: bool,
    /// Ask for another animation frame.
    pub request_next: bool,
}

/// The state that the night-sky animation keeps between frames.
pub struct SkyState {
    width: i32,
    height: i32,
    reduced_motion: bool,
    stars: Vec<StarNoise>,
}

impl View for SkyState {
    type V = SkyModel;

    closed spec fn view(&self) -> SkyModel {
        SkyModel {
            width: self.width as int,
            height: self.height as int,
            reduced_motion: self.reduced_motion,
            stars: self.stars@,
        }
    }
}

/// The sky has never been sized, or it holds the star field of its size.
pub open spec fn sky_consistent(s: SkyModel) -> bool {
    ||| (s.width == 0 && s.height == 0 && s.stars.len() == 0)
    ||| s.stars == star_field_of(star_count_for(s.width, s.height))
}

/// The frame decision for a sky `s` whose canvas now measures `width` by
/// `height`.
pub open spec fn sky_frame(s: SkyModel, width: int, height: int) -> SkyFrame {
    SkyFrame {
        resized: width != s.width || height != s.height,
        request_next: !s.reduced_motion,
    }
}

/// The sky after one frame on a canvas of `width` by `height`: a changed
/// size takes the new size and rebuilds the stars; an unchanged one keeps
/// everything.
pub open spec fn sky_after_frame(s: SkyModel, width: int, height: int) -> SkyModel {
    if width != s.width || height != s.height {
        SkyModel {
            width,
            height,
            reduced_motion: s.reduced_motion,
            stars: star_field_of(star_count_for(width, height)),
        }
    } else {
        s
    }
}

impl SkyState {
    /// A sky that has not been sized yet: 0 by 0 and without stars.
    pub fn new(reduced_motion: bool) -> (sky: Self)
        ensures
            sky@ == (SkyModel { width: 0, height: 0, reduced_motion, stars: Seq::empty() }),
            sky_consistent(sky@),
    {
        SkyState { width: 0, height: 0, reduced_motion, stars: Vec::new() }
    }

    /// One animation frame on a canvas of `client_width` by `client_height`
    /// CSS pixels.
    pub fn on_frame(&mut self, client_width: i32, client_height: i32) -> (frame: SkyFrame)
        ensures
            frame == sky_frame(old(self)@, client_width as int, client_height as int),
            final(self)@ == sky_after_frame(old(self)@, client_width as int, client_height as int),
            frame.resized == (client_width != old(self)@.width || client_height != old(self)@.height),
            frame.request_next == !old(self)@.reduced_motion,
            final(self)@.width == client_width,
            final(self)@.height == client_height,
    {
        let resized = client_width != self.width || client_height != self.height;
        if resized {
            self.width = client_width;
            self.height = client_height;
            self.stars = star_field(client_width, client_height);
        }
        SkyFrame { resized, request_next: !self.reduced_motion }
    }

    /// Whether a pointer move may shift the sky: only once it has an area.
    pub fn accepts_pointer(&self) -> (accepts: bool)
        ensures
            accepts == (self@.width > 0 && self@.height > 0),
    {
        self.width > 0 && self.height > 0
    }

    /// The width of the sky in CSS pixels.
    pub fn width(&self) -> (width: i32)
        ensures
            width == self@.width,
    {
        self.width
    }

    /// The height of the sky in CSS pixels.
    pub fn height(&self) -> (height: i32)
        ensures
            height == self@.height,
    {
        self.height
    }

    /// Whether the visitor asked for reduced motion.
    pub fn reduced_motion(&self) -> (reduced: bool)
        ensures
            reduced == self@.reduced_motion,
    {
        self.reduced_motion
    }

    /// The stars of the sky.
    pub fn stars(&self) -> (stars: &Vec<StarNoise>)
        ensures
            stars@ == self@.stars,
    {
        &self.stars
    }
}

/// A frame reports a resize exactly when the canvas's width or its height
/// differs from the sky's stored size; a resized sky takes the new size and
/// holds the stars of that size, an unresized one is left as it was.
pub proof fn lemma_frame_reports_resize(s: SkyModel, width: int, height: int)
    ensures
        sky_frame(s, width, height).resized <==> (width != s.width || height != s.height),
        sky_frame(s, width, height).request_next <==> !s.reduced_motion,
        (width != s.width || height != s.height) ==> sky_after_frame(s, width, height).stars
            == star_field_of(star_count_for(width, height)),
        (width == s.width && height == s.height) ==> sky_after_frame(s, width, height) == s,
        sky_after_frame(s, width, height).width == width,
        sky_after_frame(s, width, height).height == height,
{
}

/// Every frame keeps the sky consistent: it either still has never been
/// sized or holds exactly the star field of its current size.
pub proof fn lemma_frame_keeps_sky_consistent(s: SkyModel, width: int, height: int)
    requires
        sky_consistent(s),
    ensures
        sky_consistent(sky_after_frame(s, width, height)),
{
}

/// After a frame the sky has the canvas's size, and a second frame at the
/// same size changes nothing and rebuilds nothing.
pub proof fn lemma_frame_settles(s: SkyModel, width: int, height: int)
    ensures
        sky_after_frame(s, width, height).width == width,
        sky_after_frame(s, width, height).height == height,
        !sky_frame(sky_after_frame(s, width, height), width, height).resized,
        sky_after_frame(sky_after_frame(s, width, height), width, height) == sky_after_frame(
            s,
            width,
            height,
        ),
{
}

/// The reduced-motion choice never changes, so the loop either asks for
/// every next frame or stops after the first one.
pub proof fn lemma_motion_choice_is_kept(s: SkyModel, width: int, height: int)
    ensures
        sky_after_frame(s, width, height).reduced_motion == s.reduced_motion,
        sky_frame(sky_after_frame(s, width, height), width, height).request_next == sky_frame(
            s,
            width,
            height,
        ).request_next,
        sky_frame(s, width, height).request_next == !s.reduced_motion,
{
}

} // verus!
