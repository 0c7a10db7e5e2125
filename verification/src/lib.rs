//! The computing core of the Waikato Entrepreneur Meetup page: the seeded
//! star field of the night sky, the animation loop's decisions, the lookup of
//! river samples along the Waikato, the page's two layouts and the
//! business-stage picker.

pub mod noise;
pub mod stars;
pub mod sky;
pub mod river;
pub mod stages;
