//! Verified core of a batch image-compositing tool: it overlays resized
//! source images onto fixed template canvases (a five-slot poster atlas, a
//! single-image tip thumbnail, and a center-cropped painting), reusing the
//! source images cyclically when more slots than sources exist.

pub mod compose;
pub mod img;
pub mod names;
