//! Stretch policy for pictures: which axes a stretch rescales, by which
//! modifier, and the size that comes out.

pub mod factor;
pub mod scale;
pub mod mode;
pub mod policy;
pub mod picture;
