//! Face-overlay compositing: the geometry of where a replacement picture is
//! drawn over each detected face, and the drawing itself on top of the
//! `image` crate.

pub mod compose;
pub mod error;
pub mod geometry;
pub mod naming;
pub mod request;
