//! Largest-contentful-paint detection for a split layout/compositor
//! architecture.
//!
//! A layout-side collector computes, for each paint pass of a pipeline, the
//! visible on-screen area of every reported image by composing ancestor clip
//! rectangles and reference-frame transforms, and keeps the single largest
//! one.  A compositor-side detector resolves those candidates against frame
//! paint completions, keyed by pipeline, and reports the running largest
//! image only when the externally visible result changes.

pub mod candidate;
pub mod geometry;
pub mod collector;
pub mod detector;
pub mod tree;
