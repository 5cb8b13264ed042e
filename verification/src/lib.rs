//! Axis-aligned 2D rectangle geometry built from one-dimensional ranges.
//!
//! A [`range::Range`] is a directed 1D interval over `i64` scalars; a
//! [`rect::Rect`] is a pair of ranges, one per axis. All derived geometric
//! queries (edges, corners, containment, overlap) work on the normalized
//! ("absolute") form of each range, so a rectangle may be stored with either
//! orientation on either axis.

pub mod point;
pub mod quad;
pub mod range;
pub mod rect;
