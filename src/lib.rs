//! Directed 2D line segments whose coordinates are IEEE-754 binary32 values,
//! each held as its bit pattern.

pub mod compact;
pub mod lane;
pub mod point;
pub mod segment;

pub use compact::{LineSegmentU4, LineSegmentU8};
pub use point::Point2DF;
pub use segment::LineSegmentF;
