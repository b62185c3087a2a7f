//! Fixed-width storage forms of a segment, used by tessellation buffers.

use vstd::prelude::*;

verus! {

/// A segment packed into 16 bits.
#[derive(Clone, Copy, Debug, Default)]
pub struct LineSegmentU4(pub u16);

/// A segment packed into 32 bits.
#[derive(Clone, Copy, Debug, Default)]
pub struct LineSegmentU8(pub u32);

} // verus!
