//! A retained-mode scene core: an image normalizer that brings decoded
//! bitmaps into the engine's canonical pixel format, an append-only display
//! list of draw primitives, a stacking-context tree that fixes paint order,
//! and an atomically replaceable scene.

use vstd::prelude::*;

pub mod display_list;
pub mod geometry;
pub mod image;
pub mod pixel;
pub mod samples;
pub mod scene;
pub mod stacking;

pub use pixel::byte_swap;
pub use pixel::byte_swap_and_premultiply;
pub use pixel::is_gif;

verus! {

/// Every construction-time failure of the scene core. All are local,
/// synchronous and non-retryable: a failed operation leaves the accumulator
/// it was aimed at unchanged.
#[derive(Clone, Copy, Debug, PartialEq, Eq, Structural)]
pub enum SceneError {
    /// A pixel buffer whose length is not a multiple of the 4-byte stride.
    MalformedImageBuffer,
    /// An alpha-only, luminance-alpha or high-dynamic-range source.
    UnsupportedPixelFormat,
    /// A rectangle with negative width or height.
    InvalidGeometry,
    /// An empty gradient stop list, an offset out of range, or offsets that
    /// are not monotonically non-decreasing.
    InvalidGradientStops,
    /// A mutation attempted on a sealed display list.
    ListSealed,
}

} // verus!
