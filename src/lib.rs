//! A Whitted-style ray tracer's decision core.
//!
//! Scalars reach this library as IEEE-754 bit patterns (`u64` for binary64
//! distances, `u32` for binary32 colour channels); the library compares them
//! by the standard's ordering and makes the pipeline's choices about hits,
//! shadows and colour range from those comparisons: root and nearest-hit
//! selection, shadow tests, clamping and the display-range check. The
//! arithmetic that produces the values, shading included, happens around it. The render
//! driver writes the shaded pixels into an `image` buffer.
pub mod order;
pub mod color;
pub mod geometry;
pub mod scene;
pub mod light;
pub mod render;

pub use color::{Color, ONE32, ZERO32};
pub use geometry::{entry_distance, outside_radius, ZERO64};
pub use light::{in_light, ShadowTest};
pub use order::{binary32_le, binary32_lt, binary64_le, binary64_lt};
pub use render::render_pixels;
pub use scene::{nearest_collision, Collision};
