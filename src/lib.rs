//! A 3D-scene asset model and the sampling of its keyframe animations.
//!
//! Times are exact fixed-point counts of `2^-32` tick (`time::Time`), the
//! tick being the animation's own time unit; `Time::from_bits` turns a
//! floating-point tick value into one. Key values are generic: the
//! caller supplies the interpolation for its vector and quaternion types,
//! and the library decides, for every query time, which keys are blended and
//! by which exact fraction.

pub mod animation;
pub mod channel;
pub mod channel_laws;
pub mod log;
pub mod material;
pub mod postprocess;
pub mod time;
