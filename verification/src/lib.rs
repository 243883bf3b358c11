//! Core of a spectral path-tracing renderer.
//!
//! Light is simulated across a continuous wavelength spectrum instead of three
//! fixed color channels. This crate holds the exactly checkable part of that
//! engine: the layout and bounds discipline of the progressive image
//! accumulator, the integer hash and bit-reversal driving the quasi-random
//! sampler, the nearest-hit selection rule, the stage planning of spectrum
//! resampling, the render schedule with its abort handling, and the
//! bookkeeping of the event queue between the render loop and its consumer.
//! The floating-point shading, colorimetry and geometry sit outside, driven by
//! the functions and guarantees given here.

pub mod actions;
pub mod custom_image;
pub mod intersection;
pub mod sampling;
pub mod render;
pub mod spectrum;
pub mod util;
