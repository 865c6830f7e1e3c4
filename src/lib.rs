//! Discrete core of a Monte Carlo path tracer with a simulated lens camera:
//! the progressive sample schedule, the pixel-to-screen mapping, the bounce
//! cutoff of the radiance estimator, the closest-hit selection rule, the
//! spectral channel draw, the combinatorial layout of aperture polygons,
//! the traversal order of a lens stack and the smoothing filter's window.

pub mod schedule;
pub mod screen;
pub mod path;
pub mod spectrum;
pub mod polygon;
pub mod hit;
pub mod lens;
pub mod filter;
