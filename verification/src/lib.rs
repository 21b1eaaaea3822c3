//! Newton-fractal rendering engine.
//!
//! The engine maps every pixel of a viewport onto the complex plane, runs
//! Newton–Raphson iteration on a polynomial to decide which root (if any)
//! the pixel converges to, and colors the pixel by root identity and
//! convergence speed. This crate holds the verified core: the root
//! registry that assigns stable, discovery-ordered indices to converged
//! roots, the pixel-buffer renderer, the palette policy, and the
//! construction-time validation. The floating-point numerics (polynomial
//! evaluation, the Newton update, the view-rectangle arithmetic) live in
//! the unverified host around this crate, which feeds their outcomes to
//! the engine as plain values.

pub mod engine;
pub mod palette;
pub mod util;
pub mod view;
