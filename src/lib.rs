//! Incremental Williams Fractal detection over a stream of price bars.
//!
//! A detector keeps the last five bars' highs, lows and directions in a ring
//! and, for each new bar, reports whether the bar two steps back is a local
//! low (bullish fractal), a local high (bearish fractal), or neither.

pub mod bar;
pub mod fractal;
pub mod laws;
pub mod price;

pub use bar::{Bar, Close, High, Low, Open};
pub use fractal::{FractalRule, WilliamsFractal, WilliamsFractalType};
pub use price::Price;
