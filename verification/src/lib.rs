//! Monthly projection of a block of fixed indexed annuity contracts with a
//! guaranteed lifetime withdrawal benefit rider.
//!
//! All quantities are fixed-point integers: rates and fractional lives are
//! scaled by [`fixed::RATE_ONE`] (ten decimal digits), monetary amounts are
//! in micro-dollars. This keeps every computation exact and checkable.

pub mod adjuster;
pub mod fixed;
pub mod generator;
pub mod policy;
pub mod product;
pub mod projection;
pub mod pwd;
pub mod text;

pub use fixed::RATE_ONE;
