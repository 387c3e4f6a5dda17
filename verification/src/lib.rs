//! The exact part of a roulette-curve generator: a wheel rolls along a guide
//! without slipping and a pen fixed to the wheel traces a pattern.
//!
//! Numbers are held as IEEE-754 bit patterns. This crate decides on them
//! what can be decided without rounding: whether a request is in order,
//! which samples are taken and in what order, on which piece of a rod's
//! outline an arc length lies, and which way a wheel turns. The geometry
//! itself is floating-point arithmetic and is left to the caller.
pub mod request;
pub mod sampling;
pub mod scalar;
pub mod shapes;
pub mod wheels;
