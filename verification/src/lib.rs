//! Wave-interference probability field over a set of fixed landmarks.
//!
//! Each landmark emits a phase-coherent wave whose phase depends on the
//! mismatch between an observed distance and the true geometric distance
//! from a query point; the superposed amplitudes form a probability-like
//! intensity showing where an observer is likely located.
//!
//! The verified core covers the landmark store, the per-frame state driver,
//! the fixed byte layout shared with the accelerated per-pixel evaluator,
//! and the double-buffered (ping-pong) feedback render state machine.
//! Numeric fields are carried as IEEE 754 bit patterns, so every statement
//! about them is exact; the transcendental arithmetic of the reference
//! evaluator runs in the unverified host layer, which converts through
//! `f32::to_bits` / `f32::from_bits`.

pub mod driver;
pub mod params;
pub mod render;
pub mod store;
