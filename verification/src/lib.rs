//! State-synchronization packets and portal placement for a two-player game.
//!
//! The wire format is a fixed 52-byte little-endian packet carrying the
//! local player's pose, animation frame, one portal pose, and the carried
//! block's pose.  Positions and rotations that the peers exchange are IEEE
//! 754 single-precision values; this crate handles them as their 32-bit
//! bit patterns, which the byte layout stores verbatim.

pub mod codec;
pub mod portal;
