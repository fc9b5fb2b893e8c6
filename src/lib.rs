//! Fan and temperature control over the kernel's hardware-monitoring tree.
//!
//! The tree is read and written by the caller; this library decides what to
//! read, how to interpret what was read, and what to write.
pub mod text;
pub mod policy;
pub mod hwmon;
pub mod pwm;
