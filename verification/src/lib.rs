//! Pull-based access to joystick device events on Linux.
//!
//! A [`Device`] owns one device descriptor, opened read-only and
//! non-blocking. Each call to [`Device::next`] makes exactly one read
//! attempt and decodes the fixed-layout native record, if a full one
//! arrived, into a portable [`Event`]. "No event" is always transient:
//! it means nothing is pending right now, never end-of-stream.

pub mod codec;
pub mod device;
mod sys;

pub use codec::Event;
pub use device::Device;
