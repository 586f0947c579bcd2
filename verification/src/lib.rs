//! Bootstrap logic for a hardware-accelerated rendering context: capability
//! negotiation, device selection, queue planning and ordered teardown.
//!
//! The library decides; the host performs the native calls and reports their
//! outcomes back as plain values.

pub mod backend;
