//! Verified core of a PCI/xHCI host-controller driver.
//!
//! The crate models PCI configuration space, the capability list, MSI-X,
//! the xHCI register blocks and the TRB rings as plain values.  Everything
//! that touches hardware (port I/O, MMIO, DMA allocation) happens outside:
//! callers read dwords from the device and hand them in, and the library
//! hands back the values to write and the decisions to act on.

pub mod bar;
pub mod command_ring;
pub mod config;
pub mod event_ring;
pub mod extended_capability;
pub mod mouse;
pub mod msi_x;
pub mod port;
pub mod registers;
pub mod ring;
pub mod xhci;
