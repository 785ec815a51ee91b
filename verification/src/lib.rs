//! Capture, cropping, restoration and re-encoding of e-ink framebuffer
//! snapshots, with the decisions of every operation verified.
//!
//! The library decides; it does not touch the display. A caller hands it
//! what the driver and the filesystem returned, and performs what it asks
//! for.
//!
//! The library is for Linux on x86, ARM and RISC-V, the targets of the
//! devices that the driver supports. The error numbers by which it reads the
//! driver's status are those of these targets; MIPS and SPARC number some of
//! them otherwise, and the library is not for them.

pub mod codec;
pub mod config;
pub mod dump;
pub mod error;
pub mod pixels;
pub mod rect;
pub mod state;
pub mod sunxi;
pub mod text;
pub mod thin;

pub use crate::codec::ImageFormat;
pub use crate::dump::{Dump, FbInkDump, SunxiDump};
pub use crate::error::FbInkError;
pub use crate::rect::FbInkRect;
pub use crate::state::{CanonicalRotation, FbInkState};
