//! A verified core for a paravirtualized 2D graphics adapter driver.
//!
//! The crate is split along the driver's natural seams:
//! - [`geom`]: coordinates, rectangles and containment tests;
//! - [`pixel`]: the 32-bit pixel value type and the per-pixel
//!   combination operators (bitwise and saturating arithmetic);
//! - [`wire`]: the fixed-layout request/response records of the
//!   device protocol, and the command/response codes;
//! - [`virtq`]: the descriptor-table and available-ring bookkeeping
//!   of the submission path;
//! - [`framebuffer`]: the driver-owned pixel store and the clipped
//!   rasterization primitives (pixel, line, polygon, box fill,
//!   bitmap fill, box copy);
//! - [`gpu`]: the device state, mode discovery and the mode-switch
//!   and flush transaction sequences, phrased as step functions so
//!   that the unverified transport can drive them;
//! - small kernel-facing helpers ([`chardev`], [`thread`],
//!   [`parport`], [`utils`]).
//!
//! Everything that talks to real hardware (ring notification,
//! polling the used ring, VGA text-buffer copies) lives outside this
//! crate; the functions here only decide what is written where and
//! what each response means.

pub mod chardev;
pub mod framebuffer;
pub mod geom;
pub mod gpu;
pub mod line;
pub mod parport;
pub mod pixel;
pub mod thread;
pub mod utils;
pub mod virtq;
pub mod wire;
