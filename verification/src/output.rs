//! Output buffers: lock options and the geometry of locked surfaces and
//! pixel buffers.

pub mod iosurface;
pub mod pixel_buffer;
pub mod sc_stream_frame_info;

pub use iosurface::{IOSurfaceLockOptions, PlaneProperties};
pub use pixel_buffer::{PixelBufferCursorExt, PixelBufferLockFlags, PixelCursor};
