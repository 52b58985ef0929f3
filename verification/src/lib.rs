//! A minimal GPU compute dispatch engine: it uploads a host array of 32-bit
//! integers to device memory, runs a compute kernel over it on a fixed
//! execution grid, and reads the result back through a host-mappable staging
//! buffer. The byte conversions, buffer bookkeeping, and the map/unmap
//! protocol of the dispatch cycle are verified; the device calls themselves
//! go through a small set of trusted wrappers around wgpu.

pub mod codec;
pub mod heap_profiler;
pub mod compute_shader;
pub mod wgpu_api;
