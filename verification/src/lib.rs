//! GPU-accelerated bilinear image resizing.
//!
//! The library validates a raw RGBA resize request, plans the kernel launch
//! grid, and drives the device pipeline (upload, kernel module load, entry
//! resolution, download) through contracts that pin down exactly which status
//! each call reports.  The bilinear interpolation the kernel performs is
//! modelled exactly, and a verified host implementation of the same algorithm
//! is provided.

pub mod device;
pub mod format;
pub mod kernel;
pub mod pipeline;
pub mod planner;
pub mod status;
