//! Screen-region capture and multi-provider translation gateway.
//!
//! The library has two halves: a capture/crop engine that locates the
//! display containing a requested rectangle, crops the captured frame to
//! it, and encodes the result for transport; and a translation gateway
//! that builds provider-specific request payloads and extracts text from
//! provider-specific response shapes.

pub mod capture;
pub mod codec;
pub mod config;
pub mod gateway;
pub mod json;
pub mod raster;
pub mod text;
