//! Host-side core of a GPU ray-tracing renderer.
//!
//! The crate holds everything about a render that can be decided without a
//! device: the shape of the per-pixel ray field, the quantisation of shaded
//! colours into an 8-bit raster, the order in which a render talks to its
//! compute backend, and the behaviour of the presentation loop.  Device
//! work, file access and floating-point evaluation are left to the caller;
//! single-precision values cross the boundary as their IEEE-754 bit
//! patterns.

#![allow(unused_imports)]

pub mod config;
pub mod error;
pub mod grid;
pub mod pipeline;
pub mod present;
pub mod quantize;
pub mod raster;
pub mod rays;
pub mod startup;
pub mod texture;
