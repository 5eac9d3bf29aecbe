//! Reusable UI primitives for building panels.
//!
//! - [`labels`]: section header text and label metrics.
//! - [`controls`]: dropdown contents and selection, control metrics.
//! - [`meter`]: the drawing steps of VU level bars and threshold gate bars.
//! - [`layout`]: separator metrics.

pub mod controls;
pub mod labels;
pub mod layout;
pub mod meter;
