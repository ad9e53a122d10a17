//! Telemetry smoothing, frame rendering and device-command sequencing for a
//! small square LED panel.

pub mod average;
pub mod clock;
pub mod driver;
pub mod fonts;
pub mod frame;
pub mod pipeline;
pub mod queue;
pub mod render;
pub mod state;
