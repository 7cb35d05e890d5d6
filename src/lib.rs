//! A tick-driven 2-D physics scene controller: deterministic scene bootstrap,
//! a generation-tracked spawn event queue, an edge-triggered spawn detector,
//! a spawn consumer and a rolling diagnostic recorder.
//!
//! Lengths are fixed-point integers in thousandths of a world unit, so that
//! every coordinate the scene produces is exact.
pub mod geometry;
pub mod scene;
pub mod events;
pub mod spawn;
pub mod diagnostics;
pub mod schedule;
