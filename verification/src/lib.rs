//! A verified model of a headless rectangle renderer.
//!
//! The library holds the logic of a small offscreen rendering pipeline: the
//! selection of a GPU configuration, a canvas that queues clear commands and
//! paints them into a framebuffer on flush, the conversion of a captured
//! framebuffer into a standard interleaved image layout, and the stage
//! machine that drives one run of the pipeline from start to saved image.
//! The GPU itself, the windowing library and the file output sit outside, in
//! unverified glue that calls into this crate for every decision.

pub mod canvas;
pub mod color;
pub mod framebuffer;
pub mod pipeline;
pub mod select;
