//! Host-side core of a full-screen shader renderer: row-padding arithmetic for
//! texture read-back, the uniform block that drives the animation, the render
//! context's state, the capture and interactive control loops, and the
//! adapter that turns captured frames into a looping GIF.

pub mod app;
pub mod capture;
pub mod encoder;
pub mod options;
pub mod padding;
pub mod pipeline;
pub mod ui;
pub mod vertex;
