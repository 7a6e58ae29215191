//! Frames, frame streams and the state a running acquisition owns: the
//! consumer it delivers to, the settings in effect and its lifecycle, with a
//! model of that state and the laws a stream obeys, all verified.
pub use image;

pub mod config;
pub mod frame;
pub mod laws;
pub mod model;
pub mod stream;

pub use frame::Frame;
pub use stream::FrameStream;
