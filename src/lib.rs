//! Game of Life on a graphics processor: the frame logic that drives a
//! ping-pong pair of image buffers, the full-screen quad both shader passes
//! draw, and the automaton rule the simulation pass applies per pixel.

pub mod double_buffer;
pub mod frame;
pub mod quad;
pub mod grid;
