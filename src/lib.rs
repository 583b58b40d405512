//! Frame logic of a small 2D ball-physics sandbox: conditional selection helpers,
//! input and window identifiers, ball spawning from random draws, the per-frame
//! step schedule, collector removal, grid layout and a throttled readout.

pub mod aid;
pub mod window;
pub mod spawn;
pub mod schedule;
pub mod collector;
pub mod frame;
pub mod readout;
