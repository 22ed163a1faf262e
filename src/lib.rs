//! Decision core of a voxel viewer's two threads: the render thread's frame
//! loop, which drives drawing, swapchain recovery, the exchange of messages
//! with the streaming worker and the two-wait barrier that installs a rebuilt
//! spatial index; and the streaming worker, which rebuilds the index and hands
//! it over one update at a time.
//!
//! Both are state machines from event to next state and action; a driver
//! performs each action and reports its outcome as the next event.
pub mod frame;
pub mod laws;
pub mod protocol;
pub mod worker;
