//! Model of a fixed-tick terminal game loop.
//!
//! The loop drains all pending input events without blocking, advances the
//! simulation by exactly one tick when not paused, renders every iteration,
//! and sleeps the remainder of the tick budget. These modules state that
//! discipline as contracts and prove its scheduling laws; an unverified
//! front end performs the actual terminal I/O by executing the planned
//! actions in order.

pub mod event;
pub mod pace;
pub mod plan;
pub mod run;
pub mod sim;
pub mod term;
