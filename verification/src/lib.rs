//! Core of a mouse-click overlay: a race-free bridge between OS input-hook
//! callbacks (producers) and a frame-driven consumer, plus the indicator
//! visibility state machine that the consumer folds the events into.
//!
//! Window creation, rendering and the hook installation itself are external
//! collaborators; this crate holds the event model, the queue, the hook
//! adapter's translation logic and the consumer's state machine.

pub mod adapter;
pub mod bridge;
pub mod consumer;
pub mod event;
pub mod queue;
pub mod state;
